use nft_ingester::program_transformers::token_metadata::{
    handle_token_metadata_account, MetadataAction, TokenMetadataKind,
};
use nft_ingester::IngesterError;

const KEY: [u8; 32] = [5; 32];
const SLOT: u64 = 42;

#[test]
fn an_asset_is_saved_its_task_sent_and_committed() {
    let (mut ingest, action) = handle_token_metadata_account(KEY, SLOT, TokenMetadataKind::MetadataV1);
    assert_eq!(action, MetadataAction::BeginTransaction);
    assert_eq!(ingest.begun(Ok(())), MetadataAction::SaveV1Asset { key: KEY, slot: SLOT });
    assert_eq!(ingest.saved(Ok(())), MetadataAction::SendTask);
    assert_eq!(ingest.sent(Ok(())), MetadataAction::Commit);
    assert_eq!(ingest.committed(Ok(())), MetadataAction::Finish(Ok(())));
}

#[test]
fn master_editions_are_saved_and_committed() {
    let (mut ingest, _) = handle_token_metadata_account(KEY, SLOT, TokenMetadataKind::MasterEditionV1);
    assert_eq!(ingest.begun(Ok(())), MetadataAction::SaveMasterEditionV1 { key: KEY, slot: SLOT });
    assert_eq!(ingest.saved(Ok(())), MetadataAction::Commit);
    assert_eq!(ingest.committed(Ok(())), MetadataAction::Finish(Ok(())));

    let (mut ingest, _) = handle_token_metadata_account(KEY, SLOT, TokenMetadataKind::MasterEditionV2);
    assert_eq!(ingest.begun(Ok(())), MetadataAction::SaveMasterEditionV2 { key: KEY, slot: SLOT });
    assert_eq!(ingest.saved(Ok(())), MetadataAction::Commit);
    assert_eq!(ingest.committed(Ok(())), MetadataAction::Finish(Ok(())));
}

#[test]
fn other_kinds_are_not_implemented() {
    for kind in [
        TokenMetadataKind::EditionV1,
        TokenMetadataKind::EditionMarker,
        TokenMetadataKind::UseAuthorityRecord,
        TokenMetadataKind::CollectionAuthorityRecord,
        TokenMetadataKind::Other,
    ] {
        let (mut ingest, _) = handle_token_metadata_account(KEY, SLOT, kind);
        assert_eq!(ingest.begun(Ok(())), MetadataAction::Finish(Err(IngesterError::NotImplemented)));
    }
}

#[test]
fn a_failed_begin_is_a_storage_error() {
    let (mut ingest, _) = handle_token_metadata_account(KEY, SLOT, TokenMetadataKind::MetadataV1);
    assert_eq!(
        ingest.begun(Err("pool timed out".to_string())),
        MetadataAction::Finish(Err(IngesterError::StorageWriteError("pool timed out".to_string())))
    );
}

#[test]
fn a_failed_save_keeps_its_error_and_is_not_committed() {
    let (mut ingest, _) = handle_token_metadata_account(KEY, SLOT, TokenMetadataKind::MasterEditionV1);
    ingest.begun(Ok(()));
    assert_eq!(
        ingest.saved(Err(IngesterError::DeserializationError("bad uri".to_string()))),
        MetadataAction::Finish(Err(IngesterError::DeserializationError("bad uri".to_string())))
    );
}

#[test]
fn a_failed_send_is_a_task_manager_error() {
    let (mut ingest, _) = handle_token_metadata_account(KEY, SLOT, TokenMetadataKind::MetadataV1);
    ingest.begun(Ok(()));
    ingest.saved(Ok(()));
    assert_eq!(
        ingest.sent(Err("channel closed".to_string())),
        MetadataAction::Finish(Err(IngesterError::TaskManagerError(
            "Could not create task: \"channel closed\"".to_string()
        )))
    );
}

#[test]
fn a_failed_commit_is_a_storage_error() {
    let (mut ingest, _) = handle_token_metadata_account(KEY, SLOT, TokenMetadataKind::MasterEditionV2);
    ingest.begun(Ok(()));
    ingest.saved(Ok(()));
    assert_eq!(
        ingest.committed(Err("serialization failure".to_string())),
        MetadataAction::Finish(Err(IngesterError::StorageWriteError("serialization failure".to_string())))
    );
}
