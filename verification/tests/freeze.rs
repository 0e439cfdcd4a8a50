use nft_ingester::program_transformers::freeze::{freeze, freeze_outcome, FreezePda};
use nft_ingester::program_transformers::ActiveValue;

fn pda() -> FreezePda {
    FreezePda {
        candy_machine: [3; 32],
        allow_thaw: true,
        frozen_count: 12,
        mint_start: Some(1_670_000_000),
        freeze_time: 86_400,
        freeze_fee: 0,
    }
}

#[test]
fn freeze_updates_the_freeze_columns_of_its_machine() {
    let update = freeze(&pda());
    assert_eq!(update.machine_id, vec![3u8; 32]);
    let row = update.row;
    assert_eq!(row.id, ActiveValue::Unchanged(vec![3u8; 32]));
    assert_eq!(row.allow_thaw, ActiveValue::Assigned(Some(true)));
    assert_eq!(row.frozen_count, ActiveValue::Assigned(Some(12)));
    assert_eq!(row.mint_start, ActiveValue::Assigned(Some(1_670_000_000)));
    assert_eq!(row.freeze_time, ActiveValue::Assigned(Some(86_400)));
    assert_eq!(row.freeze_fee, ActiveValue::Assigned(Some(0)));
    assert_eq!(row.version, ActiveValue::NotSet);
    assert_eq!(row.candy_guard_id, ActiveValue::NotSet);
    assert_eq!(row.authority, ActiveValue::NotSet);
}

#[test]
fn freeze_without_mint_start_sets_it_to_null() {
    let mut f = pda();
    f.mint_start = None;
    assert_eq!(freeze(&f).row.mint_start, ActiveValue::Assigned(None));
}

#[test]
fn freeze_reports_success_whatever_the_update_did() {
    assert!(freeze_outcome(Ok(())).is_ok());
    assert!(freeze_outcome(Err("relation does not exist".to_string())).is_ok());
}

#[test]
fn freezing_twice_gives_the_same_update() {
    assert_eq!(freeze(&pda()), freeze(&pda()));
}
