//! Recording a token-metadata account inside one database transaction.
use crate::error::{task_send_error, ErrorView, IngesterError};
use vstd::prelude::*;

verus! {

/// The kind of a parsed token-metadata account.
#[derive(Clone, Copy, Debug, PartialEq, Eq, Structural)]
pub enum TokenMetadataKind {
    EditionV1,
    MasterEditionV1,
    MetadataV1,
    MasterEditionV2,
    EditionMarker,
    UseAuthorityRecord,
    CollectionAuthorityRecord,
    /// Any other account kind.
    Other,
}

/// What the caller does next.
#[derive(Debug, PartialEq)]
pub enum MetadataAction {
    /// Open the transaction; report through [`TokenMetadataIngest::begun`].
    BeginTransaction,
    /// Save a version 1 master edition; report through [`TokenMetadataIngest::saved`].
    SaveMasterEditionV1 { key: [u8; 32], slot: u64 },
    /// Save a version 1 asset from its metadata, keeping the background task it yields;
    /// report through [`TokenMetadataIngest::saved`].
    SaveV1Asset { key: [u8; 32], slot: u64 },
    /// Save a version 2 master edition; report through [`TokenMetadataIngest::saved`].
    SaveMasterEditionV2 { key: [u8; 32], slot: u64 },
    /// Hand the background task to the task manager; report through [`TokenMetadataIngest::sent`].
    SendTask,
    /// Commit the transaction; report through [`TokenMetadataIngest::committed`].
    Commit,
    /// The ingest is over, with this result. An uncommitted transaction is dropped.
    Finish(Result<(), IngesterError>),
}

/// The stage an ingest has reached: the step whose outcome it waits for.
#[derive(Clone, Copy, Debug, PartialEq, Eq, Structural)]
pub enum MetadataStage {
    Begin,
    Save,
    Send,
    Commit,
    Finished,
}

/// The save that records an account of this kind, if the kind is recorded at all.
pub open spec fn save_action(kind: TokenMetadataKind, key: [u8; 32], slot: u64) -> Option<MetadataAction> {
    match kind {
        TokenMetadataKind::MasterEditionV1 => Some(MetadataAction::SaveMasterEditionV1 { key, slot }),
        TokenMetadataKind::MetadataV1 => Some(MetadataAction::SaveV1Asset { key, slot }),
        TokenMetadataKind::MasterEditionV2 => Some(MetadataAction::SaveMasterEditionV2 { key, slot }),
        _ => None,
    }
}

/// The actions of an ingest in which every step succeeds: open the transaction, save,
/// send the task (for an asset only), commit, and finish with success. A kind that is not
/// recorded finishes with `NotImplemented` right after the transaction is opened.
pub open spec fn success_actions(kind: TokenMetadataKind, key: [u8; 32], slot: u64) -> Seq<MetadataAction> {
    match save_action(kind, key, slot) {
        Some(save) => if kind == TokenMetadataKind::MetadataV1 {
            seq![MetadataAction::BeginTransaction, save, MetadataAction::SendTask, MetadataAction::Commit,
                MetadataAction::Finish(Ok(()))]
        } else {
            seq![MetadataAction::BeginTransaction, save, MetadataAction::Commit, MetadataAction::Finish(Ok(()))]
        },
        None => seq![MetadataAction::BeginTransaction, MetadataAction::Finish(Err(IngesterError::NotImplemented))],
    }
}

/// How many actions an ingest of this kind has handed out when it waits at `stage`.
pub open spec fn handed_out(kind: TokenMetadataKind, stage: MetadataStage) -> int {
    match stage {
        MetadataStage::Begin => 1,
        MetadataStage::Save => 2,
        MetadataStage::Send => 3,
        MetadataStage::Commit => if kind == TokenMetadataKind::MetadataV1 { 4 } else { 3 },
        MetadataStage::Finished => 0,
    }
}

/// The ingest of one token-metadata account.
pub struct TokenMetadataIngest {
    key: [u8; 32],
    slot: u64,
    kind: TokenMetadataKind,
    stage: MetadataStage,
    issued: Ghost<Seq<MetadataAction>>,
}

impl TokenMetadataIngest {
    /// The account's key.
    pub closed spec fn key(&self) -> [u8; 32] {
        self.key
    }

    /// The slot at which the account was seen.
    pub closed spec fn slot(&self) -> u64 {
        self.slot
    }

    /// The account's kind.
    pub closed spec fn kind(&self) -> TokenMetadataKind {
        self.kind
    }

    /// The step whose outcome the ingest waits for.
    pub closed spec fn stage(&self) -> MetadataStage {
        self.stage
    }

    /// The actions handed out so far, in order.
    pub closed spec fn issued(&self) -> Seq<MetadataAction> {
        self.issued@
    }

    /// The ingest's internal consistency: until it is over, it has handed out exactly the
    /// first actions of a successful run, as many as its stage says.
    pub open spec fn inv(&self) -> bool {
        let expected = success_actions(self.kind(), self.key(), self.slot());
        self.stage() != MetadataStage::Finished ==> {
            &&& self.issued() == expected.take(handed_out(self.kind(), self.stage()))
            &&& handed_out(self.kind(), self.stage()) < expected.len()
            &&& self.stage() == MetadataStage::Send ==> self.kind() == TokenMetadataKind::MetadataV1
        }
    }


    /// Hands out `action`, which must be the next action of a successful run.
    fn hand_out(&mut self, action: MetadataAction, stage: MetadataStage) -> (r: MetadataAction)
        requires
            old(self).stage() != MetadataStage::Finished,
            old(self).issued() == success_actions(old(self).kind(), old(self).key(), old(self).slot()).take(
                old(self).issued().len() as int,
            ),
            old(self).issued().len() < success_actions(old(self).kind(), old(self).key(), old(self).slot()).len(),
            action == success_actions(old(self).kind(), old(self).key(), old(self).slot())[old(self).issued().len() as int],
        ensures
            r == action,
            final(self).key() == old(self).key(),
            final(self).slot() == old(self).slot(),
            final(self).kind() == old(self).kind(),
            final(self).stage() == stage,
            final(self).issued() == old(self).issued().push(action),
            final(self).issued() == success_actions(old(self).kind(), old(self).key(), old(self).slot()).take(
                old(self).issued().len() + 1int,
            ),
    {
        proof {
            let expected = success_actions(self.kind, self.key, self.slot);
            assert(expected.take(self.issued@.len() + 1int) =~= self.issued@.push(action));
            self.issued@ = self.issued@.push(action);
        }
        self.stage = stage;
        action
    }

    /// Takes the outcome of opening the transaction (a failure carries the database's
    /// message): a failure ends the ingest with a storage write error; otherwise the save
    /// for the account's kind follows, or `NotImplemented` for a kind that is not recorded.
    pub fn begun(&mut self, outcome: Result<(), String>) -> (r: MetadataAction)
        requires
            old(self).inv(),
            old(self).stage() == MetadataStage::Begin,
        ensures
            final(self).inv(),
            final(self).key() == old(self).key(),
            final(self).slot() == old(self).slot(),
            final(self).kind() == old(self).kind(),
            final(self).issued() == old(self).issued().push(r),
            match outcome {
                Err(text) => r == MetadataAction::Finish(Err(IngesterError::StorageWriteError(text))),
                Ok(()) => match save_action(old(self).kind(), old(self).key(), old(self).slot()) {
                    Some(save) => r == save && final(self).stage() == MetadataStage::Save,
                    None => r == MetadataAction::Finish(Err(IngesterError::NotImplemented)),
                },
            },
            r is Finish <==> final(self).stage() == MetadataStage::Finished,
    {
        match outcome {
            Err(text) => self.finish(Err(IngesterError::StorageWriteError(text))),
            Ok(()) => {
                let key = self.key;
                let slot = self.slot;
                match self.kind {
                    TokenMetadataKind::MasterEditionV1 => self.hand_out(
                        MetadataAction::SaveMasterEditionV1 { key, slot },
                        MetadataStage::Save,
                    ),
                    TokenMetadataKind::MetadataV1 => self.hand_out(
                        MetadataAction::SaveV1Asset { key, slot },
                        MetadataStage::Save,
                    ),
                    TokenMetadataKind::MasterEditionV2 => self.hand_out(
                        MetadataAction::SaveMasterEditionV2 { key, slot },
                        MetadataStage::Save,
                    ),
                    _ => self.finish(Err(IngesterError::NotImplemented)),
                }
            },
        }
    }

    /// Ends the ingest with `result`.
    fn finish(&mut self, result: Result<(), IngesterError>) -> (r: MetadataAction)
        ensures
            final(self).key() == old(self).key(),
            final(self).slot() == old(self).slot(),
            final(self).kind() == old(self).kind(),
            final(self).stage() == MetadataStage::Finished,
            r == MetadataAction::Finish(result),
            final(self).issued() == old(self).issued().push(r),
    {
        let ghost r = MetadataAction::Finish(result);
        proof {
            self.issued@ = self.issued@.push(r);
        }
        self.stage = MetadataStage::Finished;
        MetadataAction::Finish(result)
    }

    /// Takes the outcome of the save: a failure ends the ingest with the save's own error;
    /// otherwise an asset's background task is sent next, and any other account's
    /// transaction is committed.
    pub fn saved(&mut self, outcome: Result<(), IngesterError>) -> (r: MetadataAction)
        requires
            old(self).inv(),
            old(self).stage() == MetadataStage::Save,
        ensures
            final(self).inv(),
            final(self).key() == old(self).key(),
            final(self).slot() == old(self).slot(),
            final(self).kind() == old(self).kind(),
            final(self).issued() == old(self).issued().push(r),
            match outcome {
                Err(e) => r == MetadataAction::Finish(Err(e)),
                Ok(()) => if old(self).kind() == TokenMetadataKind::MetadataV1 {
                    r == MetadataAction::SendTask && final(self).stage() == MetadataStage::Send
                } else {
                    r == MetadataAction::Commit && final(self).stage() == MetadataStage::Commit
                },
            },
            r is Finish <==> final(self).stage() == MetadataStage::Finished,
    {
        match outcome {
            Err(e) => self.finish(Err(e)),
            Ok(()) => {
                if self.kind == TokenMetadataKind::MetadataV1 {
                    self.hand_out(MetadataAction::SendTask, MetadataStage::Send)
                } else {
                    self.hand_out(MetadataAction::Commit, MetadataStage::Commit)
                }
            },
        }
    }

    /// Takes the outcome of sending the asset's task (a failure carries the sender's
    /// message): a failure ends the ingest with a task manager error; otherwise the
    /// transaction is committed.
    pub fn sent(&mut self, outcome: Result<(), String>) -> (r: MetadataAction)
        requires
            old(self).inv(),
            old(self).stage() == MetadataStage::Send,
        ensures
            final(self).inv(),
            final(self).key() == old(self).key(),
            final(self).slot() == old(self).slot(),
            final(self).kind() == old(self).kind(),
            final(self).issued() == old(self).issued().push(r),
            match outcome {
                Err(text) => r matches MetadataAction::Finish(Err(e)) && e@ == task_send_error(text@),
                Ok(()) => r == MetadataAction::Commit && final(self).stage() == MetadataStage::Commit,
            },
            r is Finish <==> final(self).stage() == MetadataStage::Finished,
    {
        match outcome {
            Err(text) => self.finish(Err(IngesterError::task_send_failure(&text))),
            Ok(()) => self.hand_out(MetadataAction::Commit, MetadataStage::Commit),
        }
    }

    /// Takes the outcome of the commit (a failure carries the database's message): the
    /// ingest ends with success, or with a storage write error.
    pub fn committed(&mut self, outcome: Result<(), String>) -> (r: MetadataAction)
        requires
            old(self).inv(),
            old(self).stage() == MetadataStage::Commit,
        ensures
            final(self).inv(),
            final(self).key() == old(self).key(),
            final(self).slot() == old(self).slot(),
            final(self).kind() == old(self).kind(),
            final(self).stage() == MetadataStage::Finished,
            final(self).issued() == old(self).issued().push(r),
            match outcome {
                Err(text) => r == MetadataAction::Finish(Err(IngesterError::StorageWriteError(text))),
                Ok(()) => {
                    &&& r == MetadataAction::Finish(Ok(()))
                    &&& final(self).issued() == success_actions(old(self).kind(), old(self).key(), old(self).slot())
                },
            },
    {
        match outcome {
            Err(text) => self.finish(Err(IngesterError::StorageWriteError(text))),
            Ok(()) => {
                let r = self.finish(Ok(()));
                proof {
                    let expected = success_actions(self.kind, self.key, self.slot);
                    assert(self.issued@ =~= expected);
                }
                r
            },
        }
    }
}


/// A run in which every step succeeds opens the transaction first and finishes last. The
/// transaction is committed exactly when the account's kind is recorded, and only after its
/// save; an asset's task is sent between its save and the commit; a kind that is not
/// recorded is neither saved nor committed and finishes with `NotImplemented`.
pub proof fn lemma_success_actions(kind: TokenMetadataKind, key: [u8; 32], slot: u64)
    ensures
        success_actions(kind, key, slot)[0] == MetadataAction::BeginTransaction,
        success_actions(kind, key, slot).last() is Finish,
        save_action(kind, key, slot) is Some ==> {
            let actions = success_actions(kind, key, slot);
            &&& actions[1] == save_action(kind, key, slot)->0
            &&& actions[actions.len() - 2] == MetadataAction::Commit
            &&& actions.last() == MetadataAction::Finish(Ok(()))
            &&& (kind == TokenMetadataKind::MetadataV1 <==> actions.contains(MetadataAction::SendTask))
            &&& kind == TokenMetadataKind::MetadataV1 ==> actions[2] == MetadataAction::SendTask
        },
        save_action(kind, key, slot) is None ==> success_actions(kind, key, slot) == seq![
            MetadataAction::BeginTransaction,
            MetadataAction::Finish(Err(IngesterError::NotImplemented)),
        ],
        save_action(kind, key, slot) is Some <==> (kind == TokenMetadataKind::MasterEditionV1 || kind
            == TokenMetadataKind::MetadataV1 || kind == TokenMetadataKind::MasterEditionV2),
{
    let actions = success_actions(kind, key, slot);
    if save_action(kind, key, slot) is Some {
        if kind == TokenMetadataKind::MetadataV1 {
            assert(actions[2] == MetadataAction::SendTask);
        } else {
            assert forall|i: int| 0 <= i < actions.len() implies actions[i] != MetadataAction::SendTask by {}
        }
    }
}

/// Starts recording the account `key`, seen at `slot`, of the given kind: the
/// transaction is opened first.
pub fn handle_token_metadata_account(key: [u8; 32], slot: u64, kind: TokenMetadataKind) -> (r: (
    TokenMetadataIngest,
    MetadataAction,
))
    ensures
        r.0.inv(),
        r.0.key() == key,
        r.0.slot() == slot,
        r.0.kind() == kind,
        r.0.stage() == MetadataStage::Begin,
        r.0.issued() == seq![MetadataAction::BeginTransaction],
        r.1 == MetadataAction::BeginTransaction,
{
    let ghost first = seq![MetadataAction::BeginTransaction];
    let ingest = TokenMetadataIngest { key, slot, kind, stage: MetadataStage::Begin, issued: Ghost(first) };
    proof {
        assert(success_actions(kind, key, slot).take(1) =~= first);
    }
    (ingest, MetadataAction::BeginTransaction)
}


/// The save an account gets is made under the account's own key and slot: a version 1 or
/// version 2 master edition is saved as such, version 1 metadata as an asset, and no other
/// kind is saved.
pub proof fn lemma_save_action(kind: TokenMetadataKind, key: [u8; 32], slot: u64)
    ensures
        kind == TokenMetadataKind::MasterEditionV1 ==> save_action(kind, key, slot) == Some(
            MetadataAction::SaveMasterEditionV1 { key, slot },
        ),
        kind == TokenMetadataKind::MetadataV1 ==> save_action(kind, key, slot) == Some(
            MetadataAction::SaveV1Asset { key, slot },
        ),
        kind == TokenMetadataKind::MasterEditionV2 ==> save_action(kind, key, slot) == Some(
            MetadataAction::SaveMasterEditionV2 { key, slot },
        ),
        kind != TokenMetadataKind::MasterEditionV1 && kind != TokenMetadataKind::MetadataV1 && kind
            != TokenMetadataKind::MasterEditionV2 ==> save_action(kind, key, slot) is None,
        save_action(kind, key, slot) matches Some(MetadataAction::SaveMasterEditionV1 { key: k, slot: s }) ==> k@
            == key@ && s == slot,
        save_action(kind, key, slot) matches Some(MetadataAction::SaveV1Asset { key: k, slot: s }) ==> k@ == key@
            && s == slot,
        save_action(kind, key, slot) matches Some(MetadataAction::SaveMasterEditionV2 { key: k, slot: s }) ==> k@
            == key@ && s == slot,
{
}

} // verus!
