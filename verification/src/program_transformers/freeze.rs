//! Recording a candy machine's freeze account.
use super::{key_to_vec, update_machine, ActiveValue, CandyMachineActive, StoredMachine};
use crate::error::IngesterError;
use vstd::prelude::*;

verus! {

/// The freeze account of a candy machine.
#[derive(Clone, Copy, Debug, PartialEq, Eq)]
pub struct FreezePda {
    pub candy_machine: [u8; 32],
    pub allow_thaw: bool,
    pub frozen_count: u64,
    pub mint_start: Option<i64>,
    pub freeze_time: i64,
    pub freeze_fee: u64,
}

/// An update of the `candy_machine` row whose id is `machine_id`.
#[derive(Clone, Debug, PartialEq)]
pub struct FreezeUpdate {
    pub machine_id: Vec<u8>,
    pub row: CandyMachineActive,
}

/// The update a freeze account makes: the machine's id is kept, the five freeze columns
/// take the account's values, and every other column is left alone.
pub open spec fn freeze_row(f: FreezePda, id: Vec<u8>) -> CandyMachineActive {
    CandyMachineActive {
        id: ActiveValue::Unchanged(id),
        features: ActiveValue::NotSet,
        authority: ActiveValue::NotSet,
        items_redeemed: ActiveValue::NotSet,
        mint_authority: ActiveValue::NotSet,
        candy_guard_id: ActiveValue::NotSet,
        collection_mint: ActiveValue::NotSet,
        version: ActiveValue::NotSet,
        created_at: ActiveValue::NotSet,
        last_minted: ActiveValue::NotSet,
        allow_thaw: ActiveValue::Assigned(Some(f.allow_thaw)),
        frozen_count: ActiveValue::Assigned(Some(f.frozen_count)),
        mint_start: ActiveValue::Assigned(f.mint_start),
        freeze_time: ActiveValue::Assigned(Some(f.freeze_time)),
        freeze_fee: ActiveValue::Assigned(Some(f.freeze_fee)),
    }
}

/// The update that records the freeze account `f` on its candy machine's row.
pub fn freeze(f: &FreezePda) -> (r: FreezeUpdate)
    ensures
        r.machine_id@ == f.candy_machine@,
        r.row.id matches ActiveValue::Unchanged(id) && id@ == f.candy_machine@,
        r.row == freeze_row(*f, r.row.id->Unchanged_0),
{
    let id = key_to_vec(&f.candy_machine);
    let machine_id = key_to_vec(&f.candy_machine);
    let row = CandyMachineActive {
        id: ActiveValue::Unchanged(id),
        features: ActiveValue::NotSet,
        authority: ActiveValue::NotSet,
        items_redeemed: ActiveValue::NotSet,
        mint_authority: ActiveValue::NotSet,
        candy_guard_id: ActiveValue::NotSet,
        collection_mint: ActiveValue::NotSet,
        version: ActiveValue::NotSet,
        created_at: ActiveValue::NotSet,
        last_minted: ActiveValue::NotSet,
        allow_thaw: ActiveValue::Assigned(Some(f.allow_thaw)),
        frozen_count: ActiveValue::Assigned(Some(f.frozen_count)),
        mint_start: ActiveValue::Assigned(f.mint_start),
        freeze_time: ActiveValue::Assigned(Some(f.freeze_time)),
        freeze_fee: ActiveValue::Assigned(Some(f.freeze_fee)),
    };
    FreezeUpdate { machine_id, row }
}

/// The result of recording a freeze account once its update has run: success, whatever
/// the update's own outcome was; the update's outcome is not reported.
pub fn freeze_outcome(update: Result<(), String>) -> (r: Result<(), IngesterError>)
    ensures
        r is Ok,
{
    let _ = update;
    Ok(())
}


/// Whether `u` is an update that [`freeze`] gives for the freeze account `f`.
pub open spec fn freeze_update_of(f: FreezePda, u: FreezeUpdate) -> bool {
    &&& u.machine_id@ == f.candy_machine@
    &&& u.row.id matches ActiveValue::Unchanged(id) && id@ == f.candy_machine@
    &&& u.row == freeze_row(f, u.row.id->Unchanged_0)
}

/// The `candy_machine` table after the update `u` has run.
pub open spec fn after_freeze(t: Map<Seq<u8>, StoredMachine>, u: FreezeUpdate) -> Map<Seq<u8>, StoredMachine> {
    update_machine(t, u.machine_id@, u.row)
}

/// Recording the same freeze account a second time leaves the `candy_machine` table as the
/// first time left it; the machine's row holds the account's five freeze values.
pub proof fn lemma_freeze_rerun(t: Map<Seq<u8>, StoredMachine>, f: FreezePda, first: FreezeUpdate, second: FreezeUpdate)
    requires
        freeze_update_of(f, first),
        freeze_update_of(f, second),
    ensures
        after_freeze(after_freeze(t, first), second) == after_freeze(t, first),
        after_freeze(t, first).dom() == t.dom(),
        t.contains_key(f.candy_machine@) ==> {
            let row = after_freeze(t, first)[f.candy_machine@];
            &&& row.allow_thaw == Some(Some(f.allow_thaw))
            &&& row.frozen_count == Some(Some(f.frozen_count))
            &&& row.mint_start == Some(f.mint_start)
            &&& row.freeze_time == Some(Some(f.freeze_time))
            &&& row.freeze_fee == Some(Some(f.freeze_fee))
        },
{
    let once = after_freeze(t, first);
    assert(after_freeze(once, second) =~= once);
    assert(once.dom() =~= t.dom());
}


/// A freeze update touches only the machine's five freeze columns, setting them to the
/// account's values, and addresses the machine by the account's key; every other column
/// of every stored machine keeps its value.
pub proof fn lemma_freeze_keeps_other_columns(t: Map<Seq<u8>, StoredMachine>, f: FreezePda, u: FreezeUpdate, k: Seq<u8>)
    requires
        freeze_update_of(f, u),
    ensures
        u.row.features == ActiveValue::<Option<i32>>::NotSet,
        u.row.authority == ActiveValue::<Vec<u8>>::NotSet,
        u.row.items_redeemed == ActiveValue::<i32>::NotSet,
        u.row.mint_authority == ActiveValue::<Option<Vec<u8>>>::NotSet,
        u.row.candy_guard_id == ActiveValue::<Option<[u8; 32]>>::NotSet,
        u.row.collection_mint == ActiveValue::<Option<Vec<u8>>>::NotSet,
        u.row.version == ActiveValue::<i32>::NotSet,
        u.row.created_at == ActiveValue::<Option<i64>>::NotSet,
        u.row.last_minted == ActiveValue::<Option<i64>>::NotSet,
        u.row.allow_thaw == ActiveValue::Assigned(Some(f.allow_thaw)),
        u.row.frozen_count == ActiveValue::Assigned(Some(f.frozen_count)),
        u.row.mint_start == ActiveValue::Assigned(f.mint_start),
        u.row.freeze_time == ActiveValue::Assigned(Some(f.freeze_time)),
        u.row.freeze_fee == ActiveValue::Assigned(Some(f.freeze_fee)),
        after_freeze(t, u).contains_key(k) == t.contains_key(k),
        t.contains_key(k) && k != f.candy_machine@ ==> after_freeze(t, u)[k] == t[k],
        t.contains_key(k) ==> {
            let before = t[k];
            let after = after_freeze(t, u)[k];
            &&& after.features == before.features
            &&& after.authority == before.authority
            &&& after.items_redeemed == before.items_redeemed
            &&& after.mint_authority == before.mint_authority
            &&& after.candy_guard_id == before.candy_guard_id
            &&& after.collection_mint == before.collection_mint
            &&& after.version == before.version
            &&& after.created_at == before.created_at
            &&& after.last_minted == before.last_minted
        },
{
}

} // verus!
