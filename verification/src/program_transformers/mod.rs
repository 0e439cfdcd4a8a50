//! Turning on-chain account updates into database writes.
pub mod candy_guard;
pub mod freeze;
pub mod token_metadata;

use vstd::prelude::*;

verus! {

/// The state of one column in a row that is written: a new value, the value the row
/// already holds, or no value at all (the column is left to its default).
#[derive(Clone, Debug, PartialEq)]
pub enum ActiveValue<T> {
    Assigned(T),
    Unchanged(T),
    NotSet,
}

/// A row of the `candy_machine` table as it is read back.
#[derive(Clone, Debug, PartialEq)]
pub struct CandyMachineRow {
    pub id: Vec<u8>,
    pub features: Option<i32>,
    pub authority: Vec<u8>,
    pub items_redeemed: i32,
    pub mint_authority: Option<Vec<u8>>,
    pub candy_guard_id: Option<Vec<u8>>,
    pub collection_mint: Option<Vec<u8>>,
    pub version: i32,
    /// Seconds since the Unix epoch.
    pub created_at: Option<i64>,
    /// Seconds since the Unix epoch.
    pub last_minted: Option<i64>,
}

/// A write to the `candy_machine` table: each column says whether it is set, kept or untouched.
#[derive(Clone, Debug, PartialEq)]
pub struct CandyMachineActive {
    pub id: ActiveValue<Vec<u8>>,
    pub features: ActiveValue<Option<i32>>,
    pub authority: ActiveValue<Vec<u8>>,
    pub items_redeemed: ActiveValue<i32>,
    pub mint_authority: ActiveValue<Option<Vec<u8>>>,
    pub candy_guard_id: ActiveValue<Option<[u8; 32]>>,
    pub collection_mint: ActiveValue<Option<Vec<u8>>>,
    pub version: ActiveValue<i32>,
    pub created_at: ActiveValue<Option<i64>>,
    pub last_minted: ActiveValue<Option<i64>>,
    pub allow_thaw: ActiveValue<Option<bool>>,
    pub frozen_count: ActiveValue<Option<u64>>,
    pub mint_start: ActiveValue<Option<i64>>,
    pub freeze_time: ActiveValue<Option<i64>>,
    pub freeze_fee: ActiveValue<Option<u64>>,
}

/// The bytes of a 32-byte key as a vector.
pub fn key_to_vec(key: &[u8; 32]) -> (r: Vec<u8>)
    ensures
        r@ == key@,
{
    let mut r: Vec<u8> = Vec::with_capacity(32);
    let mut i: usize = 0;
    while i < 32
        invariant
            i <= 32,
            key@.len() == 32,
            r@ == key@.take(i as int),
        decreases 32 - i,
    {
        r.push(key[i]);
        i = i + 1;
        assert(r@ =~= key@.take(i as int));
    }
    assert(key@.take(32) =~= key@);
    r
}

/// Whether a byte vector holds exactly the bytes of a key.
pub fn bytes_equal_key(bytes: &Vec<u8>, key: &[u8; 32]) -> (r: bool)
    ensures
        r == (bytes@ == key@),
{
    if bytes.len() != 32 {
        return false;
    }
    let mut i: usize = 0;
    while i < 32
        invariant
            i <= 32,
            bytes@.len() == 32,
            key@.len() == 32,
            forall|j: int| 0 <= j < i ==> bytes@[j] == key@[j],
        decreases 32 - i,
    {
        if bytes[i] != key[i] {
            return false;
        }
        i = i + 1;
    }
    assert(bytes@ =~= key@);
    true
}


/// A row of the `candy_machine` table as stored: each column holds its value, or `None`
/// where it was never written (its default).
pub struct StoredMachine {
    pub features: Option<Option<i32>>,
    pub authority: Option<Vec<u8>>,
    pub items_redeemed: Option<i32>,
    pub mint_authority: Option<Option<Vec<u8>>>,
    pub candy_guard_id: Option<Option<[u8; 32]>>,
    pub collection_mint: Option<Option<Vec<u8>>>,
    pub version: Option<i32>,
    pub created_at: Option<Option<i64>>,
    pub last_minted: Option<Option<i64>>,
    pub allow_thaw: Option<Option<bool>>,
    pub frozen_count: Option<Option<u64>>,
    pub mint_start: Option<Option<i64>>,
    pub freeze_time: Option<Option<i64>>,
    pub freeze_fee: Option<Option<u64>>,
}

/// What an insert stores in a column: the value given, or nothing.
pub open spec fn written<T>(v: ActiveValue<T>) -> Option<T> {
    match v {
        ActiveValue::Assigned(x) => Some(x),
        ActiveValue::Unchanged(x) => Some(x),
        ActiveValue::NotSet => None,
    }
}

/// What an update leaves in a column: a newly set value replaces the current one; a kept
/// or untouched column stays as it is.
pub open spec fn kept<T>(current: Option<T>, v: ActiveValue<T>) -> Option<T> {
    match v {
        ActiveValue::Assigned(x) => Some(x),
        _ => current,
    }
}

/// The key (the bytes of the id) a write to `candy_machine` addresses.
pub open spec fn machine_key(a: CandyMachineActive) -> Seq<u8> {
    match a.id {
        ActiveValue::Assigned(id) => id@,
        ActiveValue::Unchanged(id) => id@,
        ActiveValue::NotSet => Seq::empty(),
    }
}

/// The row an insert of `a` stores.
pub open spec fn inserted(a: CandyMachineActive) -> StoredMachine {
    StoredMachine {
        features: written(a.features),
        authority: written(a.authority),
        items_redeemed: written(a.items_redeemed),
        mint_authority: written(a.mint_authority),
        candy_guard_id: written(a.candy_guard_id),
        collection_mint: written(a.collection_mint),
        version: written(a.version),
        created_at: written(a.created_at),
        last_minted: written(a.last_minted),
        allow_thaw: written(a.allow_thaw),
        frozen_count: written(a.frozen_count),
        mint_start: written(a.mint_start),
        freeze_time: written(a.freeze_time),
        freeze_fee: written(a.freeze_fee),
    }
}

/// The row `s` after an update with `a`: the columns `a` sets take their new values.
pub open spec fn updated(s: StoredMachine, a: CandyMachineActive) -> StoredMachine {
    StoredMachine {
        features: kept(s.features, a.features),
        authority: kept(s.authority, a.authority),
        items_redeemed: kept(s.items_redeemed, a.items_redeemed),
        mint_authority: kept(s.mint_authority, a.mint_authority),
        candy_guard_id: kept(s.candy_guard_id, a.candy_guard_id),
        collection_mint: kept(s.collection_mint, a.collection_mint),
        version: kept(s.version, a.version),
        created_at: kept(s.created_at, a.created_at),
        last_minted: kept(s.last_minted, a.last_minted),
        allow_thaw: kept(s.allow_thaw, a.allow_thaw),
        frozen_count: kept(s.frozen_count, a.frozen_count),
        mint_start: kept(s.mint_start, a.mint_start),
        freeze_time: kept(s.freeze_time, a.freeze_time),
        freeze_fee: kept(s.freeze_fee, a.freeze_fee),
    }
}

/// The `candy_machine` table after `update ... set (what a sets) where id = key`: the row
/// with that key is updated; without one, nothing changes.
pub open spec fn update_machine(t: Map<Seq<u8>, StoredMachine>, key: Seq<u8>, a: CandyMachineActive) -> Map<
    Seq<u8>,
    StoredMachine,
> {
    if t.contains_key(key) {
        t.insert(key, updated(t[key], a))
    } else {
        t
    }
}

} // verus!
