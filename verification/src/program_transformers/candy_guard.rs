//! Recording a candy guard account: its own row, the candy machines it wraps, and one
//! row per guard group.
use super::{bytes_equal_key, inserted, machine_key, written, ActiveValue, CandyMachineActive, CandyMachineRow, StoredMachine};
use crate::error::IngesterError;
use vstd::prelude::*;

verus! {

/// The fields of a candy guard account that are stored.
#[derive(Clone, Copy, Debug, PartialEq, Eq)]
pub struct CandyGuardAccount {
    pub base: [u8; 32],
    pub bump: u8,
    pub authority: [u8; 32],
}

/// The guards enabled in one guard set, one optional value per stored setting.
#[derive(Clone, Copy, Debug, PartialEq, Eq)]
pub struct GuardSet {
    pub bot_tax_lamports: Option<u64>,
    pub bot_tax_last_instruction: Option<bool>,
    pub start_date: Option<i64>,
    pub end_date: Option<i64>,
    pub third_party_signer_key: Option<[u8; 32]>,
    pub nft_payment_destination: Option<[u8; 32]>,
    pub nft_payment_required_collection: Option<[u8; 32]>,
    pub mint_limit_id: Option<u8>,
    pub mint_limit_limit: Option<u16>,
    pub gatekeeper_network: Option<[u8; 32]>,
    pub gatekeeper_expire_on_use: Option<bool>,
    pub sol_payment_lamports: Option<u64>,
    pub sol_payment_destination: Option<[u8; 32]>,
    pub redeemed_amount_maximum: Option<u64>,
    pub address_gate_address: Option<[u8; 32]>,
    pub freeze_sol_payment_lamports: Option<u64>,
    pub freeze_sol_payment_destination: Option<[u8; 32]>,
    pub nft_gate_required_collection: Option<[u8; 32]>,
    pub token_burn_amount: Option<u64>,
    pub token_burn_mint: Option<[u8; 32]>,
    pub nft_burn_required_collection: Option<[u8; 32]>,
    pub token_payment_amount: Option<u64>,
    pub token_payment_mint: Option<[u8; 32]>,
    pub token_payment_destination_ata: Option<[u8; 32]>,
    pub allow_list_merkle_root: Option<[u8; 32]>,
    pub freeze_token_payment_amount: Option<u64>,
    pub freeze_token_payment_mint: Option<[u8; 32]>,
    pub freeze_token_payment_destination_ata: Option<[u8; 32]>,
}

/// A named guard group.
#[derive(Clone, Debug, PartialEq)]
pub struct GuardGroup {
    pub label: String,
    pub guards: GuardSet,
}

/// The guard data of a candy guard: the default guard set and the optional named groups.
#[derive(Clone, Debug, PartialEq)]
pub struct CandyGuardSettings {
    pub default: GuardSet,
    pub groups: Option<Vec<GuardGroup>>,
}

/// A row of the `candy_guard` table.
#[derive(Clone, Copy, Debug, PartialEq, Eq)]
pub struct CandyGuardRow {
    pub id: [u8; 32],
    pub base: [u8; 32],
    pub bump: i16,
    pub authority: [u8; 32],
}

/// A row of the `candy_guard_group` table; its own id is left to the database.
#[derive(Clone, Debug, PartialEq)]
pub struct GuardGroupRow {
    pub label: Option<String>,
    pub candy_guard_id: [u8; 32],
    pub guards: GuardSet,
}

/// Columns named by the upserts.
#[derive(Clone, Copy, Debug, PartialEq, Eq, Structural)]
pub enum UpsertColumn {
    Id,
    Authority,
    CandyGuardId,
    Label,
    GatekeeperNetwork,
    GatekeeperExpireOnUse,
    AllowListMerkleRoot,
    ThirdPartySignerKey,
    MintLimitId,
    MintLimitLimit,
    NftPaymentDestination,
    NftPaymentRequiredCollection,
    BotTaxLamports,
    BotTaxLastInstruction,
    SolPaymentDestination,
    SolPaymentLamports,
    StartDate,
    EndDate,
    RedeemedAmountMaximum,
    AddressGateAddress,
    FreezeSolPaymentLamports,
    FreezeSolPaymentDestination,
    TokenGateAmount,
    TokenGateMint,
    NftGateRequiredCollection,
    TokenBurnAmount,
    TokenBurnMint,
    NftBurnRequiredCollection,
    TokenPaymentAmount,
    TokenPaymentDestinationAta,
    TokenPaymentMint,
    FreezeTokenPaymentAmount,
    FreezeTokenPaymentMint,
    FreezeTokenPaymentDestinationAta,
}

/// An insert that, on a conflict in its conflict column, updates its update columns.
#[derive(Clone, Debug, PartialEq)]
pub enum GuardStatement {
    /// Into `candy_guard`.
    UpsertCandyGuard(CandyGuardRow),
    /// Into `candy_machine`.
    UpsertCandyMachine(CandyMachineActive),
    /// The default guard set, into `candy_guard_group`.
    UpsertDefaultGroup(GuardGroupRow),
    /// A named guard group, into `candy_guard_group`.
    UpsertGroup(GuardGroupRow),
}

/// The query for the candy machines that a candy guard may wrap.
#[derive(Clone, Copy, Debug, PartialEq, Eq)]
pub struct MachineQuery {
    pub version: i32,
    pub mint_authority: [u8; 32],
}

/// What the caller does next.
#[derive(Debug, PartialEq)]
pub enum GuardAction {
    /// Run the statement and report its outcome to [`CandyGuardIngest::statement_done`].
    Execute(GuardStatement),
    /// Run the query and report the rows to [`CandyGuardIngest::machines_found`].
    FindMachines(MachineQuery),
    /// The ingest is over, with this result.
    Finish(Result<(), IngesterError>),
}

/// The columns a guard group upsert overwrites.
pub open spec fn group_update_columns() -> Seq<UpsertColumn> {
    seq![
        UpsertColumn::Label,
        UpsertColumn::GatekeeperNetwork,
        UpsertColumn::GatekeeperExpireOnUse,
        UpsertColumn::AllowListMerkleRoot,
        UpsertColumn::ThirdPartySignerKey,
        UpsertColumn::MintLimitId,
        UpsertColumn::MintLimitLimit,
        UpsertColumn::NftPaymentDestination,
        UpsertColumn::NftPaymentRequiredCollection,
        UpsertColumn::BotTaxLamports,
        UpsertColumn::BotTaxLastInstruction,
        UpsertColumn::SolPaymentDestination,
        UpsertColumn::SolPaymentLamports,
        UpsertColumn::StartDate,
        UpsertColumn::EndDate,
        UpsertColumn::RedeemedAmountMaximum,
        UpsertColumn::AddressGateAddress,
        UpsertColumn::FreezeSolPaymentLamports,
        UpsertColumn::FreezeSolPaymentDestination,
        UpsertColumn::TokenGateAmount,
        UpsertColumn::TokenGateMint,
        UpsertColumn::NftGateRequiredCollection,
        UpsertColumn::TokenBurnAmount,
        UpsertColumn::TokenBurnMint,
        UpsertColumn::NftBurnRequiredCollection,
        UpsertColumn::TokenPaymentAmount,
        UpsertColumn::TokenPaymentDestinationAta,
        UpsertColumn::TokenPaymentMint,
        UpsertColumn::FreezeTokenPaymentAmount,
        UpsertColumn::FreezeTokenPaymentMint,
        UpsertColumn::FreezeTokenPaymentDestinationAta,
    ]
}

impl GuardStatement {
    /// The conflict column: the id, but the candy guard id for a named group.
    pub open spec fn spec_conflict_column(&self) -> UpsertColumn {
        match self {
            GuardStatement::UpsertGroup(_) => UpsertColumn::CandyGuardId,
            _ => UpsertColumn::Id,
        }
    }

    /// The update columns: the authority of a candy guard, the candy guard id of a
    /// candy machine, and every stored setting of a guard group.
    pub open spec fn spec_update_columns(&self) -> Seq<UpsertColumn> {
        match self {
            GuardStatement::UpsertCandyGuard(_) => seq![UpsertColumn::Authority],
            GuardStatement::UpsertCandyMachine(_) => seq![UpsertColumn::CandyGuardId],
            _ => group_update_columns(),
        }
    }

    /// The column whose conflict turns the insert into an update.
    pub fn conflict_column(&self) -> (r: UpsertColumn)
        ensures
            r == self.spec_conflict_column(),
    {
        match self {
            GuardStatement::UpsertGroup(_) => UpsertColumn::CandyGuardId,
            _ => UpsertColumn::Id,
        }
    }

    /// The columns an update overwrites.
    pub fn update_columns(&self) -> (r: Vec<UpsertColumn>)
        ensures
            r@ == self.spec_update_columns(),
    {
        match self {
            GuardStatement::UpsertCandyGuard(_) => vec![UpsertColumn::Authority],
            GuardStatement::UpsertCandyMachine(_) => vec![UpsertColumn::CandyGuardId],
            _ => {
                let r = vec![
                    UpsertColumn::Label,
                    UpsertColumn::GatekeeperNetwork,
                    UpsertColumn::GatekeeperExpireOnUse,
                    UpsertColumn::AllowListMerkleRoot,
                    UpsertColumn::ThirdPartySignerKey,
                    UpsertColumn::MintLimitId,
                    UpsertColumn::MintLimitLimit,
                    UpsertColumn::NftPaymentDestination,
                    UpsertColumn::NftPaymentRequiredCollection,
                    UpsertColumn::BotTaxLamports,
                    UpsertColumn::BotTaxLastInstruction,
                    UpsertColumn::SolPaymentDestination,
                    UpsertColumn::SolPaymentLamports,
                    UpsertColumn::StartDate,
                    UpsertColumn::EndDate,
                    UpsertColumn::RedeemedAmountMaximum,
                    UpsertColumn::AddressGateAddress,
                    UpsertColumn::FreezeSolPaymentLamports,
                    UpsertColumn::FreezeSolPaymentDestination,
                    UpsertColumn::TokenGateAmount,
                    UpsertColumn::TokenGateMint,
                    UpsertColumn::NftGateRequiredCollection,
                    UpsertColumn::TokenBurnAmount,
                    UpsertColumn::TokenBurnMint,
                    UpsertColumn::NftBurnRequiredCollection,
                    UpsertColumn::TokenPaymentAmount,
                    UpsertColumn::TokenPaymentDestinationAta,
                    UpsertColumn::TokenPaymentMint,
                    UpsertColumn::FreezeTokenPaymentAmount,
                    UpsertColumn::FreezeTokenPaymentMint,
                    UpsertColumn::FreezeTokenPaymentDestinationAta,
                ];
                assert(r@ =~= group_update_columns());
                r
            },
        }
    }
}


/// The row of the candy guard itself.
pub open spec fn candy_guard_row(id: [u8; 32], guard: CandyGuardAccount) -> CandyGuardRow {
    CandyGuardRow { id, base: guard.base, bump: guard.bump as i16, authority: guard.authority }
}

/// The row of one guard set of the candy guard `id`.
pub open spec fn group_row(label: Option<String>, id: [u8; 32], guards: GuardSet) -> GuardGroupRow {
    GuardGroupRow { label, candy_guard_id: id, guards }
}

/// The upsert of one named group.
pub open spec fn named_group_statement(id: [u8; 32], group: GuardGroup) -> GuardStatement {
    GuardStatement::UpsertGroup(group_row(Some(group.label), id, group.guards))
}

/// The guard group upserts: the default guard set first, with no label, then each named
/// group in order, under its label.
pub open spec fn group_statements(id: [u8; 32], settings: CandyGuardSettings) -> Seq<GuardStatement> {
    seq![GuardStatement::UpsertDefaultGroup(group_row(None, id, settings.default))] + match settings.groups {
        Some(groups) => groups@.map_values(|g: GuardGroup| named_group_statement(id, g)),
        None => Seq::empty(),
    }
}

/// Whether a candy machine's mint authority is the key `id`.
pub open spec fn minted_by(machine: CandyMachineRow, id: [u8; 32]) -> bool {
    match machine.mint_authority {
        Some(authority) => authority@ == id@,
        None => false,
    }
}

/// The candy machines, in order, whose mint authority is `id`.
pub open spec fn guarded(found: Seq<CandyMachineRow>, id: [u8; 32]) -> Seq<CandyMachineRow>
    decreases found.len(),
{
    if found.len() == 0 {
        Seq::empty()
    } else {
        let rest = guarded(found.drop_last(), id);
        if minted_by(found.last(), id) {
            rest.push(found.last())
        } else {
            rest
        }
    }
}

/// The write that records that the candy guard `id` wraps a candy machine: the guard id is
/// set, the version is kept at 3, the machine's other stored columns are kept as they are,
/// and the freeze columns are left alone.
pub open spec fn wrapped(machine: CandyMachineRow, id: [u8; 32]) -> CandyMachineActive {
    CandyMachineActive {
        id: ActiveValue::Unchanged(machine.id),
        features: ActiveValue::Unchanged(machine.features),
        authority: ActiveValue::Unchanged(machine.authority),
        items_redeemed: ActiveValue::Unchanged(machine.items_redeemed),
        mint_authority: ActiveValue::Unchanged(machine.mint_authority),
        candy_guard_id: ActiveValue::Assigned(Some(id)),
        collection_mint: ActiveValue::Unchanged(machine.collection_mint),
        version: ActiveValue::Unchanged(3),
        created_at: ActiveValue::Unchanged(machine.created_at),
        last_minted: ActiveValue::Unchanged(machine.last_minted),
        allow_thaw: ActiveValue::NotSet,
        frozen_count: ActiveValue::NotSet,
        mint_start: ActiveValue::NotSet,
        freeze_time: ActiveValue::NotSet,
        freeze_fee: ActiveValue::NotSet,
    }
}

/// The candy machine upserts for the machines found.
pub open spec fn machine_statements(found: Seq<CandyMachineRow>, id: [u8; 32]) -> Seq<GuardStatement> {
    guarded(found, id).map_values(|m: CandyMachineRow| GuardStatement::UpsertCandyMachine(wrapped(m, id)))
}

/// Every statement of an ingest, in order: the candy guard, the machines it wraps, then
/// its guard groups.
pub open spec fn ingest_plan(
    id: [u8; 32],
    guard: CandyGuardAccount,
    settings: CandyGuardSettings,
    found: Seq<CandyMachineRow>,
) -> Seq<GuardStatement> {
    seq![GuardStatement::UpsertCandyGuard(candy_guard_row(id, guard))] + machine_statements(found, id)
        + group_statements(id, settings)
}

/// The row of the candy guard itself.
pub fn make_candy_guard_row(id: [u8; 32], guard: &CandyGuardAccount) -> (r: CandyGuardRow)
    ensures
        r == candy_guard_row(id, *guard),
{
    CandyGuardRow { id, base: guard.base, bump: guard.bump as i16, authority: guard.authority }
}

/// The guard group upserts of the candy guard `id`.
pub fn make_group_statements(id: [u8; 32], settings: CandyGuardSettings) -> (r: Vec<GuardStatement>)
    ensures
        r@ == group_statements(id, settings),
{
    let ghost s = settings;
    let mut r: Vec<GuardStatement> = Vec::new();
    r.push(GuardStatement::UpsertDefaultGroup(GuardGroupRow { label: None, candy_guard_id: id, guards: settings.default }));
    match settings.groups {
        Some(mut groups) => {
            let ghost all = groups@;
            let ghost mut k: int = 0;
            while groups.len() > 0
                invariant
                    0 <= k <= all.len(),
                    groups@ == all.skip(k),
                    r@ == seq![GuardStatement::UpsertDefaultGroup(group_row(None, id, s.default))]
                        + all.take(k).map_values(|g: GuardGroup| named_group_statement(id, g)),
                decreases groups.len(),
            {
                let g = groups.remove(0);
                r.push(GuardStatement::UpsertGroup(GuardGroupRow { label: Some(g.label), candy_guard_id: id, guards: g.guards }));
                proof {
                    assert(all.take(k + 1) =~= all.take(k).push(all[k]));
                    assert(all.take(k + 1).map_values(|g: GuardGroup| named_group_statement(id, g))
                        =~= all.take(k).map_values(|g: GuardGroup| named_group_statement(id, g)).push(named_group_statement(id, all[k])));
                    k = k + 1;
                    assert(groups@ =~= all.skip(k));
                }
            }
            assert(all.take(k) =~= all);
            assert(r@ =~= group_statements(id, s));
        },
        None => {
            assert(r@ =~= group_statements(id, s));
        },
    }
    r
}

/// The write that records that the candy guard `id` wraps `machine`.
pub fn wrap_machine(machine: CandyMachineRow, id: [u8; 32]) -> (r: CandyMachineActive)
    ensures
        r == wrapped(machine, id),
{
    CandyMachineActive {
        id: ActiveValue::Unchanged(machine.id),
        features: ActiveValue::Unchanged(machine.features),
        authority: ActiveValue::Unchanged(machine.authority),
        items_redeemed: ActiveValue::Unchanged(machine.items_redeemed),
        mint_authority: ActiveValue::Unchanged(machine.mint_authority),
        candy_guard_id: ActiveValue::Assigned(Some(id)),
        collection_mint: ActiveValue::Unchanged(machine.collection_mint),
        version: ActiveValue::Unchanged(3),
        created_at: ActiveValue::Unchanged(machine.created_at),
        last_minted: ActiveValue::Unchanged(machine.last_minted),
        allow_thaw: ActiveValue::NotSet,
        frozen_count: ActiveValue::NotSet,
        mint_start: ActiveValue::NotSet,
        freeze_time: ActiveValue::NotSet,
        freeze_fee: ActiveValue::NotSet,
    }
}

/// The candy machine upserts for the machines found: one for each machine, in order, whose
/// mint authority is `id`.
pub fn make_machine_statements(found: Vec<CandyMachineRow>, id: [u8; 32]) -> (r: Vec<GuardStatement>)
    ensures
        r@ == machine_statements(found@, id),
{
    let ghost all = found@;
    let mut found = found;
    let mut r: Vec<GuardStatement> = Vec::new();
    let ghost mut k: int = 0;
    while found.len() > 0
        invariant
            0 <= k <= all.len(),
            found@ == all.skip(k),
            r@ == machine_statements(all.take(k), id),
        decreases found.len(),
    {
        let m = found.remove(0);
        proof {
            assert(all.take(k + 1).drop_last() =~= all.take(k));
            assert(all.take(k + 1).last() == m);
        }
        let keep = match &m.mint_authority {
            Some(authority) => bytes_equal_key(authority, &id),
            None => false,
        };
        if keep {
            r.push(GuardStatement::UpsertCandyMachine(wrap_machine(m, id)));
        }
        proof {
            let g = guarded(all.take(k), id);
            let f = |m: CandyMachineRow| GuardStatement::UpsertCandyMachine(wrapped(m, id));
            if keep {
                assert(g.push(all[k]).map_values(f) =~= g.map_values(f).push(f(all[k])));
            }
            k = k + 1;
            assert(found@ =~= all.skip(k));
        }
    }
    assert(all.take(k) =~= all);
    r
}

/// Where an ingest stands.
#[derive(Clone, Copy, Debug, PartialEq, Eq, Structural)]
pub enum IngestPhase {
    /// The candy guard's own upsert is running.
    GuardUpsert,
    /// The query for the wrapped machines is running.
    FindingMachines,
    /// The machine and group upserts are running, one at a time.
    Writing,
    /// The ingest is over.
    Finished,
}

/// The ingest of one candy guard account. It hands out one database action at a time and
/// stops at the first failure.
pub struct CandyGuardIngest {
    id: [u8; 32],
    phase: IngestPhase,
    groups: Vec<GuardStatement>,
    writes: Vec<GuardStatement>,
    guard: Ghost<CandyGuardAccount>,
    settings: Ghost<CandyGuardSettings>,
    found: Ghost<Seq<CandyMachineRow>>,
    issued: Ghost<Seq<GuardStatement>>,
}

impl CandyGuardIngest {
    /// The candy guard's key.
    pub closed spec fn id(&self) -> [u8; 32] {
        self.id
    }

    /// The candy guard account being recorded.
    pub closed spec fn guard(&self) -> CandyGuardAccount {
        self.guard@
    }

    /// Its guard data.
    pub closed spec fn settings(&self) -> CandyGuardSettings {
        self.settings@
    }

    /// The candy machines the query returned; empty before it returns.
    pub closed spec fn found(&self) -> Seq<CandyMachineRow> {
        self.found@
    }

    /// The statements handed out so far, in order.
    pub closed spec fn issued(&self) -> Seq<GuardStatement> {
        self.issued@
    }

    /// Where the ingest stands.
    pub closed spec fn phase(&self) -> IngestPhase {
        self.phase
    }

    /// The full plan of this ingest, once the machines are known.
    pub open spec fn plan(&self) -> Seq<GuardStatement> {
        ingest_plan(self.id(), self.guard(), self.settings(), self.found())
    }

    /// The ingest's internal consistency.
    pub closed spec fn inv(&self) -> bool {
        match self.phase {
            IngestPhase::GuardUpsert | IngestPhase::FindingMachines => {
                &&& self.issued@ == seq![GuardStatement::UpsertCandyGuard(candy_guard_row(self.id, self.guard@))]
                &&& self.groups@ == group_statements(self.id, self.settings@)
                &&& self.found@ == Seq::<CandyMachineRow>::empty()
            },
            IngestPhase::Writing => {
                &&& self.issued@ + self.writes@ == self.plan()
                &&& 2 <= self.issued@.len()
            },
            IngestPhase::Finished => true,
        }
    }


    /// Takes the outcome of the statement last handed out (a failure carries the database's
    /// message). A failure ends the ingest with a storage write error; after the candy
    /// guard's upsert comes the machine query; after a write comes the next statement of the
    /// plan, or success once the plan is done.
    pub fn statement_done(&mut self, outcome: Result<(), String>) -> (r: GuardAction)
        requires
            old(self).inv(),
            old(self).phase() == IngestPhase::GuardUpsert || old(self).phase() == IngestPhase::Writing,
        ensures
            final(self).inv(),
            final(self).id() == old(self).id(),
            final(self).guard() == old(self).guard(),
            final(self).settings() == old(self).settings(),
            final(self).found() == old(self).found(),
            match outcome {
                Err(text) => {
                    &&& r == GuardAction::Finish(Err(IngesterError::StorageWriteError(text)))
                    &&& final(self).phase() == IngestPhase::Finished
                    &&& final(self).issued() == old(self).issued()
                },
                Ok(()) => if old(self).phase() == IngestPhase::GuardUpsert {
                    &&& r == GuardAction::FindMachines(MachineQuery { version: 3, mint_authority: old(self).id() })
                    &&& final(self).phase() == IngestPhase::FindingMachines
                    &&& final(self).issued() == old(self).issued()
                } else if old(self).issued().len() < old(self).plan().len() {
                    let next = old(self).plan()[old(self).issued().len() as int];
                    &&& r == GuardAction::Execute(next)
                    &&& final(self).phase() == IngestPhase::Writing
                    &&& final(self).issued() == old(self).issued().push(next)
                } else {
                    &&& r == GuardAction::Finish(Ok(()))
                    &&& final(self).phase() == IngestPhase::Finished
                    &&& final(self).issued() == old(self).plan()
                },
            },
    {
        match outcome {
            Err(text) => {
                self.phase = IngestPhase::Finished;
                GuardAction::Finish(Err(IngesterError::StorageWriteError(text)))
            },
            Ok(()) => {
                if self.phase == IngestPhase::GuardUpsert {
                    self.phase = IngestPhase::FindingMachines;
                    GuardAction::FindMachines(MachineQuery { version: 3, mint_authority: self.id })
                } else if self.writes.len() > 0 {
                    let ghost before = self.issued@;
                    let ghost rest = self.writes@;
                    let next = self.writes.remove(0);
                    proof {
                        self.issued@ = before.push(next);
                        assert(self.issued@ + self.writes@ =~= before + rest);
                    }
                    GuardAction::Execute(next)
                } else {
                    proof {
                        assert(self.issued@ =~= self.issued@ + self.writes@);
                    }
                    self.phase = IngestPhase::Finished;
                    GuardAction::Finish(Ok(()))
                }
            },
        }
    }

    /// Takes the outcome of the machine query. A failure ends the ingest with a storage
    /// write error; otherwise the writes start with the first statement after the candy
    /// guard's own. Every machine returned must have a mint authority.
    pub fn machines_found(&mut self, found: Result<Vec<CandyMachineRow>, String>) -> (r: GuardAction)
        requires
            old(self).inv(),
            old(self).phase() == IngestPhase::FindingMachines,
            found matches Ok(rows) ==> forall|i: int|
                0 <= i < rows@.len() ==> (#[trigger] rows@[i]).mint_authority is Some,
        ensures
            final(self).inv(),
            final(self).id() == old(self).id(),
            final(self).guard() == old(self).guard(),
            final(self).settings() == old(self).settings(),
            match found {
                Err(text) => {
                    &&& r == GuardAction::Finish(Err(IngesterError::StorageWriteError(text)))
                    &&& final(self).phase() == IngestPhase::Finished
                    &&& final(self).issued() == old(self).issued()
                },
                Ok(rows) => {
                    &&& final(self).found() == rows@
                    &&& final(self).phase() == IngestPhase::Writing
                    &&& 1 < final(self).plan().len()
                    &&& r == GuardAction::Execute(final(self).plan()[1])
                    &&& final(self).issued() == old(self).issued().push(final(self).plan()[1])
                },
            },
    {
        match found {
            Err(text) => {
                self.phase = IngestPhase::Finished;
                GuardAction::Finish(Err(IngesterError::StorageWriteError(text)))
            },
            Ok(rows) => {
                let ghost found_rows = rows@;
                let mut writes = make_machine_statements(rows, self.id);
                let mut groups = Vec::new();
                std::mem::swap(&mut groups, &mut self.groups);
                let ghost tail = groups@;
                writes.append(&mut groups);
                let ghost all = writes@;
                let ghost head = self.issued@;
                assert(all.len() >= 1);
                let next = writes.remove(0);
                self.writes = writes;
                proof {
                    self.found@ = found_rows;
                    self.issued@ = head.push(next);
                    assert(head + all =~= self.plan());
                    assert(self.issued@ + self.writes@ =~= head + all);
                }
                self.phase = IngestPhase::Writing;
                GuardAction::Execute(next)
            },
        }
    }
}


/// Every guard group upsert carries the candy guard's id; the default guard set comes
/// first, with no label, and then each named group, in order, under its label.
pub proof fn lemma_group_statements(id: [u8; 32], settings: CandyGuardSettings)
    ensures
        group_statements(id, settings).len() == 1 + match settings.groups {
            Some(groups) => groups@.len(),
            None => 0,
        },
        group_statements(id, settings)[0] == GuardStatement::UpsertDefaultGroup(
            GuardGroupRow { label: None, candy_guard_id: id, guards: settings.default },
        ),
        forall|i: int|
            0 < i < group_statements(id, settings).len() ==> {
                &&& settings.groups is Some
                &&& #[trigger] group_statements(id, settings)[i] == GuardStatement::UpsertGroup(
                    GuardGroupRow {
                        label: Some(settings.groups->0@[i - 1].label),
                        candy_guard_id: id,
                        guards: settings.groups->0@[i - 1].guards,
                    },
                )
            },
{
}

/// A guard group upsert never overwrites a group's id or its candy guard id.
pub proof fn lemma_group_keys_kept(stmt: GuardStatement)
    requires
        stmt is UpsertDefaultGroup || stmt is UpsertGroup,
    ensures
        !stmt.spec_update_columns().contains(UpsertColumn::Id),
        !stmt.spec_update_columns().contains(UpsertColumn::CandyGuardId),
{
    let cols = group_update_columns();
    assert forall|i: int| 0 <= i < cols.len() implies cols[i] != UpsertColumn::Id && cols[i]
        != UpsertColumn::CandyGuardId by {}
}

/// The machines a candy guard records are machines that were found, in the order found,
/// each with the guard as its mint authority; no machine found with that mint authority is
/// left out.
pub proof fn lemma_guarded(found: Seq<CandyMachineRow>, id: [u8; 32])
    ensures
        guarded(found, id).len() <= found.len(),
        forall|i: int| 0 <= i < guarded(found, id).len() ==> minted_by(#[trigger] guarded(found, id)[i], id),
        forall|i: int| 0 <= i < guarded(found, id).len() ==> found.contains(#[trigger] guarded(found, id)[i]),
        (forall|i: int| 0 <= i < found.len() ==> minted_by(#[trigger] found[i], id)) ==> guarded(found, id) == found,
        (forall|i: int| 0 <= i < found.len() ==> !minted_by(#[trigger] found[i], id)) ==> guarded(found, id).len() == 0,
    decreases found.len(),
{
    if found.len() > 0 {
        let init = found.drop_last();
        lemma_guarded(init, id);
        assert forall|i: int| 0 <= i < guarded(found, id).len() implies found.contains(
            #[trigger] guarded(found, id)[i],
        ) by {
            if i < guarded(init, id).len() {
                let j = choose|j: int| 0 <= j < init.len() && init[j] == guarded(init, id)[i];
                assert(found[j] == init[j]);
            } else {
                assert(found[found.len() - 1] == found.last());
            }
        }
        if forall|i: int| 0 <= i < found.len() ==> minted_by(#[trigger] found[i], id) {
            assert forall|i: int| 0 <= i < init.len() implies minted_by(#[trigger] init[i], id) by {
                assert(init[i] == found[i]);
            }
            assert(minted_by(found[found.len() - 1], id));
            assert(init.push(found.last()) =~= found);
        }
        if forall|i: int| 0 <= i < found.len() ==> !minted_by(#[trigger] found[i], id) {
            assert forall|i: int| 0 <= i < init.len() implies !minted_by(#[trigger] init[i], id) by {
                assert(init[i] == found[i]);
            }
            assert(!minted_by(found[found.len() - 1], id));
        }
    }
}

/// Recording a wrapped machine sets its candy guard id to the guard, keeps its version at 3,
/// keeps every other stored column as it was read, and leaves the freeze columns alone.
pub proof fn lemma_wrapped(machine: CandyMachineRow, id: [u8; 32])
    ensures
        wrapped(machine, id).candy_guard_id == ActiveValue::Assigned(Some(id)),
        wrapped(machine, id).version == ActiveValue::<i32>::Unchanged(3),
        wrapped(machine, id).id == ActiveValue::Unchanged(machine.id),
        wrapped(machine, id).authority == ActiveValue::Unchanged(machine.authority),
        wrapped(machine, id).mint_authority == ActiveValue::Unchanged(machine.mint_authority),
        wrapped(machine, id).features == ActiveValue::Unchanged(machine.features),
        wrapped(machine, id).items_redeemed == ActiveValue::Unchanged(machine.items_redeemed),
        wrapped(machine, id).collection_mint == ActiveValue::Unchanged(machine.collection_mint),
        wrapped(machine, id).created_at == ActiveValue::Unchanged(machine.created_at),
        wrapped(machine, id).last_minted == ActiveValue::Unchanged(machine.last_minted),
        wrapped(machine, id).allow_thaw == ActiveValue::<Option<bool>>::NotSet,
        wrapped(machine, id).frozen_count == ActiveValue::<Option<u64>>::NotSet,
        wrapped(machine, id).mint_start == ActiveValue::<Option<i64>>::NotSet,
        wrapped(machine, id).freeze_time == ActiveValue::<Option<i64>>::NotSet,
        wrapped(machine, id).freeze_fee == ActiveValue::<Option<u64>>::NotSet,
{
}

/// An ingest's plan records the candy guard first, then one upsert per wrapped machine,
/// then one per guard set.
pub proof fn lemma_plan_shape(
    id: [u8; 32],
    guard: CandyGuardAccount,
    settings: CandyGuardSettings,
    found: Seq<CandyMachineRow>,
)
    ensures
        ingest_plan(id, guard, settings, found)[0] == GuardStatement::UpsertCandyGuard(candy_guard_row(id, guard)),
        ingest_plan(id, guard, settings, found).len() == 1 + guarded(found, id).len() + group_statements(
            id,
            settings,
        ).len(),
        forall|i: int|
            0 <= i < guarded(found, id).len() ==> #[trigger] ingest_plan(id, guard, settings, found)[1 + i]
                == GuardStatement::UpsertCandyMachine(wrapped(guarded(found, id)[i], id)),
        forall|i: int|
            0 <= i < group_statements(id, settings).len() ==> #[trigger] ingest_plan(id, guard, settings, found)[1
                + guarded(found, id).len() + i] == group_statements(id, settings)[i],
{
}

/// Starts recording the candy guard `id`: its own upsert comes first.
pub fn candy_guard(id: [u8; 32], guard: &CandyGuardAccount, settings: CandyGuardSettings) -> (r: (
    CandyGuardIngest,
    GuardAction,
))
    ensures
        r.0.inv(),
        r.0.id() == id,
        r.0.guard() == *guard,
        r.0.settings() == settings,
        r.0.phase() == IngestPhase::GuardUpsert,
        r.0.found() == Seq::<CandyMachineRow>::empty(),
        r.0.issued() == seq![GuardStatement::UpsertCandyGuard(candy_guard_row(id, *guard))],
        r.1 == GuardAction::Execute(GuardStatement::UpsertCandyGuard(candy_guard_row(id, *guard))),
{
    let ghost s = settings;
    let row = make_candy_guard_row(id, guard);
    let groups = make_group_statements(id, settings);
    let ghost first = seq![GuardStatement::UpsertCandyGuard(row)];
    let ingest = CandyGuardIngest {
        id,
        phase: IngestPhase::GuardUpsert,
        groups,
        writes: Vec::new(),
        guard: Ghost(*guard),
        settings: Ghost(s),
        found: Ghost(Seq::empty()),
        issued: Ghost(first),
    };
    (ingest, GuardAction::Execute(GuardStatement::UpsertCandyGuard(row)))
}


/// The `candy_guard` table after the upsert of `row`: a row with the same id gets the new
/// authority and keeps its other columns; without one, `row` is inserted.
pub open spec fn upsert_guard(g: Map<Seq<u8>, CandyGuardRow>, row: CandyGuardRow) -> Map<Seq<u8>, CandyGuardRow> {
    let k = row.id@;
    if g.contains_key(k) {
        g.insert(k, CandyGuardRow { id: g[k].id, base: g[k].base, bump: g[k].bump, authority: row.authority })
    } else {
        g.insert(k, row)
    }
}

/// A stored machine with its candy guard id replaced.
pub open spec fn relinked(s: StoredMachine, link: Option<Option<[u8; 32]>>) -> StoredMachine {
    StoredMachine { candy_guard_id: link, ..s }
}

/// The `candy_machine` table after the upsert of `a`: a row with the same id gets the
/// new candy guard id and keeps its other columns; without one, `a` is inserted.
pub open spec fn upsert_machine(m: Map<Seq<u8>, StoredMachine>, a: CandyMachineActive) -> Map<Seq<u8>, StoredMachine> {
    let k = machine_key(a);
    if m.contains_key(k) {
        m.insert(k, relinked(m[k], written(a.candy_guard_id)))
    } else {
        m.insert(k, inserted(a))
    }
}

/// The `candy_guard` table after the statements have run in order.
pub open spec fn guards_after(g: Map<Seq<u8>, CandyGuardRow>, ss: Seq<GuardStatement>) -> Map<Seq<u8>, CandyGuardRow>
    decreases ss.len(),
{
    if ss.len() == 0 {
        g
    } else {
        let before = guards_after(g, ss.drop_last());
        match ss.last() {
            GuardStatement::UpsertCandyGuard(row) => upsert_guard(before, row),
            _ => before,
        }
    }
}

/// The `candy_machine` table after the statements have run in order.
pub open spec fn machines_after(m: Map<Seq<u8>, StoredMachine>, ss: Seq<GuardStatement>) -> Map<
    Seq<u8>,
    StoredMachine,
>
    decreases ss.len(),
{
    if ss.len() == 0 {
        m
    } else {
        let before = machines_after(m, ss.drop_last());
        match ss.last() {
            GuardStatement::UpsertCandyMachine(a) => upsert_machine(before, a),
            _ => before,
        }
    }
}

/// Whether one of the statements writes the candy machine with key `k`.
pub open spec fn touched(ss: Seq<GuardStatement>, k: Seq<u8>) -> bool
    decreases ss.len(),
{
    if ss.len() == 0 {
        false
    } else {
        (ss.last() matches GuardStatement::UpsertCandyMachine(a) && machine_key(a) == k) || touched(
            ss.drop_last(),
            k,
        )
    }
}

/// Whether every candy machine write among the statements links its machine to `id`.
pub open spec fn links_all(ss: Seq<GuardStatement>, id: [u8; 32]) -> bool {
    forall|i: int|
        0 <= i < ss.len() ==> ((#[trigger] ss[i]) matches GuardStatement::UpsertCandyMachine(a)
            ==> a.candy_guard_id == ActiveValue::Assigned(Some(id)))
}

/// What statements that link every machine they write to `id` leave in the
/// `candy_machine` table: the machines they write, and only those, are added where
/// missing and linked to `id`; a machine already stored keeps its other columns.
pub proof fn lemma_machines_after(m: Map<Seq<u8>, StoredMachine>, ss: Seq<GuardStatement>, id: [u8; 32])
    requires
        links_all(ss, id),
    ensures
        forall|k: Seq<u8>| #[trigger] machines_after(m, ss).contains_key(k) <==> (m.contains_key(k) || touched(ss, k)),
        forall|k: Seq<u8>| m.contains_key(k) && !touched(ss, k) ==> #[trigger] machines_after(m, ss)[k] == m[k],
        forall|k: Seq<u8>| touched(ss, k) ==> (#[trigger] machines_after(m, ss)[k]).candy_guard_id == Some(Some(id)),
        forall|k: Seq<u8>|
            m.contains_key(k) && touched(ss, k) ==> #[trigger] machines_after(m, ss)[k] == relinked(
                m[k],
                Some(Some(id)),
            ),
    decreases ss.len(),
{
    if ss.len() > 0 {
        let init = ss.drop_last();
        assert forall|i: int| 0 <= i < init.len() implies ((#[trigger] init[i]) matches GuardStatement::UpsertCandyMachine(a)
            ==> a.candy_guard_id == ActiveValue::Assigned(Some(id))) by {
            assert(init[i] == ss[i]);
        }
        lemma_machines_after(m, init, id);
        assert(ss[ss.len() - 1] == ss.last());
    }
}

/// Running statements that link every machine they write to `id` a second time leaves the
/// `candy_machine` table as the first run left it.
pub proof fn lemma_machines_rerun(m: Map<Seq<u8>, StoredMachine>, ss: Seq<GuardStatement>, id: [u8; 32])
    requires
        links_all(ss, id),
    ensures
        machines_after(machines_after(m, ss), ss) == machines_after(m, ss),
{
    let once = machines_after(m, ss);
    lemma_machines_after(m, ss, id);
    lemma_machines_after(once, ss, id);
    assert(machines_after(once, ss) =~= once);
}

/// Statements that do not upsert a candy guard leave the `candy_guard` table alone.
pub proof fn lemma_guards_skip(g: Map<Seq<u8>, CandyGuardRow>, a: Seq<GuardStatement>, b: Seq<GuardStatement>)
    requires
        forall|i: int| 0 <= i < b.len() ==> !((#[trigger] b[i]) is UpsertCandyGuard),
    ensures
        guards_after(g, a + b) == guards_after(g, a),
    decreases b.len(),
{
    if b.len() > 0 {
        assert((a + b).drop_last() =~= a + b.drop_last());
        assert((a + b).last() == b[b.len() - 1]);
        lemma_guards_skip(g, a, b.drop_last());
    }
}

/// Whether two lists of machines read back are the same but for their candy guard ids.
pub open spec fn same_but_links(a: Seq<CandyMachineRow>, b: Seq<CandyMachineRow>) -> bool {
    &&& a.len() == b.len()
    &&& forall|i: int|
        0 <= i < a.len() ==> (#[trigger] b[i]) == CandyMachineRow { candy_guard_id: b[i].candy_guard_id, ..a[i] }
}

/// The machine upserts do not depend on the candy guard ids the machines were read with.
pub proof fn lemma_machine_statements_ignore_links(a: Seq<CandyMachineRow>, b: Seq<CandyMachineRow>, id: [u8; 32])
    requires
        same_but_links(a, b),
    ensures
        machine_statements(b, id) == machine_statements(a, id),
    decreases a.len(),
{
    if a.len() > 0 {
        let (ia, ib) = (a.drop_last(), b.drop_last());
        assert forall|i: int| 0 <= i < ia.len() implies (#[trigger] ib[i]) == CandyMachineRow {
            candy_guard_id: ib[i].candy_guard_id,
            ..ia[i]
        } by {
            assert(ia[i] == a[i] && ib[i] == b[i]);
        }
        lemma_machine_statements_ignore_links(ia, ib, id);
        assert(b.last() == b[b.len() - 1] && a.last() == a[a.len() - 1]);
        let f = |m: CandyMachineRow| GuardStatement::UpsertCandyMachine(wrapped(m, id));
        assert(wrapped(b.last(), id) == wrapped(a.last(), id));
        assert(minted_by(b.last(), id) == minted_by(a.last(), id));
        if minted_by(a.last(), id) {
            assert(guarded(a, id).map_values(f) =~= guarded(ia, id).map_values(f).push(f(a.last())));
            assert(guarded(b, id).map_values(f) =~= guarded(ib, id).map_values(f).push(f(b.last())));
        }
    }
}

/// What a candy guard ingest leaves in the `candy_guard` and `candy_machine` tables: the
/// guard's row upserted once by its id, and the machines it wraps linked to it.
pub proof fn lemma_plan_tables(
    g: Map<Seq<u8>, CandyGuardRow>,
    id: [u8; 32],
    guard: CandyGuardAccount,
    settings: CandyGuardSettings,
    found: Seq<CandyMachineRow>,
)
    ensures
        guards_after(g, ingest_plan(id, guard, settings, found)) == upsert_guard(g, candy_guard_row(id, guard)),
        links_all(ingest_plan(id, guard, settings, found), id),
{
    let head = seq![GuardStatement::UpsertCandyGuard(candy_guard_row(id, guard))];
    let ms = machine_statements(found, id);
    let gs = group_statements(id, settings);
    lemma_group_statements(id, settings);
    assert forall|i: int| 0 <= i < gs.len() implies !((#[trigger] gs[i]) is UpsertCandyGuard) by {}
    lemma_guards_skip(g, head + ms, gs);
    assert forall|i: int| 0 <= i < ms.len() implies !((#[trigger] ms[i]) is UpsertCandyGuard) by {}
    lemma_guards_skip(g, head, ms);
    assert(head.drop_last() =~= Seq::<GuardStatement>::empty());
    assert(guards_after(g, Seq::<GuardStatement>::empty()) == g);
    assert(guards_after(g, head) == upsert_guard(g, candy_guard_row(id, guard)));
    assert(ingest_plan(id, guard, settings, found) == head + ms + gs);
    let plan = ingest_plan(id, guard, settings, found);
    lemma_plan_shape(id, guard, settings, found);
    assert forall|i: int| 0 <= i < plan.len() implies ((#[trigger] plan[i]) matches GuardStatement::UpsertCandyMachine(a)
        ==> a.candy_guard_id == ActiveValue::Assigned(Some(id))) by {
        if 1 <= i < 1 + guarded(found, id).len() {
            assert(plan[1 + (i - 1)] == GuardStatement::UpsertCandyMachine(wrapped(guarded(found, id)[i - 1], id)));
        } else if i >= 1 + guarded(found, id).len() {
            let j = i - 1 - guarded(found, id).len();
            assert(plan[1 + guarded(found, id).len() + j] == gs[j]);
        }
    }
}

/// Ingesting the same candy guard again, over the machines read back after the first
/// ingest (the same rows, now linked), leaves the `candy_guard` and `candy_machine` tables
/// as the first ingest left them: the guard's row is not duplicated and every link stays.
pub proof fn lemma_candy_guard_rerun(
    g: Map<Seq<u8>, CandyGuardRow>,
    m: Map<Seq<u8>, StoredMachine>,
    id: [u8; 32],
    guard: CandyGuardAccount,
    settings: CandyGuardSettings,
    found: Seq<CandyMachineRow>,
    found_again: Seq<CandyMachineRow>,
)
    requires
        same_but_links(found, found_again),
    ensures
        guards_after(guards_after(g, ingest_plan(id, guard, settings, found)), ingest_plan(id, guard, settings, found_again))
            == guards_after(g, ingest_plan(id, guard, settings, found)),
        machines_after(machines_after(m, ingest_plan(id, guard, settings, found)), ingest_plan(id, guard, settings, found_again))
            == machines_after(m, ingest_plan(id, guard, settings, found)),
{
    lemma_machine_statements_ignore_links(found, found_again, id);
    let plan = ingest_plan(id, guard, settings, found);
    assert(ingest_plan(id, guard, settings, found_again) == plan);
    lemma_plan_tables(g, id, guard, settings, found);
    let once = upsert_guard(g, candy_guard_row(id, guard));
    lemma_plan_tables(once, id, guard, settings, found);
    assert(upsert_guard(once, candy_guard_row(id, guard)) =~= once);
    lemma_machines_rerun(m, plan, id);
}


/// The candy guard's row holds the account's fields as they were read: the guard's key,
/// its base, its bump widened without change, and its authority, byte for byte; it is the
/// first statement an ingest hands out.
pub proof fn lemma_candy_guard_row(id: [u8; 32], guard: CandyGuardAccount, settings: CandyGuardSettings, found: Seq<CandyMachineRow>)
    ensures
        candy_guard_row(id, guard) == (CandyGuardRow {
            id,
            base: guard.base,
            bump: guard.bump as i16,
            authority: guard.authority,
        }),
        candy_guard_row(id, guard).id@ == id@,
        candy_guard_row(id, guard).base@ == guard.base@,
        candy_guard_row(id, guard).authority@ == guard.authority@,
        candy_guard_row(id, guard).bump as int == guard.bump as int,
        ingest_plan(id, guard, settings, found)[0] == GuardStatement::UpsertCandyGuard(
            CandyGuardRow { id, base: guard.base, bump: guard.bump as i16, authority: guard.authority },
        ),
{
}

/// A guard group upsert overwrites every stored column of the group but its keys: each
/// column other than the id, the candy guard id and the (guard-only) authority appears
/// exactly once among its update columns.
pub proof fn lemma_group_update_columns(stmt: GuardStatement)
    requires
        stmt is UpsertDefaultGroup || stmt is UpsertGroup,
    ensures
        stmt.spec_update_columns().no_duplicates(),
        forall|c: UpsertColumn|
            stmt.spec_update_columns().contains(c) <==> (c != UpsertColumn::Id && c != UpsertColumn::CandyGuardId
                && c != UpsertColumn::Authority),
        stmt.spec_update_columns().contains(UpsertColumn::StartDate),
        stmt.spec_update_columns().contains(UpsertColumn::EndDate),
{
    let cols = group_update_columns();
    assert(stmt.spec_update_columns() == cols);
    assert forall|c: UpsertColumn|
        cols.contains(c) <==> (c != UpsertColumn::Id && c != UpsertColumn::CandyGuardId && c != UpsertColumn::Authority) by {
        if c != UpsertColumn::Id && c != UpsertColumn::CandyGuardId && c != UpsertColumn::Authority {
            match c {
                UpsertColumn::Label => assert(cols[0] == c),
                UpsertColumn::GatekeeperNetwork => assert(cols[1] == c),
                UpsertColumn::GatekeeperExpireOnUse => assert(cols[2] == c),
                UpsertColumn::AllowListMerkleRoot => assert(cols[3] == c),
                UpsertColumn::ThirdPartySignerKey => assert(cols[4] == c),
                UpsertColumn::MintLimitId => assert(cols[5] == c),
                UpsertColumn::MintLimitLimit => assert(cols[6] == c),
                UpsertColumn::NftPaymentDestination => assert(cols[7] == c),
                UpsertColumn::NftPaymentRequiredCollection => assert(cols[8] == c),
                UpsertColumn::BotTaxLamports => assert(cols[9] == c),
                UpsertColumn::BotTaxLastInstruction => assert(cols[10] == c),
                UpsertColumn::SolPaymentDestination => assert(cols[11] == c),
                UpsertColumn::SolPaymentLamports => assert(cols[12] == c),
                UpsertColumn::StartDate => assert(cols[13] == c),
                UpsertColumn::EndDate => assert(cols[14] == c),
                UpsertColumn::RedeemedAmountMaximum => assert(cols[15] == c),
                UpsertColumn::AddressGateAddress => assert(cols[16] == c),
                UpsertColumn::FreezeSolPaymentLamports => assert(cols[17] == c),
                UpsertColumn::FreezeSolPaymentDestination => assert(cols[18] == c),
                UpsertColumn::TokenGateAmount => assert(cols[19] == c),
                UpsertColumn::TokenGateMint => assert(cols[20] == c),
                UpsertColumn::NftGateRequiredCollection => assert(cols[21] == c),
                UpsertColumn::TokenBurnAmount => assert(cols[22] == c),
                UpsertColumn::TokenBurnMint => assert(cols[23] == c),
                UpsertColumn::NftBurnRequiredCollection => assert(cols[24] == c),
                UpsertColumn::TokenPaymentAmount => assert(cols[25] == c),
                UpsertColumn::TokenPaymentDestinationAta => assert(cols[26] == c),
                UpsertColumn::TokenPaymentMint => assert(cols[27] == c),
                UpsertColumn::FreezeTokenPaymentAmount => assert(cols[28] == c),
                UpsertColumn::FreezeTokenPaymentMint => assert(cols[29] == c),
                UpsertColumn::FreezeTokenPaymentDestinationAta => assert(cols[30] == c),
                _ => {},
            }
        }
    }
    assert(cols[13] == UpsertColumn::StartDate && cols[14] == UpsertColumn::EndDate);
}

} // verus!
