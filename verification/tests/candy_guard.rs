use nft_ingester::program_transformers::candy_guard::{
    candy_guard, make_group_statements, make_machine_statements, wrap_machine, CandyGuardAccount,
    CandyGuardRow, CandyGuardSettings, GuardAction, GuardGroup, GuardGroupRow, GuardSet, GuardStatement,
    MachineQuery, UpsertColumn,
};
use nft_ingester::program_transformers::{ActiveValue, CandyMachineActive, CandyMachineRow};
use nft_ingester::IngesterError;

const GUARD: [u8; 32] = [7; 32];

fn no_guards() -> GuardSet {
    GuardSet {
        bot_tax_lamports: None,
        bot_tax_last_instruction: None,
        start_date: None,
        end_date: None,
        third_party_signer_key: None,
        nft_payment_destination: None,
        nft_payment_required_collection: None,
        mint_limit_id: None,
        mint_limit_limit: None,
        gatekeeper_network: None,
        gatekeeper_expire_on_use: None,
        sol_payment_lamports: None,
        sol_payment_destination: None,
        redeemed_amount_maximum: None,
        address_gate_address: None,
        freeze_sol_payment_lamports: None,
        freeze_sol_payment_destination: None,
        nft_gate_required_collection: None,
        token_burn_amount: None,
        token_burn_mint: None,
        nft_burn_required_collection: None,
        token_payment_amount: None,
        token_payment_mint: None,
        token_payment_destination_ata: None,
        allow_list_merkle_root: None,
        freeze_token_payment_amount: None,
        freeze_token_payment_mint: None,
        freeze_token_payment_destination_ata: None,
    }
}

fn sol_payment(lamports: u64) -> GuardSet {
    GuardSet { sol_payment_lamports: Some(lamports), sol_payment_destination: Some([9; 32]), ..no_guards() }
}

fn account() -> CandyGuardAccount {
    CandyGuardAccount { base: [1; 32], bump: 254, authority: [2; 32] }
}

fn machine(id: u8, mint_authority: [u8; 32]) -> CandyMachineRow {
    CandyMachineRow {
        id: vec![id; 32],
        features: Some(1),
        authority: vec![3; 32],
        items_redeemed: 5,
        mint_authority: Some(mint_authority.to_vec()),
        candy_guard_id: None,
        collection_mint: Some(vec![4; 32]),
        version: 3,
        created_at: Some(1_660_000_000),
        last_minted: None,
    }
}

fn wrapped_row(m: &CandyMachineRow) -> CandyMachineActive {
    CandyMachineActive {
        id: ActiveValue::Unchanged(m.id.clone()),
        features: ActiveValue::Unchanged(m.features),
        authority: ActiveValue::Unchanged(m.authority.clone()),
        items_redeemed: ActiveValue::Unchanged(m.items_redeemed),
        mint_authority: ActiveValue::Unchanged(m.mint_authority.clone()),
        candy_guard_id: ActiveValue::Assigned(Some(GUARD)),
        collection_mint: ActiveValue::Unchanged(m.collection_mint.clone()),
        version: ActiveValue::Unchanged(3),
        created_at: ActiveValue::Unchanged(m.created_at),
        last_minted: ActiveValue::Unchanged(m.last_minted),
        allow_thaw: ActiveValue::NotSet,
        frozen_count: ActiveValue::NotSet,
        mint_start: ActiveValue::NotSet,
        freeze_time: ActiveValue::NotSet,
        freeze_fee: ActiveValue::NotSet,
    }
}

fn guard_row() -> CandyGuardRow {
    CandyGuardRow { id: GUARD, base: [1; 32], bump: 254, authority: [2; 32] }
}

fn settings_with_groups() -> CandyGuardSettings {
    CandyGuardSettings {
        default: sol_payment(1_000),
        groups: Some(vec![
            GuardGroup { label: "early".to_string(), guards: sol_payment(500) },
            GuardGroup { label: "public".to_string(), guards: no_guards() },
        ]),
    }
}

#[test]
fn a_successful_ingest_writes_the_whole_plan() {
    let (mut ingest, action) = candy_guard(GUARD, &account(), settings_with_groups());
    assert_eq!(action, GuardAction::Execute(GuardStatement::UpsertCandyGuard(guard_row())));

    let action = ingest.statement_done(Ok(()));
    assert_eq!(action, GuardAction::FindMachines(MachineQuery { version: 3, mint_authority: GUARD }));

    let ours = machine(10, GUARD);
    let theirs = machine(11, [8; 32]);
    let ours_too = machine(12, GUARD);
    let action = ingest.machines_found(Ok(vec![ours.clone(), theirs, ours_too.clone()]));
    assert_eq!(action, GuardAction::Execute(GuardStatement::UpsertCandyMachine(wrapped_row(&ours))));

    let action = ingest.statement_done(Ok(()));
    assert_eq!(action, GuardAction::Execute(GuardStatement::UpsertCandyMachine(wrapped_row(&ours_too))));

    let action = ingest.statement_done(Ok(()));
    assert_eq!(
        action,
        GuardAction::Execute(GuardStatement::UpsertDefaultGroup(GuardGroupRow {
            label: None,
            candy_guard_id: GUARD,
            guards: sol_payment(1_000),
        }))
    );

    let action = ingest.statement_done(Ok(()));
    assert_eq!(
        action,
        GuardAction::Execute(GuardStatement::UpsertGroup(GuardGroupRow {
            label: Some("early".to_string()),
            candy_guard_id: GUARD,
            guards: sol_payment(500),
        }))
    );

    let action = ingest.statement_done(Ok(()));
    assert_eq!(
        action,
        GuardAction::Execute(GuardStatement::UpsertGroup(GuardGroupRow {
            label: Some("public".to_string()),
            candy_guard_id: GUARD,
            guards: no_guards(),
        }))
    );

    assert_eq!(ingest.statement_done(Ok(())), GuardAction::Finish(Ok(())));
}

#[test]
fn without_machines_or_groups_only_the_default_group_follows() {
    let settings = CandyGuardSettings { default: no_guards(), groups: None };
    let (mut ingest, _) = candy_guard(GUARD, &account(), settings);
    ingest.statement_done(Ok(()));
    let action = ingest.machines_found(Ok(vec![]));
    assert_eq!(
        action,
        GuardAction::Execute(GuardStatement::UpsertDefaultGroup(GuardGroupRow {
            label: None,
            candy_guard_id: GUARD,
            guards: no_guards(),
        }))
    );
    assert_eq!(ingest.statement_done(Ok(())), GuardAction::Finish(Ok(())));
}

#[test]
fn an_empty_group_list_writes_only_the_default_group() {
    let settings = CandyGuardSettings { default: no_guards(), groups: Some(vec![]) };
    let statements = make_group_statements(GUARD, settings);
    assert_eq!(statements.len(), 1);
}

#[test]
fn a_failed_guard_upsert_ends_the_ingest() {
    let (mut ingest, _) = candy_guard(GUARD, &account(), settings_with_groups());
    assert_eq!(
        ingest.statement_done(Err("connection reset".to_string())),
        GuardAction::Finish(Err(IngesterError::StorageWriteError("connection reset".to_string())))
    );
}

#[test]
fn a_failed_query_ends_the_ingest() {
    let (mut ingest, _) = candy_guard(GUARD, &account(), settings_with_groups());
    ingest.statement_done(Ok(()));
    assert_eq!(
        ingest.machines_found(Err("timeout".to_string())),
        GuardAction::Finish(Err(IngesterError::StorageWriteError("timeout".to_string())))
    );
}

#[test]
fn a_failed_write_ends_the_ingest() {
    let (mut ingest, _) = candy_guard(GUARD, &account(), settings_with_groups());
    ingest.statement_done(Ok(()));
    ingest.machines_found(Ok(vec![machine(10, GUARD)]));
    ingest.statement_done(Ok(()));
    assert_eq!(
        ingest.statement_done(Err("unique violation".to_string())),
        GuardAction::Finish(Err(IngesterError::StorageWriteError("unique violation".to_string())))
    );
}

#[test]
fn the_bump_is_widened() {
    let (_, action) = candy_guard(GUARD, &account(), settings_with_groups());
    match action {
        GuardAction::Execute(GuardStatement::UpsertCandyGuard(row)) => assert_eq!(row.bump, 254i16),
        other => panic!("unexpected action {:?}", other),
    }
}

#[test]
fn only_machines_minted_by_the_guard_are_wrapped() {
    let found = vec![machine(1, [8; 32]), machine(2, GUARD), machine(3, [0; 32]), machine(4, GUARD)];
    let statements = make_machine_statements(found, GUARD);
    assert_eq!(
        statements,
        vec![
            GuardStatement::UpsertCandyMachine(wrapped_row(&machine(2, GUARD))),
            GuardStatement::UpsertCandyMachine(wrapped_row(&machine(4, GUARD))),
        ]
    );
}

#[test]
fn a_short_mint_authority_does_not_match() {
    let mut m = machine(1, GUARD);
    m.mint_authority = Some(vec![7; 31]);
    assert!(make_machine_statements(vec![m], GUARD).is_empty());
}

#[test]
fn wrapping_keeps_the_machine_and_sets_the_guard() {
    let m = machine(5, GUARD);
    let row = wrap_machine(m.clone(), GUARD);
    assert_eq!(row, wrapped_row(&m));
    assert_eq!(row.candy_guard_id, ActiveValue::Assigned(Some(GUARD)));
    assert_eq!(row.version, ActiveValue::Unchanged(3));
}

#[test]
fn upsert_columns() {
    let guard = GuardStatement::UpsertCandyGuard(guard_row());
    assert_eq!(guard.conflict_column(), UpsertColumn::Id);
    assert_eq!(guard.update_columns(), vec![UpsertColumn::Authority]);

    let wrapped = GuardStatement::UpsertCandyMachine(wrapped_row(&machine(1, GUARD)));
    assert_eq!(wrapped.conflict_column(), UpsertColumn::Id);
    assert_eq!(wrapped.update_columns(), vec![UpsertColumn::CandyGuardId]);

    let default = GuardStatement::UpsertDefaultGroup(GuardGroupRow {
        label: None,
        candy_guard_id: GUARD,
        guards: no_guards(),
    });
    let group = GuardStatement::UpsertGroup(GuardGroupRow {
        label: Some("a".to_string()),
        candy_guard_id: GUARD,
        guards: no_guards(),
    });
    assert_eq!(default.conflict_column(), UpsertColumn::Id);
    assert_eq!(group.conflict_column(), UpsertColumn::CandyGuardId);
    let columns = group.update_columns();
    assert_eq!(columns, default.update_columns());
    assert_eq!(columns.len(), 31);
    assert_eq!(columns[0], UpsertColumn::Label);
    assert_eq!(columns[30], UpsertColumn::FreezeTokenPaymentDestinationAta);
    assert!(!columns.contains(&UpsertColumn::Id));
    assert!(!columns.contains(&UpsertColumn::CandyGuardId));
}

fn statements_of_run(found: Vec<CandyMachineRow>) -> Vec<GuardStatement> {
    let (mut ingest, mut action) = candy_guard(GUARD, &account(), settings_with_groups());
    let mut issued = vec![];
    loop {
        action = match action {
            GuardAction::Execute(stmt) => {
                issued.push(stmt);
                ingest.statement_done(Ok(()))
            }
            GuardAction::FindMachines(_) => ingest.machines_found(Ok(found.clone())),
            GuardAction::Finish(result) => {
                assert_eq!(result, Ok(()));
                return issued;
            }
        };
    }
}

#[test]
fn a_second_run_over_the_linked_machines_issues_the_same_statements() {
    let found = vec![machine(1, GUARD), machine(2, [8; 32]), machine(3, GUARD)];
    let first = statements_of_run(found.clone());
    let relinked: Vec<CandyMachineRow> = found
        .into_iter()
        .map(|mut m| {
            if m.mint_authority == Some(GUARD.to_vec()) {
                m.candy_guard_id = Some(GUARD.to_vec());
            }
            m
        })
        .collect();
    let second = statements_of_run(relinked);
    assert_eq!(first, second);
    assert_eq!(first.len(), 1 + 2 + 3);
}
