use nft_ingester::dao::candy_guard_group::Column as GroupColumn;
use nft_ingester::dao::candy_machine_data::{Column as DataColumn, Entity as DataEntity, Relation as DataRelation};
use nft_ingester::dao::{candy_guard_group, candy_machine_data};
use nft_ingester::dao::{ColumnSpec, ColumnType, JoinKey, KeyColumn, RelationKind, RelationSpec, Table};

#[test]
fn table_names() {
    assert_eq!(candy_guard_group::Entity.table_name(), "candy_guard_group");
    assert_eq!(candy_machine_data::Entity.table_name(), "candy_machine_data");
}

#[test]
fn primary_keys_auto_increment() {
    assert!(candy_guard_group::PrimaryKey::auto_increment());
    assert!(candy_machine_data::PrimaryKey::auto_increment());
}

#[test]
fn guard_group_column_definitions() {
    let required = |t| ColumnSpec { column_type: t, nullable: false };
    let optional = |t| ColumnSpec { column_type: t, nullable: true };
    assert_eq!(GroupColumn::Id.def(), required(ColumnType::BigInteger));
    assert_eq!(GroupColumn::CandyGuardId.def(), required(ColumnType::Binary));
    assert_eq!(GroupColumn::Label.def(), optional(ColumnType::String));
    assert_eq!(GroupColumn::Mode.def(), optional(ColumnType::WhitelistMintMode));
    assert_eq!(GroupColumn::EndSettingType.def(), optional(ColumnType::EndSettingType));
    assert_eq!(GroupColumn::Presale.def(), optional(ColumnType::Boolean));
    assert_eq!(GroupColumn::LiveDate.def(), optional(ColumnType::Integer));
    assert_eq!(GroupColumn::MerkleRoot.def(), optional(ColumnType::Binary));
    assert_eq!(GroupColumn::DestinationAta.def(), optional(ColumnType::Binary));
}

#[test]
fn only_guard_group_keys_are_required() {
    let all = [
        GroupColumn::Id, GroupColumn::Label, GroupColumn::CandyGuardId, GroupColumn::Mode,
        GroupColumn::CollectionMint, GroupColumn::Presale, GroupColumn::DiscountPrice,
        GroupColumn::GatekeeperNetwork, GroupColumn::ExpireOnUse, GroupColumn::Number,
        GroupColumn::EndSettingType, GroupColumn::MerkleRoot, GroupColumn::Amount, GroupColumn::Destination,
        GroupColumn::SignerKey, GroupColumn::MintLimitId, GroupColumn::MintLimitLimit,
        GroupColumn::NftPaymentBurn, GroupColumn::NftPaymentRequiredCollection, GroupColumn::Lamports,
        GroupColumn::LastInstruction, GroupColumn::LiveDate, GroupColumn::SplTokenAmount,
        GroupColumn::TokenMint, GroupColumn::DestinationAta,
    ];
    for c in all {
        assert_eq!(!c.def().nullable, c == GroupColumn::Id || c == GroupColumn::CandyGuardId);
    }
}

#[test]
fn machine_data_column_definitions() {
    assert_eq!(DataColumn::Id.def(), ColumnSpec { column_type: ColumnType::BigInteger, nullable: false });
    assert_eq!(DataColumn::Uuid.def(), ColumnSpec { column_type: ColumnType::BigInteger, nullable: true });
    assert_eq!(DataColumn::Price.def(), ColumnSpec { column_type: ColumnType::Binary, nullable: true });
    assert_eq!(DataColumn::Symbol.def(), ColumnSpec { column_type: ColumnType::Binary, nullable: false });
    assert_eq!(DataColumn::SellerFeeBasisPoints.def(), ColumnSpec { column_type: ColumnType::Binary, nullable: false });
    assert_eq!(DataColumn::MaxSupply.def(), ColumnSpec { column_type: ColumnType::Integer, nullable: false });
    assert_eq!(DataColumn::IsMutable.def(), ColumnSpec { column_type: ColumnType::Boolean, nullable: true });
    assert_eq!(DataColumn::RetainAuthority.def(), ColumnSpec { column_type: ColumnType::Boolean, nullable: false });
    assert_eq!(DataColumn::GoLiveDate.def(), ColumnSpec { column_type: ColumnType::Integer, nullable: true });
    assert_eq!(DataColumn::ItemsAvailable.def(), ColumnSpec { column_type: ColumnType::Integer, nullable: false });
}

#[test]
fn guard_group_belongs_to_its_guard() {
    assert_eq!(
        candy_guard_group::Relation::CandyGuard.def(),
        RelationSpec {
            kind: RelationKind::BelongsTo,
            from_table: Table::CandyGuardGroup,
            to_table: Table::CandyGuard,
            key: Some(JoinKey { from_column: KeyColumn::CandyGuardId, to_column: KeyColumn::Id }),
        }
    );
}

#[test]
fn machine_data_relations() {
    assert_eq!(
        DataRelation::CandyMachineCreators.def(),
        RelationSpec {
            kind: RelationKind::HasMany,
            from_table: Table::CandyMachineData,
            to_table: Table::CandyMachineCreators,
            key: None,
        }
    );
    assert_eq!(
        DataRelation::CandyMachineHiddenSettings.def(),
        RelationSpec {
            kind: RelationKind::HasOne,
            from_table: Table::CandyMachineData,
            to_table: Table::CandyMachineHiddenSettings,
            key: None,
        }
    );
}

#[test]
fn related_tables_give_their_relation() {
    let rels = [
        (DataRelation::CandyMachineHiddenSettings, Table::CandyMachineHiddenSettings),
        (DataRelation::CandyMachineEndSettings, Table::CandyMachineEndSettings),
        (DataRelation::CandyMachineGatekeeper, Table::CandyMachineGatekeeper),
        (DataRelation::CandyMachineWhitelistMintSettings, Table::CandyMachineWhitelistMintSettings),
        (DataRelation::CandyMachineCreators, Table::CandyMachineCreators),
        (DataRelation::CandyMachineConfigLineSettings, Table::CandyMachineConfigLineSettings),
    ];
    for (rel, table) in rels {
        assert_eq!(DataEntity::to(table), Some(rel.def()));
    }
}

#[test]
fn unrelated_tables_give_none() {
    assert_eq!(DataEntity::to(Table::CandyGuard), None);
    assert_eq!(DataEntity::to(Table::CandyGuardGroup), None);
    assert_eq!(DataEntity::to(Table::CandyMachineData), None);
}
