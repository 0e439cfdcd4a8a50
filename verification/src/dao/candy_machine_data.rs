//! The `candy_machine_data` table.
use super::{ColumnSpec, ColumnType, RelationKind, RelationSpec, Table};
use vstd::prelude::*;

verus! {

/// The entity of the `candy_machine_data` table.
#[derive(Clone, Copy, Debug, Default)]
pub struct Entity;

/// A row of the `candy_machine_data` table.
#[derive(Clone, Debug, PartialEq)]
pub struct Model {
    pub id: i64,
    pub uuid: Option<String>,
    pub price: Option<u64>,
    pub symbol: String,
    pub seller_fee_basis_points: u16,
    pub max_suppy: u64,
    pub is_mutable: bool,
    pub retain_authority: Option<bool>,
    pub go_live_date: Option<i64>,
    pub items_available: u64,
}

/// The columns of the `candy_machine_data` table.
#[derive(Clone, Copy, Debug, PartialEq, Eq, Structural)]
pub enum Column {
    Id,
    Uuid,
    Price,
    Symbol,
    SellerFeeBasisPoints,
    MaxSupply,
    IsMutable,
    RetainAuthority,
    GoLiveDate,
    ItemsAvailable,
}

impl Column {
    /// The definition of each column.
    pub open spec fn spec_def(self) -> ColumnSpec {
        match self {
            Column::Id => ColumnSpec { column_type: ColumnType::BigInteger, nullable: false },
            Column::Uuid => ColumnSpec { column_type: ColumnType::BigInteger, nullable: true },
            Column::Price => ColumnSpec { column_type: ColumnType::Binary, nullable: true },
            Column::Symbol => ColumnSpec { column_type: ColumnType::Binary, nullable: false },
            Column::SellerFeeBasisPoints => ColumnSpec { column_type: ColumnType::Binary, nullable: false },
            Column::MaxSupply => ColumnSpec { column_type: ColumnType::Integer, nullable: false },
            Column::IsMutable => ColumnSpec { column_type: ColumnType::Boolean, nullable: true },
            Column::RetainAuthority => ColumnSpec { column_type: ColumnType::Boolean, nullable: false },
            Column::GoLiveDate => ColumnSpec { column_type: ColumnType::Integer, nullable: true },
            Column::ItemsAvailable => ColumnSpec { column_type: ColumnType::Integer, nullable: false },
        }
    }

    /// The column's definition.
    pub fn def(&self) -> (r: ColumnSpec)
        ensures
            r == self.spec_def(),
    {
        match self {
            Column::Id => ColumnSpec { column_type: ColumnType::BigInteger, nullable: false },
            Column::Uuid => ColumnSpec { column_type: ColumnType::BigInteger, nullable: true },
            Column::Price => ColumnSpec { column_type: ColumnType::Binary, nullable: true },
            Column::Symbol => ColumnSpec { column_type: ColumnType::Binary, nullable: false },
            Column::SellerFeeBasisPoints => ColumnSpec { column_type: ColumnType::Binary, nullable: false },
            Column::MaxSupply => ColumnSpec { column_type: ColumnType::Integer, nullable: false },
            Column::IsMutable => ColumnSpec { column_type: ColumnType::Boolean, nullable: true },
            Column::RetainAuthority => ColumnSpec { column_type: ColumnType::Boolean, nullable: false },
            Column::GoLiveDate => ColumnSpec { column_type: ColumnType::Integer, nullable: true },
            Column::ItemsAvailable => ColumnSpec { column_type: ColumnType::Integer, nullable: false },
        }
    }
}

/// The primary key of the `candy_machine_data` table.
#[derive(Clone, Copy, Debug, PartialEq, Eq, Structural)]
pub enum PrimaryKey {
    Id,
}

impl PrimaryKey {
    /// The key is assigned by the database.
    pub fn auto_increment() -> (r: bool)
        ensures
            r,
    {
        true
    }
}

/// The relations of the `candy_machine_data` table.
#[derive(Clone, Copy, Debug, PartialEq, Eq, Structural)]
pub enum Relation {
    CandyMachineHiddenSettings,
    CandyMachineEndSettings,
    CandyMachineGatekeeper,
    CandyMachineWhitelistMintSettings,
    CandyMachineCreators,
    CandyMachineConfigLineSettings,
}

impl Relation {
    /// The table at the other end of the relation.
    pub open spec fn target(self) -> Table {
        match self {
            Relation::CandyMachineHiddenSettings => Table::CandyMachineHiddenSettings,
            Relation::CandyMachineEndSettings => Table::CandyMachineEndSettings,
            Relation::CandyMachineGatekeeper => Table::CandyMachineGatekeeper,
            Relation::CandyMachineWhitelistMintSettings => Table::CandyMachineWhitelistMintSettings,
            Relation::CandyMachineCreators => Table::CandyMachineCreators,
            Relation::CandyMachineConfigLineSettings => Table::CandyMachineConfigLineSettings,
        }
    }

    /// Candy machine data has many creators and one row of each kind of settings.
    pub open spec fn spec_def(self) -> RelationSpec {
        RelationSpec {
            kind: if self == Relation::CandyMachineCreators {
                RelationKind::HasMany
            } else {
                RelationKind::HasOne
            },
            from_table: Table::CandyMachineData,
            to_table: self.target(),
            key: None,
        }
    }

    /// The relation's definition.
    pub fn def(&self) -> (r: RelationSpec)
        ensures
            r == self.spec_def(),
    {
        let (kind, to_table) = match self {
            Relation::CandyMachineHiddenSettings => (RelationKind::HasOne, Table::CandyMachineHiddenSettings),
            Relation::CandyMachineEndSettings => (RelationKind::HasOne, Table::CandyMachineEndSettings),
            Relation::CandyMachineGatekeeper => (RelationKind::HasOne, Table::CandyMachineGatekeeper),
            Relation::CandyMachineWhitelistMintSettings => (
                RelationKind::HasOne,
                Table::CandyMachineWhitelistMintSettings,
            ),
            Relation::CandyMachineCreators => (RelationKind::HasMany, Table::CandyMachineCreators),
            Relation::CandyMachineConfigLineSettings => (
                RelationKind::HasOne,
                Table::CandyMachineConfigLineSettings,
            ),
        };
        RelationSpec { kind, from_table: Table::CandyMachineData, to_table, key: None }
    }
}

impl Entity {
    /// The table's name.
    pub fn table_name(&self) -> (r: &'static str)
        ensures
            r@ == "candy_machine_data"@,
    {
        "candy_machine_data"
    }

    /// The relation through which this table reaches `target`, where it has one.
    pub open spec fn spec_relation_to(target: Table) -> Option<Relation> {
        match target {
            Table::CandyMachineHiddenSettings => Some(Relation::CandyMachineHiddenSettings),
            Table::CandyMachineEndSettings => Some(Relation::CandyMachineEndSettings),
            Table::CandyMachineGatekeeper => Some(Relation::CandyMachineGatekeeper),
            Table::CandyMachineWhitelistMintSettings => Some(Relation::CandyMachineWhitelistMintSettings),
            Table::CandyMachineCreators => Some(Relation::CandyMachineCreators),
            Table::CandyMachineConfigLineSettings => Some(Relation::CandyMachineConfigLineSettings),
            _ => None,
        }
    }

    /// The definition of the relation to `target`: `None` where the table is not related to it.
    pub fn to(target: Table) -> (r: Option<RelationSpec>)
        ensures
            r == (match Self::spec_relation_to(target) {
                Some(rel) => Some(rel.spec_def()),
                None => None,
            }),
    {
        let rel = match target {
            Table::CandyMachineHiddenSettings => Relation::CandyMachineHiddenSettings,
            Table::CandyMachineEndSettings => Relation::CandyMachineEndSettings,
            Table::CandyMachineGatekeeper => Relation::CandyMachineGatekeeper,
            Table::CandyMachineWhitelistMintSettings => Relation::CandyMachineWhitelistMintSettings,
            Table::CandyMachineCreators => Relation::CandyMachineCreators,
            Table::CandyMachineConfigLineSettings => Relation::CandyMachineConfigLineSettings,
            _ => {
                return None;
            },
        };
        Some(rel.def())
    }
}


/// Each relation is found again from the table it leads to, and `to` gives its definition;
/// every relation leads from `candy_machine_data`, and only the creators are many.
pub proof fn lemma_relation_round_trip(rel: Relation)
    ensures
        Entity::spec_relation_to(rel.target()) == Some(rel),
        rel.spec_def().from_table == Table::CandyMachineData,
        rel.spec_def().to_table == rel.target(),
        (rel.spec_def().kind == RelationKind::HasMany) <==> (rel == Relation::CandyMachineCreators),
{
}

/// The tables reached from `candy_machine_data` are exactly the targets of its relations.
pub proof fn lemma_related_tables(target: Table)
    ensures
        Entity::spec_relation_to(target) is Some <==> exists|rel: Relation| rel.target() == target,
{
    if Entity::spec_relation_to(target) is Some {
        assert(Entity::spec_relation_to(target)->0.target() == target);
    }
}

} // verus!
