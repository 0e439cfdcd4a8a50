//! Database schema descriptions: column types, nullability and relations of the tables.
pub mod candy_guard_group;
pub mod candy_machine_data;

use vstd::prelude::*;

verus! {

/// The SQL type of a column.
#[derive(Clone, Copy, Debug, PartialEq, Eq, Structural)]
pub enum ColumnType {
    BigInteger,
    Integer,
    String,
    Binary,
    Boolean,
    /// The database enum that stores a [`WhitelistMintMode`].
    WhitelistMintMode,
    /// The database enum that stores an [`EndSettingType`].
    EndSettingType,
}

/// A column definition: its type and whether it accepts NULL.
#[derive(Clone, Copy, Debug, PartialEq, Eq, Structural)]
pub struct ColumnSpec {
    pub column_type: ColumnType,
    pub nullable: bool,
}

/// Tables that the schema relates to one another.
#[derive(Clone, Copy, Debug, PartialEq, Eq, Structural)]
pub enum Table {
    CandyGuard,
    CandyGuardGroup,
    CandyMachineData,
    CandyMachineHiddenSettings,
    CandyMachineEndSettings,
    CandyMachineGatekeeper,
    CandyMachineWhitelistMintSettings,
    CandyMachineCreators,
    CandyMachineConfigLineSettings,
}

/// The shape of a relation between two tables.
#[derive(Clone, Copy, Debug, PartialEq, Eq, Structural)]
pub enum RelationKind {
    HasOne,
    HasMany,
    BelongsTo,
}

/// A column that takes part in a join.
#[derive(Clone, Copy, Debug, PartialEq, Eq, Structural)]
pub enum KeyColumn {
    Id,
    CandyGuardId,
}

/// A foreign key: `from_column` of the owning table refers to `to_column` of the other.
#[derive(Clone, Copy, Debug, PartialEq, Eq, Structural)]
pub struct JoinKey {
    pub from_column: KeyColumn,
    pub to_column: KeyColumn,
}

/// A relation definition. A `BelongsTo` relation names its key; the other kinds take the
/// key from the related table's own `BelongsTo` definition.
#[derive(Clone, Copy, Debug, PartialEq, Eq, Structural)]
pub struct RelationSpec {
    pub kind: RelationKind,
    pub from_table: Table,
    pub to_table: Table,
    pub key: Option<JoinKey>,
}

/// How a whitelist token is handled when it is used to mint.
#[derive(Clone, Copy, Debug, PartialEq, Eq, Structural)]
pub enum WhitelistMintMode {
    BurnEveryTime,
    NeverBurn,
}

/// What ends a candy machine's sale.
#[derive(Clone, Copy, Debug, PartialEq, Eq, Structural)]
pub enum EndSettingType {
    Date,
    Amount,
}

} // verus!
