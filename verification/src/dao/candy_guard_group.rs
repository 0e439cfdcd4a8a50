//! The `candy_guard_group` table.
use super::{
    ColumnSpec, ColumnType, EndSettingType, JoinKey, KeyColumn, RelationKind, RelationSpec, Table,
    WhitelistMintMode,
};
use vstd::prelude::*;

verus! {

/// The entity of the `candy_guard_group` table.
#[derive(Clone, Copy, Debug, Default)]
pub struct Entity;

impl Entity {
    /// The table's name.
    pub fn table_name(&self) -> (r: &'static str)
        ensures
            r@ == "candy_guard_group"@,
    {
        "candy_guard_group"
    }
}

/// A row of the `candy_guard_group` table.
#[derive(Clone, Debug, PartialEq)]
pub struct Model {
    pub id: i64,
    pub label: Option<String>,
    pub candy_guard_id: Vec<u8>,
    pub mode: Option<WhitelistMintMode>,
    pub whitelist_mint: Option<Vec<u8>>,
    pub presale: Option<bool>,
    pub discount_price: Option<u64>,
    pub gatekeeper_network: Option<Vec<u8>>,
    pub expire_on_use: Option<bool>,
    pub number: Option<u64>,
    pub end_setting_type: Option<EndSettingType>,
    pub merkle_root: Option<[u8; 32]>,
    pub amount: Option<u64>,
    pub destination: Option<Vec<u8>>,
    pub signer_key: Option<Vec<u8>>,
    pub mint_limit_id: Option<u8>,
    pub mint_limit_limit: Option<u16>,
    pub nft_payment_burn: Option<bool>,
    pub nft_payment_required_collection: Option<Vec<u8>>,
    pub lamports: Option<u64>,
    pub last_instruction: Option<bool>,
    pub live_date: Option<i64>,
    pub spl_token_amount: Option<u64>,
    pub token_mint: Option<Vec<u8>>,
    pub destination_ata: Option<Vec<u8>>,
}

/// The columns of the `candy_guard_group` table.
#[derive(Clone, Copy, Debug, PartialEq, Eq, Structural)]
pub enum Column {
    Id,
    Label,
    CandyGuardId,
    Mode,
    CollectionMint,
    Presale,
    DiscountPrice,
    GatekeeperNetwork,
    ExpireOnUse,
    Number,
    EndSettingType,
    MerkleRoot,
    Amount,
    Destination,
    SignerKey,
    MintLimitId,
    MintLimitLimit,
    NftPaymentBurn,
    NftPaymentRequiredCollection,
    Lamports,
    LastInstruction,
    LiveDate,
    SplTokenAmount,
    TokenMint,
    DestinationAta,
}

/// A column that must hold a value.
pub open spec fn required(column_type: ColumnType) -> ColumnSpec {
    ColumnSpec { column_type, nullable: false }
}

/// A column that may hold NULL.
pub open spec fn optional(column_type: ColumnType) -> ColumnSpec {
    ColumnSpec { column_type, nullable: true }
}

impl Column {
    /// The definition of each column: the identifier is a big integer, the guard id is
    /// binary, and every other column is nullable.
    pub open spec fn spec_def(self) -> ColumnSpec {
        match self {
            Column::Id => required(ColumnType::BigInteger),
            Column::Label => optional(ColumnType::String),
            Column::CandyGuardId => required(ColumnType::Binary),
            Column::Mode => optional(ColumnType::WhitelistMintMode),
            Column::CollectionMint => optional(ColumnType::Binary),
            Column::Presale => optional(ColumnType::Boolean),
            Column::DiscountPrice => optional(ColumnType::Integer),
            Column::GatekeeperNetwork => optional(ColumnType::Binary),
            Column::ExpireOnUse => optional(ColumnType::Boolean),
            Column::Number => optional(ColumnType::Integer),
            Column::EndSettingType => optional(ColumnType::EndSettingType),
            Column::MerkleRoot => optional(ColumnType::Binary),
            Column::Amount => optional(ColumnType::Integer),
            Column::Destination => optional(ColumnType::Binary),
            Column::SignerKey => optional(ColumnType::Binary),
            Column::MintLimitId => optional(ColumnType::Integer),
            Column::MintLimitLimit => optional(ColumnType::Integer),
            Column::NftPaymentBurn => optional(ColumnType::Boolean),
            Column::NftPaymentRequiredCollection => optional(ColumnType::Binary),
            Column::Lamports => optional(ColumnType::Integer),
            Column::LastInstruction => optional(ColumnType::Boolean),
            Column::LiveDate => optional(ColumnType::Integer),
            Column::SplTokenAmount => optional(ColumnType::Integer),
            Column::TokenMint => optional(ColumnType::Binary),
            Column::DestinationAta => optional(ColumnType::Binary),
        }
    }

    /// The column's definition.
    pub fn def(&self) -> (r: ColumnSpec)
        ensures
            r == self.spec_def(),
    {
        let column_type = match self {
            Column::Id => ColumnType::BigInteger,
            Column::Label => ColumnType::String,
            Column::Mode => ColumnType::WhitelistMintMode,
            Column::EndSettingType => ColumnType::EndSettingType,
            Column::Presale | Column::ExpireOnUse | Column::NftPaymentBurn
            | Column::LastInstruction => ColumnType::Boolean,
            Column::DiscountPrice | Column::Number | Column::Amount | Column::MintLimitId
            | Column::MintLimitLimit | Column::Lamports | Column::LiveDate
            | Column::SplTokenAmount => ColumnType::Integer,
            Column::CandyGuardId | Column::CollectionMint | Column::GatekeeperNetwork
            | Column::MerkleRoot | Column::Destination | Column::SignerKey
            | Column::NftPaymentRequiredCollection | Column::TokenMint
            | Column::DestinationAta => ColumnType::Binary,
        };
        let nullable = match self {
            Column::Id | Column::CandyGuardId => false,
            _ => true,
        };
        ColumnSpec { column_type, nullable }
    }
}

/// The primary key of the `candy_guard_group` table.
#[derive(Clone, Copy, Debug, PartialEq, Eq, Structural)]
pub enum PrimaryKey {
    Id,
}

impl PrimaryKey {
    /// The key is assigned by the database.
    pub fn auto_increment() -> (r: bool)
        ensures
            r,
    {
        true
    }
}

/// The relations of the `candy_guard_group` table.
#[derive(Clone, Copy, Debug, PartialEq, Eq, Structural)]
pub enum Relation {
    CandyGuard,
}

impl Relation {
    /// Each group belongs to the candy guard whose id it holds.
    pub open spec fn spec_def(self) -> RelationSpec {
        match self {
            Relation::CandyGuard => RelationSpec {
                kind: RelationKind::BelongsTo,
                from_table: Table::CandyGuardGroup,
                to_table: Table::CandyGuard,
                key: Some(JoinKey { from_column: KeyColumn::CandyGuardId, to_column: KeyColumn::Id }),
            },
        }
    }

    /// The relation's definition.
    pub fn def(&self) -> (r: RelationSpec)
        ensures
            r == self.spec_def(),
    {
        match self {
            Relation::CandyGuard => RelationSpec {
                kind: RelationKind::BelongsTo,
                from_table: Table::CandyGuardGroup,
                to_table: Table::CandyGuard,
                key: Some(JoinKey { from_column: KeyColumn::CandyGuardId, to_column: KeyColumn::Id }),
            },
        }
    }
}


/// Only the id and the candy guard id must hold a value; every other column accepts NULL.
pub proof fn lemma_required_columns(c: Column)
    ensures
        !c.spec_def().nullable <==> (c == Column::Id || c == Column::CandyGuardId),
{
}

} // verus!
