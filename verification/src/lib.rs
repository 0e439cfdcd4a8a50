//! Verified core of an NFT ingester and candy-machine load generator.
pub mod dao;
pub mod load_generation;
pub mod error;
pub mod program_transformers;

pub use error::IngesterError;
