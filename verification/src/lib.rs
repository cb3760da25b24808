//! Validation rules for a token-issuance protocol on a cell-model chain.
//!
//! An issuer mints classes, a class mints tokens, and metadata records stand
//! beside them. Each of these entities lives in a cell, and a validator decides
//! for one transaction whether the entity may be created, updated or destroyed.

pub mod bytes;
pub mod class;
pub mod error;
pub mod helper;
pub mod identity;
pub mod issuer;
pub mod issuer_type;
pub mod matcher;
pub mod metadata;
pub mod metadata_type;
pub mod nft;
pub mod nft_type;
pub mod transaction;
