//! A fixed-price marketplace for non-fungible assets, paid for in a fungible asset.
//!
//! The listing table and its lifecycle rules are verified here. The asset
//! registries themselves are collaborators: their answers (the owner of an
//! asset, an allowance, whether a transfer went through) enter as arguments,
//! and the transfers to perform come back as values.
pub mod account;
pub mod listing;
pub mod market;
pub mod laws;
pub mod psp22;
