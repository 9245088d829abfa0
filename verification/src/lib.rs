//! A verified model of an on-chain marketplace ledger: stores, products,
//! purchase tickets and redemptions, with the purchase/redemption lifecycle
//! written as pure state transitions over plain record values.
//!
//! The host ledger (account storage, token transfers, signature checks and
//! address derivation) is an external collaborator: every transition here
//! takes the records, balances and clock readings it needs as plain values
//! and states in its contract exactly how they change.

pub mod addr;
pub mod admin;
pub mod catalog;
pub mod derivation;
pub mod error;
pub mod laws;
pub mod purchase;
pub mod records;
pub mod redemption;
pub mod ticket;
