//! An account-balance ledger for a fungible token.
//!
//! A single fixed total supply is distributed across registered accounts.
//! Value moves only through the operations of [`ledger::Ledger`]: explicit
//! registration, deposit and withdrawal primitives, atomic transfers, and a
//! two-phase transfer-and-notify protocol whose resolve step reconciles the
//! receiver's outcome against the optimistic balance change.
//!
//! Every operation carries a contract; the central ones state that the sum of
//! all balances always equals the total supply and that no balance ever goes
//! negative.

pub mod account;
pub mod error;
pub mod event;
pub mod metadata;
pub mod ledger;
pub mod transfer;
pub mod storage;
pub mod laws;
