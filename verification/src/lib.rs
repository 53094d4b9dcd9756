//! A custodial ledger for a single fungible token.
//!
//! The contract credits an internal per-depositor balance when the accepted
//! token contract notifies it of a completed transfer, and pays balances back
//! out by returning a transfer instruction for the host to execute. All state
//! transitions are pure functions over [`state::BankState`]; the surrounding
//! host plumbing (storage, address validation, message encoding) stays outside
//! this crate.

pub mod accounting;
pub mod contract;
pub mod decimal;
pub mod error;
pub mod msg;
pub mod response;
pub mod state;
