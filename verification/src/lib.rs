//! Instruction-processing core of a crowdfunding ledger.
//!
//! Fundraising campaigns are persisted, one per account, inside a host-managed
//! account's data buffer. A binary instruction payload selects one of three
//! state transitions — creating a campaign, withdrawing funds as its admin, or
//! donating through a pre-funded staging account — and each transition
//! validates authorization, ownership and solvency before mutating any state.
//!
//! The host execution environment supplies the account records and the
//! rent-exempt minimum balance; both enter the library as plain values.

pub mod account;
pub mod codec;
pub mod error;
pub mod laws;
pub mod processor;
pub mod records;
