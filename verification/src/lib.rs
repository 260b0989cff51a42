//! A fund-distribution contract core: a ledger of per-depositor deposits, a
//! configuration of burn/developer/whitelist payout splits, and the accounting
//! rules that turn a balance into an ordered list of outgoing transfers.
//!
//! The host chain is kept at arm's length: storage, bank transfers, balance
//! queries and tax queries are performed by a thin adapter around this crate,
//! which hands the results in as plain values. Everything that decides or
//! computes lives here and is verified.

pub mod contract;
pub mod error;
pub mod math;
pub mod msg;
pub mod state;
