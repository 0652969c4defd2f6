//! A small payments engine: a stream of deposit, withdrawal, dispute,
//! resolve and chargeback events is applied, per client, to an account
//! that tracks available and held funds and a per-transaction operation
//! log. The transition rules, the dispatcher that enforces id presence
//! and absence, and the ledger of all accounts are verified; reading
//! the input rows and printing the final table live outside the
//! library.
//!
//! Currency amounts are fixed-point integers counted in minor units of
//! one ten-thousandth of the reported unit, so `10.0` in a report is
//! `100_000` here.

pub mod account;
pub mod dispatch;
pub mod laws;
pub mod ledger;
pub mod transition;
pub mod types;
