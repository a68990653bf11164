//! A custodial staking ledger: users deposit tokens into a pooled vault, each
//! user's redeemable balance is tracked in a per-user record, and a settlement
//! operator may debit a record to pay a bill into a treasury account.
//!
//! Every account is addressed by a program-derived address. The token movements
//! themselves are performed by the host; the operations here decide whether a
//! movement may happen, which one, and what the ledger looks like afterwards.

pub mod accounts;
pub mod address;
pub mod instructions;
pub mod ledger;
