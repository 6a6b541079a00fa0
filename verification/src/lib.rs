//! A pluggable account-policy layer for a ledger runtime.
//!
//! An account delegates authorization and post-condition logic to a policy
//! module.  A module can inspect a transaction before it is admitted
//! (`pre_execute`), re-check the outcome after it executed (`after_execute`),
//! and support out-of-band, signature-authenticated recovery of account
//! control (`recover`).
//!
//! The host runtime owns persistent storage, balance queries and block time;
//! every operation here works on an explicit per-account state value that the
//! host loads before the call and stores after it.

pub mod account;
pub mod base;
pub mod error;
pub mod recovery;
pub mod spend_limit;
