//! The message model shared by every policy module: a transaction's
//! sub-messages, its call metadata, and the payloads of the two mandatory
//! hooks plus the recovery entry.

use vstd::prelude::*;

use crate::recovery::Credentials;

verus! {

/// One coin position: a denomination and a whole-number amount.
#[derive(Debug)]
pub struct Coin {
    pub denom: String,
    pub amount: u128,
}

/// A transaction sub-message: a type tag identifying the intended ledger
/// operation, and its raw payload.  Immutable once constructed.
#[derive(Debug)]
pub struct Any {
    pub type_url: String,
    pub value: Vec<u8>,
}

/// Execution context of a transaction, supplied by the host and read-only to
/// policy logic.
#[derive(Debug)]
pub struct CallInfo {
    pub fee: Vec<Coin>,
    pub gas: u64,
    pub fee_payer: String,
    pub fee_granter: String,
}

/// Payload of the after-execute hook: the executed messages, the call
/// metadata, and whether the transaction came through a delegated-authority
/// path.
pub struct AfterExecute {
    pub msgs: Vec<Any>,
    pub call_info: CallInfo,
    pub is_authz: bool,
}

/// Payload of the pre-execute hook: the proposed messages, the call
/// metadata, and whether the transaction came through a delegated-authority
/// path.
pub struct PreExecute {
    pub msgs: Vec<Any>,
    pub call_info: CallInfo,
    pub is_authz: bool,
}

/// Payload of the recovery entry: the proposed new controlling key and the
/// credentials authorizing the swap.  Reachable only through the host's
/// privileged path.
pub struct Recover {
    pub caller: String,
    pub pub_key: Vec<u8>,
    pub credentials: Credentials,
}

} // verus!
