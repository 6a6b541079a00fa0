use vstd::prelude::*;

verus! {

/// The errors a policy operation can end with.
///
/// Every error is terminal for the current transaction: the host surfaces it
/// to the transaction's originator and rolls back any partial ledger effects.
#[derive(Clone, Copy, Debug, PartialEq, Eq, Structural)]
pub enum ContractError {
    /// The caller is not the account itself, or not the account's owner.
    Unauthorized,
    /// The spend-limit accounting check failed.
    LimitExceeded,
    /// The recovery credential check failed.
    InvalidSignature,
    /// A message payload could not be parsed into the expected transfer
    /// descriptor.
    InvalidMessageFormat,
    /// The admission check rejected a message whose type tag is not
    /// allow-listed.
    DisallowedMessageType,
    /// The after-execute hook ran without a balance snapshot from
    /// pre-execute.
    MissingSnapshot,
    /// The configured recovery key is not a valid hex string.
    InvalidRecoveryKey,
}

} // verus!
