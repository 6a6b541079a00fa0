//! The recovery policy module: it keeps a dedicated recovery public key and
//! accepts a key-replacement request when it carries a valid signature,
//! under that key, over the digest of the proposed new key.
//!
//! Accepting the request authorizes the swap of the account's controlling
//! key; how the new key is then installed is the host's decision, and no
//! state changes here.

use vstd::prelude::*;

use crate::account::{AfterExecute, Any, CallInfo, PreExecute, Recover};
use crate::error::ContractError;
use cosmwasm_std::Api;
use sha2::Digest;

verus! {

/// Credentials presented with a recovery attempt: a signature over the
/// digest of the proposed new public key.  Transient, never persisted.
#[derive(Debug)]
pub struct Credentials {
    pub signature: Vec<u8>,
}

/// Instantiation input of the recovery module: the recovery public key,
/// hex-encoded.
#[derive(Debug)]
pub struct InstantiateMsg {
    pub recover_key: String,
}

/// The operations the recovery module accepts through the host's privileged
/// path: the two mandatory hooks and the recovery entry.
pub enum SudoMsg {
    /// The mandatory after-execute hook.
    AfterExecute(AfterExecute),
    /// The mandatory pre-execute hook.
    PreExecute(PreExecute),
    /// The out-of-band recovery entry.
    Recover(Recover),
}

/// Per-account state of the recovery module: the stored recovery public
/// key, as raw bytes.
pub struct RecoveryState {
    pub recover_key: Vec<u8>,
}

/// Whether `c` is a hexadecimal digit, in either case.
pub open spec fn is_hex_digit(c: char) -> bool {
    ||| '0' <= c && c <= '9'
    ||| 'a' <= c && c <= 'f'
    ||| 'A' <= c && c <= 'F'
}

/// The value of one hexadecimal digit.
pub open spec fn hex_digit_value(c: char) -> int {
    if '0' <= c && c <= '9' {
        c as int - '0' as int
    } else if 'a' <= c && c <= 'f' {
        c as int - 'a' as int + 10
    } else {
        c as int - 'A' as int + 10
    }
}

/// Whether `s` is a well-formed hex encoding: an even number of characters,
/// all of them hex digits.
pub open spec fn valid_hex(s: Seq<char>) -> bool {
    s.len() % 2 == 0 && forall|i: int| 0 <= i < s.len() ==> is_hex_digit(#[trigger] s[i])
}

/// The bytes a well-formed hex encoding denotes: one byte for each pair of
/// digits, high digit first.
pub open spec fn hex_decoded(s: Seq<char>) -> Seq<u8> {
    Seq::new((s.len() / 2) as nat, |i: int| (hex_digit_value(s[2 * i]) * 16 + hex_digit_value(s[2 * i + 1])) as u8)
}

/// Relies on hex::decode: a string of an even number of hex digits decodes
/// to one byte per digit pair, high digit first; an odd length or any other
/// character is an error.
#[verifier::external_body]
fn hex_decode(s: &str) -> (r: Option<Vec<u8>>)
    ensures
        r is Some <==> valid_hex(s@),
        (r matches Some(b) ==> b@ == hex_decoded(s@)),
{
    hex::decode(s).ok()
}

/// The digest the host's hash primitive computes: a function of the input
/// bytes alone.
pub uninterp spec fn sha256_of(data: Seq<u8>) -> Seq<u8>;

/// Relies on sha2::Sha256: the 32-byte digest is a function of the input
/// bytes alone.
#[verifier::external_body]
pub fn sha256(msg: &[u8]) -> (r: Vec<u8>)
    ensures
        r@ == sha256_of(msg@),
        r@.len() == 32,
{
    sha2::Sha256::digest(msg).to_vec()
}

/// What the host's signature-verification primitive answers for a digest, a
/// signature and a public key: a function of the three byte strings alone.
/// No answer stands for a malformed input (wrong digest or signature length,
/// unparsable signature or key).
pub uninterp spec fn secp256k1_verify_result(
    digest: Seq<u8>,
    signature: Seq<u8>,
    public_key: Seq<u8>,
) -> Option<bool>;

/// Relies on cosmwasm_std::testing::MockApi::secp256k1_verify, which runs
/// cosmwasm_crypto::secp256k1_verify: deterministic ECDSA verification over
/// secp256k1; a malformed input is the error case.
#[verifier::external_body]
fn secp256k1_verify(message_hash: &[u8], signature: &[u8], public_key: &[u8]) -> (r: Option<bool>)
    ensures
        r == secp256k1_verify_result(message_hash@, signature@, public_key@),
{
    cosmwasm_std::testing::MockApi::default().secp256k1_verify(
        message_hash,
        signature,
        public_key,
    ).ok()
}

/// Whether a recovery request proposing `pub_key` with `signature` is
/// accepted under the stored key `key`: the signature verifies over the
/// digest of the proposed key.
pub open spec fn recovery_accepted(key: Seq<u8>, pub_key: Seq<u8>, signature: Seq<u8>) -> bool {
    secp256k1_verify_result(sha256_of(pub_key), signature, key) == Some(true)
}

/// Builds the state a fresh recovery account starts from: the configured
/// recovery key, decoded from its hex form.  A string that is not
/// well-formed hex is rejected whole.
pub fn instantiate(msg: &InstantiateMsg) -> (r: Result<RecoveryState, ContractError>)
    ensures
        valid_hex(msg.recover_key@) ==> (r matches Ok(s) && s.recover_key@ == hex_decoded(
            msg.recover_key@,
        )),
        !valid_hex(msg.recover_key@) ==> r == Err::<RecoveryState, ContractError>(
            ContractError::InvalidRecoveryKey,
        ),
{
    match hex_decode(msg.recover_key.as_str()) {
        Some(key) => Ok(RecoveryState { recover_key: key }),
        None => Err(ContractError::InvalidRecoveryKey),
    }
}

/// The recovery entry: verifies the credential signature over the digest of
/// the proposed new public key against the stored recovery key.  Reachable
/// only through the host's privileged path, so no caller check happens
/// here.  Anything but a clean pass of the verification primitive — a wrong
/// signature as much as a malformed one — is an invalid signature.
pub fn recover(state: &RecoveryState, pub_key: &Vec<u8>, credentials: &Credentials) -> (r: Result<
    (),
    ContractError,
>)
    ensures
        (r is Ok) == recovery_accepted(state.recover_key@, pub_key@, credentials.signature@),
        r is Err ==> r == Err::<(), ContractError>(ContractError::InvalidSignature),
{
    let digest = sha256(pub_key.as_slice());
    let verified = secp256k1_verify(
        digest.as_slice(),
        credentials.signature.as_slice(),
        state.recover_key.as_slice(),
    );
    match verified {
        Some(true) => Ok(()),
        _ => Err(ContractError::InvalidSignature),
    }
}

/// The pre-execute hook of the recovery module: it admits every
/// transaction, enforcing only that the account itself invoked it.
pub fn pre_execute(
    sender: &String,
    account: &String,
    _msgs: &Vec<Any>,
    _call_info: &CallInfo,
    _is_authz: bool,
) -> (r: Result<(), ContractError>)
    ensures
        (r is Ok) == (sender@ == account@),
        r is Err ==> r == Err::<(), ContractError>(ContractError::Unauthorized),
{
    if *sender == *account {
        Ok(())
    } else {
        Err(ContractError::Unauthorized)
    }
}

/// The after-execute hook of the recovery module: it admits every outcome,
/// enforcing only that the account itself invoked it.
pub fn after_execute(
    sender: &String,
    account: &String,
    _msgs: &Vec<Any>,
    _call_info: &CallInfo,
    _is_authz: bool,
) -> (r: Result<(), ContractError>)
    ensures
        (r is Ok) == (sender@ == account@),
        r is Err ==> r == Err::<(), ContractError>(ContractError::Unauthorized),
{
    if *sender == *account {
        Ok(())
    } else {
        Err(ContractError::Unauthorized)
    }
}

/// Dispatches one privileged invocation.  `sender` is the caller the host
/// authenticated and `account` the account's own address.
pub fn sudo(state: &RecoveryState, sender: &String, account: &String, msg: SudoMsg) -> (r: Result<
    (),
    ContractError,
>)
    ensures
        (msg matches SudoMsg::PreExecute(_) ==> (r is Ok) == (sender@ == account@) && (r is Err
            ==> r == Err::<(), ContractError>(ContractError::Unauthorized))),
        (msg matches SudoMsg::AfterExecute(_) ==> (r is Ok) == (sender@ == account@) && (r is Err
            ==> r == Err::<(), ContractError>(ContractError::Unauthorized))),
        (msg matches SudoMsg::Recover(req) ==> (r is Ok) == recovery_accepted(
            state.recover_key@,
            req.pub_key@,
            req.credentials.signature@,
        ) && (r is Err ==> r == Err::<(), ContractError>(ContractError::InvalidSignature))),
{
    match msg {
        SudoMsg::AfterExecute(a) => after_execute(sender, account, &a.msgs, &a.call_info, a.is_authz),
        SudoMsg::PreExecute(p) => pre_execute(sender, account, &p.msgs, &p.call_info, p.is_authz),
        SudoMsg::Recover(req) => recover(state, &req.pub_key, &req.credentials),
    }
}

} // verus!
