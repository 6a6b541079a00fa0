use k256::ecdsa::signature::Signer;
use k256::ecdsa::{Signature, SigningKey};
use k256::elliptic_curve::sec1::ToEncodedPoint;

use smart_account::account::{Any, CallInfo, Recover};
use smart_account::error::ContractError;
use smart_account::recovery::{
    after_execute, instantiate, pre_execute, recover, sha256, sudo, Credentials, InstantiateMsg,
    RecoveryState, SudoMsg,
};

fn account_addr() -> String {
    "aura1account".to_string()
}

fn call_info() -> CallInfo {
    CallInfo { fee: vec![], gas: 200_000, fee_payer: account_addr(), fee_granter: String::new() }
}

/// A deterministic signing key, its compressed public key, and a signature
/// over (the sha-256 digest of) `msg`.
fn keypair_and_signature(msg: &[u8]) -> (Vec<u8>, Vec<u8>) {
    let sk = SigningKey::from_slice(&[7u8; 32]).unwrap();
    let pk = sk.verifying_key().to_encoded_point(true).as_bytes().to_vec();
    let sig: Signature = sk.sign(msg);
    (pk, sig.to_bytes().to_vec())
}

#[test]
fn instantiate_decodes_hex_key() {
    let msg = InstantiateMsg { recover_key: "deadBEEF".to_string() };
    let state = instantiate(&msg).unwrap();
    assert_eq!(state.recover_key, vec![0xde, 0xad, 0xbe, 0xef]);
}

#[test]
fn instantiate_accepts_empty_key() {
    let msg = InstantiateMsg { recover_key: String::new() };
    let state = instantiate(&msg).unwrap();
    assert!(state.recover_key.is_empty());
}

#[test]
fn instantiate_rejects_odd_length() {
    let msg = InstantiateMsg { recover_key: "abc".to_string() };
    assert!(matches!(instantiate(&msg), Err(ContractError::InvalidRecoveryKey)));
}

#[test]
fn instantiate_rejects_non_hex_characters() {
    let msg = InstantiateMsg { recover_key: "zz11".to_string() };
    assert!(matches!(instantiate(&msg), Err(ContractError::InvalidRecoveryKey)));
}

#[test]
fn sha256_matches_known_vectors() {
    let digest = sha256(b"abc");
    assert_eq!(
        digest,
        hex::decode("ba7816bf8f01cfea414140de5dae2223b00361a396177a9cb410ff61f20015ad").unwrap()
    );
    let empty = sha256(b"");
    assert_eq!(
        empty,
        hex::decode("e3b0c44298fc1c149afbf4c8996fb92427ae41e4649b934ca495991b7852b855").unwrap()
    );
}

#[test]
fn recover_accepts_valid_signature() {
    let new_key: Vec<u8> = vec![1, 2, 3, 4, 5, 6, 7, 8];
    let (stored_key, signature) = keypair_and_signature(&new_key);
    let state = RecoveryState { recover_key: stored_key };
    let creds = Credentials { signature };
    assert!(recover(&state, &new_key, &creds).is_ok());
}

#[test]
fn recover_rejects_any_bit_flip_in_signature() {
    let new_key: Vec<u8> = vec![1, 2, 3, 4, 5, 6, 7, 8];
    let (stored_key, signature) = keypair_and_signature(&new_key);
    let state = RecoveryState { recover_key: stored_key };
    for byte in [0usize, 17, 31, 32, 48, 63] {
        let mut flipped = signature.clone();
        flipped[byte] ^= 0x01;
        let creds = Credentials { signature: flipped };
        assert_eq!(recover(&state, &new_key, &creds), Err(ContractError::InvalidSignature));
    }
}

#[test]
fn recover_rejects_signature_over_other_key() {
    let new_key: Vec<u8> = vec![1, 2, 3, 4];
    let (stored_key, _) = keypair_and_signature(&new_key);
    let (_, other_signature) = {
        let sk = SigningKey::from_slice(&[9u8; 32]).unwrap();
        let sig: Signature = sk.sign(&new_key[..]);
        (sk, sig.to_bytes().to_vec())
    };
    let state = RecoveryState { recover_key: stored_key };
    let creds = Credentials { signature: other_signature };
    assert_eq!(recover(&state, &new_key, &creds), Err(ContractError::InvalidSignature));
}

#[test]
fn recover_rejects_malformed_signature() {
    let new_key: Vec<u8> = vec![1, 2, 3, 4];
    let (stored_key, _) = keypair_and_signature(&new_key);
    let state = RecoveryState { recover_key: stored_key };
    let creds = Credentials { signature: vec![0u8; 10] };
    assert_eq!(recover(&state, &new_key, &creds), Err(ContractError::InvalidSignature));
}

#[test]
fn recover_round_trip_through_instantiate() {
    let new_key: Vec<u8> = vec![42; 33];
    let (stored_key, signature) = keypair_and_signature(&new_key);
    let msg = InstantiateMsg { recover_key: hex::encode(&stored_key) };
    let state = instantiate(&msg).unwrap();
    assert_eq!(state.recover_key, stored_key);
    let creds = Credentials { signature };
    assert!(recover(&state, &new_key, &creds).is_ok());
}

#[test]
fn hooks_reject_other_callers() {
    let account = account_addr();
    let intruder = "aura1intruder".to_string();
    let msgs: Vec<Any> = vec![];
    let info = call_info();
    assert_eq!(
        pre_execute(&intruder, &account, &msgs, &info, false),
        Err(ContractError::Unauthorized)
    );
    assert_eq!(
        after_execute(&intruder, &account, &msgs, &info, true),
        Err(ContractError::Unauthorized)
    );
    assert!(pre_execute(&account, &account, &msgs, &info, false).is_ok());
    assert!(after_execute(&account, &account, &msgs, &info, false).is_ok());
}

#[test]
fn sudo_dispatches_recover() {
    let new_key: Vec<u8> = vec![1, 2, 3, 4, 5];
    let (stored_key, signature) = keypair_and_signature(&new_key);
    let state = RecoveryState { recover_key: stored_key };
    let account = account_addr();
    let req = Recover {
        caller: "aura1platform".to_string(),
        pub_key: new_key,
        credentials: Credentials { signature },
    };
    assert!(sudo(&state, &account, &account, SudoMsg::Recover(req)).is_ok());
}
