//! Verification against a verifying key: the signature arrives as a DER
//! blob, the key as a serialized secp256k1 public key, and the signature is
//! checked against the message digest and the key.

use vstd::prelude::*;
use crate::bytes::bytes_of;
use crate::recovery::{keccak256, keccak256_digest};
use crate::rejection::Rejection;

verus! {

/// The compact form of the signature that a DER blob encodes, if it encodes
/// one.
pub uninterp spec fn der_signature(blob: Seq<u8>) -> Option<Seq<u8>>;

/// The compressed form of the public key that a blob encodes, if it encodes
/// one.
pub uninterp spec fn sec1_public_key(blob: Seq<u8>) -> Option<Seq<u8>>;

/// Whether a compact signature is a valid ECDSA signature of a digest under
/// a compressed public key.
pub uninterp spec fn ecdsa_valid(digest: Seq<u8>, signature: Seq<u8>, public_key: Seq<u8>) -> bool;

/// Whether `signature` authorizes `message` under the verifying key `key`:
/// both blobs parse, and the signature is valid for the message's digest.
pub open spec fn key_authorizes(signature: Seq<u8>, message: Seq<u8>, key: Seq<u8>) -> bool {
    match (der_signature(signature), sec1_public_key(key)) {
        (Some(compact), Some(public_key)) => ecdsa_valid(keccak256(message), compact, public_key),
        _ => false,
    }
}

/// The answer to a signature under a verifying key, with the reason where
/// it is not accepted. The signature is looked at first, then the key.
pub open spec fn key_verdict(signature: Seq<u8>, message: Seq<u8>, key: Seq<u8>) -> Result<(), Rejection> {
    match der_signature(signature) {
        None => Err(Rejection::MalformedSignature),
        Some(compact) => match sec1_public_key(key) {
            None => Err(Rejection::MalformedKey),
            Some(public_key) => if ecdsa_valid(keccak256(message), compact, public_key) {
                Ok(())
            } else {
                Err(Rejection::InvalidSignature)
            },
        },
    }
}

/// `secp256k1::ecdsa::Signature::from_der`, with the parsed signature put
/// back into its 64-byte compact form by `serialize_compact`. A blob that
/// is no DER signature is reported as `None`.
#[verifier::external_body]
fn parse_der_signature(blob: &[u8]) -> (compact: Option<[u8; 64]>)
    ensures
        bytes_of(compact) == der_signature(blob@),
{
    match secp256k1::ecdsa::Signature::from_der(blob) {
        Ok(signature) => Some(signature.serialize_compact()),
        Err(_) => None,
    }
}

/// `secp256k1::PublicKey::from_slice`, with the parsed key put into its
/// 33-byte compressed form by `serialize`. A blob that is no public key is
/// reported as `None`.
#[verifier::external_body]
fn parse_public_key(blob: &[u8]) -> (public_key: Option<[u8; 33]>)
    ensures
        bytes_of(public_key) == sec1_public_key(blob@),
{
    match secp256k1::PublicKey::from_slice(blob) {
        Ok(key) => Some(key.serialize()),
        Err(_) => None,
    }
}

/// `secp256k1::ecdsa::Signature::verify`: ECDSA verification of a digest
/// under a public key. The three arguments are brought into the crate's
/// types first; where one of them is not accepted the answer is `false`.
#[verifier::external_body]
fn ecdsa_verify(digest: &[u8; 32], signature: &[u8; 64], public_key: &[u8; 33]) -> (valid: bool)
    ensures
        valid == ecdsa_valid(digest@, signature@, public_key@),
{
    let message = secp256k1::Message::from_slice(digest);
    let signature = secp256k1::ecdsa::Signature::from_compact(signature);
    let key = secp256k1::PublicKey::from_slice(public_key);
    match (message, signature, key) {
        (Ok(message), Ok(signature), Ok(key)) => signature.verify(&message, &key).is_ok(),
        _ => false,
    }
}

/// The answer for a signature and a key as far as they parsed, and for
/// what verification said of them. `valid` counts only where both parsed.
pub fn judge_parsed(compact: Option<[u8; 64]>, public_key: Option<[u8; 33]>, valid: bool) -> (outcome: Result<
    (),
    Rejection,
>)
    ensures
        outcome == (if compact is None {
            Err::<(), Rejection>(Rejection::MalformedSignature)
        } else if public_key is None {
            Err(Rejection::MalformedKey)
        } else if valid {
            Ok(())
        } else {
            Err(Rejection::InvalidSignature)
        }),
{
    if compact.is_none() {
        Err(Rejection::MalformedSignature)
    } else if public_key.is_none() {
        Err(Rejection::MalformedKey)
    } else if valid {
        Ok(())
    } else {
        Err(Rejection::InvalidSignature)
    }
}

/// Checks a DER signature over `message` against a verifying key, and says
/// why where it is not accepted.
pub fn check_with_key(signature: &[u8], message: &[u8], key: &[u8]) -> (outcome: Result<(), Rejection>)
    ensures
        outcome == key_verdict(signature@, message@, key@),
{
    let compact = parse_der_signature(signature);
    let public_key = parse_public_key(key);
    let valid = match (&compact, &public_key) {
        (Some(compact), Some(public_key)) => {
            let digest = keccak256_digest(message);
            ecdsa_verify(&digest, compact, public_key)
        },
        _ => false,
    };
    judge_parsed(compact, public_key, valid)
}

/// Checks a DER signature over `message` against a verifying key.
///
/// Never aborts: a blob that does not parse, be it the signature or the
/// key, gives `false`.
pub fn verify_with_key(signature: &[u8], message: &[u8], key: &[u8]) -> (valid: bool)
    ensures
        valid == key_authorizes(signature@, message@, key@),
{
    check_with_key(signature, message, key).is_ok()
}

} // verus!
