//! Signature verification behind one entry point, whichever way trust is
//! anchored: in a fixed signer address or in a verifying key.

use vstd::prelude::*;
use crate::recovery::{
    check_recoverable, recoverable_well_formed, recovery_verdict, signature_authorizes,
    signature_from_bytes,
};
use crate::rejection::Rejection;
use crate::verifying_key::{check_with_key, der_signature, key_authorizes, key_verdict, sec1_public_key};

verus! {

/// What a signature is checked against.
#[derive(Debug, PartialEq, Eq)]
pub enum TrustAnchor {
    /// The address of the one authorized signer; the signature is a 65-byte
    /// recoverable signature.
    Address([u8; 20]),
    /// The verifying key of the requester; the signature is a DER blob.
    VerifyingKey(Vec<u8>),
}

/// The answer to `signature` over `message` under `anchor`, with the reason
/// where it is not accepted.
pub open spec fn verdict(message: Seq<u8>, signature: Seq<u8>, anchor: TrustAnchor) -> Result<(), Rejection> {
    match anchor {
        TrustAnchor::Address(signer) => recovery_verdict(signature, message, signer@),
        TrustAnchor::VerifyingKey(key) => key_verdict(signature, message, key@),
    }
}

/// Whether `signature` authorizes `message` under `anchor`.
pub open spec fn authorizes(message: Seq<u8>, signature: Seq<u8>, anchor: TrustAnchor) -> bool {
    match anchor {
        TrustAnchor::Address(signer) => signature_authorizes(signature, message, signer@),
        TrustAnchor::VerifyingKey(key) => key_authorizes(signature, message, key@),
    }
}

/// A signature is accepted exactly when it authorizes the message: every
/// rejection, whatever its reason, is a plain "no".
pub proof fn lemma_verdict_ok_iff_authorizes(message: Seq<u8>, signature: Seq<u8>, anchor: TrustAnchor)
    ensures
        verdict(message, signature, anchor) is Ok <==> authorizes(message, signature, anchor),
{
}

/// Bytes that are no well-formed recoverable signature authorize nothing
/// under any address: wrong length, a scalar out of range or a bad recovery
/// tag all end in a rejection as malformed.
pub proof fn lemma_malformed_signature_rejected(message: Seq<u8>, signature: Seq<u8>, signer: [u8; 20])
    requires
        !recoverable_well_formed(signature),
    ensures
        !authorizes(message, signature, TrustAnchor::Address(signer)),
        verdict(message, signature, TrustAnchor::Address(signer)) == Err::<(), Rejection>(
            Rejection::MalformedSignature,
        ),
{
}

/// Under a verifying key, a signature blob or a key blob that does not
/// parse authorizes nothing.
pub proof fn lemma_unparsed_input_rejected(message: Seq<u8>, signature: Seq<u8>, key: Vec<u8>)
    requires
        der_signature(signature) is None || sec1_public_key(key@) is None,
    ensures
        !authorizes(message, signature, TrustAnchor::VerifyingKey(key)),
        verdict(message, signature, TrustAnchor::VerifyingKey(key)) is Err,
        verdict(message, signature, TrustAnchor::VerifyingKey(key)) != Err::<(), Rejection>(
            Rejection::InvalidSignature,
        ),
{
}

/// Checks `signature` over `message` against `anchor`, and says why where
/// it is not accepted.
pub fn check(message: &[u8], signature: &[u8], anchor: &TrustAnchor) -> (outcome: Result<(), Rejection>)
    ensures
        outcome == verdict(message@, signature@, *anchor),
{
    match anchor {
        TrustAnchor::Address(signer) => match signature_from_bytes(signature) {
            Some(recoverable) => check_recoverable(&recoverable, message, signer),
            None => Err(Rejection::MalformedSignature),
        },
        TrustAnchor::VerifyingKey(key) => check_with_key(signature, message, key.as_slice()),
    }
}

/// Whether `signature` authorizes `message` under `anchor`.
///
/// Never aborts and has no effect: whatever the bytes hold, the answer is
/// `true` or `false`.
pub fn verify(message: &[u8], signature: &[u8], anchor: &TrustAnchor) -> (valid: bool)
    ensures
        valid == authorizes(message@, signature@, *anchor),
{
    check(message, signature, anchor).is_ok()
}

} // verus!
