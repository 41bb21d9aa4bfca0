//! Verification by key recovery: the signer's public key is recovered from a
//! 65-byte signature and the message digest, an address is derived from the
//! key, and the request is authorized when that address is the configured
//! one.

use vstd::prelude::*;
use crate::bytes::{bytes_equal, bytes_of};
use crate::rejection::Rejection;
use crate::scalar::{group_order, scalar_at, scalar_below_order};

verus! {

/// Length of a recoverable signature: two scalars and the recovery tag.
pub const SIGNATURE_LEN: usize = 65;

/// The Keccak-256 digest of `input`.
pub uninterp spec fn keccak256(input: Seq<u8>) -> Seq<u8>;

/// The compressed public key that a well-formed recoverable signature
/// yields for a digest, if it yields one.
pub uninterp spec fn recovered_public_key(signature: Seq<u8>, digest: Seq<u8>) -> Option<Seq<u8>>;

/// The address of a compressed public key, if the bytes are a public key.
pub uninterp spec fn eth_address_of(public_key: Seq<u8>) -> Option<Seq<u8>>;

/// The recovery tags that are accepted: 0 to 3, or the same with 27 added.
pub open spec fn recovery_tag_valid(tag: u8) -> bool {
    tag <= 3 || 27 <= tag <= 30
}

/// A signature that can be handed to key recovery: 65 bytes, both scalars
/// below the group order, and a valid recovery tag.
pub open spec fn recoverable_well_formed(signature: Seq<u8>) -> bool {
    &&& signature.len() == SIGNATURE_LEN
    &&& scalar_at(signature, 0) < group_order()
    &&& scalar_at(signature, 32) < group_order()
    &&& recovery_tag_valid(signature[64])
}

/// The address of the key that signed `digest`, as far as `signature`
/// tells. A malformed signature, a failed recovery and a failed derivation
/// all give `None`.
pub open spec fn recovered_signer(signature: Seq<u8>, digest: Seq<u8>) -> Option<Seq<u8>> {
    if !recoverable_well_formed(signature) {
        None
    } else {
        match recovered_public_key(signature, digest) {
            Some(key) => eth_address_of(key),
            None => None,
        }
    }
}

/// Whether `signature` authorizes `message` on behalf of `signer`: the
/// address recovered for the message's digest is `signer`.
pub open spec fn signature_authorizes(signature: Seq<u8>, message: Seq<u8>, signer: Seq<u8>) -> bool {
    recovered_signer(signature, keccak256(message)) == Some(signer)
}

/// The answer to a recoverable signature, with the reason where it is not
/// accepted: malformed where it cannot be handed to recovery, invalid where
/// no address is recovered or another one than `signer`.
pub open spec fn recovery_verdict(signature: Seq<u8>, message: Seq<u8>, signer: Seq<u8>) -> Result<
    (),
    Rejection,
> {
    if !recoverable_well_formed(signature) {
        Err(Rejection::MalformedSignature)
    } else if signature_authorizes(signature, message, signer) {
        Ok(())
    } else {
        Err(Rejection::InvalidSignature)
    }
}

/// A signature speaks for one signer at most: where it authorizes a message
/// on behalf of one address, it authorizes that message on behalf of no
/// other.
pub proof fn lemma_one_signer_per_signature(signature: Seq<u8>, message: Seq<u8>, signer: Seq<u8>, other: Seq<u8>)
    requires
        signature_authorizes(signature, message, signer),
        other != signer,
    ensures
        !signature_authorizes(signature, message, other),
        recovery_verdict(signature, message, other) == Err::<(), Rejection>(Rejection::InvalidSignature),
{
}

/// `ink::env::hash_bytes` with `Keccak256`: one round of Keccak-256 over
/// `input`. The digest is named, not computed, in contracts.
#[verifier::external_body]
pub(crate) fn keccak256_digest(input: &[u8]) -> (digest: [u8; 32])
    ensures
        digest@ == keccak256(input@),
{
    let mut digest = [0u8; 32];
    ink::env::hash_bytes::<ink::env::hash::Keccak256>(input, &mut digest);
    digest
}

/// `ink::env::ecdsa_recover`: recovers the compressed public key from a
/// recoverable signature and a digest. Off chain the call aborts on a
/// recovery tag outside 0..=3 (after 27 is taken off a tag above 26) and on
/// a scalar that is not below the group order, so those are ruled out
/// beforehand; a recovery that fails otherwise is reported as `None`. The
/// key is named, not computed, in contracts.
#[verifier::external_body]
fn recover_public_key(signature: &[u8; 65], digest: &[u8; 32]) -> (key: Option<[u8; 33]>)
    requires
        recoverable_well_formed(signature@),
    ensures
        bytes_of(key) == recovered_public_key(signature@, digest@),
{
    let mut key = [0u8; 33];
    match ink::env::ecdsa_recover(signature, digest, &mut key) {
        Ok(()) => Some(key),
        Err(_) => None,
    }
}

/// `ink::env::ecdsa_to_eth_address`: the last 20 bytes of the Keccak-256
/// digest of the uncompressed key without its prefix byte. Bytes that are
/// no public key are reported as `None`. The address is named, not
/// computed, in contracts.
#[verifier::external_body]
fn derive_eth_address(public_key: &[u8; 33]) -> (address: Option<[u8; 20]>)
    ensures
        bytes_of(address) == eth_address_of(public_key@),
{
    let mut address = [0u8; 20];
    match ink::env::ecdsa_to_eth_address(public_key, &mut address) {
        Ok(()) => Some(address),
        Err(_) => None,
    }
}

/// Whether a signature can be handed to key recovery at all.
pub fn signature_well_formed(signature: &[u8; 65]) -> (well_formed: bool)
    ensures
        well_formed == recoverable_well_formed(signature@),
{
    let bytes = signature.as_slice();
    let tag = signature[64];
    let tag_valid = tag <= 3 || (27 <= tag && tag <= 30);
    let first = scalar_below_order(bytes, 0);
    let second = scalar_below_order(bytes, 32);
    tag_valid && first && second
}

/// Key recovery and address derivation in sequence, for a signature that
/// has passed the well-formedness check.
fn recover_well_formed(signature: &[u8; 65], digest: &[u8; 32]) -> (signer: Option<[u8; 20]>)
    requires
        recoverable_well_formed(signature@),
    ensures
        bytes_of(signer) == recovered_signer(signature@, digest@),
{
    match recover_public_key(signature, digest) {
        Some(key) => derive_eth_address(&key),
        None => None,
    }
}

/// Recovers the address of the key that signed `digest`.
///
/// Never aborts: a signature that is not well formed is answered with
/// `None` without being handed to recovery.
pub fn recover_signer(signature: &[u8; 65], digest: &[u8; 32]) -> (signer: Option<[u8; 20]>)
    ensures
        bytes_of(signer) == recovered_signer(signature@, digest@),
{
    if signature_well_formed(signature) {
        recover_well_formed(signature, digest)
    } else {
        None
    }
}

/// Whether a recovered address is the expected one. No recovered address
/// matches nothing.
pub fn address_matches(recovered: Option<[u8; 20]>, signer: &[u8; 20]) -> (matches: bool)
    ensures
        matches == (bytes_of(recovered) == Some(signer@)),
{
    match recovered {
        Some(address) => bytes_equal(address.as_slice(), signer.as_slice()),
        None => false,
    }
}

/// Checks a recoverable signature over `message` against the address of the
/// authorized signer, and says why where it is not accepted.
pub fn check_recoverable(signature: &[u8; 65], message: &[u8], signer: &[u8; 20]) -> (outcome: Result<
    (),
    Rejection,
>)
    ensures
        outcome == recovery_verdict(signature@, message@, signer@),
{
    if !signature_well_formed(signature) {
        return Err(Rejection::MalformedSignature);
    }
    let digest = keccak256_digest(message);
    let recovered = recover_well_formed(signature, &digest);
    if address_matches(recovered, signer) {
        Ok(())
    } else {
        Err(Rejection::InvalidSignature)
    }
}

/// Checks a recoverable signature over `message` against the address of the
/// authorized signer.
///
/// Never aborts: whatever the 65 bytes hold, the answer is `true` or
/// `false`.
pub fn verify_signature(signature: &[u8; 65], message: &[u8], signer: &[u8; 20]) -> (valid: bool)
    ensures
        valid == signature_authorizes(signature@, message@, signer@),
{
    check_recoverable(signature, message, signer).is_ok()
}

/// The 65 bytes of a signature as an array; `None` for any other length.
pub fn signature_from_bytes(bytes: &[u8]) -> (signature: Option<[u8; 65]>)
    ensures
        bytes@.len() == SIGNATURE_LEN ==> bytes_of(signature) == Some(bytes@),
        bytes@.len() != SIGNATURE_LEN ==> signature is None,
{
    if bytes.len() != SIGNATURE_LEN {
        return None;
    }
    let mut signature = [0u8; 65];
    let mut at: usize = 0;
    while at < SIGNATURE_LEN
        invariant
            at <= SIGNATURE_LEN,
            bytes@.len() == SIGNATURE_LEN,
            forall|i: int| 0 <= i < at ==> signature@[i] == bytes@[i],
        decreases SIGNATURE_LEN - at,
    {
        signature[at] = bytes[at];
        at += 1;
    }
    assert(signature@ =~= bytes@);
    Some(signature)
}

} // verus!
