//! The canonical message of a mint request: the bytes that the signer signs
//! and the verifier checks.

use vstd::prelude::*;

verus! {

/// Number of bytes that the identifier takes at the front of every message.
pub const ID_WIDTH: usize = 16;

/// The `width` lowest base-256 digits of `value`, least significant first.
pub open spec fn le_bytes(value: nat, width: nat) -> Seq<u8>
    decreases width,
{
    if width == 0 {
        Seq::empty()
    } else {
        seq![(value % 256) as u8] + le_bytes(value / 256, (width - 1) as nat)
    }
}

/// `256` to the power `width`.
pub open spec fn radix_pow(width: nat) -> nat
    decreases width,
{
    if width == 0 {
        1
    } else {
        256 * radix_pow((width - 1) as nat)
    }
}

/// The fixed-width encoding of a token identifier: sixteen bytes, little-endian.
pub open spec fn id_bytes(id: u128) -> Seq<u8> {
    le_bytes(id as nat, ID_WIDTH as nat)
}

/// The canonical message for `(id, uri)`: the identifier's sixteen bytes
/// followed by the URI's bytes as they are.
pub open spec fn canonical_message(id: u128, uri: Seq<u8>) -> Seq<u8> {
    id_bytes(id) + uri
}

/// `parity_scale_codec::Encode::encode` on a `u128`. The codec writes a
/// fixed-width integer as its `to_le_bytes()`; the contract states exactly
/// that: sixteen bytes, least significant first.
#[verifier::external_body]
fn encode_id(id: u128) -> (bytes: Vec<u8>)
    ensures
        bytes@ == id_bytes(id),
{
    parity_scale_codec::Encode::encode(&id)
}

/// Builds the canonical message of a mint request.
///
/// Every `(id, uri)` pair is encodable: there is no failure mode.
pub fn canonicalize(id: u128, uri: &[u8]) -> (message: Vec<u8>)
    ensures
        message@ == canonical_message(id, uri@),
{
    let mut message = encode_id(id);
    message.extend_from_slice(uri);
    assert(message@ =~= canonical_message(id, uri@));
    message
}

/// Two numbers below `256^width` with the same `width` little-endian digits
/// are the same number.
pub proof fn lemma_le_bytes_injective(a: nat, b: nat, width: nat)
    requires
        a < radix_pow(width),
        b < radix_pow(width),
        le_bytes(a, width) == le_bytes(b, width),
    ensures
        a == b,
    decreases width,
{
    if width > 0 {
        let rest = (width - 1) as nat;
        let head_a = seq![(a % 256) as u8];
        let head_b = seq![(b % 256) as u8];
        let tail_a = le_bytes(a / 256, rest);
        let tail_b = le_bytes(b / 256, rest);
        assert((head_a + tail_a)[0] == (head_b + tail_b)[0]);
        assert(a % 256 == b % 256);
        assert((head_a + tail_a).skip(1) =~= tail_a);
        lemma_le_bytes_len(a / 256, rest);
        lemma_le_bytes_len(b / 256, rest);
        assert((head_b + tail_b).skip(1) =~= tail_b);
        assert(tail_a == tail_b);
        lemma_le_bytes_injective(a / 256, b / 256, rest);
    }
}

/// `le_bytes` yields exactly `width` bytes.
pub proof fn lemma_le_bytes_len(value: nat, width: nat)
    ensures
        le_bytes(value, width).len() == width,
    decreases width,
{
    if width > 0 {
        lemma_le_bytes_len(value / 256, (width - 1) as nat);
    }
}

/// Every identifier fits its sixteen bytes: `256^16` is `2^128`.
proof fn lemma_id_below_radix(id: u128)
    ensures
        (id as nat) < radix_pow(ID_WIDTH as nat),
{
    reveal_with_fuel(radix_pow, 17);
    assert(radix_pow(16) == 0x1_0000_0000_0000_0000_0000_0000_0000_0000nat);
}

/// The encoding of an identifier is sixteen bytes long, whatever the
/// identifier.
pub proof fn lemma_id_bytes_len(id: u128)
    ensures
        id_bytes(id).len() == ID_WIDTH,
{
    lemma_le_bytes_len(id as nat, ID_WIDTH as nat);
}

/// Distinct identifiers have distinct encodings.
pub proof fn lemma_id_bytes_injective(a: u128, b: u128)
    requires
        id_bytes(a) == id_bytes(b),
    ensures
        a == b,
{
    lemma_id_below_radix(a);
    lemma_id_below_radix(b);
    lemma_le_bytes_injective(a as nat, b as nat, ID_WIDTH as nat);
}

/// A canonical message splits back into its two fields at the fixed
/// boundary: the first sixteen bytes are the identifier's, the rest is the
/// URI, whatever bytes the URI holds.
pub proof fn lemma_canonical_message_fields(id: u128, uri: Seq<u8>)
    ensures
        canonical_message(id, uri).len() == ID_WIDTH + uri.len(),
        canonical_message(id, uri).subrange(0, ID_WIDTH as int) == id_bytes(id),
        canonical_message(id, uri).skip(ID_WIDTH as int) == uri,
{
    lemma_id_bytes_len(id);
    assert(canonical_message(id, uri).subrange(0, ID_WIDTH as int) =~= id_bytes(id));
    assert(canonical_message(id, uri).skip(ID_WIDTH as int) =~= uri);
}

/// Canonicalization is unambiguous: two requests have the same canonical
/// message only if they name the same identifier and the same URI. A
/// signature over one message therefore speaks for exactly one request.
pub proof fn lemma_canonical_message_injective(id_a: u128, uri_a: Seq<u8>, id_b: u128, uri_b: Seq<u8>)
    requires
        canonical_message(id_a, uri_a) == canonical_message(id_b, uri_b),
    ensures
        id_a == id_b,
        uri_a == uri_b,
{
    lemma_canonical_message_fields(id_a, uri_a);
    lemma_canonical_message_fields(id_b, uri_b);
    lemma_id_bytes_injective(id_a, id_b);
}

} // verus!
