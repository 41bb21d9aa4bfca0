//! Range check for the two scalars of an ECDSA signature: each must be a
//! 32-byte big-endian number below the order of the secp256k1 group.

use vstd::prelude::*;

verus! {

/// Width of a scalar in bytes.
pub const SCALAR_WIDTH: usize = 32;

/// The order of the secp256k1 group, big-endian.
pub const GROUP_ORDER: [u8; 32] = [
    0xff, 0xff, 0xff, 0xff, 0xff, 0xff, 0xff, 0xff,
    0xff, 0xff, 0xff, 0xff, 0xff, 0xff, 0xff, 0xfe,
    0xba, 0xae, 0xdc, 0xe6, 0xaf, 0x48, 0xa0, 0x3b,
    0xbf, 0xd2, 0x5e, 0x8c, 0xd0, 0x36, 0x41, 0x41,
];

/// The number that `bytes` spell in base 256, most significant byte first.
pub open spec fn be_value(bytes: Seq<u8>) -> nat
    decreases bytes.len(),
{
    if bytes.len() == 0 {
        0
    } else {
        256 * be_value(bytes.drop_last()) + bytes.last() as nat
    }
}

/// The order of the secp256k1 group as a number.
pub open spec fn group_order() -> nat {
    0xFFFFFFFF_FFFFFFFF_FFFFFFFF_FFFFFFFE_BAAEDCE6_AF48A03B_BFD25E8C_D0364141nat
}

/// The scalar that sits in `bytes` at `offset`.
pub open spec fn scalar_at(bytes: Seq<u8>, offset: int) -> nat {
    be_value(bytes.subrange(offset, offset + SCALAR_WIDTH))
}

/// Reading one more byte multiplies what was read so far by 256 and adds
/// the byte.
pub proof fn lemma_be_value_step(bytes: Seq<u8>, read: int)
    requires
        0 <= read < bytes.len(),
    ensures
        be_value(bytes.take(read + 1)) == 256 * be_value(bytes.take(read)) + bytes[read] as nat,
{
    assert(bytes.take(read + 1).drop_last() =~= bytes.take(read));
}

/// The bytes of `GROUP_ORDER` spell the group order.
pub proof fn lemma_group_order_bytes()
    ensures
        be_value(GROUP_ORDER@) == group_order(),
{
    let order = GROUP_ORDER@;
    assert(be_value(order.take(0)) == 0);
    lemma_be_value_step(order, 0);
    lemma_be_value_step(order, 1);
    lemma_be_value_step(order, 2);
    lemma_be_value_step(order, 3);
    lemma_be_value_step(order, 4);
    lemma_be_value_step(order, 5);
    lemma_be_value_step(order, 6);
    lemma_be_value_step(order, 7);
    lemma_be_value_step(order, 8);
    lemma_be_value_step(order, 9);
    lemma_be_value_step(order, 10);
    lemma_be_value_step(order, 11);
    lemma_be_value_step(order, 12);
    lemma_be_value_step(order, 13);
    lemma_be_value_step(order, 14);
    lemma_be_value_step(order, 15);
    lemma_be_value_step(order, 16);
    lemma_be_value_step(order, 17);
    lemma_be_value_step(order, 18);
    lemma_be_value_step(order, 19);
    lemma_be_value_step(order, 20);
    lemma_be_value_step(order, 21);
    lemma_be_value_step(order, 22);
    lemma_be_value_step(order, 23);
    lemma_be_value_step(order, 24);
    lemma_be_value_step(order, 25);
    lemma_be_value_step(order, 26);
    lemma_be_value_step(order, 27);
    lemma_be_value_step(order, 28);
    lemma_be_value_step(order, 29);
    lemma_be_value_step(order, 30);
    lemma_be_value_step(order, 31);
    assert(order.take(32) =~= order);
}

/// Whether the scalar at `offset` is below the group order.
pub fn scalar_below_order(bytes: &[u8], offset: usize) -> (below: bool)
    requires
        offset + SCALAR_WIDTH <= bytes@.len(),
    ensures
        below == (scalar_at(bytes@, offset as int) < group_order()),
{
    let ghost scalar = bytes@.subrange(offset as int, offset + SCALAR_WIDTH);
    let ghost order = GROUP_ORDER@;
    let total = bytes.len();
    let mut less = false;
    let mut equal = true;
    let mut read: usize = 0;
    while read < SCALAR_WIDTH
        invariant
            read <= SCALAR_WIDTH,
            offset + SCALAR_WIDTH <= total == bytes@.len(),
            scalar == bytes@.subrange(offset as int, offset + SCALAR_WIDTH),
            order == GROUP_ORDER@,
            less == (be_value(scalar.take(read as int)) < be_value(order.take(read as int))),
            equal == (be_value(scalar.take(read as int)) == be_value(order.take(read as int))),
        decreases SCALAR_WIDTH - read,
    {
        let byte = bytes[offset + read];
        let bound = GROUP_ORDER[read];
        proof {
            lemma_be_value_step(scalar, read as int);
            lemma_be_value_step(order, read as int);
        }
        if equal {
            less = byte < bound;
            equal = byte == bound;
        }
        read += 1;
    }
    proof {
        assert(scalar.take(SCALAR_WIDTH as int) =~= scalar);
        assert(order.take(SCALAR_WIDTH as int) =~= order);
        lemma_group_order_bytes();
    }
    less
}

} // verus!
