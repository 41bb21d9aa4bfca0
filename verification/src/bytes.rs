//! Byte strings: comparison, and optional byte strings as they appear in
//! contracts.

use vstd::prelude::*;

verus! {

/// An optional byte array as an optional byte sequence.
pub open spec fn bytes_of<const N: usize>(value: Option<[u8; N]>) -> Option<Seq<u8>> {
    match value {
        Some(bytes) => Some(bytes@),
        None => None,
    }
}

/// An optional byte vector as an optional byte sequence.
pub open spec fn key_bytes(key: Option<Vec<u8>>) -> Option<Seq<u8>> {
    match key {
        Some(bytes) => Some(bytes@),
        None => None,
    }
}

/// Whether two byte strings are the same.
pub fn bytes_equal(left: &[u8], right: &[u8]) -> (same: bool)
    ensures
        same == (left@ == right@),
{
    if left.len() != right.len() {
        return false;
    }
    let mut same = true;
    let mut at: usize = 0;
    while at < left.len()
        invariant
            at <= left@.len(),
            left@.len() == right@.len(),
            same == (forall|i: int| 0 <= i < at ==> left@[i] == right@[i]),
        decreases left@.len() - at,
    {
        if left[at] != right[at] {
            same = false;
        }
        at += 1;
    }
    proof {
        if same {
            assert(left@ =~= right@);
        }
    }
    same
}

} // verus!
