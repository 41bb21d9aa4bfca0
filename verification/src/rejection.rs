//! Why a signature was not accepted.

use vstd::prelude::*;

verus! {

/// The reasons for which verification fails. None of them is a fault: each
/// is an ordinary answer, and each means that the request is not
/// authorized.
#[derive(Clone, Copy, Debug, PartialEq, Eq, Structural)]
pub enum Rejection {
    /// The signature bytes are not a signature at all.
    MalformedSignature,
    /// The verifying key bytes are not a key at all.
    MalformedKey,
    /// Signature and key are well formed, but the signature does not speak
    /// for the message under the trust anchor.
    InvalidSignature,
}

} // verus!
