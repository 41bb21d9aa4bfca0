//! Signed-mint authorization for uniquely identified tokens.
//!
//! A mint request names a token identifier and a metadata URI and carries a
//! signature over the canonical message built from the two. The request is
//! authorized when the signature checks out against the configured trust
//! anchor; only then is the identifier bound to the requester in the
//! registry, and it is bound at most once.

pub mod anchor;
pub mod bytes;
pub mod canonical;
pub mod recovery;
pub mod registry;
pub mod rejection;
pub mod scalar;
pub mod token;
pub mod verifying_key;
