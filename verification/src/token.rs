//! Minting: a request is verified first and bound second, in that order,
//! and a request that fails at either step leaves nothing behind.

use vstd::prelude::*;
use vstd::utf8::encode_utf8;
use crate::anchor::{authorizes, verify, TrustAnchor};
use crate::canonical::{canonical_message, canonicalize};
use crate::bytes::bytes_of;
use crate::recovery::signature_authorizes;
use crate::registry::{entry_at, AccountId, DuplicateIdentifier, Registry};
use crate::verifying_key::key_authorizes;

verus! {

/// How a token decides whom to trust. The choice is made when the token is
/// built and holds for its lifetime.
#[derive(Clone, Copy, Debug, PartialEq, Eq)]
pub enum Strategy {
    /// Every request must be signed by the one key whose address is
    /// `signer`.
    FixedKeyRecovery { signer: [u8; 20] },
    /// Every request must be signed by the key that the requester has
    /// registered.
    PerSignerVerifyingKey,
}

/// Why a mint request was turned down.
#[derive(Clone, Copy, Debug, PartialEq, Eq, Structural)]
pub enum MintError {
    /// The signature does not authorize the request.
    InvalidSignature,
    /// The requester has no verifying key registered.
    NoRegisteredKey,
    /// The identifier is bound already.
    DuplicateIdentifier,
}

/// A refusal in words.
pub open spec fn reason_text(error: MintError) -> Seq<char> {
    match error {
        MintError::InvalidSignature => "invalid signature"@,
        MintError::NoRegisteredKey => "no registered key"@,
        MintError::DuplicateIdentifier => "duplicate identifier"@,
    }
}

impl MintError {
    /// The refusal in words.
    pub fn reason(&self) -> (text: &'static str)
        ensures
            text@ == reason_text(*self),
    {
        match self {
            MintError::InvalidSignature => "invalid signature",
            MintError::NoRegisteredKey => "no registered key",
            MintError::DuplicateIdentifier => "duplicate identifier",
        }
    }
}

/// Whether the requester has a trust anchor under `strategy`: always with a
/// fixed signer, and with registered keys when the requester has one.
pub open spec fn anchor_resolves(strategy: Strategy, keys: Map<Seq<u8>, Seq<u8>>, caller: Seq<u8>) -> bool {
    strategy is FixedKeyRecovery || keys.contains_key(caller)
}

/// Whether `signature` authorizes `message` for `caller` under `strategy`.
pub open spec fn request_authorized(
    strategy: Strategy,
    keys: Map<Seq<u8>, Seq<u8>>,
    caller: Seq<u8>,
    message: Seq<u8>,
    signature: Seq<u8>,
) -> bool {
    match strategy {
        Strategy::FixedKeyRecovery { signer } => signature_authorizes(signature, message, signer@),
        Strategy::PerSignerVerifyingKey => keys.contains_key(caller) && key_authorizes(
            signature,
            message,
            keys[caller],
        ),
    }
}

/// What becomes of a request once its signature has been judged: a request
/// that is not authorized is turned down as such, an authorized one for a
/// bound identifier as a duplicate, and any other goes through.
pub open spec fn settle_outcome(owners: Map<u128, Seq<u8>>, id: u128, authorized: bool) -> Result<
    (),
    MintError,
> {
    if !authorized {
        Err(MintError::InvalidSignature)
    } else if owners.contains_key(id) {
        Err(MintError::DuplicateIdentifier)
    } else {
        Ok(())
    }
}

/// The outcome of a mint request in a given state.
pub open spec fn mint_outcome(
    strategy: Strategy,
    owners: Map<u128, Seq<u8>>,
    keys: Map<Seq<u8>, Seq<u8>>,
    caller: Seq<u8>,
    id: u128,
    uri: Seq<u8>,
    signature: Seq<u8>,
) -> Result<(), MintError> {
    if !anchor_resolves(strategy, keys, caller) {
        Err(MintError::NoRegisteredKey)
    } else {
        settle_outcome(
            owners,
            id,
            request_authorized(strategy, keys, caller, canonical_message(id, uri), signature),
        )
    }
}

/// The bindings after a request: one more where the request went through,
/// the same where it did not.
pub open spec fn owners_after(
    owners: Map<u128, Seq<u8>>,
    outcome: Result<(), MintError>,
    id: u128,
    caller: Seq<u8>,
) -> Map<u128, Seq<u8>> {
    if outcome is Ok {
        owners.insert(id, caller)
    } else {
        owners
    }
}

/// A request that goes through binds its identifier to the requester, and
/// from then on no request for that identifier goes through again: an
/// authorized one is told that the identifier is a duplicate, whoever sends
/// it and whatever URI and signature it carries.
pub proof fn lemma_minted_once(
    strategy: Strategy,
    owners: Map<u128, Seq<u8>>,
    keys: Map<Seq<u8>, Seq<u8>>,
    id: u128,
    caller: Seq<u8>,
    uri: Seq<u8>,
    signature: Seq<u8>,
    later_caller: Seq<u8>,
    later_uri: Seq<u8>,
    later_signature: Seq<u8>,
)
    requires
        mint_outcome(strategy, owners, keys, caller, id, uri, signature) is Ok,
    ensures
        !owners.contains_key(id),
        request_authorized(strategy, keys, caller, canonical_message(id, uri), signature),
        owners_after(owners, Ok(()), id, caller).contains_key(id),
        owners_after(owners, Ok(()), id, caller)[id] == caller,
        mint_outcome(
            strategy,
            owners_after(owners, Ok(()), id, caller),
            keys,
            later_caller,
            id,
            later_uri,
            later_signature,
        ) is Err,
        request_authorized(strategy, keys, later_caller, canonical_message(id, later_uri), later_signature)
            ==> mint_outcome(
            strategy,
            owners_after(owners, Ok(()), id, caller),
            keys,
            later_caller,
            id,
            later_uri,
            later_signature,
        ) == Err::<(), MintError>(MintError::DuplicateIdentifier),
{
}

/// Two authorized requests for one free identifier, served one after the
/// other: the first goes through, the second is told that the identifier is
/// a duplicate, and the identifier belongs to the first requester. Since the
/// two requests are arbitrary this holds for either order of service.
pub proof fn lemma_racing_requests(
    strategy: Strategy,
    owners: Map<u128, Seq<u8>>,
    keys: Map<Seq<u8>, Seq<u8>>,
    id: u128,
    first_caller: Seq<u8>,
    first_uri: Seq<u8>,
    first_signature: Seq<u8>,
    second_caller: Seq<u8>,
    second_uri: Seq<u8>,
    second_signature: Seq<u8>,
)
    requires
        !owners.contains_key(id),
        request_authorized(strategy, keys, first_caller, canonical_message(id, first_uri), first_signature),
        request_authorized(strategy, keys, second_caller, canonical_message(id, second_uri), second_signature),
    ensures
        ({
            let first = mint_outcome(strategy, owners, keys, first_caller, id, first_uri, first_signature);
            let between = owners_after(owners, first, id, first_caller);
            let second = mint_outcome(strategy, between, keys, second_caller, id, second_uri, second_signature);
            let after = owners_after(between, second, id, second_caller);
            &&& first is Ok
            &&& second == Err::<(), MintError>(MintError::DuplicateIdentifier)
            &&& after == owners.insert(id, first_caller)
        }),
{
}

/// A request that is turned down, for whatever reason, leaves the bindings
/// exactly as they were.
pub proof fn lemma_rejection_changes_nothing(
    owners: Map<u128, Seq<u8>>,
    outcome: Result<(), MintError>,
    id: u128,
    caller: Seq<u8>,
)
    requires
        outcome is Err,
    ensures
        owners_after(owners, outcome, id, caller) == owners,
{
}

/// A binding, once made, is never changed nor removed by a later request:
/// whatever the request and its outcome, every identifier bound before is
/// bound to the same owner after.
pub proof fn lemma_bindings_are_permanent(
    strategy: Strategy,
    owners: Map<u128, Seq<u8>>,
    keys: Map<Seq<u8>, Seq<u8>>,
    caller: Seq<u8>,
    id: u128,
    uri: Seq<u8>,
    signature: Seq<u8>,
    bound: u128,
)
    requires
        owners.contains_key(bound),
    ensures
        ({
            let outcome = mint_outcome(strategy, owners, keys, caller, id, uri, signature);
            let after = owners_after(owners, outcome, id, caller);
            after.contains_key(bound) && after[bound] == owners[bound]
        }),
{
}

/// A request goes through only if its signature authorizes the canonical
/// message of the very identifier and URI that it names.
pub proof fn lemma_mint_requires_authorization(
    strategy: Strategy,
    owners: Map<u128, Seq<u8>>,
    keys: Map<Seq<u8>, Seq<u8>>,
    caller: Seq<u8>,
    id: u128,
    uri: Seq<u8>,
    signature: Seq<u8>,
)
    ensures
        mint_outcome(strategy, owners, keys, caller, id, uri, signature) is Ok <==> {
            &&& anchor_resolves(strategy, keys, caller)
            &&& request_authorized(strategy, keys, caller, canonical_message(id, uri), signature)
            &&& !owners.contains_key(id)
        },
        mint_outcome(strategy, owners, keys, caller, id, uri, signature) == Err::<(), MintError>(
            MintError::NoRegisteredKey,
        ) <==> !anchor_resolves(strategy, keys, caller),
        mint_outcome(strategy, owners, keys, caller, id, uri, signature) == Err::<(), MintError>(
            MintError::InvalidSignature,
        ) <==> anchor_resolves(strategy, keys, caller) && !request_authorized(
            strategy,
            keys,
            caller,
            canonical_message(id, uri),
            signature,
        ),
        mint_outcome(strategy, owners, keys, caller, id, uri, signature) == Err::<(), MintError>(
            MintError::DuplicateIdentifier,
        ) <==> {
            &&& anchor_resolves(strategy, keys, caller)
            &&& request_authorized(strategy, keys, caller, canonical_message(id, uri), signature)
            &&& owners.contains_key(id)
        },
{
}

/// The trust anchor for a request under `strategy`: the fixed signer's
/// address, or the key that the requester has registered, where
/// `registered` is what the registry holds for the requester. A requester
/// without a key has no anchor under the second strategy.
pub fn resolve_anchor(strategy: &Strategy, registered: Option<Vec<u8>>) -> (anchor: Result<TrustAnchor, MintError>)
    ensures
        anchor is Err <==> strategy is PerSignerVerifyingKey && registered is None,
        anchor is Err ==> anchor == Err::<TrustAnchor, MintError>(MintError::NoRegisteredKey),
        anchor matches Ok(found) ==> match *strategy {
            Strategy::FixedKeyRecovery { signer } => found == TrustAnchor::Address(signer),
            Strategy::PerSignerVerifyingKey => Some(found) == match registered {
                Some(key) => Some(TrustAnchor::VerifyingKey(key)),
                None => None,
            },
        },
{
    match strategy {
        Strategy::FixedKeyRecovery { signer } => Ok(TrustAnchor::Address(*signer)),
        Strategy::PerSignerVerifyingKey => match registered {
            Some(key) => Ok(TrustAnchor::VerifyingKey(key)),
            None => Err(MintError::NoRegisteredKey),
        },
    }
}

/// Decides whether `signature` authorizes the minting of `id` with URI
/// `uri` under `anchor`: the canonical message is built from exactly these
/// two fields and the signature is verified over it. Nothing is changed.
pub fn authorize(anchor: &TrustAnchor, id: u128, uri: &[u8], signature: &[u8]) -> (decision: Result<(), MintError>)
    ensures
        decision is Ok <==> authorizes(canonical_message(id, uri@), signature@, *anchor),
        decision is Err ==> decision == Err::<(), MintError>(MintError::InvalidSignature),
{
    let message = canonicalize(id, uri);
    if verify(message.as_slice(), signature, anchor) {
        Ok(())
    } else {
        Err(MintError::InvalidSignature)
    }
}

/// The outcome of a mint whose signature was accepted, given what the
/// registry said when asked to bind the identifier.
pub fn conclude(bound: Result<(), DuplicateIdentifier>) -> (outcome: Result<(), MintError>)
    ensures
        outcome == match bound {
            Ok(()) => Ok::<(), MintError>(()),
            Err(_) => Err(MintError::DuplicateIdentifier),
        },
{
    match bound {
        Ok(()) => Ok(()),
        Err(_) => Err(MintError::DuplicateIdentifier),
    }
}

/// A token contract: the registry of its bindings and the strategy by which
/// mint requests are authorized.
pub struct ExploraToken {
    registry: Registry,
    strategy: Strategy,
}

impl ExploraToken {
    /// The strategy chosen at construction.
    pub closed spec fn strategy(&self) -> Strategy {
        self.strategy
    }

    /// The owner of each identifier minted so far.
    pub closed spec fn owners(&self) -> Map<u128, Seq<u8>> {
        self.registry.owners()
    }

    /// The verifying keys that requesters have registered.
    pub closed spec fn verifying_keys(&self) -> Map<Seq<u8>, Seq<u8>> {
        self.registry.verifying_keys()
    }

    /// A token with nothing minted, whose requests must be signed by the
    /// key with address `signer`.
    pub fn new(signer: [u8; 20]) -> (token: Self)
        ensures
            token.strategy() == (Strategy::FixedKeyRecovery { signer }),
            token.owners() == Map::<u128, Seq<u8>>::empty(),
            token.verifying_keys() == Map::<Seq<u8>, Seq<u8>>::empty(),
    {
        ExploraToken { registry: Registry::new(), strategy: Strategy::FixedKeyRecovery { signer } }
    }

    /// A token with nothing minted and no key registered, whose requests
    /// must be signed by the requester's registered key.
    pub fn with_registered_keys() -> (token: Self)
        ensures
            token.strategy() == Strategy::PerSignerVerifyingKey,
            token.owners() == Map::<u128, Seq<u8>>::empty(),
            token.verifying_keys() == Map::<Seq<u8>, Seq<u8>>::empty(),
    {
        ExploraToken { registry: Registry::new(), strategy: Strategy::PerSignerVerifyingKey }
    }

    /// The strategy chosen at construction.
    pub fn trust_strategy(&self) -> (strategy: Strategy)
        ensures
            strategy == self.strategy(),
    {
        self.strategy
    }

    /// The owner of `id`, if `id` has been minted.
    pub fn owner_of(&self, id: u128) -> (owner: Option<AccountId>)
        ensures
            bytes_of(owner) == entry_at(self.owners(), id),
    {
        self.registry.owner_of(id)
    }

    /// Registers `key` as the verifying key of `identity`, in place of any
    /// key registered for it before. Bindings and strategy stay as they
    /// are.
    pub fn register_key(&mut self, identity: AccountId, key: Vec<u8>)
        ensures
            final(self).verifying_keys() == old(self).verifying_keys().insert(identity@, key@),
            final(self).owners() == old(self).owners(),
            final(self).strategy() == old(self).strategy(),
    {
        self.registry.register_key(identity, key);
    }

    /// Concludes a request whose signature has been judged: binds `id` to
    /// `caller` if the request is authorized and `id` is free, and turns
    /// the request down otherwise, leaving every binding as it was.
    pub fn settle(&mut self, caller: AccountId, id: u128, authorized: bool) -> (outcome: Result<(), MintError>)
        ensures
            outcome == settle_outcome(old(self).owners(), id, authorized),
            final(self).owners() == owners_after(old(self).owners(), outcome, id, caller@),
            final(self).verifying_keys() == old(self).verifying_keys(),
            final(self).strategy() == old(self).strategy(),
    {
        if authorized {
            conclude(self.registry.bind(id, caller))
        } else {
            Err(MintError::InvalidSignature)
        }
    }

    /// Mints the token `id` with metadata URI `token_uri` to `caller`, if
    /// `signature` authorizes exactly this identifier and URI and the
    /// identifier is still free.
    ///
    /// The trust anchor is resolved and the signature verified over the
    /// canonical message before the registry is touched; a request that is
    /// turned down changes nothing.
    pub fn mint(&mut self, caller: AccountId, id: u128, token_uri: String, signature: &[u8]) -> (outcome: Result<
        (),
        MintError,
    >)
        ensures
            outcome == mint_outcome(
                old(self).strategy(),
                old(self).owners(),
                old(self).verifying_keys(),
                caller@,
                id,
                encode_utf8(token_uri@),
                signature@,
            ),
            final(self).owners() == owners_after(old(self).owners(), outcome, id, caller@),
            final(self).verifying_keys() == old(self).verifying_keys(),
            final(self).strategy() == old(self).strategy(),
    {
        let registered = match self.strategy {
            Strategy::FixedKeyRecovery { .. } => None,
            Strategy::PerSignerVerifyingKey => self.registry.lookup_verifying_key(&caller),
        };
        match resolve_anchor(&self.strategy, registered) {
            Err(error) => Err(error),
            Ok(anchor) => {
                let message = canonicalize(id, token_uri.as_str().as_bytes());
                let authorized = verify(message.as_slice(), signature, &anchor);
                self.settle(caller, id, authorized)
            },
        }
    }
}

} // verus!
