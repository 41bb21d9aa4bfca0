//! The registry: who owns which identifier, and which verifying key each
//! identity has registered.

use vstd::prelude::*;
use std::collections::HashMap;
use crate::bytes::{bytes_equal, bytes_of, key_bytes};

verus! {

/// The identity of a requester: 32 bytes.
pub type AccountId = [u8; 32];

/// The answer of a registry that is asked to bind an identifier that is
/// bound already.
#[derive(Clone, Copy, Debug, PartialEq, Eq, Structural)]
pub struct DuplicateIdentifier;

/// What `map` holds at `at`, if anything.
pub open spec fn entry_at<K, V>(map: Map<K, V>, at: K) -> Option<V> {
    if map.contains_key(at) {
        Some(map[at])
    } else {
        None
    }
}

/// One registered verifying key.
struct KeyEntry {
    identity: AccountId,
    key: Vec<u8>,
}

/// The table that a list of registrations amounts to: a later registration
/// of an identity replaces an earlier one.
spec fn key_table(entries: Seq<KeyEntry>) -> Map<Seq<u8>, Seq<u8>>
    decreases entries.len(),
{
    if entries.len() == 0 {
        Map::empty()
    } else {
        key_table(entries.drop_last()).insert(entries.last().identity@, entries.last().key@)
    }
}

/// The owners of a table of bindings, each as a byte sequence.
spec fn owner_table(bindings: Map<u128, AccountId>) -> Map<u128, Seq<u8>> {
    Map::new(|id: u128| bindings.contains_key(id), |id: u128| bindings[id]@)
}

/// The bindings of identifiers to owners and the registered verifying keys.
///
/// An identifier is bound at most once: `bind` is the only way to change
/// the bindings, and it never touches an identifier that is bound.
pub struct Registry {
    bindings: HashMap<u128, AccountId>,
    keys: Vec<KeyEntry>,
}

impl Registry {
    /// The owner of each identifier that is bound.
    pub closed spec fn owners(&self) -> Map<u128, Seq<u8>> {
        owner_table(self.bindings@)
    }

    /// The verifying key of each identity that has registered one.
    pub closed spec fn verifying_keys(&self) -> Map<Seq<u8>, Seq<u8>> {
        key_table(self.keys@)
    }

    /// A registry with no identifier bound and no key registered.
    pub fn new() -> (registry: Self)
        ensures
            registry.owners() == Map::<u128, Seq<u8>>::empty(),
            registry.verifying_keys() == Map::<Seq<u8>, Seq<u8>>::empty(),
    {
        let registry = Registry { bindings: HashMap::new(), keys: Vec::new() };
        assert(registry.owners() =~= Map::<u128, Seq<u8>>::empty());
        registry
    }

    /// Registers `key` as the verifying key of `identity`, in place of any
    /// key registered for it before.
    pub fn register_key(&mut self, identity: AccountId, key: Vec<u8>)
        ensures
            final(self).verifying_keys() == old(self).verifying_keys().insert(identity@, key@),
            final(self).owners() == old(self).owners(),
    {
        self.keys.push(KeyEntry { identity, key });
        assert(self.keys@.drop_last() =~= old(self).keys@);
    }

    /// The owner of `id`, if `id` is bound.
    pub fn owner_of(&self, id: u128) -> (owner: Option<AccountId>)
        ensures
            bytes_of(owner) == entry_at(self.owners(), id),
    {
        broadcast use vstd::std_specs::hash::group_hash_axioms;

        match self.bindings.get(&id) {
            Some(owner) => Some(*owner),
            None => None,
        }
    }

    /// The verifying key registered for `identity`, if there is one.
    pub fn lookup_verifying_key(&self, identity: &AccountId) -> (key: Option<Vec<u8>>)
        ensures
            key_bytes(key) == entry_at(self.verifying_keys(), identity@),
    {
        let mut at = self.keys.len();
        assert(self.keys@.take(at as int) =~= self.keys@);
        while at > 0
            invariant
                at <= self.keys@.len(),
                entry_at(key_table(self.keys@), identity@) == entry_at(
                    key_table(self.keys@.take(at as int)),
                    identity@,
                ),
            decreases at,
        {
            at -= 1;
            let entry = &self.keys[at];
            proof {
                assert(self.keys@.take(at + 1).drop_last() =~= self.keys@.take(at as int));
            }
            if bytes_equal(entry.identity.as_slice(), identity.as_slice()) {
                let mut key = Vec::new();
                key.extend_from_slice(entry.key.as_slice());
                assert(key@ =~= entry.key@);
                return Some(key);
            }
        }
        None
    }

    /// Binds `id` to `owner` if `id` is not bound yet, and refuses
    /// otherwise. A refusal changes nothing; a binding adds exactly the one
    /// entry. The registered keys stay as they are either way.
    pub fn bind(&mut self, id: u128, owner: AccountId) -> (outcome: Result<(), DuplicateIdentifier>)
        ensures
            outcome is Err <==> old(self).owners().contains_key(id),
            outcome is Ok ==> final(self).owners() == old(self).owners().insert(id, owner@),
            outcome is Err ==> final(self).owners() == old(self).owners(),
            final(self).verifying_keys() == old(self).verifying_keys(),
    {
        broadcast use vstd::std_specs::hash::group_hash_axioms;

        if self.bindings.contains_key(&id) {
            Err(DuplicateIdentifier)
        } else {
            self.bindings.insert(id, owner);
            assert(self.owners() =~= old(self).owners().insert(id, owner@));
            Ok(())
        }
    }
}

} // verus!
