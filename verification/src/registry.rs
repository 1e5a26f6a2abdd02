//! The collision registry: a diagnostic map from digest to the first
//! canonical name seen with it. A repeat registration under the same name
//! is a no-op; a repeat under a different name is a genuine hash
//! collision, reported as a fatal error for the caller to abort on.
//!
//! The registry is an explicitly passed service: callers that do not
//! audit simply construct identifiers without one.

use vstd::prelude::*;

verus! {

use std::collections::HashMap;
use crate::hashing::digest_of;
use crate::hashing::hash_name;
use crate::id::NameId;

broadcast use vstd::std_specs::hash::group_hash_axioms;

/// A genuine hash collision: one digest reached from two different
/// canonical names. Identity rests on digest uniqueness among names in
/// use, so a caller that sees this must treat it as fatal.
#[derive(Clone, Debug)]
pub struct CollisionError {
    /// The digest both names hash to.
    pub digest: u64,
    /// The canonical name first registered with the digest.
    pub existing: String,
    /// The canonical name whose registration clashed.
    pub incoming: String,
}

/// The audit table: each digest maps to the canonical name first
/// registered with it. It only ever grows.
pub struct Registry {
    table: HashMap<u64, String>,
}

impl View for Registry {
    type V = Map<u64, Seq<char>>;

    closed spec fn view(&self) -> Map<u64, Seq<char>> {
        self.table@.map_values(|name: String| name@)
    }
}

impl Registry {
    /// An empty registry.
    pub fn new() -> (r: Registry)
        ensures
            r@ == Map::<u64, Seq<char>>::empty(),
    {
        let table = HashMap::<u64, String>::new();
        assert(table@.map_values(|name: String| name@) =~= Map::<u64, Seq<char>>::empty());
        Registry { table }
    }

    /// Records that `name` hashes to `digest`. First sight of the digest
    /// stores the name; a repeat with the same name changes nothing; a
    /// repeat with a different name is a collision and leaves the
    /// registry as it was.
    pub fn register(&mut self, digest: u64, name: &str) -> (r: Result<(), CollisionError>)
        ensures
            r is Ok <==> (!old(self)@.contains_key(digest) || old(self)@[digest] == name@),
            r is Ok ==> final(self)@ == old(self)@.insert(digest, name@),
            r is Err ==> final(self)@ == old(self)@,
            r is Err ==> r->Err_0.digest == digest,
            r is Err ==> r->Err_0.existing@ == old(self)@[digest],
            r is Err ==> r->Err_0.incoming@ == name@,
    {
        let incoming: String = name.to_owned();
        let mut clash: Option<String> = None;
        match self.table.get(&digest) {
            Some(previous) => {
                if !(*previous == incoming) {
                    clash = Some(previous.clone());
                }
            },
            None => {},
        }
        match clash {
            Some(existing) => Err(CollisionError { digest, existing, incoming }),
            None => {
                self.table.insert(digest, incoming);
                assert(self.table@.map_values(|n: String| n@) =~= old(self).table@.map_values(
                    |n: String| n@,
                ).insert(digest, name@));
                Ok(())
            },
        }
    }

    /// The canonical name first registered with `digest`, if any.
    pub fn lookup(&self, digest: u64) -> (r: Option<&String>)
        ensures
            r is Some <==> self@.contains_key(digest),
            r is Some ==> r->0@ == self@[digest],
    {
        self.table.get(&digest)
    }

    /// The number of digests registered so far.
    pub fn len(&self) -> (r: usize)
        ensures
            r == self@.dom().len(),
    {
        assert(self.table@.map_values(|n: String| n@).dom() =~= self.table@.dom());
        self.table.len()
    }

    /// The audited runtime constructor: canonicalize-then-hash as
    /// [`NameId::new`] does, and additionally register the digest with
    /// its canonical name, refusing on a detected collision.
    pub fn construct(&mut self, name: &str) -> (r: Result<NameId, CollisionError>)
        ensures
            r is Ok <==> (!old(self)@.contains_key(digest_of(name@)) || old(self)@[digest_of(
                name@,
            )] == name@),
            r is Ok ==> r->Ok_0@ == digest_of(name@) && r->Ok_0.spec_label() is None,
            r is Ok ==> final(self)@ == old(self)@.insert(digest_of(name@), name@),
            r is Err ==> final(self)@ == old(self)@,
            r is Err ==> r->Err_0.digest == digest_of(name@),
            r is Err ==> r->Err_0.existing@ == old(self)@[digest_of(name@)],
            r is Err ==> r->Err_0.incoming@ == name@,
    {
        let digest = hash_name(name);
        match self.register(digest, name) {
            Ok(()) => Ok(NameId::from_raw(digest)),
            Err(e) => Err(e),
        }
    }
}

} // verus!
