//! The hash provider: a streaming 64-bit hasher applied to a canonical
//! name. The provider is fixed once per build; every digest in this crate
//! comes from this one function, so the ahead-of-time and runtime paths
//! cannot drift apart.

use vstd::prelude::*;

verus! {

/// The 64-bit digest the hash provider assigns to a canonical name.
///
/// Its concrete values are fixed by the provider below; nothing else in
/// the crate says what they are, only that equal names get equal digests.
pub uninterp spec fn digest_of(name: Seq<char>) -> u64;

/// Relies on `ahash::AHasher`: `AHasher::default()` builds a hasher from
/// ahash's hard-coded keys (the crate is compiled without its runtime
/// random seeding), so feeding it a given string yields one fixed digest
/// per build configuration.
#[verifier::external_body]
pub(crate) fn hash_name(name: &str) -> (r: u64)
    ensures
        r == digest_of(name@),
{
    let mut hasher = ahash::AHasher::default();
    core::hash::Hash::hash(name, &mut hasher);
    core::hash::Hasher::finish(&hasher)
}

} // verus!
