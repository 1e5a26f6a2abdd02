//! The identifier value type: a 64-bit digest, with an optional
//! process-lifetime debug label that takes no part in identity; and the
//! one canonicalize-then-hash pipeline with its two call sites, the
//! ahead-of-time resolver and the runtime constructor.

use vstd::prelude::*;

verus! {

use core::cmp::Ordering;
use crate::canon::canonical_of_seq;
use crate::canon::canonicalize_seq;
use crate::canon::IdError;
use crate::canon::SourceValue;
use crate::hashing::digest_of;
use crate::hashing::hash_name;
use crate::text::decimal_digits;
use crate::text::decimal_string;
use vstd::std_specs::cmp::PartialOrdSpec;
use vstd::string::StringExecFns;

/// A source that can be turned into an identifier: it provides one
/// canonical text, which the constructor hashes. External types join the
/// supported source kinds by implementing this.
pub trait IdSource {
    /// The canonical text this source denotes.
    spec fn canonical(&self) -> Seq<char>;

    /// Produces the canonical text.
    fn canonical_text(&self) -> (r: String)
        ensures
            r@ == self.canonical(),
    ;
}

impl IdSource for str {
    open spec fn canonical(&self) -> Seq<char> {
        self@
    }

    fn canonical_text(&self) -> (r: String) {
        self.to_owned()
    }
}

impl IdSource for String {
    open spec fn canonical(&self) -> Seq<char> {
        self@
    }

    fn canonical_text(&self) -> (r: String) {
        self.clone()
    }
}

/// A small identifier backed by a 64-bit digest of a canonical name.
///
/// Two `NameId`s are equal exactly when their digests are equal; the
/// optional label is a diagnostic aid only and never takes part in
/// equality or ordering.
#[derive(Clone, Copy, Debug)]
pub struct NameId {
    digest: u64,
    label: Option<&'static str>,
}

impl View for NameId {
    type V = u64;

    closed spec fn view(&self) -> u64 {
        self.digest
    }
}

impl NameId {
    /// The retained debug label, if this identifier carries one.
    pub closed spec fn spec_label(&self) -> Option<&'static str> {
        self.label
    }

    /// Creates a `NameId` from a supported source value by the runtime
    /// pipeline: canonical text, then digest. Implement [`IdSource`] to
    /// extend the supported sources.
    pub fn new<T: IdSource + ?Sized>(name: &T) -> (r: NameId)
        ensures
            r@ == digest_of(name.canonical()),
            r.spec_label() is None,
    {
        let text = name.canonical_text();
        NameId { digest: hash_name(text.as_str()), label: None }
    }

    /// Constructs a `NameId` from an already-known digest, bypassing
    /// canonicalization. The caller vouches for the digest.
    pub fn from_raw(value: u64) -> (r: NameId)
        ensures
            r@ == value,
            r.spec_label() is None,
    {
        NameId { digest: value, label: None }
    }

    /// Constructs a `NameId` from an already-known digest and a debug
    /// label. The caller vouches that the label is the canonical name the
    /// digest was computed from.
    pub fn from_raw_labeled(value: u64, label: &'static str) -> (r: NameId)
        ensures
            r@ == value,
            r.spec_label() == Some(label),
    {
        NameId { digest: value, label: Some(label) }
    }

    /// Returns the raw digest value.
    pub fn value(&self) -> (r: u64)
        ensures
            r == self@,
    {
        self.digest
    }

    /// The retained debug label, if any.
    pub fn debug_label(&self) -> (r: Option<&'static str>)
        ensures
            r == self.spec_label(),
    {
        self.label
    }

    /// Digest equality against a raw digest value.
    pub fn const_eq_value(&self, other: u64) -> (r: bool)
        ensures
            r <==> self@ == other,
    {
        self.digest == other
    }

    /// Digest equality of two identifiers.
    pub fn const_eq(&self, other: &NameId) -> (r: bool)
        ensures
            r <==> self@ == other@,
    {
        self.const_eq_value(other.digest)
    }

    /// Total order against a raw digest value.
    pub fn const_cmp_value(&self, other: u64) -> (r: Ordering)
        ensures
            r == Ordering::Less <==> self@ < other,
            r == Ordering::Equal <==> self@ == other,
            r == Ordering::Greater <==> self@ > other,
    {
        if self.digest > other {
            Ordering::Greater
        } else if self.digest == other {
            Ordering::Equal
        } else {
            Ordering::Less
        }
    }

    /// Total order of two identifiers, by digest.
    pub fn const_cmp(&self, other: &NameId) -> (r: Ordering)
        ensures
            r == Ordering::Less <==> self@ < other@,
            r == Ordering::Equal <==> self@ == other@,
            r == Ordering::Greater <==> self@ > other@,
    {
        self.const_cmp_value(other.digest)
    }

    /// Checks this identifier against an ad hoc text: the text runs
    /// through the same canonicalize-then-hash pipeline as construction,
    /// and the digests are compared.
    pub fn equals_text(&self, text: &str) -> (r: bool)
        ensures
            r <==> self@ == digest_of(text@),
    {
        self.digest == hash_name(text)
    }

    /// The diagnostic rendering: the label where one is retained, the raw
    /// digest otherwise. Not a stable serialization format.
    pub open spec fn spec_describe(&self) -> Seq<char> {
        match self.spec_label() {
            Some(label) => "#{"@ + label@ + "}"@,
            None => "NameId("@ + decimal_digits(self@ as nat) + ")"@,
        }
    }

    /// Renders the identifier for diagnostics.
    pub fn describe(&self) -> (r: String)
        ensures
            r@ == self.spec_describe(),
    {
        match self.label {
            Some(label) => {
                let mut s = String::from_str("#{");
                s.append(label);
                s.append("}");
                s
            },
            None => {
                let mut s = String::from_str("NameId(");
                s.append(decimal_string(self.digest).as_str());
                s.append(")");
                s
            },
        }
    }
}

/// Equality means digest equality; any retained label is ignored.
impl PartialEq for NameId {
    fn eq(&self, other: &NameId) -> bool {
        self.digest == other.digest
    }
}

impl vstd::std_specs::cmp::PartialEqSpecImpl for NameId {
    open spec fn obeys_eq_spec() -> bool {
        true
    }

    open spec fn eq_spec(&self, other: &NameId) -> bool {
        self@ == other@
    }
}

impl Eq for NameId {

}

/// Ordering is total and follows the digest ordering.
impl PartialOrd for NameId {
    fn partial_cmp(&self, other: &NameId) -> (r: Option<Ordering>) {
        Some(self.const_cmp(other))
    }
}

impl vstd::std_specs::cmp::PartialOrdSpecImpl for NameId {
    open spec fn obeys_partial_cmp_spec() -> bool {
        true
    }

    open spec fn partial_cmp_spec(&self, other: &NameId) -> Option<Ordering> {
        if self@ < other@ {
            Some(Ordering::Less)
        } else if self@ == other@ {
            Some(Ordering::Equal)
        } else {
            Some(Ordering::Greater)
        }
    }
}

/// An identifier converts to its raw digest.
impl From<NameId> for u64 {
    fn from(id: NameId) -> u64 {
        id.digest
    }
}

impl vstd::std_specs::convert::FromSpecImpl<NameId> for u64 {
    open spec fn obeys_from_spec() -> bool {
        true
    }

    open spec fn from_spec(id: NameId) -> u64 {
        id@
    }
}

/// The ahead-of-time resolver: the same canonicalize-then-hash pipeline
/// as [`NameId::new`], run by build tooling over a parsed token sequence,
/// so that the resulting digest can be embedded as a constant.
pub fn resolve(tokens: &Vec<SourceValue>) -> (r: Result<NameId, IdError>)
    ensures
        r is Ok <==> canonical_of_seq(tokens@) is Ok,
        r is Ok ==> r->Ok_0@ == digest_of(canonical_of_seq(tokens@)->Ok_0),
        r is Ok ==> r->Ok_0.spec_label() is None,
        r is Err ==> r->Err_0 == canonical_of_seq(tokens@)->Err_0,
{
    match canonicalize_seq(tokens) {
        Ok(text) => Ok(NameId { digest: hash_name(text.as_str()), label: None }),
        Err(e) => Err(e),
    }
}

/// Two canonical strings have equal digests exactly when they are equal,
/// as long as the two strings do not collide under the hash provider; so
/// two sources construct equal identifiers exactly when they canonicalize
/// to the same string.
pub proof fn lemma_canonical_digest_iff(s1: Seq<char>, s2: Seq<char>)
    requires
        digest_of(s1) == digest_of(s2) ==> s1 == s2,
    ensures
        s1 == s2 <==> digest_of(s1) == digest_of(s2),
{
}

/// The ahead-of-time resolution of a token sequence and the runtime
/// construction from its canonicalized text carry the same digest: both
/// are the hash provider's digest of the one canonical string.
pub proof fn lemma_resolver_matches_runtime(tokens: Seq<SourceValue>, text: Seq<char>)
    requires
        canonical_of_seq(tokens) == Ok::<Seq<char>, IdError>(text),
    ensures
        digest_of(canonical_of_seq(tokens)->Ok_0) == digest_of(text),
{
}

/// The identifier order is total, antisymmetric and transitive, and
/// agrees with the order of the digests.
pub proof fn lemma_order_total(a: NameId, b: NameId, c: NameId)
    ensures
        a.partial_cmp_spec(&b) is Some,
        a.partial_cmp_spec(&b) == Some(Ordering::Less) <==> a@ < b@,
        a.partial_cmp_spec(&b) == Some(Ordering::Equal) <==> a@ == b@,
        a.partial_cmp_spec(&b) == Some(Ordering::Greater) <==> a@ > b@,
        a.partial_cmp_spec(&b) == Some(Ordering::Less) <==> b.partial_cmp_spec(&a) == Some(
            Ordering::Greater,
        ),
        a.partial_cmp_spec(&b) == Some(Ordering::Less) && b.partial_cmp_spec(&c) == Some(
            Ordering::Less,
        ) ==> a.partial_cmp_spec(&c) == Some(Ordering::Less),
{
}

} // verus!
