//! Compact interned identifiers: a 64-bit digest stands in for a
//! human-readable name, so that equality and ordering cost one integer
//! comparison instead of a string walk.

mod canon;
mod hashing;
mod id;
mod registry;
mod text;

pub use canon::canonical_of;
pub use canon::canonical_of_seq;
pub use canon::canonicalize;
pub use canon::canonicalize_seq;
pub use canon::decoded_bytes;
pub use canon::lemma_single_byte_text;
pub use canon::IdError;
pub use canon::SourceValue;
pub use hashing::digest_of;
pub use id::lemma_canonical_digest_iff;
pub use id::lemma_order_total;
pub use id::lemma_resolver_matches_runtime;
pub use id::resolve;
pub use id::IdSource;
pub use id::NameId;
pub use registry::CollisionError;
pub use registry::Registry;
pub use text::decimal_digits;
pub use text::decimal_string;
pub use text::digit_char;
