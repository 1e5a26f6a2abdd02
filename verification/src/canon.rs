//! The canonicalizer: every supported source value maps to exactly one
//! canonical UTF-8 string, or fails. The digest of an identifier is always
//! the digest of this canonical string, so names that are spelled
//! differently but mean the same text hash identically.

use vstd::prelude::*;

verus! {

use vstd::utf8::decode_utf8;
use vstd::utf8::valid_utf8;
use crate::text::push_char;
use crate::text::utf8_to_string;
use vstd::string::StringExecFns;

/// Why a source value yields no canonical string.
#[derive(Clone, Copy, PartialEq, Eq, Structural, Debug)]
pub enum IdError {
    /// Bytes that should have decoded as UTF-8 text do not.
    InvalidEncoding,
    /// The source kind maps many spellings to one stored value
    /// (floating-point literals), so no canonical string is safe.
    NonInjectiveSource,
    /// The source kind is not supported at all.
    UnsupportedLiteral,
}

/// One source value, as the host language's token parser hands it over.
#[derive(Clone, Debug)]
pub enum SourceValue {
    /// A bare identifier-like token, by its literal spelling.
    Ident(String),
    /// A text literal, already decoded.
    Text(String),
    /// A byte-string literal: raw bytes that must form UTF-8 text.
    ByteText(Vec<u8>),
    /// A C-style string literal: its bytes without the terminator.
    CText(Vec<u8>),
    /// A single-byte literal.
    Byte(u8),
    /// A character literal.
    Char(char),
    /// An integer literal, by its base-10 digit string.
    Int(String),
    /// A floating-point literal, by its spelling; never canonicalized.
    Float(String),
    /// A boolean literal.
    Bool(bool),
    /// A lifetime-like marker: its label without the apostrophe.
    Lifetime(String),
    /// Any other token kind.
    Unsupported,
}

/// The decoding of byte-sourced text: the bytes must form valid UTF-8.
pub open spec fn decoded_bytes(bs: Seq<u8>) -> Result<Seq<char>, IdError> {
    if valid_utf8(bs) {
        Ok(decode_utf8(bs))
    } else {
        Err(IdError::InvalidEncoding)
    }
}

/// The canonical string of one source value, or the error it earns.
pub open spec fn canonical_of(v: SourceValue) -> Result<Seq<char>, IdError> {
    match v {
        SourceValue::Ident(s) => Ok(s@),
        SourceValue::Text(s) => Ok(s@),
        SourceValue::ByteText(bs) => decoded_bytes(bs@),
        SourceValue::CText(bs) => decoded_bytes(bs@),
        SourceValue::Byte(b) => if b < 128 {
            Ok(seq![b as char])
        } else {
            Err(IdError::InvalidEncoding)
        },
        SourceValue::Char(c) => Ok(seq![c]),
        SourceValue::Int(digits) => Ok(digits@),
        SourceValue::Float(_) => Err(IdError::NonInjectiveSource),
        SourceValue::Bool(b) => Ok(if b { "true"@ } else { "false"@ }),
        SourceValue::Lifetime(label) => Ok(seq!['\''] + label@),
        SourceValue::Unsupported => Err(IdError::UnsupportedLiteral),
    }
}

/// A lone byte is UTF-8 text exactly when it is ASCII, and then it
/// decodes to the one character with its value.
pub proof fn lemma_single_byte_text(b: u8)
    ensures
        b < 128 ==> decoded_bytes(seq![b]) == Ok::<Seq<char>, IdError>(seq![b as char]),
        b >= 128 ==> decoded_bytes(seq![b]) == Err::<Seq<char>, IdError>(IdError::InvalidEncoding),
{
    let bs = seq![b];
    if b < 128 {
        assert(vstd::utf8::valid_first_scalar(bs));
        assert(vstd::utf8::pop_first_scalar(bs) =~= Seq::<u8>::empty());
        assert(valid_utf8(vstd::utf8::pop_first_scalar(bs)));
        assert(valid_utf8(bs));
        assert(b & 0x7F == b) by (bit_vector)
            requires
                b < 128,
        ;
        assert(vstd::utf8::decode_first_scalar(bs) == b as u32);
        let rest = vstd::utf8::pop_first_scalar(bs);
        assert(decode_utf8(rest) =~= Seq::<char>::empty());
        assert(decode_utf8(bs) =~= seq![(b as u32) as char]);
        assert((b as u32) as char == b as char);
        assert(decode_utf8(bs) =~= seq![b as char]);
    } else {
        assert(!vstd::utf8::valid_leading_and_continuation_bytes_first_codepoint(bs));
        assert(!valid_utf8(bs));
    }
}

/// The canonical string of a token sequence: each token canonicalized on
/// its own, joined with single spaces in source order; the leftmost
/// failing token decides the error; an empty sequence is unsupported.
pub open spec fn canonical_of_seq(vs: Seq<SourceValue>) -> Result<Seq<char>, IdError>
    decreases vs.len(),
{
    if vs.len() == 0 {
        Err(IdError::UnsupportedLiteral)
    } else if vs.len() == 1 {
        canonical_of(vs[0])
    } else {
        match canonical_of_seq(vs.drop_last()) {
            Ok(prefix) => match canonical_of(vs.last()) {
                Ok(last) => Ok(prefix + seq![' '] + last),
                Err(e) => Err(e),
            },
            Err(e) => Err(e),
        }
    }
}

/// Maps one source value to its canonical string.
pub fn canonicalize(v: &SourceValue) -> (r: Result<String, IdError>)
    ensures
        r is Ok <==> canonical_of(*v) is Ok,
        r is Ok ==> canonical_of(*v) == Ok::<Seq<char>, IdError>(r->Ok_0@),
        r is Err ==> canonical_of(*v) == Err::<Seq<char>, IdError>(r->Err_0),
{
    match v {
        SourceValue::Ident(s) => Ok(s.clone()),
        SourceValue::Text(s) => Ok(s.clone()),
        SourceValue::ByteText(bs) => match utf8_to_string(bs) {
            Some(text) => Ok(text),
            None => Err(IdError::InvalidEncoding),
        },
        SourceValue::CText(bs) => match utf8_to_string(bs) {
            Some(text) => Ok(text),
            None => Err(IdError::InvalidEncoding),
        },
        SourceValue::Byte(b) => {
            let one: Vec<u8> = vec![*b];
            assert(one@ =~= seq![*b]);
            proof {
                lemma_single_byte_text(*b);
            }
            match utf8_to_string(&one) {
                Some(text) => Ok(text),
                None => Err(IdError::InvalidEncoding),
            }
        },
        SourceValue::Char(c) => {
            let mut s = String::new();
            push_char(&mut s, *c);
            assert(s@ =~= seq![*c]);
            Ok(s)
        },
        SourceValue::Int(digits) => Ok(digits.clone()),
        SourceValue::Float(_) => Err(IdError::NonInjectiveSource),
        SourceValue::Bool(b) => {
            if *b {
                Ok(String::from_str("true"))
            } else {
                Ok(String::from_str("false"))
            }
        },
        SourceValue::Lifetime(label) => {
            let mut s = String::new();
            push_char(&mut s, '\'');
            s.append(label.as_str());
            assert(s@ =~= seq!['\''] + label@);
            Ok(s)
        },
        SourceValue::Unsupported => Err(IdError::UnsupportedLiteral),
    }
}

/// A sequence whose tokens each canonicalize yields a canonical string.
proof fn lemma_all_ok(vs: Seq<SourceValue>)
    requires
        vs.len() >= 1,
        forall|j: int| 0 <= j < vs.len() ==> canonical_of(#[trigger] vs[j]) is Ok,
    ensures
        canonical_of_seq(vs) is Ok,
    decreases vs.len(),
{
    if vs.len() > 1 {
        lemma_all_ok(vs.drop_last());
    }
}

/// The leftmost failing token decides the error of the whole sequence.
proof fn lemma_first_error(vs: Seq<SourceValue>, i: int)
    requires
        0 <= i < vs.len(),
        forall|j: int| 0 <= j < i ==> canonical_of(#[trigger] vs[j]) is Ok,
        canonical_of(vs[i]) is Err,
    ensures
        canonical_of_seq(vs) == Err::<Seq<char>, IdError>(canonical_of(vs[i])->Err_0),
    decreases vs.len(),
{
    if vs.len() > 1 {
        if i == vs.len() - 1 {
            lemma_all_ok(vs.drop_last());
        } else {
            lemma_first_error(vs.drop_last(), i);
        }
    }
}

/// Maps a token sequence to its canonical string: tokens joined with
/// single spaces, in source order.
pub fn canonicalize_seq(tokens: &Vec<SourceValue>) -> (r: Result<String, IdError>)
    ensures
        r is Ok <==> canonical_of_seq(tokens@) is Ok,
        r is Ok ==> canonical_of_seq(tokens@) == Ok::<Seq<char>, IdError>(r->Ok_0@),
        r is Err ==> canonical_of_seq(tokens@) == Err::<Seq<char>, IdError>(r->Err_0),
{
    if tokens.len() == 0 {
        return Err(IdError::UnsupportedLiteral);
    }
    let mut out = match canonicalize(&tokens[0]) {
        Ok(first) => first,
        Err(e) => {
            proof {
                lemma_first_error(tokens@, 0);
            }
            return Err(e);
        },
    };
    let mut i: usize = 1;
    assert(tokens@.take(1) =~= seq![tokens@[0]]);
    while i < tokens.len()
        invariant
            1 <= i <= tokens@.len(),
            canonical_of_seq(tokens@.take(i as int)) == Ok::<Seq<char>, IdError>(out@),
            forall|j: int| 0 <= j < i ==> canonical_of(#[trigger] tokens@[j]) is Ok,
        decreases tokens@.len() - i,
    {
        match canonicalize(&tokens[i]) {
            Ok(next) => {
                push_char(&mut out, ' ');
                out.append(next.as_str());
                proof {
                    let taken = tokens@.take(i + 1);
                    assert(taken.drop_last() =~= tokens@.take(i as int));
                    assert(taken.last() == tokens@[i as int]);
                    assert(canonical_of_seq(taken) == Ok::<Seq<char>, IdError>(out@));
                }
            },
            Err(e) => {
                proof {
                    lemma_first_error(tokens@, i as int);
                }
                return Err(e);
            },
        }
        i += 1;
    }
    assert(tokens@.take(i as int) =~= tokens@);
    Ok(out)
}

} // verus!
