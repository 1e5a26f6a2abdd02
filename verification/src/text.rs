//! Text utilities under the canonicalizer: UTF-8 decoding of byte
//! sources, single-character appends, and a verified decimal rendering
//! of digests for diagnostics.

use vstd::prelude::*;

verus! {

use vstd::utf8::decode_utf8;
use vstd::utf8::valid_utf8;

/// Relies on `core::str::from_utf8`: it succeeds exactly on byte
/// sequences that form valid UTF-8, and then returns their decoding.
#[verifier::external_body]
pub(crate) fn utf8_to_string(bytes: &Vec<u8>) -> (r: Option<String>)
    ensures
        r is Some <==> valid_utf8(bytes@),
        r is Some ==> r->0@ == decode_utf8(bytes@),
{
    match core::str::from_utf8(bytes.as_slice()) {
        Ok(text) => Some(text.to_string()),
        Err(_) => None,
    }
}

/// Relies on `String::push`: it appends exactly the one character.
#[verifier::external_body]
pub(crate) fn push_char(s: &mut String, c: char)
    ensures
        final(s)@ == old(s)@ + seq![c],
{
    s.push(c);
}

/// The character for one decimal digit.
pub open spec fn digit_char(d: nat) -> char
    recommends
        d < 10,
{
    ((48 + (d % 10)) as u8) as char
}

/// The base-10 rendering of `n`, most significant digit first, with no
/// leading zeros (a single `'0'` for zero).
pub open spec fn decimal_digits(n: nat) -> Seq<char>
    decreases n,
{
    if n < 10 {
        seq![digit_char(n)]
    } else {
        decimal_digits(n / 10) + seq![digit_char(n % 10)]
    }
}

fn digit_char_of(d: u64) -> (c: char)
    requires
        d < 10,
    ensures
        c == digit_char(d as nat),
{
    ((48 + d) as u8) as char
}

/// Renders `n` in base 10.
pub fn decimal_string(n: u64) -> (r: String)
    ensures
        r@ == decimal_digits(n as nat),
    decreases n,
{
    if n < 10 {
        let mut s = String::new();
        push_char(&mut s, digit_char_of(n));
        assert(s@ =~= decimal_digits(n as nat));
        s
    } else {
        let mut s = decimal_string(n / 10);
        push_char(&mut s, digit_char_of(n % 10));
        assert(s@ =~= decimal_digits(n as nat));
        s
    }
}

} // verus!
