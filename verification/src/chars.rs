//! Conversions between strings and their character sequences.
//!
//! The library reasons about text as `Seq<char>`; these two helpers move a
//! value between `str`/`String` and `Vec<char>` so that verified code can
//! index characters directly.

use vstd::prelude::*;

verus! {

/// Relies on `str::chars` and `Iterator::collect`: the characters of the
/// string, in order.
#[verifier::external_body]
pub fn chars_of(s: &str) -> (r: Vec<char>)
    ensures
        r@ == s@,
{
    s.chars().collect()
}

/// Relies on `FromIterator<char> for String`: the string made of exactly
/// these characters, in order.
#[verifier::external_body]
pub fn string_from_chars(cs: &[char]) -> (r: String)
    ensures
        r@ == cs@,
{
    cs.iter().collect()
}

} // verus!
