//! Verified production of the JSON texts the service sends.
//!
//! Every response body of the service is JSON: either a JSON string naming
//! the failure, or the claims object.  This module builds those texts
//! character by character and proves them equal to spec-level functions of
//! the input.  String escaping follows the usual JSON serializer rules:
//! quote, backslash and control characters are escaped, with the short
//! forms `\b \f \n \r \t` where they exist and `\u00XX` otherwise, and
//! every other character stands as itself.

use vstd::prelude::*;
use crate::chars::{chars_of, string_from_chars};

verus! {

/// The sixteen lowercase hexadecimal digit characters.
pub open spec fn hex_digit(v: nat) -> char {
    seq!['0', '1', '2', '3', '4', '5', '6', '7', '8', '9', 'a', 'b', 'c', 'd', 'e', 'f'][v as int]
}

/// How one character appears inside a JSON string literal.
pub open spec fn json_escaped_char(c: char) -> Seq<char> {
    if c == '"' {
        seq!['\\', '"']
    } else if c == '\\' {
        seq!['\\', '\\']
    } else if c == '\u{8}' {
        seq!['\\', 'b']
    } else if c == '\u{c}' {
        seq!['\\', 'f']
    } else if c == '\n' {
        seq!['\\', 'n']
    } else if c == '\r' {
        seq!['\\', 'r']
    } else if c == '\t' {
        seq!['\\', 't']
    } else if (c as u32) < 0x20 {
        seq!['\\', 'u', '0', '0', hex_digit((c as u32 / 16) as nat), hex_digit((c as u32 % 16) as nat)]
    } else {
        seq![c]
    }
}

/// The body of a JSON string literal: each character escaped, in order.
pub open spec fn json_escaped(s: Seq<char>) -> Seq<char>
    decreases s.len(),
{
    if s.len() == 0 {
        Seq::empty()
    } else {
        json_escaped(s.drop_last()) + json_escaped_char(s.last())
    }
}

/// A complete JSON string literal for `s`: quotes around the escaped body.
pub open spec fn json_quoted(s: Seq<char>) -> Seq<char> {
    seq!['"'] + json_escaped(s) + seq!['"']
}

fn hex_digit_char(v: u32) -> (r: char)
    requires
        v < 16,
    ensures
        r == hex_digit(v as nat),
{
    let r: char = if v == 0 { '0' } else if v == 1 { '1' } else if v == 2 { '2' }
        else if v == 3 { '3' } else if v == 4 { '4' } else if v == 5 { '5' }
        else if v == 6 { '6' } else if v == 7 { '7' } else if v == 8 { '8' }
        else if v == 9 { '9' } else if v == 10 { 'a' } else if v == 11 { 'b' }
        else if v == 12 { 'c' } else if v == 13 { 'd' } else if v == 14 { 'e' }
        else { 'f' };
    r
}

fn push_escaped(out: &mut Vec<char>, c: char)
    ensures
        final(out)@ == old(out)@ + json_escaped_char(c),
{
    if c == '"' {
        out.push('\\');
        out.push('"');
    } else if c == '\\' {
        out.push('\\');
        out.push('\\');
    } else if c == '\u{8}' {
        out.push('\\');
        out.push('b');
    } else if c == '\u{c}' {
        out.push('\\');
        out.push('f');
    } else if c == '\n' {
        out.push('\\');
        out.push('n');
    } else if c == '\r' {
        out.push('\\');
        out.push('r');
    } else if c == '\t' {
        out.push('\\');
        out.push('t');
    } else if (c as u32) < 0x20 {
        out.push('\\');
        out.push('u');
        out.push('0');
        out.push('0');
        out.push(hex_digit_char((c as u32) / 16));
        out.push(hex_digit_char((c as u32) % 16));
    } else {
        out.push(c);
    }
    assert(final(out)@ =~= old(out)@ + json_escaped_char(c));
}

/// Escape `s` into `out` as the body of a JSON string literal.
fn push_json_escaped(out: &mut Vec<char>, s: &[char])
    ensures
        final(out)@ == old(out)@ + json_escaped(s@),
{
    let n = s.len();
    let mut i: usize = 0;
    assert(s@.take(0) =~= Seq::<char>::empty());
    while i < n
        invariant
            i <= n,
            n == s@.len(),
            out@ == old(out)@ + json_escaped(s@.take(i as int)),
        decreases n - i,
    {
        push_escaped(out, s[i]);
        assert(s@.take(i + 1).drop_last() =~= s@.take(i as int));
        assert(s@.take(i + 1).last() == s@[i as int]);
        i = i + 1;
    }
    assert(s@.take(n as int) =~= s@);
}

/// The JSON string literal for `s`, exactly as the spec-level
/// `json_quoted` describes it.
pub fn json_quote(s: &str) -> (r: String)
    ensures
        r@ == json_quoted(s@),
{
    let cs = chars_of(s);
    let mut out: Vec<char> = Vec::new();
    out.push('"');
    assert(out@ =~= seq!['"']);
    push_json_escaped(&mut out, cs.as_slice());
    out.push('"');
    assert(out@ =~= json_quoted(s@));
    string_from_chars(out.as_slice())
}

/// The decimal digit character for a value below ten.
pub open spec fn dec_digit(v: nat) -> char {
    seq!['0', '1', '2', '3', '4', '5', '6', '7', '8', '9'][v as int]
}

/// The usual decimal rendering of a natural number: no sign, no leading
/// zeros except for zero itself.
pub open spec fn dec_digits(n: nat) -> Seq<char>
    decreases n,
{
    if n < 10 {
        seq![dec_digit(n)]
    } else {
        dec_digits(n / 10) + seq![dec_digit(n % 10)]
    }
}

fn dec_digit_char(v: u64) -> (r: char)
    requires
        v < 10,
    ensures
        r == dec_digit(v as nat),
{
    let r: char = if v == 0 { '0' } else if v == 1 { '1' } else if v == 2 { '2' }
        else if v == 3 { '3' } else if v == 4 { '4' } else if v == 5 { '5' }
        else if v == 6 { '6' } else if v == 7 { '7' } else if v == 8 { '8' }
        else { '9' };
    r
}

/// Render `n` in decimal, exactly as the spec-level `dec_digits`
/// describes it.
pub fn decimal_string(n: u64) -> (r: String)
    ensures
        r@ == dec_digits(n as nat),
{
    let mut rev: Vec<char> = Vec::new();
    let mut rest: u64 = n;
    while rest >= 10
        invariant
            dec_digits(n as nat) == dec_digits(rest as nat) + rev@.reverse(),
        decreases rest,
    {
        let d = rest % 10;
        let ghost prev = rev@;
        rev.push(dec_digit_char(d));
        assert(rev@.reverse() =~= seq![dec_digit(d as nat)] + prev.reverse());
        rest = rest / 10;
    }
    let ghost prev = rev@;
    rev.push(dec_digit_char(rest));
    assert(rev@.reverse() =~= seq![dec_digit(rest as nat)] + prev.reverse());
    let mut out: Vec<char> = Vec::new();
    let mut i: usize = rev.len();
    while i > 0
        invariant
            i <= rev@.len(),
            out@ == rev@.reverse().take(rev@.len() - i),
        decreases i,
    {
        i = i - 1;
        let ghost prev_out = out@;
        out.push(rev[i]);
        assert(rev@.reverse()[rev@.len() - 1 - i] == rev@[i as int]);
        assert(out@ =~= rev@.reverse().take(rev@.len() - i));
    }
    assert(rev@.reverse().take(rev@.len() as int) =~= rev@.reverse());
    string_from_chars(out.as_slice())
}

} // verus!
