//! Verified construction of the JSON payloads that the contracts expect.
//!
//! The inner schema carried by every contract execution and state query is
//! defined by this library, and the chain-side contract interprets it
//! byte-for-byte, so the encoding must be produced exactly: object member
//! names in a fixed order, strings in their minimal escaped form, 128-bit
//! amounts as decimal strings, and binary payloads as padded base64.
//!
//! Each building block here is an executable function whose output is pinned
//! down, character by character, by a specification function.

use vstd::prelude::*;
use vstd::string::{StrSliceExecFns, StringExecFns};

verus! {

/// Relies on `String::push`: appends exactly the one character.
#[verifier::external_body]
pub fn push_char(s: &mut String, c: char)
    ensures
        final(s)@ == old(s)@.push(c),
{
    s.push(c);
}

/// The decimal digit character for `d` in `0..=9`.
pub open spec fn spec_digit(d: int) -> char {
    if d == 0 {
        '0'
    } else if d == 1 {
        '1'
    } else if d == 2 {
        '2'
    } else if d == 3 {
        '3'
    } else if d == 4 {
        '4'
    } else if d == 5 {
        '5'
    } else if d == 6 {
        '6'
    } else if d == 7 {
        '7'
    } else if d == 8 {
        '8'
    } else {
        '9'
    }
}

/// The decimal representation of `n`, without a sign and without leading
/// zeros (the representation of zero is "0").
pub open spec fn spec_dec(n: int) -> Seq<char>
    decreases n,
{
    if n < 10 {
        seq![spec_digit(n)]
    } else {
        spec_dec(n / 10).push(spec_digit(n % 10))
    }
}

fn digit_char(d: u8) -> (c: char)
    requires
        d < 10,
    ensures
        c == spec_digit(d as int),
{
    if d == 0 {
        '0'
    } else if d == 1 {
        '1'
    } else if d == 2 {
        '2'
    } else if d == 3 {
        '3'
    } else if d == 4 {
        '4'
    } else if d == 5 {
        '5'
    } else if d == 6 {
        '6'
    } else if d == 7 {
        '7'
    } else if d == 8 {
        '8'
    } else {
        '9'
    }
}

/// Appends the decimal representation of `n` to `out`.
pub fn push_dec(out: &mut String, n: u128)
    ensures
        final(out)@ == old(out)@ + spec_dec(n as int),
    decreases n,
{
    if n < 10 {
        push_char(out, digit_char(n as u8));
        assert(final(out)@ =~= old(out)@ + spec_dec(n as int));
    } else {
        push_dec(out, n / 10);
        push_char(out, digit_char((n % 10) as u8));
        assert(final(out)@ =~= old(out)@ + spec_dec(n as int));
    }
}

/// The uppercase hexadecimal digit character for `v` in `0..=15`.
pub open spec fn spec_hex_upper(v: int) -> char {
    if v <= 9 {
        (48 + v) as char
    } else {
        (55 + v) as char
    }
}

fn hex_upper(v: u8) -> (c: char)
    requires
        v < 16,
    ensures
        c == spec_hex_upper(v as int),
{
    if v <= 9 {
        (48 + v) as char
    } else {
        (55 + v) as char
    }
}

/// How one character appears inside a JSON string literal: quote and
/// backslash get a two-character escape, the five named control characters
/// get theirs, any other control character becomes an uppercase `\u00XX`
/// escape, and everything else stands for itself.
pub open spec fn spec_escape_char(c: char) -> Seq<char> {
    if c == '"' {
        seq!['\\', '"']
    } else if c == '\\' {
        seq!['\\', '\\']
    } else if c == '\u{0008}' {
        seq!['\\', 'b']
    } else if c == '\u{0009}' {
        seq!['\\', 't']
    } else if c == '\u{000A}' {
        seq!['\\', 'n']
    } else if c == '\u{000C}' {
        seq!['\\', 'f']
    } else if c == '\u{000D}' {
        seq!['\\', 'r']
    } else if (c as int) < 0x20 {
        seq!['\\', 'u', '0', '0', spec_hex_upper((c as int) / 16), spec_hex_upper((c as int) % 16)]
    } else {
        seq![c]
    }
}

/// The body of a JSON string literal holding the characters of `s`.
pub open spec fn spec_escape(s: Seq<char>) -> Seq<char>
    decreases s.len(),
{
    if s.len() == 0 {
        Seq::empty()
    } else {
        spec_escape_char(s[0]) + spec_escape(s.skip(1))
    }
}

/// The JSON string literal holding the characters of `s`, quotes included.
pub open spec fn spec_json_string(s: Seq<char>) -> Seq<char> {
    seq!['"'] + spec_escape(s) + seq!['"']
}

pub proof fn lemma_escape_push(s: Seq<char>, c: char)
    ensures
        spec_escape(s.push(c)) == spec_escape(s) + spec_escape_char(c),
    decreases s.len(),
{
    if s.len() == 0 {
        assert(s.push(c)[0] == c);
        assert(s.push(c).skip(1) =~= Seq::<char>::empty());
        assert(s.push(c).len() == 1);
        assert(spec_escape(s.push(c)) == spec_escape_char(c) + spec_escape(
            Seq::<char>::empty(),
        ));
        assert(spec_escape(Seq::<char>::empty()) == Seq::<char>::empty());
        assert(s =~= Seq::<char>::empty());
        assert(spec_escape(s.push(c)) =~= spec_escape(s) + spec_escape_char(c));
    } else {
        lemma_escape_push(s.skip(1), c);
        assert(s.push(c)[0] == s[0]);
        assert(s.push(c).skip(1) =~= s.skip(1).push(c));
        assert(spec_escape(s.push(c)) == spec_escape_char(s[0]) + (spec_escape(s.skip(1))
            + spec_escape_char(c)));
        assert(spec_escape(s.push(c)) =~= spec_escape(s) + spec_escape_char(c));
    }
}

fn push_escaped_char(out: &mut String, c: char)
    ensures
        final(out)@ == old(out)@ + spec_escape_char(c),
{
    if c == '"' {
        push_char(out, '\\');
        push_char(out, '"');
    } else if c == '\\' {
        push_char(out, '\\');
        push_char(out, '\\');
    } else if c == '\u{0008}' {
        push_char(out, '\\');
        push_char(out, 'b');
    } else if c == '\u{0009}' {
        push_char(out, '\\');
        push_char(out, 't');
    } else if c == '\u{000A}' {
        push_char(out, '\\');
        push_char(out, 'n');
    } else if c == '\u{000C}' {
        push_char(out, '\\');
        push_char(out, 'f');
    } else if c == '\u{000D}' {
        push_char(out, '\\');
        push_char(out, 'r');
    } else if (c as u32) < 0x20 {
        let v = c as u32;
        push_char(out, '\\');
        push_char(out, 'u');
        push_char(out, '0');
        push_char(out, '0');
        push_char(out, hex_upper((v / 16) as u8));
        push_char(out, hex_upper((v % 16) as u8));
    } else {
        push_char(out, c);
    }
    assert(final(out)@ =~= old(out)@ + spec_escape_char(c));
}

/// The character of the standard base64 alphabet for `v` in `0..=63`.
pub open spec fn spec_b64_char(v: int) -> char {
    if v < 26 {
        (65 + v) as char
    } else if v < 52 {
        (71 + v) as char
    } else if v < 62 {
        (v - 4) as char
    } else if v == 62 {
        '+'
    } else {
        '/'
    }
}

/// The standard base64 encoding of `b`, with `=` padding, as binary
/// payloads appear inside JSON documents on this chain.
pub open spec fn spec_base64(b: Seq<u8>) -> Seq<char>
    decreases b.len(),
{
    if b.len() == 0 {
        Seq::empty()
    } else if b.len() == 1 {
        let n = b[0] as int;
        seq![spec_b64_char(n / 4), spec_b64_char((n % 4) * 16), '=', '=']
    } else if b.len() == 2 {
        let n = b[0] as int * 256 + b[1] as int;
        seq![spec_b64_char(n / 1024), spec_b64_char((n / 16) % 64), spec_b64_char((n % 16) * 4), '=']
    } else {
        let n = b[0] as int * 65536 + b[1] as int * 256 + b[2] as int;
        seq![
            spec_b64_char(n / 262144),
            spec_b64_char((n / 4096) % 64),
            spec_b64_char((n / 64) % 64),
            spec_b64_char(n % 64),
        ] + spec_base64(b.skip(3))
    }
}

fn b64_char(v: u32) -> (c: char)
    requires
        v < 64,
    ensures
        c == spec_b64_char(v as int),
{
    if v < 26 {
        (65 + v as u8) as char
    } else if v < 52 {
        (71 + v as u8) as char
    } else if v < 62 {
        (v as u8 - 4) as char
    } else if v == 62 {
        '+'
    } else {
        '/'
    }
}

/// Appends the base64 encoding of `b[start..]` to `out`.
pub fn push_base64(out: &mut String, b: &[u8], start: usize)
    requires
        start <= b@.len(),
    ensures
        final(out)@ == old(out)@ + spec_base64(b@.skip(start as int)),
    decreases b@.len() - start,
{
    let ghost tail = b@.skip(start as int);
    let rem = b.len() - start;
    if rem == 0 {
        assert(final(out)@ =~= old(out)@ + spec_base64(tail));
    } else if rem == 1 {
        let n = b[start] as u32;
        assert(n == tail[0]);
        push_char(out, b64_char(n / 4));
        push_char(out, b64_char((n % 4) * 16));
        push_char(out, '=');
        push_char(out, '=');
        assert(final(out)@ =~= old(out)@ + spec_base64(tail));
    } else if rem == 2 {
        let n = b[start] as u32 * 256 + b[start + 1] as u32;
        assert(n == tail[0] * 256 + tail[1]);
        push_char(out, b64_char(n / 1024));
        push_char(out, b64_char((n / 16) % 64));
        push_char(out, b64_char((n % 16) * 4));
        push_char(out, '=');
        assert(final(out)@ =~= old(out)@ + spec_base64(tail));
    } else {
        let n = b[start] as u32 * 65536 + b[start + 1] as u32 * 256 + b[start + 2] as u32;
        assert(n == tail[0] * 65536 + tail[1] * 256 + tail[2]);
        assert(n < 16777216);
        push_char(out, b64_char(n / 262144));
        push_char(out, b64_char((n / 4096) % 64));
        push_char(out, b64_char((n / 64) % 64));
        push_char(out, b64_char(n % 64));
        push_base64(out, b, start + 3);
        proof {
            assert(b@.skip(start as int + 3) =~= tail.skip(3));
        }
        assert(final(out)@ =~= old(out)@ + spec_base64(tail));
    }
}

/// Appends the JSON string literal for `s` to `out`, quotes included.
pub fn push_json_string(out: &mut String, s: &str)
    ensures
        final(out)@ == old(out)@ + spec_json_string(s@),
{
    push_char(out, '"');
    let n = s.unicode_len();
    let mut i: usize = 0;
    while i < n
        invariant
            i <= n,
            n == s@.len(),
            out@ == old(out)@.push('"') + spec_escape(s@.take(i as int)),
        decreases n - i,
    {
        let c = s.get_char(i);
        proof {
            assert(s@.take(i as int + 1) =~= s@.take(i as int).push(s@[i as int]));
            lemma_escape_push(s@.take(i as int), s@[i as int]);
        }
        push_escaped_char(out, c);
        i += 1;
    }
    proof {
        assert(s@.take(n as int) =~= s@);
    }
    push_char(out, '"');
    assert(final(out)@ =~= old(out)@ + spec_json_string(s@));
}

} // verus!
