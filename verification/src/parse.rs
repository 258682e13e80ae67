//! Verified decoding of the JSON documents the contracts return.
//!
//! Each decoder's behaviour is pinned down by a specification-level parser
//! over the characters of the response: the executable function returns
//! exactly what the specification parser yields, and a document the
//! specification parser rejects is a decode error, never a crash. The
//! accepted grammar is the one the contracts emit: one object with the
//! expected members in order, optional whitespace between tokens, string
//! literals with the standard escapes, and 128-bit amounts quoted as
//! decimal strings.

use vstd::prelude::*;
use vstd::string::{StrSliceExecFns, StringExecFns};

verus! {

use crate::error::RwaError;
use crate::json::push_char;

/// JSON whitespace.
pub open spec fn spec_is_ws(c: char) -> bool {
    c == ' ' || c == '\t' || c == '\n' || c == '\r'
}

/// The first position at or after `i` holding no whitespace.
pub open spec fn spec_skip_ws(s: Seq<char>, i: int) -> int
    decreases s.len() - i,
{
    if i < s.len() && spec_is_ws(s[i]) {
        spec_skip_ws(s, i + 1)
    } else {
        i
    }
}

pub proof fn lemma_skip_ws_bounds(s: Seq<char>, i: int)
    requires
        0 <= i <= s.len(),
    ensures
        i <= spec_skip_ws(s, i) <= s.len(),
    decreases s.len() - i,
{
    if i < s.len() && spec_is_ws(s[i]) {
        lemma_skip_ws_bounds(s, i + 1);
    }
}

/// Whether the characters of `lit` stand in `s` at position `i`.
pub open spec fn spec_match_at(s: Seq<char>, i: int, lit: Seq<char>) -> bool {
    i + lit.len() <= s.len() && s.subrange(i, i + lit.len()) == lit
}

fn skip_ws(s: &str, i: usize) -> (r: usize)
    requires
        i as int <= s@.len(),
    ensures
        r == spec_skip_ws(s@, i as int),
        i <= r,
        r as int <= s@.len(),
    decreases s@.len() - i,
{
    let n = s.unicode_len();
    if i < n {
        let c = s.get_char(i);
        if c == ' ' || c == '\t' || c == '\n' || c == '\r' {
            skip_ws(s, i + 1)
        } else {
            i
        }
    } else {
        i
    }
}

fn match_at(s: &str, i: usize, lit: &str) -> (r: bool)
    requires
        i as int <= s@.len(),
    ensures
        r == spec_match_at(s@, i as int, lit@),
{
    let n = s.unicode_len();
    let m = lit.unicode_len();
    if m > n - i {
        return false;
    }
    let mut j: usize = 0;
    while j < m
        invariant
            j <= m,
            i + m <= n,
            n == s@.len(),
            m == lit@.len(),
            forall|k: int| 0 <= k < j ==> s@[i + k] == lit@[k],
        decreases m - j,
    {
        if s.get_char(i + j) != lit.get_char(j) {
            proof {
                assert(s@.subrange(i as int, i as int + m as int)[j as int] == s@[i + j]);
            }
            return false;
        }
        j += 1;
    }
    proof {
        assert(s@.subrange(i as int, i as int + m as int) =~= lit@);
    }
    true
}

/// A decimal digit.
pub open spec fn spec_is_digit(c: char) -> bool {
    48 <= c as int <= 57
}

pub open spec fn spec_digit_val(c: char) -> int {
    c as int - 48
}

/// The end of the digit run starting at `i`.
pub open spec fn spec_digits_end(s: Seq<char>, i: int) -> int
    decreases s.len() - i,
{
    if i < s.len() && spec_is_digit(s[i]) {
        spec_digits_end(s, i + 1)
    } else {
        i
    }
}

pub proof fn lemma_digits_end_bounds(s: Seq<char>, i: int)
    requires
        0 <= i <= s.len(),
    ensures
        i <= spec_digits_end(s, i) <= s.len(),
    decreases s.len() - i,
{
    if i < s.len() && spec_is_digit(s[i]) {
        lemma_digits_end_bounds(s, i + 1);
    }
}

/// The value of the digits `s[i..end]` read as a decimal number.
pub open spec fn spec_digits_value(s: Seq<char>, i: int, end: int) -> int
    decreases end - i,
{
    if i < end {
        spec_digits_value(s, i, end - 1) * 10 + spec_digit_val(s[end - 1])
    } else {
        0
    }
}

pub proof fn lemma_digits_value_nonneg(s: Seq<char>, i: int, end: int)
    requires
        forall|k: int| i <= k < end ==> spec_is_digit(#[trigger] s[k]),
    ensures
        spec_digits_value(s, i, end) >= 0,
    decreases end - i,
{
    if i < end {
        lemma_digits_value_nonneg(s, i, end - 1);
    }
}

/// Reading more digits never makes the value smaller.
pub proof fn lemma_digits_value_mono(s: Seq<char>, i: int, e1: int, e2: int)
    requires
        i <= e1 <= e2,
        forall|k: int| i <= k < e2 ==> spec_is_digit(#[trigger] s[k]),
    ensures
        spec_digits_value(s, i, e1) <= spec_digits_value(s, i, e2),
    decreases e2 - e1,
{
    if e1 < e2 {
        lemma_digits_value_mono(s, i, e1, e2 - 1);
        lemma_digits_value_nonneg(s, i, e2 - 1);
        assert(spec_digits_value(s, i, e2) == spec_digits_value(s, i, e2 - 1) * 10
            + spec_digit_val(s[e2 - 1]));
        assert(spec_digits_value(s, i, e2 - 1) * 10 >= spec_digits_value(s, i, e2 - 1)) by (nonlinear_arith)
            requires
                spec_digits_value(s, i, e2 - 1) >= 0,
        ;
    }
}

/// The decimal number starting at `i`: its value and the position after
/// its last digit. Nothing when the run is empty or the value exceeds 128
/// bits.
pub open spec fn spec_parse_bare_amount(s: Seq<char>, i: int) -> Option<(u128, int)> {
    let d_end = spec_digits_end(s, i);
    if d_end == i {
        None
    } else if spec_digits_value(s, i, d_end) > u128::MAX {
        None
    } else {
        Some((spec_digits_value(s, i, d_end) as u128, d_end))
    }
}

/// The quoted decimal number starting with the `"` at `i`: its value and
/// the position after the closing quote.
pub open spec fn spec_parse_quoted_amount(s: Seq<char>, i: int) -> Option<(u128, int)> {
    if !(i < s.len() && s[i] == '"') {
        None
    } else {
        match spec_parse_bare_amount(s, i + 1) {
            Option::None => None,
            Option::Some(p) => if p.1 < s.len() && s[p.1] == '"' {
                Some((p.0, p.1 + 1))
            } else {
                None
            },
        }
    }
}

fn digit_at(s: &str, j: usize) -> (r: bool)
    requires
        (j as int) < s@.len(),
    ensures
        r == spec_is_digit(s@[j as int]),
{
    let v = s.get_char(j) as u32;
    48 <= v && v <= 57
}

fn parse_bare_amount(s: &str, i: usize) -> (r: Option<(u128, usize)>)
    requires
        i as int <= s@.len(),
    ensures
        match spec_parse_bare_amount(s@, i as int) {
            Option::Some(p) => r matches Some(q) && q.0 == p.0 && q.1 == p.1 && i <= q.1 && q.1
                as int <= s@.len(),
            Option::None => r is None,
        },
{
    let n = s.unicode_len();
    proof {
        lemma_digits_end_bounds(s@, i as int);
    }
    let ghost d_end = spec_digits_end(s@, i as int);
    let mut j: usize = i;
    let mut acc: u128 = 0;
    let mut overflow: bool = false;
    while j < n && digit_at(s, j)
        invariant
            i <= j,
            j as int <= d_end,
            d_end <= s@.len(),
            n == s@.len(),
            d_end == spec_digits_end(s@, j as int),
            forall|k: int| i <= k < j ==> spec_is_digit(#[trigger] s@[k]),
            !overflow ==> acc == spec_digits_value(s@, i as int, j as int),
            overflow ==> spec_digits_value(s@, i as int, j as int) > u128::MAX,
        decreases s@.len() - j,
    {
        let c = s.get_char(j);
        let d = (c as u32 as u8) - 48;
        proof {
            assert(spec_is_digit(s@[j as int]));
            assert(d == spec_digit_val(s@[j as int]));
            lemma_digits_end_bounds(s@, j as int + 1);
        }
        if !overflow {
            if acc <= (u128::MAX - d as u128) / 10 {
                proof {
                    assert(acc * 10 + d <= u128::MAX) by (nonlinear_arith)
                        requires
                            0 <= acc as int <= (u128::MAX - d as int) / 10,
                            0 <= d < 10,
                    ;
                }
                acc = acc * 10 + d as u128;
            } else {
                proof {
                    assert(acc * 10 + d > u128::MAX) by (nonlinear_arith)
                        requires
                            acc as int > (u128::MAX - d as int) / 10,
                            0 <= d < 10,
                    ;
                }
                overflow = true;
            }
        } else {
            proof {
                assert(forall|k: int| i <= k < j + 1 ==> spec_is_digit(#[trigger] s@[k]));
                lemma_digits_value_mono(s@, i as int, j as int, j as int + 1);
            }
        }
        j += 1;
    }
    proof {
        assert(j as int == d_end);
    }
    if j == i {
        return None;
    }
    if overflow {
        return None;
    }
    Some((acc, j))
}

fn parse_quoted_amount(s: &str, i: usize) -> (r: Option<(u128, usize)>)
    requires
        i as int <= s@.len(),
    ensures
        match spec_parse_quoted_amount(s@, i as int) {
            Option::Some(p) => r matches Some(q) && q.0 == p.0 && q.1 == p.1 && q.1 as int
                <= s@.len(),
            Option::None => r is None,
        },
{
    let n = s.unicode_len();
    if !(i < n && s.get_char(i) == '"') {
        return None;
    }
    match parse_bare_amount(s, i + 1) {
        Some(p) => {
            if p.1 < n && s.get_char(p.1) == '"' {
                Some((p.0, p.1 + 1))
            } else {
                None
            }
        },
        None => None,
    }
}

proof fn lemma_dec_chars_are_digits(n: int)
    requires
        n >= 0,
    ensures
        crate::json::spec_dec(n).len() >= 1,
        forall|k: int|
            0 <= k < crate::json::spec_dec(n).len() ==> spec_is_digit(
                #[trigger] crate::json::spec_dec(n)[k],
            ),
    decreases n,
{
    if n >= 10 {
        lemma_dec_chars_are_digits(n / 10);
    }
}

proof fn lemma_digit_val_of_digit(d: int)
    requires
        0 <= d < 10,
    ensures
        spec_digit_val(crate::json::spec_digit(d)) == d,
{
}

proof fn lemma_dec_value_at(t: Seq<char>, i: int, n: int)
    requires
        0 <= i,
        n >= 0,
        i + crate::json::spec_dec(n).len() <= t.len(),
        t.subrange(i, i + crate::json::spec_dec(n).len()) == crate::json::spec_dec(n),
    ensures
        spec_digits_value(t, i, i + crate::json::spec_dec(n).len()) == n,
    decreases n,
{
    let dec = crate::json::spec_dec(n);
    let len = dec.len() as int;
    if n < 10 {
        assert(t[i] == t.subrange(i, i + len)[0]);
        assert(dec[0] == crate::json::spec_digit(n));
        assert(t[i] == crate::json::spec_digit(n));
        lemma_digit_val_of_digit(n);
        assert(spec_digits_value(t, i, i + 1) == spec_digits_value(t, i, i) * 10
            + spec_digit_val(t[i]));
    } else {
        let prefix = crate::json::spec_dec(n / 10);
        assert(dec == prefix.push(crate::json::spec_digit(n % 10)));
        assert(t.subrange(i, i + prefix.len()) =~= prefix) by {
            assert forall|k: int| 0 <= k < prefix.len() implies t.subrange(
                i,
                i + prefix.len(),
            )[k] == prefix[k] by {
                assert(t.subrange(i, i + prefix.len())[k] == t[i + k]);
                assert(t[i + k] == t.subrange(i, i + len)[k]);
                assert(dec[k] == prefix[k]);
            }
        }
        lemma_dec_value_at(t, i, n / 10);
        assert(len == prefix.len() + 1);
        assert(spec_digits_value(t, i, i + len - 1) == n / 10);
        assert(t[i + len - 1] == t.subrange(i, i + len)[len - 1]);
        assert(dec[len - 1] == crate::json::spec_digit(n % 10));
        lemma_digit_val_of_digit(n % 10);
        assert(spec_digits_value(t, i, i + len) == spec_digits_value(t, i, i + len - 1) * 10
            + spec_digit_val(t[i + len - 1]));
        assert((n / 10) * 10 + n % 10 == n);
    }
}

proof fn lemma_digits_end_at(t: Seq<char>, i: int, e: int)
    requires
        0 <= i <= e <= t.len(),
        forall|k: int| i <= k < e ==> spec_is_digit(#[trigger] t[k]),
        e == t.len() || !spec_is_digit(t[e]),
    ensures
        spec_digits_end(t, i) == e,
    decreases e - i,
{
    if i < e {
        lemma_digits_end_at(t, i + 1, e);
    }
}

/// A decimal amount written by the encoder reads back unchanged:
/// wherever the decimal form of `n` stands in `t` with no digit directly
/// after it, the number parser reads back exactly `n` and stops after its
/// last digit.
pub proof fn lemma_dec_round_trip_at(t: Seq<char>, i: int, n: u128)
    requires
        0 <= i,
        i + crate::json::spec_dec(n as int).len() <= t.len(),
        t.subrange(i, i + crate::json::spec_dec(n as int).len()) == crate::json::spec_dec(
            n as int,
        ),
        i + crate::json::spec_dec(n as int).len() == t.len() || !spec_is_digit(
            t[i + crate::json::spec_dec(n as int).len()],
        ),
    ensures
        spec_parse_bare_amount(t, i) == Some((n, i + crate::json::spec_dec(n as int).len())),
{
    let dec = crate::json::spec_dec(n as int);
    let len = dec.len() as int;
    lemma_dec_chars_are_digits(n as int);
    assert forall|k: int| i <= k < i + len implies spec_is_digit(#[trigger] t[k]) by {
        assert(t[k] == t.subrange(i, i + len)[k - i]);
        assert(dec[k - i] == t.subrange(i, i + len)[k - i]);
    }
    lemma_digits_end_at(t, i, i + len);
    lemma_dec_value_at(t, i, n as int);
}

/// A quoted decimal amount written by the encoder reads back unchanged:
/// parsing the quoted decimal form of `n` yields exactly `n` and consumes
/// the whole quoted run.
pub proof fn lemma_quoted_amount_round_trip(n: u128)
    ensures
        spec_parse_quoted_amount(
            seq!['"'] + crate::json::spec_dec(n as int) + seq!['"'],
            0,
        ) == Some((n, crate::json::spec_dec(n as int).len() + 2 as int)),
{
    let dec = crate::json::spec_dec(n as int);
    let len = dec.len() as int;
    let t = seq!['"'] + dec + seq!['"'];
    lemma_dec_chars_are_digits(n as int);
    assert(t[0] == '"');
    assert(t.subrange(1, 1 + len) =~= dec);
    assert(t[1 + len] == '"');
    assert(!spec_is_digit('"'));
    lemma_dec_round_trip_at(t, 1, n);
}

/// The value of a hexadecimal digit, either case.
pub open spec fn spec_hex_val(c: char) -> Option<int> {
    if 48 <= c as int <= 57 {
        Some(c as int - 48)
    } else if 97 <= c as int <= 102 {
        Some(c as int - 87)
    } else if 65 <= c as int <= 70 {
        Some(c as int - 55)
    } else {
        None
    }
}

/// The character a two-character escape stands for.
pub open spec fn spec_unescape2(c: char) -> Option<char> {
    if c == '"' {
        Some('"')
    } else if c == '\\' {
        Some('\\')
    } else if c == '/' {
        Some('/')
    } else if c == 'b' {
        Some('\u{0008}')
    } else if c == 'f' {
        Some('\u{000C}')
    } else if c == 'n' {
        Some('\u{000A}')
    } else if c == 'r' {
        Some('\u{000D}')
    } else if c == 't' {
        Some('\u{0009}')
    } else {
        None
    }
}

/// The remainder of a JSON string literal from `i` (the opening quote
/// already consumed): the decoded characters and the position after the
/// closing quote. Accepts the escapes the encoder produces — the named
/// two-character ones and `\u00XX` — and rejects bare control characters
/// and unterminated literals.
pub open spec fn spec_jstring_body(s: Seq<char>, i: int) -> Option<(Seq<char>, int)>
    decreases s.len() - i,
{
    if i < 0 || i >= s.len() {
        None
    } else if s[i] == '"' {
        Some((Seq::empty(), i + 1))
    } else if s[i] == '\\' {
        if i + 2 > s.len() {
            None
        } else if s[i + 1] == 'u' {
            if i + 6 > s.len() {
                None
            } else if s[i + 2] == '0' && s[i + 3] == '0' {
                match (spec_hex_val(s[i + 4]), spec_hex_val(s[i + 5])) {
                    (Option::Some(h), Option::Some(l)) => match spec_jstring_body(s, i + 6) {
                        Option::Some(p) => Some((seq![((h * 16 + l) as char)] + p.0, p.1)),
                        Option::None => None,
                    },
                    _ => None,
                }
            } else {
                None
            }
        } else {
            match spec_unescape2(s[i + 1]) {
                Option::Some(c) => match spec_jstring_body(s, i + 2) {
                    Option::Some(p) => Some((seq![c] + p.0, p.1)),
                    Option::None => None,
                },
                Option::None => None,
            }
        }
    } else if (s[i] as int) < 0x20 {
        None
    } else {
        match spec_jstring_body(s, i + 1) {
            Option::Some(p) => Some((seq![s[i]] + p.0, p.1)),
            Option::None => None,
        }
    }
}

/// A whole JSON string literal starting with the quote at `i`.
pub open spec fn spec_parse_jstring(s: Seq<char>, i: int) -> Option<(Seq<char>, int)> {
    if 0 <= i < s.len() && s[i] == '"' {
        spec_jstring_body(s, i + 1)
    } else {
        None
    }
}

fn hex_val(c: char) -> (r: Option<u8>)
    ensures
        match spec_hex_val(c) {
            Option::Some(v) => r matches Some(u) && u == v && u < 16,
            Option::None => r is None,
        },
{
    let v = c as u32;
    if 48 <= v && v <= 57 {
        Some((v - 48) as u8)
    } else if 97 <= v && v <= 102 {
        Some((v - 87) as u8)
    } else if 65 <= v && v <= 70 {
        Some((v - 55) as u8)
    } else {
        None
    }
}

fn unescape2(c: char) -> (r: Option<char>)
    ensures
        r == spec_unescape2(c),
{
    if c == '"' {
        Some('"')
    } else if c == '\\' {
        Some('\\')
    } else if c == '/' {
        Some('/')
    } else if c == 'b' {
        Some('\u{0008}')
    } else if c == 'f' {
        Some('\u{000C}')
    } else if c == 'n' {
        Some('\u{000A}')
    } else if c == 'r' {
        Some('\u{000D}')
    } else if c == 't' {
        Some('\u{0009}')
    } else {
        None
    }
}

fn jstring_body(s: &str, i: usize, out: &mut String) -> (r: Option<usize>)
    requires
        i as int <= s@.len(),
    ensures
        match spec_jstring_body(s@, i as int) {
            Option::Some(p) => r matches Some(j) && j == p.1 && final(out)@ == old(out)@ + p.0 && i
                < j && j as int <= s@.len(),
            Option::None => r is None,
        },
    decreases s@.len() - i,
{
    let n = s.unicode_len();
    if i >= n {
        return None;
    }
    let c = s.get_char(i);
    if c == '"' {
        assert(final(out)@ =~= old(out)@ + Seq::<char>::empty());
        return Some(i + 1);
    }
    if c == '\\' {
        if n - i < 2 {
            return None;
        }
        let e = s.get_char(i + 1);
        if e == 'u' {
            if n - i < 6 {
                return None;
            }
            if s.get_char(i + 2) == '0' && s.get_char(i + 3) == '0' {
                let h = hex_val(s.get_char(i + 4));
                let l = hex_val(s.get_char(i + 5));
                match (h, l) {
                    (Some(hv), Some(lv)) => {
                        let v: u8 = hv * 16 + lv;
                        push_char(out, v as char);
                        let ghost mid = out@;
                        match jstring_body(s, i + 6, out) {
                            Some(j) => {
                                proof {
                                    let p = spec_jstring_body(s@, i as int + 6).unwrap();
                                    assert(out@ =~= old(out)@ + (seq![(v as char)] + p.0));
                                }
                                Some(j)
                            },
                            None => None,
                        }
                    },
                    _ => None,
                }
            } else {
                None
            }
        } else {
            match unescape2(e) {
                Some(u) => {
                    push_char(out, u);
                    match jstring_body(s, i + 2, out) {
                        Some(j) => {
                            proof {
                                let p = spec_jstring_body(s@, i as int + 2).unwrap();
                                assert(out@ =~= old(out)@ + (seq![u] + p.0));
                            }
                            Some(j)
                        },
                        None => None,
                    }
                },
                None => None,
            }
        }
    } else if (c as u32) < 0x20 {
        None
    } else {
        push_char(out, c);
        match jstring_body(s, i + 1, out) {
            Some(j) => {
                proof {
                    let p = spec_jstring_body(s@, i as int + 1).unwrap();
                    assert(out@ =~= old(out)@ + (seq![c] + p.0));
                }
                Some(j)
            },
            None => None,
        }
    }
}

fn parse_jstring(s: &str, i: usize) -> (r: Option<(String, usize)>)
    requires
        i as int <= s@.len(),
    ensures
        match spec_parse_jstring(s@, i as int) {
            Option::Some(p) => r matches Some(q) && q.0@ == p.0 && q.1 == p.1 && q.1 as int
                <= s@.len(),
            Option::None => r is None,
        },
{
    let n = s.unicode_len();
    if i < n && s.get_char(i) == '"' {
        let mut out = String::new();
        match jstring_body(s, i + 1, &mut out) {
            Some(j) => Some((out, j)),
            None => None,
        }
    } else {
        None
    }
}

/// The `{"compliant": <bool>}` document: the reported boolean, or nothing
/// when the characters are not such a document.
pub open spec fn spec_parse_compliance(s: Seq<char>) -> Option<bool> {
    let i0 = spec_skip_ws(s, 0);
    if !spec_match_at(s, i0, "{"@) {
        None
    } else {
        let i1 = spec_skip_ws(s, i0 + 1);
        if !spec_match_at(s, i1, "\"compliant\""@) {
            None
        } else {
            let i2 = spec_skip_ws(s, i1 + "\"compliant\""@.len());
            if !spec_match_at(s, i2, ":"@) {
                None
            } else {
                let i3 = spec_skip_ws(s, i2 + 1);
                if spec_match_at(s, i3, "true"@) {
                    if spec_parse_end(s, i3 + "true"@.len()) {
                        Some(true)
                    } else {
                        None
                    }
                } else if spec_match_at(s, i3, "false"@) {
                    if spec_parse_end(s, i3 + "false"@.len()) {
                        Some(false)
                    } else {
                        None
                    }
                } else {
                    None
                }
            }
        }
    }
}

/// Whether only the closing brace and whitespace remain from `i`.
pub open spec fn spec_parse_end(s: Seq<char>, i: int) -> bool {
    let j = spec_skip_ws(s, i);
    spec_match_at(s, j, "}"@) && spec_skip_ws(s, j + 1) == s.len()
}

fn parse_end(s: &str, i: usize) -> (r: bool)
    requires
        i as int <= s@.len(),
    ensures
        r == spec_parse_end(s@, i as int),
{
    proof {
        lemma_skip_ws_bounds(s@, i as int);
    }
    let j = skip_ws(s, i);
    if match_at(s, j, "}") {
        let n = s.unicode_len();
        proof {
            reveal_strlit("}");
            lemma_skip_ws_bounds(s@, j as int + 1);
        }
        skip_ws(s, j + 1) == n
    } else {
        false
    }
}

/// Decodes the compliance predicate's response: the boolean the contract
/// reported — `false` is a valid answer, not an error — or a decode error
/// when the document has any other shape.
pub fn decode_compliance_response(s: &str) -> (r: Result<bool, RwaError>)
    ensures
        spec_parse_compliance(s@) matches Some(b) ==> (r matches Ok(v) && v == b),
        spec_parse_compliance(s@) is None ==> (r matches Err(e) && e is DecodeError),
{
    let n = s.unicode_len();
    proof {
        lemma_skip_ws_bounds(s@, 0);
    }
    let i0 = skip_ws(s, 0);
    if !match_at(s, i0, "{") {
        return Err(RwaError::DecodeError(String::from_str("malformed compliance response")));
    }
    proof {
        reveal_strlit("{");
        lemma_skip_ws_bounds(s@, i0 as int + 1);
    }
    let i1 = skip_ws(s, i0 + 1);
    if !match_at(s, i1, "\"compliant\"") {
        return Err(RwaError::DecodeError(String::from_str("malformed compliance response")));
    }
    let key_len = "\"compliant\"".unicode_len();
    proof {
        lemma_skip_ws_bounds(s@, i1 as int + key_len as int);
    }
    let i2 = skip_ws(s, i1 + key_len);
    if !match_at(s, i2, ":") {
        return Err(RwaError::DecodeError(String::from_str("malformed compliance response")));
    }
    proof {
        reveal_strlit(":");
        lemma_skip_ws_bounds(s@, i2 as int + 1);
    }
    let i3 = skip_ws(s, i2 + 1);
    if match_at(s, i3, "true") {
        let lit_len = "true".unicode_len();
        if parse_end(s, i3 + lit_len) {
            Ok(true)
        } else {
            Err(RwaError::DecodeError(String::from_str("malformed compliance response")))
        }
    } else if match_at(s, i3, "false") {
        let lit_len = "false".unicode_len();
        if parse_end(s, i3 + lit_len) {
            Ok(false)
        } else {
            Err(RwaError::DecodeError(String::from_str("malformed compliance response")))
        }
    } else {
        Err(RwaError::DecodeError(String::from_str("malformed compliance response")))
    }
}

/// The value of a character of the standard base64 alphabet.
pub open spec fn spec_b64_val(c: char) -> Option<int> {
    if 65 <= c as int <= 90 {
        Some(c as int - 65)
    } else if 97 <= c as int <= 122 {
        Some(c as int - 71)
    } else if 48 <= c as int <= 57 {
        Some(c as int + 4)
    } else if c == '+' {
        Some(62)
    } else if c == '/' {
        Some(63)
    } else {
        None
    }
}

/// The bytes a padded standard base64 text stands for: whole groups of
/// four characters, padding only in the final group, and only the
/// canonical form of the final group (spare bits must be zero) — exactly
/// the texts the encoder produces.
pub open spec fn spec_b64_decode(c: Seq<char>) -> Option<Seq<u8>>
    decreases c.len(),
{
    if c.len() == 0 {
        Some(Seq::empty())
    } else if c.len() < 4 {
        None
    } else {
        match (spec_b64_val(c[0]), spec_b64_val(c[1])) {
            (Option::Some(v0), Option::Some(v1)) => {
                if c.len() == 4 && c[2] == '=' && c[3] == '=' {
                    if v1 % 16 == 0 {
                        Some(seq![(v0 * 4 + v1 / 16) as u8])
                    } else {
                        None
                    }
                } else if c.len() == 4 && c[3] == '=' {
                    match spec_b64_val(c[2]) {
                        Option::Some(v2) => if v2 % 4 == 0 {
                            let n = v0 * 1024 + v1 * 16 + v2 / 4;
                            Some(seq![(n / 256) as u8, (n % 256) as u8])
                        } else {
                            None
                        },
                        Option::None => None,
                    }
                } else {
                    match (spec_b64_val(c[2]), spec_b64_val(c[3])) {
                        (Option::Some(v2), Option::Some(v3)) => {
                            let n = v0 * 262144 + v1 * 4096 + v2 * 64 + v3;
                            match spec_b64_decode(c.skip(4)) {
                                Option::Some(rest) => Some(
                                    seq![(n / 65536) as u8, ((n / 256) % 256) as u8, (n % 256) as u8]
                                        + rest,
                                ),
                                Option::None => None,
                            }
                        },
                        _ => None,
                    }
                }
            },
            _ => None,
        }
    }
}

fn b64_val(c: char) -> (r: Option<u8>)
    ensures
        match spec_b64_val(c) {
            Option::Some(v) => r matches Some(u) && u == v && u < 64,
            Option::None => r is None,
        },
{
    let v = c as u32;
    if 65 <= v && v <= 90 {
        Some((v - 65) as u8)
    } else if 97 <= v && v <= 122 {
        Some((v - 71) as u8)
    } else if 48 <= v && v <= 57 {
        Some((v + 4) as u8)
    } else if c == '+' {
        Some(62)
    } else if c == '/' {
        Some(63)
    } else {
        None
    }
}

#[verifier::rlimit(60)]
fn b64_decode_into(s: &str, i: usize, out: &mut Vec<u8>) -> (r: bool)
    requires
        i as int <= s@.len(),
    ensures
        match spec_b64_decode(s@.skip(i as int)) {
            Option::Some(b) => r && final(out)@ == old(out)@ + b,
            Option::None => !r,
        },
    decreases s@.len() - i,
{
    let ghost tail = s@.skip(i as int);
    let n = s.unicode_len();
    let rem = n - i;
    if rem == 0 {
        assert(final(out)@ =~= old(out)@ + Seq::<u8>::empty());
        return true;
    }
    if rem < 4 {
        return false;
    }
    let v0 = match b64_val(s.get_char(i)) {
        Some(v) => v,
        None => {
            return false;
        },
    };
    let v1 = match b64_val(s.get_char(i + 1)) {
        Some(v) => v,
        None => {
            return false;
        },
    };
    proof {
        assert(tail[0] == s@[i as int]);
        assert(tail[1] == s@[i as int + 1]);
        assert(tail[2] == s@[i as int + 2]);
        assert(tail[3] == s@[i as int + 3]);
    }
    let c2 = s.get_char(i + 2);
    let c3 = s.get_char(i + 3);
    if rem == 4 && c2 == '=' && c3 == '=' {
        if v1 % 16 == 0 {
            out.push(v0 * 4 + v1 / 16);
            assert(final(out)@ =~= old(out)@ + seq![(v0 * 4 + v1 / 16) as u8]);
            true
        } else {
            false
        }
    } else if rem == 4 && c3 == '=' {
        let v2 = match b64_val(c2) {
            Some(v) => v,
            None => {
                return false;
            },
        };
        if v2 % 4 == 0 {
            let n2: u32 = v0 as u32 * 1024 + v1 as u32 * 16 + v2 as u32 / 4;
            out.push((n2 / 256) as u8);
            out.push((n2 % 256) as u8);
            assert(final(out)@ =~= old(out)@ + seq![
                ((v0 * 1024 + v1 * 16 + v2 / 4) / 256) as u8,
                ((v0 * 1024 + v1 * 16 + v2 / 4) % 256) as u8,
            ]);
            true
        } else {
            false
        }
    } else {
        let v2 = match b64_val(c2) {
            Some(v) => v,
            None => {
                return false;
            },
        };
        let v3 = match b64_val(c3) {
            Some(v) => v,
            None => {
                return false;
            },
        };
        let n3: u32 = v0 as u32 * 262144 + v1 as u32 * 4096 + v2 as u32 * 64 + v3 as u32;
        out.push((n3 / 65536) as u8);
        out.push(((n3 / 256) % 256) as u8);
        out.push((n3 % 256) as u8);
        let ghost mid = out@;
        let ok = b64_decode_into(s, i + 4, out);
        proof {
            assert(s@.skip(i as int + 4) =~= tail.skip(4));
        }
        if ok {
            proof {
                if spec_b64_decode(tail.skip(4)) is Some {
                    let rest = spec_b64_decode(tail.skip(4)).unwrap();
                    assert(out@ =~= old(out)@ + (seq![
                        ((v0 * 262144 + v1 * 4096 + v2 * 64 + v3) / 65536) as u8,
                        (((v0 * 262144 + v1 * 4096 + v2 * 64 + v3) / 256) % 256) as u8,
                        ((v0 * 262144 + v1 * 4096 + v2 * 64 + v3) % 256) as u8,
                    ] + rest));
                }
            }
            true
        } else {
            false
        }
    }
}

pub proof fn lemma_b64_val_of_char(v: int)
    requires
        0 <= v < 64,
    ensures
        spec_b64_val(crate::json::spec_b64_char(v)) == Some(v),
        crate::json::spec_b64_char(v) != '=',
{
}

/// Decoding inverts encoding: the base64 text the library writes for a
/// claim's payload reads back as exactly those bytes.
pub proof fn lemma_base64_round_trip(b: Seq<u8>)
    ensures
        spec_b64_decode(crate::json::spec_base64(b)) == Some(b),
    decreases b.len(),
{
    let enc = crate::json::spec_base64(b);
    if b.len() == 0 {
        assert(spec_b64_decode(enc) =~= Some(b));
    } else if b.len() == 1 {
        let n = b[0] as int;
        lemma_b64_val_of_char(n / 4);
        lemma_b64_val_of_char((n % 4) * 16);
        assert(((n % 4) * 16) % 16 == 0 && ((n % 4) * 16) / 16 == n % 4) by (nonlinear_arith);
        assert((n / 4) * 4 + n % 4 == n) by (nonlinear_arith);
        assert(spec_b64_decode(enc).unwrap() =~= b);
    } else if b.len() == 2 {
        let n = b[0] as int * 256 + b[1] as int;
        lemma_b64_val_of_char(n / 1024);
        lemma_b64_val_of_char((n / 16) % 64);
        lemma_b64_val_of_char((n % 16) * 4);
        assert(((n % 16) * 4) % 4 == 0 && ((n % 16) * 4) / 4 == n % 16) by (nonlinear_arith);
        assert((n / 1024) * 1024 + ((n / 16) % 64) * 16 + n % 16 == n) by (nonlinear_arith)
            requires
                0 <= n < 65536,
        ;
        assert(n / 256 == b[0] && n % 256 == b[1]) by (nonlinear_arith)
            requires
                n == b[0] as int * 256 + b[1] as int,
                0 <= (b[0] as int) < 256,
                0 <= (b[1] as int) < 256,
        ;
        assert(spec_b64_decode(enc).unwrap() =~= b);
    } else {
        let n = b[0] as int * 65536 + b[1] as int * 256 + b[2] as int;
        lemma_b64_val_of_char(n / 262144);
        lemma_b64_val_of_char((n / 4096) % 64);
        lemma_b64_val_of_char((n / 64) % 64);
        lemma_b64_val_of_char(n % 64);
        lemma_base64_round_trip(b.skip(3));
        let group = seq![
            crate::json::spec_b64_char(n / 262144),
            crate::json::spec_b64_char((n / 4096) % 64),
            crate::json::spec_b64_char((n / 64) % 64),
            crate::json::spec_b64_char(n % 64),
        ];
        assert(enc =~= group + crate::json::spec_base64(b.skip(3)));
        assert(enc.skip(4) =~= crate::json::spec_base64(b.skip(3)));
        let v0 = n / 262144;
        let v1 = (n / 4096) % 64;
        let v2 = (n / 64) % 64;
        let v3 = n % 64;
        assert(v0 * 262144 + v1 * 4096 + v2 * 64 + v3 == n) by (nonlinear_arith)
            requires
                0 <= n < 16777216,
                v0 == n / 262144,
                v1 == (n / 4096) % 64,
                v2 == (n / 64) % 64,
                v3 == n % 64,
        ;
        assert(n / 65536 == b[0] && (n / 256) % 256 == b[1] && n % 256 == b[2]) by (nonlinear_arith)
            requires
                n == b[0] as int * 65536 + b[1] as int * 256 + b[2] as int,
                0 <= (b[0] as int) < 256,
                0 <= (b[1] as int) < 256,
                0 <= (b[2] as int) < 256,
        ;
        if b.len() == 3 {
            assert(spec_b64_decode(enc).unwrap() =~= b);
        } else {
            assert(seq![b[0], b[1], b[2]] + b.skip(3) =~= b);
            assert(spec_b64_decode(enc).unwrap() =~= b);
        }
    }
}

proof fn lemma_char_code_bounds(c: char)
    ensures
        0 <= c as int <= 0x10FFFF,
{
}

pub proof fn lemma_hex_val_of_upper(v: int)
    requires
        0 <= v < 16,
    ensures
        spec_hex_val(crate::json::spec_hex_upper(v)) == Some(v),
{
}

/// Unescaping inverts escaping, one string literal at a time: wherever
/// the escaped form of `s` followed by a closing quote stands in `t`, the
/// literal parser reads back exactly `s` and stops after that quote.
pub proof fn lemma_escape_round_trip_at(t: Seq<char>, i: int, s: Seq<char>)
    requires
        0 <= i,
        i + crate::json::spec_escape(s).len() + 1 <= t.len(),
        t.subrange(i, i + crate::json::spec_escape(s).len() + 1) == crate::json::spec_escape(
            s,
        ).push('"'),
    ensures
        spec_jstring_body(t, i) == Some((s, i + crate::json::spec_escape(s).len() + 1)),
    decreases s.len(),
{
    let esc = crate::json::spec_escape(s);
    let window = t.subrange(i, i + esc.len() + 1);
    if s.len() == 0 {
        assert(t[i] == window[0]);
        assert(spec_jstring_body(t, i).unwrap().0 =~= s);
    } else {
        let c = s[0];
        let e = crate::json::spec_escape_char(c);
        let rest = crate::json::spec_escape(s.skip(1));
        assert(esc == e + rest);
        let j = i + e.len();
        assert forall|k: int| 0 <= k < e.len() implies t[i + k] == e[k] by {
            assert(window[k] == t[i + k]);
            assert((e + rest).push('"')[k] == e[k]);
        }
        assert(t.subrange(j, j + rest.len() + 1) =~= rest.push('"')) by {
            assert forall|k: int| 0 <= k < rest.len() + 1 implies t.subrange(
                j,
                j + rest.len() + 1,
            )[k] == rest.push('"')[k] by {
                assert(t.subrange(j, j + rest.len() + 1)[k] == t[j + k]);
                assert(t[j + k] == window[e.len() + k]);
                assert(window[e.len() + k] == (e + rest).push('"')[e.len() + k]);
            }
        }
        lemma_escape_round_trip_at(t, j, s.skip(1));
        assert(t[i + 0] == e[0]);
        if c == '"' || c == '\\' || c == '\u{0008}' || c == '\u{0009}' || c == '\u{000A}' || c
            == '\u{000C}' || c == '\u{000D}' {
            assert(t[i] == '\\');
            assert(spec_unescape2(t[i + 1]) == Some(c));
            assert(spec_jstring_body(t, i).unwrap().0 =~= s);
        } else if (c as int) < 0x20 {
            let hi = (c as int) / 16;
            let lo = (c as int) % 16;
            lemma_char_code_bounds(c);
            lemma_hex_val_of_upper(hi);
            lemma_hex_val_of_upper(lo);
            assert(t[i] == '\\' && t[i + 1] == 'u' && t[i + 2] == '0' && t[i + 3] == '0');
            assert(t[i + 4] == crate::json::spec_hex_upper(hi));
            assert(t[i + 5] == crate::json::spec_hex_upper(lo));
            assert(hi * 16 + lo == c as int);
            assert(((hi * 16 + lo) as char) == c);
            assert(spec_jstring_body(t, i).unwrap().0 =~= s);
        } else {
            assert(t[i] == c);
            assert(spec_jstring_body(t, i).unwrap().0 =~= s);
        }
    }
}

/// A string literal written by the encoder reads back unchanged: parsing
/// the quoted, escaped form of `s` yields exactly `s` and consumes the
/// whole literal.
pub proof fn lemma_json_string_round_trip(s: Seq<char>)
    ensures
        spec_parse_jstring(crate::json::spec_json_string(s), 0) == Some(
            (s, crate::json::spec_json_string(s).len() as int),
        ),
{
    let text = crate::json::spec_json_string(s);
    assert(text[0] == '"');
    assert(text.subrange(1, 1 + crate::json::spec_escape(s).len() as int + 1)
        =~= crate::json::spec_escape(s).push('"'));
    lemma_escape_round_trip_at(text, 1, s);
}

/// The `{"balance": "<amount>"}` document: the reported balance, or
/// nothing when the characters are not such a document.
pub open spec fn spec_parse_balance(s: Seq<char>) -> Option<u128> {
    let i0 = spec_skip_ws(s, 0);
    if !spec_match_at(s, i0, "{"@) {
        None
    } else {
        let i1 = spec_skip_ws(s, i0 + 1);
        if !spec_match_at(s, i1, "\"balance\""@) {
            None
        } else {
            let i2 = spec_skip_ws(s, i1 + "\"balance\""@.len());
            if !spec_match_at(s, i2, ":"@) {
                None
            } else {
                match spec_parse_quoted_amount(s, spec_skip_ws(s, i2 + 1)) {
                    Option::None => None,
                    Option::Some(p) => if spec_parse_end(s, p.1) {
                        Some(p.0)
                    } else {
                        None
                    },
                }
            }
        }
    }
}

/// Decodes the balance query's response: the token balance the contract
/// reported, or a decode error when the document has any other shape.
pub fn decode_balance(s: &str) -> (r: Result<u128, RwaError>)
    ensures
        spec_parse_balance(s@) matches Some(v) ==> (r matches Ok(b) && b == v),
        spec_parse_balance(s@) is None ==> (r matches Err(e) && e is DecodeError),
{
    let n = s.unicode_len();
    proof {
        lemma_skip_ws_bounds(s@, 0);
    }
    let i0 = skip_ws(s, 0);
    if !match_at(s, i0, "{") {
        return Err(RwaError::DecodeError(String::from_str("malformed balance response")));
    }
    proof {
        reveal_strlit("{");
        lemma_skip_ws_bounds(s@, i0 as int + 1);
    }
    let i1 = skip_ws(s, i0 + 1);
    if !match_at(s, i1, "\"balance\"") {
        return Err(RwaError::DecodeError(String::from_str("malformed balance response")));
    }
    let key_len = "\"balance\"".unicode_len();
    proof {
        lemma_skip_ws_bounds(s@, i1 as int + key_len as int);
    }
    let i2 = skip_ws(s, i1 + key_len);
    if !match_at(s, i2, ":") {
        return Err(RwaError::DecodeError(String::from_str("malformed balance response")));
    }
    proof {
        reveal_strlit(":");
        lemma_skip_ws_bounds(s@, i2 as int + 1);
    }
    let i3 = skip_ws(s, i2 + 1);
    match parse_quoted_amount(s, i3) {
        Some(p) => {
            if parse_end(s, p.1) {
                Ok(p.0)
            } else {
                Err(RwaError::DecodeError(String::from_str("malformed balance response")))
            }
        },
        None => Err(RwaError::DecodeError(String::from_str("malformed balance response"))),
    }
}

/// The token metadata document: name, symbol, decimals and total supply,
/// in the order the token contract reports them, or nothing when the
/// characters are not such a document.
pub open spec fn spec_parse_token_info(s: Seq<char>) -> Option<(Seq<char>, Seq<char>, u8, u128)> {
    let i0 = spec_skip_ws(s, 0);
    if !spec_match_at(s, i0, "{"@) {
        None
    } else {
        let i1 = spec_skip_ws(s, i0 + 1);
        if !spec_match_at(s, i1, "\"name\""@) {
            None
        } else {
            let i2 = spec_skip_ws(s, i1 + "\"name\""@.len());
            if !spec_match_at(s, i2, ":"@) {
                None
            } else {
                match spec_parse_jstring(s, spec_skip_ws(s, i2 + 1)) {
                    Option::None => None,
                    Option::Some(name_p) => spec_parse_token_info_after_name(s, name_p),
                }
            }
        }
    }
}

/// Continues the token metadata document after the name member.
pub open spec fn spec_parse_token_info_after_name(s: Seq<char>, name_p: (Seq<char>, int)) -> Option<
    (Seq<char>, Seq<char>, u8, u128),
> {
    let i3 = spec_skip_ws(s, name_p.1);
    if !spec_match_at(s, i3, ","@) {
        None
    } else {
        let i4 = spec_skip_ws(s, i3 + 1);
        if !spec_match_at(s, i4, "\"symbol\""@) {
            None
        } else {
            let i5 = spec_skip_ws(s, i4 + "\"symbol\""@.len());
            if !spec_match_at(s, i5, ":"@) {
                None
            } else {
                match spec_parse_jstring(s, spec_skip_ws(s, i5 + 1)) {
                    Option::None => None,
                    Option::Some(sym_p) => spec_parse_token_info_after_symbol(s, name_p.0, sym_p),
                }
            }
        }
    }
}

/// Continues the token metadata document after the symbol member.
pub open spec fn spec_parse_token_info_after_symbol(
    s: Seq<char>,
    name: Seq<char>,
    sym_p: (Seq<char>, int),
) -> Option<(Seq<char>, Seq<char>, u8, u128)> {
    let i6 = spec_skip_ws(s, sym_p.1);
    if !spec_match_at(s, i6, ","@) {
        None
    } else {
        let i7 = spec_skip_ws(s, i6 + 1);
        if !spec_match_at(s, i7, "\"decimals\""@) {
            None
        } else {
            let i8 = spec_skip_ws(s, i7 + "\"decimals\""@.len());
            if !spec_match_at(s, i8, ":"@) {
                None
            } else {
                match spec_parse_bare_amount(s, spec_skip_ws(s, i8 + 1)) {
                    Option::None => None,
                    Option::Some(dec_p) => if dec_p.0 > 255 {
                        None
                    } else {
                        spec_parse_token_info_supply(s, name, sym_p.0, dec_p.0 as u8, dec_p.1)
                    },
                }
            }
        }
    }
}

/// Finishes the token metadata document with the total-supply member.
pub open spec fn spec_parse_token_info_supply(
    s: Seq<char>,
    name: Seq<char>,
    symbol: Seq<char>,
    decimals: u8,
    i: int,
) -> Option<(Seq<char>, Seq<char>, u8, u128)> {
    let i9 = spec_skip_ws(s, i);
    if !spec_match_at(s, i9, ","@) {
        None
    } else {
        let i10 = spec_skip_ws(s, i9 + 1);
        if !spec_match_at(s, i10, "\"total_supply\""@) {
            None
        } else {
            let i11 = spec_skip_ws(s, i10 + "\"total_supply\""@.len());
            if !spec_match_at(s, i11, ":"@) {
                None
            } else {
                match spec_parse_quoted_amount(s, spec_skip_ws(s, i11 + 1)) {
                    Option::None => None,
                    Option::Some(sup_p) => if spec_parse_end(s, sup_p.1) {
                        Some((name, symbol, decimals, sup_p.0))
                    } else {
                        None
                    },
                }
            }
        }
    }
}

/// A claim as the identity contract reports it: topic, issuer, decoded
/// payload and evidence reference.
pub open spec fn spec_parse_claim(s: Seq<char>, i: int) -> Option<
    ((u128, Seq<char>, Seq<u8>, Seq<char>), int),
> {
    let i0 = spec_skip_ws(s, i);
    if !spec_match_at(s, i0, "{"@) {
        None
    } else {
        let i1 = spec_skip_ws(s, i0 + 1);
        if !spec_match_at(s, i1, "\"topic\""@) {
            None
        } else {
            let i2 = spec_skip_ws(s, i1 + "\"topic\""@.len());
            if !spec_match_at(s, i2, ":"@) {
                None
            } else {
                match spec_parse_quoted_amount(s, spec_skip_ws(s, i2 + 1)) {
                    Option::None => None,
                    Option::Some(topic_p) => spec_parse_claim_issuer(s, topic_p),
                }
            }
        }
    }
}

/// Continues a claim object after the topic member.
pub open spec fn spec_parse_claim_issuer(s: Seq<char>, topic_p: (u128, int)) -> Option<
    ((u128, Seq<char>, Seq<u8>, Seq<char>), int),
> {
    let i3 = spec_skip_ws(s, topic_p.1);
    if !spec_match_at(s, i3, ","@) {
        None
    } else {
        let i4 = spec_skip_ws(s, i3 + 1);
        if !spec_match_at(s, i4, "\"issuer\""@) {
            None
        } else {
            let i5 = spec_skip_ws(s, i4 + "\"issuer\""@.len());
            if !spec_match_at(s, i5, ":"@) {
                None
            } else {
                match spec_parse_jstring(s, spec_skip_ws(s, i5 + 1)) {
                    Option::None => None,
                    Option::Some(issuer_p) => spec_parse_claim_data(s, topic_p.0, issuer_p),
                }
            }
        }
    }
}

/// Continues a claim object after the issuer member; the data member is a
/// base64 string holding the claim's payload bytes.
pub open spec fn spec_parse_claim_data(
    s: Seq<char>,
    topic: u128,
    issuer_p: (Seq<char>, int),
) -> Option<((u128, Seq<char>, Seq<u8>, Seq<char>), int)> {
    let i6 = spec_skip_ws(s, issuer_p.1);
    if !spec_match_at(s, i6, ","@) {
        None
    } else {
        let i7 = spec_skip_ws(s, i6 + 1);
        if !spec_match_at(s, i7, "\"data\""@) {
            None
        } else {
            let i8 = spec_skip_ws(s, i7 + "\"data\""@.len());
            if !spec_match_at(s, i8, ":"@) {
                None
            } else {
                match spec_parse_jstring(s, spec_skip_ws(s, i8 + 1)) {
                    Option::None => None,
                    Option::Some(data_p) => match spec_b64_decode(data_p.0) {
                        Option::None => None,
                        Option::Some(bytes) => spec_parse_claim_uri(
                            s,
                            topic,
                            issuer_p.0,
                            bytes,
                            data_p.1,
                        ),
                    },
                }
            }
        }
    }
}

/// Finishes a claim object with the uri member and the closing brace.
pub open spec fn spec_parse_claim_uri(
    s: Seq<char>,
    topic: u128,
    issuer: Seq<char>,
    data: Seq<u8>,
    i: int,
) -> Option<((u128, Seq<char>, Seq<u8>, Seq<char>), int)> {
    let i9 = spec_skip_ws(s, i);
    if !spec_match_at(s, i9, ","@) {
        None
    } else {
        let i10 = spec_skip_ws(s, i9 + 1);
        if !spec_match_at(s, i10, "\"uri\""@) {
            None
        } else {
            let i11 = spec_skip_ws(s, i10 + "\"uri\""@.len());
            if !spec_match_at(s, i11, ":"@) {
                None
            } else {
                match spec_parse_jstring(s, spec_skip_ws(s, i11 + 1)) {
                    Option::None => None,
                    Option::Some(uri_p) => {
                        let i12 = spec_skip_ws(s, uri_p.1);
                        if spec_match_at(s, i12, "}"@) {
                            Some(((topic, issuer, data, uri_p.0), i12 + 1))
                        } else {
                            None
                        }
                    },
                }
            }
        }
    }
}

/// A comma-separated run of one or more claim objects starting at `i`:
/// the claims and the position after the last one. The fuel bounds the
/// run's length; the library calls this with the document's length, which
/// no well-formed run can reach.
pub open spec fn spec_parse_claim_seq(s: Seq<char>, i: int, fuel: nat) -> Option<
    (Seq<(u128, Seq<char>, Seq<u8>, Seq<char>)>, int),
>
    decreases fuel,
{
    match spec_parse_claim(s, i) {
        Option::None => None,
        Option::Some(claim_p) => {
            let k = spec_skip_ws(s, claim_p.1);
            if spec_match_at(s, k, ","@) {
                if fuel == 0 {
                    None
                } else {
                    match spec_parse_claim_seq(s, k + 1, (fuel - 1) as nat) {
                        Option::None => None,
                        Option::Some(rest_p) => Some((seq![claim_p.0] + rest_p.0, rest_p.1)),
                    }
                }
            } else {
                Some((seq![claim_p.0], claim_p.1))
            }
        },
    }
}

/// The validated-claims document: a JSON array of claim objects, or
/// nothing when the characters are not such a document.
pub open spec fn spec_parse_validated_claims(s: Seq<char>) -> Option<
    Seq<(u128, Seq<char>, Seq<u8>, Seq<char>)>,
> {
    let i0 = spec_skip_ws(s, 0);
    if !spec_match_at(s, i0, "["@) {
        None
    } else {
        let i1 = spec_skip_ws(s, i0 + 1);
        if spec_match_at(s, i1, "]"@) {
            if spec_skip_ws(s, i1 + 1) == s.len() {
                Some(Seq::empty())
            } else {
                None
            }
        } else {
            match spec_parse_claim_seq(s, i0 + 1, s.len() as nat) {
                Option::None => None,
                Option::Some(claims_p) => {
                    let k = spec_skip_ws(s, claims_p.1);
                    if spec_match_at(s, k, "]"@) && spec_skip_ws(s, k + 1) == s.len() {
                        Some(claims_p.0)
                    } else {
                        None
                    }
                },
            }
        }
    }
}

/// The claims of a vector, as the tuples the specification parsers speak
/// of.
pub open spec fn spec_claim_views(v: Seq<crate::identity::Claim>) -> Seq<
    (u128, Seq<char>, Seq<u8>, Seq<char>),
> {
    v.map_values(|c: crate::identity::Claim| (c.topic, c.issuer@, c.data@, c.uri@))
}

#[verifier::rlimit(60)]
fn parse_claim(s: &str, i: usize) -> (r: Option<(crate::identity::Claim, usize)>)
    requires
        i as int <= s@.len(),
    ensures
        match spec_parse_claim(s@, i as int) {
            Option::Some(p) => r matches Some(q) && q.0.topic == p.0.0 && q.0.issuer@ == p.0.1
                && q.0.data@ == p.0.2 && q.0.uri@ == p.0.3 && q.1 == p.1 && q.1 as int <= s@.len(),
            Option::None => r is None,
        },
{
    let n = s.unicode_len();
    proof {
        lemma_skip_ws_bounds(s@, i as int);
    }
    let i0 = skip_ws(s, i);
    if !match_at(s, i0, "{") {
        return None;
    }
    proof {
        reveal_strlit("{");
        lemma_skip_ws_bounds(s@, i0 as int + 1);
    }
    let i1 = skip_ws(s, i0 + 1);
    if !match_at(s, i1, "\"topic\"") {
        return None;
    }
    let topic_key_len = "\"topic\"".unicode_len();
    proof {
        lemma_skip_ws_bounds(s@, i1 as int + topic_key_len as int);
    }
    let i2 = skip_ws(s, i1 + topic_key_len);
    if !match_at(s, i2, ":") {
        return None;
    }
    proof {
        reveal_strlit(":");
        lemma_skip_ws_bounds(s@, i2 as int + 1);
    }
    let topic_p = match parse_quoted_amount(s, skip_ws(s, i2 + 1)) {
        Some(p) => p,
        None => {
            return None;
        },
    };
    proof {
        lemma_skip_ws_bounds(s@, topic_p.1 as int);
    }
    let i3 = skip_ws(s, topic_p.1);
    if !match_at(s, i3, ",") {
        return None;
    }
    proof {
        reveal_strlit(",");
        lemma_skip_ws_bounds(s@, i3 as int + 1);
    }
    let i4 = skip_ws(s, i3 + 1);
    if !match_at(s, i4, "\"issuer\"") {
        return None;
    }
    let issuer_key_len = "\"issuer\"".unicode_len();
    proof {
        lemma_skip_ws_bounds(s@, i4 as int + issuer_key_len as int);
    }
    let i5 = skip_ws(s, i4 + issuer_key_len);
    if !match_at(s, i5, ":") {
        return None;
    }
    proof {
        lemma_skip_ws_bounds(s@, i5 as int + 1);
    }
    let issuer_p = match parse_jstring(s, skip_ws(s, i5 + 1)) {
        Some(p) => p,
        None => {
            return None;
        },
    };
    proof {
        lemma_skip_ws_bounds(s@, issuer_p.1 as int);
    }
    let i6 = skip_ws(s, issuer_p.1);
    if !match_at(s, i6, ",") {
        return None;
    }
    proof {
        lemma_skip_ws_bounds(s@, i6 as int + 1);
    }
    let i7 = skip_ws(s, i6 + 1);
    if !match_at(s, i7, "\"data\"") {
        return None;
    }
    let data_key_len = "\"data\"".unicode_len();
    proof {
        lemma_skip_ws_bounds(s@, i7 as int + data_key_len as int);
    }
    let i8 = skip_ws(s, i7 + data_key_len);
    if !match_at(s, i8, ":") {
        return None;
    }
    proof {
        lemma_skip_ws_bounds(s@, i8 as int + 1);
    }
    let data_p = match parse_jstring(s, skip_ws(s, i8 + 1)) {
        Some(p) => p,
        None => {
            return None;
        },
    };
    let mut data_bytes: Vec<u8> = Vec::new();
    if !b64_decode_into(data_p.0.as_str(), 0, &mut data_bytes) {
        proof {
            assert(data_p.0@.skip(0) =~= data_p.0@);
        }
        return None;
    }
    proof {
        assert(data_p.0@.skip(0) =~= data_p.0@);
        assert(data_bytes@ =~= spec_b64_decode(data_p.0@).unwrap());
    }
    proof {
        lemma_skip_ws_bounds(s@, data_p.1 as int);
    }
    let i9 = skip_ws(s, data_p.1);
    if !match_at(s, i9, ",") {
        return None;
    }
    proof {
        lemma_skip_ws_bounds(s@, i9 as int + 1);
    }
    let i10 = skip_ws(s, i9 + 1);
    if !match_at(s, i10, "\"uri\"") {
        return None;
    }
    let uri_key_len = "\"uri\"".unicode_len();
    proof {
        lemma_skip_ws_bounds(s@, i10 as int + uri_key_len as int);
    }
    let i11 = skip_ws(s, i10 + uri_key_len);
    if !match_at(s, i11, ":") {
        return None;
    }
    proof {
        lemma_skip_ws_bounds(s@, i11 as int + 1);
    }
    let uri_p = match parse_jstring(s, skip_ws(s, i11 + 1)) {
        Some(p) => p,
        None => {
            return None;
        },
    };
    proof {
        lemma_skip_ws_bounds(s@, uri_p.1 as int);
    }
    let i12 = skip_ws(s, uri_p.1);
    if !match_at(s, i12, "}") {
        return None;
    }
    proof {
        reveal_strlit("}");
    }
    let claim = crate::identity::Claim {
        topic: topic_p.0,
        issuer: issuer_p.0,
        data: data_bytes,
        uri: uri_p.0,
    };
    Some((claim, i12 + 1))
}

fn parse_claim_seq(s: &str, i: usize, fuel: usize, out: &mut Vec<crate::identity::Claim>) -> (r:
    Option<usize>)
    requires
        i as int <= s@.len(),
    ensures
        match spec_parse_claim_seq(s@, i as int, fuel as nat) {
            Option::Some(p) => r matches Some(j) && j == p.1 && j as int <= s@.len()
                && spec_claim_views(final(out)@) == spec_claim_views(old(out)@) + p.0,
            Option::None => r is None,
        },
    decreases fuel,
{
    let n = s.unicode_len();
    let claim_p = match parse_claim(s, i) {
        Some(p) => p,
        None => {
            return None;
        },
    };
    out.push(claim_p.0);
    let ghost pushed = out@;
    proof {
        assert(spec_claim_views(pushed) =~= spec_claim_views(old(out)@) + seq![
            (claim_p.0.topic, claim_p.0.issuer@, claim_p.0.data@, claim_p.0.uri@),
        ]);
        lemma_skip_ws_bounds(s@, claim_p.1 as int);
    }
    let k = skip_ws(s, claim_p.1);
    if match_at(s, k, ",") {
        if fuel == 0 {
            return None;
        }
        proof {
            reveal_strlit(",");
        }
        match parse_claim_seq(s, k + 1, fuel - 1, out) {
            Some(j) => {
                proof {
                    let p = spec_parse_claim_seq(s@, i as int, fuel as nat).unwrap();
                    assert(spec_claim_views(out@) =~= spec_claim_views(old(out)@) + p.0);
                }
                Some(j)
            },
            None => None,
        }
    } else {
        Some(claim_p.1)
    }
}

/// Decodes the validated-claims query's response into the claims the
/// identity contract reported — topic, issuer, payload bytes and evidence
/// reference each — or a decode error when the document has any other
/// shape.
pub fn decode_validated_claims(s: &str) -> (r: Result<Vec<crate::identity::Claim>, RwaError>)
    ensures
        spec_parse_validated_claims(s@) matches Some(cs) ==> (r matches Ok(v) && spec_claim_views(
            v@,
        ) == cs),
        spec_parse_validated_claims(s@) is None ==> (r matches Err(e) && e is DecodeError),
{
    let n = s.unicode_len();
    proof {
        lemma_skip_ws_bounds(s@, 0);
    }
    let i0 = skip_ws(s, 0);
    if !match_at(s, i0, "[") {
        return Err(RwaError::DecodeError(String::from_str("malformed claims response")));
    }
    proof {
        reveal_strlit("[");
        lemma_skip_ws_bounds(s@, i0 as int + 1);
    }
    let i1 = skip_ws(s, i0 + 1);
    if match_at(s, i1, "]") {
        proof {
            reveal_strlit("]");
            lemma_skip_ws_bounds(s@, i1 as int + 1);
        }
        if skip_ws(s, i1 + 1) == n {
            let empty: Vec<crate::identity::Claim> = Vec::new();
            proof {
                assert(spec_claim_views(empty@) =~= Seq::<
                    (u128, Seq<char>, Seq<u8>, Seq<char>),
                >::empty());
            }
            return Ok(empty);
        } else {
            return Err(RwaError::DecodeError(String::from_str("malformed claims response")));
        }
    }
    let mut out: Vec<crate::identity::Claim> = Vec::new();
    let ghost before = out@;
    let j = match parse_claim_seq(s, i0 + 1, n, &mut out) {
        Some(j) => j,
        None => {
            return Err(RwaError::DecodeError(String::from_str("malformed claims response")));
        },
    };
    proof {
        lemma_skip_ws_bounds(s@, j as int);
    }
    let k = skip_ws(s, j);
    if !match_at(s, k, "]") {
        return Err(RwaError::DecodeError(String::from_str("malformed claims response")));
    }
    proof {
        reveal_strlit("]");
        lemma_skip_ws_bounds(s@, k as int + 1);
    }
    if skip_ws(s, k + 1) == n {
        proof {
            let cs = spec_parse_validated_claims(s@).unwrap();
            assert(spec_claim_views(before) =~= Seq::<
                (u128, Seq<char>, Seq<u8>, Seq<char>),
            >::empty());
            assert(spec_claim_views(out@) =~= cs);
        }
        Ok(out)
    } else {
        Err(RwaError::DecodeError(String::from_str("malformed claims response")))
    }
}

/// Decodes the token metadata query's response into the token's name,
/// symbol, decimals and total supply, or a decode error when the document
/// has any other shape.
pub fn decode_token_info(s: &str) -> (r: Result<crate::token::TokenInfo, RwaError>)
    ensures
        spec_parse_token_info(s@) matches Some(t) ==> (r matches Ok(info) && info.name@ == t.0
            && info.symbol@ == t.1 && info.decimals == t.2 && info.total_supply == t.3),
        spec_parse_token_info(s@) is None ==> (r matches Err(e) && e is DecodeError),
{
    let n = s.unicode_len();
    proof {
        lemma_skip_ws_bounds(s@, 0);
    }
    let i0 = skip_ws(s, 0);
    if !match_at(s, i0, "{") {
        return Err(RwaError::DecodeError(String::from_str("malformed token info response")));
    }
    proof {
        reveal_strlit("{");
        lemma_skip_ws_bounds(s@, i0 as int + 1);
    }
    let i1 = skip_ws(s, i0 + 1);
    if !match_at(s, i1, "\"name\"") {
        return Err(RwaError::DecodeError(String::from_str("malformed token info response")));
    }
    let name_key_len = "\"name\"".unicode_len();
    proof {
        lemma_skip_ws_bounds(s@, i1 as int + name_key_len as int);
    }
    let i2 = skip_ws(s, i1 + name_key_len);
    if !match_at(s, i2, ":") {
        return Err(RwaError::DecodeError(String::from_str("malformed token info response")));
    }
    proof {
        reveal_strlit(":");
        lemma_skip_ws_bounds(s@, i2 as int + 1);
    }
    let name_p = match parse_jstring(s, skip_ws(s, i2 + 1)) {
        Some(p) => p,
        None => {
            return Err(RwaError::DecodeError(String::from_str("malformed token info response")));
        },
    };
    proof {
        lemma_skip_ws_bounds(s@, name_p.1 as int);
    }
    let i3 = skip_ws(s, name_p.1);
    if !match_at(s, i3, ",") {
        return Err(RwaError::DecodeError(String::from_str("malformed token info response")));
    }
    proof {
        reveal_strlit(",");
        lemma_skip_ws_bounds(s@, i3 as int + 1);
    }
    let i4 = skip_ws(s, i3 + 1);
    if !match_at(s, i4, "\"symbol\"") {
        return Err(RwaError::DecodeError(String::from_str("malformed token info response")));
    }
    let sym_key_len = "\"symbol\"".unicode_len();
    proof {
        lemma_skip_ws_bounds(s@, i4 as int + sym_key_len as int);
    }
    let i5 = skip_ws(s, i4 + sym_key_len);
    if !match_at(s, i5, ":") {
        return Err(RwaError::DecodeError(String::from_str("malformed token info response")));
    }
    proof {
        lemma_skip_ws_bounds(s@, i5 as int + 1);
    }
    let sym_p = match parse_jstring(s, skip_ws(s, i5 + 1)) {
        Some(p) => p,
        None => {
            return Err(RwaError::DecodeError(String::from_str("malformed token info response")));
        },
    };
    proof {
        lemma_skip_ws_bounds(s@, sym_p.1 as int);
    }
    let i6 = skip_ws(s, sym_p.1);
    if !match_at(s, i6, ",") {
        return Err(RwaError::DecodeError(String::from_str("malformed token info response")));
    }
    proof {
        lemma_skip_ws_bounds(s@, i6 as int + 1);
    }
    let i7 = skip_ws(s, i6 + 1);
    if !match_at(s, i7, "\"decimals\"") {
        return Err(RwaError::DecodeError(String::from_str("malformed token info response")));
    }
    let dec_key_len = "\"decimals\"".unicode_len();
    proof {
        lemma_skip_ws_bounds(s@, i7 as int + dec_key_len as int);
    }
    let i8 = skip_ws(s, i7 + dec_key_len);
    if !match_at(s, i8, ":") {
        return Err(RwaError::DecodeError(String::from_str("malformed token info response")));
    }
    proof {
        lemma_skip_ws_bounds(s@, i8 as int + 1);
    }
    let dec_p = match parse_bare_amount(s, skip_ws(s, i8 + 1)) {
        Some(p) => p,
        None => {
            return Err(RwaError::DecodeError(String::from_str("malformed token info response")));
        },
    };
    if dec_p.0 > 255 {
        return Err(RwaError::DecodeError(String::from_str("malformed token info response")));
    }
    proof {
        lemma_skip_ws_bounds(s@, dec_p.1 as int);
    }
    let i9 = skip_ws(s, dec_p.1);
    if !match_at(s, i9, ",") {
        return Err(RwaError::DecodeError(String::from_str("malformed token info response")));
    }
    proof {
        lemma_skip_ws_bounds(s@, i9 as int + 1);
    }
    let i10 = skip_ws(s, i9 + 1);
    if !match_at(s, i10, "\"total_supply\"") {
        return Err(RwaError::DecodeError(String::from_str("malformed token info response")));
    }
    let sup_key_len = "\"total_supply\"".unicode_len();
    proof {
        lemma_skip_ws_bounds(s@, i10 as int + sup_key_len as int);
    }
    let i11 = skip_ws(s, i10 + sup_key_len);
    if !match_at(s, i11, ":") {
        return Err(RwaError::DecodeError(String::from_str("malformed token info response")));
    }
    proof {
        lemma_skip_ws_bounds(s@, i11 as int + 1);
    }
    let sup_p = match parse_quoted_amount(s, skip_ws(s, i11 + 1)) {
        Some(p) => p,
        None => {
            return Err(RwaError::DecodeError(String::from_str("malformed token info response")));
        },
    };
    if parse_end(s, sup_p.1) {
        Ok(
            crate::token::TokenInfo {
                name: name_p.0,
                symbol: sym_p.0,
                decimals: dec_p.0 as u8,
                total_supply: sup_p.0,
            },
        )
    } else {
        Err(RwaError::DecodeError(String::from_str("malformed token info response")))
    }
}

} // verus!
