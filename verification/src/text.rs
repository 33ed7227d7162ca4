//! Character-level text handling: trimming surrounding whitespace and
//! recognising the strings that parse as floating-point numbers.
//!
//! Raw acquired text is trimmed before digestion. A `Raw` digestion rule emits
//! a measurement only when the whole trimmed text is a well-formed float
//! literal; `is_float_literal` states that grammar (an optional sign, then
//! `inf`, `infinity` or `nan` in any case, or digits with an optional point
//! and an optional exponent), and `parses_as_float` decides it.

use vstd::prelude::*;
use vstd::string::*;

verus! {

/// The whitespace characters that trimming removes (the Unicode `White_Space`
/// set, as `str::trim` uses).
pub open spec fn is_space_char(c: char) -> bool {
    let n = c as u32;
    n == 0x20 || n == 0x9 || n == 0xa || n == 0xb || n == 0xc || n == 0xd || n == 0x85
        || n == 0xa0 || n == 0x1680 || (0x2000 <= n && n <= 0x200a) || n == 0x2028
        || n == 0x2029 || n == 0x202f || n == 0x205f || n == 0x3000
}

fn char_is_space(c: char) -> (r: bool)
    ensures
        r == is_space_char(c),
{
    let n = c as u32;
    n == 0x20 || n == 0x9 || n == 0xa || n == 0xb || n == 0xc || n == 0xd || n == 0x85
        || n == 0xa0 || n == 0x1680 || (0x2000 <= n && n <= 0x200a) || n == 0x2028
        || n == 0x2029 || n == 0x202f || n == 0x205f || n == 0x3000
}

/// The first index at or after `i` holding a non-whitespace character.
pub open spec fn ws_prefix_end(s: Seq<char>, i: int) -> int
    decreases s.len() - i,
{
    if i < s.len() && is_space_char(s[i]) {
        ws_prefix_end(s, i + 1)
    } else {
        i
    }
}

/// The last index at or before `i` such that the character just before it is
/// not whitespace.
pub open spec fn ws_suffix_start(s: Seq<char>, i: int) -> int
    decreases i,
{
    if i > 0 && is_space_char(s[i - 1]) {
        ws_suffix_start(s, i - 1)
    } else {
        i
    }
}

/// The text with surrounding whitespace removed.
pub open spec fn trim_spec(s: Seq<char>) -> Seq<char> {
    let a = ws_prefix_end(s, 0);
    let b = ws_suffix_start(s, s.len() as int);
    if a < b {
        s.subrange(a, b)
    } else {
        Seq::empty()
    }
}

proof fn lemma_ws_prefix_end_bounds(s: Seq<char>, i: int)
    requires
        0 <= i <= s.len(),
    ensures
        i <= ws_prefix_end(s, i) <= s.len(),
    decreases s.len() - i,
{
    if i < s.len() && is_space_char(s[i]) {
        lemma_ws_prefix_end_bounds(s, i + 1);
    }
}

proof fn lemma_ws_suffix_start_bounds(s: Seq<char>, i: int)
    requires
        0 <= i <= s.len(),
    ensures
        0 <= ws_suffix_start(s, i) <= i,
    decreases i,
{
    if i > 0 && is_space_char(s[i - 1]) {
        lemma_ws_suffix_start_bounds(s, i - 1);
    }
}

/// Remove the whitespace around `s`, as `trim_spec` states.
pub fn trim_of<'a>(s: &'a str) -> (r: &'a str)
    ensures
        r@ == trim_spec(s@),
{
    let n = s.unicode_len();
    let mut a: usize = 0;
    while a < n && char_is_space(s.get_char(a))
        invariant
            n == s@.len(),
            0 <= a <= n,
            ws_prefix_end(s@, 0) == ws_prefix_end(s@, a as int),
        decreases n - a,
    {
        a = a + 1;
    }
    let mut b: usize = n;
    while b > a && char_is_space(s.get_char(b - 1))
        invariant
            n == s@.len(),
            0 <= a <= b <= n,
            a < n ==> !is_space_char(s@[a as int]),
            a < n ==> a + 1 <= b,
            ws_suffix_start(s@, n as int) == ws_suffix_start(s@, b as int),
        decreases b,
    {
        b = b - 1;
    }
    proof {
        lemma_ws_prefix_end_bounds(s@, 0);
        lemma_ws_suffix_start_bounds(s@, s@.len() as int);
        reveal_strlit("");
        assert(""@ =~= Seq::<char>::empty());
    }
    if a < b {
        s.substring_char(a, b)
    } else {
        ""
    }
}

/// An ASCII decimal digit.
pub open spec fn is_digit(c: char) -> bool {
    0x30 <= c as u32 && c as u32 <= 0x39
}

fn char_is_digit(c: char) -> (r: bool)
    ensures
        r == is_digit(c),
{
    let n = c as u32;
    0x30 <= n && n <= 0x39
}

/// The first index at or after `i` holding a non-digit character.
pub open spec fn digit_run_end(s: Seq<char>, i: int) -> int
    decreases s.len() - i,
{
    if i < s.len() && is_digit(s[i]) {
        digit_run_end(s, i + 1)
    } else {
        i
    }
}

fn digit_run(s: &str, n: usize, i: usize) -> (r: usize)
    requires
        n == s@.len(),
        i <= n,
    ensures
        r == digit_run_end(s@, i as int),
        i <= r <= n,
    decreases n - i,
{
    if i < n && char_is_digit(s.get_char(i)) {
        digit_run(s, n, i + 1)
    } else {
        i
    }
}

/// `s[i..]` is an exponent part: `e` or `E`, an optional sign, then at least
/// one digit and nothing else.
pub open spec fn exp_ok(s: Seq<char>, i: int) -> bool {
    &&& i < s.len()
    &&& (s[i] == 'e' || s[i] == 'E')
    &&& {
        let j = if i + 1 < s.len() && (s[i + 1] == '+' || s[i + 1] == '-') {
            i + 2
        } else {
            i + 1
        };
        j < s.len() && digit_run_end(s, j) == s.len()
    }
}

fn exp_check(s: &str, n: usize, i: usize) -> (r: bool)
    requires
        n == s@.len(),
        i <= n,
    ensures
        r == exp_ok(s@, i as int),
{
    if i >= n {
        return false;
    }
    let c = s.get_char(i);
    if !(c == 'e' || c == 'E') {
        return false;
    }
    let j: usize = if i + 1 < n && {
        let d = s.get_char(i + 1);
        d == '+' || d == '-'
    } {
        i + 2
    } else {
        i + 1
    };
    j < n && digit_run(s, n, j) == n
}

/// `s[i..]` is a decimal number: digits with an optional point somewhere (at
/// least one digit in all), then an optional exponent part.
pub open spec fn number_ok(s: Seq<char>, i: int) -> bool {
    let j = digit_run_end(s, i);
    let dotted = j < s.len() && s[j] == '.';
    let k = if dotted {
        digit_run_end(s, j + 1)
    } else {
        j
    };
    let ndigits = (j - i) + if dotted {
        k - (j + 1)
    } else {
        0
    };
    ndigits > 0 && (k == s.len() || exp_ok(s, k))
}

fn number_check(s: &str, n: usize, i: usize) -> (r: bool)
    requires
        n == s@.len(),
        i <= n,
    ensures
        r == number_ok(s@, i as int),
{
    let j = digit_run(s, n, i);
    let dotted = j < n && s.get_char(j) == '.';
    let k: usize = if dotted {
        digit_run(s, n, j + 1)
    } else {
        j
    };
    let ndigits: usize = (j - i) + (if dotted {
        k - (j + 1)
    } else {
        0
    });
    if ndigits == 0 {
        return false;
    }
    if k == n {
        return true;
    }
    exp_check(s, n, k)
}

/// `c` is the lowercase letter `lo` or the uppercase letter `up`.
pub open spec fn ci_eq(c: char, lo: char, up: char) -> bool {
    c == lo || c == up
}

/// `s[i..]` spells `inf`, in any case.
pub open spec fn ci_word_inf(s: Seq<char>, i: int) -> bool {
    &&& s.len() == i + 3
    &&& ci_eq(s[i], 'i', 'I')
    &&& ci_eq(s[i + 1], 'n', 'N')
    &&& ci_eq(s[i + 2], 'f', 'F')
}

/// `s[i..]` spells `infinity`, in any case.
pub open spec fn ci_word_infinity(s: Seq<char>, i: int) -> bool {
    &&& s.len() == i + 8
    &&& ci_eq(s[i], 'i', 'I')
    &&& ci_eq(s[i + 1], 'n', 'N')
    &&& ci_eq(s[i + 2], 'f', 'F')
    &&& ci_eq(s[i + 3], 'i', 'I')
    &&& ci_eq(s[i + 4], 'n', 'N')
    &&& ci_eq(s[i + 5], 'i', 'I')
    &&& ci_eq(s[i + 6], 't', 'T')
    &&& ci_eq(s[i + 7], 'y', 'Y')
}

/// `s[i..]` spells `nan`, in any case.
pub open spec fn ci_word_nan(s: Seq<char>, i: int) -> bool {
    &&& s.len() == i + 3
    &&& ci_eq(s[i], 'n', 'N')
    &&& ci_eq(s[i + 1], 'a', 'A')
    &&& ci_eq(s[i + 2], 'n', 'N')
}

fn ci_char(c: char, lo: char, up: char) -> (r: bool)
    ensures
        r == ci_eq(c, lo, up),
{
    c == lo || c == up
}

fn word_inf(s: &str, n: usize, i: usize) -> (r: bool)
    requires
        n == s@.len(),
        i <= n,
    ensures
        r == ci_word_inf(s@, i as int),
{
    n - i == 3 && ci_char(s.get_char(i), 'i', 'I') && ci_char(s.get_char(i + 1), 'n', 'N')
        && ci_char(s.get_char(i + 2), 'f', 'F')
}

fn word_infinity(s: &str, n: usize, i: usize) -> (r: bool)
    requires
        n == s@.len(),
        i <= n,
    ensures
        r == ci_word_infinity(s@, i as int),
{
    n - i == 8 && ci_char(s.get_char(i), 'i', 'I') && ci_char(
        s.get_char(i + 1),
        'n',
        'N',
    ) && ci_char(s.get_char(i + 2), 'f', 'F') && ci_char(s.get_char(i + 3), 'i', 'I') && ci_char(
        s.get_char(i + 4),
        'n',
        'N',
    ) && ci_char(s.get_char(i + 5), 'i', 'I') && ci_char(s.get_char(i + 6), 't', 'T') && ci_char(
        s.get_char(i + 7),
        'y',
        'Y',
    )
}

fn word_nan(s: &str, n: usize, i: usize) -> (r: bool)
    requires
        n == s@.len(),
        i <= n,
    ensures
        r == ci_word_nan(s@, i as int),
{
    n - i == 3 && ci_char(s.get_char(i), 'n', 'N') && ci_char(s.get_char(i + 1), 'a', 'A')
        && ci_char(s.get_char(i + 2), 'n', 'N')
}

/// `s[i..]` is the body of a float literal: one of the special words or a
/// decimal number.
pub open spec fn float_body_ok(s: Seq<char>, i: int) -> bool {
    ||| ci_word_inf(s, i)
    ||| ci_word_infinity(s, i)
    ||| ci_word_nan(s, i)
    ||| number_ok(s, i)
}

/// `s` parses as a floating-point number: an optional sign, then `inf`,
/// `infinity`, `nan` (in any case) or a decimal number with an optional
/// point and exponent.
pub open spec fn is_float_literal(s: Seq<char>) -> bool {
    s.len() > 0 && {
        let i: int = if s[0] == '+' || s[0] == '-' {
            1
        } else {
            0
        };
        float_body_ok(s, i)
    }
}

/// Decide whether the whole of `s` is a well-formed float literal.
pub fn parses_as_float(s: &str) -> (r: bool)
    ensures
        r == is_float_literal(s@),
{
    let n = s.unicode_len();
    if n == 0 {
        return false;
    }
    let c0 = s.get_char(0);
    let i: usize = if c0 == '+' || c0 == '-' {
        1
    } else {
        0
    };
    word_inf(s, n, i) || word_infinity(s, n, i) || word_nan(s, n, i) || number_check(s, n, i)
}

} // verus!
