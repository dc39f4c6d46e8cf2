//! Durations written as a decimal number followed by one unit letter.
//!
//! `"30s"`, `"10m"`, `"2h"`, `"7d"` and `"1w"` are durations; the unit letter
//! may be in either case and may be surrounded by white space. Fractional and
//! compound durations such as `"1h30m"` are not accepted.
use vstd::prelude::*;
use crate::jwt::JwtError;

verus! {

pub open spec fn is_ascii_digit(c: char) -> bool {
    '0' <= c && c <= '9'
}

/// White space as Unicode's `White_Space` property defines it.
pub open spec fn is_white_space(c: char) -> bool {
    ||| '\t' <= c && c <= '\r'
    ||| c == ' '
    ||| c == '\u{85}'
    ||| c == '\u{A0}'
    ||| c == '\u{1680}'
    ||| '\u{2000}' <= c && c <= '\u{200A}'
    ||| c == '\u{2028}'
    ||| c == '\u{2029}'
    ||| c == '\u{202F}'
    ||| c == '\u{205F}'
    ||| c == '\u{3000}'
}

/// Seconds in one of the unit letters `s`, `m`, `h`, `d`, `w`, in either case.
pub open spec fn unit_factor(c: char) -> Option<nat> {
    if c == 's' || c == 'S' {
        Some(1)
    } else if c == 'm' || c == 'M' {
        Some(60)
    } else if c == 'h' || c == 'H' {
        Some(3600)
    } else if c == 'd' || c == 'D' {
        Some(86400)
    } else if c == 'w' || c == 'W' {
        Some(604800)
    } else {
        None
    }
}

/// The index where the run of ASCII digits that starts at `i` ends.
pub open spec fn digits_end(s: Seq<char>, i: int) -> int
    decreases s.len() - i,
{
    if 0 <= i < s.len() && is_ascii_digit(s[i]) {
        digits_end(s, i + 1)
    } else {
        i
    }
}

/// The number that a string of ASCII digits writes in decimal.
pub open spec fn digits_value(d: Seq<char>) -> nat
    decreases d.len(),
{
    if d.len() == 0 {
        0
    } else {
        digits_value(d.drop_last()) * 10 + (d.last() as nat - '0' as nat) as nat
    }
}

/// The characters of `u` that are not white space, in order.
pub open spec fn non_blank(u: Seq<char>) -> Seq<char>
    decreases u.len(),
{
    if u.len() == 0 {
        seq![]
    } else if is_white_space(u.last()) {
        non_blank(u.drop_last())
    } else {
        non_blank(u.drop_last()).push(u.last())
    }
}

/// The seconds that `s` denotes: a non-empty run of ASCII digits, then a rest
/// that holds exactly one character besides white space, a unit letter.
pub open spec fn duration_seconds(s: Seq<char>) -> Option<nat> {
    let n = digits_end(s, 0);
    let unit = non_blank(s.subrange(n, s.len() as int));
    if n == 0 || unit.len() != 1 {
        None
    } else {
        match unit_factor(unit[0]) {
            Some(f) => Some(digits_value(s.subrange(0, n)) * f),
            None => None,
        }
    }
}

proof fn lemma_digits_end_bounds(s: Seq<char>, i: int)
    requires
        0 <= i <= s.len(),
    ensures
        i <= digits_end(s, i) <= s.len(),
        forall|j: int| i <= j < digits_end(s, i) ==> is_ascii_digit(#[trigger] s[j]),
    decreases s.len() - i,
{
    if i < s.len() && is_ascii_digit(s[i]) {
        lemma_digits_end_bounds(s, i + 1);
    }
}

proof fn lemma_digits_end_at(s: Seq<char>, i: int, m: int)
    requires
        0 <= i <= m <= s.len(),
        forall|j: int| i <= j < m ==> is_ascii_digit(#[trigger] s[j]),
        m < s.len() ==> !is_ascii_digit(s[m]),
    ensures
        digits_end(s, i) == m,
    decreases m - i,
{
    if i < m {
        lemma_digits_end_at(s, i + 1, m);
    }
}

proof fn lemma_single_non_blank(c: char)
    ensures
        non_blank(seq![c]) == (if is_white_space(c) { Seq::<char>::empty() } else { seq![c] }),
{
    assert(seq![c].drop_last() =~= Seq::<char>::empty());
    assert(non_blank(Seq::<char>::empty()) =~= Seq::<char>::empty());
    assert(Seq::<char>::empty().push(c) =~= seq![c]);
}

/// A non-empty run of decimal digits followed by a unit letter denotes the
/// number that the digits write, times the seconds in the unit.
pub proof fn lemma_digits_then_unit(digits: Seq<char>, unit: char)
    requires
        digits.len() > 0,
        forall|i: int| 0 <= i < digits.len() ==> is_ascii_digit(#[trigger] digits[i]),
        unit_factor(unit) is Some,
    ensures
        duration_seconds(digits.push(unit)) == Some(digits_value(digits) * unit_factor(unit)->0),
{
    let s = digits.push(unit);
    lemma_digits_end_at(s, 0, digits.len() as int);
    assert(s.subrange(0, digits.len() as int) =~= digits);
    assert(s.subrange(digits.len() as int, s.len() as int) =~= seq![unit]);
    lemma_single_non_blank(unit);
}

/// A string of digits alone has no unit, and denotes no duration.
pub proof fn lemma_no_unit(s: Seq<char>)
    requires
        forall|i: int| 0 <= i < s.len() ==> is_ascii_digit(#[trigger] s[i]),
    ensures
        duration_seconds(s) is None,
{
    lemma_digits_end_at(s, 0, s.len() as int);
    assert(s.subrange(s.len() as int, s.len() as int) =~= Seq::<char>::empty());
}

/// A string that does not start with a digit has no number, and denotes no duration.
pub proof fn lemma_no_number(s: Seq<char>)
    requires
        s.len() == 0 || !is_ascii_digit(s[0]),
    ensures
        duration_seconds(s) is None,
{
}

/// Digits followed by a character that is neither a digit nor one of the five
/// unit letters denote no duration.
pub proof fn lemma_unknown_unit(digits: Seq<char>, unit: char)
    requires
        forall|i: int| 0 <= i < digits.len() ==> is_ascii_digit(#[trigger] digits[i]),
        !is_ascii_digit(unit),
        unit_factor(unit) is None,
    ensures
        duration_seconds(digits.push(unit)) is None,
{
    let s = digits.push(unit);
    lemma_digits_end_at(s, 0, digits.len() as int);
    assert(s.subrange(digits.len() as int, s.len() as int) =~= seq![unit]);
    lemma_single_non_blank(unit);
}

fn ascii_digit(c: char) -> (r: bool)
    ensures
        r == is_ascii_digit(c),
{
    '0' <= c && c <= '9'
}

fn white_space(c: char) -> (r: bool)
    ensures
        r == is_white_space(c),
{
    ('\t' <= c && c <= '\r') || c == ' ' || c == '\u{85}' || c == '\u{A0}' || c == '\u{1680}'
        || ('\u{2000}' <= c && c <= '\u{200A}') || c == '\u{2028}' || c == '\u{2029}'
        || c == '\u{202F}' || c == '\u{205F}' || c == '\u{3000}'
}

fn unit_seconds(c: char) -> (r: Option<u64>)
    ensures
        match unit_factor(c) {
            Some(f) => r == Some(f as u64),
            None => r is None,
        },
{
    if c == 's' || c == 'S' {
        Some(1)
    } else if c == 'm' || c == 'M' {
        Some(60)
    } else if c == 'h' || c == 'H' {
        Some(3600)
    } else if c == 'd' || c == 'D' {
        Some(86400)
    } else if c == 'w' || c == 'W' {
        Some(604800)
    } else {
        None
    }
}

/// Parses a token lifetime such as `"7d"` into seconds.
///
/// Fails with `ConfigError` when there is no unit, when the number is missing
/// or does not fit in a `u64`, when the unit is not one of the five letters,
/// and when the number of seconds does not fit in a `u64`.
pub fn parse_expires_in(expires_in: &str) -> (r: Result<u64, JwtError>)
    ensures
        match duration_seconds(expires_in@) {
            Some(v) => if v <= u64::MAX {
                r == Ok::<u64, JwtError>(v as u64)
            } else {
                r == Err::<u64, JwtError>(JwtError::ConfigError)
            },
            None => r == Err::<u64, JwtError>(JwtError::ConfigError),
        },
{
    let ghost s = expires_in@;
    let len = expires_in.unicode_len();
    proof {
        lemma_digits_end_bounds(s, 0);
    }
    // The leading run of digits, and its value while it fits.
    let mut i: usize = 0;
    let mut value: u64 = 0;
    let mut fits = true;
    while i < len && ascii_digit(expires_in.get_char(i))
        invariant
            len == s.len(),
            s == expires_in@,
            0 <= i <= digits_end(s, 0),
            digits_end(s, 0) <= s.len(),
            digits_end(s, i as int) == digits_end(s, 0),
            forall|j: int| 0 <= j < digits_end(s, 0) ==> is_ascii_digit(#[trigger] s[j]),
            fits ==> value == digits_value(s.subrange(0, i as int)),
            !fits ==> digits_value(s.subrange(0, i as int)) > u64::MAX,
        decreases len - i,
    {
        let c = expires_in.get_char(i);
        let d = (c as u32 - '0' as u32) as u64;
        proof {
            assert(s.subrange(0, i + 1).drop_last() =~= s.subrange(0, i as int));
            assert(s.subrange(0, i + 1).last() == c);
            lemma_digits_end_bounds(s, i + 1);
        }
        if fits {
            if value <= (u64::MAX - d) / 10 {
                value = value * 10 + d;
            } else {
                fits = false;
            }
        } else {
            proof {
                assert(digits_value(s.subrange(0, i + 1)) >= digits_value(s.subrange(0, i as int)) * 10);
            }
        }
        i = i + 1;
    }
    let n = i;
    assert(n == digits_end(s, 0));
    if n == 0 {
        return Err(JwtError::ConfigError);
    }
    // What follows the digits must hold exactly one character besides white space.
    let mut k: usize = n;
    let mut count: usize = 0;
    let mut unit: char = ' ';
    while k < len
        invariant
            len == s.len(),
            s == expires_in@,
            n <= k <= len,
            count == non_blank(s.subrange(n as int, k as int)).len(),
            count <= k - n,
            count > 0 ==> unit == non_blank(s.subrange(n as int, k as int)).last(),
        decreases len - k,
    {
        let c = expires_in.get_char(k);
        proof {
            assert(s.subrange(n as int, k + 1).drop_last() =~= s.subrange(n as int, k as int));
        }
        if !white_space(c) {
            count = count + 1;
            unit = c;
        }
        k = k + 1;
    }
    assert(s.subrange(n as int, len as int) =~= s.subrange(n as int, s.len() as int));
    if count != 1 {
        return Err(JwtError::ConfigError);
    }
    let factor = match unit_seconds(unit) {
        Some(f) => f,
        None => {
            return Err(JwtError::ConfigError);
        },
    };
    if !fits {
        proof {
            let d = s.subrange(0, n as int);
            let f = unit_factor(unit)->0;
            assert(digits_value(d) * f >= digits_value(d)) by (nonlinear_arith)
                requires
                    f >= 1,
            ;
        }
        return Err(JwtError::ConfigError);
    }
    match value.checked_mul(factor) {
        Some(seconds) => Ok(seconds),
        None => Err(JwtError::ConfigError),
    }
}

} // verus!
