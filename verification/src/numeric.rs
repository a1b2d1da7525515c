//! Validation of numeric and boolean fields.  Amounts are carried through
//! the conversion as text, but every amount field must spell a number: the
//! accepted shapes follow the standard library's float grammar (an optional
//! sign, then digits with an optional point and exponent, or one of the
//! special words `inf`, `infinity`, `nan`, case-insensitively).  Block
//! numbers are unsigned decimals.

use vstd::prelude::*;

use crate::error::{Error, ErrorV};
use crate::text::{lower, lower_exec, eq_lit};
use crate::timestamp::{dval, is_digit};

verus! {

/// The first position at or after `i` that does not hold a digit.
pub open spec fn digits_run(s: Seq<char>, i: int) -> int
    decreases s.len() - i,
{
    if i < 0 || i >= s.len() || !is_digit(s[i]) {
        i
    } else {
        digits_run(s, i + 1)
    }
}

/// A run of digits never moves backwards and stops within the text.
proof fn lemma_digits_run_bounds(s: Seq<char>, i: int)
    requires
        0 <= i <= s.len(),
    ensures
        i <= digits_run(s, i) <= s.len(),
    decreases s.len() - i,
{
    if i < s.len() && is_digit(s[i]) {
        lemma_digits_run_bounds(s, i + 1);
    }
}

/// An exponent part (`e` or `E`, an optional sign, one or more digits)
/// standing at `i` and reaching the end of the text — or `i` already at the
/// end and no exponent at all.
pub open spec fn exp_or_end(s: Seq<char>, i: int) -> bool {
    if i == s.len() {
        true
    } else {
        &&& 0 <= i < s.len()
        &&& (s[i] == 'e' || s[i] == 'E')
        &&& {
            let j = if i + 1 < s.len() && (s[i + 1] == '+' || s[i + 1] == '-') {
                i + 2
            } else {
                i + 1
            };
            j < s.len() && digits_run(s, j) == s.len()
        }
    }
}

/// A decimal mantissa with optional fraction and exponent, standing at `i`
/// and reaching the end: digits, digits point digits, or point digits.
pub open spec fn number_from(s: Seq<char>, i: int) -> bool {
    let j = digits_run(s, i);
    if j == i {
        // no leading digits: the text must open with a point and a fraction
        &&& 0 <= i < s.len()
        &&& s[i] == '.'
        &&& digits_run(s, i + 1) > i + 1
        &&& exp_or_end(s, digits_run(s, i + 1))
    } else {
        if j < s.len() && s[j] == '.' {
            exp_or_end(s, digits_run(s, j + 1))
        } else {
            exp_or_end(s, j)
        }
    }
}

/// Whether the text spells a floating-point number, per the standard float
/// grammar: an optional sign, then a decimal number or one of the special
/// words `inf`, `infinity`, `nan` in any casing.
pub open spec fn is_float_str(s: Seq<char>) -> bool {
    let i: int = if s.len() > 0 && (s[0] == '+' || s[0] == '-') {
        1
    } else {
        0
    };
    let b = s.skip(i);
    ||| lower(b) == "inf"@
    ||| lower(b) == "infinity"@
    ||| lower(b) == "nan"@
    ||| number_from(s, i)
}

/// Scan the run of digits beginning at `i`.
fn digits_run_exec(s: &Vec<char>, i: usize) -> (r: usize)
    requires
        i <= s@.len(),
    ensures
        r == digits_run(s@, i as int),
        i <= r <= s@.len(),
{
    let mut j = i;
    while j < s.len() && '0' <= s[j] && s[j] <= '9'
        invariant
            i <= j <= s@.len(),
            digits_run(s@, i as int) == digits_run(s@, j as int),
        decreases s@.len() - j,
    {
        j += 1;
    }
    j
}

/// Check an exponent-or-end tail at `i`.
fn exp_or_end_exec(s: &Vec<char>, i: usize) -> (r: bool)
    requires
        i <= s@.len(),
    ensures
        r == exp_or_end(s@, i as int),
{
    if i == s.len() {
        return true;
    }
    if !(s[i] == 'e' || s[i] == 'E') {
        return false;
    }
    let j = if i + 1 < s.len() && (s[i + 1] == '+' || s[i + 1] == '-') {
        i + 2
    } else {
        i + 1
    };
    j < s.len() && digits_run_exec(s, j) == s.len()
}

/// Whether the text spells a floating-point number.
pub fn is_float_str_exec(s: &Vec<char>) -> (r: bool)
    ensures
        r == is_float_str(s@),
{
    let i: usize = if s.len() > 0 && (s[0] == '+' || s[0] == '-') {
        1
    } else {
        0
    };
    let mut b: Vec<char> = Vec::new();
    let mut k = i;
    while k < s.len()
        invariant
            i <= k <= s@.len(),
            b@ == s@.subrange(i as int, k as int),
        decreases s@.len() - k,
    {
        b.push(s[k]);
        k += 1;
    }
    assert(b@ =~= s@.skip(i as int));
    let lb = lower_exec(&b);
    if eq_lit(&lb, "inf") || eq_lit(&lb, "infinity") || eq_lit(&lb, "nan") {
        return true;
    }
    // no special word: decide the decimal shape
    let j = digits_run_exec(s, i);
    let shaped: bool = if j == i {
        if i < s.len() && s[i] == '.' {
            let k2 = digits_run_exec(s, i + 1);
            k2 > i + 1 && exp_or_end_exec(s, k2)
        } else {
            false
        }
    } else {
        if j < s.len() && s[j] == '.' {
            let k2 = digits_run_exec(s, j + 1);
            exp_or_end_exec(s, k2)
        } else {
            exp_or_end_exec(s, j)
        }
    };
    shaped
}

/// The value of a digit string, most significant digit first.
pub open spec fn dec_val(s: Seq<char>) -> int
    decreases s.len(),
{
    if s.len() == 0 {
        0
    } else {
        dec_val(s.drop_last()) * 10 + dval(s.last())
    }
}

/// Digit strings denote non-negative values that only grow as digits are
/// appended.
proof fn lemma_dec_val_nonneg(s: Seq<char>)
    requires
        forall|k: int| 0 <= k < s.len() ==> is_digit(s[k]),
    ensures
        dec_val(s) >= 0,
    decreases s.len(),
{
    if s.len() > 0 {
        lemma_dec_val_nonneg(s.drop_last());
    }
}

/// Extending a digit string never shrinks its value.
proof fn lemma_dec_val_monotone(s: Seq<char>, i: int, j: int)
    requires
        forall|k: int| 0 <= k < s.len() ==> is_digit(s[k]),
        0 <= i <= j <= s.len(),
    ensures
        dec_val(s.take(i)) <= dec_val(s.take(j)),
    decreases j - i,
{
    if i < j {
        lemma_dec_val_monotone(s, i, j - 1);
        assert(s.take(j).drop_last() =~= s.take(j - 1));
        assert(forall|k: int| 0 <= k < s.take(j - 1).len() ==> is_digit(#[trigger] s.take(j - 1)[k]));
        lemma_dec_val_nonneg(s.take(j - 1));
    }
}

/// What parsing an unsigned decimal yields: the value of the digits — after
/// an optional plus sign — where there is at least one digit, nothing else,
/// and the value fits; `None` otherwise.
pub open spec fn u64_parse(s: Seq<char>) -> Option<u64> {
    let b = s.skip(
        if s.len() > 0 && s[0] == '+' {
            1int
        } else {
            0int
        },
    );
    if b.len() > 0 && digits_run(b, 0) == b.len() && dec_val(b) <= u64::MAX {
        Some(dec_val(b) as u64)
    } else {
        None
    }
}

/// A full digit run pins every character to be a digit.
proof fn lemma_digits_run_all(s: Seq<char>, i: int)
    requires
        0 <= i <= s.len(),
        digits_run(s, i) == s.len(),
    ensures
        forall|k: int| i <= k < s.len() ==> is_digit(s[k]),
    decreases s.len() - i,
{
    if i < s.len() {
        lemma_digits_run_bounds(s, i);
        if is_digit(s[i]) {
            lemma_digits_run_all(s, i + 1);
        }
    }
}

/// Parse an unsigned decimal, exactly as the spec says.
pub fn parse_u64(s: &Vec<char>) -> (r: Option<u64>)
    ensures
        r == u64_parse(s@),
{
    let start: usize = if s.len() > 0 && s[0] == '+' {
        1
    } else {
        0
    };
    let ghost b = s@.skip(start as int);
    if s.len() == start {
        assert(b.len() == 0);
        return None;
    }
    let run = digits_run_exec(s, start);
    proof {
        lemma_digits_run_shift(s@, start as int, start as int);
    }
    if run != s.len() {
        assert(digits_run(b, 0) != b.len());
        return None;
    }
    assert(digits_run(b, 0) == b.len());
    proof {
        lemma_digits_run_all(b, 0);
    }
    let mut acc: u64 = 0;
    let mut i: usize = start;
    while i < s.len()
        invariant
            start <= i <= s@.len(),
            start == (if s@.len() > 0 && s@[0] == '+' {
                1int
            } else {
                0int
            }),
            b == s@.skip(start as int),
            b.len() > 0,
            digits_run(b, 0) == b.len(),
            forall|k: int| 0 <= k < b.len() ==> is_digit(b[k]),
            acc == dec_val(b.take(i - start)),
        decreases s@.len() - i,
    {
        let c = s[i];
        assert(b[i - start] == c);
        assert(is_digit(c));
        let d: u64 = (c as u64) - 48;
        assert(d == dval(c));
        let wide: u128 = (acc as u128) * 10 + (d as u128);
        proof {
            assert(b.take(i + 1 - start).drop_last() =~= b.take(i - start));
            assert(dec_val(b.take(i + 1 - start)) == dec_val(b.take(i - start)) * 10 + dval(c));
        }
        if wide > u64::MAX as u128 {
            proof {
                lemma_dec_val_monotone(b, i + 1 - start, b.len() as int);
                assert(b.take(b.len() as int) =~= b);
            }
            return None;
        }
        acc = wide as u64;
        i += 1;
    }
    assert(b.take(b.len() as int) =~= b);
    proof {
        lemma_dec_val_nonneg(b);
    }
    Some(acc)
}

/// A digit run within the tail mirrors the run within the whole text.
proof fn lemma_digits_run_shift(s: Seq<char>, off: int, i: int)
    requires
        0 <= off <= i <= s.len(),
    ensures
        digits_run(s, i) == digits_run(s.skip(off), i - off) + off,
    decreases s.len() - i,
{
    if i < s.len() && is_digit(s[i]) {
        lemma_digits_run_shift(s, off, i + 1);
    }
}

/// What a boolean field means: `true` for `true`, `false` for `false` or an
/// empty field, in any casing; anything else has no meaning.
pub open spec fn bool_of(s: Seq<char>) -> Option<bool> {
    let l = lower(s);
    if l == "true"@ {
        Some(true)
    } else if l == ""@ || l == "false"@ {
        Some(false)
    } else {
        None
    }
}

/// Parse a boolean field: `true`, `false`, or empty meaning false, in any
/// casing; anything else is a hard error naming the offending string.
pub fn bool_from_string(s: &Vec<char>) -> (r: Result<bool, Error>)
    ensures
        match r {
            Ok(v) => bool_of(s@) == Some(v),
            Err(e) => bool_of(s@) is None && e@ == ErrorV::BadBool(s@),
        },
{
    let l = lower_exec(s);
    if eq_lit(&l, "true") {
        Ok(true)
    } else if eq_lit(&l, "") || eq_lit(&l, "false") {
        Ok(false)
    } else {
        Err(Error::BadBool(s.clone()))
    }
}

} // verus!
