//! Parsing decimal 64-bit integers from text.
//!
//! The accepted shape is the one Rust's own `u64` parsing accepts: an
//! optional leading plus sign, then one or more ASCII digits, with the
//! value fitting 64 bits.  The spec functions below pin that down over
//! the string's bytes, and `parse_u64` is proved against them.

use vstd::prelude::*;
use vstd::string::{StringSliceAdditionalSpecFns, StringExecFns};

verus! {

/// The ASCII code of `+`.
pub const PLUS_SIGN: u8 = 43;

/// The ASCII code of `0`.
pub const DIGIT_ZERO: u8 = 48;

/// The ASCII code of `9`.
pub const DIGIT_NINE: u8 = 57;

/// Whether a byte is an ASCII decimal digit.
pub open spec fn is_digit_byte(b: u8) -> bool {
    DIGIT_ZERO <= b <= DIGIT_NINE
}

/// The numeric value of a digit byte.
pub open spec fn digit_val(b: u8) -> int {
    b - DIGIT_ZERO
}

/// Whether every byte is an ASCII decimal digit.
pub open spec fn all_digits(s: Seq<u8>) -> bool {
    forall|i: int| 0 <= i < s.len() ==> is_digit_byte(#[trigger] s[i])
}

/// The value of a digit string, most significant digit first.
pub open spec fn digits_value(s: Seq<u8>) -> int
    decreases s.len(),
{
    if s.len() == 0 {
        0
    } else {
        digits_value(s.drop_last()) * 10 + digit_val(s.last())
    }
}

/// The digits of a number, with an optional leading plus sign removed.
pub open spec fn strip_plus(s: Seq<u8>) -> Seq<u8> {
    if s.len() > 0 && s[0] == PLUS_SIGN {
        s.drop_first()
    } else {
        s
    }
}

/// What parsing a decimal `u64` from these bytes gives: the digits'
/// value when the shape is right and the value fits, nothing otherwise.
pub open spec fn spec_parse_u64(s: Seq<u8>) -> Option<u64> {
    let t = strip_plus(s);
    if t.len() > 0 && all_digits(t) && digits_value(t) <= u64::MAX {
        Some(digits_value(t) as u64)
    } else {
        None
    }
}

proof fn lemma_digits_value_nonneg(s: Seq<u8>)
    requires
        all_digits(s),
    ensures
        digits_value(s) >= 0,
    decreases s.len(),
{
    if s.len() > 0 {
        assert(all_digits(s.drop_last())) by {
            assert(forall|i: int| 0 <= i < s.len() - 1 ==> s.drop_last()[i] == s[i]);
        }
        lemma_digits_value_nonneg(s.drop_last());
    }
}

proof fn lemma_digits_value_monotone(s: Seq<u8>, j: int)
    requires
        all_digits(s),
        0 <= j <= s.len(),
    ensures
        digits_value(s) >= digits_value(s.take(j)),
    decreases s.len() - j,
{
    if j < s.len() {
        let p = s.take(j + 1);
        assert(p.drop_last() =~= s.take(j));
        assert(all_digits(s.take(j))) by {
            assert(forall|i: int| 0 <= i < j ==> s.take(j)[i] == s[i]);
        }
        lemma_digits_value_nonneg(s.take(j));
        assert(digits_value(p) == digits_value(s.take(j)) * 10 + digit_val(s[j]));
        lemma_digits_value_monotone(s, j + 1);
    } else {
        assert(s.take(j) =~= s);
    }
}

/// Parses a decimal `u64`: an optional leading plus sign, then one or
/// more ASCII digits whose value fits 64 bits.
pub fn parse_u64(s: &str) -> (r: Option<u64>)
    ensures
        r == spec_parse_u64(s.spec_bytes()),
{
    let bytes = s.as_bytes();
    let n = bytes.len();
    let ghost t = strip_plus(bytes@);
    let start: usize = if n > 0 && bytes[0] == PLUS_SIGN {
        1
    } else {
        0
    };
    proof {
        assert(t =~= bytes@.skip(start as int));
    }
    if start == n {
        proof {
            assert(t.len() == 0);
        }
        return None;
    }
    let mut acc: u64 = 0;
    let mut i: usize = start;
    while i < n
        invariant
            start <= i <= n,
            n == bytes@.len(),
            bytes@ == s.spec_bytes(),
            t == strip_plus(bytes@),
            t == bytes@.skip(start as int),
            t.len() > 0,
            all_digits(t.take(i - start)),
            acc == digits_value(t.take(i - start)),
        decreases n - i,
    {
        let b = bytes[i];
        proof {
            assert(t[i - start] == bytes@[i as int]);
            assert(t.take(i - start + 1).drop_last() =~= t.take(i - start));
            assert(t.take(i - start + 1).last() == t[i - start]);
        }
        if b < DIGIT_ZERO || b > DIGIT_NINE {
            proof {
                assert(0 <= i - start < t.len());
                assert(t[i - start] == b);
                assert(!all_digits(t));
            }
            return None;
        }
        let d: u64 = (b - DIGIT_ZERO) as u64;
        let next: u128 = (acc as u128) * 10 + (d as u128);
        if next > u64::MAX as u128 {
            // The next digit pushes the value past 64 bits, and the
            // digits' value only grows from here.
            proof {
                assert(digits_value(t.take(i - start + 1)) == acc * 10 + d);
                if all_digits(t) {
                    lemma_digits_value_monotone(t, i - start + 1);
                    assert(digits_value(t) > u64::MAX);
                }
            }
            return None;
        }
        acc = next as u64;
        proof {
            assert(acc == digits_value(t.take(i - start + 1)));
        }
        i = i + 1;
    }
    proof {
        assert(t.take(n - start) =~= t);
    }
    Some(acc)
}

/// Checks that a string holds a decimal `u64`, reporting a plain
/// message otherwise.
pub fn is_u64(v: String) -> (r: Result<(), String>)
    ensures
        r is Ok <==> spec_parse_u64(vstd::utf8::encode_utf8(v@)) is Some,
{
    match parse_u64(v.as_str()) {
        Some(_) => Ok(()),
        None => Err(String::from_str("cannot be parsed as a 64-bit unsigned integer")),
    }
}

} // verus!
