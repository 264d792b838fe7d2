//! Decimal parsing, the heart of the numeric extractors.
//!
//! A numeric parameter is extracted by reading the request payload as an
//! unsigned decimal number: an optional leading plus sign followed by at
//! least one digit.  The whole behaviour is pinned down by
//! [`spec_parse_decimal`].

use vstd::prelude::*;
use vstd::string::*;

verus! {

/// Why a payload could not be converted into a typed parameter value.
#[derive(Clone, Copy, Debug, PartialEq, Eq, Structural)]
pub enum ExtractError {
    /// The payload was the empty string.
    Empty,
    /// The payload held a character that is not a decimal digit
    /// (or held nothing after the leading plus sign).
    InvalidDigit,
    /// The digits denote a number larger than the target type can hold.
    Overflow,
}

/// Is `c` one of the characters `'0'` through `'9'`?
pub open spec fn is_decimal_digit(c: char) -> bool {
    48 <= c as int && c as int <= 57
}

/// The numeric value of the digit `c`.
pub open spec fn digit_of(c: char) -> int {
    c as int - 48
}

/// Does every character of `s` denote a decimal digit?
pub open spec fn all_decimal_digits(s: Seq<char>) -> bool {
    forall|i: int| 0 <= i < s.len() ==> is_decimal_digit(#[trigger] s[i])
}

/// The number denoted by the digit string `s`, most significant digit first.
pub open spec fn decimal_value(s: Seq<char>) -> int
    decreases s.len(),
{
    if s.len() == 0 {
        0
    } else {
        10 * decimal_value(s.drop_last()) + digit_of(s.last())
    }
}

/// The digits of a payload: everything after the optional leading plus sign.
pub open spec fn digit_part(s: Seq<char>) -> Seq<char> {
    if s.len() > 0 && s[0] == '+' {
        s.drop_first()
    } else {
        s
    }
}

/// What parsing the payload `s` as an unsigned decimal number no larger than
/// `max` yields.  An empty payload is `Empty`; a payload whose digit part is
/// empty or holds a non-digit is `InvalidDigit`; a well-formed payload whose
/// value exceeds `max` is `Overflow`; anything else parses to its value.
pub open spec fn spec_parse_decimal(s: Seq<char>, max: int) -> Result<int, ExtractError> {
    if s.len() == 0 {
        Err(ExtractError::Empty)
    } else if digit_part(s).len() == 0 || !all_decimal_digits(digit_part(s)) {
        Err(ExtractError::InvalidDigit)
    } else if decimal_value(digit_part(s)) > max {
        Err(ExtractError::Overflow)
    } else {
        Ok(decimal_value(digit_part(s)))
    }
}

/// A digit string denotes a number that is not negative.
pub proof fn lemma_decimal_value_nonneg(s: Seq<char>)
    requires
        all_decimal_digits(s),
    ensures
        decimal_value(s) >= 0,
    decreases s.len(),
{
    if s.len() > 0 {
        assert(all_decimal_digits(s.drop_last()));
        lemma_decimal_value_nonneg(s.drop_last());
    }
}

/// Extending a digit string never shrinks the number it denotes.
pub proof fn lemma_decimal_value_prefix_le(s: Seq<char>, i: int)
    requires
        all_decimal_digits(s),
        0 <= i <= s.len(),
    ensures
        decimal_value(s.subrange(0, i)) <= decimal_value(s),
    decreases s.len() - i,
{
    if i < s.len() {
        assert(s.subrange(0, i + 1).drop_last() =~= s.subrange(0, i));
        assert(s.subrange(0, i + 1).last() == s[i]);
        assert(all_decimal_digits(s.subrange(0, i)));
        lemma_decimal_value_nonneg(s.subrange(0, i));
        assert(decimal_value(s.subrange(0, i + 1))
            == 10 * decimal_value(s.subrange(0, i)) + digit_of(s[i]));
        lemma_decimal_value_prefix_le(s, i + 1);
    } else {
        assert(s.subrange(0, i) =~= s);
    }
}

/// The result of a bounded decimal parse, seen at the specification level.
pub open spec fn parse_result_view(r: Result<u64, ExtractError>) -> Result<int, ExtractError> {
    match r {
        Ok(n) => Ok(n as int),
        Err(e) => Err(e),
    }
}

/// Parses `s` as an unsigned decimal number no larger than `max`.
fn parse_decimal(s: &str, max: u64) -> (r: Result<u64, ExtractError>)
    ensures
        parse_result_view(r) == spec_parse_decimal(s@, max as int),
{
    let len = s.unicode_len();
    if len == 0 {
        return Err(ExtractError::Empty);
    }
    let first = s.get_char(0);
    let start: usize = if first == '+' {
        1
    } else {
        0
    };
    if start == len {
        // A lone plus sign has nothing to parse.
        return Err(ExtractError::InvalidDigit);
    }
    let ghost dp: Seq<char> = digit_part(s@);
    proof {
        assert(dp =~= s@.subrange(start as int, len as int));
    }
    // First pass: every character after the sign must be a digit.
    let mut i: usize = start;
    while i < len
        invariant
            start <= i <= len,
            len == s@.len(),
            start == 1 <==> (s@.len() > 0 && s@[0] == '+'),
            start <= 1,
            dp == digit_part(s@),
            dp =~= s@.subrange(start as int, len as int),
            forall|j: int| start <= j < i ==> is_decimal_digit(#[trigger] s@[j]),
        decreases len - i,
    {
        let c = s.get_char(i);
        let cv: u32 = c as u32;
        if cv < 48 || cv > 57 {
            proof {
                assert(dp[i - start] == s@[i as int]);
                assert(!is_decimal_digit(dp[i - start]));
            }
            return Err(ExtractError::InvalidDigit);
        }
        i += 1;
    }
    proof {
        assert(forall|j: int| 0 <= j < dp.len() ==> dp[j] == s@[j + start]);
        assert(all_decimal_digits(dp));
    }
    // Second pass: accumulate the value, watching for overflow.
    let mut acc: u64 = 0;
    let mut k: usize = start;
    while k < len
        invariant
            start <= k <= len,
            len == s@.len(),
            start <= 1,
            start < len,
            dp == digit_part(s@),
            dp =~= s@.subrange(start as int, len as int),
            all_decimal_digits(dp),
            acc as int == decimal_value(dp.subrange(0, k - start)),
            acc <= max,
        decreases len - k,
    {
        let c = s.get_char(k);
        let cv: u32 = c as u32;
        proof {
            assert(dp[k - start] == s@[k as int]);
            assert(is_decimal_digit(dp[k - start]));
        }
        let d: u64 = (cv - 48) as u64;
        let ghost pre: Seq<char> = dp.subrange(0, k - start);
        proof {
            assert(dp.subrange(0, k - start + 1).drop_last() =~= pre);
            assert(dp.subrange(0, k - start + 1).last() == dp[k - start]);
            assert(decimal_value(dp.subrange(0, k - start + 1))
                == 10 * (acc as int) + d);
            vstd::arithmetic::div_mod::lemma_fundamental_div_mod(max as int, 10);
        }
        if acc > max / 10 {
            proof {
                assert(10 * (acc as int) + d > max);
                lemma_decimal_value_prefix_le(dp, k - start + 1);
                assert(decimal_value(dp) > max);
            }
            return Err(ExtractError::Overflow);
        }
        let acc10: u64 = acc * 10;
        if d > max - acc10 {
            proof {
                lemma_decimal_value_prefix_le(dp, k - start + 1);
                assert(decimal_value(dp) > max);
            }
            return Err(ExtractError::Overflow);
        }
        acc = acc10 + d;
        k += 1;
    }
    proof {
        assert(dp.subrange(0, len - start) =~= dp);
    }
    Ok(acc)
}

/// Parses the payload as a 32-bit unsigned decimal number.
pub fn parse_u32(s: &str) -> (r: Result<u32, ExtractError>)
    ensures
        (match r {
            Ok(n) => Ok::<int, ExtractError>(n as int),
            Err(e) => Err::<int, ExtractError>(e),
        }) == spec_parse_decimal(s@, u32::MAX as int),
{
    match parse_decimal(s, u32::MAX as u64) {
        Ok(n) => Ok(n as u32),
        Err(e) => Err(e),
    }
}

/// Parses the payload as a 64-bit unsigned decimal number.
pub fn parse_u64(s: &str) -> (r: Result<u64, ExtractError>)
    ensures
        (match r {
            Ok(n) => Ok::<int, ExtractError>(n as int),
            Err(e) => Err::<int, ExtractError>(e),
        }) == spec_parse_decimal(s@, u64::MAX as int),
{
    parse_decimal(s, u64::MAX)
}

} // verus!
