//! Decimal parsing of signed 32-bit integers, as form field coercion uses it.

use vstd::prelude::*;

verus! {

/// Why a text value failed to parse as a number.
#[derive(Clone, Copy, Debug, PartialEq, Eq, Structural)]
pub enum NumberError {
    /// The value was the empty string.
    Empty,
    /// A character other than an ASCII digit was found (or a bare sign).
    InvalidDigit,
    /// The digits denote a value outside the `i32` range.
    OutOfRange,
}

pub open spec fn is_digit_char(c: char) -> bool {
    48 <= c as u32 && c as u32 <= 57
}

pub open spec fn digit_val(c: char) -> int {
    c as u32 - 48
}

pub open spec fn all_digits(s: Seq<char>) -> bool {
    forall|i: int| 0 <= i < s.len() ==> is_digit_char(#[trigger] s[i])
}

/// Value of a digit sequence read most-significant first.
pub open spec fn digits_value(s: Seq<char>) -> int
    decreases s.len(),
{
    if s.len() == 0 {
        0
    } else {
        digits_value(s.drop_last()) * 10 + digit_val(s.last())
    }
}

/// The digit part of a number literal: everything after an optional sign.
pub open spec fn spec_digits_part(s: Seq<char>) -> Seq<char> {
    if s.len() > 0 && (s[0] == '-' || s[0] == '+') {
        s.drop_first()
    } else {
        s
    }
}

pub open spec fn spec_is_negative(s: Seq<char>) -> bool {
    s.len() > 0 && s[0] == '-'
}

/// Meaning of parsing a string as an `i32`: an optional sign followed by one
/// or more ASCII digits, denoting a value within the `i32` range.
pub open spec fn spec_parse_i32(s: Seq<char>) -> Result<i32, NumberError> {
    if s.len() == 0 {
        Err(NumberError::Empty)
    } else {
        let digits = spec_digits_part(s);
        if digits.len() == 0 || !all_digits(digits) {
            Err(NumberError::InvalidDigit)
        } else {
            let v = if spec_is_negative(s) {
                -digits_value(digits)
            } else {
                digits_value(digits)
            };
            if v < i32::MIN || v > i32::MAX {
                Err(NumberError::OutOfRange)
            } else {
                Ok(v as i32)
            }
        }
    }
}

pub proof fn lemma_digits_value_nonneg(s: Seq<char>)
    requires
        all_digits(s),
    ensures
        digits_value(s) >= 0,
    decreases s.len(),
{
    if s.len() > 0 {
        assert(all_digits(s.drop_last())) by {
            assert(forall|i: int|
                0 <= i < s.len() - 1 ==> #[trigger] s.drop_last()[i] == s[i]);
        }
        lemma_digits_value_nonneg(s.drop_last());
    }
}

/// Parses a decimal `i32`, with the exact meaning given by [`spec_parse_i32`].
#[verifier::loop_isolation(false)]
pub fn parse_i32(s: &str) -> (r: Result<i32, NumberError>)
    ensures
        r == spec_parse_i32(s@),
{
    let n = s.unicode_len();
    if n == 0 {
        return Err(NumberError::Empty);
    }
    let c0 = s.get_char(0);
    let start: usize = if c0 == '-' || c0 == '+' {
        1
    } else {
        0
    };
    if start == n {
        return Err(NumberError::InvalidDigit);
    }
    let ghost digits = spec_digits_part(s@);
    proof {
        assert(digits =~= s@.subrange(start as int, n as int));
    }
    let mut i: usize = start;
    let mut acc: u64 = 0;
    let mut over: bool = false;
    while i < n
        invariant
            start <= i <= n,
            n == s@.len(),
            digits =~= s@.subrange(start as int, n as int),
            all_digits(s@.subrange(start as int, i as int)),
            !over ==> acc == digits_value(s@.subrange(start as int, i as int))
                && acc <= 0x8000_0000u64,
            over ==> digits_value(s@.subrange(start as int, i as int)) > 0x8000_0000,
        decreases n - i,
    {
        let c = s.get_char(i);
        let cv = c as u32;
        if cv < 48 || cv > 57 {
            proof {
                assert(s@.subrange(start as int, n as int)[i - start as int] == s@[i as int]);
                assert(!is_digit_char(digits[i - start as int]));
            }
            return Err(NumberError::InvalidDigit);
        }
        let d: u64 = (cv - 48) as u64;
        let ghost prefix = s@.subrange(start as int, i as int);
        let ghost prefix1 = s@.subrange(start as int, i as int + 1);
        proof {
            assert(prefix1.drop_last() =~= prefix);
            assert(prefix1.last() == s@[i as int]);
            assert(digits_value(prefix1) == digits_value(prefix) * 10 + digit_val(s@[i as int]));
            assert(all_digits(prefix1)) by {
                assert(forall|j: int| 0 <= j < prefix.len() ==> prefix1[j] == #[trigger] prefix[j]);
                assert(is_digit_char(prefix1[prefix1.len() - 1]));
            }
            lemma_digits_value_nonneg(prefix);
        }
        if !over {
            acc = acc * 10 + d;
            if acc > 0x8000_0000 {
                over = true;
            }
        } else {
            proof {
                assert(digits_value(prefix1) > 0x8000_0000);
            }
        }
        i = i + 1;
    }
    proof {
        assert(s@.subrange(start as int, i as int) =~= digits);
        assert(all_digits(digits));
        lemma_digits_value_nonneg(digits);
    }
    let neg = start == 1 && c0 == '-';
    if over {
        return Err(NumberError::OutOfRange);
    }
    if neg {
        if acc == 0x8000_0000 {
            Ok(i32::MIN)
        } else {
            Ok(0i32 - (acc as i32))
        }
    } else {
        if acc >= 0x8000_0000 {
            Err(NumberError::OutOfRange)
        } else {
            Ok(acc as i32)
        }
    }
}

} // verus!
