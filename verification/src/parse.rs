//! Parsing a speed argument: an optional sign followed by decimal digits,
//! denoting a value that fits in a signed byte.

use vstd::prelude::*;
use crate::error::RoverError;

verus! {

/// Whether `b` is an ASCII decimal digit.
pub open spec fn is_ascii_digit(b: u8) -> bool {
    48 <= b && b <= 57
}

/// Whether every byte of `s` is an ASCII decimal digit.
pub open spec fn all_digits(s: Seq<u8>) -> bool {
    forall|i: int| 0 <= i < s.len() ==> is_ascii_digit(s[i])
}

/// The number a string of ASCII digits denotes in decimal.
pub open spec fn digits_value(s: Seq<u8>) -> int
    decreases s.len(),
{
    if s.len() == 0 {
        0
    } else {
        digits_value(s.drop_last()) * 10 + (s.last() - 48)
    }
}

/// The digit part of a speed argument: everything after an optional
/// leading sign.
pub open spec fn speed_digits(s: Seq<u8>) -> Seq<u8> {
    if s.len() > 0 && (s[0] == 43 || s[0] == 45) {
        s.subrange(1, s.len() as int)
    } else {
        s
    }
}

/// The sign a speed argument denotes: `-1` under a leading minus, `1`
/// otherwise.
pub open spec fn speed_sign(s: Seq<u8>) -> int {
    if s.len() > 0 && s[0] == 45 {
        -1
    } else {
        1
    }
}

/// Whether `s` is a well-formed speed argument: an optional sign, then at
/// least one digit and nothing else, denoting a value in `[-128, 127]`.
pub open spec fn is_valid_speed(s: Seq<u8>) -> bool {
    speed_digits(s).len() > 0 && all_digits(speed_digits(s)) && -128 <= speed_sign(s)
        * digits_value(speed_digits(s)) <= 127
}

/// The value a well-formed speed argument denotes.
pub open spec fn speed_value(s: Seq<u8>) -> int {
    speed_sign(s) * digits_value(speed_digits(s))
}

/// A digit string never denotes a negative number.
pub proof fn lemma_digits_value_nonneg(s: Seq<u8>)
    requires
        all_digits(s),
    ensures
        digits_value(s) >= 0,
    decreases s.len(),
{
    if s.len() > 0 {
        assert forall|i: int| 0 <= i < s.drop_last().len() implies is_ascii_digit(
            s.drop_last()[i],
        ) by {
            assert(s.drop_last()[i] == s[i]);
        }
        lemma_digits_value_nonneg(s.drop_last());
        assert(digits_value(s.drop_last()) * 10 >= 0) by (nonlinear_arith)
            requires digits_value(s.drop_last()) >= 0;
    }
}

/// Appending further digits never shrinks the denoted number: a digit
/// string denotes at least as much as any of its prefixes.
pub proof fn lemma_digits_value_prefix(s: Seq<u8>, k: int)
    requires
        all_digits(s),
        0 <= k <= s.len(),
    ensures
        digits_value(s) >= digits_value(s.subrange(0, k)),
    decreases s.len(),
{
    if k == s.len() {
        assert(s.subrange(0, k) =~= s);
    } else {
        assert forall|i: int| 0 <= i < s.drop_last().len() implies is_ascii_digit(
            s.drop_last()[i],
        ) by {
            assert(s.drop_last()[i] == s[i]);
        }
        assert(s.drop_last().subrange(0, k) =~= s.subrange(0, k));
        lemma_digits_value_prefix(s.drop_last(), k);
        lemma_digits_value_nonneg(s.drop_last());
        assert(digits_value(s.drop_last()) * 10 >= digits_value(s.drop_last())) by (
        nonlinear_arith)
            requires digits_value(s.drop_last()) >= 0;
    }
}

/// Parses a speed argument: an optional `+` or `-` sign followed by one or
/// more ASCII digits, denoting a value that fits in a signed byte. Exactly
/// the byte strings of that shape parse; every other input is rejected as
/// `InvalidInput`.
pub fn parse_speed(s: &[u8]) -> (r: Result<i8, RoverError>)
    ensures
        is_valid_speed(s@) ==> (r matches Ok(v) && v as int == speed_value(s@)),
        !is_valid_speed(s@) ==> (r matches Err(e) && e == RoverError::InvalidInput),
{
    let n: usize = s.len();
    let mut i: usize = 0;
    let mut negative: bool = false;
    if n > 0 && (s[0] == 43 || s[0] == 45) {
        negative = s[0] == 45;
        i = 1;
    }
    let ghost start: int = i as int;
    proof {
        assert(speed_digits(s@) =~= s@.subrange(start, n as int));
    }
    if i == n {
        return Err(RoverError::InvalidInput);
    }
    let mut acc: u32 = 0;
    while i < n
        invariant
            0 <= start <= i as int <= n as int,
            n == s@.len(),
            start < n as int,
            speed_digits(s@) =~= s@.subrange(start, n as int),
            negative == (s@.len() > 0 && s@[0] == 45),
            forall|j: int| start <= j < i as int ==> is_ascii_digit(s@[j]),
            acc as int == digits_value(s@.subrange(start, i as int)),
            acc <= 128,
        decreases n - i,
    {
        let b: u8 = s[i];
        if b < 48 || b > 57 {
            proof {
                let d = speed_digits(s@);
                assert(d[i as int - start] == s@[i as int]);
                assert(!all_digits(d)) by {
                    if all_digits(d) {
                        assert(is_ascii_digit(d[i as int - start]));
                    }
                }
            }
            return Err(RoverError::InvalidInput);
        }
        proof {
            assert(s@.subrange(start, i as int + 1).drop_last() =~= s@.subrange(
                start,
                i as int,
            ));
            assert(s@.subrange(start, i as int + 1).last() == s@[i as int]);
        }
        acc = acc * 10 + ((b - 48) as u32);
        i = i + 1;
        if acc > 128 {
            proof {
                let d = speed_digits(s@);
                if all_digits(d) {
                    assert forall|j: int| 0 <= j < i as int - start implies is_ascii_digit(
                        s@.subrange(start, i as int)[j],
                    ) by {
                        assert(s@.subrange(start, i as int)[j] == s@[start + j]);
                    }
                    assert(s@.subrange(start, i as int) =~= d.subrange(0, i as int - start));
                    lemma_digits_value_prefix(d, i as int - start);
                    assert(digits_value(d) > 128);
                }
            }
            return Err(RoverError::InvalidInput);
        }
    }
    proof {
        assert(s@.subrange(start, n as int) =~= speed_digits(s@));
        lemma_digits_value_nonneg(speed_digits(s@));
    }
    if negative {
        Ok((0 - (acc as i32)) as i8)
    } else if acc <= 127 {
        Ok(acc as i8)
    } else {
        Err(RoverError::InvalidInput)
    }
}

} // verus!
