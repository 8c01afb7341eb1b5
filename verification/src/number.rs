//! Reading a 32-bit integer from decimal text.

use vstd::prelude::*;

verus! {

/// Why a text is no 32-bit integer.
#[derive(Debug, Clone, Copy, PartialEq, Eq, Structural)]
pub enum IntErrorKind {
    /// The text is empty.
    Empty,
    /// The text holds a character that is no digit where a digit must stand,
    /// or it is a sign alone.
    InvalidDigit,
    /// The number is above `i32::MAX`.
    PosOverflow,
    /// The number is below `i32::MIN`.
    NegOverflow,
}

/// Whether a character is one of the digits `0` to `9`.
pub open spec fn is_digit(c: char) -> bool {
    0x30 <= c as u32 <= 0x39
}

/// The value of a digit.
pub open spec fn digit_value(c: char) -> int {
    c as u32 - 0x30
}

/// The number that the digits stand for, read with the given sign, or the
/// first fault met from the left: a character that is no digit, or a prefix
/// whose number no longer fits.
pub open spec fn signed_digits(digits: Seq<char>, negative: bool) -> Result<int, IntErrorKind>
    decreases digits.len(),
{
    if digits.len() == 0 {
        Ok(0)
    } else {
        match signed_digits(digits.drop_last(), negative) {
            Err(e) => Err(e),
            Ok(before) => if !is_digit(digits.last()) {
                Err(IntErrorKind::InvalidDigit)
            } else if negative {
                if 10 * before - digit_value(digits.last()) < i32::MIN {
                    Err(IntErrorKind::NegOverflow)
                } else {
                    Ok(10 * before - digit_value(digits.last()))
                }
            } else {
                if 10 * before + digit_value(digits.last()) > i32::MAX {
                    Err(IntErrorKind::PosOverflow)
                } else {
                    Ok(10 * before + digit_value(digits.last()))
                }
            },
        }
    }
}

/// The integer that a text stands for: an optional `+` or `-`, then one or
/// more digits, and nothing else.
pub open spec fn parsed_i32(text: Seq<char>) -> Result<int, IntErrorKind> {
    if text.len() == 0 {
        Err(IntErrorKind::Empty)
    } else if text[0] == '-' || text[0] == '+' {
        if text.len() == 1 {
            Err(IntErrorKind::InvalidDigit)
        } else {
            signed_digits(text.drop_first(), text[0] == '-')
        }
    } else {
        signed_digits(text, false)
    }
}

/// Whatever is read fits in 32 bits.
pub proof fn lemma_signed_digits_range(digits: Seq<char>, negative: bool)
    ensures
        signed_digits(digits, negative) is Ok ==> i32::MIN <= signed_digits(
            digits,
            negative,
        ).unwrap() <= i32::MAX,
        signed_digits(digits, negative) is Ok && negative ==> signed_digits(
            digits,
            negative,
        ).unwrap() <= 0,
        signed_digits(digits, negative) is Ok && !negative ==> signed_digits(
            digits,
            negative,
        ).unwrap() >= 0,
    decreases digits.len(),
{
    if digits.len() > 0 {
        lemma_signed_digits_range(digits.drop_last(), negative);
    }
}

/// Reads a 32-bit integer from decimal text.
pub fn parse_i32(text: &[char]) -> (r: Result<i32, IntErrorKind>)
    ensures
        match r {
            Err(e) => parsed_i32(text@) == Err::<int, IntErrorKind>(e),
            Ok(n) => parsed_i32(text@) == Ok::<int, IntErrorKind>(n as int),
        },
{
    let len: usize = text.len();
    if len == 0 {
        return Err(IntErrorKind::Empty);
    }
    let negative: bool = text[0] == '-';
    let signed: bool = negative || text[0] == '+';
    if signed && len == 1 {
        return Err(IntErrorKind::InvalidDigit);
    }
    let first: usize = if signed {
        1
    } else {
        0
    };
    let ghost digits = text@.subrange(first as int, len as int);
    let mut value: i64 = 0;
    let mut i: usize = first;
    proof {
        assert(digits =~= if signed {
            text@.drop_first()
        } else {
            text@
        });
        assert(digits.subrange(0, 0) =~= Seq::<char>::empty());
    }
    while i < len
        invariant
            first <= i <= len,
            len == text@.len(),
            digits == text@.subrange(first as int, len as int),
            signed_digits(digits.subrange(0, i - first), negative) == Ok::<int, IntErrorKind>(
                value as int,
            ),
            parsed_i32(text@) == signed_digits(digits, negative),
            i32::MIN <= value <= i32::MAX,
            negative ==> value <= 0,
            !negative ==> value >= 0,
        decreases len - i,
    {
        let c: char = text[i];
        let code: u32 = c as u32;
        proof {
            let head = digits.subrange(0, i - first);
            let next = digits.subrange(0, i + 1 - first);
            assert(next.drop_last() =~= head);
            assert(next.last() == c);
            lemma_fault_stays(digits, i + 1 - first, negative);
        }
        if code < 0x30 || code > 0x39 {
            return Err(IntErrorKind::InvalidDigit);
        }
        let digit: i64 = (code - 0x30) as i64;
        if negative {
            value = 10 * value - digit;
            if value < -0x8000_0000 {
                return Err(IntErrorKind::NegOverflow);
            }
        } else {
            value = 10 * value + digit;
            if value > 0x7fff_ffff {
                return Err(IntErrorKind::PosOverflow);
            }
        }
        i = i + 1;
    }
    proof {
        assert(digits.subrange(0, len - first) =~= digits);
    }
    Ok(value as i32)
}

/// A fault in a prefix of the digits is the fault of the whole.
pub proof fn lemma_fault_stays(digits: Seq<char>, prefix: int, negative: bool)
    requires
        0 <= prefix <= digits.len(),
    ensures
        signed_digits(digits.subrange(0, prefix), negative) is Err ==> signed_digits(
            digits,
            negative,
        ) == signed_digits(digits.subrange(0, prefix), negative),
    decreases digits.len() - prefix,
{
    if prefix == digits.len() {
        assert(digits.subrange(0, prefix) =~= digits);
    } else {
        lemma_fault_stays(digits.drop_last(), prefix, negative);
        assert(digits.drop_last().subrange(0, prefix) =~= digits.subrange(0, prefix));
    }
}

/// The amount that a text stands for: an integer that carries no minus sign.
/// A minus sign is no digit, whatever follows it.
pub open spec fn parsed_amount(text: Seq<char>) -> Result<int, IntErrorKind> {
    if text.len() > 0 && text[0] == '-' {
        Err(IntErrorKind::InvalidDigit)
    } else {
        parsed_i32(text)
    }
}

/// An amount is never negative and fits in 32 bits.
pub proof fn lemma_amount_is_not_negative(text: Seq<char>)
    ensures
        parsed_amount(text) matches Ok(amount) ==> 0 <= amount <= i32::MAX,
{
    if text.len() > 0 && text[0] != '-' {
        if text[0] == '+' {
            lemma_signed_digits_range(text.drop_first(), false);
        } else {
            lemma_signed_digits_range(text, false);
        }
    }
}

/// Reads an amount from decimal text.
pub fn parse_amount(text: &[char]) -> (r: Result<i32, IntErrorKind>)
    ensures
        match r {
            Err(e) => parsed_amount(text@) == Err::<int, IntErrorKind>(e),
            Ok(n) => parsed_amount(text@) == Ok::<int, IntErrorKind>(n as int) && n >= 0,
        },
{
    proof {
        lemma_amount_is_not_negative(text@);
    }
    if text.len() > 0 && text[0] == '-' {
        Err(IntErrorKind::InvalidDigit)
    } else {
        parse_i32(text)
    }
}

} // verus!
