//! Integers as texts in base ten.

use vstd::prelude::*;
use crate::rules::{greatest, least, of_integer};
use crate::types::{RawType, Type};

verus! {

/// Whether a character is one of the digits `0` to `9`.
pub open spec fn is_digit(c: char) -> bool {
    0x30 <= c as u32 <= 0x39
}

/// The number that digits stand for in base ten.
pub open spec fn digits_value(digits: Seq<char>) -> nat
    decreases digits.len(),
{
    if digits.len() == 0 {
        0
    } else {
        digits_value(digits.drop_last()) * 10 + (digits.last() as u32 - 0x30) as nat
    }
}

/// Whether a text is one digit or more.
pub open spec fn all_digits(text: Seq<char>) -> bool {
    text.len() > 0 && forall|i: int| 0 <= i < text.len() ==> is_digit(#[trigger] text[i])
}

/// The integer that a text says in base ten: digits, after a `+` or, where
/// a sign is allowed, a `-`.
pub open spec fn number_of(text: Seq<char>, signed: bool) -> Option<int> {
    if text.len() == 0 {
        None
    } else if text[0] == '+' {
        if all_digits(text.skip(1)) {
            Some(digits_value(text.skip(1)) as int)
        } else {
            None
        }
    } else if text[0] == '-' && signed {
        if all_digits(text.skip(1)) {
            Some(-(digits_value(text.skip(1)) as int))
        } else {
            None
        }
    } else if all_digits(text) {
        Some(digits_value(text) as int)
    } else {
        None
    }
}

/// The integer of a kind that a text says, where it says one of the kind.
pub open spec fn integer_of(kind: RawType, text: Seq<char>) -> Option<int> {
    match number_of(text, kind.is_signed()) {
        Some(i) => if least(kind) <= i <= greatest(kind) {
            Some(i)
        } else {
            None
        },
        None => None,
    }
}

/// The number that longer digits say is no less than the number that their
/// start says.
pub proof fn lemma_digits_grow(digits: Seq<char>, n: int)
    requires
        0 <= n <= digits.len(),
    ensures
        digits_value(digits.subrange(0, n)) <= digits_value(digits),
    decreases digits.len() - n,
{
    if n < digits.len() {
        lemma_digits_grow(digits, n + 1);
        let longer = digits.subrange(0, n + 1);
        assert(longer.drop_last() =~= digits.subrange(0, n));
    } else {
        assert(digits.subrange(0, n) =~= digits);
    }
}

/// Reads the integer that a text says, as its size and whether a `-` stands
/// before it. Nothing is given where the text says no integer, or one whose
/// size is past the widest integers of the machine.
fn read_number(text: &Vec<char>, signed: bool) -> (r: Option<(bool, u128)>)
    ensures
        match r {
            Some((negative, size)) => number_of(text@, signed) == Some(
                if negative {
                    -(size as int)
                } else {
                    size as int
                },
            ) && (negative ==> signed),
            None => number_of(text@, signed) matches Some(i) ==> i > u128::MAX || i < -(
            u128::MAX as int),
        },
{
    if text.len() == 0 {
        return None;
    }
    let negative = text[0] == '-' && signed;
    let start: usize = if text[0] == '+' || negative {
        1
    } else {
        0
    };
    let ghost digits = text@.subrange(start as int, text.len() as int);
    assert(start == 1 ==> digits =~= text@.skip(1));
    assert(start == 0 ==> digits =~= text@);
    if start == text.len() {
        return None;
    }
    let mut size: u128 = 0;
    let mut i: usize = start;
    assert(digits.subrange(0, 0) =~= Seq::<char>::empty());
    while i < text.len()
        invariant
            start <= i <= text.len(),
            text.len() > 0,
            negative == (text@[0] == '-' && signed),
            start == 1 || start == 0,
            (start == 1) == (text@[0] == '+' || negative),
            start == 1 ==> digits == text@.skip(1),
            start == 0 ==> digits == text@,
            digits == text@.subrange(start as int, text.len() as int),
            forall|j: int| 0 <= j < i - start ==> is_digit(#[trigger] digits[j]),
            size == digits_value(digits.subrange(0, i - start)),
        decreases text.len() - i,
    {
        let c = text[i] as u32;
        if c < 0x30 || c > 0x39 {
            assert(!is_digit(digits[i - start]));
            assert(!all_digits(digits));
            return None;
        }
        let digit = (c - 0x30) as u128;
        proof {
            let longer = digits.subrange(0, i - start + 1);
            assert(longer.drop_last() =~= digits.subrange(0, i - start));
            assert(longer.last() == text@[i as int]);
            lemma_digits_grow(digits, i - start + 1);
        }
        if size > (u128::MAX - digit) / 10 {
            proof {
                let longer = digits.subrange(0, i - start + 1);
                assert(digits_value(longer) == size * 10 + digit);
                assert(digits_value(digits) > u128::MAX);
            }
            return None;
        }
        size = size * 10 + digit;
        i = i + 1;
    }
    assert(digits.subrange(0, digits.len() as int) =~= digits);
    Some((negative, size))
}

/// The value of an integer kind that holds a number, where the kind has
/// the number.
fn integer_value(kind: RawType, negative: bool, size: u128) -> (r: Option<Type>)
    requires
        kind.is_integer(),
    ensures
        ({
            let i = if negative {
                -(size as int)
            } else {
                size as int
            };
            match r {
                Some(t) => least(kind) <= i <= greatest(kind) && t@ == of_integer(kind, i),
                None => !(least(kind) <= i <= greatest(kind)),
            }
        }),
{
    match kind {
        RawType::Int8 => if negative {
            if size <= i8::MAX as u128 + 1 {
                Some(Type::Int8((-(size as i128)) as i8))
            } else {
                None
            }
        } else if size <= i8::MAX as u128 {
            Some(Type::Int8(size as i8))
        } else {
            None
        },
        RawType::Int16 => if negative {
            if size <= i16::MAX as u128 + 1 {
                Some(Type::Int16((-(size as i128)) as i16))
            } else {
                None
            }
        } else if size <= i16::MAX as u128 {
            Some(Type::Int16(size as i16))
        } else {
            None
        },
        RawType::Int32 => if negative {
            if size <= i32::MAX as u128 + 1 {
                Some(Type::Int32((-(size as i128)) as i32))
            } else {
                None
            }
        } else if size <= i32::MAX as u128 {
            Some(Type::Int32(size as i32))
        } else {
            None
        },
        RawType::Int => if negative {
            if size <= isize::MAX as u128 + 1 {
                Some(Type::Int((-(size as i128)) as isize))
            } else {
                None
            }
        } else if size <= isize::MAX as u128 {
            Some(Type::Int(size as isize))
        } else {
            None
        },
        RawType::Int64 => if negative {
            if size <= i64::MAX as u128 + 1 {
                Some(Type::Int64((-(size as i128)) as i64))
            } else {
                None
            }
        } else if size <= i64::MAX as u128 {
            Some(Type::Int64(size as i64))
        } else {
            None
        },
        RawType::Int128 => if negative {
            if size <= i128::MAX as u128 {
                Some(Type::Int128(-(size as i128)))
            } else if size == i128::MAX as u128 + 1 {
                Some(Type::Int128(i128::MIN))
            } else {
                None
            }
        } else if size <= i128::MAX as u128 {
            Some(Type::Int128(size as i128))
        } else {
            None
        },
        RawType::UInt8 => if (!negative || size == 0) && size <= u8::MAX as u128 {
            Some(Type::UInt8(size as u8))
        } else {
            None
        },
        RawType::UInt16 => if (!negative || size == 0) && size <= u16::MAX as u128 {
            Some(Type::UInt16(size as u16))
        } else {
            None
        },
        RawType::UInt32 => if (!negative || size == 0) && size <= u32::MAX as u128 {
            Some(Type::UInt32(size as u32))
        } else {
            None
        },
        RawType::UInt => if (!negative || size == 0) && size <= usize::MAX as u128 {
            Some(Type::UInt(size as usize))
        } else {
            None
        },
        RawType::UInt64 => if (!negative || size == 0) && size <= u64::MAX as u128 {
            Some(Type::UInt64(size as u64))
        } else {
            None
        },
        _ => if !negative || size == 0 {
            Some(Type::UInt128(size))
        } else {
            None
        },
    }
}

/// The integer of a kind that a text says: see [`integer_of`].
pub fn read_integer(kind: RawType, text: &Vec<char>) -> (r: Option<Type>)
    requires
        kind.is_integer(),
    ensures
        match r {
            Some(t) => integer_of(kind, text@) matches Some(i) && t@ == of_integer(kind, i),
            None => integer_of(kind, text@) is None,
        },
{
    let signed = match kind {
        RawType::Int8
        | RawType::Int16
        | RawType::Int32
        | RawType::Int
        | RawType::Int64
        | RawType::Int128 => true,
        _ => false,
    };
    match read_number(text, signed) {
        Some((negative, size)) => integer_value(kind, negative, size),
        None => None,
    }
}

} // verus!
