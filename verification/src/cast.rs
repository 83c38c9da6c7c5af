//! The conversion of a value to another kind.

use vstd::prelude::*;
use vstd::arithmetic::div_mod::{lemma_fundamental_div_mod, lemma_fundamental_div_mod_converse};
use crate::fault::Fault;
use crate::numbers::{integer_of, read_integer};
use crate::rules::{
    greatest, integer, lemma_wrapped_near, of_integer, outcome, scalar, span, wrapped,
};
use crate::text::{chars_of, text_of};
use crate::types::{RawType, Type, Value};

verus! {

/// Whether values of a kind can be converted at all: numbers, characters,
/// texts and truth values can.
pub open spec fn convertible(kind: RawType) -> bool {
    kind.is_numeric() || kind is Char || kind is String || kind is Boolean
}

/// The integer that a value gives when it is converted to an integer kind:
/// an integer itself, the number of a character, and 1 or 0 for a truth
/// value.
pub open spec fn source_integer(v: Value) -> Option<int> {
    match v {
        Value::Char(c) => Some(c as int),
        Value::Boolean(b) => Some(
            if b {
                1int
            } else {
                0int
            },
        ),
        _ => if v.kind().is_integer() {
            Some(integer(v))
        } else {
            None
        },
    }
}

/// The result of converting a value to a kind.
///
/// A value of the kind itself stays as it is. Between other kinds:
/// an integer, a character's number or a truth value becomes an integer of
/// the kind, wrapped into it; a text becomes the integer of the kind that it
/// says in base ten, if it says one; an integer becomes the character with
/// that number, if there is one, and a text of one character that
/// character; an integer, a character or a truth value becomes its text. A
/// conversion to or from a floating-point kind needs floating-point
/// arithmetic. Nothing else is converted.
pub open spec fn converted(v: Value, kind: RawType) -> Result<Value, Fault> {
    let from = v.kind();
    if from == kind {
        Ok(v)
    } else if !convertible(from) || !convertible(kind) {
        Err(Fault::UnsupportedCast)
    } else if from.is_float() || kind.is_float() {
        Err(Fault::FloatingPoint)
    } else if kind.is_integer() {
        match v {
            Value::String(text) => match integer_of(kind, text) {
                Some(i) => Ok(of_integer(kind, i)),
                None => Err(Fault::UnsupportedCast),
            },
            _ => match source_integer(v) {
                Some(i) => Ok(of_integer(kind, wrapped(kind, i))),
                None => Err(Fault::UnsupportedCast),
            },
        }
    } else if kind is Char {
        match v {
            Value::String(text) => if text.len() == 1 {
                Ok(Value::Char(text[0]))
            } else {
                Err(Fault::UnsupportedCast)
            },
            _ => if from.is_integer() {
                scalar(integer(v))
            } else {
                Err(Fault::UnsupportedCast)
            },
        }
    } else if kind is String {
        match text_of(v) {
            Ok(text) => Ok(Value::String(text)),
            Err(e) => Err(e),
        }
    } else {
        Err(Fault::UnsupportedCast)
    }
}

/// The negative of a positive integer, modulo a positive one.
proof fn lemma_mod_of_negative(a: int, s: int)
    requires
        a > 0,
        s > 0,
    ensures
        (-a) % s == if a % s == 0 {
            0
        } else {
            s - a % s
        },
{
    lemma_fundamental_div_mod(a, s);
    let q = a / s;
    let r = a % s;
    vstd::arithmetic::div_mod::lemma_mod_bound(a, s);
    if r == 0 {
        assert(-a == (-q) * s + 0) by (nonlinear_arith)
            requires
                a == s * q + r,
                r == 0,
        ;
        lemma_fundamental_div_mod_converse(-a, s, -q, 0);
    } else {
        assert(-a == (-q - 1) * s + (s - r)) by (nonlinear_arith)
            requires
                a == s * q + r,
        ;
        lemma_fundamental_div_mod_converse(-a, s, -q - 1, s - r);
    }
}

/// An integer as the machine's widest signed or unsigned integer.
enum Wide {
    Signed(i128),
    Unsigned(u128),
}

impl Wide {
    spec fn value(self) -> int {
        match self {
            Wide::Signed(i) => i as int,
            Wide::Unsigned(u) => u as int,
        }
    }
}

/// The integer that a value gives for a conversion: see [`source_integer`].
fn widen(value: &Type) -> (w: Option<Wide>)
    ensures
        match w {
            Some(wide) => source_integer(value@) == Some(wide.value()),
            None => source_integer(value@) is None,
        },
{
    match value {
        Type::Int8(v) => Some(Wide::Signed(*v as i128)),
        Type::Int16(v) => Some(Wide::Signed(*v as i128)),
        Type::Int32(v) => Some(Wide::Signed(*v as i128)),
        Type::Int(v) => Some(Wide::Signed(*v as i128)),
        Type::Int64(v) => Some(Wide::Signed(*v as i128)),
        Type::Int128(v) => Some(Wide::Signed(*v as i128)),
        Type::UInt8(v) => Some(Wide::Unsigned(*v as u128)),
        Type::UInt16(v) => Some(Wide::Unsigned(*v as u128)),
        Type::UInt32(v) => Some(Wide::Unsigned(*v as u128)),
        Type::UInt(v) => Some(Wide::Unsigned(*v as u128)),
        Type::UInt64(v) => Some(Wide::Unsigned(*v as u128)),
        Type::UInt128(v) => Some(Wide::Unsigned(*v as u128)),
        Type::Char(c) => Some(Wide::Unsigned(*c as u32 as u128)),
        Type::Boolean(b) => Some(Wide::Unsigned(if *b { 1 } else { 0 })),
        _ => None,
    }
}

/// How many integers an integer kind of at most 64 bits has.
fn span_of(kind: RawType) -> (s: Option<u128>)
    ensures
        match s {
            Some(n) => kind.is_integer() && n == span(kind) && n <= 0x1_0000_0000_0000_0000,
            None => !kind.is_integer() || kind is Int128 || kind is UInt128,
        },
{
    match kind {
        RawType::Int8 | RawType::UInt8 => Some(0x100),
        RawType::Int16 | RawType::UInt16 => Some(0x1_0000),
        RawType::Int32 | RawType::UInt32 => Some(0x1_0000_0000),
        RawType::Int | RawType::UInt => Some(usize::MAX as u128 + 1),
        RawType::Int64 | RawType::UInt64 => Some(0x1_0000_0000_0000_0000),
        _ => None,
    }
}

/// What is left of an integer after division by a positive one, from zero
/// up.
fn reduce(w: Wide, s: u128) -> (m: u128)
    requires
        0 < s <= 0x1_0000_0000_0000_0000,
    ensures
        m == w.value() % (s as int),
        m < s,
{
    match w {
        Wide::Unsigned(u) => u % s,
        Wide::Signed(i) => {
            if i >= 0 {
                i as u128 % s
            } else {
                let a: u128 = (-(i + 1)) as u128 + 1;
                proof {
                    lemma_mod_of_negative(a as int, s as int);
                }
                let r = a % s;
                if r == 0 {
                    0
                } else {
                    s - r
                }
            }
        },
    }
}

/// The value of an integer kind of at most 64 bits that a number below the
/// kind's span stands for: itself up to the greatest of the kind, and the
/// negative a span below it after that.
fn narrow(kind: RawType, m: u128) -> (t: Type)
    requires
        kind.is_integer(),
        !(kind is Int128),
        !(kind is UInt128),
        m < span(kind),
    ensures
        t@ == of_integer(
            kind,
            if m > greatest(kind) {
                m - span(kind)
            } else {
                m as int
            },
        ),
{
    match kind {
        RawType::Int8 => if m > i8::MAX as u128 {
            Type::Int8((m as i128 - 0x100) as i8)
        } else {
            Type::Int8(m as i8)
        },
        RawType::Int16 => if m > i16::MAX as u128 {
            Type::Int16((m as i128 - 0x1_0000) as i16)
        } else {
            Type::Int16(m as i16)
        },
        RawType::Int32 => if m > i32::MAX as u128 {
            Type::Int32((m as i128 - 0x1_0000_0000) as i32)
        } else {
            Type::Int32(m as i32)
        },
        RawType::Int => if m > isize::MAX as u128 {
            Type::Int((m as i128 - (usize::MAX as i128 + 1)) as isize)
        } else {
            Type::Int(m as isize)
        },
        RawType::Int64 => if m > i64::MAX as u128 {
            Type::Int64((m as i128 - 0x1_0000_0000_0000_0000) as i64)
        } else {
            Type::Int64(m as i64)
        },
        RawType::UInt8 => Type::UInt8(m as u8),
        RawType::UInt16 => Type::UInt16(m as u16),
        RawType::UInt32 => Type::UInt32(m as u32),
        RawType::UInt => Type::UInt(m as usize),
        _ => Type::UInt64(m as u64),
    }
}

/// Converts a value to a kind: see [`converted`].
pub fn cast(value: &Type, kind: RawType) -> (r: Result<Type, Fault>)
    ensures
        outcome(r) == converted(value@, kind),
{
    let from = value.to_raw();
    if from == kind {
        return Ok(value.copy());
    }
    match from {
        RawType::Nil | RawType::Address | RawType::Pointer | RawType::Register => {
            return Err(Fault::UnsupportedCast);
        },
        _ => {},
    }
    match kind {
        RawType::Nil | RawType::Address | RawType::Pointer | RawType::Register => Err(
            Fault::UnsupportedCast,
        ),
        RawType::Float32 | RawType::Float64 => Err(Fault::FloatingPoint),
        RawType::Boolean => match from {
            RawType::Float32 | RawType::Float64 => Err(Fault::FloatingPoint),
            _ => Err(Fault::UnsupportedCast),
        },
        RawType::String => match value.to_text() {
            Ok(text) => Ok(Type::String(text)),
            Err(e) => Err(e),
        },
        RawType::Char => match from {
            RawType::Float32 | RawType::Float64 => Err(Fault::FloatingPoint),
            RawType::Boolean => Err(Fault::UnsupportedCast),
            RawType::String => match value {
                Type::String(text) => {
                    let chars = chars_of(text.as_str());
                    if chars.len() == 1 {
                        Ok(Type::Char(chars[0]))
                    } else {
                        Err(Fault::UnsupportedCast)
                    }
                },
                _ => Err(Fault::UnsupportedCast),
            },
            _ => {
                let number: Option<u32> = match widen(value) {
                    Some(Wide::Signed(i)) => if 0 <= i && i <= 0x10FFFF {
                        Some(i as u32)
                    } else {
                        None
                    },
                    Some(Wide::Unsigned(u)) => if u <= 0x10FFFF {
                        Some(u as u32)
                    } else {
                        None
                    },
                    None => None,
                };
                match number {
                    Some(n) => match char::from_u32(n) {
                        Some(c) => Ok(Type::Char(c)),
                        None => Err(Fault::InvalidChar),
                    },
                    None => Err(Fault::InvalidChar),
                }
            },
        },
        _ => match from {
            RawType::Float32 | RawType::Float64 => Err(Fault::FloatingPoint),
            RawType::String => match value {
                Type::String(text) => match read_integer(kind, &chars_of(text.as_str())) {
                    Some(number) => Ok(number),
                    None => Err(Fault::UnsupportedCast),
                },
                _ => Err(Fault::UnsupportedCast),
            },
            _ => match widen(value) {
                None => Err(Fault::UnsupportedCast),
                Some(wide) => {
                    proof {
                        if kind is Int128 || kind is UInt128 {
                            lemma_wrapped_near(kind, wide.value());
                        }
                    }
                    match span_of(kind) {
                        Some(s) => Ok(narrow(kind, reduce(wide, s))),
                        None => match kind {
                            RawType::Int128 => match wide {
                                Wide::Signed(i) => Ok(Type::Int128(i)),
                                Wide::Unsigned(u) => if u > i128::MAX as u128 {
                                    Ok(Type::Int128(-((u128::MAX - u) as i128) - 1))
                                } else {
                                    Ok(Type::Int128(u as i128))
                                },
                            },
                            _ => match wide {
                                Wide::Unsigned(u) => Ok(Type::UInt128(u)),
                                Wide::Signed(i) => if i < 0 {
                                    Ok(Type::UInt128(u128::MAX - ((-(i + 1)) as u128)))
                                } else {
                                    Ok(Type::UInt128(i as u128))
                                },
                            },
                        },
                    }
                },
            },
        },
    }
}

} // verus!
