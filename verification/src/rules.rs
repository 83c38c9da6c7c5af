//! What the operators and conversions of the machine compute, stated over
//! [`Value`]s and the integers of mathematics.

use vstd::prelude::*;
use vstd::arithmetic::div_mod::{
    lemma_mod_add_multiples_vanish, lemma_mod_sub_multiples_vanish, lemma_small_mod,
};
use crate::bytes::is_scalar_value;
use crate::fault::Fault;
use crate::operations::{OpPrim1, OpPrim2};
use crate::types::{RawType, Value};

verus! {

/// The least integer of an integer kind.
pub open spec fn least(kind: RawType) -> int {
    match kind {
        RawType::Int8 => i8::MIN as int,
        RawType::Int16 => i16::MIN as int,
        RawType::Int32 => i32::MIN as int,
        RawType::Int => isize::MIN as int,
        RawType::Int64 => i64::MIN as int,
        RawType::Int128 => i128::MIN as int,
        _ => 0,
    }
}

/// The greatest integer of an integer kind.
pub open spec fn greatest(kind: RawType) -> int {
    match kind {
        RawType::Int8 => i8::MAX as int,
        RawType::Int16 => i16::MAX as int,
        RawType::Int32 => i32::MAX as int,
        RawType::Int => isize::MAX as int,
        RawType::Int64 => i64::MAX as int,
        RawType::Int128 => i128::MAX as int,
        RawType::UInt8 => u8::MAX as int,
        RawType::UInt16 => u16::MAX as int,
        RawType::UInt32 => u32::MAX as int,
        RawType::UInt => usize::MAX as int,
        RawType::UInt64 => u64::MAX as int,
        RawType::UInt128 => u128::MAX as int,
        _ => 0,
    }
}

/// How many integers an integer kind has.
pub open spec fn span(kind: RawType) -> int {
    greatest(kind) - least(kind) + 1
}

/// The integer of the kind that differs from `i` by a multiple of the kind's
/// span: what is left of `i` when the kind's arithmetic wraps around.
pub open spec fn wrapped(kind: RawType, i: int) -> int {
    let m = i % span(kind);
    if m > greatest(kind) {
        m - span(kind)
    } else {
        m
    }
}

/// The integer that a value of an integer kind holds.
pub open spec fn integer(v: Value) -> int {
    match v {
        Value::Int8(x) => x as int,
        Value::Int16(x) => x as int,
        Value::Int32(x) => x as int,
        Value::Int(x) => x as int,
        Value::Int64(x) => x as int,
        Value::Int128(x) => x as int,
        Value::UInt8(x) => x as int,
        Value::UInt16(x) => x as int,
        Value::UInt32(x) => x as int,
        Value::UInt(x) => x as int,
        Value::UInt64(x) => x as int,
        Value::UInt128(x) => x as int,
        _ => 0,
    }
}

/// The value of an integer kind that holds `i`, for `i` from `least(kind)`
/// to `greatest(kind)`.
pub open spec fn of_integer(kind: RawType, i: int) -> Value {
    match kind {
        RawType::Int8 => Value::Int8(i as i8),
        RawType::Int16 => Value::Int16(i as i16),
        RawType::Int32 => Value::Int32(i as i32),
        RawType::Int => Value::Int(i as isize),
        RawType::Int64 => Value::Int64(i as i64),
        RawType::Int128 => Value::Int128(i as i128),
        RawType::UInt8 => Value::UInt8(i as u8),
        RawType::UInt16 => Value::UInt16(i as u16),
        RawType::UInt32 => Value::UInt32(i as u32),
        RawType::UInt => Value::UInt(i as usize),
        RawType::UInt64 => Value::UInt64(i as u64),
        RawType::UInt128 => Value::UInt128(i as u128),
        _ => Value::Nil,
    }
}

/// The size of an integer without its sign.
pub open spec fn magnitude(x: int) -> int {
    if x < 0 {
        -x
    } else {
        x
    }
}

/// The quotient of two integers, rounded toward zero.
pub open spec fn quotient(x: int, y: int) -> int {
    if (x < 0) == (y < 0) {
        magnitude(x) / magnitude(y)
    } else {
        -(magnitude(x) / magnitude(y))
    }
}

/// What is left of `x` after division by `y` with the quotient rounded
/// toward zero: it has the sign of `x`.
pub open spec fn remainder(x: int, y: int) -> int {
    if x < 0 {
        -(magnitude(x) % magnitude(y))
    } else {
        magnitude(x) % magnitude(y)
    }
}

/// The result of an arithmetic operator on two integers of one kind. Sums,
/// differences and products wrap around; a division by zero, and the one
/// division whose quotient is past the greatest integer of the kind, fail.
pub open spec fn arithmetic(op: OpPrim2, kind: RawType, x: int, y: int) -> Result<int, Fault> {
    match op {
        OpPrim2::Add => Ok(wrapped(kind, x + y)),
        OpPrim2::Subtract => Ok(wrapped(kind, x - y)),
        OpPrim2::Multiplication => Ok(wrapped(kind, x * y)),
        OpPrim2::Division => if y == 0 {
            Err(Fault::DivisionByZero)
        } else if quotient(x, y) > greatest(kind) {
            Err(Fault::Overflow)
        } else {
            Ok(quotient(x, y))
        },
        OpPrim2::Modulus => if y == 0 {
            Err(Fault::DivisionByZero)
        } else if quotient(x, y) > greatest(kind) {
            Err(Fault::Overflow)
        } else {
            Ok(remainder(x, y))
        },
        _ => Err(Fault::TypeMismatch),
    }
}

/// The `char` with the given number, where there is one.
pub open spec fn scalar(n: int) -> Result<Value, Fault> {
    if 0 <= n && is_scalar_value(n as nat) {
        Ok(Value::Char(n as char))
    } else {
        Err(Fault::InvalidChar)
    }
}

/// How a first thing stands to a second one in an order.
#[derive(Clone, Copy, Debug, PartialEq, Eq, Structural)]
pub enum Order {
    Before,
    Same,
    After,
}

/// How a first integer stands to a second.
pub open spec fn order_of_integers(x: int, y: int) -> Order {
    if x < y {
        Order::Before
    } else if x == y {
        Order::Same
    } else {
        Order::After
    }
}

/// How a first text stands to a second in the lexicographic order of their
/// characters' numbers.
pub open spec fn order_of_texts(a: Seq<char>, b: Seq<char>) -> Order
    decreases a.len(),
{
    if a.len() == 0 {
        if b.len() == 0 {
            Order::Same
        } else {
            Order::Before
        }
    } else if b.len() == 0 {
        Order::After
    } else if a[0] != b[0] {
        order_of_integers(a[0] as int, b[0] as int)
    } else {
        order_of_texts(a.skip(1), b.skip(1))
    }
}

/// Whether a comparison operator holds of two things that stand in the given
/// order.
pub open spec fn holds(op: OpPrim2, order: Order) -> bool {
    match op {
        OpPrim2::Equal => order is Same,
        OpPrim2::NotEqual => !(order is Same),
        OpPrim2::Greater => order is After,
        OpPrim2::Less => order is Before,
        OpPrim2::GreaterEqual => !(order is Before),
        OpPrim2::LessEqual => !(order is After),
        _ => false,
    }
}

/// The result of a bitwise operator on two integers of one kind.
pub open spec fn bitwise(op: OpPrim2, a: Value, b: Value) -> Value {
    match (a, b) {
        (Value::Int8(x), Value::Int8(y)) => Value::Int8(
            match op {
                OpPrim2::BitwiseAnd => x & y,
                OpPrim2::BitwiseOr => x | y,
                _ => x ^ y,
            },
        ),
        (Value::Int16(x), Value::Int16(y)) => Value::Int16(
            match op {
                OpPrim2::BitwiseAnd => x & y,
                OpPrim2::BitwiseOr => x | y,
                _ => x ^ y,
            },
        ),
        (Value::Int32(x), Value::Int32(y)) => Value::Int32(
            match op {
                OpPrim2::BitwiseAnd => x & y,
                OpPrim2::BitwiseOr => x | y,
                _ => x ^ y,
            },
        ),
        (Value::Int(x), Value::Int(y)) => Value::Int(
            match op {
                OpPrim2::BitwiseAnd => x & y,
                OpPrim2::BitwiseOr => x | y,
                _ => x ^ y,
            },
        ),
        (Value::Int64(x), Value::Int64(y)) => Value::Int64(
            match op {
                OpPrim2::BitwiseAnd => x & y,
                OpPrim2::BitwiseOr => x | y,
                _ => x ^ y,
            },
        ),
        (Value::Int128(x), Value::Int128(y)) => Value::Int128(
            match op {
                OpPrim2::BitwiseAnd => x & y,
                OpPrim2::BitwiseOr => x | y,
                _ => x ^ y,
            },
        ),
        (Value::UInt8(x), Value::UInt8(y)) => Value::UInt8(
            match op {
                OpPrim2::BitwiseAnd => x & y,
                OpPrim2::BitwiseOr => x | y,
                _ => x ^ y,
            },
        ),
        (Value::UInt16(x), Value::UInt16(y)) => Value::UInt16(
            match op {
                OpPrim2::BitwiseAnd => x & y,
                OpPrim2::BitwiseOr => x | y,
                _ => x ^ y,
            },
        ),
        (Value::UInt32(x), Value::UInt32(y)) => Value::UInt32(
            match op {
                OpPrim2::BitwiseAnd => x & y,
                OpPrim2::BitwiseOr => x | y,
                _ => x ^ y,
            },
        ),
        (Value::UInt(x), Value::UInt(y)) => Value::UInt(
            match op {
                OpPrim2::BitwiseAnd => x & y,
                OpPrim2::BitwiseOr => x | y,
                _ => x ^ y,
            },
        ),
        (Value::UInt64(x), Value::UInt64(y)) => Value::UInt64(
            match op {
                OpPrim2::BitwiseAnd => x & y,
                OpPrim2::BitwiseOr => x | y,
                _ => x ^ y,
            },
        ),
        (Value::UInt128(x), Value::UInt128(y)) => Value::UInt128(
            match op {
                OpPrim2::BitwiseAnd => x & y,
                OpPrim2::BitwiseOr => x | y,
                _ => x ^ y,
            },
        ),
        _ => Value::Nil,
    }
}

/// An integer with every bit turned.
pub open spec fn complement(a: Value) -> Value {
    match a {
        Value::Int8(x) => Value::Int8(!x),
        Value::Int16(x) => Value::Int16(!x),
        Value::Int32(x) => Value::Int32(!x),
        Value::Int(x) => Value::Int(!x),
        Value::Int64(x) => Value::Int64(!x),
        Value::Int128(x) => Value::Int128(!x),
        Value::UInt8(x) => Value::UInt8(!x),
        Value::UInt16(x) => Value::UInt16(!x),
        Value::UInt32(x) => Value::UInt32(!x),
        Value::UInt(x) => Value::UInt(!x),
        Value::UInt64(x) => Value::UInt64(!x),
        Value::UInt128(x) => Value::UInt128(!x),
        _ => Value::Nil,
    }
}

/// How many bits an integer kind has.
pub open spec fn bits(kind: RawType) -> nat {
    match kind {
        RawType::Int8 => 8,
        RawType::Int16 => 16,
        RawType::Int32 => 32,
        RawType::Int => isize::BITS as nat,
        RawType::Int64 => 64,
        RawType::Int128 => 128,
        RawType::UInt8 => 8,
        RawType::UInt16 => 16,
        RawType::UInt32 => 32,
        RawType::UInt => usize::BITS as nat,
        RawType::UInt64 => 64,
        RawType::UInt128 => 128,
        _ => 1,
    }
}

/// An integer shifted by `n` places, `n` taken modulo the number of bits of
/// the integer's kind. A shift to the right of a signed integer keeps the
/// sign.
pub open spec fn shifted(op: OpPrim2, a: Value, n: usize) -> Value {
    let by = (n as nat % bits(a.kind())) as u32;
    match a {
        Value::Int8(x) => Value::Int8(
            if op is ShiftLeft {
                x << by
            } else {
                x >> by
            },
        ),
        Value::Int16(x) => Value::Int16(
            if op is ShiftLeft {
                x << by
            } else {
                x >> by
            },
        ),
        Value::Int32(x) => Value::Int32(
            if op is ShiftLeft {
                x << by
            } else {
                x >> by
            },
        ),
        Value::Int(x) => Value::Int(
            if op is ShiftLeft {
                x << by
            } else {
                x >> by
            },
        ),
        Value::Int64(x) => Value::Int64(
            if op is ShiftLeft {
                x << by
            } else {
                x >> by
            },
        ),
        Value::Int128(x) => Value::Int128(
            if op is ShiftLeft {
                x << by
            } else {
                x >> by
            },
        ),
        Value::UInt8(x) => Value::UInt8(
            if op is ShiftLeft {
                x << by
            } else {
                x >> by
            },
        ),
        Value::UInt16(x) => Value::UInt16(
            if op is ShiftLeft {
                x << by
            } else {
                x >> by
            },
        ),
        Value::UInt32(x) => Value::UInt32(
            if op is ShiftLeft {
                x << by
            } else {
                x >> by
            },
        ),
        Value::UInt(x) => Value::UInt(
            if op is ShiftLeft {
                x << by
            } else {
                x >> by
            },
        ),
        Value::UInt64(x) => Value::UInt64(
            if op is ShiftLeft {
                x << by
            } else {
                x >> by
            },
        ),
        Value::UInt128(x) => Value::UInt128(
            if op is ShiftLeft {
                x << by
            } else {
                x >> by
            },
        ),
        _ => Value::Nil,
    }
}

/// The one of a kind that `Increment` adds and `Decrement` takes away.
pub open spec fn unit(kind: RawType) -> Value {
    if kind is Char {
        Value::Char(1u8 as char)
    } else {
        of_integer(kind, 1)
    }
}

/// The result of a logical operator on two truth values.
pub open spec fn logic(op: OpPrim2, x: bool, y: bool) -> bool {
    match op {
        OpPrim2::And => x && y,
        OpPrim2::Or => x || y,
        _ => x != y,
    }
}

/// The result of an operator other than a shift and `SameType` on two values
/// of one kind.
pub open spec fn same_kind(op: OpPrim2, a: Value, b: Value) -> Result<Value, Fault> {
    let kind = a.kind();
    match op {
        OpPrim2::Add | OpPrim2::Subtract | OpPrim2::Multiplication | OpPrim2::Division
        | OpPrim2::Modulus => {
            if kind.is_integer() {
                match arithmetic(op, kind, integer(a), integer(b)) {
                    Ok(i) => Ok(of_integer(kind, i)),
                    Err(e) => Err(e),
                }
            } else if kind is Char {
                match arithmetic(op, RawType::UInt32, a->Char_0 as int, b->Char_0 as int) {
                    Ok(i) => scalar(i),
                    Err(e) => Err(e),
                }
            } else if kind is String && op is Add {
                Ok(Value::String(a->String_0 + b->String_0))
            } else if kind.is_float() {
                Err(Fault::FloatingPoint)
            } else {
                Err(Fault::TypeMismatch)
            }
        },
        OpPrim2::And | OpPrim2::Or | OpPrim2::Xor => {
            if kind is Boolean {
                Ok(Value::Boolean(logic(op, a->Boolean_0, b->Boolean_0)))
            } else {
                Err(Fault::TypeMismatch)
            }
        },
        OpPrim2::Equal | OpPrim2::NotEqual => {
            if kind.is_float() {
                Err(Fault::FloatingPoint)
            } else if kind.is_integer() || kind is Char || kind is String || kind is Boolean
                || kind is Nil {
                Ok(Value::Boolean((a == b) == (op is Equal)))
            } else {
                Err(Fault::TypeMismatch)
            }
        },
        OpPrim2::Greater | OpPrim2::Less | OpPrim2::GreaterEqual | OpPrim2::LessEqual => {
            if kind.is_integer() {
                Ok(Value::Boolean(holds(op, order_of_integers(integer(a), integer(b)))))
            } else if kind is Char {
                Ok(
                    Value::Boolean(
                        holds(op, order_of_integers(a->Char_0 as int, b->Char_0 as int)),
                    ),
                )
            } else if kind is String {
                Ok(Value::Boolean(holds(op, order_of_texts(a->String_0, b->String_0))))
            } else if kind.is_float() {
                Err(Fault::FloatingPoint)
            } else {
                Err(Fault::TypeMismatch)
            }
        },
        OpPrim2::BitwiseAnd | OpPrim2::BitwiseOr | OpPrim2::BitwiseXor => {
            if kind.is_integer() {
                Ok(bitwise(op, a, b))
            } else {
                Err(Fault::TypeMismatch)
            }
        },
        _ => Err(Fault::TypeMismatch),
    }
}

/// The result of an operator on two values.
///
/// `SameType` tells whether the two are of one kind. A shift takes an integer
/// and a `UInt`. Every other operator takes two values of one kind, and only
/// of the kinds it is defined on.
pub open spec fn solve2(op: OpPrim2, a: Value, b: Value) -> Result<Value, Fault> {
    match op {
        OpPrim2::SameType => Ok(Value::Boolean(a.kind() == b.kind())),
        OpPrim2::ShiftLeft | OpPrim2::ShiftRight => {
            if a.kind().is_integer() && b is UInt {
                Ok(shifted(op, a, b->UInt_0))
            } else {
                Err(Fault::TypeMismatch)
            }
        },
        _ => {
            if a.kind() != b.kind() {
                Err(Fault::TypeMismatch)
            } else {
                same_kind(op, a, b)
            }
        },
    }
}

/// The result of an operator on one value.
///
/// `Increment` adds the one of the value's kind and `Decrement` takes it
/// away, for integers and for a `char`'s number. `Not` turns a truth value
/// and `BitwiseNot` every bit of an integer.
pub open spec fn solve1(op: OpPrim1, a: Value) -> Result<Value, Fault> {
    let kind = a.kind();
    match op {
        OpPrim1::Increment | OpPrim1::Decrement => {
            if kind.is_integer() || kind is Char {
                same_kind(
                    if op is Increment {
                        OpPrim2::Add
                    } else {
                        OpPrim2::Subtract
                    },
                    a,
                    unit(kind),
                )
            } else if kind.is_float() {
                Err(Fault::FloatingPoint)
            } else {
                Err(Fault::TypeMismatch)
            }
        },
        OpPrim1::Not => {
            if kind is Boolean {
                Ok(Value::Boolean(!a->Boolean_0))
            } else {
                Err(Fault::TypeMismatch)
            }
        },
        OpPrim1::BitwiseNot => {
            if kind.is_integer() {
                Ok(complement(a))
            } else {
                Err(Fault::TypeMismatch)
            }
        },
    }
}

/// What a result over [`crate::Type`] stands for.
pub open spec fn outcome(r: Result<crate::types::Type, Fault>) -> Result<Value, Fault> {
    match r {
        Ok(t) => Ok(t@),
        Err(e) => Err(e),
    }
}

/// An integer kind has at least 256 integers, and its least integer is zero
/// or the negative of what follows its greatest.
pub proof fn lemma_span(kind: RawType)
    requires
        kind.is_integer(),
    ensures
        span(kind) >= 256,
        kind.is_unsigned() ==> least(kind) == 0,
        kind.is_signed() ==> least(kind) == -(greatest(kind) + 1),
{
}

/// Wrapping an integer that is less than a span away from its kind moves it
/// by one span at most.
pub proof fn lemma_wrapped_near(kind: RawType, i: int)
    requires
        kind.is_integer(),
        least(kind) - span(kind) <= i <= greatest(kind) + span(kind),
    ensures
        i > greatest(kind) ==> wrapped(kind, i) == i - span(kind),
        i < least(kind) ==> wrapped(kind, i) == i + span(kind),
        least(kind) <= i <= greatest(kind) ==> wrapped(kind, i) == i,
{
    let s = span(kind);
    lemma_span(kind);
    if i >= s {
        lemma_mod_sub_multiples_vanish(i, s);
        lemma_small_mod((i - s) as nat, s as nat);
    } else if i >= 0 {
        lemma_small_mod(i as nat, s as nat);
    } else if i >= -s {
        lemma_mod_add_multiples_vanish(i, s);
        lemma_small_mod((i + s) as nat, s as nat);
    } else {
        lemma_mod_add_multiples_vanish(i, s);
        lemma_mod_add_multiples_vanish(i + s, s);
        lemma_small_mod((i + s + s) as nat, s as nat);
    }
}

/// Whatever is wrapped lies in the kind.
pub proof fn lemma_wrapped_in_kind(kind: RawType, i: int)
    requires
        kind.is_integer(),
    ensures
        least(kind) <= wrapped(kind, i) <= greatest(kind),
{
    lemma_span(kind);
    vstd::arithmetic::div_mod::lemma_mod_bound(i, span(kind));
}

} // verus!
