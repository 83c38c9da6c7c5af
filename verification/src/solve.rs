//! The operators and conversions of the machine, as the engine runs them.

use vstd::prelude::*;
use crate::fault::Fault;
use crate::memory::Registers;
use crate::operations::{OpPrim1, OpPrim2, Operation};
use crate::register::Register;
use crate::rules::{
    arithmetic, lemma_wrapped_near, magnitude, order_of_texts, outcome,
    quotient, remainder, same_kind, solve1, solve2, Order,
};
use crate::text::chars_of;
use crate::types::{RawType, Type, Value};

verus! {

/// How a first text stands to a second: see [`order_of_texts`].
fn text_order(a: &String, b: &String) -> (r: Order)
    ensures
        r == order_of_texts(a@, b@),
{
    let x = chars_of(a.as_str());
    let y = chars_of(b.as_str());
    let mut i: usize = 0;
    assert(x@.skip(0) =~= x@);
    assert(y@.skip(0) =~= y@);
    while i < x.len() && i < y.len()
        invariant
            i <= x.len(),
            i <= y.len(),
            x@ == a@,
            y@ == b@,
            order_of_texts(x@, y@) == order_of_texts(x@.skip(i as int), y@.skip(i as int)),
        decreases x.len() - i,
    {
        proof {
            assert(x@.skip(i as int).skip(1) =~= x@.skip(i + 1));
            assert(y@.skip(i as int).skip(1) =~= y@.skip(i + 1));
            assert(x@.skip(i as int)[0] == x@[i as int]);
            assert(y@.skip(i as int)[0] == y@[i as int]);
            assert(x@.skip(i as int).len() > 0 && y@.skip(i as int).len() > 0);
        }
        let first: char = x[i];
        let second: char = y[i];
        if first != second {
            return if first < second {
                Order::Before
            } else {
                Order::After
            };
        }
        i = i + 1;
    }
    assert(x@.skip(i as int).len() == x.len() - i);
    assert(y@.skip(i as int).len() == y.len() - i);
    if i < y.len() {
        Order::Before
    } else if i < x.len() {
        Order::After
    } else {
        Order::Same
    }
}

/// Two texts stand the same in the order exactly if they are equal, and the
/// second comes before the first exactly if the first comes after the second.
pub proof fn lemma_order_of_texts(a: Seq<char>, b: Seq<char>)
    ensures
        (order_of_texts(a, b) is Same) == (a == b),
        (order_of_texts(a, b) is After) == (order_of_texts(b, a) is Before),
    decreases a.len(),
{
    if a.len() > 0 && b.len() > 0 {
        lemma_order_of_texts(a.skip(1), b.skip(1));
        if a[0] == b[0] && a.skip(1) == b.skip(1) {
            assert(a.len() == a.skip(1).len() + 1);
            assert(b.len() == b.skip(1).len() + 1);
            assert forall|i: int| 0 <= i < a.len() implies a[i] == b[i] by {
                if i > 0 {
                    assert(a[i] == a.skip(1)[i - 1]);
                    assert(b[i] == b.skip(1)[i - 1]);
                }
            }
            assert(a =~= b);
        }
        if a == b {
            assert(a.skip(1) == b.skip(1));
        }
    } else if a.len() == 0 && b.len() == 0 {
        assert(a =~= b);
    }
}

/// The quotient, rounded toward zero, and the remainder of two integers of at
/// most 65 bits.
fn divide(x: i128, y: i128) -> (r: (i128, i128))
    requires
        y != 0,
        -0x1_0000_0000_0000_0000 <= x <= 0x1_0000_0000_0000_0000,
        -0x1_0000_0000_0000_0000 <= y <= 0x1_0000_0000_0000_0000,
    ensures
        r.0 == quotient(x as int, y as int),
        r.1 == remainder(x as int, y as int),
        magnitude(r.0 as int) <= magnitude(x as int),
        magnitude(r.1 as int) <= magnitude(x as int),
{
    let ax: i128 = if x < 0 { -x } else { x };
    let ay: i128 = if y < 0 { -y } else { y };
    let q = ax / ay;
    let m = ax % ay;
    proof {
        vstd::arithmetic::div_mod::lemma_div_is_ordered_by_denominator(ax as int, 1, ay as int);
        vstd::arithmetic::div_mod::lemma_div_basics(ax as int);
        vstd::arithmetic::div_mod::lemma_mod_decreases(ax as nat, ay as nat);
        vstd::arithmetic::div_mod::lemma_div_pos_is_pos(ax as int, ay as int);
    }
    ((if (x < 0) == (y < 0) { q } else { -q }), (if x < 0 { -m } else { m }))
}

/// The operators on two values of kind `Int8`.
fn same_int8(op: OpPrim2, x: i8, y: i8) -> (r: Result<Type, Fault>)
    ensures
        outcome(r) == same_kind(op, Value::Int8(x), Value::Int8(y)),
{
    proof {
        lemma_wrapped_near(RawType::Int8, x + y);
        lemma_wrapped_near(RawType::Int8, x - y);
    }
    match op {
        OpPrim2::Add => Ok(Type::Int8(x.wrapping_add(y))),
        OpPrim2::Subtract => Ok(Type::Int8(x.wrapping_sub(y))),
        OpPrim2::Multiplication => Ok(Type::Int8(x.wrapping_mul(y))),
        OpPrim2::Division | OpPrim2::Modulus => {
            if y == 0 {
                Err(Fault::DivisionByZero)
            } else {
                let (q, m) = divide(x as i128, y as i128);
                if q > i8::MAX as i128 {
                    Err(Fault::Overflow)
                } else if let OpPrim2::Division = op {
                    Ok(Type::Int8(q as i8))
                } else {
                    Ok(Type::Int8(m as i8))
                }
            }
        },
        OpPrim2::Equal => Ok(Type::Boolean(x == y)),
        OpPrim2::NotEqual => Ok(Type::Boolean(x != y)),
        OpPrim2::Greater => Ok(Type::Boolean(x > y)),
        OpPrim2::Less => Ok(Type::Boolean(x < y)),
        OpPrim2::GreaterEqual => Ok(Type::Boolean(x >= y)),
        OpPrim2::LessEqual => Ok(Type::Boolean(x <= y)),
        OpPrim2::BitwiseAnd => Ok(Type::Int8(x & y)),
        OpPrim2::BitwiseOr => Ok(Type::Int8(x | y)),
        OpPrim2::BitwiseXor => Ok(Type::Int8(x ^ y)),
        _ => Err(Fault::TypeMismatch),
    }
}

/// The operators on two values of kind `Int16`.
fn same_int16(op: OpPrim2, x: i16, y: i16) -> (r: Result<Type, Fault>)
    ensures
        outcome(r) == same_kind(op, Value::Int16(x), Value::Int16(y)),
{
    proof {
        lemma_wrapped_near(RawType::Int16, x + y);
        lemma_wrapped_near(RawType::Int16, x - y);
    }
    match op {
        OpPrim2::Add => Ok(Type::Int16(x.wrapping_add(y))),
        OpPrim2::Subtract => Ok(Type::Int16(x.wrapping_sub(y))),
        OpPrim2::Multiplication => Ok(Type::Int16(x.wrapping_mul(y))),
        OpPrim2::Division | OpPrim2::Modulus => {
            if y == 0 {
                Err(Fault::DivisionByZero)
            } else {
                let (q, m) = divide(x as i128, y as i128);
                if q > i16::MAX as i128 {
                    Err(Fault::Overflow)
                } else if let OpPrim2::Division = op {
                    Ok(Type::Int16(q as i16))
                } else {
                    Ok(Type::Int16(m as i16))
                }
            }
        },
        OpPrim2::Equal => Ok(Type::Boolean(x == y)),
        OpPrim2::NotEqual => Ok(Type::Boolean(x != y)),
        OpPrim2::Greater => Ok(Type::Boolean(x > y)),
        OpPrim2::Less => Ok(Type::Boolean(x < y)),
        OpPrim2::GreaterEqual => Ok(Type::Boolean(x >= y)),
        OpPrim2::LessEqual => Ok(Type::Boolean(x <= y)),
        OpPrim2::BitwiseAnd => Ok(Type::Int16(x & y)),
        OpPrim2::BitwiseOr => Ok(Type::Int16(x | y)),
        OpPrim2::BitwiseXor => Ok(Type::Int16(x ^ y)),
        _ => Err(Fault::TypeMismatch),
    }
}

/// The operators on two values of kind `Int32`.
fn same_int32(op: OpPrim2, x: i32, y: i32) -> (r: Result<Type, Fault>)
    ensures
        outcome(r) == same_kind(op, Value::Int32(x), Value::Int32(y)),
{
    proof {
        lemma_wrapped_near(RawType::Int32, x + y);
        lemma_wrapped_near(RawType::Int32, x - y);
    }
    match op {
        OpPrim2::Add => Ok(Type::Int32(x.wrapping_add(y))),
        OpPrim2::Subtract => Ok(Type::Int32(x.wrapping_sub(y))),
        OpPrim2::Multiplication => Ok(Type::Int32(x.wrapping_mul(y))),
        OpPrim2::Division | OpPrim2::Modulus => {
            if y == 0 {
                Err(Fault::DivisionByZero)
            } else {
                let (q, m) = divide(x as i128, y as i128);
                if q > i32::MAX as i128 {
                    Err(Fault::Overflow)
                } else if let OpPrim2::Division = op {
                    Ok(Type::Int32(q as i32))
                } else {
                    Ok(Type::Int32(m as i32))
                }
            }
        },
        OpPrim2::Equal => Ok(Type::Boolean(x == y)),
        OpPrim2::NotEqual => Ok(Type::Boolean(x != y)),
        OpPrim2::Greater => Ok(Type::Boolean(x > y)),
        OpPrim2::Less => Ok(Type::Boolean(x < y)),
        OpPrim2::GreaterEqual => Ok(Type::Boolean(x >= y)),
        OpPrim2::LessEqual => Ok(Type::Boolean(x <= y)),
        OpPrim2::BitwiseAnd => Ok(Type::Int32(x & y)),
        OpPrim2::BitwiseOr => Ok(Type::Int32(x | y)),
        OpPrim2::BitwiseXor => Ok(Type::Int32(x ^ y)),
        _ => Err(Fault::TypeMismatch),
    }
}

/// The operators on two values of kind `Int`.
fn same_int(op: OpPrim2, x: isize, y: isize) -> (r: Result<Type, Fault>)
    ensures
        outcome(r) == same_kind(op, Value::Int(x), Value::Int(y)),
{
    proof {
        lemma_wrapped_near(RawType::Int, x + y);
        lemma_wrapped_near(RawType::Int, x - y);
    }
    match op {
        OpPrim2::Add => Ok(Type::Int(x.wrapping_add(y))),
        OpPrim2::Subtract => Ok(Type::Int(x.wrapping_sub(y))),
        OpPrim2::Multiplication => Ok(Type::Int(x.wrapping_mul(y))),
        OpPrim2::Division | OpPrim2::Modulus => {
            if y == 0 {
                Err(Fault::DivisionByZero)
            } else {
                let (q, m) = divide(x as i128, y as i128);
                if q > isize::MAX as i128 {
                    Err(Fault::Overflow)
                } else if let OpPrim2::Division = op {
                    Ok(Type::Int(q as isize))
                } else {
                    Ok(Type::Int(m as isize))
                }
            }
        },
        OpPrim2::Equal => Ok(Type::Boolean(x == y)),
        OpPrim2::NotEqual => Ok(Type::Boolean(x != y)),
        OpPrim2::Greater => Ok(Type::Boolean(x > y)),
        OpPrim2::Less => Ok(Type::Boolean(x < y)),
        OpPrim2::GreaterEqual => Ok(Type::Boolean(x >= y)),
        OpPrim2::LessEqual => Ok(Type::Boolean(x <= y)),
        OpPrim2::BitwiseAnd => Ok(Type::Int(x & y)),
        OpPrim2::BitwiseOr => Ok(Type::Int(x | y)),
        OpPrim2::BitwiseXor => Ok(Type::Int(x ^ y)),
        _ => Err(Fault::TypeMismatch),
    }
}

/// The operators on two values of kind `Int64`.
fn same_int64(op: OpPrim2, x: i64, y: i64) -> (r: Result<Type, Fault>)
    ensures
        outcome(r) == same_kind(op, Value::Int64(x), Value::Int64(y)),
{
    proof {
        lemma_wrapped_near(RawType::Int64, x + y);
        lemma_wrapped_near(RawType::Int64, x - y);
    }
    match op {
        OpPrim2::Add => Ok(Type::Int64(x.wrapping_add(y))),
        OpPrim2::Subtract => Ok(Type::Int64(x.wrapping_sub(y))),
        OpPrim2::Multiplication => Ok(Type::Int64(x.wrapping_mul(y))),
        OpPrim2::Division | OpPrim2::Modulus => {
            if y == 0 {
                Err(Fault::DivisionByZero)
            } else {
                let (q, m) = divide(x as i128, y as i128);
                if q > i64::MAX as i128 {
                    Err(Fault::Overflow)
                } else if let OpPrim2::Division = op {
                    Ok(Type::Int64(q as i64))
                } else {
                    Ok(Type::Int64(m as i64))
                }
            }
        },
        OpPrim2::Equal => Ok(Type::Boolean(x == y)),
        OpPrim2::NotEqual => Ok(Type::Boolean(x != y)),
        OpPrim2::Greater => Ok(Type::Boolean(x > y)),
        OpPrim2::Less => Ok(Type::Boolean(x < y)),
        OpPrim2::GreaterEqual => Ok(Type::Boolean(x >= y)),
        OpPrim2::LessEqual => Ok(Type::Boolean(x <= y)),
        OpPrim2::BitwiseAnd => Ok(Type::Int64(x & y)),
        OpPrim2::BitwiseOr => Ok(Type::Int64(x | y)),
        OpPrim2::BitwiseXor => Ok(Type::Int64(x ^ y)),
        _ => Err(Fault::TypeMismatch),
    }
}

/// The operators on two values of kind `Int128`.
fn same_int128(op: OpPrim2, x: i128, y: i128) -> (r: Result<Type, Fault>)
    ensures
        outcome(r) == same_kind(op, Value::Int128(x), Value::Int128(y)),
{
    proof {
        lemma_wrapped_near(RawType::Int128, x + y);
        lemma_wrapped_near(RawType::Int128, x - y);
    }
    match op {
        OpPrim2::Add => Ok(Type::Int128(x.wrapping_add(y))),
        OpPrim2::Subtract => Ok(Type::Int128(x.wrapping_sub(y))),
        OpPrim2::Multiplication => Ok(Type::Int128(x.wrapping_mul(y))),
        OpPrim2::Division | OpPrim2::Modulus => {
            if y == 0 {
                Err(Fault::DivisionByZero)
            } else if x == i128::MIN && y == -1 {
                proof {
                    vstd::arithmetic::div_mod::lemma_div_basics(magnitude(x as int));
                }
                Err(Fault::Overflow)
            } else {
                let ax: u128 = if x < 0 { (-(x + 1)) as u128 + 1 } else { x as u128 };
                let ay: u128 = if y < 0 { (-(y + 1)) as u128 + 1 } else { y as u128 };
                let q = ax / ay;
                let m = ax % ay;
                proof {
                    assert(ax == magnitude(x as int));
                    assert(ay == magnitude(y as int));
                    vstd::arithmetic::div_mod::lemma_div_is_ordered_by_denominator(
                        ax as int,
                        1,
                        ay as int,
                    );
                    vstd::arithmetic::div_mod::lemma_div_basics(ax as int);
                    vstd::arithmetic::div_mod::lemma_mod_decreases(ax as nat, ay as nat);
                    if ay >= 2 {
                        vstd::arithmetic::div_mod::lemma_div_is_ordered_by_denominator(
                            ax as int,
                            2,
                            ay as int,
                        );
                        assert(ax as int / 2 <= 0x4000_0000_0000_0000_0000_0000_0000_0000);
                    }
                    assert(q <= ax);
                    assert((x < 0) == (y < 0) ==> q <= i128::MAX);
                    assert(quotient(x as int, y as int) <= i128::MAX);
                }
                if let OpPrim2::Division = op {
                    if (x < 0) == (y < 0) {
                        Ok(Type::Int128(q as i128))
                    } else if q > i128::MAX as u128 {
                        Ok(Type::Int128(i128::MIN))
                    } else {
                        Ok(Type::Int128(-(q as i128)))
                    }
                } else if x < 0 {
                    Ok(Type::Int128(-(m as i128)))
                } else {
                    Ok(Type::Int128(m as i128))
                }
            }
        },
        OpPrim2::Equal => Ok(Type::Boolean(x == y)),
        OpPrim2::NotEqual => Ok(Type::Boolean(x != y)),
        OpPrim2::Greater => Ok(Type::Boolean(x > y)),
        OpPrim2::Less => Ok(Type::Boolean(x < y)),
        OpPrim2::GreaterEqual => Ok(Type::Boolean(x >= y)),
        OpPrim2::LessEqual => Ok(Type::Boolean(x <= y)),
        OpPrim2::BitwiseAnd => Ok(Type::Int128(x & y)),
        OpPrim2::BitwiseOr => Ok(Type::Int128(x | y)),
        OpPrim2::BitwiseXor => Ok(Type::Int128(x ^ y)),
        _ => Err(Fault::TypeMismatch),
    }
}

/// The operators on two values of kind `UInt8`.
fn same_uint8(op: OpPrim2, x: u8, y: u8) -> (r: Result<Type, Fault>)
    ensures
        outcome(r) == same_kind(op, Value::UInt8(x), Value::UInt8(y)),
{
    proof {
        lemma_wrapped_near(RawType::UInt8, x + y);
        lemma_wrapped_near(RawType::UInt8, x - y);
    }
    match op {
        OpPrim2::Add => Ok(Type::UInt8(x.wrapping_add(y))),
        OpPrim2::Subtract => Ok(Type::UInt8(x.wrapping_sub(y))),
        OpPrim2::Multiplication => Ok(Type::UInt8(x.wrapping_mul(y))),
        OpPrim2::Division | OpPrim2::Modulus => {
            if y == 0 {
                Err(Fault::DivisionByZero)
            } else {
                proof {
                    vstd::arithmetic::div_mod::lemma_div_is_ordered_by_denominator(
                        x as int,
                        1,
                        y as int,
                    );
                    vstd::arithmetic::div_mod::lemma_div_basics(x as int);
                }
                if let OpPrim2::Division = op {
                    Ok(Type::UInt8(x / y))
                } else {
                    Ok(Type::UInt8(x % y))
                }
            }
        },
        OpPrim2::Equal => Ok(Type::Boolean(x == y)),
        OpPrim2::NotEqual => Ok(Type::Boolean(x != y)),
        OpPrim2::Greater => Ok(Type::Boolean(x > y)),
        OpPrim2::Less => Ok(Type::Boolean(x < y)),
        OpPrim2::GreaterEqual => Ok(Type::Boolean(x >= y)),
        OpPrim2::LessEqual => Ok(Type::Boolean(x <= y)),
        OpPrim2::BitwiseAnd => Ok(Type::UInt8(x & y)),
        OpPrim2::BitwiseOr => Ok(Type::UInt8(x | y)),
        OpPrim2::BitwiseXor => Ok(Type::UInt8(x ^ y)),
        _ => Err(Fault::TypeMismatch),
    }
}

/// The operators on two values of kind `UInt16`.
fn same_uint16(op: OpPrim2, x: u16, y: u16) -> (r: Result<Type, Fault>)
    ensures
        outcome(r) == same_kind(op, Value::UInt16(x), Value::UInt16(y)),
{
    proof {
        lemma_wrapped_near(RawType::UInt16, x + y);
        lemma_wrapped_near(RawType::UInt16, x - y);
    }
    match op {
        OpPrim2::Add => Ok(Type::UInt16(x.wrapping_add(y))),
        OpPrim2::Subtract => Ok(Type::UInt16(x.wrapping_sub(y))),
        OpPrim2::Multiplication => Ok(Type::UInt16(x.wrapping_mul(y))),
        OpPrim2::Division | OpPrim2::Modulus => {
            if y == 0 {
                Err(Fault::DivisionByZero)
            } else {
                proof {
                    vstd::arithmetic::div_mod::lemma_div_is_ordered_by_denominator(
                        x as int,
                        1,
                        y as int,
                    );
                    vstd::arithmetic::div_mod::lemma_div_basics(x as int);
                }
                if let OpPrim2::Division = op {
                    Ok(Type::UInt16(x / y))
                } else {
                    Ok(Type::UInt16(x % y))
                }
            }
        },
        OpPrim2::Equal => Ok(Type::Boolean(x == y)),
        OpPrim2::NotEqual => Ok(Type::Boolean(x != y)),
        OpPrim2::Greater => Ok(Type::Boolean(x > y)),
        OpPrim2::Less => Ok(Type::Boolean(x < y)),
        OpPrim2::GreaterEqual => Ok(Type::Boolean(x >= y)),
        OpPrim2::LessEqual => Ok(Type::Boolean(x <= y)),
        OpPrim2::BitwiseAnd => Ok(Type::UInt16(x & y)),
        OpPrim2::BitwiseOr => Ok(Type::UInt16(x | y)),
        OpPrim2::BitwiseXor => Ok(Type::UInt16(x ^ y)),
        _ => Err(Fault::TypeMismatch),
    }
}

/// The operators on two values of kind `UInt32`.
fn same_uint32(op: OpPrim2, x: u32, y: u32) -> (r: Result<Type, Fault>)
    ensures
        outcome(r) == same_kind(op, Value::UInt32(x), Value::UInt32(y)),
{
    proof {
        lemma_wrapped_near(RawType::UInt32, x + y);
        lemma_wrapped_near(RawType::UInt32, x - y);
    }
    match op {
        OpPrim2::Add => Ok(Type::UInt32(x.wrapping_add(y))),
        OpPrim2::Subtract => Ok(Type::UInt32(x.wrapping_sub(y))),
        OpPrim2::Multiplication => Ok(Type::UInt32(x.wrapping_mul(y))),
        OpPrim2::Division | OpPrim2::Modulus => {
            if y == 0 {
                Err(Fault::DivisionByZero)
            } else {
                proof {
                    vstd::arithmetic::div_mod::lemma_div_is_ordered_by_denominator(
                        x as int,
                        1,
                        y as int,
                    );
                    vstd::arithmetic::div_mod::lemma_div_basics(x as int);
                }
                if let OpPrim2::Division = op {
                    Ok(Type::UInt32(x / y))
                } else {
                    Ok(Type::UInt32(x % y))
                }
            }
        },
        OpPrim2::Equal => Ok(Type::Boolean(x == y)),
        OpPrim2::NotEqual => Ok(Type::Boolean(x != y)),
        OpPrim2::Greater => Ok(Type::Boolean(x > y)),
        OpPrim2::Less => Ok(Type::Boolean(x < y)),
        OpPrim2::GreaterEqual => Ok(Type::Boolean(x >= y)),
        OpPrim2::LessEqual => Ok(Type::Boolean(x <= y)),
        OpPrim2::BitwiseAnd => Ok(Type::UInt32(x & y)),
        OpPrim2::BitwiseOr => Ok(Type::UInt32(x | y)),
        OpPrim2::BitwiseXor => Ok(Type::UInt32(x ^ y)),
        _ => Err(Fault::TypeMismatch),
    }
}

/// The operators on two values of kind `UInt`.
fn same_uint(op: OpPrim2, x: usize, y: usize) -> (r: Result<Type, Fault>)
    ensures
        outcome(r) == same_kind(op, Value::UInt(x), Value::UInt(y)),
{
    proof {
        lemma_wrapped_near(RawType::UInt, x + y);
        lemma_wrapped_near(RawType::UInt, x - y);
    }
    match op {
        OpPrim2::Add => Ok(Type::UInt(x.wrapping_add(y))),
        OpPrim2::Subtract => Ok(Type::UInt(x.wrapping_sub(y))),
        OpPrim2::Multiplication => Ok(Type::UInt(x.wrapping_mul(y))),
        OpPrim2::Division | OpPrim2::Modulus => {
            if y == 0 {
                Err(Fault::DivisionByZero)
            } else {
                proof {
                    vstd::arithmetic::div_mod::lemma_div_is_ordered_by_denominator(
                        x as int,
                        1,
                        y as int,
                    );
                    vstd::arithmetic::div_mod::lemma_div_basics(x as int);
                }
                if let OpPrim2::Division = op {
                    Ok(Type::UInt(x / y))
                } else {
                    Ok(Type::UInt(x % y))
                }
            }
        },
        OpPrim2::Equal => Ok(Type::Boolean(x == y)),
        OpPrim2::NotEqual => Ok(Type::Boolean(x != y)),
        OpPrim2::Greater => Ok(Type::Boolean(x > y)),
        OpPrim2::Less => Ok(Type::Boolean(x < y)),
        OpPrim2::GreaterEqual => Ok(Type::Boolean(x >= y)),
        OpPrim2::LessEqual => Ok(Type::Boolean(x <= y)),
        OpPrim2::BitwiseAnd => Ok(Type::UInt(x & y)),
        OpPrim2::BitwiseOr => Ok(Type::UInt(x | y)),
        OpPrim2::BitwiseXor => Ok(Type::UInt(x ^ y)),
        _ => Err(Fault::TypeMismatch),
    }
}

/// The operators on two values of kind `UInt64`.
fn same_uint64(op: OpPrim2, x: u64, y: u64) -> (r: Result<Type, Fault>)
    ensures
        outcome(r) == same_kind(op, Value::UInt64(x), Value::UInt64(y)),
{
    proof {
        lemma_wrapped_near(RawType::UInt64, x + y);
        lemma_wrapped_near(RawType::UInt64, x - y);
    }
    match op {
        OpPrim2::Add => Ok(Type::UInt64(x.wrapping_add(y))),
        OpPrim2::Subtract => Ok(Type::UInt64(x.wrapping_sub(y))),
        OpPrim2::Multiplication => Ok(Type::UInt64(x.wrapping_mul(y))),
        OpPrim2::Division | OpPrim2::Modulus => {
            if y == 0 {
                Err(Fault::DivisionByZero)
            } else {
                proof {
                    vstd::arithmetic::div_mod::lemma_div_is_ordered_by_denominator(
                        x as int,
                        1,
                        y as int,
                    );
                    vstd::arithmetic::div_mod::lemma_div_basics(x as int);
                }
                if let OpPrim2::Division = op {
                    Ok(Type::UInt64(x / y))
                } else {
                    Ok(Type::UInt64(x % y))
                }
            }
        },
        OpPrim2::Equal => Ok(Type::Boolean(x == y)),
        OpPrim2::NotEqual => Ok(Type::Boolean(x != y)),
        OpPrim2::Greater => Ok(Type::Boolean(x > y)),
        OpPrim2::Less => Ok(Type::Boolean(x < y)),
        OpPrim2::GreaterEqual => Ok(Type::Boolean(x >= y)),
        OpPrim2::LessEqual => Ok(Type::Boolean(x <= y)),
        OpPrim2::BitwiseAnd => Ok(Type::UInt64(x & y)),
        OpPrim2::BitwiseOr => Ok(Type::UInt64(x | y)),
        OpPrim2::BitwiseXor => Ok(Type::UInt64(x ^ y)),
        _ => Err(Fault::TypeMismatch),
    }
}

/// The operators on two values of kind `UInt128`.
fn same_uint128(op: OpPrim2, x: u128, y: u128) -> (r: Result<Type, Fault>)
    ensures
        outcome(r) == same_kind(op, Value::UInt128(x), Value::UInt128(y)),
{
    proof {
        lemma_wrapped_near(RawType::UInt128, x + y);
        lemma_wrapped_near(RawType::UInt128, x - y);
    }
    match op {
        OpPrim2::Add => Ok(Type::UInt128(x.wrapping_add(y))),
        OpPrim2::Subtract => Ok(Type::UInt128(x.wrapping_sub(y))),
        OpPrim2::Multiplication => Ok(Type::UInt128(x.wrapping_mul(y))),
        OpPrim2::Division | OpPrim2::Modulus => {
            if y == 0 {
                Err(Fault::DivisionByZero)
            } else {
                proof {
                    vstd::arithmetic::div_mod::lemma_div_is_ordered_by_denominator(
                        x as int,
                        1,
                        y as int,
                    );
                    vstd::arithmetic::div_mod::lemma_div_basics(x as int);
                }
                if let OpPrim2::Division = op {
                    Ok(Type::UInt128(x / y))
                } else {
                    Ok(Type::UInt128(x % y))
                }
            }
        },
        OpPrim2::Equal => Ok(Type::Boolean(x == y)),
        OpPrim2::NotEqual => Ok(Type::Boolean(x != y)),
        OpPrim2::Greater => Ok(Type::Boolean(x > y)),
        OpPrim2::Less => Ok(Type::Boolean(x < y)),
        OpPrim2::GreaterEqual => Ok(Type::Boolean(x >= y)),
        OpPrim2::LessEqual => Ok(Type::Boolean(x <= y)),
        OpPrim2::BitwiseAnd => Ok(Type::UInt128(x & y)),
        OpPrim2::BitwiseOr => Ok(Type::UInt128(x | y)),
        OpPrim2::BitwiseXor => Ok(Type::UInt128(x ^ y)),
        _ => Err(Fault::TypeMismatch),
    }
}

/// The operators on two characters: arithmetic on their numbers, which must
/// give a character's number again, and comparison.
fn same_char(op: OpPrim2, x: char, y: char) -> (r: Result<Type, Fault>)
    ensures
        outcome(r) == same_kind(op, Value::Char(x), Value::Char(y)),
{
    match op {
        OpPrim2::Add | OpPrim2::Subtract | OpPrim2::Multiplication | OpPrim2::Division
        | OpPrim2::Modulus => {
            match same_uint32(op, x as u32, y as u32) {
                Ok(Type::UInt32(n)) => {
                    match char::from_u32(n) {
                        Some(c) => Ok(Type::Char(c)),
                        None => Err(Fault::InvalidChar),
                    }
                },
                Ok(_) => Err(Fault::InvalidChar),
                Err(e) => Err(e),
            }
        },
        OpPrim2::Equal => Ok(Type::Boolean(x as u32 == y as u32)),
        OpPrim2::NotEqual => Ok(Type::Boolean(x as u32 != y as u32)),
        OpPrim2::Greater => Ok(Type::Boolean(x as u32 > y as u32)),
        OpPrim2::Less => Ok(Type::Boolean((x as u32) < y as u32)),
        OpPrim2::GreaterEqual => Ok(Type::Boolean(x as u32 >= y as u32)),
        OpPrim2::LessEqual => Ok(Type::Boolean(x as u32 <= y as u32)),
        _ => Err(Fault::TypeMismatch),
    }
}

/// The operators on two texts: joining them, and comparison.
fn same_text(op: OpPrim2, x: String, y: String) -> (r: Result<Type, Fault>)
    ensures
        outcome(r) == same_kind(op, Value::String(x@), Value::String(y@)),
{
    proof {
        lemma_order_of_texts(x@, y@);
    }
    match op {
        OpPrim2::Add => Ok(Type::String(x.concat(y.as_str()))),
        OpPrim2::Equal => Ok(Type::Boolean(x == y)),
        OpPrim2::NotEqual => Ok(Type::Boolean(!(x == y))),
        OpPrim2::Greater | OpPrim2::Less | OpPrim2::GreaterEqual | OpPrim2::LessEqual => {
            let after = match text_order(&x, &y) {
                Order::Before => match op {
                    OpPrim2::Less | OpPrim2::LessEqual => true,
                    _ => false,
                },
                Order::Same => match op {
                    OpPrim2::GreaterEqual | OpPrim2::LessEqual => true,
                    _ => false,
                },
                Order::After => match op {
                    OpPrim2::Greater | OpPrim2::GreaterEqual => true,
                    _ => false,
                },
            };
            Ok(Type::Boolean(after))
        },
        _ => Err(Fault::TypeMismatch),
    }
}

/// The operators on two truth values.
fn same_boolean(op: OpPrim2, x: bool, y: bool) -> (r: Result<Type, Fault>)
    ensures
        outcome(r) == same_kind(op, Value::Boolean(x), Value::Boolean(y)),
{
    match op {
        OpPrim2::And => Ok(Type::Boolean(x && y)),
        OpPrim2::Or => Ok(Type::Boolean(x || y)),
        OpPrim2::Xor => Ok(Type::Boolean(x != y)),
        OpPrim2::Equal => Ok(Type::Boolean(x == y)),
        OpPrim2::NotEqual => Ok(Type::Boolean(x != y)),
        _ => Err(Fault::TypeMismatch),
    }
}

/// The operators on two values of a kind that holds no integer, character,
/// text or truth value.
fn same_other(op: OpPrim2, t1: &Type, t2: &Type) -> (r: Result<Type, Fault>)
    requires
        t1@.kind() == t2@.kind(),
        !t1@.kind().is_integer(),
        !(t1@.kind() is Char),
        !(t1@.kind() is String),
        !(t1@.kind() is Boolean),
    ensures
        outcome(r) == same_kind(op, t1@, t2@),
{
    match t1 {
        Type::Nil => match op {
            OpPrim2::Equal => Ok(Type::Boolean(true)),
            OpPrim2::NotEqual => Ok(Type::Boolean(false)),
            _ => Err(Fault::TypeMismatch),
        },
        Type::Float32(_) | Type::Float64(_) => match op {
            OpPrim2::Add
            | OpPrim2::Subtract
            | OpPrim2::Multiplication
            | OpPrim2::Division
            | OpPrim2::Modulus
            | OpPrim2::Equal
            | OpPrim2::NotEqual
            | OpPrim2::Greater
            | OpPrim2::Less
            | OpPrim2::GreaterEqual
            | OpPrim2::LessEqual => Err(Fault::FloatingPoint),
            _ => Err(Fault::TypeMismatch),
        },
        _ => Err(Fault::TypeMismatch),
    }
}

/// A shift of an integer by a number of places.
fn shift(op: OpPrim2, t1: Type, n: usize) -> (r: Result<Type, Fault>)
    requires
        op is ShiftLeft || op is ShiftRight,
    ensures
        outcome(r) == solve2(op, t1@, Value::UInt(n)),
{
    let left = match op {
        OpPrim2::ShiftLeft => true,
        _ => false,
    };
    match t1 {
        Type::Int8(x) => {
            let by = (n % (8)) as u32;
            if left {
                Ok(Type::Int8(x.wrapping_shl(by)))
            } else {
                Ok(Type::Int8(x.wrapping_shr(by)))
            }
        },
        Type::Int16(x) => {
            let by = (n % (16)) as u32;
            if left {
                Ok(Type::Int16(x.wrapping_shl(by)))
            } else {
                Ok(Type::Int16(x.wrapping_shr(by)))
            }
        },
        Type::Int32(x) => {
            let by = (n % (32)) as u32;
            if left {
                Ok(Type::Int32(x.wrapping_shl(by)))
            } else {
                Ok(Type::Int32(x.wrapping_shr(by)))
            }
        },
        Type::Int(x) => {
            let by = (n % (isize::BITS as usize)) as u32;
            if left {
                Ok(Type::Int(x.wrapping_shl(by)))
            } else {
                Ok(Type::Int(x.wrapping_shr(by)))
            }
        },
        Type::Int64(x) => {
            let by = (n % (64)) as u32;
            if left {
                Ok(Type::Int64(x.wrapping_shl(by)))
            } else {
                Ok(Type::Int64(x.wrapping_shr(by)))
            }
        },
        Type::Int128(x) => {
            let by = (n % (128)) as u32;
            if left {
                Ok(Type::Int128(x.wrapping_shl(by)))
            } else {
                Ok(Type::Int128(x.wrapping_shr(by)))
            }
        },
        Type::UInt8(x) => {
            let by = (n % (8)) as u32;
            if left {
                Ok(Type::UInt8(x.wrapping_shl(by)))
            } else {
                Ok(Type::UInt8(x.wrapping_shr(by)))
            }
        },
        Type::UInt16(x) => {
            let by = (n % (16)) as u32;
            if left {
                Ok(Type::UInt16(x.wrapping_shl(by)))
            } else {
                Ok(Type::UInt16(x.wrapping_shr(by)))
            }
        },
        Type::UInt32(x) => {
            let by = (n % (32)) as u32;
            if left {
                Ok(Type::UInt32(x.wrapping_shl(by)))
            } else {
                Ok(Type::UInt32(x.wrapping_shr(by)))
            }
        },
        Type::UInt(x) => {
            let by = (n % (usize::BITS as usize)) as u32;
            if left {
                Ok(Type::UInt(x.wrapping_shl(by)))
            } else {
                Ok(Type::UInt(x.wrapping_shr(by)))
            }
        },
        Type::UInt64(x) => {
            let by = (n % (64)) as u32;
            if left {
                Ok(Type::UInt64(x.wrapping_shl(by)))
            } else {
                Ok(Type::UInt64(x.wrapping_shr(by)))
            }
        },
        Type::UInt128(x) => {
            let by = (n % (128)) as u32;
            if left {
                Ok(Type::UInt128(x.wrapping_shl(by)))
            } else {
                Ok(Type::UInt128(x.wrapping_shr(by)))
            }
        },
        _ => Err(Fault::TypeMismatch),
    }
}

/// What an operation leaves in a register bank: the result of the operator
/// on the first register's value, or on both registers' values, in the first
/// register. Each register that the operator reads must name a slot.
pub open spec fn operated(op: Operation, bank: Seq<Value>, regs: [Register; 2]) -> Result<
    Seq<Value>,
    Fault,
> {
    match op {
        Operation::Prim1(op1) => {
            if !regs[0].is_slot() {
                Err(Fault::InvalidRegister)
            } else {
                match solve1(op1, bank[regs[0].slot()]) {
                    Ok(v) => Ok(bank.update(regs[0].slot(), v)),
                    Err(e) => Err(e),
                }
            }
        },
        Operation::Prim2(op2) => {
            if !regs[0].is_slot() || !regs[1].is_slot() {
                Err(Fault::InvalidRegister)
            } else {
                match solve2(op2, bank[regs[0].slot()], bank[regs[1].slot()]) {
                    Ok(v) => Ok(bank.update(regs[0].slot(), v)),
                    Err(e) => Err(e),
                }
            }
        },
    }
}

/// No operator gives the name of a register.
pub proof fn lemma_results_storable(a: Value, b: Value)
    ensures
        forall|op: OpPrim1| (#[trigger] solve1(op, a)) matches Ok(v) ==> v.storable(),
        forall|op: OpPrim2| (#[trigger] solve2(op, a, b)) matches Ok(v) ==> v.storable(),
{
}

impl Operation {
    /// Applies the operation to registers: see [`operated`]. Where it
    /// fails, the registers stay as they were.
    pub fn solve(&self, registers: &mut Registers, regs: &[Register; 2]) -> (r: Result<(), Fault>)
        requires
            old(registers).wf(),
        ensures
            final(registers).wf(),
            match r {
                Ok(()) => operated(*self, old(registers)@, *regs) == Ok::<Seq<Value>, Fault>(
                    final(registers)@,
                ),
                Err(e) => operated(*self, old(registers)@, *regs) == Err::<Seq<Value>, Fault>(e)
                    && final(registers)@ == old(registers)@,
            },
    {
        if !regs[0].names_slot() {
            return Err(Fault::InvalidRegister);
        }
        let result = match self {
            Operation::Prim1(op) => {
                let v = registers.clone(regs[0]);
                op.solve(v)
            },
            Operation::Prim2(op) => {
                if !regs[1].names_slot() {
                    return Err(Fault::InvalidRegister);
                }
                let v1 = registers.clone(regs[0]);
                let v2 = registers.clone(regs[1]);
                op.solve(v1, v2)
            },
        };
        match result {
            Ok(t) => {
                proof {
                    lemma_results_storable(
                        registers@[regs[0].slot()],
                        registers@[regs[1].slot()],
                    );
                }
                registers.insert(regs[0], t);
                Ok(())
            },
            Err(e) => Err(e),
        }
    }
}

/// The operators other than the shifts and `SameType` on two values.
#[verifier::rlimit(50)]
fn same(op: OpPrim2, t1: Type, t2: Type) -> (r: Result<Type, Fault>)
    requires
        !(op is SameType),
        !(op is ShiftLeft),
        !(op is ShiftRight),
    ensures
        outcome(r) == solve2(op, t1@, t2@),
{
    match (t1, t2) {
        (Type::Int8(x), Type::Int8(y)) => same_int8(op, x, y),
        (Type::Int16(x), Type::Int16(y)) => same_int16(op, x, y),
        (Type::Int32(x), Type::Int32(y)) => same_int32(op, x, y),
        (Type::Int(x), Type::Int(y)) => same_int(op, x, y),
        (Type::Int64(x), Type::Int64(y)) => same_int64(op, x, y),
        (Type::Int128(x), Type::Int128(y)) => same_int128(op, x, y),
        (Type::UInt8(x), Type::UInt8(y)) => same_uint8(op, x, y),
        (Type::UInt16(x), Type::UInt16(y)) => same_uint16(op, x, y),
        (Type::UInt32(x), Type::UInt32(y)) => same_uint32(op, x, y),
        (Type::UInt(x), Type::UInt(y)) => same_uint(op, x, y),
        (Type::UInt64(x), Type::UInt64(y)) => same_uint64(op, x, y),
        (Type::UInt128(x), Type::UInt128(y)) => same_uint128(op, x, y),
        (Type::Char(x), Type::Char(y)) => same_char(op, x, y),
        (Type::String(x), Type::String(y)) => same_text(op, x, y),
        (Type::Boolean(x), Type::Boolean(y)) => same_boolean(op, x, y),
        (a, b) => {
            if a.to_raw() == b.to_raw() {
                same_other(op, &a, &b)
            } else {
                Err(Fault::TypeMismatch)
            }
        },
    }
}

impl OpPrim2 {
    /// Applies the operator to two values: see [`solve2`].
    pub fn solve(&self, t1: Type, t2: Type) -> (r: Result<Type, Fault>)
        ensures
            outcome(r) == solve2(*self, t1@, t2@),
    {
        let op = *self;
        match op {
            OpPrim2::SameType => Ok(Type::Boolean(t1.to_raw() == t2.to_raw())),
            OpPrim2::ShiftLeft | OpPrim2::ShiftRight => match t2 {
                Type::UInt(n) => shift(op, t1, n),
                _ => Err(Fault::TypeMismatch),
            },
            _ => same(op, t1, t2),
        }
    }
}

/// `Increment` and `Decrement`, as the sum or the difference of a value and
/// the one of its kind.
#[verifier::rlimit(50)]
fn step_by_one(op: OpPrim2, t: Type) -> (r: Result<Type, Fault>)
    requires
        op is Add || op is Subtract,
    ensures
        outcome(r) == solve1(
            if op is Add {
                OpPrim1::Increment
            } else {
                OpPrim1::Decrement
            },
            t@,
        ),
{
    match t {
        Type::Int8(x) => same_int8(op, x, 1),
        Type::Int16(x) => same_int16(op, x, 1),
        Type::Int32(x) => same_int32(op, x, 1),
        Type::Int(x) => same_int(op, x, 1),
        Type::Int64(x) => same_int64(op, x, 1),
        Type::Int128(x) => same_int128(op, x, 1),
        Type::UInt8(x) => same_uint8(op, x, 1),
        Type::UInt16(x) => same_uint16(op, x, 1),
        Type::UInt32(x) => same_uint32(op, x, 1),
        Type::UInt(x) => same_uint(op, x, 1),
        Type::UInt64(x) => same_uint64(op, x, 1),
        Type::UInt128(x) => same_uint128(op, x, 1),
        Type::Char(x) => same_char(op, x, '\u{1}'),
        Type::Float32(_) | Type::Float64(_) => Err(Fault::FloatingPoint),
        _ => Err(Fault::TypeMismatch),
    }
}

/// `BitwiseNot`: every bit of an integer turned.
fn complemented(t: Type) -> (r: Result<Type, Fault>)
    ensures
        outcome(r) == solve1(OpPrim1::BitwiseNot, t@),
{
    match t {
        Type::Int8(x) => Ok(Type::Int8(!x)),
        Type::Int16(x) => Ok(Type::Int16(!x)),
        Type::Int32(x) => Ok(Type::Int32(!x)),
        Type::Int(x) => Ok(Type::Int(!x)),
        Type::Int64(x) => Ok(Type::Int64(!x)),
        Type::Int128(x) => Ok(Type::Int128(!x)),
        Type::UInt8(x) => Ok(Type::UInt8(!x)),
        Type::UInt16(x) => Ok(Type::UInt16(!x)),
        Type::UInt32(x) => Ok(Type::UInt32(!x)),
        Type::UInt(x) => Ok(Type::UInt(!x)),
        Type::UInt64(x) => Ok(Type::UInt64(!x)),
        Type::UInt128(x) => Ok(Type::UInt128(!x)),
        _ => Err(Fault::TypeMismatch),
    }
}

impl OpPrim1 {
    /// Applies the operator to a value: see [`solve1`].
    pub fn solve(&self, t: Type) -> (r: Result<Type, Fault>)
        ensures
            outcome(r) == solve1(*self, t@),
    {
        match self {
            OpPrim1::Increment => step_by_one(OpPrim2::Add, t),
            OpPrim1::Decrement => step_by_one(OpPrim2::Subtract, t),
            OpPrim1::Not => match t {
                Type::Boolean(x) => Ok(Type::Boolean(!x)),
                _ => Err(Fault::TypeMismatch),
            },
            OpPrim1::BitwiseNot => complemented(t),
        }
    }
}

} // verus!
