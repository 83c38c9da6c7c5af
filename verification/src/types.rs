//! The values of the machine and their kinds.

use vstd::prelude::*;
use crate::register::Register;

verus! {

/// The kind of a value: its tag without its payload.
#[derive(Clone, Copy, Debug, PartialEq, Eq, PartialOrd, Ord, Hash, Structural)]
pub enum RawType {
    Nil,
    Int8,
    Int16,
    Int32,
    Int,
    Int64,
    Int128,
    UInt8,
    UInt16,
    UInt32,
    UInt,
    UInt64,
    UInt128,
    Float32,
    Float64,
    Char,
    String,
    Boolean,
    Address,
    Pointer,
    Register,
}

/// A value of the machine.
///
/// `Float32` and `Float64` hold the bits of an IEEE 754 number. This library
/// moves and stores such a value and never reads it as a number: whatever
/// needs its numeric value ends in [`crate::Fault::FloatingPoint`].
///
/// `Register` names a register. It is written as the operand of an
/// instruction and never rests in a register.
#[derive(Clone, Debug, PartialEq)]
pub enum Type {
    Nil,
    Int8(i8),
    Int16(i16),
    Int32(i32),
    Int(isize),
    Int64(i64),
    Int128(i128),
    UInt8(u8),
    UInt16(u16),
    UInt32(u32),
    UInt(usize),
    UInt64(u64),
    UInt128(u128),
    Float32(u32),
    Float64(u64),
    Char(char),
    String(String),
    Boolean(bool),
    Address(usize),
    Pointer(usize),
    Register(Register),
}

/// What a [`Type`] stands for: the same value, with its text as a sequence
/// of characters.
pub enum Value {
    Nil,
    Int8(i8),
    Int16(i16),
    Int32(i32),
    Int(isize),
    Int64(i64),
    Int128(i128),
    UInt8(u8),
    UInt16(u16),
    UInt32(u32),
    UInt(usize),
    UInt64(u64),
    UInt128(u128),
    Float32(u32),
    Float64(u64),
    Char(char),
    String(Seq<char>),
    Boolean(bool),
    Address(usize),
    Pointer(usize),
    Register(Register),
}

impl Value {
    /// The kind of the value.
    pub open spec fn kind(self) -> RawType {
        match self {
            Value::Nil => RawType::Nil,
            Value::Int8(_) => RawType::Int8,
            Value::Int16(_) => RawType::Int16,
            Value::Int32(_) => RawType::Int32,
            Value::Int(_) => RawType::Int,
            Value::Int64(_) => RawType::Int64,
            Value::Int128(_) => RawType::Int128,
            Value::UInt8(_) => RawType::UInt8,
            Value::UInt16(_) => RawType::UInt16,
            Value::UInt32(_) => RawType::UInt32,
            Value::UInt(_) => RawType::UInt,
            Value::UInt64(_) => RawType::UInt64,
            Value::UInt128(_) => RawType::UInt128,
            Value::Float32(_) => RawType::Float32,
            Value::Float64(_) => RawType::Float64,
            Value::Char(_) => RawType::Char,
            Value::String(_) => RawType::String,
            Value::Boolean(_) => RawType::Boolean,
            Value::Address(_) => RawType::Address,
            Value::Pointer(_) => RawType::Pointer,
            Value::Register(_) => RawType::Register,
        }
    }

    /// Whether the value may rest in a register: every value but a
    /// register's name may.
    pub open spec fn storable(self) -> bool {
        !(self is Register)
    }
}

impl RawType {
    /// Whether values of this kind are signed integers.
    pub open spec fn is_signed(self) -> bool {
        self is Int8 || self is Int16 || self is Int32 || self is Int || self is Int64
            || self is Int128
    }

    /// Whether values of this kind are unsigned integers.
    pub open spec fn is_unsigned(self) -> bool {
        self is UInt8 || self is UInt16 || self is UInt32 || self is UInt || self is UInt64
            || self is UInt128
    }

    /// Whether values of this kind are integers.
    pub open spec fn is_integer(self) -> bool {
        self.is_signed() || self.is_unsigned()
    }

    /// Whether values of this kind are floating-point numbers.
    pub open spec fn is_float(self) -> bool {
        self is Float32 || self is Float64
    }

    /// Whether values of this kind are numbers.
    pub open spec fn is_numeric(self) -> bool {
        self.is_integer() || self.is_float()
    }
}

impl View for Type {
    type V = Value;

    open spec fn view(&self) -> Value {
        match self {
            Type::Nil => Value::Nil,
            Type::Int8(v) => Value::Int8(*v),
            Type::Int16(v) => Value::Int16(*v),
            Type::Int32(v) => Value::Int32(*v),
            Type::Int(v) => Value::Int(*v),
            Type::Int64(v) => Value::Int64(*v),
            Type::Int128(v) => Value::Int128(*v),
            Type::UInt8(v) => Value::UInt8(*v),
            Type::UInt16(v) => Value::UInt16(*v),
            Type::UInt32(v) => Value::UInt32(*v),
            Type::UInt(v) => Value::UInt(*v),
            Type::UInt64(v) => Value::UInt64(*v),
            Type::UInt128(v) => Value::UInt128(*v),
            Type::Float32(v) => Value::Float32(*v),
            Type::Float64(v) => Value::Float64(*v),
            Type::Char(v) => Value::Char(*v),
            Type::String(v) => Value::String(v@),
            Type::Boolean(v) => Value::Boolean(*v),
            Type::Address(v) => Value::Address(*v),
            Type::Pointer(v) => Value::Pointer(*v),
            Type::Register(v) => Value::Register(*v),
        }
    }
}

impl Type {
    /// The kind of the value.
    pub fn to_raw(&self) -> (kind: RawType)
        ensures
            kind == self@.kind(),
    {
        match self {
            Type::Nil => RawType::Nil,
            Type::Int8(_) => RawType::Int8,
            Type::Int16(_) => RawType::Int16,
            Type::Int32(_) => RawType::Int32,
            Type::Int(_) => RawType::Int,
            Type::Int64(_) => RawType::Int64,
            Type::Int128(_) => RawType::Int128,
            Type::UInt8(_) => RawType::UInt8,
            Type::UInt16(_) => RawType::UInt16,
            Type::UInt32(_) => RawType::UInt32,
            Type::UInt(_) => RawType::UInt,
            Type::UInt64(_) => RawType::UInt64,
            Type::UInt128(_) => RawType::UInt128,
            Type::Float32(_) => RawType::Float32,
            Type::Float64(_) => RawType::Float64,
            Type::Char(_) => RawType::Char,
            Type::String(_) => RawType::String,
            Type::Boolean(_) => RawType::Boolean,
            Type::Address(_) => RawType::Address,
            Type::Pointer(_) => RawType::Pointer,
            Type::Register(_) => RawType::Register,
        }
    }

    /// A second value that stands for the same as this one.
    pub fn copy(&self) -> (twin: Type)
        ensures
            twin@ == self@,
    {
        match self {
            Type::Nil => Type::Nil,
            Type::Int8(v) => Type::Int8(*v),
            Type::Int16(v) => Type::Int16(*v),
            Type::Int32(v) => Type::Int32(*v),
            Type::Int(v) => Type::Int(*v),
            Type::Int64(v) => Type::Int64(*v),
            Type::Int128(v) => Type::Int128(*v),
            Type::UInt8(v) => Type::UInt8(*v),
            Type::UInt16(v) => Type::UInt16(*v),
            Type::UInt32(v) => Type::UInt32(*v),
            Type::UInt(v) => Type::UInt(*v),
            Type::UInt64(v) => Type::UInt64(*v),
            Type::UInt128(v) => Type::UInt128(*v),
            Type::Float32(v) => Type::Float32(*v),
            Type::Float64(v) => Type::Float64(*v),
            Type::Char(v) => Type::Char(*v),
            Type::String(v) => Type::String(v.clone()),
            Type::Boolean(v) => Type::Boolean(*v),
            Type::Address(v) => Type::Address(*v),
            Type::Pointer(v) => Type::Pointer(*v),
            Type::Register(v) => Type::Register(*v),
        }
    }

    /// Tells whether two values are the same: of one kind, with one payload.
    /// Two floating-point values are the same here if their bits are.
    pub fn same(&self, other: &Type) -> (r: bool)
        ensures
            r == (self@ == other@),
    {
        match (self, other) {
            (Type::Nil, Type::Nil) => true,
            (Type::Int8(x), Type::Int8(y)) => *x == *y,
            (Type::Int16(x), Type::Int16(y)) => *x == *y,
            (Type::Int32(x), Type::Int32(y)) => *x == *y,
            (Type::Int(x), Type::Int(y)) => *x == *y,
            (Type::Int64(x), Type::Int64(y)) => *x == *y,
            (Type::Int128(x), Type::Int128(y)) => *x == *y,
            (Type::UInt8(x), Type::UInt8(y)) => *x == *y,
            (Type::UInt16(x), Type::UInt16(y)) => *x == *y,
            (Type::UInt32(x), Type::UInt32(y)) => *x == *y,
            (Type::UInt(x), Type::UInt(y)) => *x == *y,
            (Type::UInt64(x), Type::UInt64(y)) => *x == *y,
            (Type::UInt128(x), Type::UInt128(y)) => *x == *y,
            (Type::Float32(x), Type::Float32(y)) => *x == *y,
            (Type::Float64(x), Type::Float64(y)) => *x == *y,
            (Type::Char(x), Type::Char(y)) => *x == *y,
            (Type::Boolean(x), Type::Boolean(y)) => *x == *y,
            (Type::Address(x), Type::Address(y)) => *x == *y,
            (Type::Pointer(x), Type::Pointer(y)) => *x == *y,
            (Type::Register(x), Type::Register(y)) => *x == *y,
            (Type::String(x), Type::String(y)) => *x == *y,
            _ => false,
        }
    }

    /// Tells whether the value is of a floating-point kind.
    pub fn is_float(&self) -> (r: bool)
        ensures
            r == self@.kind().is_float(),
    {
        match self {
            Type::Float32(_) | Type::Float64(_) => true,
            _ => false,
        }
    }

    /// Tells whether the value is the name of a register.
    pub fn is_register(&self) -> (r: bool)
        ensures
            r == !self@.storable(),
    {
        match self {
            Type::Register(_) => true,
            _ => false,
        }
    }
}

} // verus!
