//! The bytes that stand for registers, kinds, operators and operation codes.

use vstd::prelude::*;
use crate::instructions::RawInstruction;
use crate::operations::{OpPrim1, OpPrim2, Operation};
use crate::register::{Register, NO_REGISTER};
use crate::types::RawType;

verus! {

/// A tag that an encoded program writes as one byte.
pub trait ByteForm: Sized {
    /// The byte that stands for the tag.
    spec fn byte_of(&self) -> u8;

    /// The tag that a byte stands for, if it stands for one.
    spec fn of_byte(byte: u8) -> Option<Self>;

    /// The byte that stands for the tag.
    fn to_byte(&self) -> (byte: u8)
        ensures
            byte == self.byte_of(),
            Self::of_byte(byte) == Some(*self),
    ;

    /// The tag that a byte stands for, or nothing where it stands for none.
    fn checked_from_byte(byte: u8) -> (r: Option<Self>)
        ensures
            r == Self::of_byte(byte),
            r matches Some(tag) ==> tag.byte_of() == byte,
    ;

    /// The tag that a byte stands for.
    fn from_byte(byte: u8) -> (tag: Self)
        requires
            Self::of_byte(byte) is Some,
        ensures
            Some(tag) == Self::of_byte(byte),
            tag.byte_of() == byte,
    {
        Self::checked_from_byte(byte).unwrap()
    }
}

impl ByteForm for RawInstruction {
    open spec fn byte_of(&self) -> u8 {
        match self {
            RawInstruction::Nop => 0,
            RawInstruction::Op => 1,
            RawInstruction::Mov => 2,
            RawInstruction::Cpy => 3,
            RawInstruction::Cast => 4,
            RawInstruction::Lea => 5,
            RawInstruction::Jmp => 6,
            RawInstruction::Ret => 7,
            RawInstruction::Call => 8,
            RawInstruction::Exit => 9,
            RawInstruction::Push => 10,
            RawInstruction::PushCpy => 11,
            RawInstruction::Pop => 12,
            RawInstruction::PopMany => 13,
            RawInstruction::StackCpy => 14,
            RawInstruction::PushFrame => 15,
            RawInstruction::PopFrame => 16,
            RawInstruction::TakeFrom => 17,
            RawInstruction::GiveTo => 18,
            RawInstruction::ThreadCreate => 19,
            RawInstruction::ThreadJoin => 20,
            RawInstruction::Assert => 21,
            RawInstruction::Dbg => 128,
            RawInstruction::Dump => 129,
        }
    }

    open spec fn of_byte(byte: u8) -> Option<Self> {
        if byte == 0 {
            Some(RawInstruction::Nop)
        } else if byte == 1 {
            Some(RawInstruction::Op)
        } else if byte == 2 {
            Some(RawInstruction::Mov)
        } else if byte == 3 {
            Some(RawInstruction::Cpy)
        } else if byte == 4 {
            Some(RawInstruction::Cast)
        } else if byte == 5 {
            Some(RawInstruction::Lea)
        } else if byte == 6 {
            Some(RawInstruction::Jmp)
        } else if byte == 7 {
            Some(RawInstruction::Ret)
        } else if byte == 8 {
            Some(RawInstruction::Call)
        } else if byte == 9 {
            Some(RawInstruction::Exit)
        } else if byte == 10 {
            Some(RawInstruction::Push)
        } else if byte == 11 {
            Some(RawInstruction::PushCpy)
        } else if byte == 12 {
            Some(RawInstruction::Pop)
        } else if byte == 13 {
            Some(RawInstruction::PopMany)
        } else if byte == 14 {
            Some(RawInstruction::StackCpy)
        } else if byte == 15 {
            Some(RawInstruction::PushFrame)
        } else if byte == 16 {
            Some(RawInstruction::PopFrame)
        } else if byte == 17 {
            Some(RawInstruction::TakeFrom)
        } else if byte == 18 {
            Some(RawInstruction::GiveTo)
        } else if byte == 19 {
            Some(RawInstruction::ThreadCreate)
        } else if byte == 20 {
            Some(RawInstruction::ThreadJoin)
        } else if byte == 21 {
            Some(RawInstruction::Assert)
        } else if byte == 128 {
            Some(RawInstruction::Dbg)
        } else if byte == 129 {
            Some(RawInstruction::Dump)
        } else {
            None
        }
    }

    fn to_byte(&self) -> (byte: u8) {
        match self {
            RawInstruction::Nop => 0,
            RawInstruction::Op => 1,
            RawInstruction::Mov => 2,
            RawInstruction::Cpy => 3,
            RawInstruction::Cast => 4,
            RawInstruction::Lea => 5,
            RawInstruction::Jmp => 6,
            RawInstruction::Ret => 7,
            RawInstruction::Call => 8,
            RawInstruction::Exit => 9,
            RawInstruction::Push => 10,
            RawInstruction::PushCpy => 11,
            RawInstruction::Pop => 12,
            RawInstruction::PopMany => 13,
            RawInstruction::StackCpy => 14,
            RawInstruction::PushFrame => 15,
            RawInstruction::PopFrame => 16,
            RawInstruction::TakeFrom => 17,
            RawInstruction::GiveTo => 18,
            RawInstruction::ThreadCreate => 19,
            RawInstruction::ThreadJoin => 20,
            RawInstruction::Assert => 21,
            RawInstruction::Dbg => 128,
            RawInstruction::Dump => 129,
        }
    }

    fn checked_from_byte(byte: u8) -> (r: Option<Self>) {
        match byte {
            0 => Some(RawInstruction::Nop),
            1 => Some(RawInstruction::Op),
            2 => Some(RawInstruction::Mov),
            3 => Some(RawInstruction::Cpy),
            4 => Some(RawInstruction::Cast),
            5 => Some(RawInstruction::Lea),
            6 => Some(RawInstruction::Jmp),
            7 => Some(RawInstruction::Ret),
            8 => Some(RawInstruction::Call),
            9 => Some(RawInstruction::Exit),
            10 => Some(RawInstruction::Push),
            11 => Some(RawInstruction::PushCpy),
            12 => Some(RawInstruction::Pop),
            13 => Some(RawInstruction::PopMany),
            14 => Some(RawInstruction::StackCpy),
            15 => Some(RawInstruction::PushFrame),
            16 => Some(RawInstruction::PopFrame),
            17 => Some(RawInstruction::TakeFrom),
            18 => Some(RawInstruction::GiveTo),
            19 => Some(RawInstruction::ThreadCreate),
            20 => Some(RawInstruction::ThreadJoin),
            21 => Some(RawInstruction::Assert),
            128 => Some(RawInstruction::Dbg),
            129 => Some(RawInstruction::Dump),
            _ => None,
        }
    }
}

impl ByteForm for Register {
    open spec fn byte_of(&self) -> u8 {
        self.number()
    }

    open spec fn of_byte(byte: u8) -> Option<Self> {
        Register::numbered(byte)
    }

    fn to_byte(&self) -> (byte: u8) {
        match self {
            Register::Nil => NO_REGISTER,
            _ => self.index() as u8,
        }
    }

    fn checked_from_byte(byte: u8) -> (r: Option<Self>) {
        Register::checked_cast(byte)
    }
}

impl ByteForm for RawType {
    open spec fn byte_of(&self) -> u8 {
        match self {
            RawType::Nil => 0,
            RawType::Int8 => 1,
            RawType::Int16 => 2,
            RawType::Int32 => 3,
            RawType::Int => 4,
            RawType::Int64 => 5,
            RawType::Int128 => 6,
            RawType::UInt8 => 7,
            RawType::UInt16 => 8,
            RawType::UInt32 => 9,
            RawType::UInt => 10,
            RawType::UInt64 => 11,
            RawType::UInt128 => 12,
            RawType::Float32 => 13,
            RawType::Float64 => 14,
            RawType::Char => 15,
            RawType::String => 16,
            RawType::Boolean => 17,
            RawType::Address => 18,
            RawType::Pointer => 19,
            RawType::Register => 20,
        }
    }

    open spec fn of_byte(byte: u8) -> Option<Self> {
        if byte == 0 {
            Some(RawType::Nil)
        } else if byte == 1 {
            Some(RawType::Int8)
        } else if byte == 2 {
            Some(RawType::Int16)
        } else if byte == 3 {
            Some(RawType::Int32)
        } else if byte == 4 {
            Some(RawType::Int)
        } else if byte == 5 {
            Some(RawType::Int64)
        } else if byte == 6 {
            Some(RawType::Int128)
        } else if byte == 7 {
            Some(RawType::UInt8)
        } else if byte == 8 {
            Some(RawType::UInt16)
        } else if byte == 9 {
            Some(RawType::UInt32)
        } else if byte == 10 {
            Some(RawType::UInt)
        } else if byte == 11 {
            Some(RawType::UInt64)
        } else if byte == 12 {
            Some(RawType::UInt128)
        } else if byte == 13 {
            Some(RawType::Float32)
        } else if byte == 14 {
            Some(RawType::Float64)
        } else if byte == 15 {
            Some(RawType::Char)
        } else if byte == 16 {
            Some(RawType::String)
        } else if byte == 17 {
            Some(RawType::Boolean)
        } else if byte == 18 {
            Some(RawType::Address)
        } else if byte == 19 {
            Some(RawType::Pointer)
        } else if byte == 20 {
            Some(RawType::Register)
        } else {
            None
        }
    }

    fn to_byte(&self) -> (byte: u8) {
        match self {
            RawType::Nil => 0,
            RawType::Int8 => 1,
            RawType::Int16 => 2,
            RawType::Int32 => 3,
            RawType::Int => 4,
            RawType::Int64 => 5,
            RawType::Int128 => 6,
            RawType::UInt8 => 7,
            RawType::UInt16 => 8,
            RawType::UInt32 => 9,
            RawType::UInt => 10,
            RawType::UInt64 => 11,
            RawType::UInt128 => 12,
            RawType::Float32 => 13,
            RawType::Float64 => 14,
            RawType::Char => 15,
            RawType::String => 16,
            RawType::Boolean => 17,
            RawType::Address => 18,
            RawType::Pointer => 19,
            RawType::Register => 20,
        }
    }

    fn checked_from_byte(byte: u8) -> (r: Option<Self>) {
        match byte {
            0 => Some(RawType::Nil),
            1 => Some(RawType::Int8),
            2 => Some(RawType::Int16),
            3 => Some(RawType::Int32),
            4 => Some(RawType::Int),
            5 => Some(RawType::Int64),
            6 => Some(RawType::Int128),
            7 => Some(RawType::UInt8),
            8 => Some(RawType::UInt16),
            9 => Some(RawType::UInt32),
            10 => Some(RawType::UInt),
            11 => Some(RawType::UInt64),
            12 => Some(RawType::UInt128),
            13 => Some(RawType::Float32),
            14 => Some(RawType::Float64),
            15 => Some(RawType::Char),
            16 => Some(RawType::String),
            17 => Some(RawType::Boolean),
            18 => Some(RawType::Address),
            19 => Some(RawType::Pointer),
            20 => Some(RawType::Register),
            _ => None,
        }
    }
}

impl ByteForm for OpPrim1 {
    open spec fn byte_of(&self) -> u8 {
        match self {
            OpPrim1::Increment => 0,
            OpPrim1::Decrement => 1,
            OpPrim1::Not => 2,
            OpPrim1::BitwiseNot => 3,
        }
    }

    open spec fn of_byte(byte: u8) -> Option<Self> {
        if byte == 0 {
            Some(OpPrim1::Increment)
        } else if byte == 1 {
            Some(OpPrim1::Decrement)
        } else if byte == 2 {
            Some(OpPrim1::Not)
        } else if byte == 3 {
            Some(OpPrim1::BitwiseNot)
        } else {
            None
        }
    }

    fn to_byte(&self) -> (byte: u8) {
        match self {
            OpPrim1::Increment => 0,
            OpPrim1::Decrement => 1,
            OpPrim1::Not => 2,
            OpPrim1::BitwiseNot => 3,
        }
    }

    fn checked_from_byte(byte: u8) -> (r: Option<Self>) {
        match byte {
            0 => Some(OpPrim1::Increment),
            1 => Some(OpPrim1::Decrement),
            2 => Some(OpPrim1::Not),
            3 => Some(OpPrim1::BitwiseNot),
            _ => None,
        }
    }
}

impl ByteForm for OpPrim2 {
    open spec fn byte_of(&self) -> u8 {
        match self {
            OpPrim2::Add => 0,
            OpPrim2::Subtract => 1,
            OpPrim2::Multiplication => 2,
            OpPrim2::Division => 3,
            OpPrim2::Modulus => 4,
            OpPrim2::And => 5,
            OpPrim2::Or => 6,
            OpPrim2::Xor => 7,
            OpPrim2::Equal => 8,
            OpPrim2::NotEqual => 9,
            OpPrim2::Greater => 10,
            OpPrim2::Less => 11,
            OpPrim2::GreaterEqual => 12,
            OpPrim2::LessEqual => 13,
            OpPrim2::BitwiseAnd => 14,
            OpPrim2::BitwiseOr => 15,
            OpPrim2::BitwiseXor => 16,
            OpPrim2::ShiftLeft => 17,
            OpPrim2::ShiftRight => 18,
            OpPrim2::SameType => 19,
        }
    }

    open spec fn of_byte(byte: u8) -> Option<Self> {
        if byte == 0 {
            Some(OpPrim2::Add)
        } else if byte == 1 {
            Some(OpPrim2::Subtract)
        } else if byte == 2 {
            Some(OpPrim2::Multiplication)
        } else if byte == 3 {
            Some(OpPrim2::Division)
        } else if byte == 4 {
            Some(OpPrim2::Modulus)
        } else if byte == 5 {
            Some(OpPrim2::And)
        } else if byte == 6 {
            Some(OpPrim2::Or)
        } else if byte == 7 {
            Some(OpPrim2::Xor)
        } else if byte == 8 {
            Some(OpPrim2::Equal)
        } else if byte == 9 {
            Some(OpPrim2::NotEqual)
        } else if byte == 10 {
            Some(OpPrim2::Greater)
        } else if byte == 11 {
            Some(OpPrim2::Less)
        } else if byte == 12 {
            Some(OpPrim2::GreaterEqual)
        } else if byte == 13 {
            Some(OpPrim2::LessEqual)
        } else if byte == 14 {
            Some(OpPrim2::BitwiseAnd)
        } else if byte == 15 {
            Some(OpPrim2::BitwiseOr)
        } else if byte == 16 {
            Some(OpPrim2::BitwiseXor)
        } else if byte == 17 {
            Some(OpPrim2::ShiftLeft)
        } else if byte == 18 {
            Some(OpPrim2::ShiftRight)
        } else if byte == 19 {
            Some(OpPrim2::SameType)
        } else {
            None
        }
    }

    fn to_byte(&self) -> (byte: u8) {
        match self {
            OpPrim2::Add => 0,
            OpPrim2::Subtract => 1,
            OpPrim2::Multiplication => 2,
            OpPrim2::Division => 3,
            OpPrim2::Modulus => 4,
            OpPrim2::And => 5,
            OpPrim2::Or => 6,
            OpPrim2::Xor => 7,
            OpPrim2::Equal => 8,
            OpPrim2::NotEqual => 9,
            OpPrim2::Greater => 10,
            OpPrim2::Less => 11,
            OpPrim2::GreaterEqual => 12,
            OpPrim2::LessEqual => 13,
            OpPrim2::BitwiseAnd => 14,
            OpPrim2::BitwiseOr => 15,
            OpPrim2::BitwiseXor => 16,
            OpPrim2::ShiftLeft => 17,
            OpPrim2::ShiftRight => 18,
            OpPrim2::SameType => 19,
        }
    }

    fn checked_from_byte(byte: u8) -> (r: Option<Self>) {
        match byte {
            0 => Some(OpPrim2::Add),
            1 => Some(OpPrim2::Subtract),
            2 => Some(OpPrim2::Multiplication),
            3 => Some(OpPrim2::Division),
            4 => Some(OpPrim2::Modulus),
            5 => Some(OpPrim2::And),
            6 => Some(OpPrim2::Or),
            7 => Some(OpPrim2::Xor),
            8 => Some(OpPrim2::Equal),
            9 => Some(OpPrim2::NotEqual),
            10 => Some(OpPrim2::Greater),
            11 => Some(OpPrim2::Less),
            12 => Some(OpPrim2::GreaterEqual),
            13 => Some(OpPrim2::LessEqual),
            14 => Some(OpPrim2::BitwiseAnd),
            15 => Some(OpPrim2::BitwiseOr),
            16 => Some(OpPrim2::BitwiseXor),
            17 => Some(OpPrim2::ShiftLeft),
            18 => Some(OpPrim2::ShiftRight),
            19 => Some(OpPrim2::SameType),
            _ => None,
        }
    }
}

/// The bit that tells an operator on two operands from one on a single operand.
pub const BINARY_OPERATOR: u8 = 0x80;

impl ByteForm for Operation {
    open spec fn byte_of(&self) -> u8 {
        match self {
            Operation::Prim1(op) => op.byte_of(),
            Operation::Prim2(op) => (op.byte_of() + 0x80) as u8,
        }
    }

    open spec fn of_byte(byte: u8) -> Option<Self> {
        if byte < 0x80 {
            match OpPrim1::of_byte(byte) {
                Some(op) => Some(Operation::Prim1(op)),
                None => None,
            }
        } else {
            match OpPrim2::of_byte((byte - 0x80) as u8) {
                Some(op) => Some(Operation::Prim2(op)),
                None => None,
            }
        }
    }

    fn to_byte(&self) -> (byte: u8) {
        match self {
            Operation::Prim1(op) => op.to_byte(),
            Operation::Prim2(op) => BINARY_OPERATOR + op.to_byte(),
        }
    }

    fn checked_from_byte(byte: u8) -> (r: Option<Self>) {
        if byte < BINARY_OPERATOR {
            match OpPrim1::checked_from_byte(byte) {
                Some(op) => Some(Operation::Prim1(op)),
                None => None,
            }
        } else {
            match OpPrim2::checked_from_byte(byte - BINARY_OPERATOR) {
                Some(op) => Some(Operation::Prim2(op)),
                None => None,
            }
        }
    }
}

} // verus!
