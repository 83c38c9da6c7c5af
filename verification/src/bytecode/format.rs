//! The byte format of a program, stated over bytes and [`Value`]s.
//!
//! A program is the version on eight bytes and then its instructions. An
//! instruction is its operation code and then its operands. A register is
//! one byte. A value is the byte of its kind and then its payload: a number
//! least significant byte first, pointer-sized numbers on eight bytes, a
//! text as its length on eight bytes and its UTF-8 form.

use vstd::prelude::*;
use vstd::utf8::{decode_utf8, valid_utf8};
use crate::buffer::text_bytes;
use crate::bytes::{is_scalar_value, le_bytes, le_value, signed_of, unsigned_of};
use crate::forms::ByteForm;
use crate::instructions::{InstructionView, RawInstruction};
use crate::operations::Operation;
use crate::register::Register;
use crate::types::{RawType, Value};

verus! {

/// The version of the format that this library writes and reads.
pub const BYTECODE_VERSION: u64 = 0;

/// Why bytes are no program.
#[derive(Clone, Copy, Debug, PartialEq, Eq, Hash, Structural)]
pub enum BytecodeError {
    /// The bytes end before what they began is complete.
    Truncated,
    /// The version is not the one that this library reads.
    Version,
    /// A byte stands for no operation code.
    InvalidInstruction,
    /// A byte stands for no register.
    InvalidRegister,
    /// A byte stands for no kind.
    InvalidType,
    /// A byte stands for no operator.
    InvalidOperation,
    /// Four bytes stand for no character.
    InvalidChar,
    /// The bytes of a text are no UTF-8.
    InvalidText,
    /// A pointer-sized number does not fit the pointers of this machine.
    TooLarge,
}

/// The bytes of a register.
pub open spec fn register_bytes(register: Register) -> Seq<u8> {
    seq![register.number()]
}

/// The bytes of a register that may be left out.
pub open spec fn optional_register_bytes(register: Option<Register>) -> Seq<u8> {
    match register {
        Some(r) => register_bytes(r),
        None => register_bytes(Register::Nil),
    }
}

/// The bytes of a value's payload.
pub open spec fn payload_bytes(v: Value) -> Seq<u8> {
    match v {
        Value::Nil => Seq::empty(),
        Value::Int8(x) => le_bytes(unsigned_of(x as int, 1), 1),
        Value::Int16(x) => le_bytes(unsigned_of(x as int, 2), 2),
        Value::Int32(x) => le_bytes(unsigned_of(x as int, 4), 4),
        Value::Int(x) => le_bytes(unsigned_of(x as int, 8), 8),
        Value::Int64(x) => le_bytes(unsigned_of(x as int, 8), 8),
        Value::Int128(x) => le_bytes(unsigned_of(x as int, 16), 16),
        Value::UInt8(x) => le_bytes(x as nat, 1),
        Value::UInt16(x) => le_bytes(x as nat, 2),
        Value::UInt32(x) => le_bytes(x as nat, 4),
        Value::UInt(x) => le_bytes(x as nat, 8),
        Value::UInt64(x) => le_bytes(x as nat, 8),
        Value::UInt128(x) => le_bytes(x as nat, 16),
        Value::Float32(bits) => le_bytes(bits as nat, 4),
        Value::Float64(bits) => le_bytes(bits as nat, 8),
        Value::Char(c) => le_bytes(c as nat, 4),
        Value::String(text) => text_bytes(text),
        Value::Boolean(b) => le_bytes(if b { 1nat } else { 0nat }, 1),
        Value::Address(a) => le_bytes(a as nat, 8),
        Value::Pointer(p) => le_bytes(p as nat, 8),
        Value::Register(r) => register_bytes(r),
    }
}

/// The bytes of a value.
pub open spec fn type_bytes(v: Value) -> Seq<u8> {
    seq![v.kind().byte_of()] + payload_bytes(v)
}

/// The bytes of an instruction's operands.
pub open spec fn operand_bytes(instruction: InstructionView) -> Seq<u8> {
    match instruction {
        InstructionView::Nop
        | InstructionView::Ret
        | InstructionView::PopFrame
        | InstructionView::TakeFrom
        | InstructionView::GiveTo => Seq::empty(),
        InstructionView::Op(op, regs) => seq![op.byte_of()] + register_bytes(regs[0])
            + register_bytes(regs[1]),
        InstructionView::Mov(reg, t) => register_bytes(reg) + type_bytes(t),
        InstructionView::Cpy(reg1, reg2) => register_bytes(reg1) + register_bytes(reg2),
        InstructionView::Cast(reg, kind) => register_bytes(reg) + seq![kind.byte_of()],
        InstructionView::Lea(reg, address) => register_bytes(reg) + le_bytes(address as nat, 8),
        InstructionView::Jmp(reg, t) => optional_register_bytes(reg) + type_bytes(t),
        InstructionView::Call(name) => text_bytes(name),
        InstructionView::Exit(t) => type_bytes(t),
        InstructionView::Push(reg) => register_bytes(reg),
        InstructionView::PushCpy(reg) => register_bytes(reg),
        InstructionView::Pop(reg) => optional_register_bytes(reg),
        InstructionView::PopMany(t) => type_bytes(t),
        InstructionView::StackCpy(reg, t) => register_bytes(reg) + type_bytes(t),
        InstructionView::PushFrame(isolated) => le_bytes(if isolated { 1nat } else { 0nat }, 1),
        InstructionView::ThreadCreate(t) => type_bytes(t),
        InstructionView::ThreadJoin(reg) => register_bytes(reg),
        InstructionView::Assert(reg, t) => register_bytes(reg) + type_bytes(t),
        InstructionView::Dbg(reg) => register_bytes(reg),
        InstructionView::Dump(options) => seq![options],
    }
}

/// The bytes of an instruction.
pub open spec fn instruction_bytes(instruction: InstructionView) -> Seq<u8> {
    seq![instruction.raw().byte_of()] + operand_bytes(instruction)
}

/// The bytes of instructions, one after the other.
pub open spec fn instructions_bytes(program: Seq<InstructionView>) -> Seq<u8>
    decreases program.len(),
{
    if program.len() == 0 {
        Seq::empty()
    } else {
        instructions_bytes(program.drop_last()) + instruction_bytes(program.last())
    }
}

/// The bytes of a program.
pub open spec fn encoded(program: Seq<InstructionView>) -> Seq<u8> {
    le_bytes(BYTECODE_VERSION as nat, 8) + instructions_bytes(program)
}

/// Something that was read from the start of bytes, and the bytes after it.
pub struct Read<T> {
    pub value: T,
    pub rest: Seq<u8>,
}

/// The number that the first `n` bytes stand for.
pub open spec fn number_at(bytes: Seq<u8>, n: nat) -> Result<Read<nat>, BytecodeError> {
    if bytes.len() < n {
        Err(BytecodeError::Truncated)
    } else {
        Ok(
            Read {
                value: le_value(bytes.subrange(0, n as int)),
                rest: bytes.subrange(n as int, bytes.len() as int),
            },
        )
    }
}

/// The pointer-sized number that the first eight bytes stand for.
pub open spec fn size_at(bytes: Seq<u8>) -> Result<Read<usize>, BytecodeError> {
    match number_at(bytes, 8) {
        Err(e) => Err(e),
        Ok(read) => if read.value > usize::MAX {
            Err(BytecodeError::TooLarge)
        } else {
            Ok(Read { value: read.value as usize, rest: read.rest })
        },
    }
}

/// The register that the first byte stands for.
pub open spec fn register_at(bytes: Seq<u8>) -> Result<Read<Register>, BytecodeError> {
    match number_at(bytes, 1) {
        Err(e) => Err(e),
        Ok(read) => match Register::numbered(read.value as u8) {
            Some(register) => Ok(Read { value: register, rest: read.rest }),
            None => Err(BytecodeError::InvalidRegister),
        },
    }
}

/// The register that the first byte stands for, or none where the byte is
/// that of `Nil`.
pub open spec fn optional_register_at(bytes: Seq<u8>) -> Result<
    Read<Option<Register>>,
    BytecodeError,
> {
    match register_at(bytes) {
        Err(e) => Err(e),
        Ok(read) => Ok(
            Read {
                value: if read.value.is_slot() {
                    Some(read.value)
                } else {
                    None
                },
                rest: read.rest,
            },
        ),
    }
}

/// The kind that the first byte stands for.
pub open spec fn kind_at(bytes: Seq<u8>) -> Result<Read<RawType>, BytecodeError> {
    match number_at(bytes, 1) {
        Err(e) => Err(e),
        Ok(read) => match RawType::of_byte(read.value as u8) {
            Some(kind) => Ok(Read { value: kind, rest: read.rest }),
            None => Err(BytecodeError::InvalidType),
        },
    }
}

/// The operator that the first byte stands for.
pub open spec fn operation_at(bytes: Seq<u8>) -> Result<Read<Operation>, BytecodeError> {
    match number_at(bytes, 1) {
        Err(e) => Err(e),
        Ok(read) => match Operation::of_byte(read.value as u8) {
            Some(op) => Ok(Read { value: op, rest: read.rest }),
            None => Err(BytecodeError::InvalidOperation),
        },
    }
}

/// The text at the start of the bytes.
pub open spec fn text_at(bytes: Seq<u8>) -> Result<Read<Seq<char>>, BytecodeError> {
    match number_at(bytes, 8) {
        Err(e) => Err(e),
        Ok(length) => if length.rest.len() < length.value {
            Err(BytecodeError::Truncated)
        } else if !valid_utf8(length.rest.subrange(0, length.value as int)) {
            Err(BytecodeError::InvalidText)
        } else {
            Ok(
                Read {
                    value: decode_utf8(length.rest.subrange(0, length.value as int)),
                    rest: length.rest.subrange(length.value as int, length.rest.len() as int),
                },
            )
        },
    }
}

/// The payload of a value of the given kind at the start of the bytes.
#[verifier::opaque]
pub open spec fn payload_at(kind: RawType, bytes: Seq<u8>) -> Result<Read<Value>, BytecodeError> {
    match kind {
        RawType::Nil => Ok(Read { value: Value::Nil, rest: bytes }),
        RawType::Int8 => match number_at(bytes, 1) {
            Err(e) => Err(e),
            Ok(read) => Ok(
                Read { value: Value::Int8(signed_of(read.value, 1) as i8), rest: read.rest },
            ),
        },
        RawType::Int16 => match number_at(bytes, 2) {
            Err(e) => Err(e),
            Ok(read) => Ok(
                Read { value: Value::Int16(signed_of(read.value, 2) as i16), rest: read.rest },
            ),
        },
        RawType::Int32 => match number_at(bytes, 4) {
            Err(e) => Err(e),
            Ok(read) => Ok(
                Read { value: Value::Int32(signed_of(read.value, 4) as i32), rest: read.rest },
            ),
        },
        RawType::Int => match number_at(bytes, 8) {
            Err(e) => Err(e),
            Ok(read) => if signed_of(read.value, 8) < isize::MIN || signed_of(read.value, 8)
                > isize::MAX {
                Err(BytecodeError::TooLarge)
            } else {
                Ok(Read { value: Value::Int(signed_of(read.value, 8) as isize), rest: read.rest })
            },
        },
        RawType::Int64 => match number_at(bytes, 8) {
            Err(e) => Err(e),
            Ok(read) => Ok(
                Read { value: Value::Int64(signed_of(read.value, 8) as i64), rest: read.rest },
            ),
        },
        RawType::Int128 => match number_at(bytes, 16) {
            Err(e) => Err(e),
            Ok(read) => Ok(
                Read { value: Value::Int128(signed_of(read.value, 16) as i128), rest: read.rest },
            ),
        },
        RawType::UInt8 => match number_at(bytes, 1) {
            Err(e) => Err(e),
            Ok(read) => Ok(Read { value: Value::UInt8(read.value as u8), rest: read.rest }),
        },
        RawType::UInt16 => match number_at(bytes, 2) {
            Err(e) => Err(e),
            Ok(read) => Ok(Read { value: Value::UInt16(read.value as u16), rest: read.rest }),
        },
        RawType::UInt32 => match number_at(bytes, 4) {
            Err(e) => Err(e),
            Ok(read) => Ok(Read { value: Value::UInt32(read.value as u32), rest: read.rest }),
        },
        RawType::UInt => match size_at(bytes) {
            Err(e) => Err(e),
            Ok(read) => Ok(Read { value: Value::UInt(read.value), rest: read.rest }),
        },
        RawType::UInt64 => match number_at(bytes, 8) {
            Err(e) => Err(e),
            Ok(read) => Ok(Read { value: Value::UInt64(read.value as u64), rest: read.rest }),
        },
        RawType::UInt128 => match number_at(bytes, 16) {
            Err(e) => Err(e),
            Ok(read) => Ok(Read { value: Value::UInt128(read.value as u128), rest: read.rest }),
        },
        RawType::Float32 => match number_at(bytes, 4) {
            Err(e) => Err(e),
            Ok(read) => Ok(Read { value: Value::Float32(read.value as u32), rest: read.rest }),
        },
        RawType::Float64 => match number_at(bytes, 8) {
            Err(e) => Err(e),
            Ok(read) => Ok(Read { value: Value::Float64(read.value as u64), rest: read.rest }),
        },
        RawType::Char => match number_at(bytes, 4) {
            Err(e) => Err(e),
            Ok(read) => if is_scalar_value(read.value) {
                Ok(Read { value: Value::Char(read.value as char), rest: read.rest })
            } else {
                Err(BytecodeError::InvalidChar)
            },
        },
        RawType::String => match text_at(bytes) {
            Err(e) => Err(e),
            Ok(read) => Ok(Read { value: Value::String(read.value), rest: read.rest }),
        },
        RawType::Boolean => match number_at(bytes, 1) {
            Err(e) => Err(e),
            Ok(read) => Ok(Read { value: Value::Boolean(read.value != 0), rest: read.rest }),
        },
        RawType::Address => match size_at(bytes) {
            Err(e) => Err(e),
            Ok(read) => Ok(Read { value: Value::Address(read.value), rest: read.rest }),
        },
        RawType::Pointer => match size_at(bytes) {
            Err(e) => Err(e),
            Ok(read) => Ok(Read { value: Value::Pointer(read.value), rest: read.rest }),
        },
        RawType::Register => match register_at(bytes) {
            Err(e) => Err(e),
            Ok(read) => Ok(Read { value: Value::Register(read.value), rest: read.rest }),
        },
    }
}

/// The value at the start of the bytes.
pub open spec fn type_at(bytes: Seq<u8>) -> Result<Read<Value>, BytecodeError> {
    match kind_at(bytes) {
        Err(e) => Err(e),
        Ok(kind) => payload_at(kind.value, kind.rest),
    }
}

/// An instruction with one register as its operand.
pub open spec fn with_register(raw: RawInstruction, reg: Register) -> InstructionView {
    match raw {
        RawInstruction::Push => InstructionView::Push(reg),
        RawInstruction::PushCpy => InstructionView::PushCpy(reg),
        RawInstruction::ThreadJoin => InstructionView::ThreadJoin(reg),
        _ => InstructionView::Dbg(reg),
    }
}

/// An instruction with one value as its operand.
pub open spec fn with_type(raw: RawInstruction, t: Value) -> InstructionView {
    match raw {
        RawInstruction::Exit => InstructionView::Exit(t),
        RawInstruction::PopMany => InstructionView::PopMany(t),
        _ => InstructionView::ThreadCreate(t),
    }
}

/// An instruction with a register and a value as its operands.
pub open spec fn with_register_and_type(
    raw: RawInstruction,
    reg: Register,
    t: Value,
) -> InstructionView {
    match raw {
        RawInstruction::Mov => InstructionView::Mov(reg, t),
        RawInstruction::StackCpy => InstructionView::StackCpy(reg, t),
        _ => InstructionView::Assert(reg, t),
    }
}

/// The operands of an instruction with the given operation code at the start
/// of the bytes, and the instruction they make.
#[verifier::opaque]
pub open spec fn operands_at(raw: RawInstruction, bytes: Seq<u8>) -> Result<
    Read<InstructionView>,
    BytecodeError,
> {
    match raw {
        RawInstruction::Nop => Ok(Read { value: InstructionView::Nop, rest: bytes }),
        RawInstruction::Ret => Ok(Read { value: InstructionView::Ret, rest: bytes }),
        RawInstruction::PopFrame => Ok(Read { value: InstructionView::PopFrame, rest: bytes }),
        RawInstruction::TakeFrom => Ok(Read { value: InstructionView::TakeFrom, rest: bytes }),
        RawInstruction::GiveTo => Ok(Read { value: InstructionView::GiveTo, rest: bytes }),
        RawInstruction::Op => match operation_at(bytes) {
            Err(e) => Err(e),
            Ok(op) => match register_at(op.rest) {
                Err(e) => Err(e),
                Ok(first) => match register_at(first.rest) {
                    Err(e) => Err(e),
                    Ok(second) => Ok(
                        Read {
                            value: InstructionView::Op(op.value, [first.value, second.value]),
                            rest: second.rest,
                        },
                    ),
                },
            },
        },
        RawInstruction::Mov
        | RawInstruction::StackCpy
        | RawInstruction::Assert => match register_at(bytes) {
            Err(e) => Err(e),
            Ok(reg) => match type_at(reg.rest) {
                Err(e) => Err(e),
                Ok(t) => Ok(
                    Read { value: with_register_and_type(raw, reg.value, t.value), rest: t.rest },
                ),
            },
        },
        RawInstruction::Cpy => match register_at(bytes) {
            Err(e) => Err(e),
            Ok(first) => match register_at(first.rest) {
                Err(e) => Err(e),
                Ok(second) => Ok(
                    Read {
                        value: InstructionView::Cpy(first.value, second.value),
                        rest: second.rest,
                    },
                ),
            },
        },
        RawInstruction::Cast => match register_at(bytes) {
            Err(e) => Err(e),
            Ok(reg) => match kind_at(reg.rest) {
                Err(e) => Err(e),
                Ok(kind) => Ok(
                    Read { value: InstructionView::Cast(reg.value, kind.value), rest: kind.rest },
                ),
            },
        },
        RawInstruction::Lea => match register_at(bytes) {
            Err(e) => Err(e),
            Ok(reg) => match size_at(reg.rest) {
                Err(e) => Err(e),
                Ok(address) => Ok(
                    Read {
                        value: InstructionView::Lea(reg.value, address.value),
                        rest: address.rest,
                    },
                ),
            },
        },
        RawInstruction::Jmp => match optional_register_at(bytes) {
            Err(e) => Err(e),
            Ok(reg) => match type_at(reg.rest) {
                Err(e) => Err(e),
                Ok(t) => Ok(Read { value: InstructionView::Jmp(reg.value, t.value), rest: t.rest }),
            },
        },
        RawInstruction::Call => match text_at(bytes) {
            Err(e) => Err(e),
            Ok(name) => Ok(Read { value: InstructionView::Call(name.value), rest: name.rest }),
        },
        RawInstruction::Exit
        | RawInstruction::PopMany
        | RawInstruction::ThreadCreate => match type_at(bytes) {
            Err(e) => Err(e),
            Ok(t) => Ok(Read { value: with_type(raw, t.value), rest: t.rest }),
        },
        RawInstruction::Push
        | RawInstruction::PushCpy
        | RawInstruction::ThreadJoin
        | RawInstruction::Dbg => match register_at(bytes) {
            Err(e) => Err(e),
            Ok(reg) => Ok(Read { value: with_register(raw, reg.value), rest: reg.rest }),
        },
        RawInstruction::Pop => match optional_register_at(bytes) {
            Err(e) => Err(e),
            Ok(reg) => Ok(Read { value: InstructionView::Pop(reg.value), rest: reg.rest }),
        },
        RawInstruction::PushFrame => match number_at(bytes, 1) {
            Err(e) => Err(e),
            Ok(flag) => Ok(
                Read { value: InstructionView::PushFrame(flag.value != 0), rest: flag.rest },
            ),
        },
        RawInstruction::Dump => match number_at(bytes, 1) {
            Err(e) => Err(e),
            Ok(options) => Ok(
                Read { value: InstructionView::Dump(options.value as u8), rest: options.rest },
            ),
        },
    }
}

/// The instruction at the start of the bytes.
pub open spec fn instruction_at(bytes: Seq<u8>) -> Result<Read<InstructionView>, BytecodeError> {
    match number_at(bytes, 1) {
        Err(e) => Err(e),
        Ok(code) => match RawInstruction::of_byte(code.value as u8) {
            None => Err(BytecodeError::InvalidInstruction),
            Some(raw) => operands_at(raw, code.rest),
        },
    }
}

/// The instructions that the bytes are, read to their end.
pub open spec fn instructions_at(bytes: Seq<u8>) -> Result<Seq<InstructionView>, BytecodeError>
    decreases bytes.len(),
{
    if bytes.len() == 0 {
        Ok(Seq::empty())
    } else {
        match instruction_at(bytes) {
            Err(e) => Err(e),
            Ok(first) => if first.rest.len() >= bytes.len() {
                Err(BytecodeError::Truncated)
            } else {
                match instructions_at(first.rest) {
                    Err(e) => Err(e),
                    Ok(others) => Ok(seq![first.value] + others),
                }
            },
        }
    }
}

/// The program that the bytes are.
pub open spec fn decoded(bytes: Seq<u8>) -> Result<Seq<InstructionView>, BytecodeError> {
    match number_at(bytes, 8) {
        Err(e) => Err(e),
        Ok(version) => if version.value != BYTECODE_VERSION {
            Err(BytecodeError::Version)
        } else {
            instructions_at(version.rest)
        },
    }
}

} // verus!
