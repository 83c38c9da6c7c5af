//! Reading a program from bytes.

use vstd::prelude::*;
use crate::buffer::{text_from_utf8, Buffer};
use crate::bytecode::format::{
    decoded, instruction_at, instructions_at, kind_at, number_at, operands_at, operation_at,
    optional_register_at, payload_at, register_at, size_at, text_at, type_at, BytecodeError,
    Read, BYTECODE_VERSION,
};
use crate::bytes::{lemma_radix_values};
use crate::forms::ByteForm;
use crate::instructions::{Instruction, InstructionView, RawInstruction};
use crate::operations::Operation;
use crate::register::Register;
use crate::types::{RawType, Type};

verus! {

/// Whether a reader did what the format says of the bytes it began on: it
/// gave the value that stands at their start and left the bytes after it, or
/// failed as the format fails on them.
pub open spec fn reads<T, V>(
    r: Result<T, BytecodeError>,
    expected: Result<Read<V>, BytecodeError>,
    before: Seq<u8>,
    after: Seq<u8>,
    view: spec_fn(T) -> V,
) -> bool {
    match r {
        Ok(value) => expected == Ok::<Read<V>, BytecodeError>(
            Read { value: view(value), rest: after },
        ) && after.len() <= before.len(),
        Err(e) => expected == Err::<Read<V>, BytecodeError>(e),
    }
}

/// Reads one byte.
fn read_byte(buffer: &mut Buffer) -> (r: Result<u8, BytecodeError>)
    ensures
        reads(r, number_at(old(buffer)@, 1), old(buffer)@, final(buffer)@, |b: u8| b as nat),
{
    if buffer.len() < 1 {
        return Err(BytecodeError::Truncated);
    }
    Ok(buffer.read_u8())
}

/// Reads a pointer-sized number, which stands on eight bytes.
fn read_size(buffer: &mut Buffer) -> (r: Result<usize, BytecodeError>)
    ensures
        reads(r, size_at(old(buffer)@), old(buffer)@, final(buffer)@, |n: usize| n),
{
    if buffer.len() < 8 {
        return Err(BytecodeError::Truncated);
    }
    let n = buffer.read_u64();
    if n > usize::MAX as u64 {
        Err(BytecodeError::TooLarge)
    } else {
        Ok(n as usize)
    }
}

/// Reads a register.
pub fn read_register(buffer: &mut Buffer) -> (r: Result<Register, BytecodeError>)
    ensures
        reads(r, register_at(old(buffer)@), old(buffer)@, final(buffer)@, |v: Register| v),
{
    let byte = read_byte(buffer)?;
    match Register::checked_from_byte(byte) {
        Some(register) => Ok(register),
        None => Err(BytecodeError::InvalidRegister),
    }
}

/// Reads a register that may be left out.
fn read_optional_register(buffer: &mut Buffer) -> (r: Result<Option<Register>, BytecodeError>)
    ensures
        reads(
            r,
            optional_register_at(old(buffer)@),
            old(buffer)@,
            final(buffer)@,
            |v: Option<Register>| v,
        ),
{
    let reg = read_register(buffer)?;
    match reg {
        Register::Nil => Ok(None),
        _ => Ok(Some(reg)),
    }
}

/// Reads a kind.
fn read_kind(buffer: &mut Buffer) -> (r: Result<RawType, BytecodeError>)
    ensures
        reads(r, kind_at(old(buffer)@), old(buffer)@, final(buffer)@, |v: RawType| v),
{
    let byte = read_byte(buffer)?;
    match RawType::checked_from_byte(byte) {
        Some(kind) => Ok(kind),
        None => Err(BytecodeError::InvalidType),
    }
}

/// Reads an operator.
pub fn read_op(buffer: &mut Buffer) -> (r: Result<Operation, BytecodeError>)
    ensures
        reads(r, operation_at(old(buffer)@), old(buffer)@, final(buffer)@, |v: Operation| v),
{
    let byte = read_byte(buffer)?;
    match Operation::checked_from_byte(byte) {
        Some(op) => Ok(op),
        None => Err(BytecodeError::InvalidOperation),
    }
}

/// Reads a text.
fn read_text(buffer: &mut Buffer) -> (r: Result<String, BytecodeError>)
    ensures
        reads(r, text_at(old(buffer)@), old(buffer)@, final(buffer)@, |v: String| v@),
{
    if buffer.len() < 8 {
        return Err(BytecodeError::Truncated);
    }
    let length = buffer.read_u64();
    if length > buffer.len() as u64 {
        return Err(BytecodeError::Truncated);
    }
    let bytes = buffer.read_bytes(length as usize);
    match text_from_utf8(bytes) {
        Some(text) => Ok(text),
        None => Err(BytecodeError::InvalidText),
    }
}

/// Reads the payload of a value of a given kind.
fn read_payload(buffer: &mut Buffer, kind: RawType) -> (r: Result<Type, BytecodeError>)
    ensures
        reads(r, payload_at(kind, old(buffer)@), old(buffer)@, final(buffer)@, |v: Type| v@),
{
    proof {
        reveal(payload_at);
        lemma_radix_values();
    }
    let width: usize = match kind {
        RawType::Nil | RawType::String | RawType::Register => 0,
        RawType::Int8 | RawType::UInt8 | RawType::Boolean => 1,
        RawType::Int16 | RawType::UInt16 => 2,
        RawType::Int32 | RawType::UInt32 | RawType::Float32 | RawType::Char => 4,
        RawType::Int128 | RawType::UInt128 => 16,
        _ => 8,
    };
    if buffer.len() < width {
        return Err(BytecodeError::Truncated);
    }
    match kind {
        RawType::Nil => Ok(Type::Nil),
        RawType::Int8 => Ok(Type::Int8(buffer.read_i8())),
        RawType::Int16 => Ok(Type::Int16(buffer.read_i16())),
        RawType::Int32 => Ok(Type::Int32(buffer.read_i32())),
        RawType::Int => {
            let v = buffer.read_i64();
            if v < isize::MIN as i64 || v > isize::MAX as i64 {
                Err(BytecodeError::TooLarge)
            } else {
                Ok(Type::Int(v as isize))
            }
        },
        RawType::Int64 => Ok(Type::Int64(buffer.read_i64())),
        RawType::Int128 => Ok(Type::Int128(buffer.read_i128())),
        RawType::UInt8 => Ok(Type::UInt8(buffer.read_u8())),
        RawType::UInt16 => Ok(Type::UInt16(buffer.read_u16())),
        RawType::UInt32 => Ok(Type::UInt32(buffer.read_u32())),
        RawType::UInt => Ok(Type::UInt(read_size(buffer)?)),
        RawType::UInt64 => Ok(Type::UInt64(buffer.read_u64())),
        RawType::UInt128 => Ok(Type::UInt128(buffer.read_u128())),
        RawType::Float32 => Ok(Type::Float32(buffer.read_u32())),
        RawType::Float64 => Ok(Type::Float64(buffer.read_u64())),
        RawType::Char => {
            let number = buffer.read_u32();
            match char::from_u32(number) {
                Some(c) => Ok(Type::Char(c)),
                None => Err(BytecodeError::InvalidChar),
            }
        },
        RawType::String => Ok(Type::String(read_text(buffer)?)),
        RawType::Boolean => Ok(Type::Boolean(buffer.read_bool())),
        RawType::Address => Ok(Type::Address(read_size(buffer)?)),
        RawType::Pointer => Ok(Type::Pointer(read_size(buffer)?)),
        RawType::Register => Ok(Type::Register(read_register(buffer)?)),
    }
}

/// Reads a value: the byte of its kind, then its payload.
fn read_type(buffer: &mut Buffer) -> (r: Result<Type, BytecodeError>)
    ensures
        reads(r, type_at(old(buffer)@), old(buffer)@, final(buffer)@, |v: Type| v@),
{
    let kind = read_kind(buffer)?;
    read_payload(buffer, kind)
}

/// Reads the operands of `Op`.
fn read_operator_operands(buffer: &mut Buffer, raw: RawInstruction) -> (r: Result<
    Instruction,
    BytecodeError,
>)
    requires
        raw is Op,
    ensures
        reads(
            r,
            operands_at(raw, old(buffer)@),
            old(buffer)@,
            final(buffer)@,
            |v: Instruction| v@,
        ),
{
    proof {
        reveal(operands_at);
    }
    let op = read_op(buffer)?;
    let first = read_register(buffer)?;
    let second = read_register(buffer)?;
    Ok(Instruction::Op(op, [first, second]))
}

/// Reads a register and a value, the operands of `Mov`, `StackCpy` and `Assert`.
fn read_register_and_type(buffer: &mut Buffer, raw: RawInstruction) -> (r: Result<
    Instruction,
    BytecodeError,
>)
    requires
        raw is Mov || raw is StackCpy || raw is Assert,
    ensures
        reads(
            r,
            operands_at(raw, old(buffer)@),
            old(buffer)@,
            final(buffer)@,
            |v: Instruction| v@,
        ),
{
    proof {
        reveal(operands_at);
    }
    let reg = read_register(buffer)?;
    let t = read_type(buffer)?;
    match raw {
        RawInstruction::Mov => Ok(Instruction::Mov(reg, t)),
        RawInstruction::StackCpy => Ok(Instruction::StackCpy(reg, t)),
        _ => Ok(Instruction::Assert(reg, t)),
    }
}

/// Reads a value, the operand of `Exit`, `PopMany` and `ThreadCreate`.
fn read_one_type(buffer: &mut Buffer, raw: RawInstruction) -> (r: Result<
    Instruction,
    BytecodeError,
>)
    requires
        raw is Exit || raw is PopMany || raw is ThreadCreate,
    ensures
        reads(
            r,
            operands_at(raw, old(buffer)@),
            old(buffer)@,
            final(buffer)@,
            |v: Instruction| v@,
        ),
{
    proof {
        reveal(operands_at);
    }
    let t = read_type(buffer)?;
    match raw {
        RawInstruction::Exit => Ok(Instruction::Exit(t)),
        RawInstruction::PopMany => Ok(Instruction::PopMany(t)),
        _ => Ok(Instruction::ThreadCreate(t)),
    }
}

/// Reads a register, the operand of `Push`, `PushCpy`, `ThreadJoin` and `Dbg`.
fn read_one_register(buffer: &mut Buffer, raw: RawInstruction) -> (r: Result<
    Instruction,
    BytecodeError,
>)
    requires
        raw is Push || raw is PushCpy || raw is ThreadJoin || raw is Dbg,
    ensures
        reads(
            r,
            operands_at(raw, old(buffer)@),
            old(buffer)@,
            final(buffer)@,
            |v: Instruction| v@,
        ),
{
    proof {
        reveal(operands_at);
    }
    let reg = read_register(buffer)?;
    match raw {
        RawInstruction::Push => Ok(Instruction::Push(reg)),
        RawInstruction::PushCpy => Ok(Instruction::PushCpy(reg)),
        RawInstruction::ThreadJoin => Ok(Instruction::ThreadJoin(reg)),
        _ => Ok(Instruction::Dbg(reg)),
    }
}

/// Reads the operands of `Cpy`.
fn read_two_registers(buffer: &mut Buffer, raw: RawInstruction) -> (r: Result<
    Instruction,
    BytecodeError,
>)
    requires
        raw is Cpy,
    ensures
        reads(
            r,
            operands_at(raw, old(buffer)@),
            old(buffer)@,
            final(buffer)@,
            |v: Instruction| v@,
        ),
{
    proof {
        reveal(operands_at);
    }
    let first = read_register(buffer)?;
    let second = read_register(buffer)?;
    Ok(Instruction::Cpy(first, second))
}

/// Reads the operands of `Cast`.
fn read_cast_operands(buffer: &mut Buffer, raw: RawInstruction) -> (r: Result<
    Instruction,
    BytecodeError,
>)
    requires
        raw is Cast,
    ensures
        reads(
            r,
            operands_at(raw, old(buffer)@),
            old(buffer)@,
            final(buffer)@,
            |v: Instruction| v@,
        ),
{
    proof {
        reveal(operands_at);
    }
    let reg = read_register(buffer)?;
    let kind = read_kind(buffer)?;
    Ok(Instruction::Cast(reg, kind))
}

/// Reads the operands of `Lea`.
fn read_lea_operands(buffer: &mut Buffer, raw: RawInstruction) -> (r: Result<
    Instruction,
    BytecodeError,
>)
    requires
        raw is Lea,
    ensures
        reads(
            r,
            operands_at(raw, old(buffer)@),
            old(buffer)@,
            final(buffer)@,
            |v: Instruction| v@,
        ),
{
    proof {
        reveal(operands_at);
    }
    let reg = read_register(buffer)?;
    let address = read_size(buffer)?;
    Ok(Instruction::Lea(reg, address))
}

/// Reads the operands of `Jmp`.
fn read_jmp_operands(buffer: &mut Buffer, raw: RawInstruction) -> (r: Result<
    Instruction,
    BytecodeError,
>)
    requires
        raw is Jmp,
    ensures
        reads(
            r,
            operands_at(raw, old(buffer)@),
            old(buffer)@,
            final(buffer)@,
            |v: Instruction| v@,
        ),
{
    proof {
        reveal(operands_at);
    }
    let reg = read_optional_register(buffer)?;
    let t = read_type(buffer)?;
    Ok(Instruction::Jmp(reg, t))
}

/// Reads the operand of `Call`, `Pop`, `PushFrame` and `Dump`.
fn read_small_operand(buffer: &mut Buffer, raw: RawInstruction) -> (r: Result<
    Instruction,
    BytecodeError,
>)
    requires
        raw is Call || raw is Pop || raw is PushFrame || raw is Dump,
    ensures
        reads(
            r,
            operands_at(raw, old(buffer)@),
            old(buffer)@,
            final(buffer)@,
            |v: Instruction| v@,
        ),
{
    proof {
        reveal(operands_at);
    }
    match raw {
        RawInstruction::Call => Ok(Instruction::Call(read_text(buffer)?)),
        RawInstruction::Pop => Ok(Instruction::Pop(read_optional_register(buffer)?)),
        RawInstruction::PushFrame => {
            let flag = read_byte(buffer)?;
            Ok(Instruction::PushFrame(flag != 0))
        },
        _ => Ok(Instruction::Dump(read_byte(buffer)?)),
    }
}

/// Reads the operands of an instruction with a given operation code.
fn read_operands(buffer: &mut Buffer, raw: RawInstruction) -> (r: Result<
    Instruction,
    BytecodeError,
>)
    ensures
        reads(
            r,
            operands_at(raw, old(buffer)@),
            old(buffer)@,
            final(buffer)@,
            |v: Instruction| v@,
        ),
{
    proof {
        reveal(operands_at);
    }
    match raw {
        RawInstruction::Nop => Ok(Instruction::Nop),
        RawInstruction::Ret => Ok(Instruction::Ret),
        RawInstruction::PopFrame => Ok(Instruction::PopFrame),
        RawInstruction::TakeFrom => Ok(Instruction::TakeFrom),
        RawInstruction::GiveTo => Ok(Instruction::GiveTo),
        RawInstruction::Op => read_operator_operands(buffer, raw),
        RawInstruction::Mov | RawInstruction::StackCpy | RawInstruction::Assert => {
            read_register_and_type(buffer, raw)
        },
        RawInstruction::Cpy => read_two_registers(buffer, raw),
        RawInstruction::Cast => read_cast_operands(buffer, raw),
        RawInstruction::Lea => read_lea_operands(buffer, raw),
        RawInstruction::Jmp => read_jmp_operands(buffer, raw),
        RawInstruction::Exit | RawInstruction::PopMany | RawInstruction::ThreadCreate => {
            read_one_type(buffer, raw)
        },
        RawInstruction::Push
        | RawInstruction::PushCpy
        | RawInstruction::ThreadJoin
        | RawInstruction::Dbg => read_one_register(buffer, raw),
        RawInstruction::Call
        | RawInstruction::Pop
        | RawInstruction::PushFrame
        | RawInstruction::Dump => read_small_operand(buffer, raw),
    }
}

/// Reads an instruction: its operation code, then its operands.
fn read_instruction(buffer: &mut Buffer) -> (r: Result<Instruction, BytecodeError>)
    ensures
        reads(
            r,
            instruction_at(old(buffer)@),
            old(buffer)@,
            final(buffer)@,
            |v: Instruction| v@,
        ),
        r is Ok ==> final(buffer)@.len() < old(buffer)@.len(),
{
    let byte = read_byte(buffer)?;
    match RawInstruction::checked_from_byte(byte) {
        Some(raw) => read_operands(buffer, raw),
        None => Err(BytecodeError::InvalidInstruction),
    }
}

/// What the instructions that were read and those that are still to be read
/// come to together.
pub open spec fn completed(done: Seq<InstructionView>, left: Seq<u8>) -> Result<
    Seq<InstructionView>,
    BytecodeError,
> {
    match instructions_at(left) {
        Ok(others) => Ok(done + others),
        Err(e) => Err(e),
    }
}

/// The program that bytes are, or why they are none: see [`decoded`]. The
/// version is looked at first, and nothing after it is read where it is not
/// the one this library reads.
pub fn parse(bytes: Vec<u8>) -> (r: Result<Vec<Instruction>, BytecodeError>)
    ensures
        match r {
            Ok(program) => decoded(bytes@) == Ok::<Seq<InstructionView>, BytecodeError>(
                program@.map_values(|i: Instruction| i@),
            ),
            Err(e) => decoded(bytes@) == Err::<Seq<InstructionView>, BytecodeError>(e),
        },
{
    let mut instructions: Vec<Instruction> = Vec::new();
    let mut buffer = Buffer::with(bytes);
    if buffer.len() < 8 {
        return Err(BytecodeError::Truncated);
    }
    let bytecode_version = buffer.read_u64();
    if bytecode_version != BYTECODE_VERSION {
        return Err(BytecodeError::Version);
    }
    assert(Seq::<InstructionView>::empty() + instructions_at(buffer@)->Ok_0 =~= instructions_at(
        buffer@,
    )->Ok_0);
    while !buffer.is_empty()
        invariant
            decoded(bytes@) == completed(
                instructions@.map_values(|i: Instruction| i@),
                buffer@,
            ),
        decreases buffer@.len(),
    {
        let ghost done = instructions@.map_values(|i: Instruction| i@);
        let ghost left = buffer@;
        match read_instruction(&mut buffer) {
            Ok(instruction) => {
                instructions.push(instruction);
                proof {
                    let now = instructions@.map_values(|i: Instruction| i@);
                    assert(now =~= done.push(instruction@));
                    if instructions_at(buffer@) is Ok {
                        let others = instructions_at(buffer@)->Ok_0;
                        assert(done + (seq![instruction@] + others) =~= now + others);
                    }
                }
            },
            Err(e) => {
                return Err(e);
            },
        }
    }
    assert(instructions@.map_values(|i: Instruction| i@) + Seq::<InstructionView>::empty()
        =~= instructions@.map_values(|i: Instruction| i@));
    Ok(instructions)
}

} // verus!
