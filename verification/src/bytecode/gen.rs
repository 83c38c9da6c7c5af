//! Writing a program as bytes.

use vstd::prelude::*;
use crate::buffer::Buffer;
use crate::bytecode::format::{
    encoded, instruction_bytes, instructions_bytes, optional_register_bytes, register_bytes,
    type_bytes, BYTECODE_VERSION,
};
use crate::bytes::lemma_one_byte;
use crate::forms::ByteForm;
use crate::instructions::{Instruction};
use crate::operations::Operation;
use crate::register::Register;
use crate::types::Type;

verus! {

/// Adds the operation code of an instruction.
fn write_instruction(buffer: &mut Buffer, i: &Instruction)
    ensures
        final(buffer)@ == old(buffer)@ + seq![i@.raw().byte_of()],
{
    let b = i.to_raw().to_byte();
    proof {
        lemma_one_byte(b);
    }
    buffer.write_u8(b);
}

/// Adds a register.
pub fn write_register(buffer: &mut Buffer, r: &Register)
    ensures
        final(buffer)@ == old(buffer)@ + register_bytes(*r),
{
    let b = r.to_byte();
    proof {
        lemma_one_byte(b);
    }
    buffer.write_u8(b);
}

/// Adds a register that may be left out.
fn write_optional_register(buffer: &mut Buffer, r: &Option<Register>)
    ensures
        final(buffer)@ == old(buffer)@ + optional_register_bytes(*r),
{
    match r {
        None => write_register(buffer, &Register::Nil),
        Some(v) => write_register(buffer, v),
    }
}

/// Adds an operator.
pub fn write_op(buffer: &mut Buffer, o: &Operation)
    ensures
        final(buffer)@ == old(buffer)@ + seq![o.byte_of()],
{
    let b = o.to_byte();
    proof {
        lemma_one_byte(b);
    }
    buffer.write_u8(b);
}

/// Adds a value: the byte of its kind, then its payload.
fn write_type(buffer: &mut Buffer, t: &Type)
    ensures
        final(buffer)@ == old(buffer)@ + type_bytes(t@),
{
    let b = t.to_raw().to_byte();
    proof {
        lemma_one_byte(b);
    }
    buffer.write_u8(b);
    let ghost tagged = buffer@;
    match t {
        Type::Nil => {},
        Type::Int8(v) => buffer.write_i8(*v),
        Type::Int16(v) => buffer.write_i16(*v),
        Type::Int32(v) => buffer.write_i32(*v),
        Type::Int(v) => buffer.write_i64(*v as i64),
        Type::Int64(v) => buffer.write_i64(*v),
        Type::Int128(v) => buffer.write_i128(*v),
        Type::UInt8(v) => buffer.write_u8(*v),
        Type::UInt16(v) => buffer.write_u16(*v),
        Type::UInt32(v) => buffer.write_u32(*v),
        Type::UInt(v) => buffer.write_u64(*v as u64),
        Type::UInt64(v) => buffer.write_u64(*v),
        Type::UInt128(v) => buffer.write_u128(*v),
        Type::Float32(v) => buffer.write_u32(*v),
        Type::Float64(v) => buffer.write_u64(*v),
        Type::Char(v) => buffer.write_char(*v),
        Type::String(v) => buffer.write_string(v),
        Type::Boolean(v) => buffer.write_bool(*v),
        Type::Address(v) => buffer.write_u64(*v as u64),
        Type::Pointer(v) => buffer.write_u64(*v as u64),
        Type::Register(v) => write_register(buffer, v),
    }
    assert(buffer@ =~= old(buffer)@ + type_bytes(t@));
}

/// Adds an instruction: its operation code, then its operands.
#[verifier::rlimit(50)]
fn write_whole(buffer: &mut Buffer, i: &Instruction)
    ensures
        final(buffer)@ == old(buffer)@ + instruction_bytes(i@),
{
    write_instruction(buffer, i);
    match i {
        Instruction::Nop => {},
        Instruction::Op(v1, v2) => {
            write_op(buffer, v1);
            write_register(buffer, &v2[0]);
            write_register(buffer, &v2[1]);
        },
        Instruction::Mov(v1, v2) => {
            write_register(buffer, v1);
            write_type(buffer, v2);
        },
        Instruction::Cpy(v1, v2) => {
            write_register(buffer, v1);
            write_register(buffer, v2);
        },
        Instruction::Cast(v1, v2) => {
            write_register(buffer, v1);
            let b = v2.to_byte();
            proof {
                lemma_one_byte(b);
            }
            buffer.write_u8(b);
        },
        Instruction::Lea(v1, v2) => {
            write_register(buffer, v1);
            buffer.write_u64(*v2 as u64);
        },
        Instruction::Jmp(v1, v2) => {
            write_optional_register(buffer, v1);
            write_type(buffer, v2);
        },
        Instruction::Ret => {},
        Instruction::Call(v) => buffer.write_string(v),
        Instruction::Exit(v) => write_type(buffer, v),
        Instruction::Push(v) => write_register(buffer, v),
        Instruction::PushCpy(v) => write_register(buffer, v),
        Instruction::Pop(v) => write_optional_register(buffer, v),
        Instruction::PopMany(v) => write_type(buffer, v),
        Instruction::StackCpy(v1, v2) => {
            write_register(buffer, v1);
            write_type(buffer, v2);
        },
        Instruction::PushFrame(v) => buffer.write_bool(*v),
        Instruction::PopFrame => {},
        Instruction::TakeFrom => {},
        Instruction::GiveTo => {},
        Instruction::ThreadCreate(v) => write_type(buffer, v),
        Instruction::ThreadJoin(v) => write_register(buffer, v),
        Instruction::Assert(v1, v2) => {
            write_register(buffer, v1);
            write_type(buffer, v2);
        },
        Instruction::Dbg(v) => write_register(buffer, v),
        Instruction::Dump(v) => {
            proof {
                lemma_one_byte(*v);
            }
            buffer.write_u8(*v);
        },
    }
    assert(buffer@ =~= old(buffer)@ + instruction_bytes(i@));
}

/// The bytes of a program: see [`encoded`].
pub fn gen(instructions: Vec<Instruction>) -> (bytes: Vec<u8>)
    ensures
        bytes@ == encoded(instructions@.map_values(|i: Instruction| i@)),
{
    let mut buffer = Buffer::new();
    buffer.write_u64(BYTECODE_VERSION);
    let ghost program = instructions@.map_values(|i: Instruction| i@);
    let ghost header = buffer@;
    let mut n: usize = 0;
    assert(header + instructions_bytes(program.subrange(0, 0)) =~= header);
    while n < instructions.len()
        invariant
            n <= instructions.len(),
            program == instructions@.map_values(|i: Instruction| i@),
            buffer@ == header + instructions_bytes(program.subrange(0, n as int)),
        decreases instructions.len() - n,
    {
        write_whole(&mut buffer, &instructions[n]);
        proof {
            let upto = program.subrange(0, n + 1);
            assert(upto.drop_last() =~= program.subrange(0, n as int));
            assert(upto.last() == instructions@[n as int]@);
            assert(buffer@ =~= header + instructions_bytes(upto));
        }
        n = n + 1;
    }
    assert(program.subrange(0, n as int) =~= program);
    assert(header =~= crate::bytes::le_bytes(BYTECODE_VERSION as nat, 8));
    buffer.into_bytes()
}

} // verus!
