//! Reading gives back what was written.

use vstd::prelude::*;
use vstd::utf8::{encode_utf8, encode_utf8_decode_utf8, encode_utf8_valid_utf8};
use crate::buffer::text_bytes;
use crate::bytecode::format::{
    decoded, encoded, instruction_at, instruction_bytes, instructions_at, instructions_bytes,
    kind_at, number_at, operand_bytes, operands_at, operation_at, optional_register_at,
    optional_register_bytes, payload_at, payload_bytes, register_at, register_bytes, size_at,
    text_at, type_at, type_bytes, BytecodeError, Read, BYTECODE_VERSION,
};
use crate::bytes::{
    le_bytes, lemma_le_bytes_len, lemma_le_round_trip, lemma_one_byte, lemma_radix_values,
    lemma_signed_round_trip, radix,
};
use crate::forms::ByteForm;
use crate::instructions::InstructionView;
use crate::operations::Operation;
use crate::register::Register;
use crate::types::{RawType, Value};

verus! {

/// Whether a text can be written: its UTF-8 form is short enough for its
/// length to stand on eight bytes.
pub open spec fn writable_text(text: Seq<char>) -> bool {
    encode_utf8(text).len() < radix(8)
}

/// Whether a value can be written: it is no text, or a text that can be.
pub open spec fn writable_value(v: Value) -> bool {
    v matches Value::String(text) ==> writable_text(text)
}

/// Whether a register that may be left out can be written so that it is
/// read back: `Nil` that is given reads as a register that is left out.
pub open spec fn writable_register(register: Option<Register>) -> bool {
    register != Some(Register::Nil)
}

/// Whether an instruction can be written so that it is read back.
pub open spec fn writable(instruction: InstructionView) -> bool {
    match instruction {
        InstructionView::Mov(_, t)
        | InstructionView::Exit(t)
        | InstructionView::PopMany(t)
        | InstructionView::StackCpy(_, t)
        | InstructionView::ThreadCreate(t)
        | InstructionView::Assert(_, t) => writable_value(t),
        InstructionView::Jmp(register, t) => writable_register(register) && writable_value(t),
        InstructionView::Pop(register) => writable_register(register),
        InstructionView::Call(name) => writable_text(name),
        _ => true,
    }
}

/// A number that was written on `n` bytes is read back from them.
pub proof fn lemma_number_round_trip(value: nat, n: nat, rest: Seq<u8>)
    requires
        value < radix(n),
    ensures
        number_at(le_bytes(value, n) + rest, n) == Ok::<Read<nat>, BytecodeError>(
            Read { value, rest },
        ),
{
    let bytes = le_bytes(value, n) + rest;
    lemma_le_bytes_len(value, n);
    lemma_le_round_trip(value, n);
    assert(bytes.subrange(0, n as int) =~= le_bytes(value, n));
    assert(bytes.subrange(n as int, bytes.len() as int) =~= rest);
}

/// One byte that was written is read back.
pub proof fn lemma_byte_round_trip(byte: u8, rest: Seq<u8>)
    ensures
        number_at(seq![byte] + rest, 1) == Ok::<Read<nat>, BytecodeError>(
            Read { value: byte as nat, rest },
        ),
{
    lemma_one_byte(byte);
    lemma_radix_values();
    lemma_number_round_trip(byte as nat, 1, rest);
}

/// A register that was written is read back.
pub proof fn lemma_register_round_trip(register: Register, rest: Seq<u8>)
    ensures
        register_at(register_bytes(register) + rest) == Ok::<Read<Register>, BytecodeError>(
            Read { value: register, rest },
        ),
{
    lemma_byte_round_trip(register.number(), rest);
}

/// A register that may be left out and was written is read back.
pub proof fn lemma_optional_register_round_trip(register: Option<Register>, rest: Seq<u8>)
    requires
        writable_register(register),
    ensures
        optional_register_at(optional_register_bytes(register) + rest) == Ok::<
            Read<Option<Register>>,
            BytecodeError,
        >(Read { value: register, rest }),
{
    match register {
        Some(r) => lemma_register_round_trip(r, rest),
        None => lemma_register_round_trip(Register::Nil, rest),
    }
}

/// A kind that was written is read back.
pub proof fn lemma_kind_round_trip(kind: RawType, rest: Seq<u8>)
    ensures
        kind_at(seq![kind.byte_of()] + rest) == Ok::<Read<RawType>, BytecodeError>(
            Read { value: kind, rest },
        ),
{
    lemma_byte_round_trip(kind.byte_of(), rest);
}

/// An operator that was written is read back.
pub proof fn lemma_operation_round_trip(op: Operation, rest: Seq<u8>)
    ensures
        operation_at(seq![op.byte_of()] + rest) == Ok::<Read<Operation>, BytecodeError>(
            Read { value: op, rest },
        ),
{
    lemma_byte_round_trip(op.byte_of(), rest);
}

/// A pointer-sized number that was written is read back.
pub proof fn lemma_size_round_trip(value: usize, rest: Seq<u8>)
    ensures
        size_at(le_bytes(value as nat, 8) + rest) == Ok::<Read<usize>, BytecodeError>(
            Read { value, rest },
        ),
{
    lemma_radix_values();
    lemma_number_round_trip(value as nat, 8, rest);
}

/// A text that was written is read back.
pub proof fn lemma_text_round_trip(text: Seq<char>, rest: Seq<u8>)
    requires
        writable_text(text),
    ensures
        text_at(text_bytes(text) + rest) == Ok::<Read<Seq<char>>, BytecodeError>(
            Read { value: text, rest },
        ),
{
    let form = encode_utf8(text);
    let bytes = text_bytes(text) + rest;
    assert(bytes =~= le_bytes(form.len(), 8) + (form + rest));
    lemma_number_round_trip(form.len(), 8, form + rest);
    encode_utf8_valid_utf8(text);
    encode_utf8_decode_utf8(text);
    assert((form + rest).subrange(0, form.len() as int) =~= form);
    assert((form + rest).subrange(form.len() as int, (form + rest).len() as int) =~= rest);
}

/// The payload of an integer that was written is read back.
proof fn lemma_integer_payload_round_trip(v: Value, rest: Seq<u8>)
    requires
        v.kind().is_integer(),
    ensures
        payload_at(v.kind(), payload_bytes(v) + rest) == Ok::<Read<Value>, BytecodeError>(
            Read { value: v, rest },
        ),
{
    reveal(payload_at);
    lemma_radix_values();
    match v {
        Value::Int8(x) => {
            lemma_signed_round_trip(x as int, 1);
            lemma_number_round_trip(crate::bytes::unsigned_of(x as int, 1), 1, rest);
        },
        Value::Int16(x) => {
            lemma_signed_round_trip(x as int, 2);
            lemma_number_round_trip(crate::bytes::unsigned_of(x as int, 2), 2, rest);
        },
        Value::Int32(x) => {
            lemma_signed_round_trip(x as int, 4);
            lemma_number_round_trip(crate::bytes::unsigned_of(x as int, 4), 4, rest);
        },
        Value::Int(x) => {
            lemma_signed_round_trip(x as int, 8);
            lemma_number_round_trip(crate::bytes::unsigned_of(x as int, 8), 8, rest);
        },
        Value::Int64(x) => {
            lemma_signed_round_trip(x as int, 8);
            lemma_number_round_trip(crate::bytes::unsigned_of(x as int, 8), 8, rest);
        },
        Value::Int128(x) => {
            lemma_signed_round_trip(x as int, 16);
            lemma_number_round_trip(crate::bytes::unsigned_of(x as int, 16), 16, rest);
        },
        Value::UInt8(x) => lemma_number_round_trip(x as nat, 1, rest),
        Value::UInt16(x) => lemma_number_round_trip(x as nat, 2, rest),
        Value::UInt32(x) => lemma_number_round_trip(x as nat, 4, rest),
        Value::UInt(x) => lemma_size_round_trip(x, rest),
        Value::UInt64(x) => lemma_number_round_trip(x as nat, 8, rest),
        Value::UInt128(x) => lemma_number_round_trip(x as nat, 16, rest),
        _ => {},
    }
}

/// The payload of a value that was written is read back.
pub proof fn lemma_payload_round_trip(v: Value, rest: Seq<u8>)
    requires
        writable_value(v),
    ensures
        payload_at(v.kind(), payload_bytes(v) + rest) == Ok::<Read<Value>, BytecodeError>(
            Read { value: v, rest },
        ),
{
    reveal(payload_at);
    lemma_radix_values();
    match v {
        Value::Nil => {
            assert(payload_bytes(v) + rest =~= rest);
        },
        Value::Float32(bits) => lemma_number_round_trip(bits as nat, 4, rest),
        Value::Float64(bits) => lemma_number_round_trip(bits as nat, 8, rest),
        Value::Char(c) => lemma_number_round_trip(c as nat, 4, rest),
        Value::String(text) => lemma_text_round_trip(text, rest),
        Value::Boolean(b) => lemma_number_round_trip(if b { 1nat } else { 0nat }, 1, rest),
        Value::Address(a) => lemma_size_round_trip(a, rest),
        Value::Pointer(p) => lemma_size_round_trip(p, rest),
        Value::Register(r) => lemma_register_round_trip(r, rest),
        _ => lemma_integer_payload_round_trip(v, rest),
    }
}

/// A value that was written is read back.
pub proof fn lemma_type_round_trip(v: Value, rest: Seq<u8>)
    requires
        writable_value(v),
    ensures
        type_at(type_bytes(v) + rest) == Ok::<Read<Value>, BytecodeError>(Read { value: v, rest }),
{
    let payload = payload_bytes(v);
    assert(type_bytes(v) + rest =~= seq![v.kind().byte_of()] + (payload + rest));
    lemma_kind_round_trip(v.kind(), payload + rest);
    lemma_payload_round_trip(v, rest);
}

/// A register and a value that were written one after the other are read
/// back.
proof fn lemma_register_and_type(register: Register, v: Value, rest: Seq<u8>)
    requires
        writable_value(v),
    ensures
        register_at(register_bytes(register) + type_bytes(v) + rest) == Ok::<
            Read<Register>,
            BytecodeError,
        >(Read { value: register, rest: type_bytes(v) + rest }),
        type_at(type_bytes(v) + rest) == Ok::<Read<Value>, BytecodeError>(Read { value: v, rest }),
{
    assert(register_bytes(register) + type_bytes(v) + rest =~= register_bytes(register) + (
    type_bytes(v) + rest));
    lemma_register_round_trip(register, type_bytes(v) + rest);
    lemma_type_round_trip(v, rest);
}

/// Two registers that were written one after the other are read back.
proof fn lemma_two_registers(first: Register, second: Register, rest: Seq<u8>)
    ensures
        register_at(register_bytes(first) + register_bytes(second) + rest) == Ok::<
            Read<Register>,
            BytecodeError,
        >(Read { value: first, rest: register_bytes(second) + rest }),
        register_at(register_bytes(second) + rest) == Ok::<Read<Register>, BytecodeError>(
            Read { value: second, rest },
        ),
{
    assert(register_bytes(first) + register_bytes(second) + rest =~= register_bytes(first) + (
    register_bytes(second) + rest));
    lemma_register_round_trip(first, register_bytes(second) + rest);
    lemma_register_round_trip(second, rest);
}

/// The operands of an instruction that were written are read back, for the
/// instructions whose operands are registers and values.
#[verifier::rlimit(50)]
proof fn lemma_plain_operands_round_trip(instruction: InstructionView, rest: Seq<u8>)
    requires
        writable(instruction),
        instruction is Mov || instruction is StackCpy || instruction is Assert
            || instruction is Cpy || instruction is Exit || instruction is PopMany
            || instruction is ThreadCreate || instruction is Push || instruction is PushCpy
            || instruction is ThreadJoin || instruction is Dbg,
    ensures
        operands_at(instruction.raw(), operand_bytes(instruction) + rest) == Ok::<
            Read<InstructionView>,
            BytecodeError,
        >(Read { value: instruction, rest }),
{
    reveal(operands_at);
    match instruction {
        InstructionView::Mov(reg, t) => lemma_register_and_type(reg, t, rest),
        InstructionView::StackCpy(reg, t) => lemma_register_and_type(reg, t, rest),
        InstructionView::Assert(reg, t) => lemma_register_and_type(reg, t, rest),
        InstructionView::Cpy(first, second) => lemma_two_registers(first, second, rest),
        InstructionView::Exit(t) => lemma_type_round_trip(t, rest),
        InstructionView::PopMany(t) => lemma_type_round_trip(t, rest),
        InstructionView::ThreadCreate(t) => lemma_type_round_trip(t, rest),
        InstructionView::Push(reg) => lemma_register_round_trip(reg, rest),
        InstructionView::PushCpy(reg) => lemma_register_round_trip(reg, rest),
        InstructionView::ThreadJoin(reg) => lemma_register_round_trip(reg, rest),
        InstructionView::Dbg(reg) => lemma_register_round_trip(reg, rest),
        _ => {},
    }
}

/// The operands of `Op` that were written are read back.
proof fn lemma_op_round_trip(instruction: InstructionView, rest: Seq<u8>)
    requires
        writable(instruction),
        instruction is Op,
    ensures
        operands_at(instruction.raw(), operand_bytes(instruction) + rest) == Ok::<
            Read<InstructionView>,
            BytecodeError,
        >(Read { value: instruction, rest }),
{
    reveal(operands_at);
    let bytes = operand_bytes(instruction) + rest;
    if let InstructionView::Op(op, regs) = instruction {
        let tail = register_bytes(regs[0]) + register_bytes(regs[1]) + rest;
        assert(bytes =~= seq![op.byte_of()] + tail);
        lemma_operation_round_trip(op, tail);
        lemma_two_registers(regs[0], regs[1], rest);
        assert([regs[0], regs[1]] =~= regs);
    }
}

/// The operands of `Cast` that were written are read back.
proof fn lemma_cast_round_trip(instruction: InstructionView, rest: Seq<u8>)
    requires
        writable(instruction),
        instruction is Cast,
    ensures
        operands_at(instruction.raw(), operand_bytes(instruction) + rest) == Ok::<
            Read<InstructionView>,
            BytecodeError,
        >(Read { value: instruction, rest }),
{
    reveal(operands_at);
    let bytes = operand_bytes(instruction) + rest;
    if let InstructionView::Cast(reg, kind) = instruction {
        let tail = seq![kind.byte_of()] + rest;
        assert(bytes =~= register_bytes(reg) + tail);
        lemma_register_round_trip(reg, tail);
        lemma_kind_round_trip(kind, rest);
    }
}

/// The operands of `Lea` that were written are read back.
proof fn lemma_lea_round_trip(instruction: InstructionView, rest: Seq<u8>)
    requires
        writable(instruction),
        instruction is Lea,
    ensures
        operands_at(instruction.raw(), operand_bytes(instruction) + rest) == Ok::<
            Read<InstructionView>,
            BytecodeError,
        >(Read { value: instruction, rest }),
{
    reveal(operands_at);
    let bytes = operand_bytes(instruction) + rest;
    if let InstructionView::Lea(reg, address) = instruction {
        let tail = le_bytes(address as nat, 8) + rest;
        assert(bytes =~= register_bytes(reg) + tail);
        lemma_register_round_trip(reg, tail);
        lemma_size_round_trip(address, rest);
    }
}

/// The operands of `Jmp` that were written are read back.
proof fn lemma_jmp_round_trip(instruction: InstructionView, rest: Seq<u8>)
    requires
        writable(instruction),
        instruction is Jmp,
    ensures
        operands_at(instruction.raw(), operand_bytes(instruction) + rest) == Ok::<
            Read<InstructionView>,
            BytecodeError,
        >(Read { value: instruction, rest }),
{
    reveal(operands_at);
    let bytes = operand_bytes(instruction) + rest;
    if let InstructionView::Jmp(reg, t) = instruction {
        let tail = type_bytes(t) + rest;
        assert(bytes =~= optional_register_bytes(reg) + tail);
        lemma_optional_register_round_trip(reg, tail);
        lemma_type_round_trip(t, rest);
    }
}

/// The operand of `Pop` that was written is read back.
proof fn lemma_pop_round_trip(instruction: InstructionView, rest: Seq<u8>)
    requires
        writable(instruction),
        instruction is Pop,
    ensures
        operands_at(instruction.raw(), operand_bytes(instruction) + rest) == Ok::<
            Read<InstructionView>,
            BytecodeError,
        >(Read { value: instruction, rest }),
{
    reveal(operands_at);
    let bytes = operand_bytes(instruction) + rest;
    if let InstructionView::Pop(reg) = instruction {
        lemma_optional_register_round_trip(reg, rest);
    }
}

/// The operands of an instruction that were written are read back.
pub proof fn lemma_operands_round_trip(instruction: InstructionView, rest: Seq<u8>)
    requires
        writable(instruction),
    ensures
        operands_at(instruction.raw(), operand_bytes(instruction) + rest) == Ok::<
            Read<InstructionView>,
            BytecodeError,
        >(Read { value: instruction, rest }),
{
    reveal(operands_at);
    let bytes = operand_bytes(instruction) + rest;
    match instruction {
        InstructionView::Nop
        | InstructionView::Ret
        | InstructionView::PopFrame
        | InstructionView::TakeFrom
        | InstructionView::GiveTo => {
            assert(bytes =~= rest);
        },
        InstructionView::Op(..) => lemma_op_round_trip(instruction, rest),
        InstructionView::Cast(..) => lemma_cast_round_trip(instruction, rest),
        InstructionView::Lea(..) => lemma_lea_round_trip(instruction, rest),
        InstructionView::Jmp(..) => lemma_jmp_round_trip(instruction, rest),
        InstructionView::Pop(..) => lemma_pop_round_trip(instruction, rest),
        InstructionView::Call(name) => lemma_text_round_trip(name, rest),
        InstructionView::PushFrame(isolated) => {
            lemma_radix_values();
            lemma_number_round_trip(if isolated { 1nat } else { 0nat }, 1, rest);
        },
        InstructionView::Dump(options) => lemma_byte_round_trip(options, rest),
        _ => lemma_plain_operands_round_trip(instruction, rest),
    }
}

/// An instruction that was written is read back, and it has one byte at
/// least.
pub proof fn lemma_instruction_round_trip(instruction: InstructionView, rest: Seq<u8>)
    requires
        writable(instruction),
    ensures
        instruction_at(instruction_bytes(instruction) + rest) == Ok::<
            Read<InstructionView>,
            BytecodeError,
        >(Read { value: instruction, rest }),
        instruction_bytes(instruction).len() >= 1,
{
    let operands = operand_bytes(instruction);
    assert(instruction_bytes(instruction) + rest =~= seq![instruction.raw().byte_of()] + (
    operands + rest));
    lemma_byte_round_trip(instruction.raw().byte_of(), operands + rest);
    lemma_operands_round_trip(instruction, rest);
}

/// The bytes of instructions begin with those of the first.
pub proof fn lemma_instructions_bytes_front(first: InstructionView, others: Seq<InstructionView>)
    ensures
        instructions_bytes(seq![first] + others) == instruction_bytes(first) + instructions_bytes(
            others,
        ),
    decreases others.len(),
{
    let all = seq![first] + others;
    assert(instructions_bytes(all) == instructions_bytes(all.drop_last()) + instruction_bytes(
        all.last(),
    ));
    if others.len() == 0 {
        assert(all.drop_last() =~= Seq::<InstructionView>::empty());
        assert(all.last() == first);
        assert(instructions_bytes(all.drop_last()) =~= Seq::<u8>::empty());
        assert(instructions_bytes(others) =~= Seq::<u8>::empty());
        assert(instructions_bytes(all) =~= instruction_bytes(first) + instructions_bytes(others));
    } else {
        lemma_instructions_bytes_front(first, others.drop_last());
        assert(all.drop_last() =~= seq![first] + others.drop_last());
        assert(all.last() == others.last());
        assert(instructions_bytes(others) == instructions_bytes(others.drop_last())
            + instruction_bytes(others.last()));
        assert(instructions_bytes(all) =~= instruction_bytes(first) + instructions_bytes(others));
    }
}

/// Instructions that were written one after the other are read back.
pub proof fn lemma_instructions_round_trip(program: Seq<InstructionView>)
    requires
        forall|i: int| 0 <= i < program.len() ==> writable(#[trigger] program[i]),
    ensures
        instructions_at(instructions_bytes(program)) == Ok::<Seq<InstructionView>, BytecodeError>(
            program,
        ),
    decreases program.len(),
{
    if program.len() == 0 {
        assert(program =~= Seq::<InstructionView>::empty());
        assert(instructions_bytes(program) =~= Seq::<u8>::empty());
    } else {
        let first = program[0];
        let others = program.skip(1);
        assert(program =~= seq![first] + others);
        lemma_instructions_bytes_front(first, others);
        let rest = instructions_bytes(others);
        let bytes = instructions_bytes(program);
        lemma_instruction_round_trip(first, rest);
        assert forall|i: int| 0 <= i < others.len() implies writable(#[trigger] others[i]) by {
            assert(others[i] == program[i + 1]);
        }
        lemma_instructions_round_trip(others);
        assert(bytes == instruction_bytes(first) + rest);
        assert(bytes.len() == instruction_bytes(first).len() + rest.len());
        assert(instruction_at(bytes) == Ok::<Read<InstructionView>, BytecodeError>(
            Read { value: first, rest },
        ));
        assert(instructions_at(rest) == Ok::<Seq<InstructionView>, BytecodeError>(others));
        assert(instructions_at(bytes) == Ok::<Seq<InstructionView>, BytecodeError>(
            seq![first] + others,
        ));
    }
}

/// A program that was written is read back: reading the bytes of a program
/// gives the program, if each of its instructions can be written so that it
/// is read back.
pub proof fn law_bytecode_round_trip(program: Seq<InstructionView>)
    requires
        forall|i: int| 0 <= i < program.len() ==> writable(#[trigger] program[i]),
    ensures
        decoded(encoded(program)) == Ok::<Seq<InstructionView>, BytecodeError>(program),
{
    lemma_radix_values();
    lemma_number_round_trip(BYTECODE_VERSION as nat, 8, instructions_bytes(program));
    lemma_instructions_round_trip(program);
}

} // verus!
