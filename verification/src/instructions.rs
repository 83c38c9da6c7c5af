//! The instructions of the machine.

use vstd::prelude::*;
use crate::operations::Operation;
use crate::register::Register;
use crate::types::{RawType, Type, Value};

verus! {

/// The operation code of an instruction: the instruction without its operands.
#[derive(Clone, Copy, Debug, PartialEq, Eq, PartialOrd, Ord, Hash, Structural)]
pub enum RawInstruction {
    Nop,
    Op,
    Mov,
    Cpy,
    Cast,
    Lea,
    Jmp,
    Ret,
    Call,
    Exit,
    Push,
    PushCpy,
    Pop,
    PopMany,
    StackCpy,
    PushFrame,
    PopFrame,
    TakeFrom,
    GiveTo,
    ThreadCreate,
    ThreadJoin,
    Assert,
    Dbg,
    Dump,
}

/// One instruction of a program.
#[derive(Clone, Debug, PartialEq)]
pub enum Instruction {
    /// Does nothing.
    Nop,
    /// Applies an operator to the first register, or to both, and leaves the
    /// result in the first.
    Op(Operation, [Register; 2]),
    /// Puts a value into the register; a value that names a register is moved
    /// out of that register.
    Mov(Register, Type),
    /// Copies the second register's value into the first.
    Cpy(Register, Register),
    /// Converts the register's value to another kind.
    Cast(Register, RawType),
    /// Loads an offset into the program as an address.
    Lea(Register, usize),
    /// Jumps to an address, given directly or in a register; with a condition
    /// register, only if that register holds `true`.
    Jmp(Option<Register>, Type),
    /// Removes an address from the top of the stack and jumps there.
    Ret,
    /// Calls a library function by name. It reads registers 5 to 9 and may
    /// write them, and has the current frame and the heap.
    Call(String),
    /// Ends the program with a code, given directly or in a register.
    Exit(Type),
    /// Moves the register's value onto the stack.
    Push(Register),
    /// Copies the register's value onto the stack.
    PushCpy(Register),
    /// Removes the top of the stack, into the register if one is given.
    Pop(Option<Register>),
    /// Removes a number of values from the stack.
    PopMany(Type),
    /// Copies the value at a depth below the top of the stack into the
    /// register.
    StackCpy(Register, Type),
    /// Opens a new frame; the flag marks it as isolated.
    PushFrame(bool),
    /// Closes the top frame, which must not be the only one.
    PopFrame,
    /// Reserved: moves a value from the frame below to the top frame.
    TakeFrom,
    /// Reserved: moves a value from the top frame to the frame below.
    GiveTo,
    /// Hands the top frame to a new thread that starts at the address, and
    /// leaves the thread's handle in register 5.
    ThreadCreate(Type),
    /// Waits for the thread whose handle the register holds, leaves its exit
    /// code in register 5 and puts its frame on top.
    ThreadJoin(Register),
    /// Ends the program with the failure code unless the register's value
    /// equals the given one.
    Assert(Register, Type),
    /// Shows a register; has no effect on the program.
    Dbg(Register),
    /// Shows the machine's state; has no effect on the program.
    Dump(u8),
}

/// What an [`Instruction`] stands for: the same instruction over [`Value`]s.
pub enum InstructionView {
    Nop,
    Op(Operation, [Register; 2]),
    Mov(Register, Value),
    Cpy(Register, Register),
    Cast(Register, RawType),
    Lea(Register, usize),
    Jmp(Option<Register>, Value),
    Ret,
    Call(Seq<char>),
    Exit(Value),
    Push(Register),
    PushCpy(Register),
    Pop(Option<Register>),
    PopMany(Value),
    StackCpy(Register, Value),
    PushFrame(bool),
    PopFrame,
    TakeFrom,
    GiveTo,
    ThreadCreate(Value),
    ThreadJoin(Register),
    Assert(Register, Value),
    Dbg(Register),
    Dump(u8),
}

impl InstructionView {
    /// The operation code of the instruction.
    pub open spec fn raw(self) -> RawInstruction {
        match self {
            InstructionView::Nop => RawInstruction::Nop,
            InstructionView::Op(_, _) => RawInstruction::Op,
            InstructionView::Mov(_, _) => RawInstruction::Mov,
            InstructionView::Cpy(_, _) => RawInstruction::Cpy,
            InstructionView::Cast(_, _) => RawInstruction::Cast,
            InstructionView::Lea(_, _) => RawInstruction::Lea,
            InstructionView::Jmp(_, _) => RawInstruction::Jmp,
            InstructionView::Ret => RawInstruction::Ret,
            InstructionView::Call(_) => RawInstruction::Call,
            InstructionView::Exit(_) => RawInstruction::Exit,
            InstructionView::Push(_) => RawInstruction::Push,
            InstructionView::PushCpy(_) => RawInstruction::PushCpy,
            InstructionView::Pop(_) => RawInstruction::Pop,
            InstructionView::PopMany(_) => RawInstruction::PopMany,
            InstructionView::StackCpy(_, _) => RawInstruction::StackCpy,
            InstructionView::PushFrame(_) => RawInstruction::PushFrame,
            InstructionView::PopFrame => RawInstruction::PopFrame,
            InstructionView::TakeFrom => RawInstruction::TakeFrom,
            InstructionView::GiveTo => RawInstruction::GiveTo,
            InstructionView::ThreadCreate(_) => RawInstruction::ThreadCreate,
            InstructionView::ThreadJoin(_) => RawInstruction::ThreadJoin,
            InstructionView::Assert(_, _) => RawInstruction::Assert,
            InstructionView::Dbg(_) => RawInstruction::Dbg,
            InstructionView::Dump(_) => RawInstruction::Dump,
        }
    }
}

impl View for Instruction {
    type V = InstructionView;

    open spec fn view(&self) -> InstructionView {
        match self {
            Instruction::Nop => InstructionView::Nop,
            Instruction::Op(v0, v1) => InstructionView::Op(*v0, *v1),
            Instruction::Mov(v0, v1) => InstructionView::Mov(*v0, v1@),
            Instruction::Cpy(v0, v1) => InstructionView::Cpy(*v0, *v1),
            Instruction::Cast(v0, v1) => InstructionView::Cast(*v0, *v1),
            Instruction::Lea(v0, v1) => InstructionView::Lea(*v0, *v1),
            Instruction::Jmp(v0, v1) => InstructionView::Jmp(*v0, v1@),
            Instruction::Ret => InstructionView::Ret,
            Instruction::Call(v0) => InstructionView::Call(v0@),
            Instruction::Exit(v0) => InstructionView::Exit(v0@),
            Instruction::Push(v0) => InstructionView::Push(*v0),
            Instruction::PushCpy(v0) => InstructionView::PushCpy(*v0),
            Instruction::Pop(v0) => InstructionView::Pop(*v0),
            Instruction::PopMany(v0) => InstructionView::PopMany(v0@),
            Instruction::StackCpy(v0, v1) => InstructionView::StackCpy(*v0, v1@),
            Instruction::PushFrame(v0) => InstructionView::PushFrame(*v0),
            Instruction::PopFrame => InstructionView::PopFrame,
            Instruction::TakeFrom => InstructionView::TakeFrom,
            Instruction::GiveTo => InstructionView::GiveTo,
            Instruction::ThreadCreate(v0) => InstructionView::ThreadCreate(v0@),
            Instruction::ThreadJoin(v0) => InstructionView::ThreadJoin(*v0),
            Instruction::Assert(v0, v1) => InstructionView::Assert(*v0, v1@),
            Instruction::Dbg(v0) => InstructionView::Dbg(*v0),
            Instruction::Dump(v0) => InstructionView::Dump(*v0),
        }
    }
}

impl Instruction {
    /// The operation code of the instruction.
    pub fn to_raw(&self) -> (raw: RawInstruction)
        ensures
            raw == self@.raw(),
    {
        match self {
            Instruction::Nop => RawInstruction::Nop,
            Instruction::Op(_, _) => RawInstruction::Op,
            Instruction::Mov(_, _) => RawInstruction::Mov,
            Instruction::Cpy(_, _) => RawInstruction::Cpy,
            Instruction::Cast(_, _) => RawInstruction::Cast,
            Instruction::Lea(_, _) => RawInstruction::Lea,
            Instruction::Jmp(_, _) => RawInstruction::Jmp,
            Instruction::Ret => RawInstruction::Ret,
            Instruction::Call(_) => RawInstruction::Call,
            Instruction::Exit(_) => RawInstruction::Exit,
            Instruction::Push(_) => RawInstruction::Push,
            Instruction::PushCpy(_) => RawInstruction::PushCpy,
            Instruction::Pop(_) => RawInstruction::Pop,
            Instruction::PopMany(_) => RawInstruction::PopMany,
            Instruction::StackCpy(_, _) => RawInstruction::StackCpy,
            Instruction::PushFrame(_) => RawInstruction::PushFrame,
            Instruction::PopFrame => RawInstruction::PopFrame,
            Instruction::TakeFrom => RawInstruction::TakeFrom,
            Instruction::GiveTo => RawInstruction::GiveTo,
            Instruction::ThreadCreate(_) => RawInstruction::ThreadCreate,
            Instruction::ThreadJoin(_) => RawInstruction::ThreadJoin,
            Instruction::Assert(_, _) => RawInstruction::Assert,
            Instruction::Dbg(_) => RawInstruction::Dbg,
            Instruction::Dump(_) => RawInstruction::Dump,
        }
    }
}

} // verus!
