//! What one instruction does to an engine, stated over [`Value`]s.

use vstd::prelude::*;
use crate::cast::converted;
use crate::fault::Fault;
use crate::instructions::InstructionView;
use crate::library::{called_by_name, AnswerView, HostRequestView};
use crate::memory::registers::bank_wf;
use crate::memory::stack::{at_depth, without_top};
use crate::memory::HeapItem;
use crate::register::Register;
use crate::solve::operated;
use crate::types::Value;

verus! {

/// The exit code of a program that an `Assert` ended.
pub const ASSERT_FAILED: i32 = -1;

/// What a stack frame stands for: its values, the last of which is on top,
/// and its mark.
pub struct Frame {
    pub values: Seq<Value>,
    pub isolated: bool,
}

/// What an engine stands for: where it is in its program, what its registers
/// hold, and its frames, the last of which is on top.
pub struct Machine {
    pub current: usize,
    pub registers: Seq<Value>,
    pub frames: Seq<Frame>,
}

/// What the embedding program learns from one instruction.
pub enum TickView<H> {
    /// The program goes on.
    Continue,
    /// The program ended with this code.
    Exit(i32),
    /// A library function needs the embedding program.
    Host(HostRequestView),
    /// A thread is to be started on this frame, at this address.
    Spawn(Frame, usize),
    /// The thread with this handle is to be waited for.
    Join(H),
}

/// An engine and the heap after an instruction, and what the embedding
/// program learns from it.
pub struct Stepped<H> {
    pub machine: Machine,
    pub heap: Map<usize, HeapItem<H>>,
    pub tick: TickView<H>,
}

impl Machine {
    /// Whether the engine is well formed: its registers are, and it has a
    /// frame.
    pub open spec fn wf(self) -> bool {
        bank_wf(self.registers) && self.frames.len() >= 1
    }

    /// The values of the top frame.
    pub open spec fn top(self) -> Seq<Value> {
        self.frames.last().values
    }

    /// The engine at another place in its program.
    pub open spec fn at(self, current: usize) -> Machine {
        Machine { current, ..self }
    }

    /// The engine at the next instruction.
    pub open spec fn advanced(self) -> Machine {
        self.at((self.current + 1) as usize)
    }

    /// The engine with other registers.
    pub open spec fn with_registers(self, registers: Seq<Value>) -> Machine {
        Machine { registers, ..self }
    }

    /// The engine with a value in a register.
    pub open spec fn with_register(self, register: Register, v: Value) -> Machine {
        self.with_registers(self.registers.update(register.slot(), v))
    }

    /// The engine with other frames.
    pub open spec fn with_frames(self, frames: Seq<Frame>) -> Machine {
        Machine { frames, ..self }
    }

    /// The engine after a thread was started for it: the pointer to the
    /// thread's handle is in register 5.
    pub open spec fn thread_created(self, pointer: usize) -> Machine {
        self.with_register(Register::R5, Value::Pointer(pointer))
    }

    /// The engine after it took in a thread that has ended: the thread's
    /// exit code is in register 5 and its frame on top of the frames.
    pub open spec fn thread_joined(self, code: i32, frame: Frame) -> Machine {
        self.with_register(Register::R5, Value::Int32(code)).with_frames(self.frames.push(frame))
    }

    /// The engine with other values in its top frame.
    pub open spec fn with_top(self, values: Seq<Value>) -> Machine {
        self.with_frames(
            self.frames.update(
                self.frames.len() - 1,
                Frame { values, isolated: self.frames.last().isolated },
            ),
        )
    }
}

/// The value that an operand stands for: the value of the register it names,
/// or itself.
pub open spec fn resolved(t: Value, bank: Seq<Value>) -> Result<Value, Fault> {
    match t {
        Value::Register(r) => if r.is_slot() {
            Ok(bank[r.slot()])
        } else {
            Err(Fault::InvalidRegister)
        },
        _ => Ok(t),
    }
}

/// The `UInt` that an operand stands for.
pub open spec fn uint_operand(t: Value, bank: Seq<Value>) -> Result<usize, Fault> {
    match resolved(t, bank) {
        Ok(Value::UInt(n)) => Ok(n),
        Ok(_) => Err(Fault::TypeMismatch),
        Err(e) => Err(e),
    }
}

/// The `Int32` that an operand stands for.
pub open spec fn int32_operand(t: Value, bank: Seq<Value>) -> Result<i32, Fault> {
    match resolved(t, bank) {
        Ok(Value::Int32(n)) => Ok(n),
        Ok(_) => Err(Fault::TypeMismatch),
        Err(e) => Err(e),
    }
}

/// The address that an operand stands for.
pub open spec fn address_operand(t: Value, bank: Seq<Value>) -> Result<usize, Fault> {
    match resolved(t, bank) {
        Ok(Value::Address(n)) => Ok(n),
        Ok(_) => Err(Fault::TypeMismatch),
        Err(e) => Err(e),
    }
}

/// The registers after a library function returned: each value it gave is in
/// its register, from register 5 on.
pub open spec fn written(bank: Seq<Value>, ret: Seq<Option<Value>>) -> Seq<Value> {
    Seq::new(
        bank.len(),
        |i: int|
            if 5 <= i < 10 && ret[i - 5] is Some {
                ret[i - 5]->Some_0
            } else {
                bank[i]
            },
    )
}

/// The program goes on at the next instruction, with this engine and heap.
pub open spec fn going<H>(m: Machine, heap: Map<usize, HeapItem<H>>) -> Result<Stepped<H>, Fault> {
    Ok(Stepped { machine: m.advanced(), heap, tick: TickView::Continue })
}

/// The program goes on at the given place, with this engine and heap.
pub open spec fn jumping<H>(m: Machine, heap: Map<usize, HeapItem<H>>, to: usize) -> Result<
    Stepped<H>,
    Fault,
> {
    Ok(Stepped { machine: m.at(to), heap, tick: TickView::Continue })
}

/// The program ends with the code; the engine and the heap stay as they are.
pub open spec fn ending<H>(m: Machine, heap: Map<usize, HeapItem<H>>, code: i32) -> Result<
    Stepped<H>,
    Fault,
> {
    Ok(Stepped { machine: m, heap, tick: TickView::Exit(code) })
}

/// Whether a value is the one that `Assert` expects: whether the two are of
/// one kind and have one payload. Whether two floating-point numbers of one
/// kind are equal takes floating-point arithmetic.
pub open spec fn asserted(v: Value, expected: Value) -> Result<bool, Fault> {
    if v.kind() == expected.kind() && v.kind().is_float() {
        Err(Fault::FloatingPoint)
    } else {
        Ok(v == expected)
    }
}

/// What an instruction does to a well-formed engine and the heap.
///
/// An instruction that fails changes nothing. The failures of an instruction
/// are looked for in the order in which the clauses below name them.
pub open spec fn executed<H>(
    instruction: InstructionView,
    m: Machine,
    heap: Map<usize, HeapItem<H>>,
) -> Result<Stepped<H>, Fault> {
    let bank = m.registers;
    match instruction {
        InstructionView::Nop | InstructionView::Dbg(_) | InstructionView::Dump(_) => going(
            m,
            heap,
        ),
        InstructionView::Op(op, regs) => match operated(op, bank, regs) {
            Ok(after) => going(m.with_registers(after), heap),
            Err(e) => Err(e),
        },
        InstructionView::Mov(dst, t) => if !dst.is_slot() {
            Err(Fault::InvalidRegister)
        } else {
            match t {
                Value::Register(src) => if !src.is_slot() {
                    Err(Fault::InvalidRegister)
                } else {
                    going(
                        m.with_register(src, Value::Nil).with_register(dst, bank[src.slot()]),
                        heap,
                    )
                },
                _ => going(m.with_register(dst, t), heap),
            }
        },
        InstructionView::Cpy(dst, src) => if !dst.is_slot() || !src.is_slot() {
            Err(Fault::InvalidRegister)
        } else {
            going(m.with_register(dst, bank[src.slot()]), heap)
        },
        InstructionView::Cast(reg, kind) => if !reg.is_slot() {
            Err(Fault::InvalidRegister)
        } else {
            match converted(bank[reg.slot()], kind) {
                Ok(v) => going(m.with_register(reg, v), heap),
                Err(e) => Err(e),
            }
        },
        InstructionView::Lea(reg, address) => if !reg.is_slot() {
            Err(Fault::InvalidRegister)
        } else {
            going(m.with_register(reg, Value::Address(address)), heap)
        },
        InstructionView::Jmp(condition, t) => match address_operand(t, bank) {
            Err(e) => Err(e),
            Ok(address) => match condition {
                None => jumping(m, heap, address),
                Some(reg) => if !reg.is_slot() {
                    Err(Fault::InvalidRegister)
                } else {
                    match bank[reg.slot()] {
                        Value::Boolean(taken) => if taken {
                            jumping(m, heap, address)
                        } else {
                            going(m, heap)
                        },
                        _ => Err(Fault::TypeMismatch),
                    }
                },
            },
        },
        InstructionView::Ret => if m.top().len() == 0 {
            Err(Fault::EmptyStack)
        } else {
            match m.top().last() {
                Value::Address(address) => jumping(
                    m.with_top(m.top().drop_last()),
                    heap,
                    address,
                ),
                _ => Err(Fault::TypeMismatch),
            }
        },
        InstructionView::Call(name) => match called_by_name(
            name,
            bank[Register::R5.slot()],
            bank[Register::R9.slot()],
            m.top(),
            heap,
        ) {
            Err(e) => Err(e),
            Ok((answer, after)) => match answer {
                AnswerView::Return(ret) => going(m.with_registers(written(bank, ret)), after),
                AnswerView::Host(request) => Ok(
                    Stepped { machine: m.advanced(), heap: after, tick: TickView::Host(request) },
                ),
            },
        },
        InstructionView::Exit(t) => match int32_operand(t, bank) {
            Ok(code) => ending(m, heap, code),
            Err(e) => Err(e),
        },
        InstructionView::Push(reg) => if !reg.is_slot() {
            Err(Fault::InvalidRegister)
        } else {
            going(
                m.with_register(reg, Value::Nil).with_top(m.top().push(bank[reg.slot()])),
                heap,
            )
        },
        InstructionView::PushCpy(reg) => if !reg.is_slot() {
            Err(Fault::InvalidRegister)
        } else {
            going(m.with_top(m.top().push(bank[reg.slot()])), heap)
        },
        InstructionView::Pop(dst) => if m.top().len() == 0 {
            Err(Fault::EmptyStack)
        } else {
            match dst {
                None => going(m.with_top(m.top().drop_last()), heap),
                Some(reg) => if !reg.is_slot() {
                    Err(Fault::InvalidRegister)
                } else if !m.top().last().storable() {
                    Err(Fault::RegisterValue)
                } else {
                    going(
                        m.with_register(reg, m.top().last()).with_top(m.top().drop_last()),
                        heap,
                    )
                },
            }
        },
        InstructionView::PopMany(t) => match uint_operand(t, bank) {
            Err(e) => Err(e),
            Ok(n) => if n > m.top().len() {
                Err(Fault::EmptyStack)
            } else {
                going(m.with_top(without_top(m.top(), n as nat)), heap)
            },
        },
        InstructionView::StackCpy(reg, t) => match uint_operand(t, bank) {
            Err(e) => Err(e),
            Ok(n) => if n >= m.top().len() {
                Err(Fault::EmptyStack)
            } else if !reg.is_slot() {
                Err(Fault::InvalidRegister)
            } else if !at_depth(m.top(), n as nat).storable() {
                Err(Fault::RegisterValue)
            } else {
                going(m.with_register(reg, at_depth(m.top(), n as nat)), heap)
            },
        },
        InstructionView::PushFrame(isolated) => going(
            m.with_frames(m.frames.push(Frame { values: Seq::empty(), isolated })),
            heap,
        ),
        InstructionView::PopFrame => if m.frames.len() <= 1 {
            Err(Fault::LastFrame)
        } else {
            going(m.with_frames(m.frames.drop_last()), heap)
        },
        InstructionView::TakeFrom | InstructionView::GiveTo => Err(Fault::Reserved),
        InstructionView::ThreadCreate(t) => match address_operand(t, bank) {
            Err(e) => Err(e),
            Ok(address) => if m.frames.len() <= 1 {
                Err(Fault::LastFrame)
            } else {
                Ok(
                    Stepped {
                        machine: m.with_frames(m.frames.drop_last()).advanced(),
                        heap,
                        tick: TickView::Spawn(m.frames.last(), address),
                    },
                )
            },
        },
        InstructionView::ThreadJoin(reg) => if !reg.is_slot() {
            Err(Fault::InvalidRegister)
        } else {
            match bank[reg.slot()] {
                Value::Pointer(p) => if heap.contains_key(p) && heap[p] is Thread {
                    Ok(
                        Stepped {
                            machine: m.advanced(),
                            heap: heap.remove(p),
                            tick: TickView::Join(heap[p]->Thread_0),
                        },
                    )
                } else {
                    Err(Fault::InvalidPointer)
                },
                _ => Err(Fault::TypeMismatch),
            }
        },
        InstructionView::Assert(reg, expected) => if !reg.is_slot() {
            Err(Fault::InvalidRegister)
        } else {
            match asserted(bank[reg.slot()], expected) {
                Err(e) => Err(e),
                Ok(true) => going(m, heap),
                Ok(false) => ending(m, heap, ASSERT_FAILED),
            }
        },
    }
}

/// What one tick does: it fails where the engine is outside its program,
/// and executes the instruction at which the engine is otherwise.
pub open spec fn step<H>(
    program: Seq<InstructionView>,
    m: Machine,
    heap: Map<usize, HeapItem<H>>,
) -> Result<Stepped<H>, Fault> {
    if m.current >= program.len() {
        Err(Fault::NoInstruction)
    } else {
        executed(program[m.current as int], m, heap)
    }
}

/// An engine and the heap after a run, and how the run ended.
pub struct Ran<H> {
    pub machine: Machine,
    pub heap: Map<usize, HeapItem<H>>,
    pub outcome: Result<TickView<H>, Fault>,
}

/// What a run of at most `fuel` ticks comes to. It ends with the first tick
/// that fails or that does not say `Continue`, and says `Continue` itself
/// where the fuel ran out before.
pub open spec fn ran<H>(
    program: Seq<InstructionView>,
    m: Machine,
    heap: Map<usize, HeapItem<H>>,
    fuel: nat,
) -> Ran<H>
    decreases fuel,
{
    if fuel == 0 {
        Ran { machine: m, heap, outcome: Ok(TickView::Continue) }
    } else {
        match step(program, m, heap) {
            Err(e) => Ran { machine: m, heap, outcome: Err(e) },
            Ok(s) => if s.tick is Continue {
                ran(program, s.machine, s.heap, (fuel - 1) as nat)
            } else {
                Ran { machine: s.machine, heap: s.heap, outcome: Ok(s.tick) }
            },
        }
    }
}

} // verus!
