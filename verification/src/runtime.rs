//! The engine: one instruction pointer, a program, registers and frames.
//!
//! The engine computes and decides: it does no input or output, starts no
//! thread and waits for none. Where an instruction needs one of these, a
//! tick says so, and the embedding program does it and reports back.

use std::sync::Arc;
use vstd::prelude::*;
use crate::cast::{cast, converted};
use crate::fault::Fault;
use crate::instructions::{Instruction, InstructionView};
use crate::library::{
    call, delivered, reply_value, return_view, Answer, HostReply, HostRequest,
};
use crate::machine::{
    address_operand, executed, int32_operand, ran, step, uint_operand, written, Frame,
    Machine, Ran, Stepped, TickView, ASSERT_FAILED,
};
use crate::memory::stack::without_top;
use crate::memory::{Heap, HeapBox, HeapItem, Registers, StackFrame};
use crate::operations::Operation;
use crate::register::Register;
use crate::types::{RawType, Type, Value};

verus! {

/// What a stack frame stands for in an engine.
pub open spec fn frame_model(frame: StackFrame) -> Frame {
    Frame { values: frame@, isolated: frame.is_isolated() }
}

/// What frames stand for in an engine.
pub open spec fn frames_model(frames: Seq<StackFrame>) -> Seq<Frame> {
    frames.map_values(|f: StackFrame| frame_model(f))
}

/// What the embedding program learns from one tick.
#[derive(Debug, PartialEq)]
pub enum Tick<H> {
    /// The program goes on.
    Continue,
    /// The program ended with this code.
    Exit(i32),
    /// A library function needs the embedding program: it does what is asked
    /// and, where it read something, hands it to [`AllotRuntime::deliver`].
    Host(HostRequest),
    /// A thread is to be started: a new engine on this frame, at this
    /// address, made by [`AllotRuntime::new_thread`]. The thread's handle
    /// goes to [`AllotRuntime::thread_created`].
    Spawn(StackFrame, usize),
    /// The thread with this handle is to be waited for. Its exit code and
    /// its frame go to [`AllotRuntime::thread_joined`].
    Join(H),
}

impl<H> View for Tick<H> {
    type V = TickView<H>;

    open spec fn view(&self) -> TickView<H> {
        match self {
            Tick::Continue => TickView::Continue,
            Tick::Exit(code) => TickView::Exit(*code),
            Tick::Host(request) => TickView::Host(request@),
            Tick::Spawn(frame, address) => TickView::Spawn(frame_model(*frame), *address),
            Tick::Join(handle) => TickView::Join(*handle),
        }
    }
}

/// One engine.
#[derive(Debug)]
pub struct AllotRuntime {
    pub current: usize,
    pub instructions: Arc<Vec<Instruction>>,
    pub registers: Registers,
    pub stack_frames: Vec<StackFrame>,
}

impl View for AllotRuntime {
    type V = Machine;

    open spec fn view(&self) -> Machine {
        Machine {
            current: self.current,
            registers: self.registers@,
            frames: frames_model(self.stack_frames@),
        }
    }
}

/// The `UInt` that an operand stands for.
fn get_uint(t: &Type, registers: &Registers) -> (r: Result<usize, Fault>)
    requires
        registers.wf(),
    ensures
        r == uint_operand(t@, registers@),
{
    match t {
        Type::UInt(i) => Ok(*i),
        Type::Register(reg) => {
            if !reg.names_slot() {
                return Err(Fault::InvalidRegister);
            }
            match registers.get(*reg) {
                Type::UInt(i) => Ok(*i),
                _ => Err(Fault::TypeMismatch),
            }
        },
        _ => Err(Fault::TypeMismatch),
    }
}

/// The `Int32` that an operand stands for.
fn get_int32(t: &Type, registers: &Registers) -> (r: Result<i32, Fault>)
    requires
        registers.wf(),
    ensures
        r == int32_operand(t@, registers@),
{
    match t {
        Type::Int32(i) => Ok(*i),
        Type::Register(reg) => {
            if !reg.names_slot() {
                return Err(Fault::InvalidRegister);
            }
            match registers.get(*reg) {
                Type::Int32(i) => Ok(*i),
                _ => Err(Fault::TypeMismatch),
            }
        },
        _ => Err(Fault::TypeMismatch),
    }
}

/// The address that an operand stands for.
fn get_address(t: &Type, registers: &Registers) -> (r: Result<usize, Fault>)
    requires
        registers.wf(),
    ensures
        r == address_operand(t@, registers@),
{
    match t {
        Type::Address(i) => Ok(*i),
        Type::Register(reg) => {
            if !reg.names_slot() {
                return Err(Fault::InvalidRegister);
            }
            match registers.get(*reg) {
                Type::Address(i) => Ok(*i),
                _ => Err(Fault::TypeMismatch),
            }
        },
        _ => Err(Fault::TypeMismatch),
    }
}

/// No conversion of a value that may rest in a register gives the name of a
/// register.
pub proof fn lemma_converted_storable(v: Value, kind: RawType)
    requires
        v.storable(),
    ensures
        converted(v, kind) matches Ok(after) ==> after.storable(),
{
}

/// The frames with other values in the top one.
pub open spec fn with_top(frames: Seq<Frame>, values: Seq<Value>) -> Seq<Frame> {
    frames.update(frames.len() - 1, Frame { values, isolated: frames.last().isolated })
}

/// Puts a value on top of the top frame.
fn top_push(frames: &mut Vec<StackFrame>, t: Type)
    requires
        old(frames).len() >= 1,
    ensures
        final(frames).len() == old(frames).len(),
        frames_model(final(frames)@) == with_top(
            frames_model(old(frames)@),
            frames_model(old(frames)@).last().values.push(t@),
        ),
{
    let n = frames.len();
    frames[n - 1].push(t);
    assert(frames_model(frames@) =~= with_top(
        frames_model(old(frames)@),
        frames_model(old(frames)@).last().values.push(t@),
    ));
}

/// Removes values from the top of the top frame.
fn top_drop(frames: &mut Vec<StackFrame>, amount: usize)
    requires
        old(frames).len() >= 1,
        amount <= old(frames)@.last()@.len(),
    ensures
        final(frames).len() == old(frames).len(),
        frames_model(final(frames)@) == with_top(
            frames_model(old(frames)@),
            without_top(frames_model(old(frames)@).last().values, amount as nat),
        ),
        amount == 1 ==> frames_model(final(frames)@) == with_top(
            frames_model(old(frames)@),
            frames_model(old(frames)@).last().values.drop_last(),
        ),
{
    let n = frames.len();
    let ghost before = frames@[n - 1]@;
    let mut i: usize = 0;
    while i < amount
        invariant
            i <= amount <= before.len(),
            n == frames.len() == old(frames).len(),
            n >= 1,
            before == old(frames)@[n - 1]@,
            frames@[n - 1]@ == without_top(before, i as nat),
            frames@[n - 1].is_isolated() == old(frames)@[n - 1].is_isolated(),
            forall|j: int| 0 <= j < n - 1 ==> frames@[j] == old(frames)@[j],
        decreases amount - i,
    {
        let _ = frames[n - 1].pop();
        i = i + 1;
        assert(frames@[n - 1]@ =~= without_top(before, i as nat));
    }
    assert(frames_model(frames@) =~= with_top(
        frames_model(old(frames)@),
        without_top(frames_model(old(frames)@).last().values, amount as nat),
    ));
    assert(without_top(before, 1) =~= before.drop_last());
}

impl AllotRuntime {
    /// Whether the engine is well formed: its registers are, and it has a
    /// frame.
    pub open spec fn wf(&self) -> bool {
        self.registers.wf() && self.stack_frames.len() >= 1
    }

    /// The engine's program.
    pub open spec fn program(&self) -> Seq<InstructionView> {
        self.instructions@.map_values(|i: Instruction| i@)
    }

    /// An engine at the start of a program, with `Nil` in every register and
    /// one empty frame.
    pub fn new(instructions: Vec<Instruction>) -> (runtime: AllotRuntime)
        ensures
            runtime.wf(),
            runtime.program() == instructions@.map_values(|i: Instruction| i@),
            runtime@.current == 0,
            runtime@.registers == crate::memory::registers::empty_bank(),
            runtime@.frames == seq![Frame { values: Seq::<Value>::empty(), isolated: false }],
    {
        AllotRuntime::new_thread(Arc::new(instructions), StackFrame::default(), 0)
    }

    /// An engine at the start of a program that it shares with others.
    pub fn new_arc(instructions: Arc<Vec<Instruction>>) -> (runtime: AllotRuntime)
        ensures
            runtime.wf(),
            runtime.instructions == instructions,
            runtime@.current == 0,
            runtime@.registers == crate::memory::registers::empty_bank(),
            runtime@.frames == seq![Frame { values: Seq::<Value>::empty(), isolated: false }],
    {
        AllotRuntime::new_thread(instructions, StackFrame::default(), 0)
    }

    /// The engine of a thread: it starts at the given place of the program,
    /// with `Nil` in every register and the given frame as its only one.
    pub fn new_thread(
        instructions: Arc<Vec<Instruction>>,
        stack_frame: StackFrame,
        current: usize,
    ) -> (runtime: AllotRuntime)
        ensures
            runtime.wf(),
            runtime.instructions == instructions,
            runtime@.current == current,
            runtime@.registers == crate::memory::registers::empty_bank(),
            runtime@.frames == seq![frame_model(stack_frame)],
    {
        let mut stack_frames: Vec<StackFrame> = Vec::new();
        stack_frames.push(stack_frame);
        let runtime = AllotRuntime {
            instructions,
            registers: Registers::new(),
            stack_frames,
            current,
        };
        assert(runtime@.frames =~= seq![frame_model(stack_frame)]);
        runtime
    }

    /// Whether an engine and the heap went from one state to another as an
    /// instruction has it, with the given result: see [`executed`]. Where the
    /// instruction fails, nothing has changed.
    pub open spec fn did<H>(
        before: AllotRuntime,
        heap_before: Heap<H>,
        after: AllotRuntime,
        heap_after: Heap<H>,
        instruction: InstructionView,
        r: Result<Tick<H>, Fault>,
    ) -> bool {
        &&& after.wf()
        &&& heap_after.wf()
        &&& after.instructions == before.instructions
        &&& heap_after.next() == heap_before.next()
        &&& match r {
            Ok(tick) => executed(instruction, before@, heap_before@) == Ok::<Stepped<H>, Fault>(
                Stepped { machine: after@, heap: heap_after@, tick: tick@ },
            ),
            Err(e) => {
                &&& executed(instruction, before@, heap_before@) == Err::<Stepped<H>, Fault>(e)
                &&& after@ == before@
                &&& heap_after@ == heap_before@
            },
        }
    }

    /// Goes on to the next instruction.
    fn go_on<H>(&mut self, heap: &Heap<H>) -> (r: Result<Tick<H>, Fault>)
        requires
            old(self).wf(),
            heap.wf(),
            old(self).current < usize::MAX,
        ensures
            AllotRuntime::did(*old(self), *heap, *final(self), *heap, InstructionView::Nop, r),
    {
        self.current = self.current + 1;
        Ok(Tick::Continue)
    }

    /// `Op`: applies an operator to registers.
    fn operate<H>(
        &mut self,
        heap: &Heap<H>,
        op: Operation,
        regs: [Register; 2],
    ) -> (r: Result<Tick<H>, Fault>)
        requires
            old(self).wf(),
            heap.wf(),
            old(self).current < usize::MAX,
        ensures
            AllotRuntime::did(
                *old(self),
                *heap,
                *final(self),
                *heap,
                InstructionView::Op(op, regs),
                r,
            ),
    {
        op.solve(&mut self.registers, &regs)?;
        self.current = self.current + 1;
        Ok(Tick::Continue)
    }

    /// `Mov`: puts a value into a register, or moves it there from another.
    fn mov<H>(&mut self, heap: &Heap<H>, reg: Register, t: Type) -> (r: Result<Tick<H>, Fault>)
        requires
            old(self).wf(),
            heap.wf(),
            old(self).current < usize::MAX,
        ensures
            AllotRuntime::did(
                *old(self),
                *heap,
                *final(self),
                *heap,
                InstructionView::Mov(reg, t@),
                r,
            ),
    {
        if !reg.names_slot() {
            return Err(Fault::InvalidRegister);
        }
        let val = match t {
            Type::Register(src) => {
                if !src.names_slot() {
                    return Err(Fault::InvalidRegister);
                }
                self.registers.take(src)
            },
            _ => t,
        };
        self.registers.insert(reg, val);
        self.current = self.current + 1;
        Ok(Tick::Continue)
    }

    /// `Cpy`: copies a register's value into another.
    fn cpy<H>(
        &mut self,
        heap: &Heap<H>,
        reg1: Register,
        reg2: Register,
    ) -> (r: Result<Tick<H>, Fault>)
        requires
            old(self).wf(),
            heap.wf(),
            old(self).current < usize::MAX,
        ensures
            AllotRuntime::did(
                *old(self),
                *heap,
                *final(self),
                *heap,
                InstructionView::Cpy(reg1, reg2),
                r,
            ),
    {
        if !reg1.names_slot() || !reg2.names_slot() {
            return Err(Fault::InvalidRegister);
        }
        let val = self.registers.clone(reg2);
        self.registers.insert(reg1, val);
        self.current = self.current + 1;
        Ok(Tick::Continue)
    }

    /// `Cast`: converts a register's value to another kind.
    fn cast_register<H>(
        &mut self,
        heap: &Heap<H>,
        reg: Register,
        raw: RawType,
    ) -> (r: Result<Tick<H>, Fault>)
        requires
            old(self).wf(),
            heap.wf(),
            old(self).current < usize::MAX,
        ensures
            AllotRuntime::did(
                *old(self),
                *heap,
                *final(self),
                *heap,
                InstructionView::Cast(reg, raw),
                r,
            ),
    {
        if !reg.names_slot() {
            return Err(Fault::InvalidRegister);
        }
        let casted = cast(self.registers.get(reg), raw)?;
        proof {
            lemma_converted_storable(self.registers@[reg.slot()], raw);
        }
        self.registers.insert(reg, casted);
        self.current = self.current + 1;
        Ok(Tick::Continue)
    }

    /// `Lea`: loads an address into a register.
    fn lea<H>(
        &mut self,
        heap: &Heap<H>,
        reg: Register,
        address: usize,
    ) -> (r: Result<Tick<H>, Fault>)
        requires
            old(self).wf(),
            heap.wf(),
            old(self).current < usize::MAX,
        ensures
            AllotRuntime::did(
                *old(self),
                *heap,
                *final(self),
                *heap,
                InstructionView::Lea(reg, address),
                r,
            ),
    {
        if !reg.names_slot() {
            return Err(Fault::InvalidRegister);
        }
        self.registers.insert(reg, Type::Address(address));
        self.current = self.current + 1;
        Ok(Tick::Continue)
    }

    /// `Jmp`: jumps to an address, if the condition register allows it.
    fn jmp<H>(
        &mut self,
        heap: &Heap<H>,
        opt_reg: Option<Register>,
        t: Type,
    ) -> (r: Result<Tick<H>, Fault>)
        requires
            old(self).wf(),
            heap.wf(),
            old(self).current < usize::MAX,
        ensures
            AllotRuntime::did(
                *old(self),
                *heap,
                *final(self),
                *heap,
                InstructionView::Jmp(opt_reg, t@),
                r,
            ),
    {
        let address = get_address(&t, &self.registers)?;
        let jmp = match opt_reg {
            None => true,
            Some(reg) => {
                if !reg.names_slot() {
                    return Err(Fault::InvalidRegister);
                }
                match self.registers.get(reg) {
                    Type::Boolean(i) => *i,
                    _ => {
                        return Err(Fault::TypeMismatch);
                    },
                }
            },
        };
        if jmp {
            self.current = address;
        } else {
            self.current = self.current + 1;
        }
        Ok(Tick::Continue)
    }

    /// `Ret`: jumps to the address on top of the stack.
    fn ret<H>(&mut self, heap: &Heap<H>) -> (r: Result<Tick<H>, Fault>)
        requires
            old(self).wf(),
            heap.wf(),
            old(self).current < usize::MAX,
        ensures
            AllotRuntime::did(*old(self), *heap, *final(self), *heap, InstructionView::Ret, r),
    {
        let n = self.stack_frames.len();
        if self.stack_frames[n - 1].len() == 0 {
            return Err(Fault::EmptyStack);
        }
        match self.stack_frames[n - 1].clone_offset(0) {
            Type::Address(address) => {
                top_drop(&mut self.stack_frames, 1);
                self.current = address;
                Ok(Tick::Continue)
            },
            _ => Err(Fault::TypeMismatch),
        }
    }

    /// `Exit`: ends the program with a code.
    fn exit<H>(&mut self, heap: &Heap<H>, t: Type) -> (r: Result<Tick<H>, Fault>)
        requires
            old(self).wf(),
            heap.wf(),
            old(self).current < usize::MAX,
        ensures
            AllotRuntime::did(*old(self), *heap, *final(self), *heap, InstructionView::Exit(t@), r),
    {
        let code = get_int32(&t, &self.registers)?;
        Ok(Tick::Exit(code))
    }

    /// `Push`: moves a register's value onto the stack.
    fn push<H>(&mut self, heap: &Heap<H>, reg: Register) -> (r: Result<Tick<H>, Fault>)
        requires
            old(self).wf(),
            heap.wf(),
            old(self).current < usize::MAX,
        ensures
            AllotRuntime::did(
                *old(self),
                *heap,
                *final(self),
                *heap,
                InstructionView::Push(reg),
                r,
            ),
    {
        if !reg.names_slot() {
            return Err(Fault::InvalidRegister);
        }
        let val = self.registers.take(reg);
        top_push(&mut self.stack_frames, val);
        self.current = self.current + 1;
        Ok(Tick::Continue)
    }

    /// `PushCpy`: copies a register's value onto the stack.
    fn push_cpy<H>(&mut self, heap: &Heap<H>, reg: Register) -> (r: Result<Tick<H>, Fault>)
        requires
            old(self).wf(),
            heap.wf(),
            old(self).current < usize::MAX,
        ensures
            AllotRuntime::did(
                *old(self),
                *heap,
                *final(self),
                *heap,
                InstructionView::PushCpy(reg),
                r,
            ),
    {
        if !reg.names_slot() {
            return Err(Fault::InvalidRegister);
        }
        let val = self.registers.clone(reg);
        top_push(&mut self.stack_frames, val);
        self.current = self.current + 1;
        Ok(Tick::Continue)
    }

    /// `Pop`: removes the top of the stack, into a register if one is given.
    fn pop<H>(&mut self, heap: &Heap<H>, opt_reg: Option<Register>) -> (r: Result<Tick<H>, Fault>)
        requires
            old(self).wf(),
            heap.wf(),
            old(self).current < usize::MAX,
        ensures
            AllotRuntime::did(
                *old(self),
                *heap,
                *final(self),
                *heap,
                InstructionView::Pop(opt_reg),
                r,
            ),
    {
        let n = self.stack_frames.len();
        if self.stack_frames[n - 1].len() == 0 {
            return Err(Fault::EmptyStack);
        }
        match opt_reg {
            None => {
                top_drop(&mut self.stack_frames, 1);
            },
            Some(reg) => {
                if !reg.names_slot() {
                    return Err(Fault::InvalidRegister);
                }
                let val = self.stack_frames[n - 1].clone_offset(0);
                if val.is_register() {
                    return Err(Fault::RegisterValue);
                }
                top_drop(&mut self.stack_frames, 1);
                self.registers.insert(reg, val);
            },
        }
        self.current = self.current + 1;
        Ok(Tick::Continue)
    }

    /// `PopMany`: removes a number of values from the stack.
    fn pop_many<H>(&mut self, heap: &Heap<H>, t: Type) -> (r: Result<Tick<H>, Fault>)
        requires
            old(self).wf(),
            heap.wf(),
            old(self).current < usize::MAX,
        ensures
            AllotRuntime::did(
                *old(self),
                *heap,
                *final(self),
                *heap,
                InstructionView::PopMany(t@),
                r,
            ),
    {
        let amount = get_uint(&t, &self.registers)?;
        let n = self.stack_frames.len();
        if amount > self.stack_frames[n - 1].len() {
            return Err(Fault::EmptyStack);
        }
        top_drop(&mut self.stack_frames, amount);
        self.current = self.current + 1;
        Ok(Tick::Continue)
    }

    /// `StackCpy`: copies a value from below the top of the stack into a register.
    fn stack_cpy<H>(
        &mut self,
        heap: &Heap<H>,
        reg: Register,
        t: Type,
    ) -> (r: Result<Tick<H>, Fault>)
        requires
            old(self).wf(),
            heap.wf(),
            old(self).current < usize::MAX,
        ensures
            AllotRuntime::did(
                *old(self),
                *heap,
                *final(self),
                *heap,
                InstructionView::StackCpy(reg, t@),
                r,
            ),
    {
        let amount = get_uint(&t, &self.registers)?;
        let n = self.stack_frames.len();
        if amount >= self.stack_frames[n - 1].len() {
            return Err(Fault::EmptyStack);
        }
        if !reg.names_slot() {
            return Err(Fault::InvalidRegister);
        }
        let val = self.stack_frames[n - 1].clone_offset(amount);
        if val.is_register() {
            return Err(Fault::RegisterValue);
        }
        self.registers.insert(reg, val);
        self.current = self.current + 1;
        Ok(Tick::Continue)
    }

    /// `PushFrame`: opens a frame.
    fn push_frame<H>(&mut self, heap: &Heap<H>, isolated: bool) -> (r: Result<Tick<H>, Fault>)
        requires
            old(self).wf(),
            heap.wf(),
            old(self).current < usize::MAX,
        ensures
            AllotRuntime::did(
                *old(self),
                *heap,
                *final(self),
                *heap,
                InstructionView::PushFrame(isolated),
                r,
            ),
    {
        self.stack_frames.push(StackFrame::new(isolated));
        assert(self@.frames =~= old(self)@.frames.push(
            Frame { values: Seq::empty(), isolated },
        ));
        self.current = self.current + 1;
        Ok(Tick::Continue)
    }

    /// `PopFrame`: closes the top frame.
    fn pop_frame<H>(&mut self, heap: &Heap<H>) -> (r: Result<Tick<H>, Fault>)
        requires
            old(self).wf(),
            heap.wf(),
            old(self).current < usize::MAX,
        ensures
            AllotRuntime::did(*old(self), *heap, *final(self), *heap, InstructionView::PopFrame, r),
    {
        if self.stack_frames.len() <= 1 {
            return Err(Fault::LastFrame);
        }
        let _ = self.stack_frames.pop();
        assert(self@.frames =~= old(self)@.frames.drop_last());
        self.current = self.current + 1;
        Ok(Tick::Continue)
    }

    /// `ThreadCreate`: hands the top frame out for a new thread.
    fn thread_create<H>(&mut self, heap: &Heap<H>, t: Type) -> (r: Result<Tick<H>, Fault>)
        requires
            old(self).wf(),
            heap.wf(),
            old(self).current < usize::MAX,
        ensures
            AllotRuntime::did(
                *old(self),
                *heap,
                *final(self),
                *heap,
                InstructionView::ThreadCreate(t@),
                r,
            ),
    {
        let address = get_address(&t, &self.registers)?;
        if self.stack_frames.len() <= 1 {
            return Err(Fault::LastFrame);
        }
        let frame = self.stack_frames.pop().unwrap();
        assert(self@.frames =~= old(self)@.frames.drop_last());
        self.current = self.current + 1;
        Ok(Tick::Spawn(frame, address))
    }

    /// `Assert`: ends the program unless a register holds the expected value.
    fn check<H>(&mut self, heap: &Heap<H>, reg: Register, t: Type) -> (r: Result<Tick<H>, Fault>)
        requires
            old(self).wf(),
            heap.wf(),
            old(self).current < usize::MAX,
        ensures
            AllotRuntime::did(
                *old(self),
                *heap,
                *final(self),
                *heap,
                InstructionView::Assert(reg, t@),
                r,
            ),
    {
        if !reg.names_slot() {
            return Err(Fault::InvalidRegister);
        }
        let val = self.registers.get(reg);
        if val.is_float() && val.to_raw() == t.to_raw() {
            Err(Fault::FloatingPoint)
        } else if val.same(&t) {
            self.current = self.current + 1;
            Ok(Tick::Continue)
        } else {
            Ok(Tick::Exit(ASSERT_FAILED))
        }
    }

    /// `Call`: calls a library function.
    fn call_function<H>(&mut self, heap: &mut Heap<H>, function: String) -> (r: Result<
        Tick<H>,
        Fault,
    >)
        requires
            old(self).wf(),
            old(heap).wf(),
            old(self).current < usize::MAX,
        ensures
            AllotRuntime::did(
                *old(self),
                *old(heap),
                *final(self),
                *final(heap),
                InstructionView::Call(function@),
                r,
            ),
    {
        let n = self.stack_frames.len();
        let answer = call(
            function.as_str(),
            (
                self.registers.get(Register::R5),
                self.registers.get(Register::R6),
                self.registers.get(Register::R7),
                self.registers.get(Register::R8),
                self.registers.get(Register::R9),
            ),
            &self.stack_frames[n - 1],
            heap,
        )?;
        match answer {
            Answer::Return(ret) => {
                let ghost wanted = written(old(self)@.registers, return_view(ret));
                if let Some(t) = ret.0 {
                    self.registers.insert(Register::R5, t);
                }
                if let Some(t) = ret.1 {
                    self.registers.insert(Register::R6, t);
                }
                if let Some(t) = ret.2 {
                    self.registers.insert(Register::R7, t);
                }
                if let Some(t) = ret.3 {
                    self.registers.insert(Register::R8, t);
                }
                if let Some(t) = ret.4 {
                    self.registers.insert(Register::R9, t);
                }
                assert(self.registers@ =~= wanted);
                self.current = self.current + 1;
                Ok(Tick::Continue)
            },
            Answer::Host(request) => {
                self.current = self.current + 1;
                Ok(Tick::Host(request))
            },
        }
    }

    /// `ThreadJoin`: takes a thread's handle out of the heap.
    fn thread_join<H>(&mut self, heap: &mut Heap<H>, reg: Register) -> (r: Result<Tick<H>, Fault>)
        requires
            old(self).wf(),
            old(heap).wf(),
            old(self).current < usize::MAX,
        ensures
            AllotRuntime::did(
                *old(self),
                *old(heap),
                *final(self),
                *final(heap),
                InstructionView::ThreadJoin(reg),
                r,
            ),
    {
        if !reg.names_slot() {
            return Err(Fault::InvalidRegister);
        }
        let pointer = match self.registers.get(reg) {
            Type::Pointer(p) => *p,
            _ => {
                return Err(Fault::TypeMismatch);
            },
        };
        if !heap.contains(pointer) {
            return Err(Fault::InvalidPointer);
        }
        match heap.get(pointer) {
            HeapBox::Thread(_) => {},
            _ => {
                return Err(Fault::InvalidPointer);
            },
        }
        match heap.take(pointer) {
            HeapBox::Thread(handle) => {
                self.current = self.current + 1;
                Ok(Tick::Join(handle))
            },
            HeapBox::Type(_) => Err(Fault::InvalidPointer),
        }
    }

    /// Executes the instruction at which the engine is: see [`step`]. Where
    /// it fails, the engine and the heap stay as they were.
    #[verifier::rlimit(50)]
    pub fn tick<H>(&mut self, heap: &mut Heap<H>) -> (r: Result<Tick<H>, Fault>)
        requires
            old(self).wf(),
            old(heap).wf(),
        ensures
            final(self).wf(),
            final(heap).wf(),
            final(self).instructions == old(self).instructions,
            final(heap).next() == old(heap).next(),
            match r {
                Ok(tick) => step(old(self).program(), old(self)@, old(heap)@) == Ok::<
                    Stepped<H>,
                    Fault,
                >(Stepped { machine: final(self)@, heap: final(heap)@, tick: tick@ }),
                Err(e) => {
                    &&& step(old(self).program(), old(self)@, old(heap)@) == Err::<
                        Stepped<H>,
                        Fault,
                    >(e)
                    &&& final(self)@ == old(self)@
                    &&& final(heap)@ == old(heap)@
                },
            },
    {
        if self.current >= self.instructions.len() {
            return Err(Fault::NoInstruction);
        }
        let instruction = &self.instructions[self.current];
        assert(self.program()[self.current as int] == instruction@);
        match instruction {
            Instruction::Nop => self.go_on(heap),
            Instruction::Op(op, regs) => {
                let (op, regs) = (*op, *regs);
                self.operate(heap, op, regs)
            },
            Instruction::Mov(reg, t) => {
                let (reg, t) = (*reg, t.copy());
                self.mov(heap, reg, t)
            },
            Instruction::Cpy(reg1, reg2) => {
                let (reg1, reg2) = (*reg1, *reg2);
                self.cpy(heap, reg1, reg2)
            },
            Instruction::Cast(reg, raw) => {
                let (reg, raw) = (*reg, *raw);
                self.cast_register(heap, reg, raw)
            },
            Instruction::Lea(reg, address) => {
                let (reg, address) = (*reg, *address);
                self.lea(heap, reg, address)
            },
            Instruction::Jmp(opt_reg, t) => {
                let (opt_reg, t) = (*opt_reg, t.copy());
                self.jmp(heap, opt_reg, t)
            },
            Instruction::Ret => self.ret(heap),
            Instruction::Call(function) => {
                let function = function.clone();
                self.call_function(heap, function)
            },
            Instruction::Exit(t) => {
                let t = t.copy();
                self.exit(heap, t)
            },
            Instruction::Push(reg) => {
                let reg = *reg;
                self.push(heap, reg)
            },
            Instruction::PushCpy(reg) => {
                let reg = *reg;
                self.push_cpy(heap, reg)
            },
            Instruction::Pop(opt_reg) => {
                let opt_reg = *opt_reg;
                self.pop(heap, opt_reg)
            },
            Instruction::PopMany(t) => {
                let t = t.copy();
                self.pop_many(heap, t)
            },
            Instruction::StackCpy(reg, t) => {
                let (reg, t) = (*reg, t.copy());
                self.stack_cpy(heap, reg, t)
            },
            Instruction::PushFrame(b) => {
                let b = *b;
                self.push_frame(heap, b)
            },
            Instruction::PopFrame => self.pop_frame(heap),
            Instruction::TakeFrom => Err(Fault::Reserved),
            Instruction::GiveTo => Err(Fault::Reserved),
            Instruction::ThreadCreate(t) => {
                let t = t.copy();
                self.thread_create(heap, t)
            },
            Instruction::ThreadJoin(reg) => {
                let reg = *reg;
                self.thread_join(heap, reg)
            },
            Instruction::Assert(reg, t) => {
                let (reg, t) = (*reg, t.copy());
                self.check(heap, reg, t)
            },
            Instruction::Dbg(_) => self.go_on(heap),
            Instruction::Dump(_) => self.go_on(heap),
        }
    }

    /// Runs the engine for at most `fuel` ticks: see [`ran`]. The run ends
    /// with the first tick that fails or that does not say `Continue`.
    pub fn run<H>(&mut self, heap: &mut Heap<H>, fuel: usize) -> (r: Result<Tick<H>, Fault>)
        requires
            old(self).wf(),
            old(heap).wf(),
        ensures
            final(self).wf(),
            final(heap).wf(),
            final(self).instructions == old(self).instructions,
            final(heap).next() == old(heap).next(),
            ran(old(self).program(), old(self)@, old(heap)@, fuel as nat) == (Ran {
                machine: final(self)@,
                heap: final(heap)@,
                outcome: match r {
                    Ok(tick) => Ok(tick@),
                    Err(e) => Err(e),
                },
            }),
    {
        let mut left = fuel;
        while left > 0
            invariant
                self.wf(),
                heap.wf(),
                self.instructions == old(self).instructions,
                heap.next() == old(heap).next(),
                ran(old(self).program(), old(self)@, old(heap)@, fuel as nat) == ran(
                    self.program(),
                    self@,
                    heap@,
                    left as nat,
                ),
            decreases left,
        {
            match self.tick(heap) {
                Ok(Tick::Continue) => {
                    left = left - 1;
                },
                Ok(tick) => {
                    return Ok(tick);
                },
                Err(e) => {
                    return Err(e);
                },
            }
        }
        Ok(Tick::Continue)
    }

    /// Takes the top frame out of the engine: what a thread hands back when
    /// it has ended.
    pub fn take_stack_frame(&mut self) -> (frame: StackFrame)
        requires
            old(self).stack_frames.len() >= 1,
        ensures
            frame_model(frame) == old(self)@.frames.last(),
            final(self)@ == old(self)@.with_frames(old(self)@.frames.drop_last()),
            final(self).instructions == old(self).instructions,
    {
        let frame = self.stack_frames.pop().unwrap();
        assert(self@.frames =~= old(self)@.frames.drop_last());
        frame
    }

    /// Puts what the embedding program read for a library function into
    /// register 5: see [`delivered`].
    pub fn deliver(&mut self, reply: HostReply)
        requires
            old(self).wf(),
        ensures
            final(self).wf(),
            final(self)@ == old(self)@.with_register(Register::R5, delivered(reply)),
            final(self).instructions == old(self).instructions,
    {
        self.registers.insert(Register::R5, reply_value(reply));
    }

    /// Stores the handle of a thread that was started in the heap and puts
    /// the pointer to it into register 5. Where the heap has no pointer left,
    /// this fails and changes nothing.
    pub fn thread_created<H>(&mut self, heap: &mut Heap<H>, handle: H) -> (r: Result<(), Fault>)
        requires
            old(self).wf(),
            old(heap).wf(),
        ensures
            final(self).wf(),
            final(heap).wf(),
            final(self).instructions == old(self).instructions,
            match r {
                Ok(()) => {
                    &&& old(heap).next() < usize::MAX
                    &&& !old(heap)@.contains_key(old(heap).next())
                    &&& final(heap)@ == old(heap)@.insert(
                        old(heap).next(),
                        HeapItem::Thread(handle),
                    )
                    &&& final(heap).next() == old(heap).next() + 1
                    &&& final(self)@ == old(self)@.thread_created(old(heap).next())
                },
                Err(e) => {
                    &&& e == Fault::HeapExhausted
                    &&& old(heap).next() == usize::MAX
                    &&& final(heap)@ == old(heap)@
                    &&& final(heap).next() == old(heap).next()
                    &&& final(self)@ == old(self)@
                },
            },
    {
        if heap.is_full() {
            return Err(Fault::HeapExhausted);
        }
        let pointer = heap.push(HeapBox::Thread(handle));
        self.registers.insert(Register::R5, pointer);
        Ok(())
    }

    /// Takes in a thread that has ended: its exit code goes into register 5
    /// and its frame on top of the frames.
    pub fn thread_joined(&mut self, code: i32, frame: StackFrame)
        requires
            old(self).wf(),
        ensures
            final(self).wf(),
            final(self).instructions == old(self).instructions,
            final(self)@ == old(self)@.thread_joined(code, frame_model(frame)),
    {
        self.registers.insert(Register::R5, Type::Int32(code));
        self.stack_frames.push(frame);
        assert(self@.frames =~= old(self)@.frames.push(frame_model(frame)));
    }
}

} // verus!
