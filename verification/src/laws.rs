//! What holds of the machine's operators and memory, whatever the values.

use vstd::prelude::*;
use crate::fault::Fault;
use crate::instructions::InstructionView;
use crate::library::{called_by_name, AnswerView};
use crate::machine::{executed, ran, step, written, Machine, TickView};
use crate::memory::registers::{bank_wf, empty_bank};
use crate::memory::stack::{popped_each, pushed_each, without_top};
use crate::memory::HeapItem;
use crate::operations::OpPrim2;
use crate::register::Register;
use crate::rules::{
    greatest, integer, least, lemma_wrapped_in_kind, lemma_wrapped_near, of_integer, solve2,
    wrapped,
};
use crate::solve::lemma_results_storable;
use crate::types::Value;

verus! {

/// A value of an integer kind holds an integer of the kind, and is the value
/// of the kind that holds it.
pub proof fn lemma_integer_of_value(v: Value)
    requires
        v.kind().is_integer(),
    ensures
        least(v.kind()) <= integer(v) <= greatest(v.kind()),
        of_integer(v.kind(), integer(v)) == v,
{
}

/// Adding a value to an integer and taking the same value away again gives
/// the integer back, for every two integers of one kind: what wraps around
/// in the sum wraps back in the difference.
pub proof fn law_add_then_subtract(a: Value, b: Value)
    requires
        a.kind().is_integer(),
        a.kind() == b.kind(),
    ensures
        solve2(OpPrim2::Add, a, b) is Ok,
        solve2(OpPrim2::Subtract, solve2(OpPrim2::Add, a, b)->Ok_0, b) == Ok::<Value, Fault>(a),
{
    let kind = a.kind();
    let x = integer(a);
    let y = integer(b);
    lemma_integer_of_value(a);
    lemma_integer_of_value(b);
    let sum = wrapped(kind, x + y);
    lemma_wrapped_near(kind, x + y);
    lemma_wrapped_in_kind(kind, x + y);
    lemma_wrapped_near(kind, sum - y);
    let total = of_integer(kind, sum);
    assert(solve2(OpPrim2::Add, a, b) == Ok::<Value, Fault>(total));
    assert(total.kind() == kind);
    assert(integer(total) == sum);
}

/// Whether an operator takes the two values though they are of two kinds:
/// `SameType` takes any two, and a shift takes an integer and a `UInt`.
pub open spec fn takes_two_kinds(op: OpPrim2, a: Value, b: Value) -> bool {
    ||| op is SameType
    ||| (op is ShiftLeft || op is ShiftRight) && a.kind().is_integer() && b is UInt
}

/// An operator on values of two kinds fails with a type mismatch, but for
/// the operators that are meant for two kinds.
pub proof fn law_kinds_must_match(op: OpPrim2, a: Value, b: Value)
    requires
        a.kind() != b.kind(),
        !takes_two_kinds(op, a, b),
    ensures
        solve2(op, a, b) == Err::<Value, Fault>(Fault::TypeMismatch),
{
}

/// A shift by a value that is no `UInt`, or of a value that is no integer,
/// fails with a type mismatch, whatever the kinds.
pub proof fn law_shift_operands(op: OpPrim2, a: Value, b: Value)
    requires
        op is ShiftLeft || op is ShiftRight,
        !(a.kind().is_integer() && b is UInt),
    ensures
        solve2(op, a, b) == Err::<Value, Fault>(Fault::TypeMismatch),
{
}

/// A bank of registers that was just made is well formed and holds `Nil` in
/// every register.
pub proof fn law_fresh_registers(register: Register)
    requires
        register.is_slot(),
    ensures
        bank_wf(empty_bank()),
        empty_bank()[register.slot()] == Value::Nil,
{
}

/// `Mov` from a register to another one moves: the first register then holds
/// `Nil`, the second what the first held, every other register what it held
/// before, and the frames and the heap are as before.
pub proof fn law_mov_moves<H>(
    m: Machine,
    heap: Map<usize, HeapItem<H>>,
    dst: Register,
    src: Register,
)
    requires
        m.wf(),
        dst.is_slot(),
        src.is_slot(),
        dst != src,
    ensures
        executed(InstructionView::Mov(dst, Value::Register(src)), m, heap) matches Ok(after) && {
            &&& after.tick is Continue
            &&& after.heap == heap
            &&& after.machine.wf()
            &&& after.machine.current == (m.current + 1) as usize
            &&& after.machine.frames == m.frames
            &&& after.machine.registers[src.slot()] == Value::Nil
            &&& after.machine.registers[dst.slot()] == m.registers[src.slot()]
            &&& forall|other: Register|
                other.is_slot() && other != dst && other != src
                    ==> after.machine.registers[#[trigger] other.slot()]
                    == m.registers[other.slot()]
        },
{
}

/// `Cpy` copies: the first register then holds what the second holds, and
/// the second register, every other one, the frames and the heap are as
/// before.
pub proof fn law_cpy_keeps_source<H>(
    m: Machine,
    heap: Map<usize, HeapItem<H>>,
    dst: Register,
    src: Register,
)
    requires
        m.wf(),
        dst.is_slot(),
        src.is_slot(),
    ensures
        executed(InstructionView::Cpy(dst, src), m, heap) matches Ok(after) && {
            &&& after.tick is Continue
            &&& after.heap == heap
            &&& after.machine.wf()
            &&& after.machine.current == (m.current + 1) as usize
            &&& after.machine.frames == m.frames
            &&& after.machine.registers[src.slot()] == m.registers[src.slot()]
            &&& after.machine.registers[dst.slot()] == m.registers[src.slot()]
            &&& forall|other: Register|
                other.is_slot() && other != dst ==> after.machine.registers[#[trigger] other.slot()]
                    == m.registers[other.slot()]
        },
{
}

/// `PushCpy` copies: the register's value is on top of the top frame, and
/// every register and the heap are as before.
pub proof fn law_push_cpy_keeps_source<H>(
    m: Machine,
    heap: Map<usize, HeapItem<H>>,
    src: Register,
)
    requires
        m.wf(),
        src.is_slot(),
    ensures
        executed(InstructionView::PushCpy(src), m, heap) matches Ok(after) && {
            &&& after.tick is Continue
            &&& after.heap == heap
            &&& after.machine.wf()
            &&& after.machine.current == (m.current + 1) as usize
            &&& after.machine.registers == m.registers
            &&& after.machine.top() == m.top().push(m.registers[src.slot()])
            &&& after.machine.frames.len() == m.frames.len()
        },
{
}

/// Values that are put on a frame one after the other stand on it in that
/// order, above what it held.
pub proof fn lemma_pushed_each(frame: Seq<Value>, values: Seq<Value>)
    ensures
        pushed_each(frame, values) == frame + values,
    decreases values.len(),
{
    if values.len() == 0 {
        assert(frame + values =~= frame);
    } else {
        lemma_pushed_each(frame.push(values[0]), values.skip(1));
        assert(frame.push(values[0]) + values.skip(1) =~= frame + values);
    }
}

/// What `n` pops take from a frame is the frame's last `n` values, the
/// topmost first.
pub proof fn lemma_popped_each(frame: Seq<Value>, n: nat)
    requires
        n <= frame.len(),
    ensures
        popped_each(frame, n) == frame.subrange(frame.len() - n, frame.len() as int).reverse(),
    decreases n,
{
    let tail = frame.subrange(frame.len() - n, frame.len() as int);
    if n == 0 {
        assert(tail.reverse() =~= Seq::<Value>::empty());
    } else {
        lemma_popped_each(frame.drop_last(), (n - 1) as nat);
        let shorter = frame.drop_last().subrange(frame.len() - n, frame.len() - 1);
        assert(shorter =~= tail.drop_last());
        assert(tail.reverse() =~= seq![frame.last()] + shorter.reverse());
    }
}

/// Values that were put on an empty frame come off it in the reverse order,
/// and the frame is empty after as many pops as there were pushes: there is
/// nothing for one pop more.
pub proof fn law_stack_reverses(values: Seq<Value>)
    ensures
        popped_each(pushed_each(Seq::empty(), values), values.len()) == values.reverse(),
        without_top(pushed_each(Seq::empty(), values), values.len()).len() == 0,
{
    lemma_pushed_each(Seq::empty(), values);
    assert(Seq::<Value>::empty() + values =~= values);
    lemma_popped_each(values, values.len());
    assert(values.subrange(0, values.len() as int) =~= values);
}

/// An object that was stored under a fresh pointer is what the pointer
/// refers to; once it was taken or freed the pointer refers to nothing, so
/// that it can neither be taken again nor looked at; and every other pointer
/// refers to what it referred to before.
pub proof fn law_heap_take_once<H>(heap: Map<usize, HeapItem<H>>, pointer: usize, item: HeapItem<H>)
    requires
        !heap.contains_key(pointer),
    ensures
        heap.insert(pointer, item).contains_key(pointer),
        heap.insert(pointer, item)[pointer] == item,
        !heap.insert(pointer, item).remove(pointer).contains_key(pointer),
        heap.insert(pointer, item).remove(pointer) == heap,
{
    assert(heap.insert(pointer, item).remove(pointer) =~= heap);
}

/// A thread that was created is joined with what it ended with.
///
/// `ThreadCreate` hands out the top frame and the address, and once the
/// thread's handle was stored, `ThreadJoin` on register 5 hands out that
/// handle and leaves the heap as it was before. When the thread's engine,
/// which started on that frame at that address, has ended with an exit code,
/// the joining engine takes it in: the code is in register 5 and the
/// thread's last frame on top of the frames it had before the join.
pub proof fn law_thread_round_trip<H>(
    program: Seq<InstructionView>,
    m: Machine,
    heap: Map<usize, HeapItem<H>>,
    pointer: usize,
    handle: H,
    t: Value,
    thread_heap: Map<usize, HeapItem<H>>,
    fuel: nat,
)
    requires
        m.wf(),
        !heap.contains_key(pointer),
        executed(InstructionView::ThreadCreate(t), m, heap) is Ok,
        ran(
            program,
            thread_start(executed(InstructionView::ThreadCreate(t), m, heap)->Ok_0.tick),
            thread_heap,
            fuel,
        ).outcome matches Ok(TickView::Exit(_)),
    ensures
        ({
            let created = executed(InstructionView::ThreadCreate(t), m, heap)->Ok_0;
            let thread = ran(program, thread_start(created.tick), thread_heap, fuel);
            let waiting = created.machine.thread_created(pointer);
            let joined = executed(
                InstructionView::ThreadJoin(Register::R5),
                waiting,
                created.heap.insert(pointer, HeapItem::Thread(handle)),
            );
            &&& created.tick matches TickView::Spawn(frame, _) && frame == m.frames.last()
            &&& joined matches Ok(after) && {
                &&& after.tick == TickView::Join(handle)
                &&& after.heap == heap
                &&& after.machine.thread_joined(
                    thread.outcome->Ok_0->Exit_0,
                    thread.machine.frames.last(),
                ).registers[Register::R5.slot()] == Value::Int32(thread.outcome->Ok_0->Exit_0)
                &&& after.machine.thread_joined(
                    thread.outcome->Ok_0->Exit_0,
                    thread.machine.frames.last(),
                ).frames == after.machine.frames.push(thread.machine.frames.last())
                &&& after.machine.frames == m.frames.drop_last()
            }
        }),
{
    let created = executed(InstructionView::ThreadCreate(t), m, heap)->Ok_0;
    assert(created.heap == heap);
    assert(heap.insert(pointer, HeapItem::Thread(handle)).remove(pointer) =~= heap);
}

/// The engine that a thread starts with: at the address, with `Nil` in every
/// register and the frame that was handed out as its only one.
pub open spec fn thread_start<H>(tick: TickView<H>) -> Machine {
    match tick {
        TickView::Spawn(frame, address) => Machine {
            current: address,
            registers: empty_bank(),
            frames: seq![frame],
        },
        _ => Machine { current: 0, registers: empty_bank(), frames: Seq::empty() },
    }
}

/// A pop from an empty frame fails, with or without a register to pop
/// into.
pub proof fn law_pop_of_empty<H>(
    m: Machine,
    heap: Map<usize, HeapItem<H>>,
    register: Option<Register>,
)
    requires
        m.wf(),
        m.top().len() == 0,
    ensures
        executed(InstructionView::Pop(register), m, heap) == Err::<
            crate::machine::Stepped<H>,
            Fault,
        >(Fault::EmptyStack),
{
}

/// What a library function returns may rest in registers.
proof fn lemma_written_storable<H>(
    name: Seq<char>,
    m: Machine,
    heap: Map<usize, HeapItem<H>>,
)
    requires
        m.wf(),
    ensures
        called_by_name(
            name,
            m.registers[Register::R5.slot()],
            m.registers[Register::R9.slot()],
            m.top(),
            heap,
        ) matches Ok(
            (AnswerView::Return(ret), _),
        ) ==> crate::memory::registers::bank_wf(written(m.registers, ret)),
{
}

/// An instruction that only goes on, jumps, ends the program or loads an
/// address leaves a well-formed engine well formed.
proof fn lemma_control_keeps_well_formed<H>(
    instruction: InstructionView,
    m: Machine,
    heap: Map<usize, HeapItem<H>>,
)
    requires
        m.wf(),
        instruction is Nop || instruction is Dbg || instruction is Dump || instruction is Lea
            || instruction is Exit || instruction is Jmp || instruction is TakeFrom
            || instruction is GiveTo,
    ensures
        executed(instruction, m, heap) matches Ok(after) ==> after.machine.wf(),
{
}

/// An instruction on whole frames or on threads leaves a well-formed engine
/// well formed.
proof fn lemma_frames_keep_well_formed<H>(
    instruction: InstructionView,
    m: Machine,
    heap: Map<usize, HeapItem<H>>,
)
    requires
        m.wf(),
        instruction is PushFrame || instruction is PopFrame || instruction is ThreadCreate
            || instruction is ThreadJoin,
    ensures
        executed(instruction, m, heap) matches Ok(after) ==> after.machine.wf(),
{
}

/// `Mov` and `Cpy` leave a well-formed engine well formed.
proof fn lemma_moves_keep_well_formed<H>(
    instruction: InstructionView,
    m: Machine,
    heap: Map<usize, HeapItem<H>>,
)
    requires
        m.wf(),
        instruction is Mov || instruction is Cpy,
    ensures
        executed(instruction, m, heap) matches Ok(after) ==> after.machine.wf(),
{
}

/// `Op` leaves a well-formed engine well formed.
proof fn lemma_op_keeps_well_formed<H>(
    instruction: InstructionView,
    m: Machine,
    heap: Map<usize, HeapItem<H>>,
)
    requires
        m.wf(),
        instruction is Op,
    ensures
        executed(instruction, m, heap) matches Ok(after) ==> after.machine.wf(),
{
    if let InstructionView::Op(op, regs) = instruction {
        lemma_results_storable(m.registers[regs[0].slot()], m.registers[regs[1].slot()]);
    }
}

/// `Cast` and `Assert` leave a well-formed engine well formed.
proof fn lemma_cast_keeps_well_formed<H>(
    instruction: InstructionView,
    m: Machine,
    heap: Map<usize, HeapItem<H>>,
)
    requires
        m.wf(),
        instruction is Cast || instruction is Assert,
    ensures
        executed(instruction, m, heap) matches Ok(after) ==> after.machine.wf(),
{
    if let InstructionView::Cast(reg, kind) = instruction {
        if reg.is_slot() {
            crate::runtime::lemma_converted_storable(m.registers[reg.slot()], kind);
        }
    }
}

/// `Call` leaves a well-formed engine well formed.
proof fn lemma_call_keeps_well_formed<H>(
    instruction: InstructionView,
    m: Machine,
    heap: Map<usize, HeapItem<H>>,
)
    requires
        m.wf(),
        instruction is Call,
    ensures
        executed(instruction, m, heap) matches Ok(after) ==> after.machine.wf(),
{
    if let InstructionView::Call(name) = instruction {
        lemma_written_storable(name, m, heap);
    }
}

/// `Push` and `PushCpy` leave a well-formed engine well formed.
proof fn lemma_pushes_keep_well_formed<H>(
    instruction: InstructionView,
    m: Machine,
    heap: Map<usize, HeapItem<H>>,
)
    requires
        m.wf(),
        instruction is Push || instruction is PushCpy,
    ensures
        executed(instruction, m, heap) matches Ok(after) ==> after.machine.wf(),
{
}

/// An instruction that reads the stack or takes from it leaves a
/// well-formed engine well formed.
proof fn lemma_pops_keep_well_formed<H>(
    instruction: InstructionView,
    m: Machine,
    heap: Map<usize, HeapItem<H>>,
)
    requires
        m.wf(),
        instruction is Pop || instruction is PopMany || instruction is StackCpy
            || instruction is Ret,
    ensures
        executed(instruction, m, heap) matches Ok(after) ==> after.machine.wf(),
{
}

/// An instruction leaves a well-formed engine well formed: no register
/// holds the name of a register afterwards, and a frame is left.
pub proof fn law_engine_stays_well_formed<H>(
    program: Seq<InstructionView>,
    m: Machine,
    heap: Map<usize, HeapItem<H>>,
)
    requires
        m.wf(),
    ensures
        step(program, m, heap) matches Ok(after) ==> after.machine.wf(),
{
    if m.current < program.len() {
        let instruction = program[m.current as int];
        match instruction {
            InstructionView::Nop
            | InstructionView::Dbg(_)
            | InstructionView::Dump(_)
            | InstructionView::Lea(..)
            | InstructionView::Exit(_)
            | InstructionView::Jmp(..)
            | InstructionView::TakeFrom
            | InstructionView::GiveTo => lemma_control_keeps_well_formed(instruction, m, heap),
            InstructionView::PushFrame(_)
            | InstructionView::PopFrame
            | InstructionView::ThreadCreate(_)
            | InstructionView::ThreadJoin(_) => lemma_frames_keep_well_formed(
                instruction,
                m,
                heap,
            ),
            InstructionView::Mov(..) | InstructionView::Cpy(..) => lemma_moves_keep_well_formed(
                instruction,
                m,
                heap,
            ),
            InstructionView::Op(..) => lemma_op_keeps_well_formed(instruction, m, heap),
            InstructionView::Cast(..) | InstructionView::Assert(..) => {
                lemma_cast_keeps_well_formed(instruction, m, heap)
            },
            InstructionView::Call(_) => lemma_call_keeps_well_formed(instruction, m, heap),
            InstructionView::Push(_) | InstructionView::PushCpy(_) => {
                lemma_pushes_keep_well_formed(instruction, m, heap)
            },
            InstructionView::Pop(_)
            | InstructionView::PopMany(_)
            | InstructionView::StackCpy(..)
            | InstructionView::Ret => lemma_pops_keep_well_formed(instruction, m, heap),
        }
    }
}

} // verus!
