//! The instructions that need floating-point arithmetic.
//!
//! This library carries a floating-point number as its bits and computes
//! nothing with it. Where an instruction needs such a number's value, the
//! tick fails with [`Fault::FloatingPoint`] and changes nothing. The
//! embedding program then asks what is to be computed, computes it, and
//! hands the result back; where the result goes, and how the program goes
//! on, is decided here.

use vstd::prelude::*;
use crate::cast::{cast, converted};
use crate::fault::Fault;
use crate::instructions::{Instruction, InstructionView};
use crate::library::{
    argument, function_named, listing, lookup, HostRequest, HostRequestView, LibraryFunction,
};
use crate::machine::{asserted, executed, Machine, Stepped, TickView, ASSERT_FAILED};
use crate::memory::stack::at_depth;
use crate::memory::{HeapItem, StackFrame};
use crate::operations::{OpPrim1, OpPrim2, Operation};
use crate::register::Register;
use crate::rules::{solve1, solve2};
use crate::runtime::{AllotRuntime, Tick};
use crate::text::text_of;
use crate::types::{RawType, Type, Value};

verus! {

/// What the embedding program has to compute for an instruction.
#[derive(Debug, PartialEq)]
pub enum FloatWork {
    /// The result of an operator on one floating-point number.
    Unary(OpPrim1, Type),
    /// The result of an operator on two floating-point numbers of one kind.
    Binary(OpPrim2, Type, Type),
    /// A value converted to a kind, one of the two being floating-point.
    Convert(Type, RawType),
    /// Whether two floating-point numbers of one kind are equal.
    Same(Type, Type),
    /// The text of each of these floating-point numbers, as it is written
    /// out.
    Texts(Vec<Type>),
}

/// What a [`FloatWork`] stands for.
pub enum FloatWorkView {
    Unary(OpPrim1, Value),
    Binary(OpPrim2, Value, Value),
    Convert(Value, RawType),
    Same(Value, Value),
    Texts(Seq<Value>),
}

impl View for FloatWork {
    type V = FloatWorkView;

    open spec fn view(&self) -> FloatWorkView {
        match self {
            FloatWork::Unary(op, v) => FloatWorkView::Unary(*op, v@),
            FloatWork::Binary(op, a, b) => FloatWorkView::Binary(*op, a@, b@),
            FloatWork::Convert(v, kind) => FloatWorkView::Convert(v@, *kind),
            FloatWork::Same(a, b) => FloatWorkView::Same(a@, b@),
            FloatWork::Texts(values) => FloatWorkView::Texts(values@.map_values(|t: Type| t@)),
        }
    }
}

/// What the embedding program computed.
#[derive(Debug, PartialEq)]
pub enum FloatResult {
    /// The result of an operator or of a conversion.
    Value(Type),
    /// Whether the two numbers are equal.
    Truth(bool),
    /// The texts of the numbers, in the order in which they were asked for.
    Texts(Vec<String>),
}

/// What a [`FloatResult`] stands for.
pub enum FloatResultView {
    Value(Value),
    Truth(bool),
    Texts(Seq<Seq<char>>),
}

impl View for FloatResult {
    type V = FloatResultView;

    open spec fn view(&self) -> FloatResultView {
        match self {
            FloatResult::Value(v) => FloatResultView::Value(v@),
            FloatResult::Truth(b) => FloatResultView::Truth(*b),
            FloatResult::Texts(texts) => FloatResultView::Texts(
                texts@.map_values(|t: String| t@),
            ),
        }
    }
}

/// The floating-point numbers among the `n` values on top of a frame, the
/// topmost first.
pub open spec fn floats_of(frame: Seq<Value>, n: nat) -> Seq<Value>
    decreases n,
{
    if n == 0 {
        Seq::empty()
    } else if at_depth(frame, (n - 1) as nat).kind().is_float() {
        floats_of(frame, (n - 1) as nat).push(at_depth(frame, (n - 1) as nat))
    } else {
        floats_of(frame, (n - 1) as nat)
    }
}

/// The lines of the `n` values on top of a frame, the topmost first, with
/// the given texts for the floating-point numbers among them.
pub open spec fn listing_with(frame: Seq<Value>, n: nat, texts: Seq<Seq<char>>) -> Seq<char>
    decreases n,
{
    if n == 0 {
        Seq::empty()
    } else {
        let v = at_depth(frame, (n - 1) as nat);
        let text = if v.kind().is_float() {
            texts[floats_of(frame, (n - 1) as nat).len() as int]
        } else {
            text_of(v)->Ok_0
        };
        listing_with(frame, (n - 1) as nat, texts) + text + seq!['\n']
    }
}

/// The floating-point numbers whose text a library function writes, if it
/// writes any: its argument for `print`, `println` and `exit`, and those
/// among the values that it lists for `std::print_amt`.
pub open spec fn texts_wanted(function: LibraryFunction, arg: Value, frame: Seq<Value>) -> Option<
    Seq<Value>,
> {
    match function {
        LibraryFunction::Print | LibraryFunction::Println | LibraryFunction::Exit => {
            if arg.kind().is_float() {
                Some(seq![arg])
            } else {
                None
            }
        },
        LibraryFunction::PrintAmt => match arg {
            Value::UInt(n) => if n <= frame.len() && floats_of(frame, n as nat).len() > 0 {
                Some(floats_of(frame, n as nat))
            } else {
                None
            },
            _ => None,
        },
        _ => None,
    }
}

/// What a library function asks of the embedding program once it has the
/// texts of the floating-point numbers that it writes.
pub open spec fn request_with(
    function: LibraryFunction,
    arg: Value,
    frame: Seq<Value>,
    texts: Seq<Seq<char>>,
) -> HostRequestView {
    match function {
        LibraryFunction::Print => HostRequestView::Write(texts[0]),
        LibraryFunction::Println => HostRequestView::Write(texts[0] + seq!['\n']),
        LibraryFunction::Exit => HostRequestView::Terminate(Some(texts[0] + seq!['\n']), 0),
        _ => HostRequestView::Write(listing_with(frame, arg->UInt_0 as nat, texts)),
    }
}

/// What the embedding program has to compute for an instruction, if the
/// instruction needs floating-point arithmetic.
pub open spec fn float_work(instruction: InstructionView, m: Machine) -> Option<FloatWorkView> {
    let bank = m.registers;
    match instruction {
        InstructionView::Op(Operation::Prim1(op), regs) => {
            if regs[0].is_slot() && solve1(op, bank[regs[0].slot()]) == Err::<Value, Fault>(
                Fault::FloatingPoint,
            ) {
                Some(FloatWorkView::Unary(op, bank[regs[0].slot()]))
            } else {
                None
            }
        },
        InstructionView::Op(Operation::Prim2(op), regs) => {
            if regs[0].is_slot() && regs[1].is_slot() && solve2(
                op,
                bank[regs[0].slot()],
                bank[regs[1].slot()],
            ) == Err::<Value, Fault>(Fault::FloatingPoint) {
                Some(FloatWorkView::Binary(op, bank[regs[0].slot()], bank[regs[1].slot()]))
            } else {
                None
            }
        },
        InstructionView::Cast(reg, kind) => {
            if reg.is_slot() && converted(bank[reg.slot()], kind) == Err::<Value, Fault>(
                Fault::FloatingPoint,
            ) {
                Some(FloatWorkView::Convert(bank[reg.slot()], kind))
            } else {
                None
            }
        },
        InstructionView::Assert(reg, expected) => {
            if reg.is_slot() && asserted(bank[reg.slot()], expected) == Err::<bool, Fault>(
                Fault::FloatingPoint,
            ) {
                Some(FloatWorkView::Same(bank[reg.slot()], expected))
            } else {
                None
            }
        },
        InstructionView::Call(name) => match function_named(name) {
            Some(function) => match texts_wanted(
                function,
                argument(function, bank[Register::R5.slot()], bank[Register::R9.slot()]),
                m.top(),
            ) {
                Some(values) => Some(FloatWorkView::Texts(values)),
                None => None,
            },
            None => None,
        },
        _ => None,
    }
}

/// The kind of the value that is the result of an operator or of a
/// conversion: that of the operands for arithmetic, a truth value for a
/// comparison, and the kind that is converted to.
pub open spec fn result_kind(work: FloatWorkView) -> RawType {
    match work {
        FloatWorkView::Unary(_, v) => v.kind(),
        FloatWorkView::Binary(op, a, _) => if op is Add || op is Subtract
            || op is Multiplication || op is Division || op is Modulus {
            a.kind()
        } else {
            RawType::Boolean
        },
        FloatWorkView::Convert(_, kind) => kind,
        _ => RawType::Nil,
    }
}

/// An engine after an instruction, and what the embedding program learns
/// from it.
pub struct Finished<H> {
    pub machine: Machine,
    pub tick: TickView<H>,
}

/// What an instruction that needs floating-point arithmetic does to a
/// well-formed engine, given what the embedding program computed.
///
/// The result of an operator goes into the first register of `Op` and that
/// of a conversion into the register of `Cast`; it must be of the kind that
/// the operator or the conversion gives. `Assert` goes on if the two are
/// equal and ends the program with the failure code if not. A library
/// function asks for the write that it would have asked for, with the texts
/// that it was given. The instruction fails with a type mismatch where it
/// needs no floating-point arithmetic or the result is of another sort than
/// it takes, and then changes nothing.
pub open spec fn float_finished<H>(
    instruction: InstructionView,
    m: Machine,
    result: FloatResultView,
) -> Result<Finished<H>, Fault> {
    match float_work(instruction, m) {
        None => Err(Fault::TypeMismatch),
        Some(work) => match (instruction, result) {
            (InstructionView::Op(_, regs), FloatResultView::Value(v)) => {
                if v.kind() == result_kind(work) {
                    Ok(
                        Finished {
                            machine: m.with_register(regs[0], v).advanced(),
                            tick: TickView::Continue,
                        },
                    )
                } else {
                    Err(Fault::TypeMismatch)
                }
            },
            (InstructionView::Cast(reg, _), FloatResultView::Value(v)) => {
                if v.kind() == result_kind(work) {
                    Ok(
                        Finished {
                            machine: m.with_register(reg, v).advanced(),
                            tick: TickView::Continue,
                        },
                    )
                } else {
                    Err(Fault::TypeMismatch)
                }
            },
            (InstructionView::Assert(..), FloatResultView::Truth(equal)) => {
                if equal {
                    Ok(Finished { machine: m.advanced(), tick: TickView::Continue })
                } else {
                    Ok(Finished { machine: m, tick: TickView::Exit(ASSERT_FAILED) })
                }
            },
            (InstructionView::Call(name), FloatResultView::Texts(texts)) => {
                if texts.len() == work->Texts_0.len() {
                    Ok(
                        Finished {
                            machine: m.advanced(),
                            tick: TickView::Host(
                                request_with(
                                    function_named(name)->Some_0,
                                    argument(
                                        function_named(name)->Some_0,
                                        m.registers[Register::R5.slot()],
                                        m.registers[Register::R9.slot()],
                                    ),
                                    m.top(),
                                    texts,
                                ),
                            ),
                        },
                    )
                } else {
                    Err(Fault::TypeMismatch)
                }
            },
            _ => Err(Fault::TypeMismatch),
        },
    }
}

/// What a work that may be there stands for.
pub open spec fn work_view(work: Option<FloatWork>) -> Option<FloatWorkView> {
    match work {
        Some(w) => Some(w@),
        None => None,
    }
}

/// What values stand for.
pub open spec fn value_views(values: Seq<Type>) -> Seq<Value> {
    values.map_values(|t: Type| t@)
}

/// What texts stand for.
pub open spec fn text_views(texts: Seq<String>) -> Seq<Seq<char>> {
    texts.map_values(|t: String| t@)
}

/// Among more values there are no fewer floating-point numbers.
pub proof fn lemma_floats_grow(frame: Seq<Value>, n: nat, m: nat)
    requires
        n <= m,
    ensures
        floats_of(frame, n).len() <= floats_of(frame, m).len(),
    decreases m,
{
    if n < m {
        lemma_floats_grow(frame, n, (m - 1) as nat);
    }
}

/// A listing fails exactly if a floating-point number is among the values
/// that it lists, and fails for want of floating-point arithmetic then.
pub proof fn lemma_listing_floats(frame: Seq<Value>, n: nat)
    ensures
        listing(frame, n) is Ok <==> floats_of(frame, n).len() == 0,
        listing(frame, n) matches Err(e) ==> e == Fault::FloatingPoint,
    decreases n,
{
    if n > 0 {
        lemma_listing_floats(frame, (n - 1) as nat);
    }
}

/// `Op`, `Cast` and `Assert` have something for the embedding program to
/// compute exactly where they fail for want of floating-point arithmetic.
proof fn lemma_register_work<H>(
    instruction: InstructionView,
    m: Machine,
    heap: Map<usize, HeapItem<H>>,
)
    requires
        m.wf(),
        instruction is Op || instruction is Cast || instruction is Assert,
    ensures
        float_work(instruction, m) is Some <==> executed(instruction, m, heap) == Err::<
            Stepped<H>,
            Fault,
        >(Fault::FloatingPoint),
{
}

/// `Call` has something for the embedding program to compute exactly where
/// it fails for want of floating-point arithmetic.
proof fn lemma_call_work<H>(
    instruction: InstructionView,
    m: Machine,
    heap: Map<usize, HeapItem<H>>,
)
    requires
        m.wf(),
        instruction is Call,
    ensures
        float_work(instruction, m) is Some <==> executed(instruction, m, heap) == Err::<
            Stepped<H>,
            Fault,
        >(Fault::FloatingPoint),
{
    let first = m.registers[Register::R5.slot()];
    if first is UInt {
        lemma_listing_floats(m.top(), first->UInt_0 as nat);
    }
}

/// An instruction that works on no value's payload never fails for want of
/// floating-point arithmetic.
proof fn lemma_no_work<H>(
    instruction: InstructionView,
    m: Machine,
    heap: Map<usize, HeapItem<H>>,
)
    requires
        m.wf(),
        !(instruction is Op || instruction is Cast || instruction is Assert
            || instruction is Call),
    ensures
        float_work(instruction, m) is None,
        executed(instruction, m, heap) != Err::<Stepped<H>, Fault>(Fault::FloatingPoint),
{
}

/// The embedding program is asked to compute something exactly where an
/// instruction fails for want of floating-point arithmetic.
pub proof fn law_float_work_is_asked<H>(
    instruction: InstructionView,
    m: Machine,
    heap: Map<usize, HeapItem<H>>,
)
    requires
        m.wf(),
    ensures
        float_work(instruction, m) is Some <==> executed(instruction, m, heap) == Err::<
            Stepped<H>,
            Fault,
        >(Fault::FloatingPoint),
{
    if instruction is Op || instruction is Cast || instruction is Assert {
        lemma_register_work(instruction, m, heap);
    } else if instruction is Call {
        lemma_call_work(instruction, m, heap);
    } else {
        lemma_no_work(instruction, m, heap);
    }
}

/// The floating-point numbers among the `n` values on top of a frame: see
/// [`floats_of`].
fn top_floats(frame: &StackFrame, n: usize) -> (floats: Vec<Type>)
    requires
        n <= frame@.len(),
    ensures
        value_views(floats@) == floats_of(frame@, n as nat),
{
    let mut floats: Vec<Type> = Vec::new();
    let mut i: usize = 0;
    assert(value_views(floats@) =~= Seq::<Value>::empty());
    while i < n
        invariant
            i <= n <= frame@.len(),
            value_views(floats@) == floats_of(frame@, i as nat),
        decreases n - i,
    {
        let t = frame.clone_offset(i);
        if t.is_float() {
            let ghost before = floats@;
            floats.push(t);
            assert(value_views(floats@) =~= value_views(before).push(t@));
        }
        i = i + 1;
    }
    floats
}

/// The lines of the `n` values on top of a frame with given texts for the
/// floating-point numbers: see [`listing_with`].
fn list_with(frame: &StackFrame, n: usize, texts: &Vec<String>) -> (text: String)
    requires
        n <= frame@.len(),
        texts.len() == floats_of(frame@, n as nat).len(),
    ensures
        text@ == listing_with(frame@, n as nat, text_views(texts@)),
{
    let mut text = String::new();
    let mut i: usize = 0;
    let mut k: usize = 0;
    while i < n
        invariant
            i <= n <= frame@.len(),
            texts.len() == floats_of(frame@, n as nat).len(),
            k == floats_of(frame@, i as nat).len(),
            text@ == listing_with(frame@, i as nat, text_views(texts@)),
        decreases n - i,
    {
        let t = frame.clone_offset(i);
        proof {
            lemma_floats_grow(frame@, (i + 1) as nat, n as nat);
            reveal_strlit("\n");
        }
        let ghost before = text@;
        if t.is_float() {
            assert(text_views(texts@)[k as int] == texts@[k as int]@);
            text.append(texts[k].as_str());
            k = k + 1;
        } else {
            match t.to_text() {
                Ok(own) => text.append(own.as_str()),
                Err(_) => {},
            }
        }
        text.append("\n");
        i = i + 1;
        assert(text@ =~= listing_with(frame@, i as nat, text_views(texts@)));
    }
    text
}

impl AllotRuntime {
    /// What an engine that is past its program, or at an instruction that
    /// needs no floating-point arithmetic, has to have computed: nothing.
    pub open spec fn work(&self) -> Option<FloatWorkView> {
        if self.current < self.program().len() {
            float_work(self.program()[self.current as int], self@)
        } else {
            None
        }
    }

    /// The floating-point numbers whose text the library function of a
    /// name writes: see [`texts_wanted`].
    fn call_work(&self, name: &str) -> (work: Option<FloatWork>)
        requires
            self.wf(),
        ensures
            work_view(work) == float_work(InstructionView::Call(name@), self@),
    {
        let function = match lookup(name) {
            Some(function) => function,
            None => {
                return None;
            },
        };
        let n = self.stack_frames.len();
        let frame = &self.stack_frames[n - 1];
        assert(self@.top() == frame@);
        match function {
            LibraryFunction::Print | LibraryFunction::Println | LibraryFunction::Exit => {
                let arg = match function {
                    LibraryFunction::Exit => self.registers.get(Register::R5),
                    _ => self.registers.get(Register::R9),
                };
                if arg.is_float() {
                    let mut values: Vec<Type> = Vec::new();
                    values.push(arg.copy());
                    assert(value_views(values@) =~= seq![arg@]);
                    Some(FloatWork::Texts(values))
                } else {
                    None
                }
            },
            LibraryFunction::PrintAmt => match self.registers.get(Register::R5) {
                Type::UInt(amount) => {
                    if *amount <= frame.len() {
                        let floats = top_floats(frame, *amount);
                        if floats.len() > 0 {
                            Some(FloatWork::Texts(floats))
                        } else {
                            None
                        }
                    } else {
                        None
                    }
                },
                _ => None,
            },
            _ => None,
        }
    }

    /// What the embedding program has to compute for the instruction at
    /// which the engine is, if that instruction needs floating-point
    /// arithmetic: see [`float_work`].
    pub fn float_work(&self) -> (work: Option<FloatWork>)
        requires
            self.wf(),
        ensures
            work_view(work) == self.work(),
    {
        if self.current >= self.instructions.len() {
            return None;
        }
        let instruction = &self.instructions[self.current];
        assert(self.program()[self.current as int] == instruction@);
        match instruction {
            Instruction::Op(Operation::Prim1(op), regs) => {
                if !regs[0].names_slot() {
                    return None;
                }
                let v = self.registers.get(regs[0]);
                match op.solve(v.copy()) {
                    Err(Fault::FloatingPoint) => Some(FloatWork::Unary(*op, v.copy())),
                    _ => None,
                }
            },
            Instruction::Op(Operation::Prim2(op), regs) => {
                if !regs[0].names_slot() || !regs[1].names_slot() {
                    return None;
                }
                let a = self.registers.get(regs[0]);
                let b = self.registers.get(regs[1]);
                match op.solve(a.copy(), b.copy()) {
                    Err(Fault::FloatingPoint) => Some(FloatWork::Binary(*op, a.copy(), b.copy())),
                    _ => None,
                }
            },
            Instruction::Cast(reg, kind) => {
                if !reg.names_slot() {
                    return None;
                }
                let v = self.registers.get(*reg);
                match cast(v, *kind) {
                    Err(Fault::FloatingPoint) => Some(FloatWork::Convert(v.copy(), *kind)),
                    _ => None,
                }
            },
            Instruction::Assert(reg, expected) => {
                if !reg.names_slot() {
                    return None;
                }
                let v = self.registers.get(*reg);
                if v.is_float() && v.to_raw() == expected.to_raw() {
                    Some(FloatWork::Same(v.copy(), expected.copy()))
                } else {
                    None
                }
            },
            Instruction::Call(name) => self.call_work(name.as_str()),
            _ => None,
        }
    }

    /// What an instruction that needs floating-point arithmetic does, given
    /// what the embedding program computed, or the failure of a tick where
    /// the engine is past its program.
    pub open spec fn finished<H>(&self, result: FloatResultView) -> Result<Finished<H>, Fault> {
        if self.current < self.program().len() {
            float_finished(self.program()[self.current as int], self@, result)
        } else {
            Err(Fault::NoInstruction)
        }
    }

    /// Puts the result of an operator or of a conversion into a register
    /// and goes on to the next instruction.
    fn store_result<H>(&mut self, register: Register, v: Type, wanted: RawType) -> (r: Result<
        Tick<H>,
        Fault,
    >)
        requires
            old(self).wf(),
            register.is_slot(),
            !(wanted is Register),
            old(self).current < usize::MAX,
        ensures
            final(self).wf(),
            final(self).instructions == old(self).instructions,
            match r {
                Ok(tick) => {
                    &&& v@.kind() == wanted
                    &&& tick@ == TickView::<H>::Continue
                    &&& final(self)@ == old(self)@.with_register(register, v@).advanced()
                },
                Err(e) => {
                    &&& v@.kind() != wanted
                    &&& e == Fault::TypeMismatch
                    &&& final(self)@ == old(self)@
                },
            },
    {
        if v.to_raw() != wanted {
            return Err(Fault::TypeMismatch);
        }
        self.registers.insert(register, v);
        self.current = self.current + 1;
        Ok(Tick::Continue)
    }

    /// Asks for the write of the library function of a name, with the texts
    /// of the floating-point numbers that it writes, and goes on to the next
    /// instruction.
    fn call_done<H>(&mut self, name: &str, texts: Vec<String>) -> (r: Result<Tick<H>, Fault>)
        requires
            old(self).wf(),
            old(self).current < usize::MAX,
        ensures
            final(self).wf(),
            final(self).instructions == old(self).instructions,
            match r {
                Ok(tick) => float_finished::<H>(
                    InstructionView::Call(name@),
                    old(self)@,
                    FloatResultView::Texts(text_views(texts@)),
                ) == Ok::<Finished<H>, Fault>(Finished { machine: final(self)@, tick: tick@ }),
                Err(e) => float_finished::<H>(
                    InstructionView::Call(name@),
                    old(self)@,
                    FloatResultView::Texts(text_views(texts@)),
                ) == Err::<Finished<H>, Fault>(e) && final(self)@ == old(self)@,
            },
    {
        let wanted = match self.call_work(name) {
            Some(FloatWork::Texts(values)) => values,
            _ => {
                return Err(Fault::TypeMismatch);
            },
        };
        if texts.len() != wanted.len() {
            return Err(Fault::TypeMismatch);
        }
        let function = match lookup(name) {
            Some(function) => function,
            None => {
                return Err(Fault::TypeMismatch);
            },
        };
        let n = self.stack_frames.len();
        let ghost given = text_views(texts@);
        let ghost arg = argument(
            function,
            self@.registers[Register::R5.slot()],
            self@.registers[Register::R9.slot()],
        );
        proof {
            reveal_strlit("\n");
            assert(self@.top() == self.stack_frames@[n - 1]@);
            assert(given.len() == texts.len());
            assert(value_views(wanted@).len() == wanted.len());
            assert(texts.len() >= 1);
            assert(given[0] == texts@[0]@);
        }
        let request = match function {
            LibraryFunction::Print => HostRequest::Write(texts[0].clone()),
            LibraryFunction::Println => {
                let mut line = texts[0].clone();
                line.append("\n");
                assert(line@ =~= given[0] + seq!['\n']);
                HostRequest::Write(line)
            },
            LibraryFunction::Exit => {
                let mut line = texts[0].clone();
                line.append("\n");
                assert(line@ =~= given[0] + seq!['\n']);
                HostRequest::Terminate(Some(line), 0)
            },
            _ => match self.registers.get(Register::R5) {
                Type::UInt(amount) => HostRequest::Write(
                    list_with(&self.stack_frames[n - 1], *amount, &texts),
                ),
                _ => {
                    return Err(Fault::TypeMismatch);
                },
            },
        };
        assert(request@ == request_with(function, arg, self@.top(), given));
        self.current = self.current + 1;
        Ok(Tick::Host(request))
    }

    /// Finishes the instruction at which the engine is with what the
    /// embedding program computed for it: see [`float_finished`]. Where
    /// this fails, the engine stays as it was.
    pub fn float_done<H>(&mut self, result: FloatResult) -> (r: Result<Tick<H>, Fault>)
        requires
            old(self).wf(),
        ensures
            final(self).wf(),
            final(self).instructions == old(self).instructions,
            match r {
                Ok(tick) => old(self).finished::<H>(result@) == Ok::<Finished<H>, Fault>(
                    Finished { machine: final(self)@, tick: tick@ },
                ),
                Err(e) => old(self).finished::<H>(result@) == Err::<Finished<H>, Fault>(e)
                    && final(self)@ == old(self)@,
            },
    {
        if self.current >= self.instructions.len() {
            return Err(Fault::NoInstruction);
        }
        let work = match self.float_work() {
            Some(work) => work,
            None => {
                return Err(Fault::TypeMismatch);
            },
        };
        let wanted = match &work {
            FloatWork::Unary(_, v) => v.to_raw(),
            FloatWork::Binary(op, a, _) => match op {
                OpPrim2::Add
                | OpPrim2::Subtract
                | OpPrim2::Multiplication
                | OpPrim2::Division
                | OpPrim2::Modulus => a.to_raw(),
                _ => RawType::Boolean,
            },
            FloatWork::Convert(_, kind) => *kind,
            _ => RawType::Nil,
        };
        let instruction = &self.instructions[self.current];
        assert(self.program()[self.current as int] == instruction@);
        match (instruction, result) {
            (Instruction::Op(_, regs), FloatResult::Value(v)) => {
                let register = regs[0];
                self.store_result(register, v, wanted)
            },
            (Instruction::Cast(reg, _), FloatResult::Value(v)) => {
                let register = *reg;
                self.store_result(register, v, wanted)
            },
            (Instruction::Assert(..), FloatResult::Truth(equal)) => {
                if equal {
                    self.current = self.current + 1;
                    Ok(Tick::Continue)
                } else {
                    Ok(Tick::Exit(ASSERT_FAILED))
                }
            },
            (Instruction::Call(name), FloatResult::Texts(texts)) => {
                let name = name.clone();
                self.call_done(name.as_str(), texts)
            },
            _ => Err(Fault::TypeMismatch),
        }
    }
}

} // verus!
