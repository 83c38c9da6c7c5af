//! The functions that a program calls by name. Those that only compute give
//! what they return; those that read, write, wait or end the process say what
//! the embedding program has to do.

use vstd::prelude::*;
use crate::chars::{text_equals, trimmed, trimmed_text};
use crate::fault::Fault;
use crate::memory::stack::at_depth;
use crate::memory::{Heap, HeapItem, StackFrame};
use crate::text::text_of;
use crate::types::{Type, Value};

verus! {

/// How many values a library function can return: one for each of the
/// registers 5 to 9.
pub const RETURN_REGISTERS: usize = 5;

/// The values of registers 5 to 9, in that order, which a library function
/// reads. `print` and `println` write the value of register 9; every other
/// function that takes an argument takes that of register 5.
pub type LibraryRegisters<'a> = (&'a Type, &'a Type, &'a Type, &'a Type, &'a Type);

/// What a library function puts into registers 5 to 9; a register for which
/// it gives nothing keeps its value.
pub type LibraryReturn = (Option<Type>, Option<Type>, Option<Type>, Option<Type>, Option<Type>);

/// What the embedding program has to do for a library function.
#[derive(Clone, Debug, PartialEq)]
pub enum HostRequest {
    /// Write the text to standard output and flush it.
    Write(String),
    /// Read one byte from standard input and deliver it.
    ReadByte,
    /// Read one line from standard input and deliver it, line end included.
    ReadLine,
    /// Read standard input to its end and deliver its lines, without their
    /// line ends.
    ReadAll,
    /// Let the thread sleep for so many milliseconds.
    Sleep(u64),
    /// Write the text, if there is one, to standard output, and end the
    /// process with the code.
    Terminate(Option<String>, i32),
}

/// What a [`HostRequest`] stands for.
pub enum HostRequestView {
    Write(Seq<char>),
    ReadByte,
    ReadLine,
    ReadAll,
    Sleep(u64),
    Terminate(Option<Seq<char>>, i32),
}

impl View for HostRequest {
    type V = HostRequestView;

    open spec fn view(&self) -> HostRequestView {
        match self {
            HostRequest::Write(text) => HostRequestView::Write(text@),
            HostRequest::ReadByte => HostRequestView::ReadByte,
            HostRequest::ReadLine => HostRequestView::ReadLine,
            HostRequest::ReadAll => HostRequestView::ReadAll,
            HostRequest::Sleep(ms) => HostRequestView::Sleep(*ms),
            HostRequest::Terminate(text, code) => HostRequestView::Terminate(
                match text {
                    Some(t) => Some(t@),
                    None => None,
                },
                *code,
            ),
        }
    }
}

/// What the embedding program read for a library function.
#[derive(Clone, Debug, PartialEq)]
pub enum HostReply {
    Byte(u8),
    Line(String),
    Lines(Vec<String>),
}

/// What a call of a library function comes to.
#[derive(Debug, PartialEq)]
pub enum Answer {
    /// The function is done and returns these values.
    Return(LibraryReturn),
    /// The embedding program has to do this.
    Host(HostRequest),
}

/// What an [`Answer`] stands for. The values that are returned stand in the
/// order of the registers they are meant for, the one for register 5 first.
pub enum AnswerView {
    Return(Seq<Option<Value>>),
    Host(HostRequestView),
}

/// What an optional value stands for.
pub open spec fn option_view(t: Option<Type>) -> Option<Value> {
    match t {
        Some(v) => Some(v@),
        None => None,
    }
}

/// What returned values stand for.
pub open spec fn return_view(ret: LibraryReturn) -> Seq<Option<Value>> {
    seq![
        option_view(ret.0),
        option_view(ret.1),
        option_view(ret.2),
        option_view(ret.3),
        option_view(ret.4),
    ]
}

impl View for Answer {
    type V = AnswerView;

    open spec fn view(&self) -> AnswerView {
        match self {
            Answer::Return(ret) => AnswerView::Return(return_view(*ret)),
            Answer::Host(request) => AnswerView::Host(request@),
        }
    }
}

/// The library functions.
#[derive(Clone, Copy, Debug, PartialEq, Eq, Hash, Structural)]
pub enum LibraryFunction {
    Exit,
    Print,
    Println,
    PrintAmt,
    Read,
    ReadLine,
    ReadAll,
    HeapFree,
    ThreadSleep,
    StringTrim,
}

/// The library function of a given name, if there is one.
pub open spec fn function_named(name: Seq<char>) -> Option<LibraryFunction> {
    if name == "exit"@ {
        Some(LibraryFunction::Exit)
    } else if name == "print"@ {
        Some(LibraryFunction::Print)
    } else if name == "println"@ {
        Some(LibraryFunction::Println)
    } else if name == "std::print_amt"@ {
        Some(LibraryFunction::PrintAmt)
    } else if name == "read"@ {
        Some(LibraryFunction::Read)
    } else if name == "read_line"@ {
        Some(LibraryFunction::ReadLine)
    } else if name == "std::read_all"@ {
        Some(LibraryFunction::ReadAll)
    } else if name == "heap::free"@ {
        Some(LibraryFunction::HeapFree)
    } else if name == "thread::sleep"@ {
        Some(LibraryFunction::ThreadSleep)
    } else if name == "string::trim"@ {
        Some(LibraryFunction::StringTrim)
    } else {
        None
    }
}

/// Texts joined one after the other.
pub open spec fn joined(lines: Seq<Seq<char>>) -> Seq<char>
    decreases lines.len(),
{
    if lines.len() == 0 {
        Seq::empty()
    } else {
        joined(lines.drop_last()) + lines.last()
    }
}

/// The text of a value and a line end after it.
pub open spec fn line_of(v: Value) -> Result<Seq<char>, Fault> {
    match text_of(v) {
        Ok(text) => Ok(text + seq!['\n']),
        Err(e) => Err(e),
    }
}

/// The lines of the `n` values on top of a frame, the topmost first.
pub open spec fn listing(frame: Seq<Value>, n: nat) -> Result<Seq<char>, Fault>
    decreases n,
{
    if n == 0 {
        Ok(Seq::empty())
    } else {
        match listing(frame, (n - 1) as nat) {
            Err(e) => Err(e),
            Ok(head) => match line_of(at_depth(frame, (n - 1) as nat)) {
                Ok(line) => Ok(head + line),
                Err(e) => Err(e),
            },
        }
    }
}

/// No value is returned.
pub open spec fn nothing_returned() -> AnswerView {
    AnswerView::Return(seq![None, None, None, None, None])
}

/// One value is returned, for register 5.
pub open spec fn one_returned(v: Value) -> AnswerView {
    AnswerView::Return(seq![Some(v), None, None, None, None])
}

/// Whether a library function takes its argument from register 9 rather
/// than from register 5: the two that write a value do.
pub open spec fn takes_last(function: LibraryFunction) -> bool {
    function is Print || function is Println
}

/// The argument of a library function, given the values of registers 5 and
/// 9.
pub open spec fn argument(function: LibraryFunction, first: Value, last: Value) -> Value {
    if takes_last(function) {
        last
    } else {
        first
    }
}

/// What a call of a library function comes to, and the heap after it. The
/// function reads its argument (`arg`, see [`argument`]), the top frame and
/// the heap.
pub open spec fn called<H>(
    function: LibraryFunction,
    arg: Value,
    frame: Seq<Value>,
    heap: Map<usize, HeapItem<H>>,
) -> Result<(AnswerView, Map<usize, HeapItem<H>>), Fault> {
    match function {
        LibraryFunction::Exit => match arg {
            Value::Int32(code) => Ok(
                (AnswerView::Host(HostRequestView::Terminate(None, code)), heap),
            ),
            _ => match line_of(arg) {
                Ok(line) => Ok(
                    (AnswerView::Host(HostRequestView::Terminate(Some(line), 0)), heap),
                ),
                Err(e) => Err(e),
            },
        },
        LibraryFunction::Print => match text_of(arg) {
            Ok(text) => Ok((AnswerView::Host(HostRequestView::Write(text)), heap)),
            Err(e) => Err(e),
        },
        LibraryFunction::Println => match line_of(arg) {
            Ok(line) => Ok((AnswerView::Host(HostRequestView::Write(line)), heap)),
            Err(e) => Err(e),
        },
        LibraryFunction::PrintAmt => match arg {
            Value::UInt(n) => if n > frame.len() {
                Err(Fault::EmptyStack)
            } else {
                match listing(frame, n as nat) {
                    Ok(text) => Ok((AnswerView::Host(HostRequestView::Write(text)), heap)),
                    Err(e) => Err(e),
                }
            },
            _ => Err(Fault::TypeMismatch),
        },
        LibraryFunction::Read => Ok((AnswerView::Host(HostRequestView::ReadByte), heap)),
        LibraryFunction::ReadLine => Ok((AnswerView::Host(HostRequestView::ReadLine), heap)),
        LibraryFunction::ReadAll => Ok((AnswerView::Host(HostRequestView::ReadAll), heap)),
        LibraryFunction::HeapFree => match arg {
            Value::Pointer(p) => if heap.contains_key(p) {
                Ok((nothing_returned(), heap.remove(p)))
            } else {
                Err(Fault::InvalidPointer)
            },
            _ => Err(Fault::TypeMismatch),
        },
        LibraryFunction::ThreadSleep => match arg {
            Value::UInt64(ms) => Ok((AnswerView::Host(HostRequestView::Sleep(ms)), heap)),
            _ => Err(Fault::TypeMismatch),
        },
        LibraryFunction::StringTrim => match arg {
            Value::String(text) => Ok((one_returned(Value::String(trimmed(text))), heap)),
            _ => Err(Fault::TypeMismatch),
        },
    }
}

/// The value that the embedding program's reply puts into register 5: the
/// byte as a `UInt8`, the line as a text, the lines joined to one text.
pub open spec fn delivered(reply: HostReply) -> Value {
    match reply {
        HostReply::Byte(b) => Value::UInt8(b),
        HostReply::Line(text) => Value::String(text@),
        HostReply::Lines(lines) => Value::String(joined(lines@.map_values(|l: String| l@))),
    }
}

/// Up to five values as what a library function returns: the first for
/// register 5, the next for register 6 and so on, and nothing for the
/// registers that no value is left for.
pub fn lib_return<T>(values: Vec<T>) -> (r: (
    Option<T>,
    Option<T>,
    Option<T>,
    Option<T>,
    Option<T>,
))
    requires
        values.len() <= RETURN_REGISTERS,
    ensures
        r.0 == (if values.len() > 0 { Some(values[0]) } else { None }),
        r.1 == (if values.len() > 1 { Some(values[1]) } else { None }),
        r.2 == (if values.len() > 2 { Some(values[2]) } else { None }),
        r.3 == (if values.len() > 3 { Some(values[3]) } else { None }),
        r.4 == (if values.len() > 4 { Some(values[4]) } else { None }),
{
    let mut rest = values;
    let e4 = if rest.len() > 4 { rest.pop() } else { None };
    let e3 = if rest.len() > 3 { rest.pop() } else { None };
    let e2 = if rest.len() > 2 { rest.pop() } else { None };
    let e1 = if rest.len() > 1 { rest.pop() } else { None };
    let e0 = if rest.len() > 0 { rest.pop() } else { None };
    (e0, e1, e2, e3, e4)
}

/// The library function of a given name, if there is one.
pub fn lookup(function: &str) -> (r: Option<LibraryFunction>)
    ensures
        r == function_named(function@),
{
    if text_equals(function, "exit") {
        Some(LibraryFunction::Exit)
    } else if text_equals(function, "print") {
        Some(LibraryFunction::Print)
    } else if text_equals(function, "println") {
        Some(LibraryFunction::Println)
    } else if text_equals(function, "std::print_amt") {
        Some(LibraryFunction::PrintAmt)
    } else if text_equals(function, "read") {
        Some(LibraryFunction::Read)
    } else if text_equals(function, "read_line") {
        Some(LibraryFunction::ReadLine)
    } else if text_equals(function, "std::read_all") {
        Some(LibraryFunction::ReadAll)
    } else if text_equals(function, "heap::free") {
        Some(LibraryFunction::HeapFree)
    } else if text_equals(function, "thread::sleep") {
        Some(LibraryFunction::ThreadSleep)
    } else if text_equals(function, "string::trim") {
        Some(LibraryFunction::StringTrim)
    } else {
        None
    }
}

/// The text of a value and a line end after it.
fn line(arg: &Type) -> (r: Result<String, Fault>)
    ensures
        match r {
            Ok(text) => line_of(arg@) == Ok::<Seq<char>, Fault>(text@),
            Err(e) => line_of(arg@) == Err::<Seq<char>, Fault>(e),
        },
{
    match arg.to_text() {
        Ok(mut text) => {
            proof {
                reveal_strlit("\n");
            }
            text.append("\n");
            assert(text@ =~= text_of(arg@)->Ok_0 + seq!['\n']);
            Ok(text)
        },
        Err(e) => Err(e),
    }
}

/// `std::print_amt`: asks for the values on top of the frame to be written,
/// one on a line and the topmost first; register 5 says how many.
pub fn print_amt<H>(args: LibraryRegisters, stack_frame: &StackFrame, heap: &Heap<H>) -> (r:
    Result<Answer, Fault>)
    ensures
        match r {
            Ok(answer) => called(LibraryFunction::PrintAmt, args.0@, stack_frame@, heap@) == Ok::<
                (AnswerView, Map<usize, HeapItem<H>>),
                Fault,
            >((answer@, heap@)),
            Err(e) => called(LibraryFunction::PrintAmt, args.0@, stack_frame@, heap@) == Err::<
                (AnswerView, Map<usize, HeapItem<H>>),
                Fault,
            >(e),
        },
{
    let amount = match args.0 {
        Type::UInt(i) => *i,
        _ => {
            return Err(Fault::TypeMismatch);
        },
    };
    if amount > stack_frame.len() {
        return Err(Fault::EmptyStack);
    }
    let mut text = String::new();
    let mut i: usize = 0;
    while i < amount
        invariant
            i <= amount <= stack_frame@.len(),
            args.0@ == Value::UInt(amount),
            listing(stack_frame@, i as nat) == Ok::<Seq<char>, Fault>(text@),
        decreases amount - i,
    {
        let t = stack_frame.clone_offset(i);
        match line(&t) {
            Ok(l) => {
                text.append(l.as_str());
                i = i + 1;
            },
            Err(e) => {
                proof {
                    assert(listing(stack_frame@, (i + 1) as nat) == Err::<Seq<char>, Fault>(e));
                    lemma_listing_fails(stack_frame@, (i + 1) as nat, amount as nat);
                }
                return Err(e);
            },
        }
    }
    Ok(Answer::Host(HostRequest::Write(text)))
}

/// A listing that fails fails the same way however much longer it goes on.
proof fn lemma_listing_fails(frame: Seq<Value>, n: nat, m: nat)
    requires
        n <= m,
        listing(frame, n) is Err,
    ensures
        listing(frame, m) == listing(frame, n),
    decreases m,
{
    if n < m {
        lemma_listing_fails(frame, n, (m - 1) as nat);
    }
}

/// `std::read_all`: asks for standard input to be read to its end.
pub fn read_all<H>(args: LibraryRegisters, stack_frame: &StackFrame, heap: &Heap<H>) -> (r:
    Result<Answer, Fault>)
    ensures
        r is Ok,
        called(LibraryFunction::ReadAll, args.0@, stack_frame@, heap@) == Ok::<
            (AnswerView, Map<usize, HeapItem<H>>),
            Fault,
        >((r->Ok_0@, heap@)),
{
    Ok(Answer::Host(HostRequest::ReadAll))
}

/// `thread::sleep`: asks for the thread to sleep; register 5 says for how
/// many milliseconds, as a `UInt64`.
pub fn sleep<H>(args: LibraryRegisters, stack_frame: &StackFrame, heap: &Heap<H>) -> (r: Result<
    Answer,
    Fault,
>)
    ensures
        match r {
            Ok(answer) => called(LibraryFunction::ThreadSleep, args.0@, stack_frame@, heap@)
                == Ok::<(AnswerView, Map<usize, HeapItem<H>>), Fault>((answer@, heap@)),
            Err(e) => called(LibraryFunction::ThreadSleep, args.0@, stack_frame@, heap@) == Err::<
                (AnswerView, Map<usize, HeapItem<H>>),
                Fault,
            >(e),
        },
{
    match args.0 {
        Type::UInt64(i) => Ok(Answer::Host(HostRequest::Sleep(*i))),
        _ => Err(Fault::TypeMismatch),
    }
}

/// Runs a library function: see [`called`]. Where it fails, the heap stays
/// as it was.
pub fn run_function<H>(
    function: LibraryFunction,
    args: LibraryRegisters,
    stack_frame: &StackFrame,
    heap: &mut Heap<H>,
) -> (r: Result<Answer, Fault>)
    requires
        old(heap).wf(),
    ensures
        final(heap).wf(),
        final(heap).next() == old(heap).next(),
        match r {
            Ok(answer) => called(
                function,
                argument(function, args.0@, args.4@),
                stack_frame@,
                old(heap)@,
            ) == Ok::<
                (AnswerView, Map<usize, HeapItem<H>>),
                Fault,
            >((answer@, final(heap)@)),
            Err(e) => called(
                function,
                argument(function, args.0@, args.4@),
                stack_frame@,
                old(heap)@,
            ) == Err::<
                (AnswerView, Map<usize, HeapItem<H>>),
                Fault,
            >(e) && final(heap)@ == old(heap)@,
        },
{
    let arg = match function {
        LibraryFunction::Print | LibraryFunction::Println => args.4,
        _ => args.0,
    };
    match function {
        LibraryFunction::Exit => match arg {
            Type::Int32(v) => Ok(Answer::Host(HostRequest::Terminate(None, *v))),
            _ => match line(arg) {
                Ok(text) => Ok(Answer::Host(HostRequest::Terminate(Some(text), 0))),
                Err(e) => Err(e),
            },
        },
        LibraryFunction::Print => match arg.to_text() {
            Ok(text) => Ok(Answer::Host(HostRequest::Write(text))),
            Err(e) => Err(e),
        },
        LibraryFunction::Println => match line(arg) {
            Ok(text) => Ok(Answer::Host(HostRequest::Write(text))),
            Err(e) => Err(e),
        },
        LibraryFunction::PrintAmt => print_amt(args, stack_frame, heap),
        LibraryFunction::Read => Ok(Answer::Host(HostRequest::ReadByte)),
        LibraryFunction::ReadLine => Ok(Answer::Host(HostRequest::ReadLine)),
        LibraryFunction::ReadAll => read_all(args, stack_frame, heap),
        LibraryFunction::HeapFree => match arg {
            Type::Pointer(p) => {
                if heap.contains(*p) {
                    heap.free(*p);
                    let ret: LibraryReturn = lib_return(Vec::new());
                    let answer = Answer::Return(ret);
                    assert(answer@ =~= nothing_returned());
                    Ok(answer)
                } else {
                    Err(Fault::InvalidPointer)
                }
            },
            _ => Err(Fault::TypeMismatch),
        },
        LibraryFunction::ThreadSleep => sleep(args, stack_frame, heap),
        LibraryFunction::StringTrim => match arg {
            Type::String(v) => {
                let mut values: Vec<Type> = Vec::new();
                values.push(Type::String(trimmed_text(v)));
                let ret: LibraryReturn = lib_return(values);
                let answer = Answer::Return(ret);
                assert(answer@ =~= one_returned(Value::String(trimmed(v@))));
                Ok(answer)
            },
            _ => Err(Fault::TypeMismatch),
        },
    }
}

/// What a call by name comes to: that of the function of that name, and a
/// failure where there is none.
pub open spec fn called_by_name<H>(
    name: Seq<char>,
    first: Value,
    last: Value,
    frame: Seq<Value>,
    heap: Map<usize, HeapItem<H>>,
) -> Result<(AnswerView, Map<usize, HeapItem<H>>), Fault> {
    match function_named(name) {
        Some(function) => called(function, argument(function, first, last), frame, heap),
        None => Err(Fault::UnknownFunction),
    }
}

/// Calls the library function of a given name: see [`called_by_name`].
/// Where the call fails, the heap stays as it was.
pub fn call<H>(
    function: &str,
    args: LibraryRegisters,
    stack_frame: &StackFrame,
    heap: &mut Heap<H>,
) -> (r: Result<Answer, Fault>)
    requires
        old(heap).wf(),
    ensures
        final(heap).wf(),
        final(heap).next() == old(heap).next(),
        match r {
            Ok(answer) => called_by_name(
                function@,
                args.0@,
                args.4@,
                stack_frame@,
                old(heap)@,
            ) == Ok::<
                (AnswerView, Map<usize, HeapItem<H>>),
                Fault,
            >((answer@, final(heap)@)),
            Err(e) => called_by_name(
                function@,
                args.0@,
                args.4@,
                stack_frame@,
                old(heap)@,
            ) == Err::<
                (AnswerView, Map<usize, HeapItem<H>>),
                Fault,
            >(e) && final(heap)@ == old(heap)@,
        },
{
    match lookup(function) {
        Some(f) => run_function(f, args, stack_frame, heap),
        None => Err(Fault::UnknownFunction),
    }
}

/// The value that a reply of the embedding program puts into register 5:
/// see [`delivered`].
pub fn reply_value(reply: HostReply) -> (value: Type)
    ensures
        value@ == delivered(reply),
        value@.storable(),
{
    match reply {
        HostReply::Byte(b) => Type::UInt8(b),
        HostReply::Line(text) => Type::String(text),
        HostReply::Lines(lines) => {
            let mut text = String::new();
            let mut i: usize = 0;
            let ghost all = lines@.map_values(|l: String| l@);
            while i < lines.len()
                invariant
                    i <= lines.len(),
                    all == lines@.map_values(|l: String| l@),
                    text@ == joined(all.subrange(0, i as int)),
                decreases lines.len() - i,
            {
                proof {
                    let upto = all.subrange(0, i + 1);
                    assert(upto.drop_last() =~= all.subrange(0, i as int));
                    assert(upto.last() == lines@[i as int]@);
                }
                text.append(lines[i].as_str());
                i = i + 1;
            }
            assert(all.subrange(0, lines.len() as int) =~= all);
            Type::String(text)
        },
    }
}

} // verus!
