use allot::Instruction::{
    Assert, Call, Cast, Cpy, Dbg, Dump, Exit, GiveTo, Jmp, Lea, Mov, Nop, Op, Pop, PopFrame,
    PopMany, Push, PushCpy, PushFrame, Ret, StackCpy, TakeFrom, ThreadCreate, ThreadJoin,
};
use allot::Register::{Nil, R0, R1, R2, R3, R5, R9};
use allot::floats::{FloatResult, FloatWork};
use allot::{
    call, lib_return, AllotRuntime, Answer, Fault, Heap, HeapBox, HostReply, HostRequest,
    Instruction, OpPrim1, OpPrim2, Operation, RawType, StackFrame, Tick, Type, ASSERT_FAILED,
};

fn engine(instructions: Vec<Instruction>) -> (AllotRuntime, Heap<u32>) {
    (AllotRuntime::new(instructions), Heap::new())
}

/// The first fault of a program, which must have one.
fn fault_of(instructions: Vec<Instruction>) -> Fault {
    let (mut runtime, mut heap) = engine(instructions);
    match runtime.run(&mut heap, 1000) {
        Err(fault) => fault,
        other => panic!("no fault: {:?}", other),
    }
}

/// The top frame of an engine, the top value first.
fn top_frame(runtime: &AllotRuntime) -> Vec<Type> {
    let frame = runtime.stack_frames.last().unwrap();
    (0..frame.len()).map(|depth| frame.clone_offset(depth)).collect()
}

#[test]
fn tick_outside_the_program_is_a_fault() {
    let (mut runtime, mut heap) = engine(vec![]);
    assert_eq!(runtime.tick(&mut heap), Err(Fault::NoInstruction));
    let (mut runtime, mut heap) = engine(vec![Nop]);
    assert_eq!(runtime.tick(&mut heap), Ok(Tick::Continue));
    assert_eq!(runtime.current, 1);
    assert_eq!(runtime.tick(&mut heap), Err(Fault::NoInstruction));
    assert_eq!(runtime.current, 1);
}

#[test]
fn run_stops_when_the_fuel_is_spent() {
    let (mut runtime, mut heap) = engine(vec![Jmp(None, Type::Address(0))]);
    assert_eq!(runtime.run(&mut heap, 10), Ok(Tick::Continue));
    assert_eq!(runtime.current, 0);
    let (mut runtime, mut heap) = engine(vec![Nop, Nop, Exit(Type::Int32(3))]);
    assert_eq!(runtime.run(&mut heap, 2), Ok(Tick::Continue));
    assert_eq!(runtime.current, 2);
    assert_eq!(runtime.run(&mut heap, 0), Ok(Tick::Continue));
    assert_eq!(runtime.run(&mut heap, 1), Ok(Tick::Exit(3)));
    // `Exit` leaves the engine where it is.
    assert_eq!(runtime.current, 2);
}

#[test]
fn mov_moves_and_cpy_copies() {
    let (mut runtime, mut heap) = engine(vec![
        Mov(R1, Type::String("text".to_string())),
        Mov(R2, Type::Register(R1)),
        Cpy(R3, R2),
        Mov(R3, Type::Register(R3)),
    ]);
    assert_eq!(runtime.run(&mut heap, 3), Ok(Tick::Continue));
    assert_eq!(runtime.registers.get(R1), &Type::Nil);
    assert_eq!(runtime.registers.get(R2), &Type::String("text".to_string()));
    assert_eq!(runtime.registers.get(R3), &Type::String("text".to_string()));
    // A move from a register to itself keeps the value.
    assert_eq!(runtime.tick(&mut heap), Ok(Tick::Continue));
    assert_eq!(runtime.registers.get(R3), &Type::String("text".to_string()));
}

#[test]
fn register_operands_must_name_slots() {
    assert_eq!(fault_of(vec![Mov(Nil, Type::UInt(1))]), Fault::InvalidRegister);
    assert_eq!(fault_of(vec![Mov(R1, Type::Register(Nil))]), Fault::InvalidRegister);
    assert_eq!(fault_of(vec![Cpy(R1, Nil)]), Fault::InvalidRegister);
    assert_eq!(fault_of(vec![Cpy(Nil, R1)]), Fault::InvalidRegister);
    assert_eq!(fault_of(vec![Cast(Nil, RawType::Int8)]), Fault::InvalidRegister);
    assert_eq!(fault_of(vec![Lea(Nil, 0)]), Fault::InvalidRegister);
    assert_eq!(fault_of(vec![Push(Nil)]), Fault::InvalidRegister);
    assert_eq!(fault_of(vec![PushCpy(Nil)]), Fault::InvalidRegister);
    assert_eq!(fault_of(vec![Push(R1), Pop(Some(Nil))]), Fault::InvalidRegister);
    assert_eq!(fault_of(vec![ThreadJoin(Nil)]), Fault::InvalidRegister);
    assert_eq!(fault_of(vec![Assert(Nil, Type::Nil)]), Fault::InvalidRegister);
    assert_eq!(fault_of(vec![Exit(Type::Register(Nil))]), Fault::InvalidRegister);
    assert_eq!(
        fault_of(vec![Op(Operation::Prim1(OpPrim1::Not), [Nil, R1])]),
        Fault::InvalidRegister
    );
    assert_eq!(
        fault_of(vec![Op(Operation::Prim2(OpPrim2::Add), [R1, Nil])]),
        Fault::InvalidRegister
    );
    assert_eq!(
        fault_of(vec![Jmp(Some(Nil), Type::Address(0))]),
        Fault::InvalidRegister
    );
}

#[test]
fn op_works_in_place_and_fails_without_change() {
    let (mut runtime, mut heap) = engine(vec![
        Mov(R1, Type::UInt8(255)),
        Op(Operation::Prim1(OpPrim1::Increment), [R1, Nil]),
        Mov(R2, Type::UInt8(5)),
        Op(Operation::Prim2(OpPrim2::Subtract), [R2, R1]),
        Op(Operation::Prim2(OpPrim2::Division), [R2, R1]),
    ]);
    assert_eq!(runtime.run(&mut heap, 4), Ok(Tick::Continue));
    assert_eq!(runtime.registers.get(R1), &Type::UInt8(0));
    assert_eq!(runtime.registers.get(R2), &Type::UInt8(5));
    assert_eq!(runtime.tick(&mut heap), Err(Fault::DivisionByZero));
    assert_eq!(runtime.current, 4);
    assert_eq!(runtime.registers.get(R2), &Type::UInt8(5));
}

#[test]
fn cast_and_lea() {
    let (mut runtime, mut heap) = engine(vec![
        Mov(R1, Type::Int32(-1)),
        Cast(R1, RawType::UInt8),
        Lea(R2, 77),
        Cast(R2, RawType::UInt),
    ]);
    assert_eq!(runtime.run(&mut heap, 3), Ok(Tick::Continue));
    assert_eq!(runtime.registers.get(R1), &Type::UInt8(255));
    assert_eq!(runtime.registers.get(R2), &Type::Address(77));
    assert_eq!(runtime.tick(&mut heap), Err(Fault::UnsupportedCast));
    assert_eq!(runtime.registers.get(R2), &Type::Address(77));
}

#[test]
fn jumps() {
    let program = |condition: Type| {
        vec![
            Mov(R1, condition),
            Lea(R2, 4),
            Jmp(Some(R1), Type::Register(R2)),
            Exit(Type::Int32(1)),
            Exit(Type::Int32(2)),
        ]
    };
    let (mut runtime, mut heap) = engine(program(Type::Boolean(true)));
    assert_eq!(runtime.run(&mut heap, 10), Ok(Tick::Exit(2)));
    let (mut runtime, mut heap) = engine(program(Type::Boolean(false)));
    assert_eq!(runtime.run(&mut heap, 10), Ok(Tick::Exit(1)));
    assert_eq!(fault_of(program(Type::UInt(1))), Fault::TypeMismatch);
    assert_eq!(fault_of(vec![Jmp(None, Type::UInt(1))]), Fault::TypeMismatch);
    assert_eq!(fault_of(vec![Jmp(None, Type::Register(R1))]), Fault::TypeMismatch);
    // A jump may leave the program; the next tick finds no instruction.
    assert_eq!(fault_of(vec![Jmp(None, Type::Address(9))]), Fault::NoInstruction);
}

#[test]
fn ret_jumps_to_the_address_on_the_stack() {
    let (mut runtime, mut heap) = engine(vec![
        Lea(R1, 4),
        Push(R1),
        Ret,
        Exit(Type::Int32(1)),
        Exit(Type::Int32(2)),
    ]);
    assert_eq!(runtime.run(&mut heap, 10), Ok(Tick::Exit(2)));
    assert_eq!(top_frame(&runtime), vec![]);
    assert_eq!(fault_of(vec![Ret]), Fault::EmptyStack);
    let (mut runtime, mut heap) = engine(vec![Mov(R1, Type::UInt(4)), Push(R1), Ret]);
    assert_eq!(runtime.run(&mut heap, 10), Err(Fault::TypeMismatch));
    // The value is still on the stack.
    assert_eq!(top_frame(&runtime), vec![Type::UInt(4)]);
}

#[test]
fn exit_takes_an_int32() {
    let (mut runtime, mut heap) = engine(vec![Mov(R1, Type::Int32(-7)), Exit(Type::Register(R1))]);
    assert_eq!(runtime.run(&mut heap, 10), Ok(Tick::Exit(-7)));
    assert_eq!(fault_of(vec![Exit(Type::UInt(1))]), Fault::TypeMismatch);
    assert_eq!(fault_of(vec![Exit(Type::Register(R1))]), Fault::TypeMismatch);
}

#[test]
fn stack_instructions() {
    let (mut runtime, mut heap) = engine(vec![
        Mov(R1, Type::UInt(1)),
        Mov(R2, Type::UInt(2)),
        Push(R1),
        PushCpy(R2),
        PushCpy(R2),
        StackCpy(R3, Type::UInt(2)),
        Pop(Some(R0)),
        Pop(None),
        Mov(R5, Type::UInt(1)),
        PopMany(Type::Register(R5)),
        PopMany(Type::UInt(0)),
        PopMany(Type::UInt(1)),
    ]);
    assert_eq!(runtime.run(&mut heap, 5), Ok(Tick::Continue));
    assert_eq!(runtime.registers.get(R1), &Type::Nil);
    assert_eq!(runtime.registers.get(R2), &Type::UInt(2));
    assert_eq!(top_frame(&runtime), vec![Type::UInt(2), Type::UInt(2), Type::UInt(1)]);
    assert_eq!(runtime.run(&mut heap, 3), Ok(Tick::Continue));
    assert_eq!(runtime.registers.get(R3), &Type::UInt(1));
    assert_eq!(runtime.registers.get(R0), &Type::UInt(2));
    assert_eq!(top_frame(&runtime), vec![Type::UInt(1)]);
    assert_eq!(runtime.run(&mut heap, 3), Ok(Tick::Continue));
    assert_eq!(top_frame(&runtime), vec![]);
    assert_eq!(runtime.tick(&mut heap), Err(Fault::EmptyStack));
}

#[test]
fn stack_faults() {
    assert_eq!(fault_of(vec![Pop(None)]), Fault::EmptyStack);
    assert_eq!(fault_of(vec![Pop(Some(R1))]), Fault::EmptyStack);
    assert_eq!(fault_of(vec![PopMany(Type::UInt(1))]), Fault::EmptyStack);
    assert_eq!(fault_of(vec![PopMany(Type::UInt8(1))]), Fault::TypeMismatch);
    assert_eq!(fault_of(vec![StackCpy(R1, Type::UInt(0))]), Fault::EmptyStack);
    assert_eq!(fault_of(vec![Push(R1), StackCpy(R1, Type::UInt(1))]), Fault::EmptyStack);
    assert_eq!(fault_of(vec![Push(R1), StackCpy(Nil, Type::UInt(0))]), Fault::InvalidRegister);
    assert_eq!(fault_of(vec![StackCpy(R1, Type::Int32(0))]), Fault::TypeMismatch);
}

#[test]
fn a_register_name_never_rests_in_a_register() {
    let mut frame = StackFrame::new(false);
    frame.push(Type::Register(R1));
    let program = |instruction: Instruction| std::sync::Arc::new(vec![instruction]);
    let mut heap: Heap<u32> = Heap::new();
    let mut runtime = AllotRuntime::new_thread(program(Pop(Some(R2))), frame, 0);
    assert_eq!(runtime.tick(&mut heap), Err(Fault::RegisterValue));
    assert_eq!(top_frame(&runtime), vec![Type::Register(R1)]);
    runtime.instructions = program(StackCpy(R2, Type::UInt(0)));
    assert_eq!(runtime.tick(&mut heap), Err(Fault::RegisterValue));
    runtime.instructions = program(Pop(None));
    assert_eq!(runtime.tick(&mut heap), Ok(Tick::Continue));
    assert_eq!(top_frame(&runtime), vec![]);
}

#[test]
fn frames() {
    let (mut runtime, mut heap) = engine(vec![
        Mov(R1, Type::UInt(1)),
        Push(R1),
        PushFrame(true),
        Mov(R1, Type::UInt(2)),
        Push(R1),
        PopFrame,
        PopFrame,
    ]);
    assert_eq!(runtime.run(&mut heap, 5), Ok(Tick::Continue));
    assert_eq!(runtime.stack_frames.len(), 2);
    assert!(runtime.stack_frames[1].isolated());
    assert!(!runtime.stack_frames[0].isolated());
    assert_eq!(top_frame(&runtime), vec![Type::UInt(2)]);
    assert_eq!(runtime.tick(&mut heap), Ok(Tick::Continue));
    assert_eq!(runtime.stack_frames.len(), 1);
    assert_eq!(top_frame(&runtime), vec![Type::UInt(1)]);
    assert_eq!(runtime.tick(&mut heap), Err(Fault::LastFrame));
    assert_eq!(runtime.stack_frames.len(), 1);
    let frame = runtime.take_stack_frame();
    assert_eq!(frame.len(), 1);
    assert_eq!(runtime.stack_frames.len(), 0);
}

#[test]
fn reserved_and_diagnostic_instructions() {
    assert_eq!(fault_of(vec![TakeFrom]), Fault::Reserved);
    assert_eq!(fault_of(vec![GiveTo]), Fault::Reserved);
    let (mut runtime, mut heap) = engine(vec![Mov(R1, Type::UInt(1)), Dbg(R1), Dump(0xF), Dbg(Nil)]);
    assert_eq!(runtime.run(&mut heap, 4), Ok(Tick::Continue));
    assert_eq!(runtime.current, 4);
    assert_eq!(runtime.registers.get(R1), &Type::UInt(1));
}

#[test]
fn assert_with_floats_is_left_to_the_embedding_program() {
    let (mut runtime, mut heap) = engine(vec![
        Mov(R1, Type::Float32(1.5f32.to_bits())),
        Assert(R1, Type::Float32(1.5f32.to_bits())),
    ]);
    assert_eq!(runtime.run(&mut heap, 10), Err(Fault::FloatingPoint));
    assert_eq!(runtime.current, 1);
}

#[test]
fn thread_is_created_and_joined() {
    let program = std::sync::Arc::new(vec![
        // The main thread.
        Mov(R1, Type::UInt(41)),
        PushFrame(false),
        Push(R1),
        ThreadCreate(Type::Address(7)),
        ThreadJoin(R5),
        Pop(Some(R2)),
        Exit(Type::Int32(0)),
        // The thread.
        Pop(Some(R1)),
        Op(Operation::Prim1(OpPrim1::Increment), [R1, Nil]),
        Push(R1),
        Exit(Type::Int32(77)),
    ]);
    let mut heap: Heap<u32> = Heap::new();
    let mut runtime = AllotRuntime::new_arc(program.clone());

    let (frame, address) = match runtime.run(&mut heap, 100) {
        Ok(Tick::Spawn(frame, address)) => (frame, address),
        other => panic!("no thread: {:?}", other),
    };
    assert_eq!(address, 7);
    assert_eq!(runtime.stack_frames.len(), 1);
    assert_eq!(runtime.thread_created(&mut heap, 1234), Ok(()));
    assert_eq!(runtime.registers.get(R5), &Type::Pointer(0));
    assert_eq!(heap.get(0), &HeapBox::Thread(1234));

    // The thread has its own registers and frames.
    let mut thread = AllotRuntime::new_thread(program, frame, address);
    assert_eq!(thread.registers.get(R1), &Type::Nil);
    assert_eq!(thread.run(&mut heap, 100), Ok(Tick::Exit(77)));
    let last = thread.take_stack_frame();

    assert_eq!(runtime.run(&mut heap, 100), Ok(Tick::Join(1234)));
    assert!(!heap.contains(0));
    runtime.thread_joined(77, last);
    assert_eq!(runtime.registers.get(R5), &Type::Int32(77));
    assert_eq!(runtime.stack_frames.len(), 2);
    assert_eq!(top_frame(&runtime), vec![Type::UInt(42)]);
    assert_eq!(runtime.run(&mut heap, 100), Ok(Tick::Exit(0)));
    assert_eq!(runtime.registers.get(R2), &Type::UInt(42));
}

#[test]
fn thread_faults() {
    assert_eq!(fault_of(vec![ThreadCreate(Type::Address(0))]), Fault::LastFrame);
    assert_eq!(fault_of(vec![PushFrame(false), ThreadCreate(Type::UInt(0))]), Fault::TypeMismatch);
    assert_eq!(fault_of(vec![ThreadJoin(R5)]), Fault::TypeMismatch);
    assert_eq!(fault_of(vec![Mov(R5, Type::Pointer(3)), ThreadJoin(R5)]), Fault::InvalidPointer);
    // A pointer to a value is no pointer to a thread.
    let (mut runtime, mut heap) = engine(vec![ThreadJoin(R5)]);
    let pointer = heap.push(HeapBox::Type(Type::UInt(1)));
    runtime.registers.insert(R5, pointer);
    assert_eq!(runtime.tick(&mut heap), Err(Fault::InvalidPointer));
    assert!(heap.contains(0));
    // A thread is joined once.
    let (mut runtime, mut heap) = engine(vec![ThreadJoin(R5), ThreadJoin(R5)]);
    let pointer = heap.push(HeapBox::Thread(5));
    runtime.registers.insert(R5, pointer);
    assert_eq!(runtime.tick(&mut heap), Ok(Tick::Join(5)));
    assert_eq!(runtime.tick(&mut heap), Err(Fault::InvalidPointer));
}

#[test]
fn library_calls() {
    let call = |name: &str, arg: Type| {
        let register = if name == "print" || name == "println" { R9 } else { R5 };
        let (mut runtime, mut heap) =
            engine(vec![Mov(register, arg), Call(name.to_string())]);
        let tick = runtime.run(&mut heap, 2);
        (tick, runtime)
    };
    assert_eq!(call("print", Type::Int8(-5)).0, Ok(Tick::Host(HostRequest::Write("-5".to_string()))));
    assert_eq!(call("println", Type::Nil).0, Ok(Tick::Host(HostRequest::Write("\n".to_string()))));
    assert_eq!(call("println", Type::Pointer(0xBEEF)).0, Ok(Tick::Host(HostRequest::Write("BEEF\n".to_string()))));
    assert_eq!(call("println", Type::Boolean(true)).0, Ok(Tick::Host(HostRequest::Write("true\n".to_string()))));
    assert_eq!(call("exit", Type::Int32(3)).0, Ok(Tick::Host(HostRequest::Terminate(None, 3))));
    assert_eq!(
        call("exit", Type::String("bye".to_string())).0,
        Ok(Tick::Host(HostRequest::Terminate(Some("bye\n".to_string()), 0)))
    );
    assert_eq!(call("read", Type::Nil).0, Ok(Tick::Host(HostRequest::ReadByte)));
    assert_eq!(call("read_line", Type::Nil).0, Ok(Tick::Host(HostRequest::ReadLine)));
    assert_eq!(call("std::read_all", Type::Nil).0, Ok(Tick::Host(HostRequest::ReadAll)));
    assert_eq!(call("thread::sleep", Type::UInt64(15)).0, Ok(Tick::Host(HostRequest::Sleep(15))));
    assert_eq!(call("thread::sleep", Type::UInt(15)).0, Err(Fault::TypeMismatch));
    assert_eq!(call("no::such", Type::Nil).0, Err(Fault::UnknownFunction));
    assert_eq!(call("Print", Type::Nil).0, Err(Fault::UnknownFunction));
    assert_eq!(call("print", Type::Float32(0)).0, Err(Fault::FloatingPoint));

    let (tick, runtime) = call("string::trim", Type::String(" \t a b\u{a0}\n".to_string()));
    assert_eq!(tick, Ok(Tick::Continue));
    assert_eq!(runtime.registers.get(R5), &Type::String("a b".to_string()));
    assert_eq!(runtime.registers.get(R9), &Type::Nil);
    assert_eq!(runtime.current, 2);
    assert_eq!(call("string::trim", Type::UInt(1)).0, Err(Fault::TypeMismatch));
    // A call that fails leaves the engine at the call.
    assert_eq!(call("string::trim", Type::UInt(1)).1.current, 1);
}

#[test]
fn heap_free_by_library_call() {
    let (mut runtime, mut heap) = engine(vec![
        Call("heap::free".to_string()),
        Call("heap::free".to_string()),
    ]);
    let pointer = heap.push(HeapBox::Type(Type::UInt(1)));
    runtime.registers.insert(R5, pointer);
    assert_eq!(runtime.tick(&mut heap), Ok(Tick::Continue));
    assert!(!heap.contains(0));
    assert_eq!(runtime.tick(&mut heap), Err(Fault::InvalidPointer));
    runtime.registers.insert(R5, Type::UInt(0));
    assert_eq!(runtime.tick(&mut heap), Err(Fault::TypeMismatch));
}

#[test]
fn print_amt_lists_the_top_of_the_stack() {
    let (mut runtime, mut heap) = engine(vec![
        Mov(R1, Type::UInt(1)),
        Push(R1),
        Mov(R1, Type::String("two".to_string())),
        Push(R1),
        Mov(R1, Type::Char('3')),
        Push(R1),
        Mov(R5, Type::UInt(2)),
        Call("std::print_amt".to_string()),
        Mov(R5, Type::UInt(4)),
        Call("std::print_amt".to_string()),
    ]);
    assert_eq!(
        runtime.run(&mut heap, 100),
        Ok(Tick::Host(HostRequest::Write("3\ntwo\n".to_string())))
    );
    assert_eq!(runtime.run(&mut heap, 100), Err(Fault::EmptyStack));
    runtime.registers.insert(R5, Type::UInt8(1));
    assert_eq!(runtime.tick(&mut heap), Err(Fault::TypeMismatch));
}

#[test]
fn replies_go_to_register_five() {
    let (mut runtime, _) = engine(vec![]);
    runtime.deliver(HostReply::Byte(65));
    assert_eq!(runtime.registers.get(R5), &Type::UInt8(65));
    runtime.deliver(HostReply::Line("a line\n".to_string()));
    assert_eq!(runtime.registers.get(R5), &Type::String("a line\n".to_string()));
    runtime.deliver(HostReply::Lines(vec!["one".to_string(), "two".to_string(), String::new()]));
    assert_eq!(runtime.registers.get(R5), &Type::String("onetwo".to_string()));
    runtime.deliver(HostReply::Lines(vec![]));
    assert_eq!(runtime.registers.get(R5), &Type::String(String::new()));
}

#[test]
fn library_by_itself() {
    let frame = StackFrame::new(false);
    let mut heap: Heap<u32> = Heap::new();
    let nil = Type::Nil;
    let text = Type::String("  x ".to_string());
    let args = (&text, &nil, &nil, &nil, &nil);
    assert_eq!(
        call("string::trim", args, &frame, &mut heap),
        Ok(Answer::Return(lib_return(vec![Type::String("x".to_string())])))
    );
    // `print` writes register 9, the last of the five.
    assert_eq!(
        call("print", args, &frame, &mut heap),
        Ok(Answer::Host(HostRequest::Write(String::new())))
    );
    assert_eq!(
        call("print", (&nil, &nil, &nil, &nil, &text), &frame, &mut heap),
        Ok(Answer::Host(HostRequest::Write("  x ".to_string())))
    );
    assert_eq!(allot::library::lookup("heap::free"), Some(allot::LibraryFunction::HeapFree));
    assert_eq!(allot::library::lookup("heap::free "), None);
    assert_eq!(allot::library::lookup(""), None);
}

fn bits(value: f32) -> Type {
    Type::Float32(value.to_bits())
}

#[test]
fn float_results_are_stored_by_the_engine() {
    let (mut runtime, mut heap) = engine(vec![
        Mov(R1, bits(1.5)),
        Mov(R2, bits(2.25)),
        Op(Operation::Prim2(OpPrim2::Add), [R1, R2]),
        Op(Operation::Prim2(OpPrim2::Less), [R2, R1]),
        Op(Operation::Prim1(OpPrim1::Increment), [R1, Nil]),
        Cast(R1, RawType::Int32),
        Cast(R1, RawType::Float64),
    ]);
    assert_eq!(runtime.float_work(), None);
    assert_eq!(runtime.run(&mut heap, 10), Err(Fault::FloatingPoint));
    assert_eq!(
        runtime.float_work(),
        Some(FloatWork::Binary(OpPrim2::Add, bits(1.5), bits(2.25)))
    );
    // The result must be of the kind that the operator gives.
    assert_eq!(
        runtime.float_done::<u32>(FloatResult::Value(Type::Float64(0))),
        Err(Fault::TypeMismatch)
    );
    assert_eq!(runtime.float_done::<u32>(FloatResult::Truth(true)), Err(Fault::TypeMismatch));
    assert_eq!(runtime.current, 2);
    assert_eq!(runtime.float_done::<u32>(FloatResult::Value(bits(3.75))), Ok(Tick::Continue));
    assert_eq!(runtime.registers.get(R1), &bits(3.75));
    assert_eq!(runtime.registers.get(R2), &bits(2.25));
    assert_eq!(runtime.current, 3);

    assert_eq!(runtime.tick(&mut heap), Err(Fault::FloatingPoint));
    assert_eq!(
        runtime.float_work(),
        Some(FloatWork::Binary(OpPrim2::Less, bits(2.25), bits(3.75)))
    );
    assert_eq!(
        runtime.float_done::<u32>(FloatResult::Value(bits(1.0))),
        Err(Fault::TypeMismatch)
    );
    assert_eq!(
        runtime.float_done::<u32>(FloatResult::Value(Type::Boolean(true))),
        Ok(Tick::Continue)
    );
    assert_eq!(runtime.registers.get(R2), &Type::Boolean(true));

    assert_eq!(runtime.tick(&mut heap), Err(Fault::FloatingPoint));
    assert_eq!(
        runtime.float_work(),
        Some(FloatWork::Unary(OpPrim1::Increment, bits(3.75)))
    );
    assert_eq!(runtime.float_done::<u32>(FloatResult::Value(bits(4.75))), Ok(Tick::Continue));

    assert_eq!(runtime.tick(&mut heap), Err(Fault::FloatingPoint));
    assert_eq!(runtime.float_work(), Some(FloatWork::Convert(bits(4.75), RawType::Int32)));
    assert_eq!(
        runtime.float_done::<u32>(FloatResult::Value(Type::Int64(4))),
        Err(Fault::TypeMismatch)
    );
    assert_eq!(runtime.float_done::<u32>(FloatResult::Value(Type::Int32(4))), Ok(Tick::Continue));
    assert_eq!(runtime.registers.get(R1), &Type::Int32(4));

    assert_eq!(runtime.tick(&mut heap), Err(Fault::FloatingPoint));
    assert_eq!(runtime.float_work(), Some(FloatWork::Convert(Type::Int32(4), RawType::Float64)));
    let four = Type::Float64(4f64.to_bits());
    assert_eq!(runtime.float_done::<u32>(FloatResult::Value(four.clone())), Ok(Tick::Continue));
    assert_eq!(runtime.registers.get(R1), &four);
    assert_eq!(runtime.current, 7);
    assert_eq!(runtime.float_done::<u32>(FloatResult::Truth(true)), Err(Fault::NoInstruction));
}

#[test]
fn float_assert_goes_on_or_ends_the_program() {
    let (mut runtime, mut heap) = engine(vec![Mov(R1, bits(1.5)), Assert(R1, bits(1.5)), Nop]);
    assert_eq!(runtime.run(&mut heap, 10), Err(Fault::FloatingPoint));
    assert_eq!(runtime.float_work(), Some(FloatWork::Same(bits(1.5), bits(1.5))));
    assert_eq!(
        runtime.float_done::<u32>(FloatResult::Value(Type::Boolean(true))),
        Err(Fault::TypeMismatch)
    );
    assert_eq!(
        runtime.float_done::<u32>(FloatResult::Truth(false)),
        Ok(Tick::Exit(ASSERT_FAILED))
    );
    assert_eq!(runtime.current, 1);
    assert_eq!(runtime.float_done::<u32>(FloatResult::Truth(true)), Ok(Tick::Continue));
    assert_eq!(runtime.current, 2);
    // An instruction without floats takes no result.
    assert_eq!(runtime.float_work(), None);
    assert_eq!(runtime.float_done::<u32>(FloatResult::Truth(true)), Err(Fault::TypeMismatch));
    // A float and a value of another kind are not the same, and no one is asked.
    let (mut runtime, mut heap) = engine(vec![Mov(R1, bits(1.5)), Assert(R1, Type::UInt32(0))]);
    assert_eq!(runtime.run(&mut heap, 10), Ok(Tick::Exit(ASSERT_FAILED)));
}

#[test]
fn float_texts_are_written_by_the_library() {
    let text = |s: &str| FloatResult::Texts(vec![s.to_string()]);
    let (mut runtime, mut heap) = engine(vec![
        Mov(R9, bits(1.5)),
        Call("print".to_string()),
        Call("println".to_string()),
        Mov(R5, Type::Float64(2f64.to_bits())),
        Call("exit".to_string()),
    ]);
    assert_eq!(runtime.run(&mut heap, 10), Err(Fault::FloatingPoint));
    assert_eq!(runtime.float_work(), Some(FloatWork::Texts(vec![bits(1.5)])));
    assert_eq!(
        runtime.float_done::<u32>(FloatResult::Texts(vec![])),
        Err(Fault::TypeMismatch)
    );
    assert_eq!(
        runtime.float_done::<u32>(text("1.5")),
        Ok(Tick::Host(HostRequest::Write("1.5".to_string())))
    );
    assert_eq!(runtime.run(&mut heap, 10), Err(Fault::FloatingPoint));
    assert_eq!(
        runtime.float_done::<u32>(text("1.5")),
        Ok(Tick::Host(HostRequest::Write("1.5\n".to_string())))
    );
    assert_eq!(runtime.run(&mut heap, 10), Err(Fault::FloatingPoint));
    assert_eq!(
        runtime.float_work(),
        Some(FloatWork::Texts(vec![Type::Float64(2f64.to_bits())]))
    );
    assert_eq!(
        runtime.float_done::<u32>(text("2")),
        Ok(Tick::Host(HostRequest::Terminate(Some("2\n".to_string()), 0)))
    );
    assert_eq!(runtime.current, 5);
}

#[test]
fn print_amt_takes_the_texts_of_its_floats() {
    let (mut runtime, mut heap) = engine(vec![
        Mov(R1, bits(1.5)),
        Push(R1),
        Mov(R1, Type::UInt(7)),
        Push(R1),
        Mov(R1, Type::Float64(2f64.to_bits())),
        Push(R1),
        Mov(R1, Type::String("top".to_string())),
        Push(R1),
        Mov(R5, Type::UInt(4)),
        Call("std::print_amt".to_string()),
    ]);
    assert_eq!(runtime.run(&mut heap, 20), Err(Fault::FloatingPoint));
    assert_eq!(
        runtime.float_work(),
        Some(FloatWork::Texts(vec![Type::Float64(2f64.to_bits()), bits(1.5)]))
    );
    assert_eq!(
        runtime.float_done::<u32>(FloatResult::Texts(vec!["2".to_string()])),
        Err(Fault::TypeMismatch)
    );
    assert_eq!(
        runtime.float_done::<u32>(FloatResult::Texts(vec!["2".to_string(), "1.5".to_string()])),
        Ok(Tick::Host(HostRequest::Write("top\n2\n7\n1.5\n".to_string())))
    );
    assert_eq!(runtime.current, 10);
}
