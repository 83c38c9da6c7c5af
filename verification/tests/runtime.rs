use allot::Instruction::{Assert, Call, Cpy, Exit, Mov, Op};
use allot::Operation::Prim2;
use allot::Register::{R1, R10, R2, R3, R4, R5, R6, R7, R8, R9};
use allot::floats::{FloatResult, FloatWork};
use allot::{
    AllotRuntime, Fault, Heap, HostRequest, Instruction, OpPrim2, Tick, Type, ASSERT_FAILED,
};

/// Runs a program that starts no thread to its end, and gives its exit code
/// and what it wrote.
fn run_to_end(instructions: Vec<Instruction>) -> (i32, String) {
    let mut runtime = AllotRuntime::new(instructions);
    let mut heap: Heap<()> = Heap::new();
    let mut written = String::new();
    loop {
        match runtime.run(&mut heap, 1000) {
            Ok(Tick::Exit(code)) => return (code, written),
            Ok(Tick::Host(HostRequest::Write(text))) => written.push_str(&text),
            other => panic!("the program did not end: {:?}", other),
        }
    }
}

fn mov_program() -> Vec<Instruction> {
    vec![
        Mov(R1, Type::UInt(50)),
        Mov(R2, Type::Register(R1)),
        Assert(R1, Type::Nil),
        Assert(R2, Type::UInt(50)),
        Exit(Type::Int32(512)),
    ]
}

fn cpy_program() -> Vec<Instruction> {
    vec![
        Mov(R1, Type::UInt(50)),
        Assert(R1, Type::UInt(50)),
        Cpy(R2, R1),
        Assert(R2, Type::UInt(50)),
        Cpy(R3, R1),
        Assert(R3, Type::UInt(50)),
        Cpy(R4, R1),
        Assert(R4, Type::UInt(50)),
        Cpy(R5, R1),
        Assert(R5, Type::UInt(50)),
        Cpy(R6, R1),
        Assert(R6, Type::UInt(50)),
        Cpy(R7, R1),
        Assert(R7, Type::UInt(50)),
        Cpy(R8, R1),
        Assert(R8, Type::UInt(50)),
        Cpy(R9, R1),
        Assert(R9, Type::UInt(50)),
        Cpy(R10, R1),
        Assert(R10, Type::UInt(50)),
        Cpy(R2, R1),
        Assert(R2, Type::UInt(50)),
        Exit(Type::Int32(512)),
    ]
}

fn op_add_program(expected: usize) -> Vec<Instruction> {
    vec![
        Mov(R1, Type::UInt(50)),
        Mov(R2, Type::UInt(75)),
        Op(Prim2(OpPrim2::Add), [R1, R2]),
        Assert(R1, Type::UInt(expected)),
        Exit(Type::Int32(512)),
    ]
}

#[test]
fn tests_mov() {
    assert_eq!(run_to_end(mov_program()).0, 512);
}

#[test]
fn runtime_mov() {
    let mut runtime = AllotRuntime::new(mov_program());
    let mut heap: Heap<()> = Heap::new();
    assert_eq!(runtime.run(&mut heap, 5), Ok(Tick::Exit(512)));
}

#[test]
fn tests_cpy() {
    assert_eq!(run_to_end(cpy_program()).0, 512);
}

#[test]
fn runtime_cpy() {
    let mut runtime = AllotRuntime::new(cpy_program());
    let mut heap: Heap<()> = Heap::new();
    assert_eq!(runtime.run(&mut heap, 100), Ok(Tick::Exit(512)));
}

#[test]
fn tests_op_add() {
    assert_eq!(run_to_end(op_add_program(125)).0, 512);
}

#[test]
fn runtime_op_add() {
    let mut runtime = AllotRuntime::new(op_add_program(125));
    let mut heap: Heap<()> = Heap::new();
    assert_eq!(runtime.run(&mut heap, 100), Ok(Tick::Exit(512)));
}

/// Computes the texts that the library asks for, and nothing else.
fn float_texts(work: FloatWork) -> FloatResult {
    match work {
        FloatWork::Texts(values) => FloatResult::Texts(
            values
                .iter()
                .map(|value| match value {
                    Type::Float32(bits) => format!("{}", f32::from_bits(*bits)),
                    Type::Float64(bits) => format!("{}", f64::from_bits(*bits)),
                    other => panic!("no float: {:?}", other),
                })
                .collect(),
        ),
        other => panic!("no texts asked for: {:?}", other),
    }
}

#[test]
fn functions() {
    let mut runtime = AllotRuntime::new(vec![
        Mov(R9, Type::Float64(64.6464f64.to_bits())),
        Call("print".to_string()),
        Mov(R9, Type::String("This is a string!".to_string())),
        Call("println".to_string()),
        Exit(Type::Int32(512)),
    ]);
    let mut heap: Heap<()> = Heap::new();
    let mut written = String::new();
    let code = loop {
        match runtime.run(&mut heap, 1000) {
            Ok(Tick::Exit(code)) => break code,
            Ok(Tick::Host(HostRequest::Write(text))) => written.push_str(&text),
            Err(Fault::FloatingPoint) => {
                let result = float_texts(runtime.float_work().unwrap());
                match runtime.float_done::<()>(result) {
                    Ok(Tick::Host(HostRequest::Write(text))) => written.push_str(&text),
                    other => panic!("the float was not written: {:?}", other),
                }
            }
            other => panic!("the program did not end: {:?}", other),
        }
    };

    assert_eq!(code, 512);
    assert_eq!(written, "64.6464This is a string!\n");
}

#[test]
fn printing_a_float_needs_floating_point() {
    let mut runtime = AllotRuntime::new(vec![
        Mov(R9, Type::Float64(64.6464f64.to_bits())),
        Call("print".to_string()),
        Exit(Type::Int32(512)),
    ]);
    let mut heap: Heap<()> = Heap::new();
    assert_eq!(runtime.run(&mut heap, 100), Err(Fault::FloatingPoint));
    assert_eq!(runtime.current, 1);
    assert_eq!(runtime.registers.get(R9), &Type::Float64(64.6464f64.to_bits()));
}

#[test]
fn assert_mismatch_gives_failure_code() {
    assert_eq!(run_to_end(op_add_program(999)).0, ASSERT_FAILED);
    assert_eq!(ASSERT_FAILED, -1);
}

#[test]
fn assert_of_another_kind_gives_failure_code() {
    let (code, _) = run_to_end(vec![
        Mov(R1, Type::UInt(50)),
        Assert(R1, Type::UInt8(50)),
        Exit(Type::Int32(512)),
    ]);
    assert_eq!(code, ASSERT_FAILED);
}

#[test]
fn assert_compares_kind_and_payload() {
    let (code, _) = run_to_end(vec![
        allot::Instruction::Lea(R1, 7),
        Assert(R1, Type::Address(7)),
        Mov(R2, Type::Pointer(3)),
        Assert(R2, Type::Pointer(3)),
        Mov(R3, Type::String("a".to_string())),
        Assert(R3, Type::String("a".to_string())),
        Exit(Type::Int32(512)),
    ]);
    assert_eq!(code, 512);
    let (code, _) = run_to_end(vec![
        allot::Instruction::Lea(R1, 7),
        Assert(R1, Type::Address(8)),
        Exit(Type::Int32(512)),
    ]);
    assert_eq!(code, ASSERT_FAILED);
    let (code, _) = run_to_end(vec![
        allot::Instruction::Lea(R1, 7),
        Assert(R1, Type::Pointer(7)),
        Exit(Type::Int32(512)),
    ]);
    assert_eq!(code, ASSERT_FAILED);
}

#[test]
fn mov_cpy_end_to_end() {
    let (code, _) = run_to_end(vec![
        Mov(R1, Type::UInt(50)),
        Assert(R1, Type::UInt(50)),
        Cpy(R2, R1),
        Assert(R2, Type::UInt(50)),
        Exit(Type::Int32(512)),
    ]);
    assert_eq!(code, 512);
}

#[test]
fn println_writes_register_nine() {
    let mut runtime = AllotRuntime::new(vec![
        Mov(R9, Type::String("hi".to_string())),
        Call("println".to_string()),
        Exit(Type::Int32(0)),
    ]);
    let mut heap: Heap<()> = Heap::new();
    assert_eq!(
        runtime.run(&mut heap, 100),
        Ok(Tick::Host(HostRequest::Write("hi\n".to_string())))
    );
    assert_eq!(runtime.current, 2);
    for register in [R1, R2, R3, R4, R5, R6, R7, R8, R10] {
        assert_eq!(runtime.registers.get(register), &Type::Nil);
    }
    assert_eq!(runtime.registers.get(R9), &Type::String("hi".to_string()));
    assert_eq!(runtime.run(&mut heap, 100), Ok(Tick::Exit(0)));
}
