use allot::{gen, parse, Buffer, BytecodeError, Instruction, OpPrim1, OpPrim2, Operation, RawType, Register, Type};

#[test]
fn gen_parse() {
    let i = vec![
        Instruction::Mov(Register::R9, Type::String("Hello!".to_string())),
        Instruction::Call("println".to_string()),
        Instruction::Exit(Type::Int32(0)),
    ];

    let bytecode = gen(i);
    let i = parse(bytecode).unwrap();

    assert_eq!(
        i,
        vec![
            Instruction::Mov(Register::R9, Type::String("Hello!".to_string())),
            Instruction::Call("println".to_string()),
            Instruction::Exit(Type::Int32(0))
        ]
    );
}

#[test]
fn gen_writes_version_and_records() {
    let bytes = gen(vec![
        Instruction::Nop,
        Instruction::Lea(Register::R3, 0x0102),
        Instruction::Pop(None),
        Instruction::PushFrame(true),
        Instruction::Exit(Type::Int32(-2)),
    ]);
    assert_eq!(
        bytes,
        vec![
            0, 0, 0, 0, 0, 0, 0, 0, // version
            0, // Nop
            5, 3, 2, 1, 0, 0, 0, 0, 0, 0, // Lea R3, 0x0102
            12, 255, // Pop without a register
            15, 1, // PushFrame(true)
            9, 3, 0xFE, 0xFF, 0xFF, 0xFF, // Exit Int32(-2)
        ]
    );
}

#[test]
fn every_instruction_round_trips() {
    let program = vec![
        Instruction::Nop,
        Instruction::Op(Operation::Prim2(OpPrim2::ShiftLeft), [Register::R0, Register::R29]),
        Instruction::Op(Operation::Prim1(OpPrim1::Not), [Register::R1, Register::Nil]),
        Instruction::Mov(Register::R1, Type::Nil),
        Instruction::Mov(Register::R1, Type::Int8(-128)),
        Instruction::Mov(Register::R1, Type::Int16(-2)),
        Instruction::Mov(Register::R1, Type::Int32(i32::MIN)),
        Instruction::Mov(Register::R1, Type::Int(-3)),
        Instruction::Mov(Register::R1, Type::Int64(i64::MAX)),
        Instruction::Mov(Register::R1, Type::Int128(i128::MIN)),
        Instruction::Mov(Register::R1, Type::UInt8(255)),
        Instruction::Mov(Register::R1, Type::UInt16(65535)),
        Instruction::Mov(Register::R1, Type::UInt32(7)),
        Instruction::Mov(Register::R1, Type::UInt(usize::MAX)),
        Instruction::Mov(Register::R1, Type::UInt64(u64::MAX)),
        Instruction::Mov(Register::R1, Type::UInt128(u128::MAX)),
        Instruction::Mov(Register::R1, Type::Float32(1.5f32.to_bits())),
        Instruction::Mov(Register::R1, Type::Float64(64.6464f64.to_bits())),
        Instruction::Mov(Register::R1, Type::Char('\u{10FFFF}')),
        Instruction::Mov(Register::R1, Type::String("h\u{e9}llo \u{1F600}".to_string())),
        Instruction::Mov(Register::R1, Type::Boolean(true)),
        Instruction::Mov(Register::R1, Type::Address(9)),
        Instruction::Mov(Register::R1, Type::Pointer(10)),
        Instruction::Mov(Register::R1, Type::Register(Register::R2)),
        Instruction::Cpy(Register::R2, Register::R1),
        Instruction::Cast(Register::R2, RawType::UInt128),
        Instruction::Lea(Register::R2, 77),
        Instruction::Jmp(None, Type::Address(3)),
        Instruction::Jmp(Some(Register::R4), Type::Register(Register::R5)),
        Instruction::Ret,
        Instruction::Call("heap::free".to_string()),
        Instruction::Exit(Type::Register(Register::R5)),
        Instruction::Push(Register::R6),
        Instruction::PushCpy(Register::R6),
        Instruction::Pop(Some(Register::R7)),
        Instruction::Pop(None),
        Instruction::PopMany(Type::UInt(2)),
        Instruction::StackCpy(Register::R8, Type::UInt(0)),
        Instruction::PushFrame(false),
        Instruction::PopFrame,
        Instruction::TakeFrom,
        Instruction::GiveTo,
        Instruction::ThreadCreate(Type::Address(1)),
        Instruction::ThreadJoin(Register::R5),
        Instruction::Assert(Register::R1, Type::Boolean(false)),
        Instruction::Dbg(Register::R1),
        Instruction::Dump(0b1010),
    ];
    assert_eq!(parse(gen(program.clone())), Ok(program));
}

#[test]
fn parse_rejects_what_is_no_program() {
    assert_eq!(parse(vec![]), Err(BytecodeError::Truncated));
    assert_eq!(parse(vec![0; 7]), Err(BytecodeError::Truncated));
    assert_eq!(parse(vec![1, 0, 0, 0, 0, 0, 0, 0]), Err(BytecodeError::Version));
    // The version is refused before anything after it is looked at.
    assert_eq!(parse(vec![1, 0, 0, 0, 0, 0, 0, 0, 99]), Err(BytecodeError::Version));
    assert_eq!(parse(vec![0; 8]), Ok(vec![]));
    let with = |tail: &[u8]| {
        let mut bytes = vec![0u8; 8];
        bytes.extend_from_slice(tail);
        parse(bytes)
    };
    assert_eq!(with(&[22]), Err(BytecodeError::InvalidInstruction));
    assert_eq!(with(&[10, 30]), Err(BytecodeError::InvalidRegister));
    assert_eq!(with(&[10]), Err(BytecodeError::Truncated));
    assert_eq!(with(&[9, 21]), Err(BytecodeError::InvalidType));
    assert_eq!(with(&[1, 4, 0, 0]), Err(BytecodeError::InvalidOperation));
    assert_eq!(with(&[9, 15, 0, 0xD8, 0, 0]), Err(BytecodeError::InvalidChar));
    assert_eq!(
        with(&[8, 1, 0, 0, 0, 0, 0, 0, 0, 0xFF]),
        Err(BytecodeError::InvalidText)
    );
    assert_eq!(
        with(&[8, 2, 0, 0, 0, 0, 0, 0, 0, b'a']),
        Err(BytecodeError::Truncated)
    );
    // Any byte but zero is read as `true`.
    assert_eq!(with(&[15, 2]), Ok(vec![Instruction::PushFrame(true)]));
}

#[test]
fn buffer_numbers_are_little_endian() {
    let mut buffer = Buffer::new();
    assert!(buffer.is_empty());
    buffer.write_u16(0x0102);
    buffer.write_i8(-1);
    buffer.write_i32(-2);
    buffer.write_u64(0x0102030405060708);
    buffer.write_i128(-1);
    buffer.write_u128(1);
    buffer.write_i16(i16::MIN);
    buffer.write_i64(i64::MIN);
    buffer.write_u32(0xDEADBEEF);
    buffer.write_u8(9);
    buffer.write_char('A');
    buffer.write_bool(true);
    buffer.write_str("h\u{e9}");
    buffer.write_string(&"ok".to_string());
    let bytes = buffer.clone().into_bytes();
    assert_eq!(&bytes[0..3], &[2, 1, 0xFF]);
    assert_eq!(&bytes[3..7], &[0xFE, 0xFF, 0xFF, 0xFF]);
    assert_eq!(&bytes[7..15], &[8, 7, 6, 5, 4, 3, 2, 1]);
    assert!(!buffer.is_empty());
    assert_eq!(buffer.read_u16(), 0x0102);
    assert_eq!(buffer.read_i8(), -1);
    assert_eq!(buffer.read_i32(), -2);
    assert_eq!(buffer.read_u64(), 0x0102030405060708);
    assert_eq!(buffer.read_i128(), -1);
    assert_eq!(buffer.read_u128(), 1);
    assert_eq!(buffer.read_i16(), i16::MIN);
    assert_eq!(buffer.read_i64(), i64::MIN);
    assert_eq!(buffer.read_u32(), 0xDEADBEEF);
    assert_eq!(buffer.read_u8(), 9);
    assert_eq!(buffer.read_char(), 'A');
    assert!(buffer.read_bool());
    assert_eq!(buffer.len(), 8 + 3 + 8 + 2);
    assert_eq!(buffer.read_str(), "h\u{e9}");
    assert_eq!(buffer.read_string(), "ok");
    assert!(buffer.is_empty());
    let raw = Buffer::with(vec![1, 2, 3]);
    assert_eq!(raw.into_bytes(), vec![1, 2, 3]);
}
