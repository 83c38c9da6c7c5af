use allot::assembly::{float_literal, parse};
use allot::{
    compile, lex, CompileError, Instruction, LexError, OpPrim1, OpPrim2, Operation, ParseError,
    RawInstruction, RawType, Register, Token, Type,
};

/// The tokens of a text in the order of the text.
fn tokens_of(text: &str) -> Vec<Token> {
    let mut tokens = lex(text).unwrap();
    tokens.reverse();
    tokens
}

#[test]
fn lex_gives_tokens_last_first() {
    assert_eq!(
        lex("mov r1 u8(7)"),
        Ok(vec![
            Token::Data("7".to_string()),
            Token::Type(RawType::UInt8),
            Token::Register(1),
            Token::Instruction(RawInstruction::Mov),
        ])
    );
}

#[test]
fn lex_reads_every_word() {
    assert_eq!(
        tokens_of("nop\nop + r1 r2\nret\npopframe\ntakefrom\ngiveto"),
        vec![
            Token::Instruction(RawInstruction::Nop),
            Token::Instruction(RawInstruction::Op),
            Token::Operation(Operation::Prim2(OpPrim2::Add)),
            Token::Register(1),
            Token::Register(2),
            Token::Instruction(RawInstruction::Ret),
            Token::Instruction(RawInstruction::PopFrame),
            Token::Instruction(RawInstruction::TakeFrom),
            Token::Instruction(RawInstruction::GiveTo),
        ]
    );
    assert_eq!(
        tokens_of("++ -- ! ~ + - * / % && || ^^ == != > < >= <= & | ^ << >> <>"),
        vec![
            Token::Operation(Operation::Prim1(OpPrim1::Increment)),
            Token::Operation(Operation::Prim1(OpPrim1::Decrement)),
            Token::Operation(Operation::Prim1(OpPrim1::Not)),
            Token::Operation(Operation::Prim1(OpPrim1::BitwiseNot)),
            Token::Operation(Operation::Prim2(OpPrim2::Add)),
            Token::Operation(Operation::Prim2(OpPrim2::Subtract)),
            Token::Operation(Operation::Prim2(OpPrim2::Multiplication)),
            Token::Operation(Operation::Prim2(OpPrim2::Division)),
            Token::Operation(Operation::Prim2(OpPrim2::Modulus)),
            Token::Operation(Operation::Prim2(OpPrim2::And)),
            Token::Operation(Operation::Prim2(OpPrim2::Or)),
            Token::Operation(Operation::Prim2(OpPrim2::Xor)),
            Token::Operation(Operation::Prim2(OpPrim2::Equal)),
            Token::Operation(Operation::Prim2(OpPrim2::NotEqual)),
            Token::Operation(Operation::Prim2(OpPrim2::Greater)),
            Token::Operation(Operation::Prim2(OpPrim2::Less)),
            Token::Operation(Operation::Prim2(OpPrim2::GreaterEqual)),
            Token::Operation(Operation::Prim2(OpPrim2::LessEqual)),
            Token::Operation(Operation::Prim2(OpPrim2::BitwiseAnd)),
            Token::Operation(Operation::Prim2(OpPrim2::BitwiseOr)),
            Token::Operation(Operation::Prim2(OpPrim2::BitwiseXor)),
            Token::Operation(Operation::Prim2(OpPrim2::ShiftLeft)),
            Token::Operation(Operation::Prim2(OpPrim2::ShiftRight)),
            Token::Operation(Operation::Prim2(OpPrim2::SameType)),
        ]
    );
    assert_eq!(
        tokens_of("none i8 i16 i32 isize i64 i128 u8 u16 u32 usize u64 u128 f32 f64 chr str bool add reg"),
        vec![
            Token::Type(RawType::Nil),
            Token::Type(RawType::Int8),
            Token::Type(RawType::Int16),
            Token::Type(RawType::Int32),
            Token::Type(RawType::Int),
            Token::Type(RawType::Int64),
            Token::Type(RawType::Int128),
            Token::Type(RawType::UInt8),
            Token::Type(RawType::UInt16),
            Token::Type(RawType::UInt32),
            Token::Type(RawType::UInt),
            Token::Type(RawType::UInt64),
            Token::Type(RawType::UInt128),
            Token::Type(RawType::Float32),
            Token::Type(RawType::Float64),
            Token::Type(RawType::Char),
            Token::Type(RawType::String),
            Token::Type(RawType::Boolean),
            Token::Type(RawType::Address),
            Token::Type(RawType::Register),
        ]
    );
}

#[test]
fn lex_needs_white_space_after_a_word() {
    // `popmany` is no `pop`, and `nopx` is no `nop`.
    assert_eq!(
        tokens_of("popmany u8(1)"),
        vec![
            Token::Instruction(RawInstruction::PopMany),
            Token::Type(RawType::UInt8),
            Token::Data("1".to_string()),
        ]
    );
    assert_eq!(tokens_of("nopx"), vec![]);
    // A kind needs none.
    assert_eq!(tokens_of("i8x"), vec![Token::Type(RawType::Int8)]);
}

#[test]
fn lex_goes_on_one_character_after_add_and_reg() {
    // After `reg` the lexer is at `e`, so `regiveto` also holds `giveto`.
    assert_eq!(
        tokens_of("regiveto"),
        vec![
            Token::Type(RawType::Register),
            Token::Instruction(RawInstruction::GiveTo),
        ]
    );
}

#[test]
fn lex_data_runs_to_the_last_close() {
    assert_eq!(
        tokens_of("call (a (b) c) ; (comment)"),
        vec![
            Token::Instruction(RawInstruction::Call),
            Token::Data("a (b) c) ; (comment".to_string()),
        ]
    );
    assert_eq!(
        tokens_of("  call (h\u{e9})  \n; only a comment\npush r29"),
        vec![
            Token::Instruction(RawInstruction::Call),
            Token::Data("h\u{e9}".to_string()),
            Token::Instruction(RawInstruction::Push),
            Token::Register(29),
        ]
    );
}

#[test]
fn lex_errors() {
    assert_eq!(lex("call (open"), Err(LexError::UnclosedData));
    assert_eq!(lex("push r256"), Err(LexError::InvalidRegister));
    assert_eq!(lex("push r255"), Ok(vec![Token::Register(255), Token::Instruction(RawInstruction::Push)]));
    assert_eq!(lex("nop \u{e9}"), Err(LexError::NotAscii));
    assert_eq!(lex(""), Ok(vec![]));
}

#[test]
fn compile_a_program() {
    let program = "\
mov r1 usize(50)
mov r2 usize(75)
op + r1 r2
assert r1 usize(125)
cpy r3 r1
cast r3 i8
lea r4 (7)
jmp r255 add(5)
jmp r6 reg(4)
call (println)
push r1
pushcpy r2
pop r255
pop r2
popmany usize(0)
stackcpy r5 usize(1)
pushframe (true)
popframe
threadcreate add(0)
threadjoin r5
mov r7 i128(-170141183460469231731687303715884105728)
mov r8 chr(x)
mov r9 str(hello world)
mov r10 bool(false)
mov r11 none()
mov r12 i16(+12)
ret
exit i32(-3)
";
    assert_eq!(
        compile(program.to_string()),
        Ok(vec![
            Instruction::Mov(Register::R1, Type::UInt(50)),
            Instruction::Mov(Register::R2, Type::UInt(75)),
            Instruction::Op(Operation::Prim2(OpPrim2::Add), [Register::R1, Register::R2]),
            Instruction::Assert(Register::R1, Type::UInt(125)),
            Instruction::Cpy(Register::R3, Register::R1),
            Instruction::Cast(Register::R3, RawType::Int8),
            Instruction::Lea(Register::R4, 7),
            Instruction::Jmp(None, Type::Address(5)),
            Instruction::Jmp(Some(Register::R6), Type::Register(Register::R4)),
            Instruction::Call("println".to_string()),
            Instruction::Push(Register::R1),
            Instruction::PushCpy(Register::R2),
            Instruction::Pop(None),
            Instruction::Pop(Some(Register::R2)),
            Instruction::PopMany(Type::UInt(0)),
            Instruction::StackCpy(Register::R5, Type::UInt(1)),
            Instruction::PushFrame(true),
            Instruction::PopFrame,
            Instruction::ThreadCreate(Type::Address(0)),
            Instruction::ThreadJoin(Register::R5),
            Instruction::Mov(Register::R7, Type::Int128(i128::MIN)),
            Instruction::Mov(Register::R8, Type::Char('x')),
            Instruction::Mov(Register::R9, Type::String("hello world".to_string())),
            Instruction::Mov(Register::R10, Type::Boolean(false)),
            Instruction::Mov(Register::R11, Type::Nil),
            Instruction::Mov(Register::R12, Type::Int16(12)),
            Instruction::Ret,
            Instruction::Exit(Type::Int32(-3)),
        ])
    );
}

#[test]
fn float_literals_are_taken_as_bits() {
    let mut tokens = lex("mov r1 f32(1.5)\nmov r2 f64(-2)\ncast r1 f64\nexit i32(0)").unwrap();
    let mut literals = Vec::new();
    for at in 0..tokens.len() {
        if let Some(kind) = float_literal(&tokens, at) {
            literals.push((at, kind, tokens[at].clone()));
        }
    }
    // The tokens stand last first: the second literal comes first.
    assert_eq!(
        literals,
        vec![
            (6, RawType::Float64, Token::Data("-2".to_string())),
            (10, RawType::Float32, Token::Data("1.5".to_string())),
        ]
    );
    assert_eq!(float_literal(&tokens, tokens.len()), None);
    assert_eq!(float_literal(&tokens, tokens.len() - 1), None);
    // Until the bits are there, the parser cannot go on.
    assert_eq!(parse(tokens.clone()), Err(ParseError::FloatingPoint));
    tokens[6] = Token::Bits((-2f64).to_bits());
    tokens[10] = Token::Bits(1.5f32.to_bits() as u64);
    assert_eq!(
        parse(tokens),
        Ok(vec![
            Instruction::Mov(Register::R1, Type::Float32(1.5f32.to_bits())),
            Instruction::Mov(Register::R2, Type::Float64((-2f64).to_bits())),
            Instruction::Cast(Register::R1, RawType::Float64),
            Instruction::Exit(Type::Int32(0)),
        ])
    );
}

#[test]
fn bits_stand_for_floats_only() {
    let value = |kind: RawType, token: Token| {
        parse(vec![
            token,
            Token::Type(kind),
            Token::Instruction(RawInstruction::Exit),
        ])
    };
    assert_eq!(
        value(RawType::Float64, Token::Bits(u64::MAX)),
        Ok(vec![Instruction::Exit(Type::Float64(u64::MAX))])
    );
    assert_eq!(
        value(RawType::Float32, Token::Bits(u32::MAX as u64)),
        Ok(vec![Instruction::Exit(Type::Float32(u32::MAX))])
    );
    assert_eq!(
        value(RawType::Float32, Token::Bits(u32::MAX as u64 + 1)),
        Err(ParseError::InvalidData)
    );
    assert_eq!(value(RawType::UInt64, Token::Bits(1)), Err(ParseError::UnexpectedToken));
    assert_eq!(value(RawType::Float32, Token::Register(1)), Err(ParseError::UnexpectedToken));
    assert_eq!(
        parse(vec![Token::Type(RawType::Float32), Token::Instruction(RawInstruction::Exit)]),
        Err(ParseError::MissingToken)
    );
}

#[test]
fn parse_errors() {
    let parse_text = |text: &str| parse(lex(text).unwrap());
    assert_eq!(parse_text("r1"), Err(ParseError::ExpectedInstruction));
    assert_eq!(parse_text("mov r1"), Err(ParseError::MissingToken));
    assert_eq!(parse_text("mov r1 u8"), Err(ParseError::MissingToken));
    assert_eq!(parse_text("mov u8 (1)"), Err(ParseError::UnexpectedToken));
    assert_eq!(parse_text("push r30"), Err(ParseError::InvalidRegister));
    assert_eq!(parse_text("mov r1 reg(30)"), Err(ParseError::InvalidRegister));
    assert_eq!(parse_text("mov r1 u8(256)"), Err(ParseError::InvalidData));
    assert_eq!(parse_text("mov r1 u8(-0)"), Err(ParseError::InvalidData));
    assert_eq!(parse_text("mov r1 i8(-129)"), Err(ParseError::InvalidData));
    assert_eq!(parse_text("mov r1 i8(-128)"), Ok(vec![Instruction::Mov(Register::R1, Type::Int8(-128))]));
    assert_eq!(parse_text("mov r1 i8(1 )"), Err(ParseError::InvalidData));
    assert_eq!(parse_text("mov r1 i8()"), Err(ParseError::InvalidData));
    assert_eq!(parse_text("mov r1 i8(+)"), Err(ParseError::InvalidData));
    assert_eq!(
        parse_text("mov r1 u128(340282366920938463463374607431768211455)"),
        Ok(vec![Instruction::Mov(Register::R1, Type::UInt128(u128::MAX))])
    );
    assert_eq!(
        parse_text("mov r1 u128(340282366920938463463374607431768211456)"),
        Err(ParseError::InvalidData)
    );
    assert_eq!(parse_text("mov r1 chr(ab)"), Err(ParseError::InvalidData));
    assert_eq!(parse_text("mov r1 bool(yes)"), Err(ParseError::InvalidData));
    assert_eq!(parse_text("pushframe (1)"), Err(ParseError::InvalidData));
    assert_eq!(parse_text("lea r1 (x)"), Err(ParseError::InvalidData));
    assert_eq!(parse_text("mov r1 f32(1.5)"), Err(ParseError::FloatingPoint));
    assert_eq!(
        parse(vec![
            Token::Data("1".to_string()),
            Token::Type(RawType::Pointer),
            Token::Register(1),
            Token::Instruction(RawInstruction::Mov),
        ]),
        Err(ParseError::UnsupportedType)
    );
    assert_eq!(
        parse(vec![Token::Register(1), Token::Instruction(RawInstruction::Dbg)]),
        Err(ParseError::UnsupportedInstruction)
    );
    assert_eq!(
        compile("mov r1 u8(256)".to_string()),
        Err(CompileError::Parse(ParseError::InvalidData))
    );
    assert_eq!(
        compile("call (".to_string()),
        Err(CompileError::Lex(LexError::UnclosedData))
    );
}
