use allot::{cast, Fault, OpPrim1, OpPrim2, RawType, Register, Type};

fn solve(op: OpPrim2, a: Type, b: Type) -> Result<Type, Fault> {
    op.solve(a, b)
}

#[test]
fn add_on_every_integer_kind() {
    assert_eq!(solve(OpPrim2::Add, Type::Int8(100), Type::Int8(27)), Ok(Type::Int8(127)));
    assert_eq!(solve(OpPrim2::Add, Type::Int16(-5), Type::Int16(3)), Ok(Type::Int16(-2)));
    assert_eq!(solve(OpPrim2::Add, Type::Int32(1), Type::Int32(2)), Ok(Type::Int32(3)));
    assert_eq!(solve(OpPrim2::Add, Type::Int(1), Type::Int(-2)), Ok(Type::Int(-1)));
    assert_eq!(solve(OpPrim2::Add, Type::Int64(1), Type::Int64(2)), Ok(Type::Int64(3)));
    assert_eq!(solve(OpPrim2::Add, Type::Int128(1), Type::Int128(2)), Ok(Type::Int128(3)));
    assert_eq!(solve(OpPrim2::Add, Type::UInt8(1), Type::UInt8(2)), Ok(Type::UInt8(3)));
    assert_eq!(solve(OpPrim2::Add, Type::UInt16(1), Type::UInt16(2)), Ok(Type::UInt16(3)));
    assert_eq!(solve(OpPrim2::Add, Type::UInt32(1), Type::UInt32(2)), Ok(Type::UInt32(3)));
    assert_eq!(solve(OpPrim2::Add, Type::UInt(50), Type::UInt(75)), Ok(Type::UInt(125)));
    assert_eq!(solve(OpPrim2::Add, Type::UInt64(1), Type::UInt64(2)), Ok(Type::UInt64(3)));
    assert_eq!(solve(OpPrim2::Add, Type::UInt128(1), Type::UInt128(2)), Ok(Type::UInt128(3)));
}

#[test]
fn sums_differences_and_products_wrap() {
    assert_eq!(solve(OpPrim2::Add, Type::Int8(127), Type::Int8(1)), Ok(Type::Int8(-128)));
    assert_eq!(solve(OpPrim2::Add, Type::UInt8(255), Type::UInt8(2)), Ok(Type::UInt8(1)));
    assert_eq!(solve(OpPrim2::Subtract, Type::UInt(0), Type::UInt(1)), Ok(Type::UInt(usize::MAX)));
    assert_eq!(solve(OpPrim2::Subtract, Type::Int128(i128::MIN), Type::Int128(1)), Ok(Type::Int128(i128::MAX)));
    assert_eq!(solve(OpPrim2::Multiplication, Type::Int16(300), Type::Int16(300)), Ok(Type::Int16(24464)));
    assert_eq!(solve(OpPrim2::Multiplication, Type::UInt64(u64::MAX), Type::UInt64(2)), Ok(Type::UInt64(u64::MAX - 1)));
    assert_eq!(solve(OpPrim2::Multiplication, Type::Int8(-128), Type::Int8(-1)), Ok(Type::Int8(-128)));
}

#[test]
fn add_then_subtract_gives_the_first_back() {
    let pairs = [
        (Type::Int8(127), Type::Int8(127)),
        (Type::Int8(-128), Type::Int8(-1)),
        (Type::UInt8(200), Type::UInt8(100)),
        (Type::Int(isize::MAX), Type::Int(isize::MAX)),
        (Type::UInt(usize::MAX), Type::UInt(1)),
        (Type::Int128(i128::MIN), Type::Int128(i128::MIN)),
        (Type::UInt128(u128::MAX), Type::UInt128(u128::MAX)),
        (Type::Int32(5), Type::Int32(-9)),
    ];
    for (a, b) in pairs {
        let sum = solve(OpPrim2::Add, a.clone(), b.clone()).unwrap();
        assert_eq!(solve(OpPrim2::Subtract, sum, b), Ok(a));
    }
}

#[test]
fn division_rounds_toward_zero() {
    assert_eq!(solve(OpPrim2::Division, Type::Int8(-7), Type::Int8(2)), Ok(Type::Int8(-3)));
    assert_eq!(solve(OpPrim2::Division, Type::Int8(7), Type::Int8(-2)), Ok(Type::Int8(-3)));
    assert_eq!(solve(OpPrim2::Division, Type::Int8(-7), Type::Int8(-2)), Ok(Type::Int8(3)));
    assert_eq!(solve(OpPrim2::Modulus, Type::Int8(-7), Type::Int8(2)), Ok(Type::Int8(-1)));
    assert_eq!(solve(OpPrim2::Modulus, Type::Int8(7), Type::Int8(-2)), Ok(Type::Int8(1)));
    assert_eq!(solve(OpPrim2::Division, Type::Int128(i128::MIN), Type::Int128(1)), Ok(Type::Int128(i128::MIN)));
    assert_eq!(solve(OpPrim2::Division, Type::Int128(i128::MIN), Type::Int128(-2)), Ok(Type::Int128(1 << 126)));
    assert_eq!(solve(OpPrim2::Division, Type::Int128(i128::MAX), Type::Int128(-1)), Ok(Type::Int128(i128::MIN + 1)));
    assert_eq!(solve(OpPrim2::Modulus, Type::Int128(i128::MIN), Type::Int128(3)), Ok(Type::Int128(i128::MIN % 3)));
    assert_eq!(solve(OpPrim2::Division, Type::UInt128(u128::MAX), Type::UInt128(2)), Ok(Type::UInt128(u128::MAX / 2)));
    assert_eq!(solve(OpPrim2::Modulus, Type::UInt(17), Type::UInt(5)), Ok(Type::UInt(2)));
    assert_eq!(solve(OpPrim2::Division, Type::Int64(i64::MIN), Type::Int64(2)), Ok(Type::Int64(i64::MIN / 2)));
}

#[test]
fn division_faults() {
    assert_eq!(solve(OpPrim2::Division, Type::Int8(1), Type::Int8(0)), Err(Fault::DivisionByZero));
    assert_eq!(solve(OpPrim2::Modulus, Type::UInt128(1), Type::UInt128(0)), Err(Fault::DivisionByZero));
    assert_eq!(solve(OpPrim2::Division, Type::Int8(-128), Type::Int8(-1)), Err(Fault::Overflow));
    assert_eq!(solve(OpPrim2::Modulus, Type::Int8(-128), Type::Int8(-1)), Err(Fault::Overflow));
    assert_eq!(solve(OpPrim2::Division, Type::Int(isize::MIN), Type::Int(-1)), Err(Fault::Overflow));
    assert_eq!(solve(OpPrim2::Division, Type::Int128(i128::MIN), Type::Int128(-1)), Err(Fault::Overflow));
    assert_eq!(solve(OpPrim2::Modulus, Type::Int128(i128::MIN), Type::Int128(-1)), Err(Fault::Overflow));
    assert_eq!(solve(OpPrim2::Division, Type::Char('a'), Type::Char('\0')), Err(Fault::DivisionByZero));
}

#[test]
fn operands_of_two_kinds_do_not_match() {
    let ops = [
        OpPrim2::Add, OpPrim2::Subtract, OpPrim2::Multiplication, OpPrim2::Division,
        OpPrim2::Modulus, OpPrim2::And, OpPrim2::Or, OpPrim2::Xor, OpPrim2::Equal,
        OpPrim2::NotEqual, OpPrim2::Greater, OpPrim2::Less, OpPrim2::GreaterEqual,
        OpPrim2::LessEqual, OpPrim2::BitwiseAnd, OpPrim2::BitwiseOr, OpPrim2::BitwiseXor,
    ];
    for op in ops {
        assert_eq!(solve(op, Type::UInt(1), Type::UInt8(1)), Err(Fault::TypeMismatch));
        assert_eq!(solve(op, Type::Int32(1), Type::Int64(1)), Err(Fault::TypeMismatch));
        assert_eq!(solve(op, Type::Boolean(true), Type::Nil), Err(Fault::TypeMismatch));
        assert_eq!(solve(op, Type::String("1".to_string()), Type::Char('1')), Err(Fault::TypeMismatch));
        assert_eq!(solve(op, Type::Float32(0), Type::Float64(0)), Err(Fault::TypeMismatch));
    }
    // A shift takes a `UInt` on the right, and nothing else.
    assert_eq!(solve(OpPrim2::ShiftLeft, Type::Int8(1), Type::Int8(1)), Err(Fault::TypeMismatch));
    assert_eq!(solve(OpPrim2::ShiftRight, Type::UInt8(1), Type::UInt64(1)), Err(Fault::TypeMismatch));
    assert_eq!(solve(OpPrim2::ShiftLeft, Type::Char('a'), Type::UInt(1)), Err(Fault::TypeMismatch));
    assert_eq!(solve(OpPrim2::ShiftLeft, Type::Boolean(true), Type::UInt(1)), Err(Fault::TypeMismatch));
}

#[test]
fn same_type_compares_kinds_only() {
    assert_eq!(solve(OpPrim2::SameType, Type::UInt(1), Type::UInt(2)), Ok(Type::Boolean(true)));
    assert_eq!(solve(OpPrim2::SameType, Type::UInt(1), Type::UInt8(1)), Ok(Type::Boolean(false)));
    assert_eq!(solve(OpPrim2::SameType, Type::Nil, Type::Nil), Ok(Type::Boolean(true)));
    assert_eq!(solve(OpPrim2::SameType, Type::Float32(1), Type::Float32(2)), Ok(Type::Boolean(true)));
    assert_eq!(solve(OpPrim2::SameType, Type::Pointer(1), Type::Address(1)), Ok(Type::Boolean(false)));
}

#[test]
fn shifts() {
    assert_eq!(solve(OpPrim2::ShiftLeft, Type::UInt8(1), Type::UInt(3)), Ok(Type::UInt8(8)));
    assert_eq!(solve(OpPrim2::ShiftLeft, Type::UInt8(0x81), Type::UInt(1)), Ok(Type::UInt8(2)));
    assert_eq!(solve(OpPrim2::ShiftRight, Type::Int8(-128), Type::UInt(7)), Ok(Type::Int8(-1)));
    assert_eq!(solve(OpPrim2::ShiftRight, Type::UInt8(0x80), Type::UInt(7)), Ok(Type::UInt8(1)));
    // The number of places is taken modulo the number of bits.
    assert_eq!(solve(OpPrim2::ShiftLeft, Type::UInt8(1), Type::UInt(9)), Ok(Type::UInt8(2)));
    assert_eq!(solve(OpPrim2::ShiftLeft, Type::Int128(1), Type::UInt(128)), Ok(Type::Int128(1)));
    assert_eq!(solve(OpPrim2::ShiftLeft, Type::UInt(1), Type::UInt(usize::BITS as usize + 1)), Ok(Type::UInt(2)));
    assert_eq!(solve(OpPrim2::ShiftRight, Type::UInt64(u64::MAX), Type::UInt(63)), Ok(Type::UInt64(1)));
}

#[test]
fn bitwise_operators() {
    assert_eq!(solve(OpPrim2::BitwiseAnd, Type::UInt8(0b1100), Type::UInt8(0b1010)), Ok(Type::UInt8(0b1000)));
    assert_eq!(solve(OpPrim2::BitwiseOr, Type::Int16(0b1100), Type::Int16(0b1010)), Ok(Type::Int16(0b1110)));
    assert_eq!(solve(OpPrim2::BitwiseXor, Type::Int(-1), Type::Int(1)), Ok(Type::Int(-2)));
    assert_eq!(solve(OpPrim2::BitwiseAnd, Type::Char('a'), Type::Char('b')), Err(Fault::TypeMismatch));
    assert_eq!(solve(OpPrim2::BitwiseAnd, Type::Boolean(true), Type::Boolean(true)), Err(Fault::TypeMismatch));
    assert_eq!(OpPrim1::BitwiseNot.solve(Type::UInt8(0b1010_0101)), Ok(Type::UInt8(0b0101_1010)));
    assert_eq!(OpPrim1::BitwiseNot.solve(Type::Int32(0)), Ok(Type::Int32(-1)));
    assert_eq!(OpPrim1::BitwiseNot.solve(Type::Boolean(true)), Err(Fault::TypeMismatch));
    assert_eq!(OpPrim1::BitwiseNot.solve(Type::Float32(1)), Err(Fault::TypeMismatch));
}

#[test]
fn logical_operators() {
    assert_eq!(solve(OpPrim2::And, Type::Boolean(true), Type::Boolean(false)), Ok(Type::Boolean(false)));
    assert_eq!(solve(OpPrim2::Or, Type::Boolean(true), Type::Boolean(false)), Ok(Type::Boolean(true)));
    assert_eq!(solve(OpPrim2::Xor, Type::Boolean(true), Type::Boolean(true)), Ok(Type::Boolean(false)));
    assert_eq!(solve(OpPrim2::And, Type::UInt8(1), Type::UInt8(1)), Err(Fault::TypeMismatch));
    assert_eq!(OpPrim1::Not.solve(Type::Boolean(true)), Ok(Type::Boolean(false)));
    assert_eq!(OpPrim1::Not.solve(Type::UInt8(1)), Err(Fault::TypeMismatch));
}

#[test]
fn comparisons() {
    assert_eq!(solve(OpPrim2::Greater, Type::Int8(1), Type::Int8(-1)), Ok(Type::Boolean(true)));
    assert_eq!(solve(OpPrim2::Less, Type::UInt128(1), Type::UInt128(2)), Ok(Type::Boolean(true)));
    assert_eq!(solve(OpPrim2::GreaterEqual, Type::Int(3), Type::Int(3)), Ok(Type::Boolean(true)));
    assert_eq!(solve(OpPrim2::LessEqual, Type::Int(4), Type::Int(3)), Ok(Type::Boolean(false)));
    assert_eq!(solve(OpPrim2::Equal, Type::Int(4), Type::Int(4)), Ok(Type::Boolean(true)));
    assert_eq!(solve(OpPrim2::NotEqual, Type::Int(4), Type::Int(4)), Ok(Type::Boolean(false)));
    assert_eq!(solve(OpPrim2::Greater, Type::Char('b'), Type::Char('a')), Ok(Type::Boolean(true)));
    assert_eq!(solve(OpPrim2::Equal, Type::Nil, Type::Nil), Ok(Type::Boolean(true)));
    assert_eq!(solve(OpPrim2::NotEqual, Type::Nil, Type::Nil), Ok(Type::Boolean(false)));
    assert_eq!(solve(OpPrim2::Equal, Type::Boolean(true), Type::Boolean(false)), Ok(Type::Boolean(false)));
    // Truth values and `Nil` have no order, addresses and pointers no comparison at all.
    assert_eq!(solve(OpPrim2::Greater, Type::Boolean(true), Type::Boolean(false)), Err(Fault::TypeMismatch));
    assert_eq!(solve(OpPrim2::Less, Type::Nil, Type::Nil), Err(Fault::TypeMismatch));
    assert_eq!(solve(OpPrim2::Equal, Type::Address(1), Type::Address(1)), Err(Fault::TypeMismatch));
    assert_eq!(solve(OpPrim2::Equal, Type::Pointer(1), Type::Pointer(1)), Err(Fault::TypeMismatch));
    assert_eq!(solve(OpPrim2::Equal, Type::Register(Register::R1), Type::Register(Register::R1)), Err(Fault::TypeMismatch));
}

#[test]
fn texts_are_compared_lexicographically() {
    let text = |s: &str| Type::String(s.to_string());
    assert_eq!(solve(OpPrim2::Less, text("abc"), text("abd")), Ok(Type::Boolean(true)));
    assert_eq!(solve(OpPrim2::Less, text("ab"), text("abc")), Ok(Type::Boolean(true)));
    assert_eq!(solve(OpPrim2::Greater, text("b"), text("abc")), Ok(Type::Boolean(true)));
    assert_eq!(solve(OpPrim2::Greater, text("abc"), text("abd")), Ok(Type::Boolean(false)));
    assert_eq!(solve(OpPrim2::GreaterEqual, text("abc"), text("abc")), Ok(Type::Boolean(true)));
    assert_eq!(solve(OpPrim2::LessEqual, text("abd"), text("abc")), Ok(Type::Boolean(false)));
    assert_eq!(solve(OpPrim2::Less, text("z"), text("\u{e9}")), Ok(Type::Boolean(true)));
    assert_eq!(solve(OpPrim2::Equal, text("abc"), text("abc")), Ok(Type::Boolean(true)));
    assert_eq!(solve(OpPrim2::NotEqual, text("abc"), text("abd")), Ok(Type::Boolean(true)));
    assert_eq!(solve(OpPrim2::Add, text("ab"), text("cd")), Ok(text("abcd")));
    assert_eq!(solve(OpPrim2::Subtract, text("ab"), text("cd")), Err(Fault::TypeMismatch));
}

#[test]
fn characters_follow_their_numbers() {
    assert_eq!(solve(OpPrim2::Add, Type::Char('a'), Type::Char('\u{1}')), Ok(Type::Char('b')));
    assert_eq!(solve(OpPrim2::Subtract, Type::Char('b'), Type::Char('\u{1}')), Ok(Type::Char('a')));
    assert_eq!(solve(OpPrim2::Multiplication, Type::Char('\u{2}'), Type::Char('!')), Ok(Type::Char('B')));
    assert_eq!(solve(OpPrim2::Division, Type::Char('B'), Type::Char('\u{2}')), Ok(Type::Char('!')));
    assert_eq!(solve(OpPrim2::Modulus, Type::Char('C'), Type::Char('\u{2}')), Ok(Type::Char('\u{1}')));
    assert_eq!(solve(OpPrim2::Subtract, Type::Char('a'), Type::Char('b')), Err(Fault::InvalidChar));
    assert_eq!(solve(OpPrim2::Add, Type::Char('\u{D7FF}'), Type::Char('\u{1}')), Err(Fault::InvalidChar));
    assert_eq!(solve(OpPrim2::Add, Type::Char('\u{10FFFF}'), Type::Char('\u{1}')), Err(Fault::InvalidChar));
    assert_eq!(OpPrim1::Increment.solve(Type::Char('a')), Ok(Type::Char('b')));
    assert_eq!(OpPrim1::Decrement.solve(Type::Char('b')), Ok(Type::Char('a')));
    assert_eq!(OpPrim1::Decrement.solve(Type::Char('\0')), Err(Fault::InvalidChar));
    assert_eq!(OpPrim1::Increment.solve(Type::Char('\u{10FFFF}')), Err(Fault::InvalidChar));
}

#[test]
fn increment_and_decrement() {
    assert_eq!(OpPrim1::Increment.solve(Type::Int8(1)), Ok(Type::Int8(2)));
    assert_eq!(OpPrim1::Increment.solve(Type::UInt8(255)), Ok(Type::UInt8(0)));
    assert_eq!(OpPrim1::Decrement.solve(Type::UInt(0)), Ok(Type::UInt(usize::MAX)));
    assert_eq!(OpPrim1::Decrement.solve(Type::Int128(i128::MIN)), Ok(Type::Int128(i128::MAX)));
    assert_eq!(OpPrim1::Increment.solve(Type::Boolean(true)), Err(Fault::TypeMismatch));
    assert_eq!(OpPrim1::Increment.solve(Type::String("a".to_string())), Err(Fault::TypeMismatch));
    assert_eq!(OpPrim1::Increment.solve(Type::Nil), Err(Fault::TypeMismatch));
}

#[test]
fn floats_are_left_to_the_embedding_program() {
    assert_eq!(solve(OpPrim2::Add, Type::Float32(1), Type::Float32(2)), Err(Fault::FloatingPoint));
    assert_eq!(solve(OpPrim2::Equal, Type::Float64(1), Type::Float64(1)), Err(Fault::FloatingPoint));
    assert_eq!(solve(OpPrim2::Less, Type::Float64(1), Type::Float64(1)), Err(Fault::FloatingPoint));
    assert_eq!(solve(OpPrim2::And, Type::Float64(1), Type::Float64(1)), Err(Fault::TypeMismatch));
    assert_eq!(solve(OpPrim2::BitwiseAnd, Type::Float64(1), Type::Float64(1)), Err(Fault::TypeMismatch));
    assert_eq!(OpPrim1::Increment.solve(Type::Float32(1)), Err(Fault::FloatingPoint));
    assert_eq!(OpPrim1::Decrement.solve(Type::Float64(1)), Err(Fault::FloatingPoint));
    assert_eq!(cast(&Type::Float32(1), RawType::Int8), Err(Fault::FloatingPoint));
    assert_eq!(cast(&Type::Int8(1), RawType::Float64), Err(Fault::FloatingPoint));
    assert_eq!(cast(&Type::Float32(1), RawType::String), Err(Fault::FloatingPoint));
    assert_eq!(cast(&Type::Float32(7), RawType::Float32), Ok(Type::Float32(7)));
    assert_eq!(cast(&Type::Float32(7), RawType::Pointer), Err(Fault::UnsupportedCast));
}

#[test]
fn casts_between_integers_wrap() {
    assert_eq!(cast(&Type::Int32(-1), RawType::UInt8), Ok(Type::UInt8(255)));
    assert_eq!(cast(&Type::Int32(300), RawType::UInt8), Ok(Type::UInt8(44)));
    assert_eq!(cast(&Type::Int32(200), RawType::Int8), Ok(Type::Int8(-56)));
    assert_eq!(cast(&Type::UInt8(200), RawType::Int8), Ok(Type::Int8(-56)));
    assert_eq!(cast(&Type::Int8(-1), RawType::UInt128), Ok(Type::UInt128(u128::MAX)));
    assert_eq!(cast(&Type::UInt128(u128::MAX), RawType::Int128), Ok(Type::Int128(-1)));
    assert_eq!(cast(&Type::UInt128(u128::MAX), RawType::Int8), Ok(Type::Int8(-1)));
    assert_eq!(cast(&Type::UInt128(u128::MAX), RawType::UInt64), Ok(Type::UInt64(u64::MAX)));
    assert_eq!(cast(&Type::Int128(i128::MIN), RawType::Int64), Ok(Type::Int64(0)));
    assert_eq!(cast(&Type::Int128(i128::MIN), RawType::UInt128), Ok(Type::UInt128(1 << 127)));
    assert_eq!(cast(&Type::Int128(-129), RawType::Int8), Ok(Type::Int8(127)));
    assert_eq!(cast(&Type::Int64(-1), RawType::UInt), Ok(Type::UInt(usize::MAX)));
    assert_eq!(cast(&Type::UInt(usize::MAX), RawType::Int), Ok(Type::Int(-1)));
    assert_eq!(cast(&Type::Int16(-2), RawType::Int64), Ok(Type::Int64(-2)));
    assert_eq!(cast(&Type::Int16(-2), RawType::Int16), Ok(Type::Int16(-2)));
    assert_eq!(cast(&Type::Int64(i64::MIN), RawType::Int32), Ok(Type::Int32(0)));
    assert_eq!(cast(&Type::Int64(-3), RawType::UInt16), Ok(Type::UInt16(65533)));
}

#[test]
fn casts_of_characters_truth_values_and_texts() {
    assert_eq!(cast(&Type::Char('A'), RawType::UInt8), Ok(Type::UInt8(65)));
    assert_eq!(cast(&Type::Char('\u{1F600}'), RawType::UInt8), Ok(Type::UInt8(0)));
    assert_eq!(cast(&Type::Char('\u{1F600}'), RawType::UInt32), Ok(Type::UInt32(0x1F600)));
    assert_eq!(cast(&Type::UInt8(65), RawType::Char), Ok(Type::Char('A')));
    assert_eq!(cast(&Type::Int128(0x10FFFF), RawType::Char), Ok(Type::Char('\u{10FFFF}')));
    assert_eq!(cast(&Type::UInt32(0xD800), RawType::Char), Err(Fault::InvalidChar));
    assert_eq!(cast(&Type::Int8(-1), RawType::Char), Err(Fault::InvalidChar));
    assert_eq!(cast(&Type::UInt128(u128::MAX), RawType::Char), Err(Fault::InvalidChar));
    assert_eq!(cast(&Type::Boolean(true), RawType::Int8), Ok(Type::Int8(1)));
    assert_eq!(cast(&Type::Boolean(false), RawType::UInt128), Ok(Type::UInt128(0)));
    assert_eq!(cast(&Type::Boolean(true), RawType::Char), Err(Fault::UnsupportedCast));
    assert_eq!(cast(&Type::UInt8(1), RawType::Boolean), Err(Fault::UnsupportedCast));
    assert_eq!(cast(&Type::String("1".to_string()), RawType::UInt8), Ok(Type::UInt8(1)));
    assert_eq!(cast(&Type::String("-128".to_string()), RawType::Int8), Ok(Type::Int8(-128)));
    assert_eq!(cast(&Type::String("+7".to_string()), RawType::Int128), Ok(Type::Int128(7)));
    assert_eq!(cast(&Type::String("-129".to_string()), RawType::Int8), Err(Fault::UnsupportedCast));
    assert_eq!(cast(&Type::String("-1".to_string()), RawType::UInt8), Err(Fault::UnsupportedCast));
    assert_eq!(cast(&Type::String(" 1".to_string()), RawType::UInt8), Err(Fault::UnsupportedCast));
    assert_eq!(cast(&Type::String(String::new()), RawType::UInt8), Err(Fault::UnsupportedCast));
    assert_eq!(cast(&Type::String("a".to_string()), RawType::Char), Ok(Type::Char('a')));
    assert_eq!(cast(&Type::String("ab".to_string()), RawType::Char), Err(Fault::UnsupportedCast));
    assert_eq!(cast(&Type::String(String::new()), RawType::Char), Err(Fault::UnsupportedCast));
    assert_eq!(cast(&Type::String("true".to_string()), RawType::Boolean), Err(Fault::UnsupportedCast));
    assert_eq!(cast(&Type::String("a".to_string()), RawType::String), Ok(Type::String("a".to_string())));
    assert_eq!(cast(&Type::Int8(-128), RawType::String), Ok(Type::String("-128".to_string())));
    assert_eq!(cast(&Type::UInt128(u128::MAX), RawType::String), Ok(Type::String(u128::MAX.to_string())));
    assert_eq!(cast(&Type::Int128(i128::MIN), RawType::String), Ok(Type::String(i128::MIN.to_string())));
    assert_eq!(cast(&Type::Char('x'), RawType::String), Ok(Type::String("x".to_string())));
    assert_eq!(cast(&Type::Boolean(true), RawType::String), Ok(Type::String("true".to_string())));
    assert_eq!(cast(&Type::Boolean(false), RawType::String), Ok(Type::String("false".to_string())));
    assert_eq!(cast(&Type::Nil, RawType::String), Err(Fault::UnsupportedCast));
    assert_eq!(cast(&Type::Nil, RawType::Nil), Ok(Type::Nil));
    assert_eq!(cast(&Type::Address(1), RawType::UInt), Err(Fault::UnsupportedCast));
    assert_eq!(cast(&Type::UInt(1), RawType::Pointer), Err(Fault::UnsupportedCast));
}

#[test]
fn text_of_values() {
    assert_eq!(Type::Nil.to_text(), Ok(String::new()));
    assert_eq!(Type::Int(0).to_text(), Ok("0".to_string()));
    assert_eq!(Type::Int64(-1234567890).to_text(), Ok("-1234567890".to_string()));
    assert_eq!(Type::UInt16(65535).to_text(), Ok("65535".to_string()));
    assert_eq!(Type::Pointer(255).to_text(), Ok("FF".to_string()));
    assert_eq!(Type::Address(0).to_text(), Ok("0".to_string()));
    assert_eq!(Type::Address(0xABCDEF).to_text(), Ok("ABCDEF".to_string()));
    assert_eq!(Type::Register(Register::R29).to_text(), Ok("R29".to_string()));
    assert_eq!(Type::Register(Register::Nil).to_text(), Ok("None".to_string()));
    assert_eq!(Type::Float32(0).to_text(), Err(Fault::FloatingPoint));
    assert_eq!(Type::Char('\u{e9}').to_text(), Ok("\u{e9}".to_string()));
}

#[test]
fn kinds_and_copies() {
    assert_eq!(Type::Nil.to_raw(), RawType::Nil);
    assert_eq!(Type::Float64(0).to_raw(), RawType::Float64);
    assert_eq!(Type::String(String::new()).to_raw(), RawType::String);
    assert_eq!(Type::Register(Register::R1).to_raw(), RawType::Register);
    let text = Type::String("copy".to_string());
    assert_eq!(text.copy(), text);
    assert!(text.same(&text.copy()));
    assert!(!text.same(&Type::String("other".to_string())));
    assert!(Type::Address(1).same(&Type::Address(1)));
    assert!(!Type::Address(1).same(&Type::Pointer(1)));
    assert!(Type::Nil.same(&Type::Nil));
    assert!(Type::Float32(7).is_float());
    assert!(!Type::UInt32(7).is_float());
    assert!(Type::Register(Register::R1).is_register());
    assert!(!Type::Nil.is_register());
}
