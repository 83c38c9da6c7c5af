//! The parser: from the tokens of a program to its instructions.
//!
//! The tokens stand in the reverse order of the text, so that the next one
//! is taken off the end. An instruction is its word and then its operands:
//! registers, an operator, a kind, data, or a value, which is a kind and the
//! data that says which value of the kind it is.

use vstd::prelude::*;
use crate::assembly::lexer::{token_views, Token, TokenView};
use crate::numbers::{integer_of, read_integer};
use crate::chars::same_chars;
use crate::text::chars_of;
use crate::bytecode::format::{with_register, with_register_and_type, with_type};
use crate::instructions::{Instruction, InstructionView, RawInstruction};
use crate::operations::Operation;
use crate::register::Register;
use crate::rules::of_integer;
use crate::types::{RawType, Type, Value};

verus! {

/// Why tokens are no program.
#[derive(Clone, Copy, Debug, PartialEq, Eq, Hash, Structural)]
pub enum ParseError {
    /// A token that is no instruction stands where an instruction begins.
    ExpectedInstruction,
    /// The tokens end before an instruction has its operands.
    MissingToken,
    /// An operand is a token of another sort than the instruction takes.
    UnexpectedToken,
    /// A number names no register.
    InvalidRegister,
    /// Data does not say a value of the kind it is meant for.
    InvalidData,
    /// A value of this kind cannot be written in a program's text.
    UnsupportedType,
    /// Data says a floating-point number, and the embedding program has
    /// not put the number's bits in its place.
    FloatingPoint,
    /// The instruction cannot be written in a program's text.
    UnsupportedInstruction,
}

/// Something that was taken off the end of tokens, and the tokens before
/// it.
pub struct Taken<T> {
    pub value: T,
    pub rest: Seq<TokenView>,
}

/// The truth value that a text says.
pub open spec fn truth_of(text: Seq<char>) -> Option<bool> {
    if text == "true"@ {
        Some(true)
    } else if text == "false"@ {
        Some(false)
    } else {
        None
    }
}

/// The value of a kind that data says.
pub open spec fn value_of(kind: RawType, data: Seq<char>) -> Result<Value, ParseError> {
    match kind {
        RawType::Nil => Ok(Value::Nil),
        RawType::Float32 | RawType::Float64 => Err(ParseError::FloatingPoint),
        RawType::Char => if data.len() == 1 {
            Ok(Value::Char(data[0]))
        } else {
            Err(ParseError::InvalidData)
        },
        RawType::String => Ok(Value::String(data)),
        RawType::Boolean => match truth_of(data) {
            Some(b) => Ok(Value::Boolean(b)),
            None => Err(ParseError::InvalidData),
        },
        RawType::Address => match integer_of(RawType::UInt, data) {
            Some(i) => Ok(Value::Address(i as usize)),
            None => Err(ParseError::InvalidData),
        },
        RawType::Pointer => Err(ParseError::UnsupportedType),
        RawType::Register => match integer_of(RawType::UInt8, data) {
            Some(i) => match Register::numbered(i as u8) {
                Some(r) => Ok(Value::Register(r)),
                None => Err(ParseError::InvalidRegister),
            },
            None => Err(ParseError::InvalidData),
        },
        _ => match integer_of(kind, data) {
            Some(i) => Ok(of_integer(kind, i)),
            None => Err(ParseError::InvalidData),
        },
    }
}

/// The register at the end of the tokens.
pub open spec fn register_token(tokens: Seq<TokenView>) -> Result<Taken<Register>, ParseError> {
    if tokens.len() == 0 {
        Err(ParseError::MissingToken)
    } else {
        match tokens.last() {
            TokenView::Register(n) => match Register::numbered(n) {
                Some(r) => Ok(Taken { value: r, rest: tokens.drop_last() }),
                None => Err(ParseError::InvalidRegister),
            },
            _ => Err(ParseError::UnexpectedToken),
        }
    }
}

/// The register at the end of the tokens, or none where it is `Nil`.
pub open spec fn optional_register_token(tokens: Seq<TokenView>) -> Result<
    Taken<Option<Register>>,
    ParseError,
> {
    match register_token(tokens) {
        Err(e) => Err(e),
        Ok(taken) => Ok(
            Taken {
                value: if taken.value.is_slot() {
                    Some(taken.value)
                } else {
                    None
                },
                rest: taken.rest,
            },
        ),
    }
}

/// The kind at the end of the tokens.
pub open spec fn kind_token(tokens: Seq<TokenView>) -> Result<Taken<RawType>, ParseError> {
    if tokens.len() == 0 {
        Err(ParseError::MissingToken)
    } else {
        match tokens.last() {
            TokenView::Type(t) => Ok(Taken { value: t, rest: tokens.drop_last() }),
            _ => Err(ParseError::UnexpectedToken),
        }
    }
}

/// The operator at the end of the tokens.
pub open spec fn operation_token(tokens: Seq<TokenView>) -> Result<Taken<Operation>, ParseError> {
    if tokens.len() == 0 {
        Err(ParseError::MissingToken)
    } else {
        match tokens.last() {
            TokenView::Operation(o) => Ok(Taken { value: o, rest: tokens.drop_last() }),
            _ => Err(ParseError::UnexpectedToken),
        }
    }
}

/// The data at the end of the tokens.
pub open spec fn data_token(tokens: Seq<TokenView>) -> Result<Taken<Seq<char>>, ParseError> {
    if tokens.len() == 0 {
        Err(ParseError::MissingToken)
    } else {
        match tokens.last() {
            TokenView::Data(d) => Ok(Taken { value: d, rest: tokens.drop_last() }),
            _ => Err(ParseError::UnexpectedToken),
        }
    }
}

/// The floating-point value of a kind with the given bits: the bits
/// themselves for a `Float64`, and the bits as a `u32`, which they must fit,
/// for a `Float32`.
pub open spec fn float_of_bits(kind: RawType, bits: u64) -> Result<Value, ParseError> {
    if kind is Float64 {
        Ok(Value::Float64(bits))
    } else if bits <= u32::MAX {
        Ok(Value::Float32(bits as u32))
    } else {
        Err(ParseError::InvalidData)
    }
}

/// The floating-point value of a kind at the end of the tokens: the bits
/// that stand there. Data that stands there has yet to be read.
pub open spec fn float_token(kind: RawType, tokens: Seq<TokenView>) -> Result<
    Taken<Value>,
    ParseError,
> {
    if tokens.len() == 0 {
        Err(ParseError::MissingToken)
    } else {
        match tokens.last() {
            TokenView::Bits(bits) => match float_of_bits(kind, bits) {
                Ok(v) => Ok(Taken { value: v, rest: tokens.drop_last() }),
                Err(e) => Err(e),
            },
            TokenView::Data(_) => Err(ParseError::FloatingPoint),
            _ => Err(ParseError::UnexpectedToken),
        }
    }
}

/// The value at the end of the tokens: a kind, and after it the bits of the
/// value for a floating-point kind, and the data that says the value for
/// every other kind.
pub open spec fn value_tokens(tokens: Seq<TokenView>) -> Result<Taken<Value>, ParseError> {
    match kind_token(tokens) {
        Err(e) => Err(e),
        Ok(kind) => if kind.value.is_float() {
            float_token(kind.value, kind.rest)
        } else {
            match data_token(kind.rest) {
                Err(e) => Err(e),
                Ok(data) => match value_of(kind.value, data.value) {
                    Ok(v) => Ok(Taken { value: v, rest: data.rest }),
                    Err(e) => Err(e),
                },
            }
        },
    }
}

/// The floating-point kind whose value the data at a place of the tokens
/// says, if the token there is data and the token after it, which is the
/// one before it in the text, is a floating-point kind.
pub open spec fn wants_bits(tokens: Seq<TokenView>, at: int) -> Option<RawType> {
    if 0 <= at && at + 1 < tokens.len() && tokens[at] is Data {
        match tokens[at + 1] {
            TokenView::Type(kind) => if kind.is_float() {
                Some(kind)
            } else {
                None
            },
            _ => None,
        }
    } else {
        None
    }
}

/// Tells whether the data at a place of the tokens says a floating-point
/// number, and of which kind: see [`wants_bits`]. The embedding program
/// reads such data and puts `Token::Bits` in its place.
pub fn float_literal(tokens: &Vec<Token>, at: usize) -> (kind: Option<RawType>)
    ensures
        kind == wants_bits(token_views(tokens@), at as int),
{
    if at >= tokens.len() || tokens.len() - at < 2 {
        return None;
    }
    match (&tokens[at], &tokens[at + 1]) {
        (Token::Data(_), Token::Type(RawType::Float32)) => Some(RawType::Float32),
        (Token::Data(_), Token::Type(RawType::Float64)) => Some(RawType::Float64),
        _ => None,
    }
}

/// The operands of an instruction at the end of the tokens, and the
/// instruction they make.
pub open spec fn operand_tokens(raw: RawInstruction, tokens: Seq<TokenView>) -> Result<
    Taken<InstructionView>,
    ParseError,
> {
    match raw {
        RawInstruction::Nop => Ok(Taken { value: InstructionView::Nop, rest: tokens }),
        RawInstruction::Ret => Ok(Taken { value: InstructionView::Ret, rest: tokens }),
        RawInstruction::PopFrame => Ok(Taken { value: InstructionView::PopFrame, rest: tokens }),
        RawInstruction::TakeFrom => Ok(Taken { value: InstructionView::TakeFrom, rest: tokens }),
        RawInstruction::GiveTo => Ok(Taken { value: InstructionView::GiveTo, rest: tokens }),
        RawInstruction::Dbg | RawInstruction::Dump => Err(ParseError::UnsupportedInstruction),
        RawInstruction::Op => match operation_token(tokens) {
            Err(e) => Err(e),
            Ok(op) => match register_token(op.rest) {
                Err(e) => Err(e),
                Ok(first) => match register_token(first.rest) {
                    Err(e) => Err(e),
                    Ok(second) => Ok(
                        Taken {
                            value: InstructionView::Op(op.value, [first.value, second.value]),
                            rest: second.rest,
                        },
                    ),
                },
            },
        },
        RawInstruction::Mov
        | RawInstruction::StackCpy
        | RawInstruction::Assert => match register_token(tokens) {
            Err(e) => Err(e),
            Ok(reg) => match value_tokens(reg.rest) {
                Err(e) => Err(e),
                Ok(t) => Ok(
                    Taken { value: with_register_and_type(raw, reg.value, t.value), rest: t.rest },
                ),
            },
        },
        RawInstruction::Cpy => match register_token(tokens) {
            Err(e) => Err(e),
            Ok(first) => match register_token(first.rest) {
                Err(e) => Err(e),
                Ok(second) => Ok(
                    Taken {
                        value: InstructionView::Cpy(first.value, second.value),
                        rest: second.rest,
                    },
                ),
            },
        },
        RawInstruction::Cast => match register_token(tokens) {
            Err(e) => Err(e),
            Ok(reg) => match kind_token(reg.rest) {
                Err(e) => Err(e),
                Ok(kind) => Ok(
                    Taken { value: InstructionView::Cast(reg.value, kind.value), rest: kind.rest },
                ),
            },
        },
        RawInstruction::Lea => match register_token(tokens) {
            Err(e) => Err(e),
            Ok(reg) => match data_token(reg.rest) {
                Err(e) => Err(e),
                Ok(data) => match integer_of(RawType::UInt, data.value) {
                    Some(i) => Ok(
                        Taken {
                            value: InstructionView::Lea(reg.value, i as usize),
                            rest: data.rest,
                        },
                    ),
                    None => Err(ParseError::InvalidData),
                },
            },
        },
        RawInstruction::Jmp => match optional_register_token(tokens) {
            Err(e) => Err(e),
            Ok(reg) => match value_tokens(reg.rest) {
                Err(e) => Err(e),
                Ok(t) => Ok(
                    Taken { value: InstructionView::Jmp(reg.value, t.value), rest: t.rest },
                ),
            },
        },
        RawInstruction::Call => match data_token(tokens) {
            Err(e) => Err(e),
            Ok(data) => Ok(Taken { value: InstructionView::Call(data.value), rest: data.rest }),
        },
        RawInstruction::Exit
        | RawInstruction::PopMany
        | RawInstruction::ThreadCreate => match value_tokens(tokens) {
            Err(e) => Err(e),
            Ok(t) => Ok(Taken { value: with_type(raw, t.value), rest: t.rest }),
        },
        RawInstruction::Push
        | RawInstruction::PushCpy
        | RawInstruction::ThreadJoin => match register_token(tokens) {
            Err(e) => Err(e),
            Ok(reg) => Ok(Taken { value: with_register(raw, reg.value), rest: reg.rest }),
        },
        RawInstruction::Pop => match optional_register_token(tokens) {
            Err(e) => Err(e),
            Ok(reg) => Ok(Taken { value: InstructionView::Pop(reg.value), rest: reg.rest }),
        },
        RawInstruction::PushFrame => match data_token(tokens) {
            Err(e) => Err(e),
            Ok(data) => match truth_of(data.value) {
                Some(b) => Ok(Taken { value: InstructionView::PushFrame(b), rest: data.rest }),
                None => Err(ParseError::InvalidData),
            },
        },
    }
}

/// The instruction at the end of the tokens.
pub open spec fn instruction_tokens(tokens: Seq<TokenView>) -> Result<
    Taken<InstructionView>,
    ParseError,
> {
    if tokens.len() == 0 {
        Err(ParseError::MissingToken)
    } else {
        match tokens.last() {
            TokenView::Instruction(raw) => operand_tokens(raw, tokens.drop_last()),
            _ => Err(ParseError::ExpectedInstruction),
        }
    }
}

/// The instructions that the tokens are, taken off their end one after the
/// other.
pub open spec fn parsed(tokens: Seq<TokenView>) -> Result<Seq<InstructionView>, ParseError>
    decreases tokens.len(),
{
    if tokens.len() == 0 {
        Ok(Seq::empty())
    } else {
        match instruction_tokens(tokens) {
            Err(e) => Err(e),
            Ok(first) => if first.rest.len() >= tokens.len() {
                Err(ParseError::MissingToken)
            } else {
                match parsed(first.rest) {
                    Err(e) => Err(e),
                    Ok(others) => Ok(seq![first.value] + others),
                }
            },
        }
    }
}

/// Whether a taker did what the grammar says of the tokens it began on: it
/// gave what stands at their end and left the tokens before it, or failed as
/// the grammar fails on them.
pub open spec fn takes<T, V>(
    r: Result<T, ParseError>,
    expected: Result<Taken<V>, ParseError>,
    before: Seq<Token>,
    after: Seq<Token>,
    view: spec_fn(T) -> V,
) -> bool {
    match r {
        Ok(value) => expected == Ok::<Taken<V>, ParseError>(
            Taken { value: view(value), rest: token_views(after) },
        ) && after.len() <= before.len(),
        Err(e) => expected == Err::<Taken<V>, ParseError>(e),
    }
}

/// The pointer-sized number that a text says.
fn read_usize(text: &Vec<char>) -> (r: Option<usize>)
    ensures
        match r {
            Some(n) => integer_of(RawType::UInt, text@) == Some(n as int),
            None => integer_of(RawType::UInt, text@) is None,
        },
{
    match read_integer(RawType::UInt, text) {
        Some(Type::UInt(n)) => Some(n),
        _ => None,
    }
}

/// The truth value that a text says: see [`truth_of`].
fn read_truth(text: &Vec<char>) -> (r: Option<bool>)
    ensures
        r == truth_of(text@),
{
    let yes = chars_of("true");
    let no = chars_of("false");
    if same_chars(text, &yes) {
        Some(true)
    } else if same_chars(text, &no) {
        Some(false)
    } else {
        None
    }
}

/// The value of a kind that data says: see [`value_of`].
fn parse_type(t: RawType, data: String) -> (r: Result<Type, ParseError>)
    ensures
        match r {
            Ok(v) => value_of(t, data@) == Ok::<Value, ParseError>(v@),
            Err(e) => value_of(t, data@) == Err::<Value, ParseError>(e),
        },
{
    match t {
        RawType::Nil => Ok(Type::Nil),
        RawType::Float32 | RawType::Float64 => Err(ParseError::FloatingPoint),
        RawType::String => Ok(Type::String(data)),
        RawType::Pointer => Err(ParseError::UnsupportedType),
        _ => {
            let text = chars_of(data.as_str());
            match t {
                RawType::Char => if text.len() == 1 {
                    Ok(Type::Char(text[0]))
                } else {
                    Err(ParseError::InvalidData)
                },
                RawType::Boolean => match read_truth(&text) {
                    Some(b) => Ok(Type::Boolean(b)),
                    None => Err(ParseError::InvalidData),
                },
                RawType::Address => match read_usize(&text) {
                    Some(n) => Ok(Type::Address(n)),
                    None => Err(ParseError::InvalidData),
                },
                RawType::Register => match read_integer(RawType::UInt8, &text) {
                    Some(Type::UInt8(n)) => match Register::checked_cast(n) {
                        Some(r) => Ok(Type::Register(r)),
                        None => Err(ParseError::InvalidRegister),
                    },
                    _ => Err(ParseError::InvalidData),
                },
                _ => match read_integer(t, &text) {
                    Some(v) => Ok(v),
                    None => Err(ParseError::InvalidData),
                },
            }
        },
    }
}

/// Takes the token at the end.
fn take_token(tokens: &mut Vec<Token>) -> (r: Result<Token, ParseError>)
    ensures
        match r {
            Ok(token) => old(tokens).len() > 0 && token@ == token_views(old(tokens)@).last()
                && token_views(final(tokens)@) == token_views(old(tokens)@).drop_last()
                && final(tokens).len() + 1 == old(tokens).len(),
            Err(e) => e == ParseError::MissingToken && old(tokens).len() == 0,
        },
{
    match tokens.pop() {
        Some(token) => {
            assert(token_views(tokens@) =~= token_views(old(tokens)@).drop_last());
            Ok(token)
        },
        None => Err(ParseError::MissingToken),
    }
}

/// Takes a register.
fn take_register(tokens: &mut Vec<Token>) -> (r: Result<Register, ParseError>)
    ensures
        takes(
            r,
            register_token(token_views(old(tokens)@)),
            old(tokens)@,
            final(tokens)@,
            |v: Register| v,
        ),
{
    match take_token(tokens)? {
        Token::Register(n) => match Register::checked_cast(n) {
            Some(r) => Ok(r),
            None => Err(ParseError::InvalidRegister),
        },
        _ => Err(ParseError::UnexpectedToken),
    }
}

/// Takes a register that may be left out.
fn take_optional_register(tokens: &mut Vec<Token>) -> (r: Result<Option<Register>, ParseError>)
    ensures
        takes(
            r,
            optional_register_token(token_views(old(tokens)@)),
            old(tokens)@,
            final(tokens)@,
            |v: Option<Register>| v,
        ),
{
    let reg = take_register(tokens)?;
    match reg {
        Register::Nil => Ok(None),
        _ => Ok(Some(reg)),
    }
}

/// Takes a kind.
fn take_kind(tokens: &mut Vec<Token>) -> (r: Result<RawType, ParseError>)
    ensures
        takes(
            r,
            kind_token(token_views(old(tokens)@)),
            old(tokens)@,
            final(tokens)@,
            |v: RawType| v,
        ),
{
    match take_token(tokens)? {
        Token::Type(t) => Ok(t),
        _ => Err(ParseError::UnexpectedToken),
    }
}

/// Takes an operator.
fn take_operation(tokens: &mut Vec<Token>) -> (r: Result<Operation, ParseError>)
    ensures
        takes(
            r,
            operation_token(token_views(old(tokens)@)),
            old(tokens)@,
            final(tokens)@,
            |v: Operation| v,
        ),
{
    match take_token(tokens)? {
        Token::Operation(o) => Ok(o),
        _ => Err(ParseError::UnexpectedToken),
    }
}

/// Takes data.
fn take_data(tokens: &mut Vec<Token>) -> (r: Result<String, ParseError>)
    ensures
        takes(
            r,
            data_token(token_views(old(tokens)@)),
            old(tokens)@,
            final(tokens)@,
            |v: String| v@,
        ),
{
    match take_token(tokens)? {
        Token::Data(d) => Ok(d),
        _ => Err(ParseError::UnexpectedToken),
    }
}

/// Takes a value: a kind, and the data that says the value.
fn take_value(tokens: &mut Vec<Token>) -> (r: Result<Type, ParseError>)
    ensures
        takes(
            r,
            value_tokens(token_views(old(tokens)@)),
            old(tokens)@,
            final(tokens)@,
            |v: Type| v@,
        ),
{
    let kind = take_kind(tokens)?;
    match kind {
        RawType::Float32 | RawType::Float64 => match take_token(tokens)? {
            Token::Bits(bits) => match kind {
                RawType::Float64 => Ok(Type::Float64(bits)),
                _ => if bits <= u32::MAX as u64 {
                    Ok(Type::Float32(bits as u32))
                } else {
                    Err(ParseError::InvalidData)
                },
            },
            Token::Data(_) => Err(ParseError::FloatingPoint),
            _ => Err(ParseError::UnexpectedToken),
        },
        _ => {
            let data = take_data(tokens)?;
            parse_type(kind, data)
        },
    }
}

/// Takes the operands of `Op`.
fn take_operator_operands(tokens: &mut Vec<Token>, raw: RawInstruction) -> (r: Result<
    Instruction,
    ParseError,
>)
    requires
        raw is Op,
    ensures
        takes(
            r,
            operand_tokens(raw, token_views(old(tokens)@)),
            old(tokens)@,
            final(tokens)@,
            |v: Instruction| v@,
        ),
{
    let op = take_operation(tokens)?;
    let first = take_register(tokens)?;
    let second = take_register(tokens)?;
    Ok(Instruction::Op(op, [first, second]))
}

/// Takes a register and a value, the operands of `Mov`, `StackCpy` and `Assert`.
fn take_register_and_value(tokens: &mut Vec<Token>, raw: RawInstruction) -> (r: Result<
    Instruction,
    ParseError,
>)
    requires
        raw is Mov || raw is StackCpy || raw is Assert,
    ensures
        takes(
            r,
            operand_tokens(raw, token_views(old(tokens)@)),
            old(tokens)@,
            final(tokens)@,
            |v: Instruction| v@,
        ),
{
    let reg = take_register(tokens)?;
    let t = take_value(tokens)?;
    match raw {
        RawInstruction::Mov => Ok(Instruction::Mov(reg, t)),
        RawInstruction::StackCpy => Ok(Instruction::StackCpy(reg, t)),
        _ => Ok(Instruction::Assert(reg, t)),
    }
}

/// Takes a value, the operand of `Exit`, `PopMany` and `ThreadCreate`.
fn take_one_value(tokens: &mut Vec<Token>, raw: RawInstruction) -> (r: Result<
    Instruction,
    ParseError,
>)
    requires
        raw is Exit || raw is PopMany || raw is ThreadCreate,
    ensures
        takes(
            r,
            operand_tokens(raw, token_views(old(tokens)@)),
            old(tokens)@,
            final(tokens)@,
            |v: Instruction| v@,
        ),
{
    let t = take_value(tokens)?;
    match raw {
        RawInstruction::Exit => Ok(Instruction::Exit(t)),
        RawInstruction::PopMany => Ok(Instruction::PopMany(t)),
        _ => Ok(Instruction::ThreadCreate(t)),
    }
}

/// Takes a register, the operand of `Push`, `PushCpy` and `ThreadJoin`.
fn take_one_register(tokens: &mut Vec<Token>, raw: RawInstruction) -> (r: Result<
    Instruction,
    ParseError,
>)
    requires
        raw is Push || raw is PushCpy || raw is ThreadJoin,
    ensures
        takes(
            r,
            operand_tokens(raw, token_views(old(tokens)@)),
            old(tokens)@,
            final(tokens)@,
            |v: Instruction| v@,
        ),
{
    let reg = take_register(tokens)?;
    match raw {
        RawInstruction::Push => Ok(Instruction::Push(reg)),
        RawInstruction::PushCpy => Ok(Instruction::PushCpy(reg)),
        _ => Ok(Instruction::ThreadJoin(reg)),
    }
}

/// Takes the operands of `Cpy`.
fn take_two_registers(tokens: &mut Vec<Token>, raw: RawInstruction) -> (r: Result<
    Instruction,
    ParseError,
>)
    requires
        raw is Cpy,
    ensures
        takes(
            r,
            operand_tokens(raw, token_views(old(tokens)@)),
            old(tokens)@,
            final(tokens)@,
            |v: Instruction| v@,
        ),
{
    let first = take_register(tokens)?;
    let second = take_register(tokens)?;
    Ok(Instruction::Cpy(first, second))
}

/// Takes the operands of `Cast`.
fn take_cast_operands(tokens: &mut Vec<Token>, raw: RawInstruction) -> (r: Result<
    Instruction,
    ParseError,
>)
    requires
        raw is Cast,
    ensures
        takes(
            r,
            operand_tokens(raw, token_views(old(tokens)@)),
            old(tokens)@,
            final(tokens)@,
            |v: Instruction| v@,
        ),
{
    let reg = take_register(tokens)?;
    let kind = take_kind(tokens)?;
    Ok(Instruction::Cast(reg, kind))
}

/// Takes the operands of `Lea`.
fn take_lea_operands(tokens: &mut Vec<Token>, raw: RawInstruction) -> (r: Result<
    Instruction,
    ParseError,
>)
    requires
        raw is Lea,
    ensures
        takes(
            r,
            operand_tokens(raw, token_views(old(tokens)@)),
            old(tokens)@,
            final(tokens)@,
            |v: Instruction| v@,
        ),
{
    let reg = take_register(tokens)?;
    let data = take_data(tokens)?;
    let text = chars_of(data.as_str());
    match read_usize(&text) {
        Some(address) => Ok(Instruction::Lea(reg, address)),
        None => Err(ParseError::InvalidData),
    }
}

/// Takes the operands of `Jmp`.
fn take_jmp_operands(tokens: &mut Vec<Token>, raw: RawInstruction) -> (r: Result<
    Instruction,
    ParseError,
>)
    requires
        raw is Jmp,
    ensures
        takes(
            r,
            operand_tokens(raw, token_views(old(tokens)@)),
            old(tokens)@,
            final(tokens)@,
            |v: Instruction| v@,
        ),
{
    let reg = take_optional_register(tokens)?;
    let t = take_value(tokens)?;
    Ok(Instruction::Jmp(reg, t))
}

/// Takes the operand of `Call`, `Pop` and `PushFrame`.
fn take_small_operand(tokens: &mut Vec<Token>, raw: RawInstruction) -> (r: Result<
    Instruction,
    ParseError,
>)
    requires
        raw is Call || raw is Pop || raw is PushFrame,
    ensures
        takes(
            r,
            operand_tokens(raw, token_views(old(tokens)@)),
            old(tokens)@,
            final(tokens)@,
            |v: Instruction| v@,
        ),
{
    match raw {
        RawInstruction::Call => Ok(Instruction::Call(take_data(tokens)?)),
        RawInstruction::Pop => Ok(Instruction::Pop(take_optional_register(tokens)?)),
        _ => {
            let data = take_data(tokens)?;
            let text = chars_of(data.as_str());
            match read_truth(&text) {
                Some(b) => Ok(Instruction::PushFrame(b)),
                None => Err(ParseError::InvalidData),
            }
        },
    }
}

/// Takes the operands of an instruction and makes the instruction.
fn parse_instruction(tokens: &mut Vec<Token>, raw: RawInstruction) -> (r: Result<
    Instruction,
    ParseError,
>)
    ensures
        takes(
            r,
            operand_tokens(raw, token_views(old(tokens)@)),
            old(tokens)@,
            final(tokens)@,
            |v: Instruction| v@,
        ),
{
    match raw {
        RawInstruction::Nop => Ok(Instruction::Nop),
        RawInstruction::Ret => Ok(Instruction::Ret),
        RawInstruction::PopFrame => Ok(Instruction::PopFrame),
        RawInstruction::TakeFrom => Ok(Instruction::TakeFrom),
        RawInstruction::GiveTo => Ok(Instruction::GiveTo),
        RawInstruction::Dbg | RawInstruction::Dump => Err(ParseError::UnsupportedInstruction),
        RawInstruction::Op => take_operator_operands(tokens, raw),
        RawInstruction::Mov | RawInstruction::StackCpy | RawInstruction::Assert => {
            take_register_and_value(tokens, raw)
        },
        RawInstruction::Cpy => take_two_registers(tokens, raw),
        RawInstruction::Cast => take_cast_operands(tokens, raw),
        RawInstruction::Lea => take_lea_operands(tokens, raw),
        RawInstruction::Jmp => take_jmp_operands(tokens, raw),
        RawInstruction::Exit | RawInstruction::PopMany | RawInstruction::ThreadCreate => {
            take_one_value(tokens, raw)
        },
        RawInstruction::Push | RawInstruction::PushCpy | RawInstruction::ThreadJoin => {
            take_one_register(tokens, raw)
        },
        RawInstruction::Call | RawInstruction::Pop | RawInstruction::PushFrame => {
            take_small_operand(tokens, raw)
        },
    }
}

/// Takes an instruction: its word, then its operands.
fn take_instruction(tokens: &mut Vec<Token>) -> (r: Result<Instruction, ParseError>)
    ensures
        takes(
            r,
            instruction_tokens(token_views(old(tokens)@)),
            old(tokens)@,
            final(tokens)@,
            |v: Instruction| v@,
        ),
        r is Ok ==> final(tokens).len() < old(tokens).len(),
{
    match take_token(tokens)? {
        Token::Instruction(i) => parse_instruction(tokens, i),
        _ => Err(ParseError::ExpectedInstruction),
    }
}

/// What the instructions that were made and the tokens that are left come
/// to together.
pub open spec fn completed(done: Seq<InstructionView>, left: Seq<TokenView>) -> Result<
    Seq<InstructionView>,
    ParseError,
> {
    match parsed(left) {
        Ok(others) => Ok(done + others),
        Err(e) => Err(e),
    }
}

/// The instructions that tokens are, or why they are none: see [`parsed`].
pub fn parse(tokens: Vec<Token>) -> (r: Result<Vec<Instruction>, ParseError>)
    ensures
        match r {
            Ok(program) => parsed(token_views(tokens@)) == Ok::<Seq<InstructionView>, ParseError>(
                program@.map_values(|i: Instruction| i@),
            ),
            Err(e) => parsed(token_views(tokens@)) == Err::<Seq<InstructionView>, ParseError>(e),
        },
{
    let ghost all = token_views(tokens@);
    let mut left = tokens;
    let mut instructions: Vec<Instruction> = Vec::new();
    assert(Seq::<InstructionView>::empty() + parsed(all)->Ok_0 =~= parsed(all)->Ok_0);
    while left.len() > 0
        invariant
            all == token_views(tokens@),
            parsed(all) == completed(
                instructions@.map_values(|i: Instruction| i@),
                token_views(left@),
            ),
        decreases left.len(),
    {
        let ghost done = instructions@.map_values(|i: Instruction| i@);
        match take_instruction(&mut left) {
            Ok(instruction) => {
                instructions.push(instruction);
                proof {
                    let now = instructions@.map_values(|i: Instruction| i@);
                    assert(now =~= done.push(instruction@));
                    let after = parsed(token_views(left@));
                    if after is Ok {
                        assert(done + (seq![instruction@] + after->Ok_0) =~= now + after->Ok_0);
                    }
                }
            },
            Err(e) => {
                return Err(e);
            },
        }
    }
    assert(instructions@.map_values(|i: Instruction| i@) + Seq::<InstructionView>::empty()
        =~= instructions@.map_values(|i: Instruction| i@));
    Ok(instructions)
}

} // verus!
