//! The lexer: from the text of a program to its tokens.
//!
//! A program is read line by line. A line loses the white space at its ends
//! and is read from left to right. At each place the first of these that
//! applies is taken: a word of the table, which gives its token; a register,
//! `r` and its number; data, from `(` to the last `)` of the line; a
//! comment, from `;` to the end of the line. A character at which none
//! applies is passed over.

use vstd::prelude::*;
use crate::chars::{
    has_word, is_white_space, text_between, trim, trimmed, white_space, word_at,
};
use crate::numbers::{digits_value, is_digit};
use crate::text::chars_of;
use crate::instructions::RawInstruction;
use crate::operations::{OpPrim1, OpPrim2, Operation};
use crate::types::RawType;

verus! {

/// A token of a program's text.
///
/// The lexer gives no `Bits`. Data that says a floating-point number is
/// read by the embedding program, which puts the number's bits in the
/// data's place: see [`crate::assembly::parser::float_literal`].
#[derive(Clone, Debug, PartialEq, Eq, PartialOrd, Ord)]
pub enum Token {
    Instruction(RawInstruction),
    Operation(Operation),
    Type(RawType),
    Register(u8),
    Data(String),
    /// The bits of a floating-point number: all of them for a `Float64`,
    /// and a number up to `u32::MAX` for a `Float32`.
    Bits(u64),
}

/// What a [`Token`] stands for.
pub enum TokenView {
    Instruction(RawInstruction),
    Operation(Operation),
    Type(RawType),
    Register(u8),
    Data(Seq<char>),
    Bits(u64),
}

impl View for Token {
    type V = TokenView;

    open spec fn view(&self) -> TokenView {
        match self {
            Token::Instruction(i) => TokenView::Instruction(*i),
            Token::Operation(o) => TokenView::Operation(*o),
            Token::Type(t) => TokenView::Type(*t),
            Token::Register(r) => TokenView::Register(*r),
            Token::Data(d) => TokenView::Data(d@),
            Token::Bits(b) => TokenView::Bits(*b),
        }
    }
}

/// Why a text has no tokens.
#[derive(Clone, Copy, Debug, PartialEq, Eq, Hash, Structural)]
pub enum LexError {
    /// A character outside ASCII stands where no data and no comment is.
    NotAscii,
    /// The number of a register is above 255.
    InvalidRegister,
    /// Data begins with `(` and the line has no `)` after it.
    UnclosedData,
}

/// What a word of the table stands for.
#[derive(Clone, Copy, Debug, PartialEq, Eq, Structural)]
pub enum Word {
    Instruction(RawInstruction),
    Operation(Operation),
    Type(RawType),
}

/// One line of the table of words: the word, what it stands for, and
/// whether the lexer goes on one character after its start rather than
/// after its end.
pub struct Rule {
    pub text: Vec<char>,
    pub word: Word,
    pub single: bool,
}

/// What a [`Rule`] stands for.
pub struct RuleView {
    pub text: Seq<char>,
    pub word: Word,
    pub single: bool,
}

impl View for Rule {
    type V = RuleView;

    open spec fn view(&self) -> RuleView {
        RuleView { text: self.text@, word: self.word, single: self.single }
    }
}

/// What rules stand for.
pub open spec fn rule_views(rules: Seq<Rule>) -> Seq<RuleView> {
    rules.map_values(|r: Rule| r@)
}

/// A line of the table for a word after which the lexer goes on at the
/// word's end.
pub open spec fn word(text: Seq<char>, word: Word) -> RuleView {
    RuleView { text, word, single: false }
}

/// A line of the table for a word after which the lexer goes on one
/// character after the word's start.
pub open spec fn short_step(text: Seq<char>, word: Word) -> RuleView {
    RuleView { text, word, single: true }
}

/// The instructions of the table of words.
pub open spec fn instruction_words() -> Seq<RuleView> {
    Seq::<RuleView>::empty()
        .push(word("nop"@, Word::Instruction(RawInstruction::Nop)))
        .push(word("op"@, Word::Instruction(RawInstruction::Op)))
        .push(word("mov"@, Word::Instruction(RawInstruction::Mov)))
        .push(word("cpy"@, Word::Instruction(RawInstruction::Cpy)))
        .push(word("cast"@, Word::Instruction(RawInstruction::Cast)))
        .push(word("lea"@, Word::Instruction(RawInstruction::Lea)))
        .push(word("jmp"@, Word::Instruction(RawInstruction::Jmp)))
        .push(word("ret"@, Word::Instruction(RawInstruction::Ret)))
        .push(word("call"@, Word::Instruction(RawInstruction::Call)))
        .push(word("exit"@, Word::Instruction(RawInstruction::Exit)))
        .push(word("push"@, Word::Instruction(RawInstruction::Push)))
        .push(word("pushcpy"@, Word::Instruction(RawInstruction::PushCpy)))
        .push(word("pop"@, Word::Instruction(RawInstruction::Pop)))
        .push(word("popmany"@, Word::Instruction(RawInstruction::PopMany)))
        .push(word("stackcpy"@, Word::Instruction(RawInstruction::StackCpy)))
        .push(word("pushframe"@, Word::Instruction(RawInstruction::PushFrame)))
        .push(word("popframe"@, Word::Instruction(RawInstruction::PopFrame)))
        .push(word("takefrom"@, Word::Instruction(RawInstruction::TakeFrom)))
        .push(word("giveto"@, Word::Instruction(RawInstruction::GiveTo)))
        .push(word("threadcreate"@, Word::Instruction(RawInstruction::ThreadCreate)))
        .push(word("threadjoin"@, Word::Instruction(RawInstruction::ThreadJoin)))
        .push(word("assert"@, Word::Instruction(RawInstruction::Assert)))
}

/// The operators of the table of words.
pub open spec fn operator_words() -> Seq<RuleView> {
    Seq::<RuleView>::empty()
        .push(word("++"@, Word::Operation(Operation::Prim1(OpPrim1::Increment))))
        .push(word("--"@, Word::Operation(Operation::Prim1(OpPrim1::Decrement))))
        .push(word("!"@, Word::Operation(Operation::Prim1(OpPrim1::Not))))
        .push(word("~"@, Word::Operation(Operation::Prim1(OpPrim1::BitwiseNot))))
        .push(word("+"@, Word::Operation(Operation::Prim2(OpPrim2::Add))))
        .push(word("-"@, Word::Operation(Operation::Prim2(OpPrim2::Subtract))))
        .push(word("*"@, Word::Operation(Operation::Prim2(OpPrim2::Multiplication))))
        .push(word("/"@, Word::Operation(Operation::Prim2(OpPrim2::Division))))
        .push(word("%"@, Word::Operation(Operation::Prim2(OpPrim2::Modulus))))
        .push(word("&&"@, Word::Operation(Operation::Prim2(OpPrim2::And))))
        .push(word("||"@, Word::Operation(Operation::Prim2(OpPrim2::Or))))
        .push(word("^^"@, Word::Operation(Operation::Prim2(OpPrim2::Xor))))
        .push(word("=="@, Word::Operation(Operation::Prim2(OpPrim2::Equal))))
        .push(word("!="@, Word::Operation(Operation::Prim2(OpPrim2::NotEqual))))
        .push(word(">"@, Word::Operation(Operation::Prim2(OpPrim2::Greater))))
        .push(word("<"@, Word::Operation(Operation::Prim2(OpPrim2::Less))))
        .push(word(">="@, Word::Operation(Operation::Prim2(OpPrim2::GreaterEqual))))
        .push(word("<="@, Word::Operation(Operation::Prim2(OpPrim2::LessEqual))))
        .push(word("&"@, Word::Operation(Operation::Prim2(OpPrim2::BitwiseAnd))))
        .push(word("|"@, Word::Operation(Operation::Prim2(OpPrim2::BitwiseOr))))
        .push(word("^"@, Word::Operation(Operation::Prim2(OpPrim2::BitwiseXor))))
        .push(word("<<"@, Word::Operation(Operation::Prim2(OpPrim2::ShiftLeft))))
        .push(word(">>"@, Word::Operation(Operation::Prim2(OpPrim2::ShiftRight))))
        .push(word("<>"@, Word::Operation(Operation::Prim2(OpPrim2::SameType))))
}

/// The kinds of the table of words.
pub open spec fn kind_words() -> Seq<RuleView> {
    Seq::<RuleView>::empty()
        .push(word("none"@, Word::Type(RawType::Nil)))
        .push(word("i8"@, Word::Type(RawType::Int8)))
        .push(word("i16"@, Word::Type(RawType::Int16)))
        .push(word("i32"@, Word::Type(RawType::Int32)))
        .push(word("isize"@, Word::Type(RawType::Int)))
        .push(word("i64"@, Word::Type(RawType::Int64)))
        .push(word("i128"@, Word::Type(RawType::Int128)))
        .push(word("u8"@, Word::Type(RawType::UInt8)))
        .push(word("u16"@, Word::Type(RawType::UInt16)))
        .push(word("u32"@, Word::Type(RawType::UInt32)))
        .push(word("usize"@, Word::Type(RawType::UInt)))
        .push(word("u64"@, Word::Type(RawType::UInt64)))
        .push(word("u128"@, Word::Type(RawType::UInt128)))
        .push(word("f32"@, Word::Type(RawType::Float32)))
        .push(word("f64"@, Word::Type(RawType::Float64)))
        .push(word("chr"@, Word::Type(RawType::Char)))
        .push(word("str"@, Word::Type(RawType::String)))
        .push(word("bool"@, Word::Type(RawType::Boolean)))
        .push(short_step("add"@, Word::Type(RawType::Address)))
        .push(short_step("reg"@, Word::Type(RawType::Register)))
}

/// The table of words, in the order in which they are tried: the
/// instructions, the operators, the kinds.
pub open spec fn table() -> Seq<RuleView> {
    instruction_words() + operator_words() + kind_words()
}

/// The token of a word.
pub open spec fn word_token(word: Word) -> TokenView {
    match word {
        Word::Instruction(i) => TokenView::Instruction(i),
        Word::Operation(o) => TokenView::Operation(o),
        Word::Type(t) => TokenView::Type(t),
    }
}

/// How far the lexer goes on after a word.
pub open spec fn step(rule: RuleView) -> int {
    if rule.single || rule.text.len() == 0 {
        1
    } else {
        rule.text.len() as int
    }
}

/// Whether a word of the table stands in the line at the given place: the
/// word is there, and white space follows it unless it is a kind.
pub open spec fn applies(rule: RuleView, line: Seq<char>, at: int) -> bool {
    &&& has_word(line, at, rule.text)
    &&& rule.word is Type || (at + rule.text.len() < line.len() && is_white_space(
        line[at + rule.text.len()],
    ))
}

/// The first word of the table, from the given line of it on, that stands in
/// the line at the given place.
pub open spec fn first_rule(rules: Seq<RuleView>, line: Seq<char>, at: int, from: int) -> Option<
    RuleView,
>
    decreases rules.len() - from,
{
    if from < 0 || from >= rules.len() {
        None
    } else if applies(rules[from], line, at) {
        Some(rules[from])
    } else {
        first_rule(rules, line, at, from + 1)
    }
}

/// Where the digits that begin at the given place of the line end.
pub open spec fn digits_end(line: Seq<char>, at: int) -> int
    decreases line.len() - at,
{
    if 0 <= at < line.len() && is_digit(line[at]) {
        digits_end(line, at + 1)
    } else {
        at
    }
}

/// Whether a register stands in the line at the given place: `r`, one digit
/// or more, and white space after them.
pub open spec fn register_applies(line: Seq<char>, at: int) -> bool {
    &&& 0 <= at < line.len()
    &&& line[at] == 'r'
    &&& digits_end(line, at + 1) > at + 1
    &&& digits_end(line, at + 1) < line.len()
    &&& is_white_space(line[digits_end(line, at + 1)])
}

/// The last place from `from` on and before `to` at which the character
/// stands in the line.
pub open spec fn last_index(line: Seq<char>, c: char, from: int, to: int) -> Option<int>
    decreases to - from,
{
    if to <= from || to > line.len() || from < 0 {
        None
    } else if line[to - 1] == c {
        Some(to - 1)
    } else {
        last_index(line, c, from, to - 1)
    }
}

/// Digits end where they begin or after it, and in the line.
pub proof fn lemma_digits_end(line: Seq<char>, at: int)
    requires
        0 <= at <= line.len(),
    ensures
        at <= digits_end(line, at) <= line.len(),
        forall|i: int| at <= i < digits_end(line, at) ==> is_digit(#[trigger] line[i]),
        digits_end(line, at) < line.len() ==> !is_digit(line[digits_end(line, at)]),
    decreases line.len() - at,
{
    if at < line.len() && is_digit(line[at]) {
        lemma_digits_end(line, at + 1);
    }
}

/// The last place of a character is among the places that were looked at,
/// the character stands there, and it stands at none of them after it.
pub proof fn lemma_last_index(line: Seq<char>, c: char, from: int, to: int)
    ensures
        match last_index(line, c, from, to) {
            Some(i) => from <= i < to && line[i] == c && forall|j: int|
                i < j < to ==> #[trigger] line[j] != c,
            None => 0 <= from && to <= line.len() ==> forall|j: int|
                from <= j < to ==> #[trigger] line[j] != c,
        },
    decreases to - from,
{
    if to <= from || to > line.len() || from < 0 {
    } else if line[to - 1] == c {
    } else {
        lemma_last_index(line, c, from, to - 1);
    }
}

/// A token before the tokens that follow it, where there are any.
pub open spec fn before(token: TokenView, rest: Result<Seq<TokenView>, LexError>) -> Result<
    Seq<TokenView>,
    LexError,
> {
    match rest {
        Ok(tokens) => Ok(seq![token] + tokens),
        Err(e) => Err(e),
    }
}

/// Tokens before the tokens that follow them, where both are there.
pub open spec fn followed(
    first: Result<Seq<TokenView>, LexError>,
    rest: Result<Seq<TokenView>, LexError>,
) -> Result<Seq<TokenView>, LexError> {
    match first {
        Err(e) => Err(e),
        Ok(tokens) => match rest {
            Ok(others) => Ok(tokens + others),
            Err(e) => Err(e),
        },
    }
}

/// A place of the line: the given one where it is one, and the end of the
/// line where it is past it.
pub open spec fn within(line: Seq<char>, at: int) -> int {
    if at > line.len() {
        line.len() as int
    } else {
        at
    }
}

/// The tokens of a line from the given place on.
pub open spec fn line_tokens(rules: Seq<RuleView>, line: Seq<char>, at: int) -> Result<
    Seq<TokenView>,
    LexError,
>
    decreases line.len() - at,
{
    if at < 0 || at >= line.len() {
        Ok(Seq::empty())
    } else {
        proof {
            lemma_digits_end(line, at + 1);
            lemma_last_index(line, ')', at + 1, line.len() as int);
        }
        match first_rule(rules, line, at, 0) {
            Some(rule) => before(
                word_token(rule.word),
                line_tokens(rules, line, within(line, at + step(rule))),
            ),
            None => if register_applies(line, at) {
                let end = digits_end(line, at + 1);
                let number = digits_value(line.subrange(at + 1, end));
                if number > 255 {
                    Err(LexError::InvalidRegister)
                } else {
                    before(
                        TokenView::Register(number as u8),
                        line_tokens(rules, line, within(line, end)),
                    )
                }
            } else if line[at] == '(' {
                match last_index(line, ')', at + 1, line.len() as int) {
                    None => Err(LexError::UnclosedData),
                    Some(close) => before(
                        TokenView::Data(line.subrange(at + 1, within(line, close))),
                        line_tokens(rules, line, within(line, close + 1)),
                    ),
                }
            } else if line[at] == ';' {
                Ok(Seq::empty())
            } else if line[at] as u32 >= 128 {
                Err(LexError::NotAscii)
            } else {
                line_tokens(rules, line, at + 1)
            },
        }
    }
}

/// Where the line that begins at the given place of the text ends: at its
/// line feed, or at the end of the text.
pub open spec fn line_end(text: Seq<char>, from: int) -> int
    decreases text.len() - from,
{
    if 0 <= from < text.len() && text[from] != '\n' {
        line_end(text, from + 1)
    } else {
        from
    }
}

/// A line as the lexer reads it: without the white space at its ends, and
/// with one space after it.
pub open spec fn full_line(raw: Seq<char>) -> Seq<char> {
    trimmed(raw).push(' ')
}

/// The tokens of a text from the given line start on, in the order of the
/// text.
pub open spec fn text_tokens(rules: Seq<RuleView>, text: Seq<char>, from: int) -> Result<
    Seq<TokenView>,
    LexError,
>
    decreases text.len() - from,
{
    let end = line_end(text, from);
    let here = if 0 <= from <= end <= text.len() {
        line_tokens(rules, full_line(text.subrange(from, end)), 0)
    } else {
        Ok(Seq::empty())
    };
    if from < 0 || end < from || end >= text.len() {
        here
    } else {
        followed(here, text_tokens(rules, text, end + 1))
    }
}

/// The tokens of a program's text, the last of the text first: the order in
/// which the parser takes them off the end.
pub open spec fn lexed(program: Seq<char>) -> Result<Seq<TokenView>, LexError> {
    match text_tokens(table(), program, 0) {
        Ok(tokens) => Ok(tokens.reverse()),
        Err(e) => Err(e),
    }
}

/// What tokens stand for.
pub open spec fn token_views(tokens: Seq<Token>) -> Seq<TokenView> {
    tokens.map_values(|t: Token| t@)
}

/// Adds a line to the table.
fn add_rule(rules: &mut Vec<Rule>, text: &str, word: Word, single: bool)
    ensures
        rule_views(final(rules)@) == rule_views(old(rules)@).push(
            RuleView { text: text@, word, single },
        ),
{
    rules.push(Rule { text: chars_of(text), word, single });
    assert(rule_views(rules@) =~= rule_views(old(rules)@).push(
        RuleView { text: text@, word, single },
    ));
}

/// The instructions of the table.
fn instruction_rules() -> (rules: Vec<Rule>)
    ensures
        rule_views(rules@) == instruction_words(),
{
    let mut rules: Vec<Rule> = Vec::new();
    assert(rule_views(rules@) =~= Seq::<RuleView>::empty());
    add_rule(&mut rules, "nop", Word::Instruction(RawInstruction::Nop), false);
    add_rule(&mut rules, "op", Word::Instruction(RawInstruction::Op), false);
    add_rule(&mut rules, "mov", Word::Instruction(RawInstruction::Mov), false);
    add_rule(&mut rules, "cpy", Word::Instruction(RawInstruction::Cpy), false);
    add_rule(&mut rules, "cast", Word::Instruction(RawInstruction::Cast), false);
    add_rule(&mut rules, "lea", Word::Instruction(RawInstruction::Lea), false);
    add_rule(&mut rules, "jmp", Word::Instruction(RawInstruction::Jmp), false);
    add_rule(&mut rules, "ret", Word::Instruction(RawInstruction::Ret), false);
    add_rule(&mut rules, "call", Word::Instruction(RawInstruction::Call), false);
    add_rule(&mut rules, "exit", Word::Instruction(RawInstruction::Exit), false);
    add_rule(&mut rules, "push", Word::Instruction(RawInstruction::Push), false);
    add_rule(&mut rules, "pushcpy", Word::Instruction(RawInstruction::PushCpy), false);
    add_rule(&mut rules, "pop", Word::Instruction(RawInstruction::Pop), false);
    add_rule(&mut rules, "popmany", Word::Instruction(RawInstruction::PopMany), false);
    add_rule(&mut rules, "stackcpy", Word::Instruction(RawInstruction::StackCpy), false);
    add_rule(&mut rules, "pushframe", Word::Instruction(RawInstruction::PushFrame), false);
    add_rule(&mut rules, "popframe", Word::Instruction(RawInstruction::PopFrame), false);
    add_rule(&mut rules, "takefrom", Word::Instruction(RawInstruction::TakeFrom), false);
    add_rule(&mut rules, "giveto", Word::Instruction(RawInstruction::GiveTo), false);
    add_rule(&mut rules, "threadcreate", Word::Instruction(RawInstruction::ThreadCreate), false);
    add_rule(&mut rules, "threadjoin", Word::Instruction(RawInstruction::ThreadJoin), false);
    add_rule(&mut rules, "assert", Word::Instruction(RawInstruction::Assert), false);
    rules
}

/// The operators of the table.
fn operator_rules() -> (rules: Vec<Rule>)
    ensures
        rule_views(rules@) == operator_words(),
{
    let mut rules: Vec<Rule> = Vec::new();
    assert(rule_views(rules@) =~= Seq::<RuleView>::empty());
    add_rule(&mut rules, "++", Word::Operation(Operation::Prim1(OpPrim1::Increment)), false);
    add_rule(&mut rules, "--", Word::Operation(Operation::Prim1(OpPrim1::Decrement)), false);
    add_rule(&mut rules, "!", Word::Operation(Operation::Prim1(OpPrim1::Not)), false);
    add_rule(&mut rules, "~", Word::Operation(Operation::Prim1(OpPrim1::BitwiseNot)), false);
    add_rule(&mut rules, "+", Word::Operation(Operation::Prim2(OpPrim2::Add)), false);
    add_rule(&mut rules, "-", Word::Operation(Operation::Prim2(OpPrim2::Subtract)), false);
    add_rule(&mut rules, "*", Word::Operation(Operation::Prim2(OpPrim2::Multiplication)), false);
    add_rule(&mut rules, "/", Word::Operation(Operation::Prim2(OpPrim2::Division)), false);
    add_rule(&mut rules, "%", Word::Operation(Operation::Prim2(OpPrim2::Modulus)), false);
    add_rule(&mut rules, "&&", Word::Operation(Operation::Prim2(OpPrim2::And)), false);
    add_rule(&mut rules, "||", Word::Operation(Operation::Prim2(OpPrim2::Or)), false);
    add_rule(&mut rules, "^^", Word::Operation(Operation::Prim2(OpPrim2::Xor)), false);
    add_rule(&mut rules, "==", Word::Operation(Operation::Prim2(OpPrim2::Equal)), false);
    add_rule(&mut rules, "!=", Word::Operation(Operation::Prim2(OpPrim2::NotEqual)), false);
    add_rule(&mut rules, ">", Word::Operation(Operation::Prim2(OpPrim2::Greater)), false);
    add_rule(&mut rules, "<", Word::Operation(Operation::Prim2(OpPrim2::Less)), false);
    add_rule(&mut rules, ">=", Word::Operation(Operation::Prim2(OpPrim2::GreaterEqual)), false);
    add_rule(&mut rules, "<=", Word::Operation(Operation::Prim2(OpPrim2::LessEqual)), false);
    add_rule(&mut rules, "&", Word::Operation(Operation::Prim2(OpPrim2::BitwiseAnd)), false);
    add_rule(&mut rules, "|", Word::Operation(Operation::Prim2(OpPrim2::BitwiseOr)), false);
    add_rule(&mut rules, "^", Word::Operation(Operation::Prim2(OpPrim2::BitwiseXor)), false);
    add_rule(&mut rules, "<<", Word::Operation(Operation::Prim2(OpPrim2::ShiftLeft)), false);
    add_rule(&mut rules, ">>", Word::Operation(Operation::Prim2(OpPrim2::ShiftRight)), false);
    add_rule(&mut rules, "<>", Word::Operation(Operation::Prim2(OpPrim2::SameType)), false);
    rules
}

/// The kinds of the table.
fn kind_rules() -> (rules: Vec<Rule>)
    ensures
        rule_views(rules@) == kind_words(),
{
    let mut rules: Vec<Rule> = Vec::new();
    assert(rule_views(rules@) =~= Seq::<RuleView>::empty());
    add_rule(&mut rules, "none", Word::Type(RawType::Nil), false);
    add_rule(&mut rules, "i8", Word::Type(RawType::Int8), false);
    add_rule(&mut rules, "i16", Word::Type(RawType::Int16), false);
    add_rule(&mut rules, "i32", Word::Type(RawType::Int32), false);
    add_rule(&mut rules, "isize", Word::Type(RawType::Int), false);
    add_rule(&mut rules, "i64", Word::Type(RawType::Int64), false);
    add_rule(&mut rules, "i128", Word::Type(RawType::Int128), false);
    add_rule(&mut rules, "u8", Word::Type(RawType::UInt8), false);
    add_rule(&mut rules, "u16", Word::Type(RawType::UInt16), false);
    add_rule(&mut rules, "u32", Word::Type(RawType::UInt32), false);
    add_rule(&mut rules, "usize", Word::Type(RawType::UInt), false);
    add_rule(&mut rules, "u64", Word::Type(RawType::UInt64), false);
    add_rule(&mut rules, "u128", Word::Type(RawType::UInt128), false);
    add_rule(&mut rules, "f32", Word::Type(RawType::Float32), false);
    add_rule(&mut rules, "f64", Word::Type(RawType::Float64), false);
    add_rule(&mut rules, "chr", Word::Type(RawType::Char), false);
    add_rule(&mut rules, "str", Word::Type(RawType::String), false);
    add_rule(&mut rules, "bool", Word::Type(RawType::Boolean), false);
    add_rule(&mut rules, "add", Word::Type(RawType::Address), true);
    add_rule(&mut rules, "reg", Word::Type(RawType::Register), true);
    rules
}

/// The table of words: see [`table`].
pub fn rules() -> (rules: Vec<Rule>)
    ensures
        rule_views(rules@) == table(),
{
    let mut rules = instruction_rules();
    let mut operators = operator_rules();
    let mut kinds = kind_rules();
    rules.append(&mut operators);
    rules.append(&mut kinds);
    assert(rule_views(rules@) =~= table());
    rules
}

/// The token of a word.
fn token_of(word: Word) -> (token: Token)
    ensures
        token@ == word_token(word),
{
    match word {
        Word::Instruction(i) => Token::Instruction(i),
        Word::Operation(o) => Token::Operation(o),
        Word::Type(t) => Token::Type(t),
    }
}

/// Finds the first word of the table that stands in a line at a given
/// place: see [`first_rule`].
fn find_rule(rules: &Vec<Rule>, line: &Vec<char>, at: usize) -> (found: Option<usize>)
    requires
        at < line.len(),
    ensures
        match found {
            Some(i) => i < rules.len() && first_rule(rule_views(rules@), line@, at as int, 0)
                == Some(rules@[i as int]@) && applies(rules@[i as int]@, line@, at as int),
            None => first_rule(rule_views(rules@), line@, at as int, 0) is None,
        },
{
    let mut i: usize = 0;
    while i < rules.len()
        invariant
            i <= rules.len(),
            at < line.len(),
            first_rule(rule_views(rules@), line@, at as int, 0) == first_rule(
                rule_views(rules@),
                line@,
                at as int,
                i as int,
            ),
        decreases rules.len() - i,
    {
        let rule = &rules[i];
        assert(rule_views(rules@)[i as int] == rule@);
        if word_at(line, at, &rule.text) {
            let after = at + rule.text.len();
            let spaced = match rule.word {
                Word::Type(_) => true,
                _ => after < line.len() && white_space(line[after]),
            };
            if spaced {
                return Some(i);
            }
        }
        i = i + 1;
    }
    None
}

/// Finds where the digits that begin at a given place of a line end, and
/// the number they stand for, or 256 where that number is above 255.
fn read_digits(line: &Vec<char>, at: usize) -> (r: (usize, u32))
    requires
        at <= line.len(),
    ensures
        r.0 == digits_end(line@, at as int),
        at <= r.0 <= line.len(),
        r.1 <= 256,
        digits_value(line@.subrange(at as int, r.0 as int)) <= 255 ==> r.1 == digits_value(
            line@.subrange(at as int, r.0 as int),
        ),
        digits_value(line@.subrange(at as int, r.0 as int)) > 255 ==> r.1 == 256,
{
    let mut end: usize = at;
    let mut number: u32 = 0;
    assert(line@.subrange(at as int, at as int) =~= Seq::<char>::empty());
    while end < line.len() && 0x30 <= line[end] as u32 && line[end] as u32 <= 0x39
        invariant
            at <= end <= line.len(),
            digits_end(line@, at as int) == digits_end(line@, end as int),
            number <= 256,
            digits_value(line@.subrange(at as int, end as int)) <= 255 ==> number
                == digits_value(line@.subrange(at as int, end as int)),
            digits_value(line@.subrange(at as int, end as int)) > 255 ==> number == 256,
        decreases line.len() - end,
    {
        let digit = line[end] as u32 - 0x30;
        proof {
            let longer = line@.subrange(at as int, end + 1);
            assert(longer.drop_last() =~= line@.subrange(at as int, end as int));
            assert(longer.last() == line@[end as int]);
        }
        number = if number * 10 + digit > 255 {
            256
        } else {
            number * 10 + digit
        };
        end = end + 1;
    }
    (end, number)
}

/// Finds the last place after a given one at which `)` stands in a line:
/// see [`last_index`].
fn find_close(line: &Vec<char>, at: usize) -> (found: Option<usize>)
    requires
        at < line.len(),
    ensures
        match found {
            Some(i) => at < i < line.len() && last_index(
                line@,
                ')',
                at + 1,
                line.len() as int,
            ) == Some(i as int),
            None => last_index(line@, ')', at + 1, line.len() as int) is None,
        },
{
    let mut to: usize = line.len();
    while to > at + 1
        invariant
            at + 1 <= to <= line.len(),
            last_index(line@, ')', at + 1, line.len() as int) == last_index(
                line@,
                ')',
                at + 1,
                to as int,
            ),
        decreases to,
    {
        if line[to - 1] == ')' {
            return Some(to - 1);
        }
        to = to - 1;
    }
    None
}

/// What the tokens that were read and those that are still to be read come
/// to together.
pub open spec fn joined_tokens(
    done: Seq<TokenView>,
    rest: Result<Seq<TokenView>, LexError>,
) -> Result<Seq<TokenView>, LexError> {
    followed(Ok(done), rest)
}

/// Adds the tokens of a line to those that were read: see [`line_tokens`].
fn lex_line(rules: &Vec<Rule>, line: &Vec<char>, tokens: &mut Vec<Token>) -> (r: Result<
    (),
    LexError,
>)
    ensures
        match r {
            Ok(()) => line_tokens(rule_views(rules@), line@, 0) matches Ok(found)
                && token_views(final(tokens)@) == token_views(old(tokens)@) + found,
            Err(e) => line_tokens(rule_views(rules@), line@, 0) == Err::<Seq<TokenView>, LexError>(
                e,
            ),
        },
{
    let ghost table = rule_views(rules@);
    let ghost before_line = token_views(tokens@);
    let ghost mut here = Seq::<TokenView>::empty();
    let mut index: usize = 0;
    assert(before_line + here =~= before_line);
    assert(here + line_tokens(table, line@, 0)->Ok_0 =~= line_tokens(table, line@, 0)->Ok_0);
    while index < line.len()
        invariant
            index <= line.len(),
            table == rule_views(rules@),
            before_line == token_views(old(tokens)@),
            token_views(tokens@) == before_line + here,
            line_tokens(table, line@, 0) == joined_tokens(
                here,
                line_tokens(table, line@, index as int),
            ),
        decreases line.len() - index,
    {
        let ghost rest = line_tokens(table, line@, index as int);
        let ghost seen = here;
        let ghost had = tokens@;
        proof {
            lemma_digits_end(line@, index + 1);
            lemma_last_index(line@, ')', index + 1, line.len() as int);
        }
        let next: usize;
        let token: Option<Token>;
        match find_rule(rules, line, index) {
            Some(i) => {
                let rule = &rules[i];
                token = Some(token_of(rule.word));
                next = if rule.single || rule.text.len() == 0 {
                    index + 1
                } else {
                    index + rule.text.len()
                };
            },
            None => {
                let (end, number) = if line[index] == 'r' {
                    read_digits(line, index + 1)
                } else {
                    (index + 1, 0)
                };
                if line[index] == 'r' && end > index + 1 && end < line.len() && white_space(
                    line[end],
                ) {
                    if number > 255 {
                        return Err(LexError::InvalidRegister);
                    }
                    token = Some(Token::Register(number as u8));
                    next = end;
                } else if line[index] == '(' {
                    match find_close(line, index) {
                        None => {
                            return Err(LexError::UnclosedData);
                        },
                        Some(close) => {
                            token = Some(Token::Data(text_between(line, index + 1, close)));
                            next = close + 1;
                        },
                    }
                } else if line[index] == ';' {
                    assert(here + Seq::<TokenView>::empty() =~= here);
                    return Ok(());
                } else if line[index] as u32 >= 128 {
                    return Err(LexError::NotAscii);
                } else {
                    token = None;
                    next = index + 1;
                }
            },
        }
        match token {
            Some(t) => {
                proof {
                    here = seen.push(t@);
                    let after = line_tokens(table, line@, next as int);
                    assert(rest == before(t@, after));
                    if after is Ok {
                        assert(seen + (seq![t@] + after->Ok_0) =~= here + after->Ok_0);
                    }
                }
                tokens.push(t);
                assert(token_views(tokens@) =~= token_views(had).push(t@));
                assert(token_views(tokens@) =~= before_line + here);
            },
            None => {},
        }
        index = next;
    }
    assert(here + Seq::<TokenView>::empty() =~= here);
    Ok(())
}

/// The tokens in the reverse order.
fn reversed(tokens: Vec<Token>) -> (r: Vec<Token>)
    ensures
        token_views(r@) == token_views(tokens@).reverse(),
{
    let mut rest = tokens;
    let mut r: Vec<Token> = Vec::new();
    let ghost all = token_views(rest@);
    while rest.len() > 0
        invariant
            rest@.len() <= all.len(),
            token_views(rest@) == all.subrange(0, rest@.len() as int),
            token_views(r@) == all.subrange(rest@.len() as int, all.len() as int).reverse(),
        decreases rest.len(),
    {
        let ghost n = rest@.len() as int;
        let ghost longer = rest@;
        let ghost turned = r@;
        let t = rest.pop().unwrap();
        r.push(t);
        proof {
            assert(token_views(rest@) =~= all.subrange(0, n - 1));
            assert(token_views(longer)[n - 1] == t@);
            assert(t@ == all[n - 1]);
            assert(token_views(r@) =~= token_views(turned).push(t@));
            assert(token_views(r@) =~= all.subrange(n - 1, all.len() as int).reverse());
        }
    }
    assert(all.subrange(0, all.len() as int) =~= all);
    r
}

/// The tokens of a program's text: see [`lexed`].
pub fn lex(program: &str) -> (r: Result<Vec<Token>, LexError>)
    ensures
        match r {
            Ok(tokens) => lexed(program@) == Ok::<Seq<TokenView>, LexError>(
                token_views(tokens@),
            ),
            Err(e) => lexed(program@) == Err::<Seq<TokenView>, LexError>(e),
        },
{
    let text = chars_of(program);
    let words_table = rules();
    let mut token_list: Vec<Token> = Vec::new();
    let mut from: usize = 0;
    let ghost words = rule_views(words_table@);
    assert(token_views(token_list@) =~= Seq::<TokenView>::empty());
    assert(Seq::<TokenView>::empty() + text_tokens(words, text@, 0)->Ok_0 =~= text_tokens(
        words,
        text@,
        0,
    )->Ok_0);
    loop
        invariant_except_break
            text_tokens(words, text@, 0) == joined_tokens(
                token_views(token_list@),
                text_tokens(words, text@, from as int),
            ),
        invariant
            from <= text.len(),
            text@ == program@,
            words == rule_views(words_table@),
            words == table(),
        ensures
            text_tokens(words, text@, 0) == Ok::<Seq<TokenView>, LexError>(
                token_views(token_list@),
            ),
        decreases text.len() - from,
    {
        let mut end: usize = from;
        while end < text.len() && text[end] != '\n'
            invariant
                from <= end <= text.len(),
                line_end(text@, from as int) == line_end(text@, end as int),
            decreases text.len() - end,
        {
            end = end + 1;
        }
        let mut raw: Vec<char> = Vec::new();
        let mut i: usize = from;
        while i < end
            invariant
                from <= i <= end <= text.len(),
                raw@ == text@.subrange(from as int, i as int),
            decreases end - i,
        {
            raw.push(text[i]);
            i = i + 1;
            assert(raw@ =~= text@.subrange(from as int, i as int));
        }
        let mut line = trim(&raw);
        line.push(' ');
        let ghost done = token_views(token_list@);
        let ghost rest = text_tokens(words, text@, from as int);
        match lex_line(&words_table, &line, &mut token_list) {
            Err(e) => {
                return Err(e);
            },
            Ok(()) => {},
        }
        if end >= text.len() {
            break;
        }
        proof {
            let here = line_tokens(words, line@, 0)->Ok_0;
            let after = text_tokens(words, text@, end + 1);
            if after is Ok {
                assert(done + (here + after->Ok_0) =~= (done + here) + after->Ok_0);
            }
        }
        from = end + 1;
    }
    Ok(reversed(token_list))
}

} // verus!
