//! From the text of a program to its instructions in one step.

use vstd::prelude::*;
use crate::assembly::lexer::{lex, lexed, LexError};
use crate::assembly::parser::{parse, parsed, ParseError};
use crate::instructions::{Instruction, InstructionView};

verus! {

/// Why a text is no program.
#[derive(Clone, Copy, Debug, PartialEq, Eq, Hash, Structural)]
pub enum CompileError {
    /// The text has no tokens.
    Lex(LexError),
    /// The tokens are no instructions.
    Parse(ParseError),
}

/// The program that a text is: the instructions that its tokens are.
pub open spec fn compiled(program: Seq<char>) -> Result<Seq<InstructionView>, CompileError> {
    match lexed(program) {
        Err(e) => Err(CompileError::Lex(e)),
        Ok(tokens) => match parsed(tokens) {
            Err(e) => Err(CompileError::Parse(e)),
            Ok(instructions) => Ok(instructions),
        },
    }
}

/// The program that a text is, or why it is none: see [`compiled`].
///
/// A text with a floating-point literal is none here, because the literal
/// has to be read by the embedding program: such a text goes through
/// [`lex`], then [`crate::assembly::parser::float_literal`] for each of its
/// tokens, then [`parse`].
pub fn compile(program: String) -> (r: Result<Vec<Instruction>, CompileError>)
    ensures
        match r {
            Ok(instructions) => compiled(program@) == Ok::<Seq<InstructionView>, CompileError>(
                instructions@.map_values(|i: Instruction| i@),
            ),
            Err(e) => compiled(program@) == Err::<Seq<InstructionView>, CompileError>(e),
        },
{
    let tokens = match lex(program.as_str()) {
        Ok(tokens) => tokens,
        Err(e) => {
            return Err(CompileError::Lex(e));
        },
    };
    match parse(tokens) {
        Ok(instructions) => Ok(instructions),
        Err(e) => Err(CompileError::Parse(e)),
    }
}

} // verus!
