//! The assembler: from the text of a program to its instructions.

pub mod compile;
pub mod lexer;
pub mod parser;

pub use compile::{compile, CompileError};
pub use lexer::{lex, LexError, Token};
pub use parser::{float_literal, parse, ParseError};
