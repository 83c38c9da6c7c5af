//! Programs as bytes: writing them and reading them back.

pub mod format;
pub mod gen;
pub mod laws;
pub mod parse;

pub use format::{BytecodeError, BYTECODE_VERSION};
pub use gen::{gen, write_op, write_register};
pub use parse::{parse, read_op, read_register};
