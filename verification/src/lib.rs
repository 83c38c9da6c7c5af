//! A small register machine: its values and instructions, the byte format of
//! its programs, and the engine that runs them one instruction at a time.

pub mod assembly;
pub mod buffer;
pub mod bytecode;
pub mod bytes;
pub mod cast;
pub mod chars;
pub mod fault;
pub mod floats;
pub mod forms;
pub mod instructions;
pub mod laws;
pub mod library;
pub mod machine;
pub mod memory;
pub mod numbers;
pub mod operations;
pub mod register;
pub mod rules;
pub mod runtime;
pub mod solve;
pub mod text;
pub mod types;

pub use buffer::Buffer;
pub use fault::Fault;
pub use forms::ByteForm;
pub use memory::{Heap, HeapBox, HeapItem, Registers, StackFrame};
pub use instructions::{Instruction, InstructionView, RawInstruction};
pub use operations::{OpPrim1, OpPrim2, Operation};
pub use register::Register;
pub use types::{RawType, Type, Value};
pub use cast::cast;
pub use library::{
    call, lib_return, Answer, HostReply, HostRequest, LibraryFunction, LibraryRegisters,
    LibraryReturn,
};
pub use machine::ASSERT_FAILED;
pub use runtime::{AllotRuntime, Tick};
pub use bytecode::{gen, parse, BytecodeError, BYTECODE_VERSION};
pub use assembly::{compile, lex, CompileError, LexError, ParseError, Token};
pub use floats::{FloatResult, FloatWork};
