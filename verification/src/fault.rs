//! The ways in which a program can fail.

use vstd::prelude::*;

verus! {

/// Why a program cannot go on. None of these can be recovered from inside the
/// program: the embedding program is expected to stop with a failure status.
#[derive(Clone, Copy, Debug, PartialEq, Eq, Hash, Structural)]
pub enum Fault {
    /// The instruction pointer is outside the program.
    NoInstruction,
    /// An operand names no register slot where a slot is needed.
    InvalidRegister,
    /// A register descriptor was about to become a register's resident value.
    RegisterValue,
    /// An operand has a kind that the operation is not defined on.
    TypeMismatch,
    /// The operation needs the numeric value of a floating-point payload,
    /// which this library only carries as bits.
    FloatingPoint,
    /// An integer or code point was divided by zero.
    DivisionByZero,
    /// The least value of a signed kind was divided by minus one.
    Overflow,
    /// Code point arithmetic left the set of Unicode scalar values.
    InvalidChar,
    /// The conversion between the two kinds is not defined, or the value is
    /// a text that says nothing of the kind it is to become.
    UnsupportedCast,
    /// A frame holds fewer values than an instruction removes or skips.
    EmptyStack,
    /// The only frame left was about to be removed.
    LastFrame,
    /// No library function has the name that was called.
    UnknownFunction,
    /// A heap handle refers to nothing, or to an object of another sort.
    InvalidPointer,
    /// The heap has handed out every handle it had.
    HeapExhausted,
    /// The instruction is reserved and has no meaning yet.
    Reserved,
}

} // verus!
