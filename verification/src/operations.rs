//! The operators of the machine.

use vstd::prelude::*;

verus! {

/// An operator on one operand.
#[derive(Clone, Copy, Debug, PartialEq, Eq, PartialOrd, Ord, Hash, Structural)]
pub enum OpPrim1 {
    /// `++`
    Increment,
    /// `--`
    Decrement,
    /// `!`
    Not,
    /// `~`
    BitwiseNot,
}

/// An operator on two operands.
#[derive(Clone, Copy, Debug, PartialEq, Eq, PartialOrd, Ord, Hash, Structural)]
pub enum OpPrim2 {
    /// `+`
    Add,
    /// `-`
    Subtract,
    /// `*`
    Multiplication,
    /// `/`
    Division,
    /// `%`
    Modulus,
    /// `&&`
    And,
    /// `||`
    Or,
    /// `^^`
    Xor,
    /// `==`
    Equal,
    /// `!=`
    NotEqual,
    /// `>`
    Greater,
    /// `<`
    Less,
    /// `>=`
    GreaterEqual,
    /// `<=`
    LessEqual,
    /// `&`
    BitwiseAnd,
    /// `|`
    BitwiseOr,
    /// `^`
    BitwiseXor,
    /// `<<`
    ShiftLeft,
    /// `>>`
    ShiftRight,
    /// `<>`
    SameType,
}

/// An operator, with the number of operands it takes.
#[derive(Clone, Copy, Debug, PartialEq, Eq, PartialOrd, Ord, Hash, Structural)]
pub enum Operation {
    Prim1(OpPrim1),
    Prim2(OpPrim2),
}

} // verus!
