//! The names of the registers.

use vstd::prelude::*;

verus! {

/// The name of one of the thirty register slots, or `Nil`, which names no
/// slot and only marks an operand that an instruction leaves out.
#[derive(Clone, Copy, Debug, PartialEq, Eq, PartialOrd, Ord, Hash, Structural)]
pub enum Register {
    R0,
    R1,
    R2,
    R3,
    R4,
    R5,
    R6,
    R7,
    R8,
    R9,
    R10,
    R11,
    R12,
    R13,
    R14,
    R15,
    R16,
    R17,
    R18,
    R19,
    R20,
    R21,
    R22,
    R23,
    R24,
    R25,
    R26,
    R27,
    R28,
    R29,
    Nil,
}

/// How many slots a register bank has.
pub const REGISTER_COUNT: usize = 30;

/// The byte that stands for "no register".
pub const NO_REGISTER: u8 = 255;

impl Register {
    /// The number of the register: its slot for `R0` to `R29`, 255 for `Nil`.
    pub open spec fn number(self) -> u8 {
        match self {
            Register::R0 => 0,
            Register::R1 => 1,
            Register::R2 => 2,
            Register::R3 => 3,
            Register::R4 => 4,
            Register::R5 => 5,
            Register::R6 => 6,
            Register::R7 => 7,
            Register::R8 => 8,
            Register::R9 => 9,
            Register::R10 => 10,
            Register::R11 => 11,
            Register::R12 => 12,
            Register::R13 => 13,
            Register::R14 => 14,
            Register::R15 => 15,
            Register::R16 => 16,
            Register::R17 => 17,
            Register::R18 => 18,
            Register::R19 => 19,
            Register::R20 => 20,
            Register::R21 => 21,
            Register::R22 => 22,
            Register::R23 => 23,
            Register::R24 => 24,
            Register::R25 => 25,
            Register::R26 => 26,
            Register::R27 => 27,
            Register::R28 => 28,
            Register::R29 => 29,
            Register::Nil => 255,
        }
    }

    /// The register with the given number, if there is one.
    pub open spec fn numbered(byte: u8) -> Option<Register> {
        if byte == 0 {
            Some(Register::R0)
        } else if byte == 1 {
            Some(Register::R1)
        } else if byte == 2 {
            Some(Register::R2)
        } else if byte == 3 {
            Some(Register::R3)
        } else if byte == 4 {
            Some(Register::R4)
        } else if byte == 5 {
            Some(Register::R5)
        } else if byte == 6 {
            Some(Register::R6)
        } else if byte == 7 {
            Some(Register::R7)
        } else if byte == 8 {
            Some(Register::R8)
        } else if byte == 9 {
            Some(Register::R9)
        } else if byte == 10 {
            Some(Register::R10)
        } else if byte == 11 {
            Some(Register::R11)
        } else if byte == 12 {
            Some(Register::R12)
        } else if byte == 13 {
            Some(Register::R13)
        } else if byte == 14 {
            Some(Register::R14)
        } else if byte == 15 {
            Some(Register::R15)
        } else if byte == 16 {
            Some(Register::R16)
        } else if byte == 17 {
            Some(Register::R17)
        } else if byte == 18 {
            Some(Register::R18)
        } else if byte == 19 {
            Some(Register::R19)
        } else if byte == 20 {
            Some(Register::R20)
        } else if byte == 21 {
            Some(Register::R21)
        } else if byte == 22 {
            Some(Register::R22)
        } else if byte == 23 {
            Some(Register::R23)
        } else if byte == 24 {
            Some(Register::R24)
        } else if byte == 25 {
            Some(Register::R25)
        } else if byte == 26 {
            Some(Register::R26)
        } else if byte == 27 {
            Some(Register::R27)
        } else if byte == 28 {
            Some(Register::R28)
        } else if byte == 29 {
            Some(Register::R29)
        } else if byte == 255 {
            Some(Register::Nil)
        } else {
            None
        }
    }

    /// Whether the register names a slot of the bank.
    pub open spec fn is_slot(self) -> bool {
        self != Register::Nil
    }

    /// The slot that the register names.
    pub open spec fn slot(self) -> int {
        self.number() as int
    }

    /// Tells whether the register names a slot, that is whether it is not `Nil`.
    pub fn names_slot(&self) -> (r: bool)
        ensures
            r == self.is_slot(),
            r ==> self.slot() < REGISTER_COUNT,
    {
        match self {
            Register::Nil => false,
            _ => true,
        }
    }

    /// The index of the register's slot in a bank.
    pub fn index(&self) -> (i: usize)
        requires
            self.is_slot(),
        ensures
            i == self.slot(),
            i < REGISTER_COUNT,
    {
        match self {
            Register::R0 => 0,
            Register::R1 => 1,
            Register::R2 => 2,
            Register::R3 => 3,
            Register::R4 => 4,
            Register::R5 => 5,
            Register::R6 => 6,
            Register::R7 => 7,
            Register::R8 => 8,
            Register::R9 => 9,
            Register::R10 => 10,
            Register::R11 => 11,
            Register::R12 => 12,
            Register::R13 => 13,
            Register::R14 => 14,
            Register::R15 => 15,
            Register::R16 => 16,
            Register::R17 => 17,
            Register::R18 => 18,
            Register::R19 => 19,
            Register::R20 => 20,
            Register::R21 => 21,
            Register::R22 => 22,
            Register::R23 => 23,
            Register::R24 => 24,
            Register::R25 => 25,
            Register::R26 => 26,
            Register::R27 => 27,
            Register::R28 => 28,
            Register::R29 => 29,
            Register::Nil => 255,
        }
    }

    /// The register that a byte of an encoded program names, or nothing where
    /// the byte names none.
    pub fn checked_cast(byte: u8) -> (r: Option<Register>)
        ensures
            r == Register::numbered(byte),
    {
        match byte {
            0 => Some(Register::R0),
            1 => Some(Register::R1),
            2 => Some(Register::R2),
            3 => Some(Register::R3),
            4 => Some(Register::R4),
            5 => Some(Register::R5),
            6 => Some(Register::R6),
            7 => Some(Register::R7),
            8 => Some(Register::R8),
            9 => Some(Register::R9),
            10 => Some(Register::R10),
            11 => Some(Register::R11),
            12 => Some(Register::R12),
            13 => Some(Register::R13),
            14 => Some(Register::R14),
            15 => Some(Register::R15),
            16 => Some(Register::R16),
            17 => Some(Register::R17),
            18 => Some(Register::R18),
            19 => Some(Register::R19),
            20 => Some(Register::R20),
            21 => Some(Register::R21),
            22 => Some(Register::R22),
            23 => Some(Register::R23),
            24 => Some(Register::R24),
            25 => Some(Register::R25),
            26 => Some(Register::R26),
            27 => Some(Register::R27),
            28 => Some(Register::R28),
            29 => Some(Register::R29),
            255 => Some(Register::Nil),
            _ => None,
        }
    }

    /// The register that a byte names.
    pub fn cast(byte: u8) -> (r: Register)
        requires
            Register::numbered(byte) is Some,
        ensures
            Some(r) == Register::numbered(byte),
            r.number() == byte,
    {
        match Register::checked_cast(byte) {
            Some(r) => r,
            None => Register::Nil,
        }
    }
}

/// Every register is the one that its own number names.
pub proof fn lemma_register_number_round_trip(register: Register)
    ensures
        Register::numbered(register.number()) == Some(register),
{
}

/// A byte that names a register is that register's number, so no two
/// registers share a number.
pub proof fn lemma_register_numbered_is_number(byte: u8, register: Register)
    requires
        Register::numbered(byte) == Some(register),
    ensures
        register.number() == byte,
{
}

} // verus!
