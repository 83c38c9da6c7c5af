//! How values are written as text.

use vstd::prelude::*;
use crate::fault::Fault;
use crate::register::Register;
use crate::rules::{integer, magnitude};
use crate::types::{Type, Value};

verus! {

/// The sixteen digits, in the order of their worth.
pub open spec fn digit_chars() -> Seq<char> {
    seq!['0', '1', '2', '3', '4', '5', '6', '7', '8', '9', 'A', 'B', 'C', 'D', 'E', 'F']
}

/// A natural number in a base from 2 to 16: its digits, the most significant
/// first, and the single digit 0 for zero.
pub open spec fn digits(n: nat, base: nat) -> Seq<char>
    recommends
        2 <= base <= 16,
    decreases n,
{
    if base < 2 || n < base {
        seq![digit_chars()[n as int]]
    } else {
        proof {
            vstd::arithmetic::div_mod::lemma_div_decreases(n as int, base as int);
            vstd::arithmetic::div_mod::lemma_div_pos_is_pos(n as int, base as int);
        }
        digits(n / base, base) + seq![digit_chars()[(n % base) as int]]
    }
}

/// An integer in base ten, with a minus sign before a negative one.
pub open spec fn decimal(i: int) -> Seq<char> {
    if i < 0 {
        seq!['-'] + digits(magnitude(i) as nat, 10)
    } else {
        digits(i as nat, 10)
    }
}

/// The name of a register: `R` and its number, or `None` for the register
/// that names no slot.
pub open spec fn register_name(register: Register) -> Seq<char> {
    if register.is_slot() {
        seq!['R'] + digits(register.number() as nat, 10)
    } else {
        seq!['N', 'o', 'n', 'e']
    }
}

/// The text that stands for a value when it is written out. A value of a
/// floating-point kind has none here.
pub open spec fn text_of(v: Value) -> Result<Seq<char>, Fault> {
    match v {
        Value::Nil => Ok(Seq::empty()),
        Value::Float32(_) | Value::Float64(_) => Err(Fault::FloatingPoint),
        Value::Char(c) => Ok(seq![c]),
        Value::String(s) => Ok(s),
        Value::Boolean(b) => Ok(
            if b {
                seq!['t', 'r', 'u', 'e']
            } else {
                seq!['f', 'a', 'l', 's', 'e']
            },
        ),
        Value::Address(a) => Ok(digits(a as nat, 16)),
        Value::Pointer(p) => Ok(digits(p as nat, 16)),
        Value::Register(r) => Ok(register_name(r)),
        _ => Ok(decimal(integer(v))),
    }
}

/// `String::push` of std: adds one character at the end of the text.
pub assume_specification[ std::string::String::push ](text: &mut std::string::String, ch: char)
    ensures
        final(text)@ == old(text)@.push(ch),
;

/// The characters of a text.
pub fn chars_of(text: &str) -> (chars: Vec<char>)
    ensures
        chars@ == text@,
{
    let mut chars: Vec<char> = Vec::new();
    for c in it: text.chars()
        invariant
            chars@ == it.seq().take(it.index() as int),
            it.seq() == text@,
    {
        chars.push(c);
    }
    chars
}

/// The text of one digit.
fn digit_text(d: u8) -> (text: &'static str)
    requires
        d < 16,
    ensures
        text@ == seq![digit_chars()[d as int]],
{
    proof {
        reveal_strlit("0");
        reveal_strlit("1");
        reveal_strlit("2");
        reveal_strlit("3");
        reveal_strlit("4");
        reveal_strlit("5");
        reveal_strlit("6");
        reveal_strlit("7");
        reveal_strlit("8");
        reveal_strlit("9");
        reveal_strlit("A");
        reveal_strlit("B");
        reveal_strlit("C");
        reveal_strlit("D");
        reveal_strlit("E");
        reveal_strlit("F");
    }
    let text = match d {
        0 => "0",
        1 => "1",
        2 => "2",
        3 => "3",
        4 => "4",
        5 => "5",
        6 => "6",
        7 => "7",
        8 => "8",
        9 => "9",
        10 => "A",
        11 => "B",
        12 => "C",
        13 => "D",
        14 => "E",
        _ => "F",
    };
    assert(text@ =~= seq![digit_chars()[d as int]]);
    text
}

/// Adds the digits of a number to a text.
fn push_digits(out: &mut String, n: u128, base: u128)
    requires
        2 <= base <= 16,
    ensures
        final(out)@ == old(out)@ + digits(n as nat, base as nat),
    decreases n,
{
    if n >= base {
        proof {
            vstd::arithmetic::div_mod::lemma_div_decreases(n as int, base as int);
        }
        push_digits(out, n / base, base);
    }
    out.append(digit_text((n % base) as u8));
    proof {
        let last = seq![digit_chars()[(n % base) as int]];
        if n >= base {
            assert(digits(n as nat, base as nat) == digits((n / base) as nat, base as nat)
                + last);
            assert(out@ =~= old(out)@ + (digits((n / base) as nat, base as nat) + last));
        } else {
            vstd::arithmetic::div_mod::lemma_small_mod(n as nat, base as nat);
            assert(digits(n as nat, base as nat) == last);
        }
    }
}

/// Adds a signed integer in base ten to a text.
fn push_signed(out: &mut String, i: i128)
    ensures
        final(out)@ == old(out)@ + decimal(i as int),
{
    if i < 0 {
        proof {
            reveal_strlit("-");
        }
        out.append("-");
        assert(out@ =~= old(out)@ + seq!['-']);
        push_digits(out, (-(i + 1)) as u128 + 1, 10);
        assert(out@ =~= old(out)@ + decimal(i as int));
    } else {
        push_digits(out, i as u128, 10);
    }
}

impl Type {
    /// The text that stands for the value when it is written out: see
    /// [`text_of`].
    pub fn to_text(&self) -> (r: Result<String, Fault>)
        ensures
            match r {
                Ok(text) => text_of(self@) == Ok::<Seq<char>, Fault>(text@),
                Err(e) => text_of(self@) == Err::<Seq<char>, Fault>(e),
            },
    {
        let mut out = String::new();
        match self {
            Type::Nil => {},
            Type::Int8(v) => push_signed(&mut out, *v as i128),
            Type::Int16(v) => push_signed(&mut out, *v as i128),
            Type::Int32(v) => push_signed(&mut out, *v as i128),
            Type::Int(v) => push_signed(&mut out, *v as i128),
            Type::Int64(v) => push_signed(&mut out, *v as i128),
            Type::Int128(v) => push_signed(&mut out, *v),
            Type::UInt8(v) => push_digits(&mut out, *v as u128, 10),
            Type::UInt16(v) => push_digits(&mut out, *v as u128, 10),
            Type::UInt32(v) => push_digits(&mut out, *v as u128, 10),
            Type::UInt(v) => push_digits(&mut out, *v as u128, 10),
            Type::UInt64(v) => push_digits(&mut out, *v as u128, 10),
            Type::UInt128(v) => push_digits(&mut out, *v, 10),
            Type::Float32(_) | Type::Float64(_) => {
                return Err(Fault::FloatingPoint);
            },
            Type::Char(c) => {
                out.push(*c);
                assert(out@ =~= seq![*c]);
            },
            Type::String(s) => {
                return Ok(s.clone());
            },
            Type::Boolean(b) => {
                proof {
                    reveal_strlit("true");
                    reveal_strlit("false");
                }
                if *b {
                    out.append("true");
                    assert(out@ =~= seq!['t', 'r', 'u', 'e']);
                } else {
                    out.append("false");
                    assert(out@ =~= seq!['f', 'a', 'l', 's', 'e']);
                }
            },
            Type::Address(a) => push_digits(&mut out, *a as u128, 16),
            Type::Pointer(p) => push_digits(&mut out, *p as u128, 16),
            Type::Register(r) => {
                proof {
                    reveal_strlit("R");
                    reveal_strlit("None");
                }
                if r.names_slot() {
                    out.append("R");
                    assert(out@ =~= seq!['R']);
                    push_digits(&mut out, r.index() as u128, 10);
                } else {
                    out.append("None");
                    assert(out@ =~= seq!['N', 'o', 'n', 'e']);
                }
            },
        }
        assert(Seq::<char>::empty() + out@ =~= out@);
        Ok(out)
    }
}

} // verus!
