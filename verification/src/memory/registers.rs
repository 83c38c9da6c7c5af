//! The bank of registers.

use vstd::prelude::*;
use crate::register::{Register, REGISTER_COUNT};
use crate::types::{Type, Value};

verus! {

/// The thirty registers of one engine.
#[derive(Debug, PartialEq)]
pub struct Registers(Vec<Type>);

impl View for Registers {
    type V = Seq<Value>;

    closed spec fn view(&self) -> Seq<Value> {
        self.0@.map_values(|t: Type| t@)
    }
}

/// Whether values can be those of a register bank: there are thirty of them
/// and none is the name of a register.
pub open spec fn bank_wf(bank: Seq<Value>) -> bool {
    &&& bank.len() == REGISTER_COUNT
    &&& forall|i: int| 0 <= i < bank.len() ==> (#[trigger] bank[i]).storable()
}

/// A bank in which every register holds `Nil`.
pub open spec fn empty_bank() -> Seq<Value> {
    Seq::new(REGISTER_COUNT as nat, |i: int| Value::Nil)
}

impl Registers {
    /// Whether the bank is well formed: see [`bank_wf`].
    pub open spec fn wf(&self) -> bool {
        bank_wf(self@)
    }

    /// A bank in which every register holds `Nil`.
    pub fn new() -> (bank: Registers)
        ensures
            bank.wf(),
            bank@ == empty_bank(),
    {
        let mut slots: Vec<Type> = Vec::new();
        let mut i: usize = 0;
        while i < REGISTER_COUNT
            invariant
                i <= REGISTER_COUNT,
                slots@.len() == i,
                forall|j: int| 0 <= j < i ==> (#[trigger] slots@[j])@ == Value::Nil,
            decreases REGISTER_COUNT - i,
        {
            slots.push(Type::Nil);
            i = i + 1;
        }
        let bank = Registers(slots);
        assert(bank@ =~= empty_bank());
        bank
    }

    /// The value that a register holds.
    pub fn get(&self, register: Register) -> (value: &Type)
        requires
            self.wf(),
            register.is_slot(),
        ensures
            value@ == self@[register.slot()],
            value@.storable(),
    {
        assert(self@[register.slot()].storable());
        &self.0[register.index()]
    }

    /// The value that a register holds, to be changed in place. The bank
    /// stays well formed if what is left there is no name of a register.
    pub fn get_mut(&mut self, register: Register) -> (value: &mut Type)
        requires
            old(self).wf(),
            register.is_slot(),
        ensures
            value@ == old(self)@[register.slot()],
            final(self)@ == old(self)@.update(register.slot(), final(value)@),
            final(value)@.storable() ==> final(self).wf(),
    {
        let i = register.index();
        &mut self.0[i]
    }

    /// Puts a value into a register, in place of the one it held.
    pub fn insert(&mut self, register: Register, t: Type)
        requires
            old(self).wf(),
            register.is_slot(),
            t@.storable(),
        ensures
            final(self).wf(),
            final(self)@ == old(self)@.update(register.slot(), t@),
    {
        let i = register.index();
        let mut incoming = t;
        std::mem::swap(&mut self.0[i], &mut incoming);
        assert(self@ =~= old(self)@.update(register.slot(), t@));
    }

    /// Takes the value out of a register and leaves `Nil` there.
    pub fn take(&mut self, register: Register) -> (value: Type)
        requires
            old(self).wf(),
            register.is_slot(),
        ensures
            final(self).wf(),
            value@ == old(self)@[register.slot()],
            value@.storable(),
            final(self)@ == old(self)@.update(register.slot(), Value::Nil),
    {
        assert(self@[register.slot()].storable());
        let i = register.index();
        let mut element = Type::Nil;
        std::mem::swap(&mut self.0[i], &mut element);
        assert(self@ =~= old(self)@.update(register.slot(), Value::Nil));
        element
    }

    /// A copy of the value that a register holds; the register keeps its own.
    pub fn clone(&self, register: Register) -> (value: Type)
        requires
            self.wf(),
            register.is_slot(),
        ensures
            value@ == self@[register.slot()],
            value@.storable(),
    {
        self.get(register).copy()
    }
}

impl Default for Registers {
    fn default() -> (bank: Registers)
        ensures
            bank.wf(),
            bank@ == empty_bank(),
    {
        Registers::new()
    }
}

} // verus!
