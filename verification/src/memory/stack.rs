//! The frames of the stack.

use vstd::prelude::*;
use crate::types::{Type, Value};

verus! {

/// One frame of the stack: values, the last of which is on top.
#[derive(Debug, PartialEq)]
pub struct StackFrame {
    stack: Vec<Type>,
    isolated: bool,
}

impl View for StackFrame {
    type V = Seq<Value>;

    closed spec fn view(&self) -> Seq<Value> {
        self.stack@.map_values(|t: Type| t@)
    }
}

/// What is left of a frame after `n` values were removed from its top.
pub open spec fn without_top(frame: Seq<Value>, n: nat) -> Seq<Value> {
    frame.subrange(0, frame.len() - n)
}

/// The value at a depth below the top of a frame; depth 0 is the top.
pub open spec fn at_depth(frame: Seq<Value>, depth: nat) -> Value {
    frame[frame.len() - 1 - depth]
}

/// A frame after values were put on it one after the other, the first of
/// them first.
pub open spec fn pushed_each(frame: Seq<Value>, values: Seq<Value>) -> Seq<Value>
    decreases values.len(),
{
    if values.len() == 0 {
        frame
    } else {
        pushed_each(frame.push(values[0]), values.skip(1))
    }
}

/// The values that `n` pops take from a frame, in the order in which they
/// come off.
pub open spec fn popped_each(frame: Seq<Value>, n: nat) -> Seq<Value>
    decreases n,
{
    if n == 0 {
        Seq::empty()
    } else {
        seq![frame.last()] + popped_each(frame.drop_last(), (n - 1) as nat)
    }
}

impl StackFrame {
    /// Whether the frame is marked as isolated.
    pub closed spec fn is_isolated(&self) -> bool {
        self.isolated
    }

    /// An empty frame.
    pub fn new(isolated: bool) -> (frame: StackFrame)
        ensures
            frame@ == Seq::<Value>::empty(),
            frame.is_isolated() == isolated,
    {
        let frame = StackFrame { stack: Vec::new(), isolated };
        assert(frame@ =~= Seq::<Value>::empty());
        frame
    }

    /// A frame that takes over every value of another one, which is left
    /// empty.
    pub fn from(stack_frame: &mut StackFrame) -> (frame: StackFrame)
        ensures
            frame@ == old(stack_frame)@,
            !frame.is_isolated(),
            final(stack_frame)@ == Seq::<Value>::empty(),
            final(stack_frame).is_isolated() == old(stack_frame).is_isolated(),
    {
        let mut stack: Vec<Type> = Vec::new();
        std::mem::swap(&mut stack_frame.stack, &mut stack);
        assert(stack_frame@ =~= Seq::<Value>::empty());
        StackFrame { stack, isolated: false }
    }

    /// Tells whether the frame is marked as isolated.
    pub fn isolated(&self) -> (r: bool)
        ensures
            r == self.is_isolated(),
    {
        self.isolated
    }

    /// The number of values in the frame.
    pub fn len(&self) -> (n: usize)
        ensures
            n == self@.len(),
    {
        self.stack.len()
    }

    /// Puts a value on top.
    pub fn push(&mut self, t: Type)
        ensures
            final(self)@ == old(self)@.push(t@),
            final(self).is_isolated() == old(self).is_isolated(),
    {
        self.stack.push(t);
        assert(self@ =~= old(self)@.push(t@));
    }

    /// Removes the value on top and gives it.
    pub fn pop(&mut self) -> (value: Type)
        requires
            old(self)@.len() > 0,
        ensures
            value@ == old(self)@.last(),
            final(self)@ == old(self)@.drop_last(),
            final(self).is_isolated() == old(self).is_isolated(),
    {
        let value = self.stack.pop().unwrap();
        assert(self@ =~= old(self)@.drop_last());
        value
    }

    /// A copy of the value at a depth below the top; depth 0 is the top.
    pub fn clone_offset(&self, offset: usize) -> (value: Type)
        requires
            offset < self@.len(),
        ensures
            value@ == at_depth(self@, offset as nat),
    {
        let index = self.stack.len() - offset - 1;
        self.stack[index].copy()
    }
}

impl Default for StackFrame {
    fn default() -> (frame: StackFrame)
        ensures
            frame@ == Seq::<Value>::empty(),
            !frame.is_isolated(),
    {
        StackFrame::new(false)
    }
}

} // verus!
