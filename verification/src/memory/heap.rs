//! The heap: objects under pointers that are never handed out twice.

use std::collections::BTreeMap;
use vstd::prelude::*;
use crate::types::{Type, Value};

verus! {

/// An object that the heap owns: a value, or the handle of a thread that the
/// embedding program started. `H` is that handle's type; the library only
/// keeps it and hands it back.
#[derive(Debug, PartialEq)]
pub enum HeapBox<H> {
    Type(Type),
    Thread(H),
}

/// What a [`HeapBox`] stands for.
pub enum HeapItem<H> {
    Type(Value),
    Thread(H),
}

impl<H> View for HeapBox<H> {
    type V = HeapItem<H>;

    open spec fn view(&self) -> HeapItem<H> {
        match self {
            HeapBox::Type(t) => HeapItem::Type(t@),
            HeapBox::Thread(h) => HeapItem::Thread(*h),
        }
    }
}

/// The table of the objects that a program's threads share, each under the
/// pointer that `push` gave for it.
#[derive(Debug)]
pub struct Heap<H> {
    heap: BTreeMap<usize, HeapBox<H>>,
    heap_pointer: usize,
}

impl<H> View for Heap<H> {
    type V = Map<usize, HeapItem<H>>;

    closed spec fn view(&self) -> Map<usize, HeapItem<H>> {
        self.heap@.map_values(|b: HeapBox<H>| b@)
    }
}

impl<H> Heap<H> {
    /// The pointer that the next `push` gives.
    pub closed spec fn next(&self) -> usize {
        self.heap_pointer
    }

    /// Whether the heap is well formed: every pointer in use was given by an
    /// earlier `push`, so the next one is fresh.
    pub open spec fn wf(&self) -> bool {
        forall|p: usize| self@.contains_key(p) ==> p < self.next()
    }

    /// A heap without objects, whose first pointer is 0.
    pub fn new() -> (heap: Heap<H>)
        ensures
            heap.wf(),
            heap@ == Map::<usize, HeapItem<H>>::empty(),
            heap.next() == 0,
    {
        let heap = Heap { heap: BTreeMap::new(), heap_pointer: 0 };
        assert(heap@ =~= Map::<usize, HeapItem<H>>::empty());
        heap
    }

    /// Tells whether a pointer refers to an object.
    pub fn contains(&self, pointer: usize) -> (r: bool)
        ensures
            r == self@.contains_key(pointer),
    {
        broadcast use vstd::std_specs::btree::group_btree_axioms;

        assert(vstd::laws_cmp::obeys_cmp::<usize>());
        self.heap.contains_key(&pointer)
    }

    /// Tells whether every pointer has been given out, so that `push` cannot
    /// give another.
    pub fn is_full(&self) -> (r: bool)
        ensures
            r == (self.next() == usize::MAX),
    {
        self.heap_pointer == usize::MAX
    }

    /// Stores an object and gives the pointer to it, which no object had
    /// before.
    pub fn push(&mut self, t: HeapBox<H>) -> (pointer: Type)
        requires
            old(self).wf(),
            old(self).next() < usize::MAX,
        ensures
            final(self).wf(),
            pointer@ == Value::Pointer(old(self).next()),
            !old(self)@.contains_key(old(self).next()),
            final(self)@ == old(self)@.insert(old(self).next(), t@),
            final(self).next() == old(self).next() + 1,
    {
        broadcast use vstd::std_specs::btree::group_btree_axioms;

        assert(vstd::laws_cmp::obeys_cmp::<usize>());
        let i = self.heap_pointer;
        self.heap_pointer = self.heap_pointer + 1;
        self.heap.insert(i, t);
        assert(self@ =~= old(self)@.insert(i, t@));
        Type::Pointer(i)
    }

    /// The object that a pointer refers to; the heap keeps it.
    pub fn get(&self, pointer: usize) -> (item: &HeapBox<H>)
        requires
            self@.contains_key(pointer),
        ensures
            item@ == self@[pointer],
    {
        broadcast use vstd::std_specs::btree::group_btree_axioms;

        assert(vstd::laws_cmp::obeys_cmp::<usize>());
        self.heap.get(&pointer).unwrap()
    }

    /// Removes the object that a pointer refers to and gives it.
    pub fn take(&mut self, pointer: usize) -> (item: HeapBox<H>)
        requires
            old(self).wf(),
            old(self)@.contains_key(pointer),
        ensures
            final(self).wf(),
            item@ == old(self)@[pointer],
            final(self)@ == old(self)@.remove(pointer),
            final(self).next() == old(self).next(),
    {
        broadcast use vstd::std_specs::btree::group_btree_axioms;

        assert(vstd::laws_cmp::obeys_cmp::<usize>());
        let item = self.heap.remove(&pointer).unwrap();
        assert(self@ =~= old(self)@.remove(pointer));
        item
    }

    /// Stores an object under a pointer that `push` has given before, in
    /// place of the object that the pointer refers to, if it refers to one.
    pub fn update(&mut self, pointer: usize, t: HeapBox<H>)
        requires
            old(self).wf(),
            pointer < old(self).next(),
        ensures
            final(self).wf(),
            final(self)@ == old(self)@.insert(pointer, t@),
            final(self).next() == old(self).next(),
    {
        broadcast use vstd::std_specs::btree::group_btree_axioms;

        assert(vstd::laws_cmp::obeys_cmp::<usize>());
        self.heap.insert(pointer, t);
        assert(self@ =~= old(self)@.insert(pointer, t@));
    }

    /// Removes the object that a pointer refers to and drops it.
    pub fn free(&mut self, pointer: usize)
        requires
            old(self).wf(),
            old(self)@.contains_key(pointer),
        ensures
            final(self).wf(),
            final(self)@ == old(self)@.remove(pointer),
            final(self).next() == old(self).next(),
    {
        broadcast use vstd::std_specs::btree::group_btree_axioms;

        assert(vstd::laws_cmp::obeys_cmp::<usize>());
        self.heap.remove(&pointer);
        assert(self@ =~= old(self)@.remove(pointer));
    }
}

impl<H> Default for Heap<H> {
    fn default() -> (heap: Heap<H>)
        ensures
            heap.wf(),
            heap@ == Map::<usize, HeapItem<H>>::empty(),
            heap.next() == 0,
    {
        Heap::new()
    }
}

} // verus!
