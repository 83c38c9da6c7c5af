//! What a running program keeps its values in: the registers, the stack of
//! frames, and the heap.

pub mod heap;
pub mod registers;
pub mod stack;

pub use heap::{Heap, HeapBox, HeapItem};
pub use registers::Registers;
pub use stack::StackFrame;
