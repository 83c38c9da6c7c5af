use allot::{Heap, HeapBox, Register, Registers, StackFrame, Type};

const SLOTS: [Register; 30] = [
    Register::R0, Register::R1, Register::R2, Register::R3, Register::R4, Register::R5,
    Register::R6, Register::R7, Register::R8, Register::R9, Register::R10, Register::R11,
    Register::R12, Register::R13, Register::R14, Register::R15, Register::R16, Register::R17,
    Register::R18, Register::R19, Register::R20, Register::R21, Register::R22, Register::R23,
    Register::R24, Register::R25, Register::R26, Register::R27, Register::R28, Register::R29,
];

#[test]
fn fresh_registers_hold_nil() {
    let registers = Registers::new();
    let by_default = Registers::default();
    for register in SLOTS {
        assert!(register.names_slot());
        assert_eq!(registers.get(register), &Type::Nil);
        assert_eq!(by_default.get(register), &Type::Nil);
    }
    assert!(!Register::Nil.names_slot());
}

#[test]
fn registers_insert_take_clone() {
    let mut registers = Registers::new();
    registers.insert(Register::R3, Type::UInt(7));
    registers.insert(Register::R29, Type::String("last".to_string()));
    assert_eq!(registers.get(Register::R3), &Type::UInt(7));
    assert_eq!(registers.clone(Register::R3), Type::UInt(7));
    assert_eq!(registers.get(Register::R3), &Type::UInt(7));
    assert_eq!(registers.take(Register::R3), Type::UInt(7));
    assert_eq!(registers.get(Register::R3), &Type::Nil);
    assert_eq!(registers.take(Register::R29), Type::String("last".to_string()));
    for register in SLOTS {
        assert_eq!(registers.get(register), &Type::Nil);
        assert_eq!(register.index(), register as usize);
    }
}

#[test]
fn registers_change_in_place() {
    let mut registers = Registers::new();
    registers.insert(Register::R7, Type::Boolean(false));
    *registers.get_mut(Register::R7) = Type::Boolean(true);
    assert_eq!(registers.get(Register::R7), &Type::Boolean(true));
    if let Type::Boolean(flag) = registers.get_mut(Register::R7) {
        *flag = false;
    }
    assert_eq!(registers.get(Register::R7), &Type::Boolean(false));
    assert_eq!(registers.get(Register::R6), &Type::Nil);
}

#[test]
fn stack_gives_values_back_in_reverse() {
    let mut frame = StackFrame::new(false);
    let values: Vec<Type> = (0..10).map(Type::Int32).collect();
    for value in &values {
        frame.push(value.copy());
    }
    assert_eq!(frame.len(), 10);
    assert_eq!(frame.clone_offset(0), Type::Int32(9));
    assert_eq!(frame.clone_offset(9), Type::Int32(0));
    let mut popped = Vec::new();
    while frame.len() > 0 {
        popped.push(frame.pop());
    }
    let mut reversed = values;
    reversed.reverse();
    assert_eq!(popped, reversed);
    // Nothing is left for an eleventh pop.
    assert_eq!(frame.len(), 0);
}

#[test]
fn frames_keep_their_mark_and_hand_over() {
    assert!(StackFrame::new(true).isolated());
    assert!(!StackFrame::new(false).isolated());
    assert!(!StackFrame::default().isolated());
    let mut frame = StackFrame::new(true);
    frame.push(Type::UInt8(1));
    frame.push(Type::UInt8(2));
    let mut taken = StackFrame::from(&mut frame);
    assert_eq!(frame.len(), 0);
    assert!(frame.isolated());
    assert!(!taken.isolated());
    assert_eq!(taken.pop(), Type::UInt8(2));
    assert_eq!(taken.pop(), Type::UInt8(1));
}

#[test]
fn heap_hands_out_fresh_pointers() {
    let mut heap: Heap<&str> = Heap::new();
    assert!(!heap.contains(0));
    assert_eq!(heap.push(HeapBox::Type(Type::UInt(5))), Type::Pointer(0));
    assert_eq!(heap.push(HeapBox::Thread("thread")), Type::Pointer(1));
    assert_eq!(heap.push(HeapBox::Type(Type::Nil)), Type::Pointer(2));
    assert_eq!(heap.get(0), &HeapBox::Type(Type::UInt(5)));
    assert_eq!(heap.get(1), &HeapBox::Thread("thread"));
    assert!(!heap.is_full());
}

#[test]
fn heap_take_and_free_leave_nothing() {
    let mut heap: Heap<()> = Heap::default();
    let Type::Pointer(first) = heap.push(HeapBox::Type(Type::UInt(5))) else { panic!() };
    let Type::Pointer(second) = heap.push(HeapBox::Type(Type::UInt(6))) else { panic!() };
    assert_eq!(heap.take(first), HeapBox::Type(Type::UInt(5)));
    // There is nothing for a second take.
    assert!(!heap.contains(first));
    assert!(heap.contains(second));
    heap.update(second, HeapBox::Type(Type::UInt(7)));
    assert_eq!(heap.get(second), &HeapBox::Type(Type::UInt(7)));
    // A pointer that was given before takes an object again.
    heap.update(first, HeapBox::Type(Type::UInt(8)));
    assert_eq!(heap.take(first), HeapBox::Type(Type::UInt(8)));
    heap.free(second);
    // There is nothing to get after a free.
    assert!(!heap.contains(second));
    // A pointer is not handed out again.
    assert_eq!(heap.push(HeapBox::Type(Type::Nil)), Type::Pointer(2));
}
