use allot::{ByteForm, OpPrim1, OpPrim2, Operation, RawType, Register};

#[test]
fn tests_operations() {
    assert_eq!(
        Operation::from_byte(0),
        Operation::Prim1(OpPrim1::Increment)
    );
}

#[test]
fn operations() {}

#[test]
fn operation_bytes_round_trip() {
    for byte in 0..=255u8 {
        match Operation::checked_from_byte(byte) {
            Some(op) => assert_eq!(op.to_byte(), byte),
            None => assert!((4..128).contains(&byte) || byte >= 128 + 20),
        }
    }
    assert_eq!(Operation::Prim2(OpPrim2::Add).to_byte(), 128);
    assert_eq!(Operation::Prim2(OpPrim2::SameType).to_byte(), 128 + 19);
    assert_eq!(Operation::Prim1(OpPrim1::BitwiseNot).to_byte(), 3);
}

#[test]
fn register_bytes() {
    assert_eq!(Register::R0.to_byte(), 0);
    assert_eq!(Register::R29.to_byte(), 29);
    assert_eq!(Register::Nil.to_byte(), 255);
    assert_eq!(Register::checked_from_byte(30), None);
    assert_eq!(Register::from_byte(255), Register::Nil);
    assert_eq!(Register::cast(7), Register::R7);
}

#[test]
fn kind_bytes() {
    assert_eq!(RawType::Nil.to_byte(), 0);
    assert_eq!(RawType::Address.to_byte(), 18);
    assert_eq!(RawType::Pointer.to_byte(), 19);
    assert_eq!(RawType::Register.to_byte(), 20);
    assert_eq!(RawType::checked_from_byte(21), None);
}
