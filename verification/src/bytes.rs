//! Numbers as bytes, least significant byte first.

use vstd::prelude::*;

verus! {

/// 256 to the power `n`: how many values `n` bytes can tell apart.
pub open spec fn radix(n: nat) -> nat
    decreases n,
{
    if n == 0 {
        1
    } else {
        256 * radix((n - 1) as nat)
    }
}

/// The `n` low bytes of a number, least significant first.
pub open spec fn le_bytes(value: nat, n: nat) -> Seq<u8>
    decreases n,
{
    if n == 0 {
        Seq::empty()
    } else {
        seq![(value % 256) as u8] + le_bytes(value / 256, (n - 1) as nat)
    }
}

/// The number that bytes stand for, least significant first.
pub open spec fn le_value(bytes: Seq<u8>) -> nat
    decreases bytes.len(),
{
    if bytes.len() == 0 {
        0
    } else {
        bytes[0] as nat + 256 * le_value(bytes.skip(1))
    }
}

/// The number below `radix(n)` that stands for a signed number in two's
/// complement on `n` bytes.
pub open spec fn unsigned_of(value: int, n: nat) -> nat {
    if value < 0 {
        (value + radix(n)) as nat
    } else {
        value as nat
    }
}

/// The signed number that a number below `radix(n)` stands for in two's
/// complement on `n` bytes.
pub open spec fn signed_of(value: nat, n: nat) -> int {
    if 2 * value >= radix(n) {
        value - radix(n)
    } else {
        value as int
    }
}

/// Whether a number is a Unicode scalar value, that is stands for a `char`.
pub open spec fn is_scalar_value(value: nat) -> bool {
    value <= 0xD7FF || (0xE000 <= value && value <= 0x10FFFF)
}

/// The powers of 256 that the integer widths of the machine need.
pub proof fn lemma_radix_values()
    ensures
        radix(0) == 1,
        radix(1) == 0x100,
        radix(2) == 0x1_0000,
        radix(4) == 0x1_0000_0000,
        radix(8) == 0x1_0000_0000_0000_0000,
        radix(16) == 0x1_0000_0000_0000_0000_0000_0000_0000_0000,
{
    reveal_with_fuel(radix, 17);
}

/// A larger exponent gives no smaller power.
pub proof fn lemma_radix_grows(a: nat, b: nat)
    requires
        a <= b,
    ensures
        1 <= radix(a) <= radix(b),
    decreases b,
{
    if b == 0 {
    } else if a == b {
        lemma_radix_grows((a - 1) as nat, (a - 1) as nat);
    } else {
        lemma_radix_grows(a, (b - 1) as nat);
    }
}

/// `n` bytes are exactly `n` bytes long.
pub proof fn lemma_le_bytes_len(value: nat, n: nat)
    ensures
        le_bytes(value, n).len() == n,
    decreases n,
{
    if n > 0 {
        lemma_le_bytes_len(value / 256, (n - 1) as nat);
    }
}

/// Reading back the bytes of a number that fits in them gives the number.
pub proof fn lemma_le_round_trip(value: nat, n: nat)
    requires
        value < radix(n),
    ensures
        le_value(le_bytes(value, n)) == value,
    decreases n,
{
    if n > 0 {
        let rest = le_bytes(value / 256, (n - 1) as nat);
        lemma_le_round_trip(value / 256, (n - 1) as nat);
        assert(le_bytes(value, n).skip(1) =~= rest);
    }
}

/// Writing the number that bytes stand for gives the same bytes.
pub proof fn law_le_bytes_of_value(bytes: Seq<u8>)
    ensures
        le_bytes(le_value(bytes), bytes.len()) == bytes,
    decreases bytes.len(),
{
    if bytes.len() > 0 {
        let tail = bytes.skip(1);
        law_le_bytes_of_value(tail);
        let v = le_value(bytes);
        assert(v % 256 == bytes[0] as nat);
        assert(v / 256 == le_value(tail));
        assert(le_bytes(v, bytes.len()) =~= bytes);
    }
}

/// One byte is the byte itself.
pub proof fn lemma_one_byte(byte: u8)
    ensures
        le_bytes(byte as nat, 1) == seq![byte],
        le_value(seq![byte]) == byte,
{
    reveal_with_fuel(le_bytes, 2);
    reveal_with_fuel(le_value, 2);
    assert(le_bytes(byte as nat, 1) =~= seq![byte]);
    assert(seq![byte].skip(1) =~= Seq::<u8>::empty());
}

/// Two's complement on `n` bytes loses nothing of a number that fits.
pub proof fn lemma_signed_round_trip(value: int, n: nat)
    requires
        n >= 1,
        -(radix(n) as int) <= 2 * value < radix(n),
    ensures
        unsigned_of(value, n) < radix(n),
        signed_of(unsigned_of(value, n), n) == value,
{
}

} // verus!
