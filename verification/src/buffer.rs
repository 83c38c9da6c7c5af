//! The buffer that a program's bytes are written to and read from.

use vstd::prelude::*;
use vstd::utf8::{decode_utf8, encode_utf8, valid_utf8};
use crate::bytes::{
    is_scalar_value, le_bytes, le_value, lemma_radix_grows, lemma_radix_values, radix,
    signed_of, unsigned_of,
};

verus! {

/// `char::from_u32` of std: the `char` with the given number, where the
/// number is a Unicode scalar value (at most 0x10FFFF and no surrogate),
/// and nothing for every other number.
pub assume_specification[ char::from_u32 ](i: u32) -> (c: Option<char>)
    ensures
        is_scalar_value(i as nat) ==> c == Some(i as char),
        !is_scalar_value(i as nat) ==> c is None,
;

/// `String::from_utf8` of std: the text that the bytes encode in UTF-8, or
/// nothing where they are no valid UTF-8.
#[verifier::external_body]
pub(crate) fn text_from_utf8(bytes: Vec<u8>) -> (text: Option<String>)
    ensures
        valid_utf8(bytes@) ==> text is Some && text->0@ == decode_utf8(bytes@),
        !valid_utf8(bytes@) ==> text is None,
{
    match String::from_utf8(bytes) {
        Ok(text) => Some(text),
        Err(_) => None,
    }
}

/// The bytes of an encoded program: written at the end, read from the start.
#[derive(Clone, Debug, Default)]
pub struct Buffer(Vec<u8>);

impl View for Buffer {
    type V = Seq<u8>;

    closed spec fn view(&self) -> Seq<u8> {
        self.0@
    }
}

/// What `write_str` and `write_string` add for a text: the length of its
/// UTF-8 form on eight bytes, then that form.
pub open spec fn text_bytes(text: Seq<char>) -> Seq<u8> {
    le_bytes(encode_utf8(text).len(), 8) + encode_utf8(text)
}

/// The length that the first eight bytes announce for the text after them.
pub open spec fn text_len(bytes: Seq<u8>) -> int {
    le_value(bytes.subrange(0, 8)) as int
}

/// Whether a text can be read from the start of the bytes: its length is
/// there on eight bytes, that many bytes follow, and they are valid UTF-8.
pub open spec fn starts_with_text(bytes: Seq<u8>) -> bool {
    &&& bytes.len() >= 8
    &&& 8 + text_len(bytes) <= bytes.len()
    &&& valid_utf8(bytes.subrange(8, 8 + text_len(bytes)))
}

impl Buffer {
    /// A buffer without bytes.
    pub fn new() -> (buffer: Buffer)
        ensures
            buffer@ == Seq::<u8>::empty(),
    {
        Buffer(Vec::new())
    }

    /// A buffer that holds the given bytes.
    pub fn with(vec: Vec<u8>) -> (buffer: Buffer)
        ensures
            buffer@ == vec@,
    {
        Buffer(vec)
    }

    /// The bytes that are left in the buffer.
    pub fn into_bytes(self) -> (bytes: Vec<u8>)
        ensures
            bytes@ == self@,
    {
        self.0
    }

    /// Tells whether no byte is left.
    pub fn is_empty(&self) -> (r: bool)
        ensures
            r == (self@.len() == 0),
    {
        self.0.is_empty()
    }

    /// The number of bytes that are left.
    pub fn len(&self) -> (n: usize)
        ensures
            n == self@.len(),
    {
        self.0.len()
    }

    /// Adds the `n` low bytes of a number, least significant first.
    fn write_le(&mut self, value: u128, n: usize)
        requires
            n <= 16,
        ensures
            final(self)@ == old(self)@ + le_bytes(value as nat, n as nat),
    {
        let mut rest: u128 = value;
        let mut i: usize = 0;
        while i < n
            invariant
                i <= n,
                self@ + le_bytes(rest as nat, (n - i) as nat) == old(self)@ + le_bytes(
                    value as nat,
                    n as nat,
                ),
            decreases n - i,
        {
            let ghost before = self@;
            let byte: u8 = (rest % 256) as u8;
            self.0.push(byte);
            proof {
                let tail = le_bytes((rest / 256) as nat, (n - i - 1) as nat);
                assert(le_bytes(rest as nat, (n - i) as nat) == seq![byte] + tail);
                assert(self@ + tail =~= before + (seq![byte] + tail));
            }
            rest = rest / 256;
            i = i + 1;
        }
        assert(self@ + Seq::<u8>::empty() =~= self@);
    }

    /// Removes `n` bytes from the start and gives the number they stand for,
    /// least significant first.
    fn read_le(&mut self, n: usize) -> (value: u128)
        requires
            n <= 16,
            n <= old(self)@.len(),
        ensures
            value == le_value(old(self)@.subrange(0, n as int)),
            value < radix(n as nat),
            final(self)@ == old(self)@.subrange(n as int, old(self)@.len() as int),
    {
        let rest = self.0.split_off(n);
        let ghost head = self@;
        let mut value: u128 = 0;
        let mut i: usize = n;
        while i > 0
            invariant
                i <= n <= 16,
                head.len() == n,
                self@ == head,
                value == le_value(head.subrange(i as int, n as int)),
                value < radix((n - i) as nat),
            decreases i,
        {
            proof {
                lemma_radix_values();
                lemma_radix_grows((n - i + 1) as nat, 16);
                assert(head.subrange(i - 1, n as int).skip(1) =~= head.subrange(
                    i as int,
                    n as int,
                ));
            }
            i = i - 1;
            value = value * 256 + self.0[i] as u128;
        }
        assert(head.subrange(0, n as int) =~= head);
        self.0 = rest;
        value
    }

    /// Removes `n` bytes from the start and gives them.
    pub fn read_bytes(&mut self, n: usize) -> (bytes: Vec<u8>)
        requires
            n <= old(self)@.len(),
        ensures
            bytes@ == old(self)@.subrange(0, n as int),
            final(self)@ == old(self)@.subrange(n as int, old(self)@.len() as int),
    {
        let mut rest = self.0.split_off(n);
        std::mem::swap(&mut self.0, &mut rest);
        rest
    }

    /// Adds given bytes at the end.
    pub fn write_bytes(&mut self, bytes: &Vec<u8>)
        ensures
            final(self)@ == old(self)@ + bytes@,
    {
        let mut i: usize = 0;
        while i < bytes.len()
            invariant
                i <= bytes.len(),
                self@ == old(self)@ + bytes@.subrange(0, i as int),
            decreases bytes.len() - i,
        {
            self.0.push(bytes[i]);
            i = i + 1;
            assert(self@ =~= old(self)@ + bytes@.subrange(0, i as int));
        }
        assert(bytes@.subrange(0, bytes.len() as int) =~= bytes@);
    }

    // Writing

    /// Adds an `i8` in two's complement, least significant byte first.
    pub fn write_i8(&mut self, data: i8)
        ensures
            final(self)@ == old(self)@ + le_bytes(unsigned_of(data as int, 1), 1),
    {
        proof {
            lemma_radix_values();
        }
        let value: u128 = if data < 0 {
            (data as i128 + 0x100) as u128
        } else {
            data as u128
        };
        self.write_le(value, 1);
    }

    /// Adds an `i16` in two's complement, least significant byte first.
    pub fn write_i16(&mut self, data: i16)
        ensures
            final(self)@ == old(self)@ + le_bytes(unsigned_of(data as int, 2), 2),
    {
        proof {
            lemma_radix_values();
        }
        let value: u128 = if data < 0 {
            (data as i128 + 0x1_0000) as u128
        } else {
            data as u128
        };
        self.write_le(value, 2);
    }

    /// Adds an `i32` in two's complement, least significant byte first.
    pub fn write_i32(&mut self, data: i32)
        ensures
            final(self)@ == old(self)@ + le_bytes(unsigned_of(data as int, 4), 4),
    {
        proof {
            lemma_radix_values();
        }
        let value: u128 = if data < 0 {
            (data as i128 + 0x1_0000_0000) as u128
        } else {
            data as u128
        };
        self.write_le(value, 4);
    }

    /// Adds an `i64` in two's complement, least significant byte first.
    pub fn write_i64(&mut self, data: i64)
        ensures
            final(self)@ == old(self)@ + le_bytes(unsigned_of(data as int, 8), 8),
    {
        proof {
            lemma_radix_values();
        }
        let value: u128 = if data < 0 {
            (data as i128 + 0x1_0000_0000_0000_0000) as u128
        } else {
            data as u128
        };
        self.write_le(value, 8);
    }

    /// Adds an `i128` in two's complement, least significant byte first.
    pub fn write_i128(&mut self, data: i128)
        ensures
            final(self)@ == old(self)@ + le_bytes(unsigned_of(data as int, 16), 16),
    {
        proof {
            lemma_radix_values();
        }
        let value: u128 = if data < 0 {
            u128::MAX - ((-(data + 1)) as u128)
        } else {
            data as u128
        };
        self.write_le(value, 16);
    }

    /// Adds a `u8`, least significant byte first.
    pub fn write_u8(&mut self, data: u8)
        ensures
            final(self)@ == old(self)@ + le_bytes(data as nat, 1),
    {
        self.write_le(data as u128, 1);
    }

    /// Adds a `u16`, least significant byte first.
    pub fn write_u16(&mut self, data: u16)
        ensures
            final(self)@ == old(self)@ + le_bytes(data as nat, 2),
    {
        self.write_le(data as u128, 2);
    }

    /// Adds a `u32`, least significant byte first.
    pub fn write_u32(&mut self, data: u32)
        ensures
            final(self)@ == old(self)@ + le_bytes(data as nat, 4),
    {
        self.write_le(data as u128, 4);
    }

    /// Adds a `u64`, least significant byte first.
    pub fn write_u64(&mut self, data: u64)
        ensures
            final(self)@ == old(self)@ + le_bytes(data as nat, 8),
    {
        self.write_le(data as u128, 8);
    }

    /// Adds a `u128`, least significant byte first.
    pub fn write_u128(&mut self, data: u128)
        ensures
            final(self)@ == old(self)@ + le_bytes(data as nat, 16),
    {
        self.write_le(data as u128, 16);
    }

    /// Adds a `char` as its number on four bytes, least significant first.
    pub fn write_char(&mut self, data: char)
        ensures
            final(self)@ == old(self)@ + le_bytes(data as nat, 4),
    {
        self.write_le(data as u32 as u128, 4);
    }

    /// Adds a text: the length of its UTF-8 form on eight bytes, then that
    /// form.
    pub fn write_str(&mut self, data: &str)
        ensures
            final(self)@ == old(self)@ + text_bytes(data@),
    {
        let bytes = data.as_bytes_vec();
        self.write_le(bytes.len() as u128, 8);
        self.write_bytes(&bytes);
        assert(self@ =~= old(self)@ + text_bytes(data@));
    }

    /// Adds a text, as `write_str` does.
    pub fn write_string(&mut self, data: &String)
        ensures
            final(self)@ == old(self)@ + text_bytes(data@),
    {
        self.write_str(data.as_str());
    }

    /// Adds a truth value as one byte: 1 for `true`, 0 for `false`.
    pub fn write_bool(&mut self, data: bool)
        ensures
            final(self)@ == old(self)@ + le_bytes(if data { 1nat } else { 0nat }, 1),
    {
        let value: u128 = if data { 1 } else { 0 };
        self.write_le(value, 1);
    }

    // Reading

    /// Removes 1 byte(s) from the start and gives the `i8` they stand for.
    pub fn read_i8(&mut self) -> (data: i8)
        requires
            old(self)@.len() >= 1,
        ensures
            data == signed_of(le_value(old(self)@.subrange(0, 1)), 1),
            final(self)@ == old(self)@.subrange(1, old(self)@.len() as int),
    {
        proof {
            lemma_radix_values();
        }
        let value = self.read_le(1);
        if value >= 0x100 / 2 {
            (value as i128 - 0x100) as i8
        } else {
            value as i8
        }
    }

    /// Removes 2 byte(s) from the start and gives the `i16` they stand for.
    pub fn read_i16(&mut self) -> (data: i16)
        requires
            old(self)@.len() >= 2,
        ensures
            data == signed_of(le_value(old(self)@.subrange(0, 2)), 2),
            final(self)@ == old(self)@.subrange(2, old(self)@.len() as int),
    {
        proof {
            lemma_radix_values();
        }
        let value = self.read_le(2);
        if value >= 0x1_0000 / 2 {
            (value as i128 - 0x1_0000) as i16
        } else {
            value as i16
        }
    }

    /// Removes 4 byte(s) from the start and gives the `i32` they stand for.
    pub fn read_i32(&mut self) -> (data: i32)
        requires
            old(self)@.len() >= 4,
        ensures
            data == signed_of(le_value(old(self)@.subrange(0, 4)), 4),
            final(self)@ == old(self)@.subrange(4, old(self)@.len() as int),
    {
        proof {
            lemma_radix_values();
        }
        let value = self.read_le(4);
        if value >= 0x1_0000_0000 / 2 {
            (value as i128 - 0x1_0000_0000) as i32
        } else {
            value as i32
        }
    }

    /// Removes 8 byte(s) from the start and gives the `i64` they stand for.
    pub fn read_i64(&mut self) -> (data: i64)
        requires
            old(self)@.len() >= 8,
        ensures
            data == signed_of(le_value(old(self)@.subrange(0, 8)), 8),
            final(self)@ == old(self)@.subrange(8, old(self)@.len() as int),
    {
        proof {
            lemma_radix_values();
        }
        let value = self.read_le(8);
        if value >= 0x1_0000_0000_0000_0000 / 2 {
            (value as i128 - 0x1_0000_0000_0000_0000) as i64
        } else {
            value as i64
        }
    }

    /// Removes 16 bytes from the start and gives the `i128` they stand for.
    pub fn read_i128(&mut self) -> (data: i128)
        requires
            old(self)@.len() >= 16,
        ensures
            data == signed_of(le_value(old(self)@.subrange(0, 16)), 16),
            final(self)@ == old(self)@.subrange(16, old(self)@.len() as int),
    {
        proof {
            lemma_radix_values();
        }
        let value = self.read_le(16);
        if value > i128::MAX as u128 {
            -((u128::MAX - value) as i128) - 1
        } else {
            value as i128
        }
    }

    /// Removes 1 byte(s) from the start and gives the `u8` they stand for.
    pub fn read_u8(&mut self) -> (data: u8)
        requires
            old(self)@.len() >= 1,
        ensures
            data == le_value(old(self)@.subrange(0, 1)),
            final(self)@ == old(self)@.subrange(1, old(self)@.len() as int),
    {
        proof {
            lemma_radix_values();
        }
        self.read_le(1) as u8
    }

    /// Removes 2 byte(s) from the start and gives the `u16` they stand for.
    pub fn read_u16(&mut self) -> (data: u16)
        requires
            old(self)@.len() >= 2,
        ensures
            data == le_value(old(self)@.subrange(0, 2)),
            final(self)@ == old(self)@.subrange(2, old(self)@.len() as int),
    {
        proof {
            lemma_radix_values();
        }
        self.read_le(2) as u16
    }

    /// Removes 4 byte(s) from the start and gives the `u32` they stand for.
    pub fn read_u32(&mut self) -> (data: u32)
        requires
            old(self)@.len() >= 4,
        ensures
            data == le_value(old(self)@.subrange(0, 4)),
            final(self)@ == old(self)@.subrange(4, old(self)@.len() as int),
    {
        proof {
            lemma_radix_values();
        }
        self.read_le(4) as u32
    }

    /// Removes 8 byte(s) from the start and gives the `u64` they stand for.
    pub fn read_u64(&mut self) -> (data: u64)
        requires
            old(self)@.len() >= 8,
        ensures
            data == le_value(old(self)@.subrange(0, 8)),
            final(self)@ == old(self)@.subrange(8, old(self)@.len() as int),
    {
        proof {
            lemma_radix_values();
        }
        self.read_le(8) as u64
    }

    /// Removes 16 byte(s) from the start and gives the `u128` they stand for.
    pub fn read_u128(&mut self) -> (data: u128)
        requires
            old(self)@.len() >= 16,
        ensures
            data == le_value(old(self)@.subrange(0, 16)),
            final(self)@ == old(self)@.subrange(16, old(self)@.len() as int),
    {
        proof {
            lemma_radix_values();
        }
        self.read_le(16) as u128
    }

    /// Removes four bytes from the start and gives the `char` whose number
    /// they stand for.
    pub fn read_char(&mut self) -> (data: char)
        requires
            old(self)@.len() >= 4,
            is_scalar_value(le_value(old(self)@.subrange(0, 4))),
        ensures
            data as nat == le_value(old(self)@.subrange(0, 4)),
            final(self)@ == old(self)@.subrange(4, old(self)@.len() as int),
    {
        let num = self.read_u32();
        char::from_u32(num).unwrap()
    }

    /// Removes a text from the start, as `read_string` does.
    pub fn read_str(&mut self) -> (data: String)
        requires
            starts_with_text(old(self)@),
        ensures
            data@ == decode_utf8(old(self)@.subrange(8, 8 + text_len(old(self)@))),
            final(self)@ == old(self)@.subrange(
                8 + text_len(old(self)@),
                old(self)@.len() as int,
            ),
    {
        self.read_string()
    }

    /// Removes a text from the start: its length on eight bytes, then that
    /// many bytes of UTF-8.
    pub fn read_string(&mut self) -> (data: String)
        requires
            starts_with_text(old(self)@),
        ensures
            data@ == decode_utf8(old(self)@.subrange(8, 8 + text_len(old(self)@))),
            final(self)@ == old(self)@.subrange(
                8 + text_len(old(self)@),
                old(self)@.len() as int,
            ),
    {
        let total = self.len();
        let announced = self.read_u64();
        assert(announced + 8 <= total);
        let len = announced as usize;
        let bytes = self.read_bytes(len);
        assert(bytes@ =~= old(self)@.subrange(8, 8 + len));
        assert(self@ =~= old(self)@.subrange(8 + len, old(self)@.len() as int));
        text_from_utf8(bytes).unwrap()
    }

    /// Removes one byte from the start and tells whether it is not zero.
    pub fn read_bool(&mut self) -> (data: bool)
        requires
            old(self)@.len() >= 1,
        ensures
            data == (le_value(old(self)@.subrange(0, 1)) != 0),
            final(self)@ == old(self)@.subrange(1, old(self)@.len() as int),
    {
        let num = self.read_u8();
        num != 0
    }
}

} // verus!
