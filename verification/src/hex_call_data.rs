//! Writing call data: an endpoint name followed by its arguments, each
//! introduced by `@` and written as lowercase hexadecimal digits.

use vstd::prelude::*;
use vstd::slice::slice_to_vec;

verus! {

/// The byte that stands before every argument: `@`.
pub const SEPARATOR: u8 = 0x40;

/// The digit, in ASCII, for a value below sixteen: `0` to `9`, then `a` to `f`.
pub open spec fn hex_digit(half_byte: u8) -> u8 {
    if half_byte < 10 {
        (0x30 + half_byte) as u8
    } else {
        (0x61 + (half_byte - 10)) as u8
    }
}

/// The bytes written as hexadecimal digits: two for each byte, the high half
/// first.
pub open spec fn hex_encode(bytes: Seq<u8>) -> Seq<u8> {
    Seq::new(
        2 * bytes.len(),
        |i: int|
            hex_digit(
                if i % 2 == 0 {
                    bytes[i / 2] / 16
                } else {
                    bytes[i / 2] % 16
                },
            ),
    )
}

/// Call data with one more argument behind it.
pub open spec fn with_argument(data: Seq<u8>, argument: Seq<u8>) -> Seq<u8> {
    data.push(SEPARATOR) + hex_encode(argument)
}

fn half_byte_to_hex_digit(num: u8) -> (digit: u8)
    requires
        num < 16,
    ensures
        digit == hex_digit(num),
{
    if num < 10 {
        0x30 + num
    } else {
        0x61 + (num - 10)
    }
}

/// The two hexadecimal digits of a byte, the high half first.
pub fn byte_to_hex(byte: u8) -> (digits: (u8, u8))
    ensures
        digits.0 == hex_digit(byte / 16),
        digits.1 == hex_digit(byte % 16),
{
    let digit1 = half_byte_to_hex_digit(byte / 16);
    let digit2 = half_byte_to_hex_digit(byte % 16);
    (digit1, digit2)
}

/// Builds call data piece by piece.
#[derive(Debug)]
pub struct HexCallDataSerializer {
    data: Vec<u8>,
}

impl View for HexCallDataSerializer {
    type V = Seq<u8>;

    /// The call data written so far.
    closed spec fn view(&self) -> Seq<u8> {
        self.data@
    }
}

impl HexCallDataSerializer {
    /// Call data that names the endpoint and holds no argument yet.
    pub fn new(endpoint_name: &[u8]) -> (r: Self)
        ensures
            r@ == endpoint_name@,
    {
        HexCallDataSerializer { data: slice_to_vec(endpoint_name) }
    }

    /// The call data written so far.
    pub fn as_slice(&self) -> (data: &[u8])
        ensures
            data@ == self@,
    {
        self.data.as_slice()
    }

    /// The call data written so far, giving up the serializer.
    pub fn into_vec(self) -> (data: Vec<u8>)
        ensures
            data@ == self@,
    {
        self.data
    }

    fn push_byte(&mut self, byte: u8)
        ensures
            final(self)@ == old(self)@.push(hex_digit(byte / 16)).push(hex_digit(byte % 16)),
    {
        let (digit1, digit2) = byte_to_hex(byte);
        self.data.push(digit1);
        self.data.push(digit2);
    }

    /// Appends an argument: the separator, then the bytes in hexadecimal.
    pub fn push_argument_bytes(&mut self, bytes: &[u8])
        ensures
            final(self)@ == with_argument(old(self)@, bytes@),
    {
        self.data.push(SEPARATOR);
        let mut i: usize = 0;
        while i < bytes.len()
            invariant
                i <= bytes@.len(),
                self@ == with_argument(old(self)@, bytes@.take(i as int)),
            decreases bytes@.len() - i,
        {
            self.push_byte(bytes[i]);
            i += 1;
        }
    }
}

} // verus!
