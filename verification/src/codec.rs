//! Numbers and addresses as the bytes of an argument.
//!
//! An unsigned number is written big-endian with no leading zero byte, so that
//! zero is written as no bytes at all. Leading zero bytes are accepted on
//! reading.

use vstd::prelude::*;
use vstd::string::StringSliceAdditionalSpecFns;
use crate::address::Address;
use crate::err_msg;

verus! {

/// The number that the bytes spell, read big-endian.
pub open spec fn be_value(bytes: Seq<u8>) -> nat
    decreases bytes.len(),
{
    if bytes.len() == 0 {
        0
    } else {
        be_value(bytes.drop_last()) * 256 + bytes.last() as nat
    }
}

/// The shortest big-endian writing of the number.
pub open spec fn be_bytes(value: nat) -> Seq<u8>
    decreases value,
{
    if value == 0 {
        Seq::empty()
    } else {
        be_bytes(value / 256).push((value % 256) as u8)
    }
}

/// The shortest writing spells the number and starts with no zero byte.
pub proof fn lemma_be_bytes(value: nat)
    ensures
        be_value(be_bytes(value)) == value,
        be_bytes(value).len() > 0 ==> be_bytes(value)[0] != 0,
        value == 0 <==> be_bytes(value).len() == 0,
    decreases value,
{
    if value != 0 {
        lemma_be_bytes(value / 256);
        let shorter = be_bytes(value / 256);
        assert(shorter.push((value % 256) as u8).drop_last() =~= shorter);
    }
}

/// A number that was written is read back as it was.
pub proof fn lemma_number_round_trip(value: u128)
    ensures
        be_value(be_bytes(value as nat)) == value,
        u128::decoded(be_bytes(value as nat)) == Ok::<u128, DecodeError>(value),
{
    lemma_be_bytes(value as nat);
}

/// A number is at least what any beginning of its bytes spells.
pub proof fn lemma_be_value_prefix(bytes: Seq<u8>, n: int)
    requires
        0 <= n <= bytes.len(),
    ensures
        be_value(bytes.take(n)) <= be_value(bytes),
    decreases bytes.len() - n,
{
    if n < bytes.len() {
        lemma_be_value_prefix(bytes, n + 1);
        assert(bytes.take(n + 1).drop_last() =~= bytes.take(n));
    } else {
        assert(bytes.take(n) =~= bytes);
    }
}

/// Why bytes could not be read as a value.
#[derive(Clone, Copy, Debug, PartialEq, Eq, Structural)]
pub enum DecodeError {
    InputTooShort,
    InputTooLong,
}

impl DecodeError {
    /// The text of the error, as bytes.
    pub open spec fn message(&self) -> Seq<u8> {
        match self {
            DecodeError::InputTooShort => err_msg::DECODE_INPUT_TOO_SHORT.spec_bytes(),
            DecodeError::InputTooLong => err_msg::DECODE_INPUT_TOO_LONG.spec_bytes(),
        }
    }

    /// The text of the error, as bytes.
    pub fn message_bytes(&self) -> (bytes: &'static [u8])
        ensures
            bytes@ == self.message(),
    {
        match self {
            DecodeError::InputTooShort => err_msg::DECODE_INPUT_TOO_SHORT.as_bytes(),
            DecodeError::InputTooLong => err_msg::DECODE_INPUT_TOO_LONG.as_bytes(),
        }
    }
}

/// Writes the number big-endian, as short as can be.
pub fn to_bytes_be(value: u128) -> (bytes: Vec<u8>)
    ensures
        bytes@ == be_bytes(value as nat),
    decreases value,
{
    if value == 0 {
        Vec::new()
    } else {
        let mut bytes = to_bytes_be(value / 256);
        bytes.push((value % 256) as u8);
        bytes
    }
}

/// Reads a number of at most `max` from big-endian bytes. A greater number is
/// refused as too long.
pub fn from_bytes_be(bytes: &[u8], max: u128) -> (r: Result<u128, DecodeError>)
    ensures
        be_value(bytes@) <= max ==> r == Ok::<u128, DecodeError>(be_value(bytes@) as u128),
        be_value(bytes@) > max ==> r == Err::<u128, DecodeError>(DecodeError::InputTooLong),
{
    let mut value: u128 = 0;
    let mut i: usize = 0;
    while i < bytes.len()
        invariant
            i <= bytes@.len(),
            value == be_value(bytes@.take(i as int)),
            value <= max,
        decreases bytes@.len() - i,
    {
        let byte = bytes[i] as u128;
        proof {
            assert(bytes@.take(i + 1).drop_last() =~= bytes@.take(i as int));
            lemma_be_value_prefix(bytes@, i + 1);
        }
        if byte > max || value > (max - byte) / 256 {
            return Err(DecodeError::InputTooLong);
        }
        value = value * 256 + byte;
        i += 1;
    }
    assert(bytes@.take(bytes@.len() as int) =~= bytes@);
    Ok(value)
}

/// Appends the bytes to the vector.
pub fn extend_bytes(target: &mut Vec<u8>, bytes: &[u8])
    ensures
        final(target)@ == old(target)@ + bytes@,
{
    let mut i: usize = 0;
    while i < bytes.len()
        invariant
            i <= bytes@.len(),
            target@ == old(target)@ + bytes@.take(i as int),
        decreases bytes@.len() - i,
    {
        target.push(bytes[i]);
        i += 1;
    }
}

/// A value that can be read from the bytes of an argument.
pub trait Decode: Sized {
    /// What reading the bytes gives.
    spec fn decoded(bytes: Seq<u8>) -> Result<Self, DecodeError>;

    /// Reads a value from all of the bytes.
    fn top_decode(bytes: &[u8]) -> (r: Result<Self, DecodeError>)
        ensures
            r == Self::decoded(bytes@),
    ;
}

/// Reads a value from all of the bytes.
pub fn decode_from_byte_slice<T: Decode>(input: &[u8]) -> (r: Result<T, DecodeError>)
    ensures
        r == T::decoded(input@),
{
    T::top_decode(input)
}

impl Decode for u128 {
    open spec fn decoded(bytes: Seq<u8>) -> Result<u128, DecodeError> {
        if be_value(bytes) <= u128::MAX {
            Ok(be_value(bytes) as u128)
        } else {
            Err(DecodeError::InputTooLong)
        }
    }

    fn top_decode(bytes: &[u8]) -> (r: Result<u128, DecodeError>) {
        from_bytes_be(bytes, u128::MAX)
    }
}

impl Decode for u64 {
    open spec fn decoded(bytes: Seq<u8>) -> Result<u64, DecodeError> {
        if be_value(bytes) <= u64::MAX {
            Ok(be_value(bytes) as u64)
        } else {
            Err(DecodeError::InputTooLong)
        }
    }

    fn top_decode(bytes: &[u8]) -> (r: Result<u64, DecodeError>) {
        match from_bytes_be(bytes, u64::MAX as u128) {
            Ok(value) => Ok(value as u64),
            Err(e) => Err(e),
        }
    }
}

impl Decode for usize {
    open spec fn decoded(bytes: Seq<u8>) -> Result<usize, DecodeError> {
        if be_value(bytes) <= usize::MAX {
            Ok(be_value(bytes) as usize)
        } else {
            Err(DecodeError::InputTooLong)
        }
    }

    fn top_decode(bytes: &[u8]) -> (r: Result<usize, DecodeError>) {
        match from_bytes_be(bytes, usize::MAX as u128) {
            Ok(value) => Ok(value as usize),
            Err(e) => Err(e),
        }
    }
}

impl Decode for Address {
    /// An address is read from exactly 32 bytes.
    open spec fn decoded(bytes: Seq<u8>) -> Result<Address, DecodeError> {
        if bytes.len() < 32 {
            Err(DecodeError::InputTooShort)
        } else if bytes.len() > 32 {
            Err(DecodeError::InputTooLong)
        } else {
            Ok(choose|address: Address| address@ == bytes)
        }
    }

    fn top_decode(bytes: &[u8]) -> (r: Result<Address, DecodeError>) {
        if bytes.len() < 32 {
            Err(DecodeError::InputTooShort)
        } else if bytes.len() > 32 {
            Err(DecodeError::InputTooLong)
        } else {
            let address = Address::from_slice(bytes).unwrap();
            proof {
                let chosen = choose|address: Address| address@ == bytes@;
                Address::lemma_view_injective(address, chosen);
            }
            Ok(address)
        }
    }
}

/// An unsigned number of any size that the platform offers, as far as call
/// data needs it.
pub trait BigUintApi: Sized + Copy {
    /// The number.
    spec fn value(&self) -> nat;

    /// The number zero.
    fn zero() -> (z: Self)
        ensures
            z.value() == 0,
    ;

    /// The number written big-endian, as short as can be; zero is written as
    /// no bytes.
    fn to_bytes_be(&self) -> (bytes: Vec<u8>)
        ensures
            bytes@ == be_bytes(self.value()),
    ;
}

impl BigUintApi for u128 {
    open spec fn value(&self) -> nat {
        *self as nat
    }

    fn zero() -> (z: u128) {
        0
    }

    fn to_bytes_be(&self) -> (bytes: Vec<u8>) {
        self::to_bytes_be(*self)
    }
}

impl BigUintApi for u64 {
    open spec fn value(&self) -> nat {
        *self as nat
    }

    fn zero() -> (z: u64) {
        0
    }

    fn to_bytes_be(&self) -> (bytes: Vec<u8>) {
        self::to_bytes_be(*self as u128)
    }
}

} // verus!
