//! Reading call data: an endpoint name followed by its arguments, each
//! introduced by `@` and written as lowercase hexadecimal digits.

use vstd::prelude::*;
use vstd::slice::slice_subrange;
use crate::err_msg;
use crate::hex_call_data::{hex_encode, SEPARATOR};
use crate::sc_error::SCError;

verus! {

/// The value of a hexadecimal digit given in ASCII; capitals are no digits.
pub open spec fn hex_value(digit: u8) -> Option<u8> {
    if 0x30 <= digit <= 0x39 {
        Some((digit - 0x30) as u8)
    } else if 0x61 <= digit <= 0x66 {
        Some((digit - 0x61 + 10) as u8)
    } else {
        None
    }
}

/// Whether every byte is a hexadecimal digit.
pub open spec fn all_hex_digits(hex: Seq<u8>) -> bool {
    forall|i: int| 0 <= i < hex.len() ==> (#[trigger] hex_value(hex[i])) is Some
}

/// The bytes that the digits spell, two digits to a byte, the high half first.
pub open spec fn hex_decode(hex: Seq<u8>) -> Seq<u8> {
    Seq::new(
        hex.len() / 2,
        |i: int| (hex_value(hex[2 * i]).unwrap() * 16 + hex_value(hex[2 * i + 1]).unwrap()) as u8,
    )
}

/// How many bytes stand before the first separator; all of them where there
/// is no separator.
pub open spec fn first_separator(data: Seq<u8>) -> nat
    decreases data.len(),
{
    if data.len() == 0 || data[0] == SEPARATOR {
        0
    } else {
        1 + first_separator(data.drop_first())
    }
}

/// What is left to read once the first component has been taken off the data:
/// the bytes behind the first separator, or nothing where no separator is.
pub open spec fn after_component(data: Seq<u8>) -> Option<Seq<u8>> {
    if first_separator(data) < data.len() {
        Some(data.subrange(first_separator(data) as int + 1, data.len() as int))
    } else {
        None
    }
}

/// The first component of the data: the bytes before the first separator.
pub open spec fn first_component(data: Seq<u8>) -> Seq<u8> {
    data.subrange(0, first_separator(data) as int)
}

/// What reading a component as an argument gives: its bytes, or the error for
/// an odd number of digits, or else the error for a byte that is no digit.
pub open spec fn argument_of(hex: Seq<u8>) -> Result<Seq<u8>, SCError> {
    if hex.len() % 2 != 0 {
        Err(SCError::Static(err_msg::DESERIALIZATION_ODD_DIGITS))
    } else if !all_hex_digits(hex) {
        Err(SCError::Static(err_msg::DESERIALIZATION_INVALID_BYTE))
    } else {
        Ok(hex_decode(hex))
    }
}

/// The first separator is where a scan from the front finds it.
pub proof fn lemma_first_separator(data: Seq<u8>, end: int)
    requires
        0 <= end <= data.len(),
        forall|i: int| 0 <= i < end ==> data[i] != SEPARATOR,
        end == data.len() || data[end] == SEPARATOR,
    ensures
        first_separator(data) == end,
    decreases end,
{
    if end > 0 {
        lemma_first_separator(data.drop_first(), end - 1);
    }
}

/// Digits written by the serializer are read back as the bytes they came from.
pub proof fn lemma_hex_round_trip(bytes: Seq<u8>)
    ensures
        argument_of(hex_encode(bytes)) == Ok::<Seq<u8>, SCError>(bytes),
{
    assert(all_hex_digits(hex_encode(bytes)));
    assert(hex_decode(hex_encode(bytes)) =~= bytes);
}

/// What the serializer wrote as an argument is read back as that argument,
/// and reading goes on with what was written behind it: `tail` where the
/// argument is followed by a separator and `tail`, nothing where the call data
/// ends with the argument.
pub proof fn lemma_read_written_argument(argument: Seq<u8>, tail: Option<Seq<u8>>)
    ensures
        ({
            let written = match tail {
                Some(more) => hex_encode(argument).push(SEPARATOR) + more,
                None => hex_encode(argument),
            };
            &&& first_component(written) == hex_encode(argument)
            &&& argument_of(first_component(written)) == Ok::<Seq<u8>, SCError>(argument)
            &&& after_component(written) == tail
        }),
{
    let hex = hex_encode(argument);
    let written = match tail {
        Some(more) => hex.push(SEPARATOR) + more,
        None => hex,
    };
    assert forall|i: int| 0 <= i < hex.len() implies written[i] != SEPARATOR by {
        assert(written[i] == hex[i]);
    }
    lemma_first_separator(written, hex.len() as int);
    lemma_hex_round_trip(argument);
    match tail {
        Some(more) => {
            assert(after_component(written).unwrap() =~= more);
        },
        None => {},
    }
}

fn hex_digit_to_half_byte(digit: u8) -> (r: Option<u8>)
    ensures
        r == hex_value(digit),
{
    if digit >= 0x30 && digit <= 0x39 {
        return Some(digit - 0x30);
    }
    if digit >= 0x61 && digit <= 0x66 {
        return Some(digit - 0x61 + 10);
    }
    None
}

/// Reads the hexadecimal digits of one argument.
pub fn decode_argument(arg_hex: &[u8]) -> (r: Result<Vec<u8>, SCError>)
    ensures
        match argument_of(arg_hex@) {
            Ok(bytes) => r matches Ok(v) && v@ == bytes,
            Err(e) => r matches Err(f) && f == e,
        },
{
    if arg_hex.len() % 2 != 0 {
        return Err(SCError::Static(err_msg::DESERIALIZATION_ODD_DIGITS));
    }
    let res_len = arg_hex.len() / 2;
    let mut res_vec: Vec<u8> = Vec::new();
    let mut i: usize = 0;
    while i < res_len
        invariant
            i <= res_len,
            res_len == arg_hex@.len() / 2,
            arg_hex@.len() % 2 == 0,
            res_vec@.len() == i,
            forall|j: int| 0 <= j < 2 * i ==> (#[trigger] hex_value(arg_hex@[j])) is Some,
            forall|j: int| 0 <= j < i ==> res_vec@[j] == hex_decode(arg_hex@)[j],
        decreases res_len - i,
    {
        let high = hex_digit_to_half_byte(arg_hex[2 * i]);
        let low = hex_digit_to_half_byte(arg_hex[2 * i + 1]);
        match (high, low) {
            (Some(high), Some(low)) => {
                res_vec.push(high * 16 + low);
            },
            _ => {
                return Err(SCError::Static(err_msg::DESERIALIZATION_INVALID_BYTE));
            },
        }
        i += 1;
    }
    Ok(res_vec)
}

/// Walks through call data, component by component.
pub struct CallDataDeserializer<'a> {
    source: &'a [u8],
    index: usize,
    finished: bool,
    func_name_len: usize,
}

impl<'a> View for CallDataDeserializer<'a> {
    type V = Option<Seq<u8>>;

    /// What is left to read: the bytes behind the separator that ended the
    /// last component, or nothing once the last component has been read.
    closed spec fn view(&self) -> Option<Seq<u8>> {
        if self.finished {
            None
        } else {
            Some(self.source@.subrange(self.index as int, self.source@.len() as int))
        }
    }
}

impl<'a> CallDataDeserializer<'a> {
    #[verifier::type_invariant]
    spec fn well_formed(&self) -> bool {
        &&& self.index <= self.source@.len()
        &&& self.func_name_len == first_separator(self.source@)
    }

    /// The bytes being read, from their beginning.
    pub closed spec fn source(&self) -> Seq<u8> {
        self.source@
    }

    /// How far the component that starts at `from` reaches: up to the next
    /// separator or the end of the data.
    fn component_end(source: &[u8], from: usize) -> (end: usize)
        requires
            from <= source@.len(),
        ensures
            from <= end <= source@.len(),
            end - from == first_separator(source@.subrange(from as int, source@.len() as int)),
    {
        let mut end = from;
        while end < source.len() && source[end] != SEPARATOR
            invariant
                from <= end <= source@.len(),
                forall|i: int| from <= i < end ==> source@[i] != SEPARATOR,
            decreases source@.len() - end,
        {
            end += 1;
        }
        proof {
            lemma_first_separator(source@.subrange(from as int, source@.len() as int), end - from);
        }
        end
    }

    /// Starts reading call data. The first component, the endpoint name, is
    /// taken off at once; what follows it are the arguments.
    pub fn new(source: &'a [u8]) -> (de: Self)
        ensures
            de.source() == source@,
            de@ == after_component(source@),
    {
        assert(source@.subrange(0, source@.len() as int) =~= source@);
        let end = Self::component_end(source, 0);
        if end < source.len() {
            CallDataDeserializer { source, index: end + 1, finished: false, func_name_len: end }
        } else {
            CallDataDeserializer { source, index: end, finished: true, func_name_len: end }
        }
    }

    /// The endpoint name: the first component of the call data.
    pub fn get_func_name(&self) -> (name: &'a [u8])
        ensures
            name@ == first_component(self.source()),
    {
        proof {
            use_type_invariant(self);
            lemma_first_separator_bound(self.source@);
        }
        slice_subrange(self.source, 0, self.func_name_len)
    }

    /// Whether an argument is left to read. Call data that ends in a
    /// separator has an empty argument left.
    pub fn has_next(&self) -> (b: bool)
        ensures
            b == self@.is_some(),
    {
        !self.finished
    }

    /// Reads the next argument and gives its bytes, or nothing where no
    /// argument is left. An argument that is not made of pairs of digits gives
    /// an error, and is passed over all the same.
    pub fn next_argument(&mut self) -> (r: Result<Option<Vec<u8>>, SCError>)
        ensures
            final(self).source() == old(self).source(),
            match old(self)@ {
                None => final(self)@.is_none() && r matches Ok(None),
                Some(rest) => final(self)@ == after_component(rest) && match argument_of(
                    first_component(rest),
                ) {
                    Ok(bytes) => r matches Ok(Some(v)) && v@ == bytes,
                    Err(e) => r matches Err(f) && f == e,
                },
            },
    {
        proof {
            use_type_invariant(&*self);
        }
        if self.finished {
            return Ok(None);
        }
        let start = self.index;
        let end = Self::component_end(self.source, start);
        let arg_hex = slice_subrange(self.source, start, end);
        let ghost rest = self.source@.subrange(start as int, self.source@.len() as int);
        assert(arg_hex@ =~= first_component(rest));
        if end < self.source.len() {
            self.index = end + 1;
        } else {
            self.index = end;
            self.finished = true;
        }
        match decode_argument(arg_hex) {
            Ok(bytes) => Ok(Some(bytes)),
            Err(e) => Err(e),
        }
    }
}

/// The first separator lies within the data or right behind it.
pub proof fn lemma_first_separator_bound(data: Seq<u8>)
    ensures
        first_separator(data) <= data.len(),
    decreases data.len(),
{
    if data.len() > 0 && data[0] != SEPARATOR {
        lemma_first_separator_bound(data.drop_first());
    }
}

} // verus!
