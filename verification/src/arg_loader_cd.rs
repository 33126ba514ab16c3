//! Loading the arguments of an endpoint from call data.

use vstd::prelude::*;
use vstd::string::StringSliceAdditionalSpecFns;
use crate::call_data::{after_component, argument_of, first_component, CallDataDeserializer};
use crate::codec::{decode_from_byte_slice, extend_bytes, Decode, DecodeError};
use crate::err_msg;
use crate::sc_error::SCError;

verus! {

/// The message for an argument whose bytes could not be read as the value
/// asked for.
pub open spec fn arg_decode_error(e: DecodeError) -> Seq<u8> {
    err_msg::ARG_DECODE_ERROR.spec_bytes() + e.message()
}

/// Turns what reading an argument's bytes gave into what the endpoint gets:
/// the value, or the error that names the failure.
pub fn loaded_arg<T>(decoded: Result<T, DecodeError>) -> (r: Result<Option<T>, SCError>)
    ensures
        match decoded {
            Ok(v) => r matches Ok(Some(w)) && w == v,
            Err(e) => r matches Err(SCError::Dynamic(message)) && message@ == arg_decode_error(e),
        },
{
    match decoded {
        Ok(v) => Ok(Some(v)),
        Err(de_err) => {
            let mut decode_err_message: Vec<u8> = Vec::new();
            extend_bytes(&mut decode_err_message, err_msg::ARG_DECODE_ERROR.as_bytes());
            extend_bytes(&mut decode_err_message, de_err.message_bytes());
            Err(SCError::Dynamic(decode_err_message))
        },
    }
}

/// Loads the arguments of an endpoint, one after the other, from call data.
pub struct CallDataArgLoader<'a> {
    deser: CallDataDeserializer<'a>,
}

impl<'a> View for CallDataArgLoader<'a> {
    type V = Option<Seq<u8>>;

    /// What is left to read of the call data, or nothing once the last
    /// argument has been read.
    closed spec fn view(&self) -> Option<Seq<u8>> {
        self.deser@
    }
}

impl<'a> CallDataArgLoader<'a> {
    /// A loader that goes on where the deserializer stands.
    pub fn new(deser: CallDataDeserializer<'a>) -> (loader: Self)
        ensures
            loader@ == deser@,
    {
        CallDataArgLoader { deser: deser }
    }

    /// Whether an argument is left to load.
    pub fn has_next(&self) -> (b: bool)
        ensures
            b == self@.is_some(),
    {
        self.deser.has_next()
    }

    /// Loads the next argument as a value of the type asked for, or nothing
    /// where no argument is left. An argument that is not well-formed
    /// hexadecimal, or whose bytes do not make a value of the type, gives an
    /// error; the loader has moved past it all the same.
    pub fn next_arg<T: Decode>(&mut self) -> (r: Result<Option<T>, SCError>)
        ensures
            match old(self)@ {
                None => final(self)@.is_none() && r matches Ok(None),
                Some(rest) => final(self)@ == after_component(rest) && match argument_of(
                    first_component(rest),
                ) {
                    Err(e) => r matches Err(f) && f == e,
                    Ok(bytes) => match T::decoded(bytes) {
                        Ok(v) => r matches Ok(Some(w)) && w == v,
                        Err(e) => r matches Err(SCError::Dynamic(message)) && message@
                            == arg_decode_error(e),
                    },
                },
            },
    {
        match self.deser.next_argument() {
            Ok(Some(arg_bytes)) => loaded_arg(decode_from_byte_slice(arg_bytes.as_slice())),
            Ok(None) => Ok(None),
            Err(sc_err) => Err(sc_err),
        }
    }
}

} // verus!
