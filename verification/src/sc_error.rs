//! The error that an endpoint hands back to its caller.

use vstd::prelude::*;
use vstd::string::StringSliceAdditionalSpecFns;

verus! {

/// An error message, as bytes. A message known in advance is kept as the text
/// it is; one put together at run time is kept as the bytes it came to.
#[derive(Debug)]
pub enum SCError {
    Static(&'static str),
    Dynamic(Vec<u8>),
}

impl View for SCError {
    type V = Seq<u8>;

    /// The bytes of the message.
    open spec fn view(&self) -> Seq<u8> {
        match self {
            SCError::Static(text) => text.spec_bytes(),
            SCError::Dynamic(bytes) => bytes@,
        }
    }
}

impl SCError {
    /// The bytes of the message.
    pub fn as_bytes(&self) -> (bytes: &[u8])
        ensures
            bytes@ == self@,
    {
        match self {
            SCError::Static(text) => text.as_bytes(),
            SCError::Dynamic(bytes) => bytes.as_slice(),
        }
    }
}

} // verus!
