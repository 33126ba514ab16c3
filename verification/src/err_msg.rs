//! The fixed texts of the errors that reading call data can give.

use vstd::prelude::*;

verus! {

pub const ARG_DECODE_ERROR: &'static str = "argument decode error: ";

pub const DESERIALIZATION_INVALID_BYTE: &'static str =
    "call data deserialization error: not a valid byte";

pub const DESERIALIZATION_ODD_DIGITS: &'static str =
    "call data deserialization error: odd number of digits in hex representation";

pub const DECODE_INPUT_TOO_SHORT: &'static str = "input too short";

pub const DECODE_INPUT_TOO_LONG: &'static str = "input too long";

} // verus!
