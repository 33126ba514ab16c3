//! Which token a payment is made in.

use vstd::prelude::*;
use vstd::string::StringSliceAdditionalSpecFns;

verus! {

/// The name under which the native currency goes.
pub const EGLD_REPRESENTATION: &'static str = "EGLD";

/// Whether the two hold the same bytes.
pub fn bytes_equal(a: &[u8], b: &[u8]) -> (same: bool)
    ensures
        same == (a@ == b@),
{
    if a.len() != b.len() {
        return false;
    }
    let mut i: usize = 0;
    while i < a.len()
        invariant
            i <= a@.len(),
            a@.len() == b@.len(),
            forall|j: int| 0 <= j < i ==> a@[j] == b@[j],
        decreases a@.len() - i,
    {
        if a[i] != b[i] {
            return false;
        }
        i += 1;
    }
    assert(a@ =~= b@);
    true
}

/// The name of a token. The native currency has the empty name.
#[derive(Debug)]
pub struct TokenIdentifier {
    name: Vec<u8>,
}

impl View for TokenIdentifier {
    type V = Seq<u8>;

    /// The bytes of the name; none for the native currency.
    closed spec fn view(&self) -> Seq<u8> {
        self.name@
    }
}

impl TokenIdentifier {
    /// The native currency.
    pub fn egld() -> (token: Self)
        ensures
            token@ == Seq::<u8>::empty(),
    {
        TokenIdentifier { name: Vec::new() }
    }

    /// The token of the given name. The name `EGLD` gives the native currency.
    pub fn from_name(name: Vec<u8>) -> (token: Self)
        ensures
            token@ == if name@ == EGLD_REPRESENTATION.spec_bytes() {
                Seq::<u8>::empty()
            } else {
                name@
            },
    {
        if bytes_equal(name.as_slice(), EGLD_REPRESENTATION.as_bytes()) {
            Self::egld()
        } else {
            TokenIdentifier { name }
        }
    }

    /// Whether this is the native currency.
    pub fn is_egld(&self) -> (b: bool)
        ensures
            b == (self@.len() == 0),
    {
        self.name.len() == 0
    }

    /// Whether this is a token other than the native currency.
    pub fn is_esdt(&self) -> (b: bool)
        ensures
            b == (self@.len() != 0),
    {
        !self.is_egld()
    }

    /// The bytes of the name; none for the native currency.
    pub fn as_slice(&self) -> (name: &[u8])
        ensures
            name@ == self@,
    {
        self.name.as_slice()
    }

    /// The name to show: `EGLD` for the native currency.
    pub fn as_name(&self) -> (name: &[u8])
        ensures
            name@ == if self@.len() == 0 {
                EGLD_REPRESENTATION.spec_bytes()
            } else {
                self@
            },
    {
        if self.is_egld() {
            EGLD_REPRESENTATION.as_bytes()
        } else {
            self.name.as_slice()
        }
    }
}

} // verus!
