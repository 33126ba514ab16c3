//! The operations that the board can authorize.

use vstd::prelude::*;
use crate::address::Address;

verus! {

/// A proposal, tagged by what executing it does.
///
/// `Nothing` is what every action id holds before it is proposed, after it was
/// executed, and after its last signer withdrew.
#[derive(Debug, PartialEq, Eq)]
pub enum Action<BigUint> {
    Nothing,
    /// Make the address a board member.
    AddBoardMember(Address),
    /// Make the address a proposer.
    AddProposer(Address),
    /// Take every role from the address.
    RemoveUser(Address),
    /// Set the number of valid signatures that an execution needs.
    ChangeQuorum(usize),
    /// Send the amount of the native currency to the address.
    SendEgld(Address, BigUint),
}

impl<BigUint: Copy> Clone for Action<BigUint> {
    fn clone(&self) -> (r: Self)
        ensures
            r == *self,
    {
        *self
    }
}

impl<BigUint: Copy> Copy for Action<BigUint> {

}

impl<BigUint> Action<BigUint> {
    /// Whether executing the action moves value out of the contract.
    pub open spec fn spec_is_transfer(&self) -> bool {
        *self is SendEgld
    }

    #[verifier::when_used_as_spec(spec_is_transfer)]
    pub fn is_transfer(&self) -> (b: bool)
        ensures
            b == self.spec_is_transfer(),
    {
        match self {
            Action::SendEgld(_, _) => true,
            _ => false,
        }
    }
}

} // verus!
