//! Why an operation was refused.

use vstd::prelude::*;

verus! {

/// The ways an operation can fail. A failed operation leaves the state as it was.
#[derive(Clone, Copy, Debug, PartialEq, Eq, Structural)]
pub enum MultisigError {
    /// The caller's role does not allow the operation.
    Unauthorized,
    /// The quorum would exceed the board size.
    InvalidConfig,
    /// Too few current board members have signed the action.
    QuorumNotReached,
    /// The value transfer that the action calls for did not go through.
    TransferFailed,
}

/// The operations that can be refused.
#[derive(Clone, Copy, Debug, PartialEq, Eq, Structural)]
pub enum Endpoint {
    Init,
    Propose,
    Sign,
    Unsign,
    PerformAction,
}

impl MultisigError {
    /// The text that tells the caller of `endpoint` why it was refused. Only
    /// for `Unauthorized` does the text depend on the endpoint: it names the
    /// roles that may call it.
    pub open spec fn spec_message(&self, endpoint: Endpoint) -> &'static str {
        match self {
            MultisigError::InvalidConfig => "quorum cannot exceed board size",
            MultisigError::QuorumNotReached => "quorum has not been reached",
            MultisigError::TransferFailed => "transfer failed",
            MultisigError::Unauthorized => match endpoint {
                Endpoint::Sign => "only board members can sign",
                Endpoint::Unsign => "only board members can un-sign",
                Endpoint::PerformAction => "only board members and proposers can perform actions",
                _ => "only board members and proposers can propose",
            },
        }
    }

    /// The text that tells the caller of `endpoint` why it was refused.
    #[verifier::when_used_as_spec(spec_message)]
    pub fn message(&self, endpoint: Endpoint) -> (text: &'static str)
        ensures
            text == self.spec_message(endpoint),
    {
        match self {
            MultisigError::InvalidConfig => "quorum cannot exceed board size",
            MultisigError::QuorumNotReached => "quorum has not been reached",
            MultisigError::TransferFailed => "transfer failed",
            MultisigError::Unauthorized => match endpoint {
                Endpoint::Sign => "only board members can sign",
                Endpoint::Unsign => "only board members can un-sign",
                Endpoint::PerformAction => "only board members and proposers can perform actions",
                _ => "only board members and proposers can propose",
            },
        }
    }
}

} // verus!
