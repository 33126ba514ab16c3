//! The privileges a registered user can hold.

use vstd::prelude::*;

verus! {

/// What a user is allowed to do.
///
/// | role          | propose | sign |
/// |---------------|---------|------|
/// | `NoRole`      | no      | no   |
/// | `Proposer`    | yes     | no   |
/// | `BoardMember` | yes     | yes  |
#[derive(Clone, Copy, Debug, PartialEq, Eq, Structural)]
pub enum UserRole {
    NoRole,
    Proposer,
    BoardMember,
}

impl UserRole {
    /// Whether the role may create proposals and trigger their execution.
    pub open spec fn spec_can_propose(&self) -> bool {
        *self == UserRole::Proposer || *self == UserRole::BoardMember
    }

    /// Whether the role may sign, and so counts toward the quorum.
    pub open spec fn spec_can_sign(&self) -> bool {
        *self == UserRole::BoardMember
    }

    #[verifier::when_used_as_spec(spec_can_propose)]
    pub fn can_propose(&self) -> (b: bool)
        ensures
            b == self.spec_can_propose(),
    {
        match self {
            UserRole::NoRole => false,
            UserRole::Proposer => true,
            UserRole::BoardMember => true,
        }
    }

    #[verifier::when_used_as_spec(spec_can_sign)]
    pub fn can_sign(&self) -> (b: bool)
        ensures
            b == self.spec_can_sign(),
    {
        match self {
            UserRole::NoRole => false,
            UserRole::Proposer => false,
            UserRole::BoardMember => true,
        }
    }
}

} // verus!
