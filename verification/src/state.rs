//! The mathematical model of the contract: what it remembers, and what each
//! operation makes of that.
//!
//! Every executable operation of [`crate::multisig::Multisig`] is specified by
//! one of the functions here.

use vstd::prelude::*;
use crate::action::Action;
use crate::address::Address;
use crate::error::MultisigError;
use crate::user_role::UserRole;
use crate::users::registered_id;

verus! {

/// How many of the roles are `BoardMember`.
pub open spec fn count_board_members(roles: Seq<UserRole>) -> nat
    decreases roles.len(),
{
    if roles.len() == 0 {
        0
    } else {
        count_board_members(roles.drop_last()) + if roles.last() == UserRole::BoardMember {
            1nat
        } else {
            0nat
        }
    }
}

/// A sequence of board members only counts as many board members as it is long.
pub proof fn lemma_count_all_board_members(roles: Seq<UserRole>)
    requires
        forall|i: int| 0 <= i < roles.len() ==> roles[i] == UserRole::BoardMember,
    ensures
        count_board_members(roles) == roles.len(),
    decreases roles.len(),
{
    if roles.len() > 0 {
        lemma_count_all_board_members(roles.drop_last());
    }
}

/// There are no more board members than roles.
pub proof fn lemma_count_board_members_bound(roles: Seq<UserRole>)
    ensures
        count_board_members(roles) <= roles.len(),
    decreases roles.len(),
{
    if roles.len() > 0 {
        lemma_count_board_members_bound(roles.drop_last());
    }
}

/// A role added at the end counts if it is `BoardMember`.
pub proof fn lemma_count_board_members_push(roles: Seq<UserRole>, role: UserRole)
    ensures
        count_board_members(roles.push(role)) == count_board_members(roles) + if role
            == UserRole::BoardMember {
            1nat
        } else {
            0nat
        },
{
    assert(roles.push(role).drop_last() =~= roles);
}

/// Replacing one role takes the old one out of the count and the new one in.
pub proof fn lemma_count_board_members_update(roles: Seq<UserRole>, i: int, role: UserRole)
    requires
        0 <= i < roles.len(),
    ensures
        count_board_members(roles.update(i, role)) == count_board_members(roles) - (if roles[i]
            == UserRole::BoardMember {
            1int
        } else {
            0int
        }) + (if role == UserRole::BoardMember {
            1int
        } else {
            0int
        }),
    decreases roles.len(),
{
    let updated = roles.update(i, role);
    if i == roles.len() - 1 {
        assert(updated.drop_last() =~= roles.drop_last());
    } else {
        assert(updated.drop_last() =~= roles.drop_last().update(i, role));
        lemma_count_board_members_update(roles.drop_last(), i, role);
    }
}

/// The ids, counted from one, of the roles that are `BoardMember`.
pub open spec fn board_member_ids(roles: Seq<UserRole>) -> Set<usize> {
    Set::new(
        |user_id: usize|
            1 <= user_id <= roles.len() && roles[user_id - 1] == UserRole::BoardMember,
    )
}

/// The count of board members is the number of ids that hold the role.
pub proof fn lemma_count_board_member_ids(roles: Seq<UserRole>)
    requires
        roles.len() <= usize::MAX,
    ensures
        board_member_ids(roles).finite(),
        board_member_ids(roles).len() == count_board_members(roles),
    decreases roles.len(),
{
    if roles.len() == 0 {
        assert(board_member_ids(roles) =~= Set::<usize>::empty());
    } else {
        let rest = roles.drop_last();
        lemma_count_board_member_ids(rest);
        let last_id = roles.len() as usize;
        if roles.last() == UserRole::BoardMember {
            assert(board_member_ids(roles) =~= board_member_ids(rest).insert(last_id));
        } else {
            assert(board_member_ids(roles) =~= board_member_ids(rest));
        }
    }
}

/// A call that changes the contract.
pub enum Operation<BigUint> {
    /// `caller` proposes `action`.
    Propose { caller: Address, action: Action<BigUint> },
    /// `caller` signs the action.
    Sign { caller: Address, action_id: usize },
    /// `caller` withdraws the signature from the action.
    Unsign { caller: Address, action_id: usize },
    /// `caller` executes the action; `delivered` tells how its transfer went.
    Perform { caller: Address, action_id: usize, delivered: bool },
}

/// What the contract remembers.
///
/// User `u` (an id of at least one) has its address at `users[u - 1]` and its
/// role at `roles[u - 1]`; action `a` has its payload at `actions[a - 1]`.
/// `signers` gives every action id, proposed or not, the set of user ids that
/// have signed it.
#[verifier::ext_equal]
pub struct State<BigUint> {
    pub users: Seq<Address>,
    pub roles: Seq<UserRole>,
    pub quorum: usize,
    pub board_size: usize,
    pub action_last_index: usize,
    pub pending_action_count: usize,
    pub actions: Seq<Action<BigUint>>,
    pub signers: Map<usize, Set<usize>>,
}

impl<BigUint> State<BigUint> {
    /// What holds of every state that the contract can be in.
    ///
    /// The board size is the number of users whose role is `BoardMember`; both
    /// counters equal the number of proposals ever made.
    pub open spec fn valid(self) -> bool {
        &&& self.users.len() <= usize::MAX
        &&& self.roles.len() == self.users.len()
        &&& self.board_size == count_board_members(self.roles)
        &&& self.action_last_index == self.actions.len()
        &&& self.pending_action_count == self.actions.len()
        &&& forall|action_id: usize| self.signers.dom().contains(action_id)
        &&& forall|action_id: usize| (#[trigger] self.signers[action_id]).finite()
    }

    /// The user id of the address; zero if it has none.
    pub open spec fn user_id(self, address: Address) -> usize {
        registered_id(self.users, address) as usize
    }

    /// The role of the user id; `NoRole` for zero and for ids never handed out.
    pub open spec fn role_of(self, user_id: usize) -> UserRole {
        if 1 <= user_id <= self.roles.len() {
            self.roles[user_id - 1]
        } else {
            UserRole::NoRole
        }
    }

    /// The user ids whose role is `BoardMember`.
    pub open spec fn board_members(self) -> Set<usize> {
        Set::new(|user_id: usize| self.role_of(user_id) == UserRole::BoardMember)
    }

    /// The role of the address; `NoRole` if it is not registered.
    pub open spec fn user_role(self, address: Address) -> UserRole {
        self.role_of(self.user_id(address))
    }

    /// The payload of the action id; `Nothing` for zero and for ids not yet
    /// proposed.
    pub open spec fn action(self, action_id: usize) -> Action<BigUint> {
        if 1 <= action_id <= self.actions.len() {
            self.actions[action_id - 1]
        } else {
            Action::Nothing
        }
    }

    /// Whether the address is registered and among the signers of the action.
    pub open spec fn signed(self, address: Address, action_id: usize) -> bool {
        self.user_id(address) != 0 && self.signers[action_id].contains(self.user_id(address))
    }

    /// The signers of the action whose role, as it is now, still lets them sign.
    pub open spec fn valid_signers(self, action_id: usize) -> Set<usize> {
        self.signers[action_id].filter(|user_id: usize| self.role_of(user_id).can_sign())
    }

    /// Whether the action has at least as many valid signers as the quorum asks.
    pub open spec fn quorum_reached(self, action_id: usize) -> bool {
        self.valid_signers(action_id).len() >= self.quorum
    }

    /// The state right after deployment: the board holds the user ids one, two,
    /// ... in the order given, each a board member; nothing is proposed.
    pub open spec fn initial(quorum: usize, board: Seq<Address>) -> Self {
        State {
            users: board,
            roles: Seq::new(board.len(), |i: int| UserRole::BoardMember),
            quorum,
            board_size: board.len() as usize,
            action_last_index: 0,
            pending_action_count: 0,
            actions: Seq::empty(),
            signers: Map::total(|action_id: usize| Set::<usize>::empty()),
        }
    }

    /// The id that the next proposal gets.
    pub open spec fn next_action_id(self) -> usize {
        (self.actions.len() + 1) as usize
    }

    /// How an attempt of `caller` to propose ends: with the id of the new
    /// action, or refused for a caller who is neither proposer nor board member.
    pub open spec fn propose_result(self, caller: Address) -> Result<usize, MultisigError> {
        if self.user_role(caller).can_propose() {
            Ok(self.next_action_id())
        } else {
            Err(MultisigError::Unauthorized)
        }
    }

    /// How an attempt of `caller` to sign, or to withdraw a signature, ends:
    /// refused for a caller who is no board member.
    pub open spec fn sign_result(self, caller: Address) -> Result<(), MultisigError> {
        if self.user_role(caller).can_sign() {
            Ok(())
        } else {
            Err(MultisigError::Unauthorized)
        }
    }

    /// The state after `caller` proposed `action`: it is stored under the next
    /// id and both counters grow by one. A caller who can sign becomes the only
    /// signer of the new id; for any other caller the signers stay as they are.
    pub open spec fn propose(self, caller: Address, action: Action<BigUint>) -> Self {
        let action_id = self.next_action_id();
        State {
            action_last_index: action_id,
            pending_action_count: (self.pending_action_count + 1) as usize,
            actions: self.actions.push(action),
            signers: if self.user_role(caller).can_sign() {
                self.signers.insert(action_id, set![self.user_id(caller)])
            } else {
                self.signers
            },
            ..self
        }
    }

    /// The state after `caller` signed the action.
    pub open spec fn sign(self, caller: Address, action_id: usize) -> Self {
        State {
            signers: self.signers.insert(
                action_id,
                self.signers[action_id].insert(self.user_id(caller)),
            ),
            ..self
        }
    }

    /// The state in which the action id holds `action`, if the id has been
    /// proposed; ids never proposed hold `Nothing` and keep it.
    pub open spec fn with_action(self, action_id: usize, action: Action<BigUint>) -> Self {
        if 1 <= action_id <= self.actions.len() {
            State { actions: self.actions.update(action_id - 1, action), ..self }
        } else {
            self
        }
    }

    /// The state after `caller` withdrew the signature from the action. Where
    /// that leaves the action without signers, the action becomes `Nothing`.
    /// A caller who had not signed changes nothing.
    pub open spec fn unsign(self, caller: Address, action_id: usize) -> Self {
        let caller_id = self.user_id(caller);
        if self.signers[action_id].contains(caller_id) {
            let left = self.signers[action_id].remove(caller_id);
            let kept = State { signers: self.signers.insert(action_id, left), ..self };
            if left.is_empty() {
                kept.with_action(action_id, Action::Nothing)
            } else {
                kept
            }
        } else {
            self
        }
    }

    /// The state in which the address is registered: an unknown address gets
    /// the next user id, with no role.
    pub open spec fn register(self, address: Address) -> Self {
        if registered_id(self.users, address) != 0 {
            self
        } else {
            State {
                users: self.users.push(address),
                roles: self.roles.push(UserRole::NoRole),
                ..self
            }
        }
    }

    /// The state after the address got the new role. The board size follows:
    /// one less where a board member stops being one, one more where someone
    /// becomes one, and unchanged otherwise.
    pub open spec fn change_user_role(self, address: Address, new_role: UserRole) -> Self {
        let registered = self.register(address);
        let user_id = registered.user_id(address);
        let old_role = registered.role_of(user_id);
        State {
            roles: registered.roles.update(user_id - 1, new_role),
            board_size: if old_role == UserRole::BoardMember && new_role != UserRole::BoardMember {
                (registered.board_size - 1) as usize
            } else if old_role != UserRole::BoardMember && new_role == UserRole::BoardMember {
                (registered.board_size + 1) as usize
            } else {
                registered.board_size
            },
            ..registered
        }
    }

    /// What the action does to the roles and the quorum when it is executed.
    /// A transfer moves value outside the contract and changes nothing here.
    pub open spec fn apply(self, action: Action<BigUint>) -> Self {
        match action {
            Action::Nothing => self,
            Action::AddBoardMember(address) => self.change_user_role(address, UserRole::BoardMember),
            Action::AddProposer(address) => self.change_user_role(address, UserRole::Proposer),
            Action::RemoveUser(address) => self.change_user_role(address, UserRole::NoRole),
            Action::ChangeQuorum(new_quorum) => State { quorum: new_quorum, ..self },
            Action::SendEgld(_, _) => self,
        }
    }

    /// The state in which the action is `Nothing` and has no signers.
    pub open spec fn clear(self, action_id: usize) -> Self {
        let cleared = self.with_action(action_id, Action::Nothing);
        State { signers: cleared.signers.insert(action_id, Set::<usize>::empty()), ..cleared }
    }

    /// The state after the action was executed: its effect applied, then the
    /// action and its signers cleared.
    pub open spec fn execute(self, action_id: usize) -> Self {
        self.apply(self.action(action_id)).clear(action_id)
    }

    /// What `caller` learns before executing the action: the transfer that the
    /// execution calls for, if it calls for one, or why the execution is
    /// refused without it.
    pub open spec fn transfer_due(self, caller: Address, action_id: usize) -> Result<
        Option<(Address, BigUint)>,
        MultisigError,
    > {
        if !self.user_role(caller).can_propose() {
            Err(MultisigError::Unauthorized)
        } else if !self.quorum_reached(action_id) {
            Err(MultisigError::QuorumNotReached)
        } else {
            match self.action(action_id) {
                Action::SendEgld(to, amount) => Ok(Some((to, amount))),
                _ => Ok(None),
            }
        }
    }

    /// How an attempt of `caller` to execute the action ends. `delivered` says
    /// whether the value transfer went through; it matters for `SendEgld` only.
    pub open spec fn perform_result(self, caller: Address, action_id: usize, delivered: bool)
        -> Result<(), MultisigError> {
        if !self.user_role(caller).can_propose() {
            Err(MultisigError::Unauthorized)
        } else if !self.quorum_reached(action_id) {
            Err(MultisigError::QuorumNotReached)
        } else {
            match self.action(action_id) {
                Action::ChangeQuorum(new_quorum) => if new_quorum > self.board_size {
                    Err(MultisigError::InvalidConfig)
                } else {
                    Ok(())
                },
                Action::SendEgld(_, _) => if delivered {
                    Ok(())
                } else {
                    Err(MultisigError::TransferFailed)
                },
                _ => Ok(()),
            }
        }
    }

    /// The state after `caller` tried to execute the action: executed where the
    /// attempt succeeds, untouched where it fails.
    pub open spec fn perform(self, caller: Address, action_id: usize, delivered: bool) -> Self {
        if self.perform_result(caller, action_id, delivered) is Ok {
            self.execute(action_id)
        } else {
            self
        }
    }

    /// The state after the operation: changed as the operation says where the
    /// caller is allowed to make it and it succeeds, and untouched otherwise.
    pub open spec fn step(self, op: Operation<BigUint>) -> Self {
        match op {
            Operation::Propose { caller, action } => if self.user_role(caller).can_propose() {
                self.propose(caller, action)
            } else {
                self
            },
            Operation::Sign { caller, action_id } => if self.user_role(caller).can_sign() {
                self.sign(caller, action_id)
            } else {
                self
            },
            Operation::Unsign { caller, action_id } => if self.user_role(caller).can_sign() {
                self.unsign(caller, action_id)
            } else {
                self
            },
            Operation::Perform { caller, action_id, delivered } => self.perform(
                caller,
                action_id,
                delivered,
            ),
        }
    }

    /// The state after the operations, made one after the other.
    pub open spec fn after(self, ops: Seq<Operation<BigUint>>) -> Self
        decreases ops.len(),
    {
        if ops.len() == 0 {
            self
        } else {
            self.after(ops.drop_last()).step(ops.last())
        }
    }

    /// Whether the operation is an execution that succeeds and takes board
    /// membership from a user who has it.
    pub open spec fn shrinks_board(self, op: Operation<BigUint>) -> bool {
        op matches Operation::Perform { caller, action_id, delivered }
            && self.perform_result(caller, action_id, delivered) is Ok && match self.action(
            action_id,
        ) {
            Action::AddProposer(address) => self.user_role(address) == UserRole::BoardMember,
            Action::RemoveUser(address) => self.user_role(address) == UserRole::BoardMember,
            _ => false,
        }
    }
}

} // verus!
