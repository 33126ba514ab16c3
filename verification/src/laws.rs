//! What holds of the contract whatever is done with it.
//!
//! Each law is stated over the model in [`crate::state`], which is what the
//! operations of [`crate::multisig::Multisig`] are specified by.

use vstd::prelude::*;
use crate::action::Action;
use crate::address::Address;
use crate::error::MultisigError;
use crate::state::{
    board_member_ids, count_board_members, lemma_count_all_board_members,
    lemma_count_board_member_ids, lemma_count_board_members_bound, lemma_count_board_members_push,
    lemma_count_board_members_update, Operation, State,
};
use crate::user_role::UserRole;
use crate::users::{lemma_registered_id, lemma_registered_id_push};

verus! {

/// A deployment with a quorum that the board can meet starts in a valid state,
/// with the quorum within the board size.
pub proof fn lemma_initial_valid<BigUint>(quorum: usize, board: Seq<Address>)
    requires
        quorum <= board.len() <= usize::MAX,
    ensures
        State::<BigUint>::initial(quorum, board).valid(),
        State::<BigUint>::initial(quorum, board).quorum <= State::<BigUint>::initial(
            quorum,
            board,
        ).board_size,
{
    lemma_count_all_board_members(State::<BigUint>::initial(quorum, board).roles);
}

/// In a valid state the board size is the number of user ids whose role is
/// `BoardMember`.
pub proof fn lemma_board_size_counts_board_members<BigUint>(s: State<BigUint>)
    requires
        s.valid(),
    ensures
        s.board_members().finite(),
        s.board_members().len() == s.board_size,
{
    lemma_count_board_member_ids(s.roles);
    assert(s.board_members() =~= board_member_ids(s.roles));
}

/// Changing a role keeps the state valid: the board size goes on counting the
/// board members. At most one user is added.
pub proof fn lemma_change_user_role_valid<BigUint>(
    s: State<BigUint>,
    address: Address,
    new_role: UserRole,
)
    requires
        s.valid(),
        s.users.len() < usize::MAX,
    ensures
        s.change_user_role(address, new_role).valid(),
        s.change_user_role(address, new_role).role_of(
            s.change_user_role(address, new_role).user_id(address),
        ) == new_role,
        s.change_user_role(address, new_role).user_id(address) >= 1,
        s.users.len() <= s.change_user_role(address, new_role).users.len() <= s.users.len() + 1,
        s.change_user_role(address, new_role).actions == s.actions,
        s.change_user_role(address, new_role).signers == s.signers,
        s.change_user_role(address, new_role).quorum == s.quorum,
{
    let registered = s.register(address);
    lemma_count_board_members_push(s.roles, UserRole::NoRole);
    lemma_registered_id(registered.users, address);
    let user_id = registered.user_id(address);
    lemma_count_board_members_update(registered.roles, user_id - 1, new_role);
    lemma_count_board_members_bound(registered.roles.update(user_id - 1, new_role));
}

/// Every operation takes a valid state to a valid state; in particular the
/// board size stays the number of users whose role is `BoardMember`. An
/// operation adds at most one user and at most one action.
pub proof fn lemma_step_valid<BigUint>(s: State<BigUint>, op: Operation<BigUint>)
    requires
        s.valid(),
        s.users.len() < usize::MAX,
        s.actions.len() < usize::MAX,
    ensures
        s.step(op).valid(),
        s.step(op).board_size == count_board_members(s.step(op).roles),
        s.step(op).users.len() <= s.users.len() + 1,
        s.step(op).actions.len() <= s.actions.len() + 1,
{
    match op {
        Operation::Perform { caller, action_id, delivered } => {
            if s.perform_result(caller, action_id, delivered) is Ok {
                match s.action(action_id) {
                    Action::AddBoardMember(address) => {
                        lemma_change_user_role_valid(s, address, UserRole::BoardMember);
                    },
                    Action::AddProposer(address) => {
                        lemma_change_user_role_valid(s, address, UserRole::Proposer);
                    },
                    Action::RemoveUser(address) => {
                        lemma_change_user_role_valid(s, address, UserRole::NoRole);
                    },
                    _ => {},
                }
            }
        },
        _ => {},
    }
}

/// In every state that a deployment can reach, the board size is the number
/// of users whose role is `BoardMember`, counted along the roles or taken as
/// the size of the set of such users.
///
/// The bound on the number of operations keeps the ids within `usize`.
pub proof fn lemma_reachable_valid<BigUint>(
    quorum: usize,
    board: Seq<Address>,
    ops: Seq<Operation<BigUint>>,
)
    requires
        quorum <= board.len(),
        board.len() + ops.len() <= usize::MAX,
    ensures
        State::<BigUint>::initial(quorum, board).after(ops).valid(),
        State::<BigUint>::initial(quorum, board).after(ops).board_size == count_board_members(
            State::<BigUint>::initial(quorum, board).after(ops).roles,
        ),
        State::<BigUint>::initial(quorum, board).after(ops).board_size == State::<BigUint>::initial(
            quorum,
            board,
        ).after(ops).board_members().len(),
        State::<BigUint>::initial(quorum, board).after(ops).users.len() <= board.len() + ops.len(),
        State::<BigUint>::initial(quorum, board).after(ops).actions.len() <= ops.len(),
    decreases ops.len(),
{
    let start = State::<BigUint>::initial(quorum, board);
    if ops.len() == 0 {
        lemma_initial_valid::<BigUint>(quorum, board);
    } else {
        lemma_reachable_valid::<BigUint>(quorum, board, ops.drop_last());
        lemma_step_valid(start.after(ops.drop_last()), ops.last());
    }
    lemma_board_size_counts_board_members(start.after(ops));
}

/// Ids are handed out once: an operation leaves every registered address with
/// the user id it has, every proposed action with its place, and lowers
/// neither the id of the latest proposal nor the number of proposals made.
pub proof fn lemma_step_keeps_ids<BigUint>(s: State<BigUint>, op: Operation<BigUint>)
    requires
        s.valid(),
        s.users.len() < usize::MAX,
        s.actions.len() < usize::MAX,
    ensures
        forall|address: Address|
            s.user_id(address) != 0 ==> #[trigger] s.step(op).user_id(address) == s.user_id(
                address,
            ),
        s.action_last_index <= s.step(op).action_last_index,
        s.pending_action_count <= s.step(op).pending_action_count,
        s.actions.len() <= s.step(op).actions.len(),
{
    assert forall|address: Address| s.user_id(address) != 0 implies #[trigger] s.step(op).user_id(
        address,
    ) == s.user_id(address) by {
        lemma_registered_id(s.users, address);
        if let Operation::Perform { caller, action_id, delivered } = op {
            match s.action(action_id) {
                Action::AddBoardMember(added) => {
                    lemma_registered_id_push(s.users, added, address);
                },
                Action::AddProposer(added) => {
                    lemma_registered_id_push(s.users, added, address);
                },
                Action::RemoveUser(added) => {
                    lemma_registered_id_push(s.users, added, address);
                },
                _ => {},
            }
        }
    }
}

/// An operation keeps the quorum within the board size, unless it takes board
/// membership from a user while every board member is needed for the quorum.
pub proof fn lemma_step_keeps_quorum_within_board<BigUint>(
    s: State<BigUint>,
    op: Operation<BigUint>,
)
    requires
        s.valid(),
        s.users.len() < usize::MAX,
        s.quorum <= s.board_size,
        !(s.shrinks_board(op) && s.quorum == s.board_size),
    ensures
        s.step(op).quorum <= s.step(op).board_size,
{
    if let Operation::Perform { caller, action_id, delivered } = op {
        if let Action::AddBoardMember(address) = s.action(action_id) {
            // the board grows: its new size is still a count of users
            lemma_board_size_after_role_change(s, address, UserRole::BoardMember);
        }
    }
}

/// A successful execution of a quorum change leaves the quorum within the
/// board size, whatever the quorum was before.
pub proof fn lemma_change_quorum_within_board<BigUint>(
    s: State<BigUint>,
    caller: Address,
    action_id: usize,
    delivered: bool,
)
    requires
        s.action(action_id) is ChangeQuorum,
        s.perform_result(caller, action_id, delivered) is Ok,
    ensures
        s.perform(caller, action_id, delivered).quorum == s.action(action_id)->ChangeQuorum_0,
        s.perform(caller, action_id, delivered).quorum <= s.perform(
            caller,
            action_id,
            delivered,
        ).board_size,
        s.perform(caller, action_id, delivered).board_size == s.board_size,
{
}

/// The one way to leave the quorum above the board size: an execution that
/// takes board membership from a user while the quorum equals the board size.
pub proof fn lemma_shrinking_a_full_board_breaks_quorum<BigUint>(
    s: State<BigUint>,
    op: Operation<BigUint>,
)
    requires
        s.valid(),
        s.users.len() < usize::MAX,
        s.shrinks_board(op),
        s.quorum == s.board_size,
    ensures
        s.step(op).quorum > s.step(op).board_size,
{
    match op {
        Operation::Perform { caller, action_id, delivered } => {
            match s.action(action_id) {
                Action::AddProposer(address) => {
                    lemma_board_size_after_role_change(s, address, UserRole::Proposer);
                },
                Action::RemoveUser(address) => {
                    lemma_board_size_after_role_change(s, address, UserRole::NoRole);
                },
                _ => {},
            }
        },
        _ => {},
    }
}

/// How a role change moves the board size: down by one where a board member
/// gets another role, up by one where another user becomes a board member.
pub proof fn lemma_board_size_after_role_change<BigUint>(
    s: State<BigUint>,
    address: Address,
    new_role: UserRole,
)
    requires
        s.valid(),
        s.users.len() < usize::MAX,
    ensures
        s.change_user_role(address, new_role).board_size == s.board_size - (if s.user_role(address)
            == UserRole::BoardMember {
            1int
        } else {
            0int
        }) + (if new_role == UserRole::BoardMember {
            1int
        } else {
            0int
        }),
{
    let registered = s.register(address);
    lemma_count_board_members_push(s.roles, UserRole::NoRole);
    lemma_registered_id(registered.users, address);
    let user_id = registered.user_id(address);
    lemma_count_board_members_update(registered.roles, user_id - 1, new_role);
    lemma_count_board_members_bound(registered.roles.update(user_id - 1, new_role));
}

/// Signing is idempotent: a second signature of the same caller on the same
/// action leaves the state, and with it the signers of the action, as the
/// first one made them. This holds of the call as a whole, whether or not the
/// caller is allowed to sign.
pub proof fn lemma_sign_twice<BigUint>(s: State<BigUint>, caller: Address, action_id: usize)
    ensures
        s.sign(caller, action_id).sign(caller, action_id) == s.sign(caller, action_id),
        s.sign(caller, action_id).sign(caller, action_id).signers[action_id] == s.sign(
            caller,
            action_id,
        ).signers[action_id],
        s.step(Operation::Sign { caller, action_id }).step(Operation::Sign { caller, action_id })
            == s.step(Operation::Sign { caller, action_id }),
{
    let once = s.sign(caller, action_id);
    assert(once.signers[action_id].insert(s.user_id(caller)) =~= once.signers[action_id]);
}

/// Withdrawing a signature takes exactly the caller out of the signers of the
/// action and touches no other action's signers.
pub proof fn lemma_unsign_removes_caller_only<BigUint>(
    s: State<BigUint>,
    caller: Address,
    action_id: usize,
)
    ensures
        s.unsign(caller, action_id).signers[action_id] == s.signers[action_id].remove(
            s.user_id(caller),
        ),
        forall|other: usize|
            other != action_id && s.signers.dom().contains(other) ==> s.unsign(
                caller,
                action_id,
            ).signers[other] == s.signers[other],
        s.unsign(caller, action_id).users == s.users,
        s.unsign(caller, action_id).roles == s.roles,
{
}

/// Signing and then withdrawing leaves everyone who had signed before, and
/// nobody else; for a caller who had not signed before, the signers of every
/// action are back as they were.
pub proof fn lemma_unsign_after_sign<BigUint>(s: State<BigUint>, caller: Address, action_id: usize)
    requires
        s.valid(),
    ensures
        s.sign(caller, action_id).unsign(caller, action_id).signers[action_id]
            == s.signers[action_id].remove(s.user_id(caller)),
        !s.signers[action_id].contains(s.user_id(caller)) ==> s.sign(caller, action_id).unsign(
            caller,
            action_id,
        ).signers == s.signers,
{
    let caller_id = s.user_id(caller);
    let signed = s.sign(caller, action_id);
    assert(signed.signers[action_id].remove(caller_id) =~= s.signers[action_id].remove(caller_id));
    if !s.signers[action_id].contains(caller_id) {
        assert(s.signers[action_id].remove(caller_id) =~= s.signers[action_id]);
    }
}

/// When the only signer of an action withdraws, the action becomes `Nothing`
/// and is left without signers, with no execution involved.
pub proof fn lemma_unsign_last_signer<BigUint>(s: State<BigUint>, caller: Address, action_id: usize)
    requires
        s.signers[action_id] == set![s.user_id(caller)],
    ensures
        s.unsign(caller, action_id).signers[action_id] == Set::<usize>::empty(),
        s.unsign(caller, action_id).action(action_id) == Action::<BigUint>::Nothing,
{
}

/// A signer whose role no longer lets them sign does not count toward the
/// quorum, although the signature is still on record: after a board member
/// who signed an action is given a role that cannot sign, the valid signers of
/// the action are the former ones without that user, one fewer than before.
pub proof fn lemma_demoted_signer_not_counted<BigUint>(
    s: State<BigUint>,
    user: Address,
    new_role: UserRole,
    action_id: usize,
)
    requires
        s.valid(),
        s.user_role(user).can_sign(),
        s.signed(user, action_id),
        !new_role.can_sign(),
    ensures
        s.change_user_role(user, new_role).signed(user, action_id),
        !s.change_user_role(user, new_role).valid_signers(action_id).contains(s.user_id(user)),
        s.change_user_role(user, new_role).valid_signers(action_id) == s.valid_signers(
            action_id,
        ).remove(s.user_id(user)),
        s.change_user_role(user, new_role).valid_signers(action_id).len() == s.valid_signers(
            action_id,
        ).len() - 1,
{
    let user_id = s.user_id(user);
    let t = s.change_user_role(user, new_role);
    assert forall|other: usize| other != user_id implies t.role_of(other) == s.role_of(other) by {}
    assert(t.valid_signers(action_id) =~= s.valid_signers(action_id).remove(user_id));
}

/// An execution is one-shot. After a successful execution the action is
/// `Nothing` and has no signers; whoever tries to execute it again changes
/// nothing, and is refused with `QuorumNotReached` wherever the quorum is
/// above zero and the caller may execute at all.
pub proof fn lemma_execute_once<BigUint>(
    s: State<BigUint>,
    caller: Address,
    action_id: usize,
    delivered: bool,
    again: Address,
    delivered_again: bool,
)
    requires
        s.valid(),
        s.users.len() < usize::MAX,
        s.perform_result(caller, action_id, delivered) is Ok,
    ensures
        s.perform(caller, action_id, delivered).action(action_id) == Action::<BigUint>::Nothing,
        s.perform(caller, action_id, delivered).signers[action_id] == Set::<usize>::empty(),
        s.perform(caller, action_id, delivered).perform(again, action_id, delivered_again)
            == s.perform(caller, action_id, delivered),
        s.perform(caller, action_id, delivered).quorum > 0 && s.perform(
            caller,
            action_id,
            delivered,
        ).user_role(again).can_propose() ==> s.perform(caller, action_id, delivered).perform_result(
            again,
            action_id,
            delivered_again,
        ) == Err::<(), MultisigError>(MultisigError::QuorumNotReached),
{
    let done = s.perform(caller, action_id, delivered);
    assert(done.valid_signers(action_id) =~= Set::<usize>::empty());
}

} // verus!
