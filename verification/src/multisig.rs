//! The contract itself: state held in memory, and the operations on it.

use vstd::prelude::*;
use std::collections::HashMap;
use crate::action::Action;
use crate::address::Address;
use crate::error::MultisigError;
use crate::state::{
    lemma_count_all_board_members, lemma_count_board_members_bound, lemma_count_board_members_push,
    lemma_count_board_members_update, Operation, State,
};
use crate::user_role::UserRole;
use crate::users::{lemma_registered_id, UserRegistry};

verus! {

broadcast use vstd::std_specs::hash::group_hash_axioms;

/// The signer set of every action id, read off the stored lists: an id
/// without a list has no signers.
spec fn signer_sets(lists: Map<usize, Vec<usize>>) -> Map<usize, Set<usize>> {
    Map::total(
        |action_id: usize|
            if lists.contains_key(action_id) {
                lists[action_id]@.to_set()
            } else {
                Set::<usize>::empty()
            },
    )
}

/// Taking one more element into a finite set changes the number of its
/// elements that satisfy `keep` by one if the element satisfies it, and not at
/// all otherwise.
proof fn lemma_filter_insert(s: Set<usize>, x: usize, keep: spec_fn(usize) -> bool)
    requires
        s.finite(),
        !s.contains(x),
    ensures
        s.filter(keep).finite(),
        s.insert(x).filter(keep).finite(),
        s.insert(x).filter(keep).len() == s.filter(keep).len() + if keep(x) {
            1nat
        } else {
            0nat
        },
{
    if keep(x) {
        assert(s.insert(x).filter(keep) =~= s.filter(keep).insert(x));
    } else {
        assert(s.insert(x).filter(keep) =~= s.filter(keep));
    }
}

/// Removing the element at `pos` by moving the last element into its place
/// leaves a list without repetitions that holds the others, each once.
proof fn lemma_swap_remove(ids: Seq<usize>, pos: int)
    requires
        ids.no_duplicates(),
        0 <= pos < ids.len(),
    ensures
        ids.update(pos, ids.last()).drop_last().no_duplicates(),
        ids.update(pos, ids.last()).drop_last().to_set() == ids.to_set().remove(ids[pos]),
{
    let rest = ids.update(pos, ids.last()).drop_last();
    assert forall|x: usize| ids.contains(x) && x != ids[pos] implies rest.contains(x) by {
        let i = choose|i: int| 0 <= i < ids.len() && ids[i] == x;
        if i == ids.len() - 1 {
            assert(rest[pos] == x);
        } else {
            assert(rest[i] == x);
        }
    }
}

/// The first place at which `user_id` stands in the list, if it stands there.
fn position_of(ids: &Vec<usize>, user_id: usize) -> (r: Option<usize>)
    ensures
        r matches Some(pos) ==> pos < ids@.len() && ids@[pos as int] == user_id && forall|i: int|
            0 <= i < pos ==> ids@[i] != user_id,
        r is None <==> !ids@.contains(user_id),
{
    let mut i: usize = 0;
    while i < ids.len()
        invariant
            i <= ids@.len(),
            forall|j: int| 0 <= j < i ==> ids@[j] != user_id,
        decreases ids@.len() - i,
    {
        if ids[i] == user_id {
            return Some(i);
        }
        i += 1;
    }
    None
}

/// The multisig contract.
///
/// Board members and proposers propose actions; board members sign them; an
/// action is executed once as many current board members have signed it as the
/// quorum asks.
pub struct Multisig<BigUint> {
    users: UserRegistry,
    user_roles: Vec<UserRole>,
    quorum: usize,
    board_size: usize,
    action_last_index: usize,
    pending_action_count: usize,
    action_data: Vec<Action<BigUint>>,
    action_signer_ids: HashMap<usize, Vec<usize>>,
}

impl<BigUint> View for Multisig<BigUint> {
    type V = State<BigUint>;

    closed spec fn view(&self) -> State<BigUint> {
        State {
            users: self.users@,
            roles: self.user_roles@,
            quorum: self.quorum,
            board_size: self.board_size,
            action_last_index: self.action_last_index,
            pending_action_count: self.pending_action_count,
            actions: self.action_data@,
            signers: signer_sets(self.action_signer_ids@),
        }
    }
}

impl<BigUint: Copy> Multisig<BigUint> {
    /// The representation is sound: the state is valid and no stored signer
    /// list names a user twice.
    pub closed spec fn wf(&self) -> bool {
        &&& self@.valid()
        &&& forall|action_id: usize| #[trigger]
            self.action_signer_ids@.contains_key(action_id)
                ==> self.action_signer_ids@[action_id]@.no_duplicates()
    }

    /// A well-formed contract is in a valid state.
    pub proof fn lemma_wf_valid(&self)
        requires
            self.wf(),
        ensures
            self@.valid(),
    {
    }

    /// Deploys the contract with the given quorum and board. The board members
    /// get the user ids one, two, ... in the order given.
    ///
    /// Fails with `InvalidConfig` where the quorum exceeds the size of the board.
    pub fn init(quorum: usize, board: Vec<Address>) -> (r: Result<Self, MultisigError>)
        ensures
            quorum <= board@.len() ==> r is Ok && r->Ok_0.wf() && r->Ok_0@ == State::<
                BigUint,
            >::initial(quorum, board@),
            quorum > board@.len() ==> r is Err && r->Err_0 == MultisigError::InvalidConfig,
    {
        let board_size = board.len();
        if quorum > board_size {
            return Err(MultisigError::InvalidConfig);
        }
        let mut user_roles: Vec<UserRole> = Vec::new();
        let mut i: usize = 0;
        while i < board_size
            invariant
                i <= board_size,
                user_roles@.len() == i,
                forall|j: int| 0 <= j < i ==> user_roles@[j] == UserRole::BoardMember,
            decreases board_size - i,
        {
            user_roles.push(UserRole::BoardMember);
            i += 1;
        }
        let contract = Multisig {
            users: UserRegistry::from_addresses(board),
            user_roles,
            quorum,
            board_size,
            action_last_index: 0,
            pending_action_count: 0,
            action_data: Vec::new(),
            action_signer_ids: HashMap::new(),
        };
        proof {
            lemma_count_all_board_members(contract.user_roles@);
        }
        Ok(contract)
    }

    /// Accepts value sent to the contract. The governance state is not touched.
    pub fn deposit(&self) {
    }

    /// The number of valid signatures that an execution needs.
    pub fn get_quorum(&self) -> (quorum: usize)
        ensures
            quorum == self@.quorum,
    {
        self.quorum
    }

    /// The number of users who are board members.
    pub fn get_board_size(&self) -> (board_size: usize)
        ensures
            board_size == self@.board_size,
    {
        self.board_size
    }

    /// The id of the latest proposal; zero before the first.
    pub fn get_action_last_index(&self) -> (action_last_index: usize)
        ensures
            action_last_index == self@.action_last_index,
    {
        self.action_last_index
    }

    /// The number of proposals ever made. Executing or abandoning an action
    /// does not lower it.
    pub fn get_pending_action_count(&self) -> (pending_action_count: usize)
        ensures
            pending_action_count == self@.pending_action_count,
    {
        self.pending_action_count
    }

    /// How many user ids have been handed out.
    pub fn get_num_users(&self) -> (n: usize)
        ensures
            n == self@.users.len(),
    {
        self.users.get_num_users()
    }

    /// The user id of the address; zero if it is not registered.
    pub fn get_user_id(&self, address: &Address) -> (user_id: usize)
        ensures
            user_id == self@.user_id(*address),
    {
        self.users.get_user_id(address)
    }

    /// The role of the user id; `NoRole` for an id that nobody holds.
    pub fn get_user_id_to_role(&self, user_id: usize) -> (role: UserRole)
        ensures
            role == self@.role_of(user_id),
    {
        if user_id >= 1 && user_id <= self.user_roles.len() {
            self.user_roles[user_id - 1]
        } else {
            UserRole::NoRole
        }
    }

    /// The payload stored under the action id; `Nothing` for an id that holds
    /// no proposal.
    pub fn get_action_data(&self, action_id: usize) -> (action: Action<BigUint>)
        ensures
            action == self@.action(action_id),
    {
        if action_id >= 1 && action_id <= self.action_data.len() {
            self.action_data[action_id - 1]
        } else {
            Action::Nothing
        }
    }

    /// The role of the address; `NoRole` if it is not registered.
    pub fn user_role(&self, user: &Address) -> (role: UserRole)
        ensures
            role == self@.user_role(*user),
    {
        let user_id = self.users.get_user_id(user);
        if user_id == 0 {
            UserRole::NoRole
        } else {
            self.get_user_id_to_role(user_id)
        }
    }
}

impl<BigUint: Copy> Multisig<BigUint> {
    /// The user ids that have signed the action, each once, in no particular
    /// order.
    pub fn get_action_signer_ids(&self, action_id: usize) -> (ids: Vec<usize>)
        requires
            self.wf(),
        ensures
            ids@.to_set() == self@.signers[action_id],
            ids@.no_duplicates(),
    {
        match self.action_signer_ids.get(&action_id) {
            Some(stored) => stored.clone(),
            None => Vec::new(),
        }
    }

    /// Whether the address is registered and has signed the action.
    pub fn signed(&self, user: &Address, action_id: usize) -> (b: bool)
        ensures
            b == self@.signed(*user, action_id),
    {
        let user_id = self.users.get_user_id(user);
        if user_id == 0 {
            false
        } else {
            match self.action_signer_ids.get(&action_id) {
                Some(ids) => position_of(ids, user_id).is_some(),
                None => false,
            }
        }
    }

    /// How many signers of the action are board members right now. A signer
    /// who has lost the role since signing is not counted.
    pub fn get_action_valid_signer_count(&self, action_id: usize) -> (count: usize)
        requires
            self.wf(),
        ensures
            count == self@.valid_signers(action_id).len(),
    {
        let ghost keep = |user_id: usize| self@.role_of(user_id).can_sign();
        match self.action_signer_ids.get(&action_id) {
            Some(ids) => {
                let mut count: usize = 0;
                let mut i: usize = 0;
                assert(ids@.take(0).to_set().filter(keep) =~= Set::<usize>::empty());
                while i < ids.len()
                    invariant
                        i <= ids@.len(),
                        ids@.no_duplicates(),
                        count <= i,
                        count == ids@.take(i as int).to_set().filter(keep).len(),
                        forall|user_id: usize| keep(user_id) == self@.role_of(user_id).can_sign(),
                    decreases ids@.len() - i,
                {
                    let role = self.get_user_id_to_role(ids[i]);
                    proof {
                        let before = ids@.take(i as int);
                        let id = ids@[i as int];
                        assert(ids@.take(i + 1) =~= before.push(id));
                        before.lemma_push_to_set_commute(id);
                        lemma_filter_insert(before.to_set(), id, keep);
                    }
                    if role.can_sign() {
                        count += 1;
                    }
                    i += 1;
                }
                assert(ids@.take(ids@.len() as int) =~= ids@);
                count
            },
            None => {
                assert(self@.valid_signers(action_id) =~= Set::<usize>::empty());
                0
            },
        }
    }

    /// Whether the action has gathered the valid signatures that the quorum
    /// asks for.
    pub fn quorum_reached(&self, action_id: usize) -> (b: bool)
        requires
            self.wf(),
        ensures
            b == self@.quorum_reached(action_id),
    {
        self.get_action_valid_signer_count(action_id) >= self.quorum
    }

    /// Stores the action in place of what the id holds. An id that was never
    /// proposed holds `Nothing` and cannot hold anything else.
    fn set_action_data(&mut self, action_id: usize, action: Action<BigUint>)
        ensures
            final(self)@ == old(self)@.with_action(action_id, action),
            final(self).action_signer_ids == old(self).action_signer_ids,
    {
        if action_id >= 1 && action_id <= self.action_data.len() {
            self.action_data.set(action_id - 1, action);
        }
    }

    /// Stores the list as the signers of the action.
    fn set_action_signer_ids(&mut self, action_id: usize, signer_ids: Vec<usize>)
        requires
            old(self).wf(),
            signer_ids@.no_duplicates(),
        ensures
            final(self).wf(),
            final(self)@ == (State {
                signers: old(self)@.signers.insert(action_id, signer_ids@.to_set()),
                ..old(self)@
            }),
    {
        self.action_signer_ids.insert(action_id, signer_ids);
    }

    /// Proposes an action on behalf of `caller`, who must be a proposer or a
    /// board member, and returns the id it got. Ids count up from one and are
    /// never given twice. A board member signs the proposal by making it.
    ///
    /// Fails with `Unauthorized` for any other caller.
    pub fn propose_action(&mut self, caller: &Address, action: Action<BigUint>) -> (r: Result<
        usize,
        MultisigError,
    >)
        requires
            old(self).wf(),
        ensures
            final(self).wf(),
            r == old(self)@.propose_result(*caller),
            final(self)@ == old(self)@.step(Operation::Propose { caller: *caller, action }),
    {
        let caller_id = self.users.get_user_id(caller);
        let caller_role = self.get_user_id_to_role(caller_id);
        if !caller_role.can_propose() {
            return Err(MultisigError::Unauthorized);
        }
        self.action_data.push(action);
        let action_id = self.action_data.len();
        self.action_last_index = action_id;
        self.pending_action_count = self.pending_action_count + 1;
        if caller_role.can_sign() {
            let mut signer_ids: Vec<usize> = Vec::new();
            signer_ids.push(caller_id);
            assert(signer_ids@[0] == caller_id);
            assert(signer_ids@.to_set() =~= set![caller_id]);
            self.set_action_signer_ids(action_id, signer_ids);
        }
        Ok(action_id)
    }

    /// Proposes to make the address a board member.
    pub fn propose_add_board_member(
        &mut self,
        caller: &Address,
        board_member_address: Address,
    ) -> (r: Result<usize, MultisigError>)
        requires
            old(self).wf(),
        ensures
            final(self).wf(),
            r == old(self)@.propose_result(*caller),
            final(self)@ == old(self)@.step(
                Operation::Propose { caller: *caller, action: Action::AddBoardMember(board_member_address) },
            ),
    {
        self.propose_action(caller, Action::AddBoardMember(board_member_address))
    }

    /// Proposes to make the address a proposer.
    pub fn propose_add_proposer(&mut self, caller: &Address, proposer_address: Address) -> (r: Result<
        usize,
        MultisigError,
    >)
        requires
            old(self).wf(),
        ensures
            final(self).wf(),
            r == old(self)@.propose_result(*caller),
            final(self)@ == old(self)@.step(
                Operation::Propose { caller: *caller, action: Action::AddProposer(proposer_address) },
            ),
    {
        self.propose_action(caller, Action::AddProposer(proposer_address))
    }

    /// Proposes to take every role from the address, board member or proposer.
    pub fn propose_remove_user(&mut self, caller: &Address, user_address: Address) -> (r: Result<
        usize,
        MultisigError,
    >)
        requires
            old(self).wf(),
        ensures
            final(self).wf(),
            r == old(self)@.propose_result(*caller),
            final(self)@ == old(self)@.step(
                Operation::Propose { caller: *caller, action: Action::RemoveUser(user_address) },
            ),
    {
        self.propose_action(caller, Action::RemoveUser(user_address))
    }

    /// Proposes a new quorum. Whether it fits the board is checked when the
    /// proposal is executed, against the board as it is then.
    pub fn propose_change_quorum(&mut self, caller: &Address, new_quorum: usize) -> (r: Result<
        usize,
        MultisigError,
    >)
        requires
            old(self).wf(),
        ensures
            final(self).wf(),
            r == old(self)@.propose_result(*caller),
            final(self)@ == old(self)@.step(
                Operation::Propose { caller: *caller, action: Action::ChangeQuorum(new_quorum) },
            ),
    {
        self.propose_action(caller, Action::ChangeQuorum(new_quorum))
    }

    /// Proposes to send the amount of the native currency to the address.
    pub fn propose_send_egld(&mut self, caller: &Address, to: Address, amount: BigUint) -> (r: Result<
        usize,
        MultisigError,
    >)
        requires
            old(self).wf(),
        ensures
            final(self).wf(),
            r == old(self)@.propose_result(*caller),
            final(self)@ == old(self)@.step(
                Operation::Propose { caller: *caller, action: Action::SendEgld(to, amount) },
            ),
    {
        self.propose_action(caller, Action::SendEgld(to, amount))
    }

    /// Records that `caller`, who must be a board member, signs the action.
    /// Signing again changes nothing. Any action id can be signed, whether or
    /// not a proposal stands under it.
    ///
    /// Fails with `Unauthorized` for any other caller.
    pub fn sign(&mut self, caller: &Address, action_id: usize) -> (r: Result<(), MultisigError>)
        requires
            old(self).wf(),
        ensures
            final(self).wf(),
            r == old(self)@.sign_result(*caller),
            final(self)@ == old(self)@.step(Operation::Sign { caller: *caller, action_id }),
    {
        let caller_id = self.users.get_user_id(caller);
        let caller_role = self.get_user_id_to_role(caller_id);
        if !caller_role.can_sign() {
            return Err(MultisigError::Unauthorized);
        }
        let mut signer_ids = self.get_action_signer_ids(action_id);
        if position_of(&signer_ids, caller_id).is_none() {
            proof {
                signer_ids@.lemma_push_to_set_commute(caller_id);
            }
            signer_ids.push(caller_id);
            self.set_action_signer_ids(action_id, signer_ids);
        } else {
            assert(old(self)@.signers[action_id].insert(caller_id) =~= old(self)@.signers[action_id]);
            assert(old(self)@.signers.insert(action_id, old(self)@.signers[action_id])
                =~= old(self)@.signers);
        }
        Ok(())
    }

    /// Withdraws the signature of `caller`, who must be a board member, from
    /// the action. When the last signature goes, the action is dropped: it
    /// becomes `Nothing`. A caller who had not signed changes nothing.
    ///
    /// Fails with `Unauthorized` for any other caller.
    pub fn unsign(&mut self, caller: &Address, action_id: usize) -> (r: Result<(), MultisigError>)
        requires
            old(self).wf(),
        ensures
            final(self).wf(),
            r == old(self)@.sign_result(*caller),
            final(self)@ == old(self)@.step(Operation::Unsign { caller: *caller, action_id }),
    {
        let caller_id = self.users.get_user_id(caller);
        let caller_role = self.get_user_id_to_role(caller_id);
        if !caller_role.can_sign() {
            return Err(MultisigError::Unauthorized);
        }
        let mut signer_ids = self.get_action_signer_ids(action_id);
        if let Some(signer_pos) = position_of(&signer_ids, caller_id) {
            proof {
                lemma_swap_remove(signer_ids@, signer_pos as int);
            }
            // the order carries no meaning, so the last signer may take the free place
            signer_ids.swap_remove(signer_pos);
            let none_left = signer_ids.len() == 0;
            proof {
                if signer_ids@.len() > 0 {
                    assert(signer_ids@.to_set().contains(signer_ids@[0]));
                }
            }
            self.set_action_signer_ids(action_id, signer_ids);
            if none_left {
                // the last signer withdrew: nothing supports the action any more
                self.set_action_data(action_id, Action::Nothing);
            }
        }
        Ok(())
    }
}

impl<BigUint: Copy> Multisig<BigUint> {
    /// Gives the address the new role, registering the address if need be,
    /// and keeps the board size in step. This serves to
    /// - create a user (board member or proposer),
    /// - remove a user,
    /// - bring a removed user back,
    /// - turn a board member into a proposer and the other way round.
    fn change_user_role(&mut self, user_address: &Address, new_role: UserRole)
        requires
            old(self).wf(),
        ensures
            final(self).wf(),
            final(self)@ == old(self)@.change_user_role(*user_address, new_role),
    {
        let ghost before = self@;
        let user_id = self.users.get_or_create_user(user_address);
        let num_users = self.users.get_num_users();
        if self.user_roles.len() < num_users {
            proof {
                lemma_count_board_members_push(self.user_roles@, UserRole::NoRole);
            }
            self.user_roles.push(UserRole::NoRole);
        }
        proof {
            lemma_registered_id(self.users@, *user_address);
            lemma_count_board_members_update(self.user_roles@, user_id - 1, new_role);
            lemma_count_board_members_bound(self.user_roles@.update(user_id - 1, new_role));
        }
        let old_role = self.get_user_id_to_role(user_id);
        self.user_roles.set(user_id - 1, new_role);
        if old_role == UserRole::BoardMember {
            if new_role != UserRole::BoardMember {
                self.board_size = self.board_size - 1;
            }
        } else {
            if new_role == UserRole::BoardMember {
                self.board_size = self.board_size + 1;
            }
        }
    }

    /// Tells `caller`, before the action is executed, which transfer the
    /// execution calls for: the receiver and the amount where the action is a
    /// `SendEgld`, nothing for every other action.
    ///
    /// Fails as `perform_action` would before any transfer: with
    /// `Unauthorized` unless `caller` is a proposer or a board member, else
    /// with `QuorumNotReached` unless enough current board members have signed.
    pub fn transfer_due(&self, caller: &Address, action_id: usize) -> (r: Result<
        Option<(Address, BigUint)>,
        MultisigError,
    >)
        requires
            self.wf(),
        ensures
            r == self@.transfer_due(*caller, action_id),
    {
        let caller_id = self.users.get_user_id(caller);
        let caller_role = self.get_user_id_to_role(caller_id);
        if !caller_role.can_propose() {
            return Err(MultisigError::Unauthorized);
        }
        if !self.quorum_reached(action_id) {
            return Err(MultisigError::QuorumNotReached);
        }
        match self.get_action_data(action_id) {
            Action::SendEgld(to, amount) => Ok(Some((to, amount))),
            _ => Ok(None),
        }
    }

    /// Executes the action on behalf of `caller`, who must be a proposer or a
    /// board member, once enough current board members have signed it. A
    /// signer who is no board member any more does not count, whatever the
    /// role was at the time of signing.
    ///
    /// `delivered` reports how the transfer named by `transfer_due` went; for
    /// an action other than `SendEgld` it is not looked at.
    ///
    /// After a successful execution the action is `Nothing` and has no
    /// signers, so that it cannot take effect twice. It fails, and changes
    /// nothing, with
    /// - `Unauthorized` where the caller is neither proposer nor board member,
    /// - `QuorumNotReached` where too few valid signatures stand,
    /// - `InvalidConfig` where the action sets a quorum above the board size,
    /// - `TransferFailed` where the action sends value and `delivered` is false.
    pub fn perform_action(&mut self, caller: &Address, action_id: usize, delivered: bool) -> (r:
        Result<(), MultisigError>)
        requires
            old(self).wf(),
        ensures
            final(self).wf(),
            r == old(self)@.perform_result(*caller, action_id, delivered),
            final(self)@ == old(self)@.step(
                Operation::Perform { caller: *caller, action_id, delivered },
            ),
    {
        let caller_id = self.users.get_user_id(caller);
        let caller_role = self.get_user_id_to_role(caller_id);
        if !caller_role.can_propose() {
            return Err(MultisigError::Unauthorized);
        }
        let quorum = self.get_quorum();
        let valid_signers_count = self.get_action_valid_signer_count(action_id);
        if valid_signers_count < quorum {
            return Err(MultisigError::QuorumNotReached);
        }
        let action = self.get_action_data(action_id);
        match action {
            Action::Nothing => {},
            Action::AddBoardMember(board_member_address) => {
                self.change_user_role(&board_member_address, UserRole::BoardMember);
            },
            Action::AddProposer(proposer_address) => {
                self.change_user_role(&proposer_address, UserRole::Proposer);
            },
            Action::RemoveUser(user_address) => {
                self.change_user_role(&user_address, UserRole::NoRole);
            },
            Action::ChangeQuorum(new_quorum) => {
                if new_quorum > self.get_board_size() {
                    return Err(MultisigError::InvalidConfig);
                }
                self.quorum = new_quorum;
            },
            Action::SendEgld(_, _) => {
                if !delivered {
                    return Err(MultisigError::TransferFailed);
                }
            },
        }
        // clean up
        self.set_action_data(action_id, Action::Nothing);
        self.set_action_signer_ids(action_id, Vec::new());
        proof {
            assert(Seq::<usize>::empty().to_set() =~= Set::<usize>::empty());
        }
        Ok(())
    }
}

} // verus!
