//! The user registry: which address holds which user id.
//!
//! Ids are dense and start at one; zero stands for "not registered". An id is
//! handed out once and never taken back or given to another address.

use vstd::prelude::*;
use crate::address::Address;

verus! {

/// The id under which `address` is found in `users`, where the user with id
/// `i + 1` stands at position `i`: the last position that holds the address,
/// counted from one, or zero where no position holds it.
pub open spec fn registered_id(users: Seq<Address>, address: Address) -> nat
    decreases users.len(),
{
    if users.len() == 0 {
        0
    } else if users.last() == address {
        users.len()
    } else {
        registered_id(users.drop_last(), address)
    }
}

/// An id is zero or points at an entry that holds the address, and no later
/// entry holds it.
pub proof fn lemma_registered_id(users: Seq<Address>, address: Address)
    ensures
        registered_id(users, address) <= users.len(),
        registered_id(users, address) > 0 ==> users[registered_id(users, address) - 1] == address,
        registered_id(users, address) == 0 <==> !users.contains(address),
        forall|i: int| registered_id(users, address) <= i < users.len() ==> users[i] != address,
    decreases users.len(),
{
    if users.len() > 0 {
        let rest = users.drop_last();
        lemma_registered_id(rest, address);
        if users.last() != address {
            assert forall|i: int| registered_id(users, address) <= i < users.len() implies users[i]
                != address by {
                if i < rest.len() {
                    assert(rest[i] == users[i]);
                }
            }
        }
    }
}

/// Registering an address at the end gives it the next id and leaves every
/// other address with the id it had.
pub proof fn lemma_registered_id_push(users: Seq<Address>, added: Address, address: Address)
    ensures
        registered_id(users.push(added), address) == if address == added {
            users.len() + 1
        } else {
            registered_id(users, address)
        },
{
    assert(users.push(added).drop_last() =~= users);
}

/// Maps each known address to its user id and back.
pub struct UserRegistry {
    addresses: Vec<Address>,
}

impl View for UserRegistry {
    type V = Seq<Address>;

    closed spec fn view(&self) -> Seq<Address> {
        self.addresses@
    }
}

impl UserRegistry {
    /// A registry that knows nobody.
    pub fn new() -> (r: UserRegistry)
        ensures
            r@ == Seq::<Address>::empty(),
    {
        UserRegistry { addresses: Vec::new() }
    }

    /// A registry in which the addresses hold the ids one, two, three, ... in
    /// the order given. An address given twice is found under its later id.
    pub fn from_addresses(addresses: Vec<Address>) -> (r: UserRegistry)
        ensures
            r@ == addresses@,
    {
        UserRegistry { addresses }
    }

    /// How many ids have been handed out.
    pub fn get_num_users(&self) -> (n: usize)
        ensures
            n == self@.len(),
    {
        self.addresses.len()
    }

    /// The id of the address, or zero if it is not registered.
    pub fn get_user_id(&self, address: &Address) -> (id: usize)
        ensures
            id == registered_id(self@, *address),
    {
        let mut i: usize = self.addresses.len();
        assert(self@.take(i as int) =~= self@);
        while i > 0
            invariant
                i <= self@.len(),
                registered_id(self@, *address) == registered_id(self@.take(i as int), *address),
            decreases i,
        {
            if self.addresses[i - 1] == *address {
                return i;
            }
            assert(self@.take(i as int).drop_last() =~= self@.take(i - 1));
            i -= 1;
        }
        0
    }

    /// The address that holds the id, if the id has been handed out.
    pub fn get_user_address(&self, user_id: usize) -> (r: Option<Address>)
        ensures
            1 <= user_id <= self@.len() ==> r == Some(self@[user_id - 1]),
            !(1 <= user_id <= self@.len()) ==> r.is_none(),
    {
        if user_id >= 1 && user_id <= self.addresses.len() {
            Some(self.addresses[user_id - 1])
        } else {
            None
        }
    }

    /// The id of the address; an address that is not registered yet gets the
    /// next free id. Ids already handed out stay as they are.
    pub fn get_or_create_user(&mut self, address: &Address) -> (id: usize)
        ensures
            id == registered_id(final(self)@, *address),
            id >= 1,
            registered_id(old(self)@, *address) != 0 ==> final(self)@ == old(self)@,
            registered_id(old(self)@, *address) == 0 ==> final(self)@ == old(self)@.push(*address),
    {
        let known = self.get_user_id(address);
        if known != 0 {
            known
        } else {
            self.addresses.push(*address);
            self.addresses.len()
        }
    }
}

} // verus!
