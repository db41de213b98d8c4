//! Profiles of registered users: reputation, join time, and the communities
//! and content each user has a stake in. Registering a user also has the
//! token contract mint a welcome grant.

use vstd::prelude::*;
use crate::calls::Call;
use crate::keymap::{KeyMap, MapKey};
use crate::text::{address_text, address_to_string, decimal, push_decimal, push_signed, signed_decimal};
use crate::word::{Address, Env, U256, word_of};

verus! {

/// The tokens granted on registration.
pub const REGISTRATION_GRANT: u64 = 20_000_000;

/// A copy of a byte vector.
pub fn copy_bytes(v: &Vec<u8>) -> (r: Vec<u8>)
    ensures
        r@ == v@,
{
    let mut r: Vec<u8> = Vec::new();
    let mut i: usize = 0;
    while i < v.len()
        invariant
            i <= v@.len(),
            r@ == v@.subrange(0, i as int),
        decreases v@.len() - i,
    {
        r.push(v[i]);
        i = i + 1;
    }
    assert(r@ =~= v@);
    r
}

pub struct Profile {
    pub reputation: i8,
    pub joined_at: u32,
    pub user_community: Vec<u8>,
    pub author_content: Vec<u8>,
}

pub struct User {
    pub user_id: Address,
    pub has_registered: bool,
    pub profile: Profile,
}

/// A user's record as plain values.
pub struct UserView {
    pub user_id: Address,
    pub has_registered: bool,
    pub reputation: i8,
    pub joined_at: u32,
    pub user_community: Seq<u8>,
    pub author_content: Seq<u8>,
}

impl View for User {
    type V = UserView;

    open spec fn view(&self) -> UserView {
        UserView {
            user_id: self.user_id,
            has_registered: self.has_registered,
            reputation: self.profile.reputation,
            joined_at: self.profile.joined_at,
            user_community: self.profile.user_community@,
            author_content: self.profile.author_content@,
        }
    }
}

/// The record of an address that was never written.
pub open spec fn blank_user() -> UserView {
    UserView {
        user_id: Address::spec_zero(),
        has_registered: false,
        reputation: 0,
        joined_at: 0,
        user_community: Seq::empty(),
        author_content: Seq::empty(),
    }
}

fn blank_user_exec() -> (r: User)
    ensures
        r@ == blank_user(),
{
    User {
        user_id: Address::zero(),
        has_registered: false,
        profile: Profile {
            reputation: 0,
            joined_at: 0,
            user_community: Vec::new(),
            author_content: Vec::new(),
        },
    }
}

/// A profile as JSON text: `{"user_id":"..","reputation":..,"joined_at":".."}`.
pub open spec fn profile_json(u: UserView) -> Seq<char> {
    "{\"user_id\":\""@ + address_text(u.user_id) + "\",\"reputation\":"@ + signed_decimal(
        u.reputation as int,
    ) + ",\"joined_at\":\""@ + decimal(u.joined_at as nat) + "\"}"@
}

/// The storage after `address` registers: unchanged where it registered
/// before, else its record is marked registered, stamped with the block time
/// and its reputation reset to 0 (its stake lists stay).
pub open spec fn after_register(s: UsersView, env: Env, address: Address) -> UsersView {
    if s.users[address].has_registered {
        s
    } else {
        UsersView {
            users: s.users.insert(
                address,
                UserView {
                    user_id: address,
                    has_registered: true,
                    reputation: 0,
                    joined_at: env.timestamp as u32,
                    ..s.users[address]
                },
            ),
            ..s
        }
    }
}

/// The calls made by a registration: none for a registered address; else
/// this contract takes the token's admin role and mints the grant to
/// `address`.
pub open spec fn register_calls(s: UsersView, env: Env, address: Address) -> Seq<Call> {
    if s.users[address].has_registered {
        Seq::empty()
    } else {
        seq![
            Call::Erc20SetAdmin { token: s.erc20, admin: env.this },
            Call::Erc20MintTo { token: s.erc20, to: address, value: word_of(REGISTRATION_GRANT) },
        ]
    }
}

/// After registering, an address is registered, and registering it again
/// changes nothing and mints nothing.
pub proof fn law_register_once(s: UsersView, env: Env, address: Address, env2: Env)
    ensures
        after_register(s, env, address).users[address].has_registered,
        after_register(after_register(s, env, address), env2, address) == after_register(
            s,
            env,
            address,
        ),
        register_calls(after_register(s, env, address), env2, address) == Seq::<Call>::empty(),
{
}

/// A new user's registration marks that user, and no one else, registered
/// at the block time with reputation 0, keeping its stake and community
/// lists; and it grants 20,000,000 tokens to that user, after making this
/// contract the token's admin.
pub proof fn law_register_grants_the_new_user(s: UsersView, env: Env, address: Address)
    requires
        !s.users[address].has_registered,
    ensures
        after_register(s, env, address).users[address].has_registered,
        after_register(s, env, address).users[address].user_id == address,
        after_register(s, env, address).users[address].reputation == 0,
        after_register(s, env, address).users[address].joined_at == env.timestamp as u32,
        after_register(s, env, address).users[address].author_content
            == s.users[address].author_content,
        after_register(s, env, address).users[address].user_community
            == s.users[address].user_community,
        forall|a: Address| a != address ==> #[trigger] after_register(s, env, address).users[a]
            == s.users[a],
        register_calls(s, env, address) == seq![
            Call::Erc20SetAdmin { token: s.erc20, admin: env.this },
            Call::Erc20MintTo { token: s.erc20, to: address, value: word_of(20_000_000) },
        ],
{
}

pub struct UsersView {
    /// Every address's record; those never written are `blank_user()`.
    pub users: Map<Address, UserView>,
    pub erc20: Address,
}

/// The profile contract's storage.
pub struct Users {
    users: KeyMap<Address, User>,
    erc20: Address,
}

impl View for Users {
    type V = UsersView;

    closed spec fn view(&self) -> UsersView {
        UsersView {
            users: Map::new(
                |a: Address| true,
                |a: Address|
                    if self.users@.dom().contains(a) {
                        self.users@[a]@
                    } else {
                        blank_user()
                    },
            ),
            erc20: self.erc20,
        }
    }
}

impl Users {
    pub closed spec fn wf(&self) -> bool {
        self.users.wf()
    }

    /// No users, and the zero address as the token.
    pub fn new() -> (r: Self)
        ensures
            r.wf(),
            r@.users == Map::new(|a: Address| true, |a: Address| blank_user()),
            r@.erc20 == Address::spec_zero(),
    {
        let r = Users { users: KeyMap::new(), erc20: Address::zero() };
        assert(r@.users =~= Map::new(|a: Address| true, |a: Address| blank_user()));
        r
    }

    /// Takes `a`'s record out of the map (a blank one where none is held).
    fn take_user(&mut self, a: &Address) -> (r: User)
        requires
            old(self).wf(),
        ensures
            final(self).wf(),
            r@ == old(self)@.users[*a],
            final(self)@ == (UsersView {
                users: old(self)@.users.insert(*a, blank_user()),
                ..old(self)@
            }),
    {
        let ghost pre = *self;
        let r = match self.users.take(a) {
            Some(u) => u,
            None => blank_user_exec(),
        };
        assert(self@.users =~= pre@.users.insert(*a, blank_user()));
        r
    }

    /// Puts `u` back as `a`'s record, in the map as it was before `a`'s
    /// record was taken out.
    fn put_user(&mut self, a: Address, u: User, Ghost(before): Ghost<UsersView>)
        requires
            old(self).wf(),
            old(self)@ == (UsersView { users: before.users.insert(a, blank_user()), ..before }),
        ensures
            final(self).wf(),
            final(self)@ == (UsersView { users: before.users.insert(a, u@), ..before }),
    {
        let ghost pre = *self;
        self.users.insert(a, u);
        assert(self@.users =~= pre@.users.insert(a, u@));
        assert(self@.users =~= before.users.insert(a, u@));
    }

    /// Names the token contract that grants tokens on registration.
    pub fn set_erc2o_address(&mut self, address: Address)
        requires
            old(self).wf(),
        ensures
            final(self).wf(),
            final(self)@ == (UsersView { erc20: address, ..old(self)@ }),
    {
        self.erc20 = address;
    }

    /// Registers `address`, stamped with the block time, with reputation 0.
    /// A registered address is left as it is, and no call is made. Else the
    /// calls hand the token's admin role to this contract and mint the
    /// registration grant to `address`.
    pub fn register_user(&mut self, env: &Env, address: Address) -> (calls: Vec<Call>)
        requires
            old(self).wf(),
            !old(self)@.users[address].has_registered ==> env.timestamp <= u32::MAX,
        ensures
            final(self).wf(),
            final(self)@ == after_register(old(self)@, *env, address),
            calls@ == register_calls(old(self)@, *env, address),
    {
        if self.has_registered(address) {
            return Vec::new();
        }
        let ghost before = self@;
        let mut new_user = self.take_user(&address);
        new_user.user_id = address;
        new_user.profile.reputation = 0;
        new_user.profile.joined_at = env.timestamp as u32;
        new_user.has_registered = true;
        self.put_user(address, new_user, Ghost(before));
        let mut calls: Vec<Call> = Vec::new();
        calls.push(self.set_self_admin(env));
        calls.push(self.mint_tkn(U256::from_u64(REGISTRATION_GRANT), address));
        calls
    }

    pub fn has_registered(&self, user_address: Address) -> (r: bool)
        requires
            self.wf(),
        ensures
            r == self@.users[user_address].has_registered,
    {
        match self.users.get(&user_address) {
            Some(u) => u.has_registered,
            None => false,
        }
    }

    /// `user`'s reputation.
    pub fn reputation_of(&self, user: Address) -> (r: i8)
        requires
            self.wf(),
        ensures
            r == self@.users[user].reputation,
    {
        match self.users.get(&user) {
            Some(u) => u.profile.reputation,
            None => 0,
        }
    }

    /// Adds `points` to `user_id`'s reputation. The points must fit in an
    /// `i8` (the `I8` conversion panics otherwise), and so must the new
    /// reputation: the `I8` sum panics on overflow in debug builds (it wraps
    /// in release builds), and this contract follows debug builds.
    pub fn change_reputation_state(&mut self, user_id: Address, points: i64)
        requires
            old(self).wf(),
            i8::MIN <= points <= i8::MAX,
            i8::MIN <= old(self)@.users[user_id].reputation + points <= i8::MAX,
        ensures
            final(self).wf(),
            final(self)@ == (UsersView {
                users: old(self)@.users.insert(
                    user_id,
                    UserView {
                        reputation: (old(self)@.users[user_id].reputation + points) as i8,
                        ..old(self)@.users[user_id]
                    },
                ),
                ..old(self)@
            }),
    {
        let ghost before = self@;
        let mut user = self.take_user(&user_id);
        let current_point = user.profile.reputation;
        let new_point = current_point + (points as i8);
        user.profile.reputation = new_point;
        self.put_user(user_id, user, Ghost(before));
    }

    /// `user_id`'s profile as JSON text.
    pub fn get_profile(&self, user_id: Address) -> (r: String)
        requires
            self.wf(),
        ensures
            r@ == profile_json(self@.users[user_id]),
    {
        let (id, reputation, joined_at) = match self.users.get(&user_id) {
            Some(u) => (u.user_id, u.profile.reputation, u.profile.joined_at),
            None => (Address::zero(), 0i8, 0u32),
        };
        let mut s = String::new();
        s.append("{\"user_id\":\"");
        let id_text = address_to_string(id);
        s.append(id_text.as_str());
        s.append("\",\"reputation\":");
        push_signed(&mut s, reputation as i64);
        s.append(",\"joined_at\":\"");
        push_decimal(&mut s, joined_at as u64);
        s.append("\"}");
        assert(s@ =~= profile_json(self@.users[user_id]));
        s
    }

    /// Records that `user` has a stake in content `content_id`.
    pub fn set_my_stakes(&mut self, user: Address, content_id: u8)
        requires
            old(self).wf(),
        ensures
            final(self).wf(),
            final(self)@ == (UsersView {
                users: old(self)@.users.insert(
                    user,
                    UserView {
                        author_content: old(self)@.users[user].author_content.push(content_id),
                        ..old(self)@.users[user]
                    },
                ),
                ..old(self)@
            }),
    {
        let ghost before = self@;
        let mut user_profile = self.take_user(&user);
        user_profile.profile.author_content.push(content_id);
        self.put_user(user, user_profile, Ghost(before));
    }

    /// Records that `user` belongs to community `community_id`.
    pub fn set_community(&mut self, user: Address, community_id: u8)
        requires
            old(self).wf(),
        ensures
            final(self).wf(),
            final(self)@ == (UsersView {
                users: old(self)@.users.insert(
                    user,
                    UserView {
                        user_community: old(self)@.users[user].user_community.push(community_id),
                        ..old(self)@.users[user]
                    },
                ),
                ..old(self)@
            }),
    {
        let ghost before = self@;
        let mut user_profile = self.take_user(&user);
        user_profile.profile.user_community.push(community_id);
        self.put_user(user, user_profile, Ghost(before));
    }

    /// The content ids that `user` has a stake in, oldest first.
    pub fn get_my_stakes(&self, user: Address) -> (r: Vec<u8>)
        requires
            self.wf(),
        ensures
            r@ == self@.users[user].author_content,
    {
        match self.users.get(&user) {
            Some(u) => copy_bytes(&u.profile.author_content),
            None => Vec::new(),
        }
    }

    /// The call that mints `tkn` tokens to `address` on the token contract.
    pub fn mint_tkn(&self, tkn: U256, address: Address) -> (c: Call)
        ensures
            c == (Call::Erc20MintTo { token: self@.erc20, to: address, value: tkn }),
    {
        Call::Erc20MintTo { token: self.erc20, to: address, value: tkn }
    }

    /// The call that makes this contract the token contract's admin.
    pub fn set_self_admin(&self, env: &Env) -> (c: Call)
        ensures
            c == (Call::Erc20SetAdmin { token: self@.erc20, admin: env.this }),
    {
        Call::Erc20SetAdmin { token: self.erc20, admin: env.this }
    }
}

} // verus!
