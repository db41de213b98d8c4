//! Self-registration of a user under a name unique up to ASCII case, with a
//! blob of metadata.

use vstd::prelude::*;
use crate::keymap::{KeyMap, MapKey};
use crate::names::{
    NameSet, ascii_lowercase, fold_name, folded_name, lemma_fold_is_ascii_case,
    lemma_fold_respects_ascii_case,
};
use crate::text::{address_text, address_to_string, byte_list_text, push_byte_list};
use crate::word::{Address, Env};

verus! {

pub struct User {
    pub user_id: Address,
    pub name: String,
    pub meta_data: Vec<u8>,
    pub has_registered: bool,
}

pub struct UserView {
    pub user_id: Address,
    pub name: Seq<char>,
    pub meta_data: Seq<u8>,
    pub has_registered: bool,
}

impl View for User {
    type V = UserView;

    open spec fn view(&self) -> UserView {
        UserView {
            user_id: self.user_id,
            name: self.name@,
            meta_data: self.meta_data@,
            has_registered: self.has_registered,
        }
    }
}

/// The record of an address that never registered.
pub open spec fn blank_user() -> UserView {
    UserView {
        user_id: Address::spec_zero(),
        name: Seq::empty(),
        meta_data: Seq::empty(),
        has_registered: false,
    }
}

/// A record as JSON text: `{"user_id":"..","name":"..","metaData":[..]}`.
pub open spec fn meta_data_json(u: UserView) -> Seq<char> {
    "{\"user_id\":\""@ + address_text(u.user_id) + "\",\"name\":\""@ + u.name
        + "\",\"metaData\":"@ + byte_list_text(u.meta_data) + "}"@
}

/// The storage after the caller of `env` registers under `name`: unchanged
/// where the caller registered before or `name`, folded, is taken.
pub open spec fn after_register(s: UsersView, env: Env, name: Seq<char>, meta_data: Seq<u8>) -> UsersView {
    if s.users[env.sender].has_registered || s.taken_names.contains(folded_name(name)) {
        s
    } else {
        UsersView {
            users: s.users.insert(
                env.sender,
                UserView { user_id: env.sender, name, meta_data, has_registered: true },
            ),
            taken_names: s.taken_names.insert(folded_name(name)),
        }
    }
}

/// A registration under a name equal up to ASCII case to a taken one, or by
/// a caller who registered before, changes nothing; and after a registration the
/// caller is registered and the name taken.
pub proof fn law_register_unique(
    s: UsersView,
    env: Env,
    name: Seq<char>,
    meta_data: Seq<u8>,
    env2: Env,
    name2: Seq<char>,
    meta_data2: Seq<u8>,
)
    requires
        !s.users[env.sender].has_registered,
        !s.taken_names.contains(folded_name(name)),
        ascii_lowercase(name2) == ascii_lowercase(name) || env2.sender == env.sender,
    ensures
        after_register(s, env, name, meta_data).users[env.sender].has_registered,
        after_register(s, env, name, meta_data).taken_names.contains(folded_name(name)),
        after_register(after_register(s, env, name, meta_data), env2, name2, meta_data2)
            == after_register(s, env, name, meta_data),
{
    if ascii_lowercase(name2) == ascii_lowercase(name) {
        lemma_fold_respects_ascii_case(name2, name);
    }
}

/// Whether a name is taken does not depend on its ASCII case; in fresh
/// storage no name is taken.
pub proof fn law_name_taken_ignores_ascii_case(s: UsersView, a: Seq<char>, b: Seq<char>)
    requires
        ascii_lowercase(a) == ascii_lowercase(b),
    ensures
        s.taken_names.contains(folded_name(a)) == s.taken_names.contains(folded_name(b)),
        !Set::<Seq<u8>>::empty().contains(folded_name(a)),
{
    lemma_fold_respects_ascii_case(a, b);
}

/// The names taken are exactly the folded names of the registered users.
pub open spec fn names_match_registrations(s: UsersView) -> bool {
    forall|k: Seq<u8>|
        #![trigger s.taken_names.contains(k)]
        s.taken_names.contains(k) <==> exists|a: Address|
            #![trigger s.users[a]]
            s.users[a].has_registered && folded_name(s.users[a].name) == k
}

/// In fresh storage the names match the registrations: none of either.
pub proof fn law_fresh_names_match()
    ensures
        names_match_registrations(
            UsersView {
                users: Map::new(|a: Address| true, |a: Address| blank_user()),
                taken_names: Set::empty(),
            },
        ),
{
    let fresh = UsersView {
        users: Map::new(|a: Address| true, |a: Address| blank_user()),
        taken_names: Set::<Seq<u8>>::empty(),
    };
    assert forall|k: Seq<u8>| #![trigger fresh.taken_names.contains(k)]
        fresh.taken_names.contains(k) <==> exists|a: Address|
            #![trigger fresh.users[a]]
            fresh.users[a].has_registered && folded_name(fresh.users[a].name) == k by {
        if exists|a: Address| #![trigger fresh.users[a]]
            fresh.users[a].has_registered && folded_name(fresh.users[a].name) == k {
            let a = choose|a: Address| #![trigger fresh.users[a]]
                fresh.users[a].has_registered && folded_name(fresh.users[a].name) == k;
            assert(!fresh.users[a].has_registered);
        }
    }
}

/// Every registration keeps the names matching the registrations.
pub proof fn law_register_keeps_names_matching(
    s: UsersView,
    env: Env,
    name: Seq<char>,
    meta_data: Seq<u8>,
)
    requires
        names_match_registrations(s),
    ensures
        names_match_registrations(after_register(s, env, name, meta_data)),
{
    let t = after_register(s, env, name, meta_data);
    if !(s.users[env.sender].has_registered || s.taken_names.contains(folded_name(name))) {
        assert forall|k: Seq<u8>| #![trigger t.taken_names.contains(k)]
            t.taken_names.contains(k) <==> exists|a: Address|
                #![trigger t.users[a]]
                t.users[a].has_registered && folded_name(t.users[a].name) == k by {
            if t.taken_names.contains(k) {
                if k == folded_name(name) {
                    assert(t.users[env.sender].has_registered && folded_name(t.users[env.sender].name) == k);
                } else {
                    assert(s.taken_names.contains(k));
                    let a = choose|a: Address| #![trigger s.users[a]]
                        s.users[a].has_registered && folded_name(s.users[a].name) == k;
                    assert(a != env.sender);
                    assert(t.users[a] == s.users[a]);
                }
            }
            if exists|a: Address| #![trigger t.users[a]]
                t.users[a].has_registered && folded_name(t.users[a].name) == k {
                let a = choose|a: Address| #![trigger t.users[a]]
                    t.users[a].has_registered && folded_name(t.users[a].name) == k;
                if a != env.sender {
                    assert(t.users[a] == s.users[a]);
                    assert(s.users[a].has_registered && folded_name(s.users[a].name) == k);
                }
            }
        }
    }
}

/// Where the names match the registrations, a name is taken exactly when a
/// registered user's name equals it up to ASCII case.
pub proof fn law_name_taken_iff_registered(s: UsersView, n: Seq<char>)
    requires
        names_match_registrations(s),
    ensures
        s.taken_names.contains(folded_name(n)) <==> exists|a: Address|
            #![trigger s.users[a]]
            s.users[a].has_registered && ascii_lowercase(s.users[a].name) == ascii_lowercase(n),
{
    if s.taken_names.contains(folded_name(n)) {
        let a = choose|a: Address| #![trigger s.users[a]]
            s.users[a].has_registered && folded_name(s.users[a].name) == folded_name(n);
        lemma_fold_is_ascii_case(s.users[a].name, n);
    }
    if exists|a: Address| #![trigger s.users[a]]
        s.users[a].has_registered && ascii_lowercase(s.users[a].name) == ascii_lowercase(n) {
        let a = choose|a: Address| #![trigger s.users[a]]
            s.users[a].has_registered && ascii_lowercase(s.users[a].name) == ascii_lowercase(n);
        lemma_fold_is_ascii_case(s.users[a].name, n);
        assert(s.users[a].has_registered && folded_name(s.users[a].name) == folded_name(n));
    }
}

pub struct UsersView {
    /// Every address's record; those never written are `blank_user()`.
    pub users: Map<Address, UserView>,
    /// The folded names taken so far.
    pub taken_names: Set<Seq<u8>>,
}

/// The registration contract's storage.
pub struct Users {
    users: KeyMap<Address, User>,
    taken_names: NameSet,
}

impl View for Users {
    type V = UsersView;

    closed spec fn view(&self) -> UsersView {
        UsersView {
            users: Map::new(
                |a: Address| true,
                |a: Address|
                    if self.users@.dom().contains(a) {
                        self.users@[a]@
                    } else {
                        blank_user()
                    },
            ),
            taken_names: self.taken_names@,
        }
    }
}

impl Users {
    pub closed spec fn wf(&self) -> bool {
        self.users.wf() && names_match_registrations(self@)
    }

    /// No users and no names taken.
    pub fn new() -> (r: Self)
        ensures
            r.wf(),
            r@.users == Map::new(|a: Address| true, |a: Address| blank_user()),
            r@.taken_names == Set::<Seq<u8>>::empty(),
            names_match_registrations(r@),
    {
        let r = Users { users: KeyMap::new(), taken_names: NameSet::new() };
        assert(r@.users =~= Map::new(|a: Address| true, |a: Address| blank_user()));
        proof {
            law_fresh_names_match();
        }
        r
    }

    /// Registers the caller under `name` with `meta_data`. Nothing changes
    /// where the caller registered before or where `name`, folded, is taken.
    pub fn register_user(&mut self, env: &Env, name: String, meta_data: Vec<u8>)
        requires
            old(self).wf(),
        ensures
            final(self).wf(),
            final(self)@ == after_register(old(self)@, *env, name@, meta_data@),
            names_match_registrations(final(self)@),
    {
        let ghost nm = name@;
        let ghost md = meta_data@;
        let address = env.sender;
        if self.has_meta_data(env) {
            return;
        }
        if self.name_taken(name.clone()) {
            return;
        }
        let key = fold_name(&name);
        let ghost pre = self@;
        let new_user = User { user_id: address, name, meta_data, has_registered: true };
        let ghost nu = new_user@;
        self.users.insert(address, new_user);
        self.taken_names.insert(key);
        assert(self@.users =~= pre.users.insert(address, nu));
        proof {
            law_register_keeps_names_matching(pre, *env, nm, md);
        }
    }

    /// The caller's record as JSON text.
    pub fn get_meta_data(&self, env: &Env) -> (r: String)
        requires
            self.wf(),
        ensures
            r@ == meta_data_json(self@.users[env.sender]),
    {
        let mut s = String::new();
        s.append("{\"user_id\":\"");
        match self.users.get(&env.sender) {
            Some(u) => {
                let id_text = address_to_string(u.user_id);
                s.append(id_text.as_str());
                s.append("\",\"name\":\"");
                s.append(u.name.as_str());
                s.append("\",\"metaData\":");
                push_byte_list(&mut s, &u.meta_data);
            },
            None => {
                let id_text = address_to_string(Address::zero());
                s.append(id_text.as_str());
                s.append("\",\"name\":\"");
                s.append("\",\"metaData\":");
                let empty: Vec<u8> = Vec::new();
                push_byte_list(&mut s, &empty);
            },
        }
        s.append("}");
        assert(s@ =~= meta_data_json(self@.users[env.sender]));
        s
    }

    /// Whether `name`, folded, is taken.
    pub fn name_taken(&self, name: String) -> (r: bool)
        ensures
            r == self@.taken_names.contains(folded_name(name@)),
    {
        let key = fold_name(&name);
        self.taken_names.contains(&key)
    }

    /// Whether the caller has registered.
    pub fn has_meta_data(&self, env: &Env) -> (r: bool)
        requires
            self.wf(),
        ensures
            r == self@.users[env.sender].has_registered,
    {
        match self.users.get(&env.sender) {
            Some(u) => u.has_registered,
            None => false,
        }
    }

    /// The name under which `address` registered (empty where it did not).
    pub fn get_username(&self, address: Address) -> (r: String)
        requires
            self.wf(),
        ensures
            r@ == self@.users[address].name,
    {
        match self.users.get(&address) {
            Some(u) => u.name.clone(),
            None => String::new(),
        }
    }
}

} // verus!
