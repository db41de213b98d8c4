//! Communities: created under a name unique up to ASCII case, numbered from
//! 1 in creation order, joined by their members.

use vstd::prelude::*;
use crate::keymap::{KeyMap, MapKey};
use crate::names::{
    NameSet, ascii_lowercase, fold_name, folded_name, lemma_fold_is_ascii_case,
    lemma_fold_respects_ascii_case,
};
use crate::text::{address_text, address_to_string, decimal, push_decimal};
use crate::word::{Address, Env};

verus! {

pub struct Community {
    pub creator: Address,
    pub name: String,
    pub meta_data: String,
    pub created_at: u32,
    pub members: Vec<Address>,
}

pub struct CommunityView {
    pub creator: Address,
    pub name: Seq<char>,
    pub meta_data: Seq<char>,
    pub created_at: u32,
    pub members: Seq<Address>,
}

impl View for Community {
    type V = CommunityView;

    open spec fn view(&self) -> CommunityView {
        CommunityView {
            creator: self.creator,
            name: self.name@,
            meta_data: self.meta_data@,
            created_at: self.created_at,
            members: self.members@,
        }
    }
}

/// The record of a number under which no community was created.
pub open spec fn blank_community() -> CommunityView {
    CommunityView {
        creator: Address::spec_zero(),
        name: Seq::empty(),
        meta_data: Seq::empty(),
        created_at: 0,
        members: Seq::empty(),
    }
}

fn blank_community_exec() -> (r: Community)
    ensures
        r@ == blank_community(),
{
    Community {
        creator: Address::zero(),
        name: String::new(),
        meta_data: String::new(),
        created_at: 0,
        members: Vec::new(),
    }
}

/// Whether `user` created or joined the community `c`.
pub open spec fn member_of(c: CommunityView, user: Address) -> bool {
    c.creator == user || c.members.contains(user)
}

/// A community as JSON text, with its number of members.
pub open spec fn community_json(c: CommunityView) -> Seq<char> {
    "{\"creator\":\""@ + address_text(c.creator) + "\",\"name\":\""@ + c.name
        + "\",\"meta_data\":\""@ + c.meta_data + "\",\"numbers of members\":\""@ + decimal(
        c.members.len(),
    ) + "\",\"created_at\":"@ + decimal(c.created_at as nat) + "}"@
}

/// The storage after the caller of `env` creates a community named `name`:
/// unchanged where `name`, folded, is taken; else the next number (255
/// wrapping to 0) holds the new community, keeping the members held there.
pub open spec fn after_create(
    s: CommunityStateView,
    env: Env,
    name: Seq<char>,
    meta_data: Seq<char>,
) -> CommunityStateView {
    if s.taken_names.contains(folded_name(name)) {
        s
    } else {
        let i = ((s.old_index + 1) % 256) as u8;
        CommunityStateView {
            communities: s.communities.insert(
                i,
                CommunityView {
                    creator: env.sender,
                    name,
                    meta_data,
                    created_at: env.timestamp as u32,
                    members: s.communities[i].members,
                },
            ),
            taken_names: s.taken_names.insert(folded_name(name)),
            old_index: i,
        }
    }
}

/// The storage after `user` joins community `c`: unchanged where `user`
/// created or joined it, else `user` is appended to its members.
pub open spec fn after_join(s: CommunityStateView, user: Address, c: u8) -> CommunityStateView {
    if member_of(s.communities[c], user) {
        s
    } else {
        CommunityStateView {
            communities: s.communities.insert(
                c,
                CommunityView { members: s.communities[c].members.push(user), ..s.communities[c] },
            ),
            ..s
        }
    }
}

/// After joining a community, the user is its member, and joining again
/// changes nothing.
pub proof fn law_join_makes_member(s: CommunityStateView, user: Address, c: u8)
    ensures
        member_of(after_join(s, user, c).communities[c], user),
        after_join(after_join(s, user, c), user, c) == after_join(s, user, c),
{
    if !member_of(s.communities[c], user) {
        let m = s.communities[c].members.push(user);
        assert(m[m.len() - 1] == user);
    }
}

/// After a community is created under a name, no community can be created
/// under any name equal to it up to ASCII case: such a creation changes
/// nothing.
pub proof fn law_names_unique_up_to_case(
    s: CommunityStateView,
    env: Env,
    name: Seq<char>,
    meta_data: Seq<char>,
    env2: Env,
    name2: Seq<char>,
    meta_data2: Seq<char>,
)
    requires
        ascii_lowercase(name) == ascii_lowercase(name2),
    ensures
        after_create(after_create(s, env, name, meta_data), env2, name2, meta_data2) == after_create(
            s,
            env,
            name,
            meta_data,
        ),
{
    lemma_fold_respects_ascii_case(name, name2);
}

/// Whether a name is taken does not depend on its ASCII case; in fresh
/// storage no name is taken.
pub proof fn law_name_taken_ignores_ascii_case(s: CommunityStateView, a: Seq<char>, b: Seq<char>)
    requires
        ascii_lowercase(a) == ascii_lowercase(b),
    ensures
        s.taken_names.contains(folded_name(a)) == s.taken_names.contains(folded_name(b)),
        !Set::<Seq<u8>>::empty().contains(folded_name(a)),
{
    lemma_fold_respects_ascii_case(a, b);
}

/// Creating a community makes its creator a member of it.
pub proof fn law_creator_is_member(s: CommunityStateView, env: Env, name: Seq<char>, meta_data: Seq<char>)
    requires
        !s.taken_names.contains(folded_name(name)),
    ensures
        member_of(
            after_create(s, env, name, meta_data).communities[after_create(s, env, name, meta_data).old_index],
            env.sender,
        ),
{
}

/// A creation leaves every community numbered from 1 to the last number
/// unchanged: it only writes a number past them.
pub proof fn law_create_keeps_earlier_communities(
    s: CommunityStateView,
    env: Env,
    name: Seq<char>,
    meta_data: Seq<char>,
    i: u8,
)
    requires
        1 <= i <= s.old_index,
    ensures
        after_create(s, env, name, meta_data).communities[i] == s.communities[i],
{
}

/// A call that changes the community storage.
pub enum CommunityCall {
    Create { env: Env, name: Seq<char>, meta_data: Seq<char> },
    Join { user: Address, community: u8 },
}

/// The storage after one call.
pub open spec fn after_call(s: CommunityStateView, c: CommunityCall) -> CommunityStateView {
    match c {
        CommunityCall::Create { env, name, meta_data } => after_create(s, env, name, meta_data),
        CommunityCall::Join { user, community } => after_join(s, user, community),
    }
}

/// The storage after a run of calls, in order.
pub open spec fn after_calls(s: CommunityStateView, calls: Seq<CommunityCall>) -> CommunityStateView
    decreases calls.len(),
{
    if calls.len() == 0 {
        s
    } else {
        after_call(after_calls(s, calls.drop_last()), calls.last())
    }
}

/// Whether the call creates a community under a name equal to `n` up to
/// ASCII case.
pub open spec fn creates_under(c: CommunityCall, n: Seq<char>) -> bool {
    match c {
        CommunityCall::Create { name, .. } => ascii_lowercase(name) == ascii_lowercase(n),
        CommunityCall::Join { .. } => false,
    }
}

/// Whether one of `calls` creates a community under a name equal to `n` up
/// to ASCII case.
pub open spec fn creates_name(calls: Seq<CommunityCall>, n: Seq<char>) -> bool {
    exists|j: int| 0 <= j < calls.len() && #[trigger] creates_under(calls[j], n)
}

/// After a run of calls a name is taken exactly when it was taken before or
/// one of the calls created a community under a name equal to it up to ASCII
/// case; from fresh storage, exactly when some creation used such a name.
pub proof fn law_taken_names_are_created_names(
    s: CommunityStateView,
    calls: Seq<CommunityCall>,
    n: Seq<char>,
)
    ensures
        after_calls(s, calls).taken_names.contains(folded_name(n)) <==> (s.taken_names.contains(
            folded_name(n),
        ) || creates_name(calls, n)),
    decreases calls.len(),
{
    if calls.len() > 0 {
        let p = calls.drop_last();
        let last = calls.last();
        law_taken_names_are_created_names(s, p, n);
        let before = after_calls(s, p);
        assert(creates_name(calls, n) <==> (creates_name(p, n) || creates_under(last, n))) by {
            if creates_name(calls, n) {
                let j = choose|j: int| 0 <= j < calls.len() && #[trigger] creates_under(calls[j], n);
                if j < calls.len() - 1 {
                    assert(p[j] == calls[j]);
                }
            }
            if creates_name(p, n) {
                let j = choose|j: int| 0 <= j < p.len() && #[trigger] creates_under(p[j], n);
                assert(calls[j] == p[j]);
            }
            if creates_under(last, n) {
                assert(creates_under(calls[calls.len() - 1], n));
            }
        }
        match last {
            CommunityCall::Create { env, name, meta_data } => {
                lemma_fold_is_ascii_case(name, n);
                assert(after_calls(s, calls).taken_names =~= before.taken_names.insert(folded_name(name)));
            },
            CommunityCall::Join { user, community } => {
                assert(after_calls(s, calls).taken_names == before.taken_names);
            },
        }
    }
}

pub struct CommunityStateView {
    /// Every number's community; numbers never written hold `blank_community()`.
    pub communities: Map<u8, CommunityView>,
    /// The folded names taken so far.
    pub taken_names: Set<Seq<u8>>,
    /// The number of the last community created.
    pub old_index: u8,
}

/// The community contract's storage.
pub struct CommunityState {
    communities: KeyMap<u8, Community>,
    taken_names: NameSet,
    old_index: u8,
}

impl View for CommunityState {
    type V = CommunityStateView;

    closed spec fn view(&self) -> CommunityStateView {
        CommunityStateView {
            communities: Map::new(
                |i: u8| true,
                |i: u8|
                    if self.communities@.dom().contains(i) {
                        self.communities@[i]@
                    } else {
                        blank_community()
                    },
            ),
            taken_names: self.taken_names@,
            old_index: self.old_index,
        }
    }
}

impl CommunityState {
    pub closed spec fn wf(&self) -> bool {
        self.communities.wf()
    }

    /// No communities, no names taken, the count at 0.
    pub fn new() -> (r: Self)
        ensures
            r.wf(),
            r@.communities == Map::new(|i: u8| true, |i: u8| blank_community()),
            r@.taken_names == Set::<Seq<u8>>::empty(),
            r@.old_index == 0,
    {
        let r = CommunityState { communities: KeyMap::new(), taken_names: NameSet::new(), old_index: 0 };
        assert(r@.communities =~= Map::new(|i: u8| true, |i: u8| blank_community()));
        r
    }

    fn take_community(&mut self, i: u8) -> (r: Community)
        requires
            old(self).wf(),
        ensures
            final(self).wf(),
            r@ == old(self)@.communities[i],
            final(self)@ == (CommunityStateView {
                communities: old(self)@.communities.insert(i, blank_community()),
                ..old(self)@
            }),
    {
        let ghost pre = self@;
        let r = match self.communities.take(&i) {
            Some(c) => c,
            None => blank_community_exec(),
        };
        assert(self@.communities =~= pre.communities.insert(i, blank_community()));
        r
    }

    fn put_community(&mut self, i: u8, c: Community, Ghost(before): Ghost<CommunityStateView>)
        requires
            old(self).wf(),
            old(self)@ == (CommunityStateView {
                communities: before.communities.insert(i, blank_community()),
                ..before
            }),
        ensures
            final(self).wf(),
            final(self)@ == (CommunityStateView {
                communities: before.communities.insert(i, c@),
                ..before
            }),
    {
        let ghost cv = c@;
        let ghost pre = *self;
        self.communities.insert(i, c);
        assert(self@.communities =~= pre@.communities.insert(i, cv));
        assert(self@.communities =~= before.communities.insert(i, cv));
    }

    /// Creates a community named `name` under the next number (counting on
    /// from the last, 255 wrapping to 0), created by the caller at the block
    /// time. Nothing changes where `name`, folded, is taken. The members held
    /// under that number stay.
    pub fn create_community(&mut self, env: &Env, name: String, meta_data: String)
        requires
            old(self).wf(),
            !old(self)@.taken_names.contains(folded_name(name@)) ==> env.timestamp <= u32::MAX,
        ensures
            final(self).wf(),
            final(self)@ == after_create(old(self)@, *env, name@, meta_data@),
    {
        if self.name_taken(name.clone()) {
            return;
        }
        let old_index = self.old_index;
        let new_index = old_index.wrapping_add(1);
        self.old_index = new_index;
        let creator = env.sender;
        let key = fold_name(&name);
        let ghost before = self@;
        let mut new_community = self.take_community(new_index);
        new_community.creator = creator;
        new_community.name = name;
        new_community.meta_data = meta_data;
        new_community.created_at = env.timestamp as u32;
        self.put_community(new_index, new_community, Ghost(before));
        self.taken_names.insert(key);
    }

    /// Community `index` as JSON text.
    pub fn get_community(&self, index: u8) -> (r: String)
        requires
            self.wf(),
        ensures
            r@ == community_json(self@.communities[index]),
    {
        let mut s = String::new();
        s.append("{\"creator\":\"");
        match self.communities.get(&index) {
            Some(c) => {
                let creator = address_to_string(c.creator);
                s.append(creator.as_str());
                s.append("\",\"name\":\"");
                s.append(c.name.as_str());
                s.append("\",\"meta_data\":\"");
                s.append(c.meta_data.as_str());
                s.append("\",\"numbers of members\":\"");
                push_decimal(&mut s, c.members.len() as u64);
                s.append("\",\"created_at\":");
                push_decimal(&mut s, c.created_at as u64);
            },
            None => {
                let creator = address_to_string(Address::zero());
                s.append(creator.as_str());
                s.append("\",\"name\":\"");
                s.append("\",\"meta_data\":\"");
                s.append("\",\"numbers of members\":\"");
                push_decimal(&mut s, 0);
                s.append("\",\"created_at\":");
                push_decimal(&mut s, 0);
            },
        }
        s.append("}");
        assert(s@ =~= community_json(self@.communities[index]));
        s
    }

    /// Adds the caller to the members of community `community_id`, unless
    /// the caller created or already joined it.
    pub fn add_user_to_community(&mut self, env: &Env, community_id: u8)
        requires
            old(self).wf(),
        ensures
            final(self).wf(),
            final(self)@ == after_join(old(self)@, env.sender, community_id),
    {
        let user_id = env.sender;
        if self.is_a_member(community_id, user_id) {
            return;
        }
        let ghost before = self@;
        let mut community = self.take_community(community_id);
        community.members.push(user_id);
        self.put_community(community_id, community, Ghost(before));
    }

    /// Whether `user` created or joined community `index`.
    pub fn is_a_member(&self, index: u8, user: Address) -> (r: bool)
        requires
            self.wf(),
        ensures
            r == member_of(self@.communities[index], user),
    {
        match self.communities.get(&index) {
            Some(community) => {
                if community.creator.same(&user) {
                    return true;
                }
                let mut ix: usize = 0;
                while ix < community.members.len()
                    invariant
                        community@ == self@.communities[index],
                        ix <= community.members@.len(),
                        forall|j: int| 0 <= j < ix ==> community.members@[j] != user,
                    decreases community.members@.len() - ix,
                {
                    if community.members[ix].same(&user) {
                        assert(community.members@[ix as int] == user);
                        return true;
                    }
                    ix = ix + 1;
                }
                false
            },
            None => user.same(&Address::zero()),
        }
    }

    /// Whether `name`, folded, is taken.
    pub fn name_taken(&self, name: String) -> (r: bool)
        ensures
            r == self@.taken_names.contains(folded_name(name@)),
    {
        let key = fold_name(&name);
        self.taken_names.contains(&key)
    }

    /// The number of the last community created.
    pub fn get_last_index(&self) -> (r: u8)
        ensures
            r == self@.old_index,
    {
        self.old_index
    }
}

} // verus!
