//! The front door for posting: it numbers new content, rewards the author's
//! reputation, remembers each author's last draft, and submits the content to
//! the content store.

use vstd::prelude::*;
use crate::calls::Call;
use crate::keymap::{KeyMap, MapKey};
use crate::word::{Address, Env};

verus! {

/// The content id that numbering restarts from when the store is named.
pub const FIRST_CONTENT_INDEX: u8 = 3;

/// The reputation an author gains per post.
pub const POST_REPUTATION: i64 = 7;

pub struct TestView {
    pub content_index: u8,
    pub content_contract: Address,
    pub user_profile_address: Address,
    /// Every author's last content id; 0 where none.
    pub draft: Map<Address, u8>,
}

/// The posting front door's storage.
pub struct Test {
    content_index: u8,
    content_contract: Address,
    user_profile_address: Address,
    draft: KeyMap<Address, u8>,
}

impl View for Test {
    type V = TestView;

    closed spec fn view(&self) -> TestView {
        TestView {
            content_index: self.content_index,
            content_contract: self.content_contract,
            user_profile_address: self.user_profile_address,
            draft: Map::new(
                |a: Address| true,
                |a: Address|
                    if self.draft@.dom().contains(a) {
                        self.draft@[a]
                    } else {
                        0u8
                    },
            ),
        }
    }
}

impl Test {
    pub closed spec fn wf(&self) -> bool {
        self.draft.wf()
    }

    /// Index 0, addresses zero, no drafts.
    pub fn new() -> (r: Self)
        ensures
            r.wf(),
            r@ == (TestView {
                content_index: 0,
                content_contract: Address::spec_zero(),
                user_profile_address: Address::spec_zero(),
                draft: Map::new(|a: Address| true, |a: Address| 0u8),
            }),
    {
        let r = Test {
            content_index: 0,
            content_contract: Address::zero(),
            user_profile_address: Address::zero(),
            draft: KeyMap::new(),
        };
        assert(r@.draft =~= Map::new(|a: Address| true, |a: Address| 0u8));
        r
    }

    /// Names the content store and restarts numbering at 3.
    pub fn set_content_address(&mut self, address: Address)
        requires
            old(self).wf(),
        ensures
            final(self).wf(),
            final(self)@ == (TestView {
                content_index: FIRST_CONTENT_INDEX,
                content_contract: address,
                ..old(self)@
            }),
    {
        self.content_index = FIRST_CONTENT_INDEX;
        self.content_contract = address;
    }

    pub fn set_profile_address(&mut self, address: Address)
        requires
            old(self).wf(),
        ensures
            final(self).wf(),
            final(self)@ == (TestView { user_profile_address: address, ..old(self)@ }),
    {
        self.user_profile_address = address;
    }

    /// Posts content under the current index: records it as the caller's
    /// draft, moves the index on by one (255 wrapping to 0), and returns the
    /// calls that raise the caller's reputation by 7 and submit the content.
    pub fn add_content(&mut self, env: &Env, sub_data: String, content_data: String, community_id: u8) -> (calls: Vec<Call>)
        requires
            old(self).wf(),
        ensures
            final(self).wf(),
            final(self)@ == (TestView {
                content_index: ((old(self)@.content_index + 1) % 256) as u8,
                draft: old(self)@.draft.insert(env.sender, old(self)@.content_index),
                ..old(self)@
            }),
            calls@ == seq![
                Call::UsersChangeReputationState {
                    users: old(self)@.user_profile_address,
                    user_id: env.sender,
                    points: POST_REPUTATION,
                },
                Call::ContentSubmitContent {
                    content: old(self)@.content_contract,
                    author: env.sender,
                    sub_data,
                    content_data,
                    community_id,
                    content_id: old(self)@.content_index,
                },
            ],
    {
        let ghost pre = self@;
        let sender = env.sender;
        let content_id = self.content_index;
        let mut calls: Vec<Call> = Vec::new();
        calls.push(self.change_reputation_state(env, POST_REPUTATION));
        self.draft.insert(sender, content_id);
        calls.push(
            Call::ContentSubmitContent {
                content: self.content_contract,
                author: sender,
                sub_data,
                content_data,
                community_id,
                content_id,
            },
        );
        self.content_index = self.content_index.wrapping_add(1);
        assert(self@.draft =~= pre.draft.insert(sender, content_id));
        calls
    }

    /// The caller's last content id (0 where none).
    pub fn get_draft(&self, env: &Env) -> (r: u8)
        requires
            self.wf(),
        ensures
            r == self@.draft[env.sender],
    {
        match self.draft.get(&env.sender) {
            Some(d) => *d,
            None => 0,
        }
    }

    /// The call that changes the caller's reputation by `points`.
    pub fn change_reputation_state(&self, env: &Env, points: i64) -> (c: Call)
        ensures
            c == (Call::UsersChangeReputationState { users: self@.user_profile_address, user_id: env.sender, points }),
    {
        Call::UsersChangeReputationState { users: self.user_profile_address, user_id: env.sender, points }
    }
}

} // verus!
