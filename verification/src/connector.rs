//! The read-only front door: it forwards reads to the content, vote, profile
//! and community contracts, and lists a community's content only to its
//! members.

use vstd::prelude::*;
use crate::calls::{Query, Step};
use crate::word::{Address, Env};

verus! {

/// The read-only front door's storage.
pub struct Test {
    pub content_contract: Address,
    pub vote_contract: Address,
    pub user_profile_address: Address,
    pub community_address: Address,
}

impl Test {
    /// All addresses zero.
    pub fn new() -> (r: Self)
        ensures
            r.content_contract == Address::spec_zero(),
            r.vote_contract == Address::spec_zero(),
            r.user_profile_address == Address::spec_zero(),
            r.community_address == Address::spec_zero(),
    {
        Test {
            content_contract: Address::zero(),
            vote_contract: Address::zero(),
            user_profile_address: Address::zero(),
            community_address: Address::zero(),
        }
    }

    pub fn set_content_address(&mut self, address: Address)
        ensures
            *final(self) == (Test { content_contract: address, ..*old(self) }),
    {
        self.content_contract = address;
    }

    pub fn set_vote_address(&mut self, address: Address)
        ensures
            *final(self) == (Test { vote_contract: address, ..*old(self) }),
    {
        self.vote_contract = address;
    }

    pub fn set_profile_address(&mut self, address: Address)
        ensures
            *final(self) == (Test { user_profile_address: address, ..*old(self) }),
    {
        self.user_profile_address = address;
    }

    pub fn set_community_address(&mut self, address: Address)
        ensures
            *final(self) == (Test { community_address: address, ..*old(self) }),
    {
        self.community_address = address;
    }

    /// The read of content `content_id`.
    pub fn get_content(&self, content_id: u8) -> (q: Query)
        ensures
            q == (Query::ContentGetContent { content: self.content_contract, content_id }),
    {
        Query::ContentGetContent { content: self.content_contract, content_id }
    }

    /// Starts listing community `community_id`'s content: for a community
    /// (`community_id > 0`) it first asks whether the caller is a member, for
    /// the open feed it reads the list at once; the list read is the answer.
    pub fn get_content_list(&self, env: &Env, community_id: u8) -> (r: Step)
        ensures
            community_id > 0 ==> r == Step::Ask(
                Query::CommunityIsAMember { communities: self.community_address, index: community_id, user: env.sender },
            ),
            community_id == 0 ==> r == Step::Ask(
                Query::ContentGetContentByCommunity { content: self.content_contract, community_id },
            ),
    {
        if community_id > 0 {
            return Step::Ask(self.is_a_member(env, community_id));
        }
        Step::Ask(Query::ContentGetContentByCommunity { content: self.content_contract, community_id })
    }

    /// Goes on listing once membership is known: a non-member gets the empty
    /// list, a member's list is read.
    pub fn get_content_list_on_membership(&self, community_id: u8, is_member: bool) -> (r: Step)
        ensures
            !is_member ==> r == Step::Done,
            is_member ==> r == Step::Ask(
                Query::ContentGetContentByCommunity { content: self.content_contract, community_id },
            ),
    {
        if !is_member {
            return Step::Done;
        }
        Step::Ask(Query::ContentGetContentByCommunity { content: self.content_contract, community_id })
    }

    /// The read of whether the caller registered.
    pub fn has_registered(&self, env: &Env) -> (q: Query)
        ensures
            q == (Query::UsersHasRegistered { users: self.user_profile_address, user: env.sender }),
    {
        Query::UsersHasRegistered { users: self.user_profile_address, user: env.sender }
    }

    /// The read of the caller's profile.
    pub fn get_profile(&self, env: &Env) -> (q: Query)
        ensures
            q == (Query::UsersGetProfile { users: self.user_profile_address, user: env.sender }),
    {
        Query::UsersGetProfile { users: self.user_profile_address, user: env.sender }
    }

    /// The read of the caller's stakes.
    pub fn get_my_stakes(&self, env: &Env) -> (q: Query)
        ensures
            q == (Query::UsersGetMyStakes { users: self.user_profile_address, user: env.sender }),
    {
        Query::UsersGetMyStakes { users: self.user_profile_address, user: env.sender }
    }

    /// The read of the voters on `content_id`.
    pub fn get_voters(&self, content_id: u8) -> (q: Query)
        ensures
            q == (Query::VotesGetVoters { votes: self.vote_contract, content_id }),
    {
        Query::VotesGetVoters { votes: self.vote_contract, content_id }
    }

    /// The read of the tally of `content_id`.
    pub fn get_total_votes(&self, content_id: u8) -> (q: Query)
        ensures
            q == (Query::VotesGetTotalVotes { votes: self.vote_contract, content_id }),
    {
        Query::VotesGetTotalVotes { votes: self.vote_contract, content_id }
    }

    /// The read of whether the caller is a member of `community_id`.
    pub fn is_a_member(&self, env: &Env, community_id: u8) -> (q: Query)
        ensures
            q == (Query::CommunityIsAMember { communities: self.community_address, index: community_id, user: env.sender }),
    {
        Query::CommunityIsAMember { communities: self.community_address, index: community_id, user: env.sender }
    }
}

} // verus!
