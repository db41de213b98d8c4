//! Voting through the platform: a caller votes on content with a stake, but
//! only as a member of the community (0 meaning the open feed) and only while
//! holding the stake plus a floor of 50 tokens.

use vstd::prelude::*;
use crate::calls::{Call, Query, Step};
use crate::word::{Address, Env, U256, less_than, word_modulus, wrapping_add};

verus! {

/// The tokens a voter must hold beyond the stake.
pub const VOTE_BALANCE_FLOOR: u64 = 50;

/// The voting front door's storage.
pub struct Test {
    pub vote_contract: Address,
    pub communities: Address,
    pub erc20: Address,
    pub user_profile_address: Address,
}

/// The calls that carry out a vote that passed its checks: make this contract
/// the token's admin, take the stake, record the stake in the profile, and
/// cast the vote.
pub open spec fn vote_calls(t: Test, env: Env, stake: U256, content_id: u8, vote: i8) -> Seq<Call> {
    seq![
        Call::Erc20SetAdmin { token: t.erc20, admin: env.this },
        Call::Erc20StakeControl { token: t.erc20, from: env.sender, value: stake },
        Call::UsersSetMyStakes { users: t.user_profile_address, user: env.sender, content_id },
        Call::VotesVoteContent { votes: t.vote_contract, content_id, vote, voter: env.sender, stake },
    ]
}

/// Whether `balance` covers `stake` plus the floor, the sum taken modulo 2^256.
pub open spec fn enough_balance(stake: U256, balance: U256) -> bool {
    !(balance.value() < (stake.value() + VOTE_BALANCE_FLOOR) % word_modulus())
}

/// A vote that passed its checks is cast in the caller's name, on the
/// content and with the vote and stake asked for, and the stake is taken from
/// that same caller.
pub proof fn law_vote_cast_in_callers_name(t: Test, env: Env, stake: U256, content_id: u8, vote: i8)
    ensures
        vote_calls(t, env, stake, content_id, vote).len() == 4,
        (vote_calls(t, env, stake, content_id, vote)[1] matches Call::Erc20StakeControl {
            token,
            from,
            value,
        } && token == t.erc20 && from == env.sender && value == stake),
        (vote_calls(t, env, stake, content_id, vote)[3] matches Call::VotesVoteContent {
            votes,
            content_id: c,
            vote: v,
            voter,
            stake: st,
        } && votes == t.vote_contract && c == content_id && v == vote && voter == env.sender && st
            == stake),
{
}

impl Test {
    /// All addresses zero.
    pub fn new() -> (r: Self)
        ensures
            r.vote_contract == Address::spec_zero(),
            r.communities == Address::spec_zero(),
            r.erc20 == Address::spec_zero(),
            r.user_profile_address == Address::spec_zero(),
    {
        Test {
            vote_contract: Address::zero(),
            communities: Address::zero(),
            erc20: Address::zero(),
            user_profile_address: Address::zero(),
        }
    }

    pub fn set_vote_address(&mut self, address: Address)
        ensures
            *final(self) == (Test { vote_contract: address, ..*old(self) }),
    {
        self.vote_contract = address;
    }

    pub fn set_community_address(&mut self, address: Address)
        ensures
            *final(self) == (Test { communities: address, ..*old(self) }),
    {
        self.communities = address;
    }

    pub fn set_erc2o_address(&mut self, address: Address)
        ensures
            *final(self) == (Test { erc20: address, ..*old(self) }),
    {
        self.erc20 = address;
    }

    pub fn set_profile_address(&mut self, address: Address)
        ensures
            *final(self) == (Test { user_profile_address: address, ..*old(self) }),
    {
        self.user_profile_address = address;
    }

    /// Starts a vote: in a community (`community_index != 0`) it first asks
    /// whether the caller is a member, else it asks for the caller's balance.
    pub fn vote_content(&self, env: &Env, community_index: u8, stake: U256, content_id: u8, vote: i8) -> (r: Step)
        ensures
            community_index != 0 ==> r == Step::Ask(
                Query::CommunityIsAMember { communities: self.communities, index: community_index, user: env.sender },
            ),
            community_index == 0 ==> r == Step::Ask(Query::Erc20BalanceOf { token: self.erc20, owner: env.sender }),
    {
        if community_index != 0 {
            return Step::Ask(self.is_a_member(env, community_index));
        }
        Step::Ask(self.balance_query(env))
    }

    /// Goes on with a vote once membership is known: a non-member's vote ends
    /// there, a member's asks for the caller's balance.
    pub fn vote_content_on_membership(&self, env: &Env, is_member: bool) -> (r: Step)
        ensures
            !is_member ==> r == Step::Done,
            is_member ==> r == Step::Ask(Query::Erc20BalanceOf { token: self.erc20, owner: env.sender }),
    {
        if !is_member {
            return Step::Done;
        }
        Step::Ask(self.balance_query(env))
    }

    /// Finishes a vote once the caller's balance is known: without enough
    /// balance the vote ends there, else the calls of the vote are made.
    pub fn vote_content_on_balance(&self, env: &Env, stake: U256, content_id: u8, vote: i8, balance: U256) -> (r: Step)
        ensures
            !enough_balance(stake, balance) ==> r == Step::Done,
            enough_balance(stake, balance) ==> (r matches Step::Send(calls) && calls@ == vote_calls(*self, *env, stake, content_id, vote)),
    {
        if !self.has_enough_balance(stake, balance) {
            return Step::Done;
        }
        let mut calls: Vec<Call> = Vec::new();
        calls.push(self.set_self_admin(env));
        calls.push(self.stake(env, stake));
        calls.push(self.add_my_stakes(env, content_id));
        calls.push(self.vote_state(env, stake, vote, content_id));
        Step::Send(calls)
    }

    /// The question whether the caller is a member of `community_index`.
    pub fn is_a_member(&self, env: &Env, community_index: u8) -> (q: Query)
        ensures
            q == (Query::CommunityIsAMember { communities: self.communities, index: community_index, user: env.sender }),
    {
        Query::CommunityIsAMember { communities: self.communities, index: community_index, user: env.sender }
    }

    /// The question of the caller's token balance.
    pub fn balance_query(&self, env: &Env) -> (q: Query)
        ensures
            q == (Query::Erc20BalanceOf { token: self.erc20, owner: env.sender }),
    {
        Query::Erc20BalanceOf { token: self.erc20, owner: env.sender }
    }

    /// Whether `balance` covers `stake` plus the floor of 50.
    pub fn has_enough_balance(&self, stake: U256, balance: U256) -> (r: bool)
        ensures
            r == enough_balance(stake, balance),
    {
        let min_balance = U256::from_u64(VOTE_BALANCE_FLOOR);
        let balance_check = wrapping_add(stake, min_balance);
        if less_than(balance, balance_check) {
            return false;
        }
        true
    }

    /// The call that takes `stake` from the caller.
    pub fn stake(&self, env: &Env, stake: U256) -> (c: Call)
        ensures
            c == (Call::Erc20StakeControl { token: self.erc20, from: env.sender, value: stake }),
    {
        Call::Erc20StakeControl { token: self.erc20, from: env.sender, value: stake }
    }

    /// The call that casts the caller's vote.
    pub fn vote_state(&self, env: &Env, stake: U256, vote: i8, content_id: u8) -> (c: Call)
        ensures
            c == (Call::VotesVoteContent { votes: self.vote_contract, content_id, vote, voter: env.sender, stake }),
    {
        Call::VotesVoteContent { votes: self.vote_contract, content_id, vote, voter: env.sender, stake }
    }

    /// The call that makes this contract the token's admin.
    pub fn set_self_admin(&self, env: &Env) -> (c: Call)
        ensures
            c == (Call::Erc20SetAdmin { token: self.erc20, admin: env.this }),
    {
        Call::Erc20SetAdmin { token: self.erc20, admin: env.this }
    }

    /// The call that records the caller's stake in `content_id`.
    pub fn add_my_stakes(&self, env: &Env, content_id: u8) -> (c: Call)
        ensures
            c == (Call::UsersSetMyStakes { users: self.user_profile_address, user: env.sender, content_id }),
    {
        Call::UsersSetMyStakes { users: self.user_profile_address, user: env.sender, content_id }
    }

    /// The call that changes the caller's reputation by `points`.
    pub fn change_reputation_state(&self, env: &Env, points: i64) -> (c: Call)
        ensures
            c == (Call::UsersChangeReputationState { users: self.user_profile_address, user_id: env.sender, points }),
    {
        Call::UsersChangeReputationState { users: self.user_profile_address, user_id: env.sender, points }
    }
}

} // verus!
