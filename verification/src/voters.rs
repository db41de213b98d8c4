//! Votes on content: each address votes at most once per content id, with a
//! stake; the running tally of a content id is the sum of its votes.

use vstd::prelude::*;
use crate::calls::Call;
use crate::keymap::{KeyMap, MapKey};
use crate::text::{address_text, address_to_string, decimal, push_decimal, push_signed, signed_decimal, u256_to_string};
use crate::word::{Address, Env, U256};

verus! {

#[derive(Clone, Copy, Debug)]
pub struct Votes {
    pub user_id: Address,
    pub stake: U256,
    pub vote: i8,
    pub time_stamp: u32,
}

#[derive(Clone, Copy, Debug)]
pub struct MetaData {
    pub total_votes: i32,
    pub rewarded: bool,
}

/// The tally of a content id on which nobody voted.
pub open spec fn blank_meta() -> MetaData {
    MetaData { total_votes: 0, rewarded: false }
}

/// A vote as JSON text: the voter, the stake and the time, but not the vote.
pub open spec fn voter_json(v: Votes) -> Seq<char> {
    "{\"voters_id\":\""@ + address_text(v.user_id) + "\",\"stake\":\""@ + decimal(
        v.stake.value() as nat,
    ) + "\",\"time_stamp\":"@ + decimal(v.time_stamp as nat) + "}"@
}

pub struct VotesStateView {
    /// Every content id's votes, oldest first.
    pub voters: Map<u8, Seq<Votes>>,
    /// Every content id's tally.
    pub content_vote: Map<u8, MetaData>,
    pub user_profile_address: Address,
    pub reward: Address,
}

/// The voting contract's storage.
pub struct VotesState {
    voters: KeyMap<u8, Vec<Votes>>,
    content_vote: KeyMap<u8, MetaData>,
    user_profile_address: Address,
    reward: Address,
}

impl View for VotesState {
    type V = VotesStateView;

    closed spec fn view(&self) -> VotesStateView {
        VotesStateView {
            voters: Map::new(
                |i: u8| true,
                |i: u8|
                    if self.voters@.dom().contains(i) {
                        self.voters@[i]@
                    } else {
                        Seq::empty()
                    },
            ),
            content_vote: Map::new(
                |i: u8| true,
                |i: u8|
                    if self.content_vote@.dom().contains(i) {
                        self.content_vote@[i]
                    } else {
                        blank_meta()
                    },
            ),
            user_profile_address: self.user_profile_address,
            reward: self.reward,
        }
    }
}

/// Whether `voter` voted among `votes`.
pub open spec fn has_voted(votes: Seq<Votes>, voter: Address) -> bool {
    exists|i: int| 0 <= i < votes.len() && #[trigger] votes[i].user_id == voter
}

/// The sum of the votes cast.
pub open spec fn vote_sum(votes: Seq<Votes>) -> int
    decreases votes.len(),
{
    if votes.len() == 0 {
        0
    } else {
        vote_sum(votes.drop_last()) + votes.last().vote
    }
}

/// No address voted twice.
pub open spec fn distinct_voters(votes: Seq<Votes>) -> bool {
    forall|i: int, j: int|
        0 <= i < j < votes.len() ==> #[trigger] votes[i].user_id != #[trigger] votes[j].user_id
}

/// The record of `voter`'s vote.
pub open spec fn new_vote(env: Env, vote: i8, voter: Address, stake: U256) -> Votes {
    Votes { user_id: voter, stake, vote, time_stamp: env.timestamp as u32 }
}

/// The storage after `voter` votes `vote` with `stake` on `content_id`:
/// unchanged where `voter` voted on it before, else the vote is appended and
/// added to the tally.
pub open spec fn after_vote(
    s: VotesStateView,
    env: Env,
    content_id: u8,
    vote: i8,
    voter: Address,
    stake: U256,
) -> VotesStateView {
    if has_voted(s.voters[content_id], voter) {
        s
    } else {
        VotesStateView {
            voters: s.voters.insert(content_id, s.voters[content_id].push(new_vote(env, vote, voter, stake))),
            content_vote: s.content_vote.insert(
                content_id,
                MetaData {
                    total_votes: (s.content_vote[content_id].total_votes + vote) as i32,
                    ..s.content_vote[content_id]
                },
            ),
            ..s
        }
    }
}

/// The calls made by a vote: none for a repeated vote; else a change of the
/// reputation of the content id's first voter by the vote, and a report of
/// the vote to the reward contract.
pub open spec fn vote_calls(
    s: VotesStateView,
    content_id: u8,
    vote: i8,
    voter: Address,
    stake: U256,
) -> Seq<Call> {
    if has_voted(s.voters[content_id], voter) {
        Seq::empty()
    } else {
        let first = if s.voters[content_id].len() == 0 {
            voter
        } else {
            s.voters[content_id][0].user_id
        };
        seq![
            Call::UsersChangeReputationState {
                users: s.user_profile_address,
                user_id: first,
                points: vote as i64,
            },
            Call::RewardVoteContent { reward: s.reward, content_id, vote, voter, stake },
        ]
    }
}

/// After a vote, the voter has voted on that content id, and a second vote by
/// the same voter changes nothing and makes no call.
pub proof fn law_one_vote_per_voter(
    s: VotesStateView,
    env: Env,
    content_id: u8,
    vote: i8,
    voter: Address,
    stake: U256,
    env2: Env,
    vote2: i8,
    stake2: U256,
)
    ensures
        has_voted(after_vote(s, env, content_id, vote, voter, stake).voters[content_id], voter),
        after_vote(after_vote(s, env, content_id, vote, voter, stake), env2, content_id, vote2, voter, stake2)
            == after_vote(s, env, content_id, vote, voter, stake),
        vote_calls(after_vote(s, env, content_id, vote, voter, stake), content_id, vote2, voter, stake2)
            == Seq::<Call>::empty(),
{
    let post = after_vote(s, env, content_id, vote, voter, stake);
    if !has_voted(s.voters[content_id], voter) {
        let l = post.voters[content_id];
        assert(l[l.len() - 1].user_id == voter);
    }
}

/// An accepted vote is reported to the reward contract in the name of the
/// voter who cast it, with that voter's vote and stake, whatever the earlier
/// votes; the reputation change goes to the content's first voter, who is
/// the first in the list after the vote.
pub proof fn law_vote_reports_its_voter(
    s: VotesStateView,
    env: Env,
    content_id: u8,
    vote: i8,
    voter: Address,
    stake: U256,
)
    requires
        !has_voted(s.voters[content_id], voter),
    ensures
        vote_calls(s, content_id, vote, voter, stake).len() == 2,
        (vote_calls(s, content_id, vote, voter, stake)[1] matches Call::RewardVoteContent {
            reward,
            content_id: c,
            vote: v,
            voter: who,
            stake: st,
        } && reward == s.reward && c == content_id && v == vote && who == voter && st == stake),
        (vote_calls(s, content_id, vote, voter, stake)[0] matches Call::UsersChangeReputationState {
            users,
            user_id,
            points,
        } && users == s.user_profile_address && points == vote as i64 && user_id == after_vote(
            s,
            env,
            content_id,
            vote,
            voter,
            stake,
        ).voters[content_id][0].user_id),
{
}

/// An accepted vote appends the voter's record, with its vote, stake and
/// block time, to that content's votes, raises that content's tally by the
/// vote, and leaves every other content alone.
pub proof fn law_vote_is_recorded(
    s: VotesStateView,
    env: Env,
    content_id: u8,
    vote: i8,
    voter: Address,
    stake: U256,
)
    requires
        !has_voted(s.voters[content_id], voter),
    ensures
        after_vote(s, env, content_id, vote, voter, stake).voters[content_id].len()
            == s.voters[content_id].len() + 1,
        after_vote(s, env, content_id, vote, voter, stake).voters[content_id].last() == (Votes {
            user_id: voter,
            stake,
            vote,
            time_stamp: env.timestamp as u32,
        }),
        after_vote(s, env, content_id, vote, voter, stake).content_vote[content_id].total_votes
            == (s.content_vote[content_id].total_votes + vote) as i32,
        forall|c: u8|
            c != content_id ==> #[trigger] after_vote(s, env, content_id, vote, voter, stake).voters[c]
                == s.voters[c] && after_vote(s, env, content_id, vote, voter, stake).content_vote[c]
                == s.content_vote[c],
{
}

/// Every content id's tally is the sum of its votes, cast by distinct
/// addresses.
pub open spec fn tallied(s: VotesStateView) -> bool {
    forall|c: u8|
        #![trigger s.voters[c]]
        #![trigger s.content_vote[c]]
        s.content_vote[c].total_votes == vote_sum(s.voters[c]) && distinct_voters(s.voters[c])
}

/// Whether `voter` voted among `content`.
fn voted(content: &Vec<Votes>, voter: Address) -> (r: bool)
    ensures
        r == has_voted(content@, voter),
{
    let mut index: usize = 0;
    while index < content.len()
        invariant
            index <= content@.len(),
            forall|j: int| 0 <= j < index ==> content@[j].user_id != voter,
        decreases content@.len() - index,
    {
        if content[index].user_id.same(&voter) {
            assert(content@[index as int].user_id == voter);
            return true;
        }
        index = index + 1;
    }
    false
}

impl VotesState {
    pub closed spec fn wf(&self) -> bool {
        self.voters.wf() && self.content_vote.wf()
    }

    /// No votes, zero addresses for the profile and reward contracts.
    pub fn new() -> (r: Self)
        ensures
            r.wf(),
            r@.voters == Map::new(|i: u8| true, |i: u8| Seq::<Votes>::empty()),
            r@.content_vote == Map::new(|i: u8| true, |i: u8| blank_meta()),
            r@.user_profile_address == Address::spec_zero(),
            r@.reward == Address::spec_zero(),
            tallied(r@),
    {
        let r = VotesState {
            voters: KeyMap::new(),
            content_vote: KeyMap::new(),
            user_profile_address: Address::zero(),
            reward: Address::zero(),
        };
        assert(r@.voters =~= Map::new(|i: u8| true, |i: u8| Seq::<Votes>::empty()));
        assert(r@.content_vote =~= Map::new(|i: u8| true, |i: u8| blank_meta()));
        r
    }

    pub fn set_profile_address(&mut self, address: Address)
        ensures
            final(self).wf() == old(self).wf(),
            final(self)@ == (VotesStateView { user_profile_address: address, ..old(self)@ }),
    {
        self.user_profile_address = address;
    }

    pub fn set_reward_address(&mut self, address: Address)
        ensures
            final(self).wf() == old(self).wf(),
            final(self)@ == (VotesStateView { reward: address, ..old(self)@ }),
    {
        self.reward = address;
    }

    /// Records `voter`'s vote with `stake` on `content_id`, adds the vote to
    /// the tally, and returns the calls that change the reputation of the
    /// content id's first voter by the vote and report the vote to the reward
    /// contract. A second vote by the same address changes nothing and makes
    /// no call. The new tally must fit in an `i32`: the `I32` sum panics on
    /// overflow in debug builds (it wraps in release builds), and this
    /// contract follows debug builds.
    pub fn vote_content(&mut self, env: &Env, content_id: u8, vote: i8, voter: Address, stake: U256) -> (calls: Vec<Call>)
        requires
            old(self).wf(),
            !has_voted(old(self)@.voters[content_id], voter) ==> env.timestamp <= u32::MAX,
            !has_voted(old(self)@.voters[content_id], voter) ==> i32::MIN <= old(self)@.content_vote[content_id].total_votes + vote <= i32::MAX,
        ensures
            final(self).wf(),
            final(self)@ == after_vote(old(self)@, *env, content_id, vote, voter, stake),
            calls@ == vote_calls(old(self)@, content_id, vote, voter, stake),
            tallied(old(self)@) ==> tallied(final(self)@),
    {
        let ghost pre = self@;
        let mut content = match self.voters.take(&content_id) {
            Some(l) => l,
            None => Vec::new(),
        };
        if voted(&content, voter) {
            self.voters.insert(content_id, content);
            assert(self@.voters =~= pre.voters);
            assert(self@.content_vote =~= pre.content_vote);
            return Vec::new();
        }
        content.push(Votes { user_id: voter, stake, vote, time_stamp: env.timestamp as u32 });
        let author_id = content[0].user_id;
        let ghost votes = content@;
        self.voters.insert(content_id, content);
        let metadata = match self.content_vote.get(&content_id) {
            Some(m) => *m,
            None => MetaData { total_votes: 0, rewarded: false },
        };
        let calculated_vote = metadata.total_votes + (vote as i32);
        self.content_vote.insert(content_id, MetaData { total_votes: calculated_vote, ..metadata });
        assert(self@.voters =~= pre.voters.insert(content_id, votes));
        assert(self@.content_vote =~= pre.content_vote.insert(content_id, MetaData { total_votes: calculated_vote, ..metadata }));
        proof {
            if tallied(pre) {
                assert(votes.drop_last() =~= pre.voters[content_id]);
                assert forall|c: u8|
                    #![trigger self@.voters[c]]
                    #![trigger self@.content_vote[c]]
                    self@.content_vote[c].total_votes == vote_sum(self@.voters[c])
                        && distinct_voters(self@.voters[c]) by {
                    if c != content_id {
                        assert(pre.content_vote[c].total_votes == vote_sum(pre.voters[c]));
                    } else {
                        assert(pre.content_vote[c].total_votes == vote_sum(pre.voters[c]));
                        assert(distinct_voters(pre.voters[c]));
                    }
                }
            }
        }
        let mut calls: Vec<Call> = Vec::new();
        calls.push(self.change_reputation_state(vote as i64, author_id));
        calls.push(self.reward_state(voter, stake, vote, content_id));
        calls
    }

    /// Whether `voter` voted on `content_id`.
    pub fn has_voted_on(&self, content_id: u8, voter: Address) -> (r: bool)
        requires
            self.wf(),
        ensures
            r == has_voted(self@.voters[content_id], voter),
    {
        let content = self.votes_on(content_id);
        voted(&content, voter)
    }

    /// The votes on `content_id`, oldest first.
    pub fn votes_on(&self, content_id: u8) -> (r: Vec<Votes>)
        requires
            self.wf(),
        ensures
            r@ == self@.voters[content_id],
    {
        let mut r: Vec<Votes> = Vec::new();
        match self.voters.get(&content_id) {
            Some(l) => {
                let mut i: usize = 0;
                while i < l.len()
                    invariant
                        i <= l@.len(),
                        r@ == l@.subrange(0, i as int),
                    decreases l@.len() - i,
                {
                    r.push(l[i]);
                    i = i + 1;
                }
                assert(r@ =~= l@);
            },
            None => {},
        }
        r
    }

    /// The votes on `content_id`, oldest first, each as JSON text.
    pub fn get_voters(&self, content_id: u8) -> (r: Vec<String>)
        requires
            self.wf(),
        ensures
            r@.len() == self@.voters[content_id].len(),
            forall|i: int|
                0 <= i < r@.len() ==> #[trigger] r@[i]@ == voter_json(self@.voters[content_id][i]),
    {
        let content = self.votes_on(content_id);
        let mut votes: Vec<String> = Vec::new();
        let mut index: usize = 0;
        while index < content.len()
            invariant
                index <= content@.len(),
                votes@.len() == index,
                forall|j: int| 0 <= j < index ==> #[trigger] votes@[j]@ == voter_json(content@[j]),
            decreases content@.len() - index,
        {
            let vote_x = content[index];
            let mut s = String::new();
            s.append("{\"voters_id\":\"");
            let id = address_to_string(vote_x.user_id);
            s.append(id.as_str());
            s.append("\",\"stake\":\"");
            let stake = u256_to_string(vote_x.stake);
            s.append(stake.as_str());
            s.append("\",\"time_stamp\":");
            push_decimal(&mut s, vote_x.time_stamp as u64);
            s.append("}");
            assert(s@ =~= voter_json(vote_x));
            votes.push(s);
            index = index + 1;
        }
        votes
    }

    /// The tally of `content_id` as decimal text.
    pub fn get_total_votes(&self, content_id: u8) -> (r: String)
        requires
            self.wf(),
        ensures
            r@ == signed_decimal(self@.content_vote[content_id].total_votes as int),
    {
        let mut s = String::new();
        push_signed(&mut s, self.total_votes(content_id) as i64);
        assert(s@ =~= signed_decimal(self@.content_vote[content_id].total_votes as int));
        s
    }

    /// The tally of `content_id`.
    pub fn total_votes(&self, content_id: u8) -> (r: i32)
        requires
            self.wf(),
        ensures
            r == self@.content_vote[content_id].total_votes,
    {
        match self.content_vote.get(&content_id) {
            Some(m) => m.total_votes,
            None => 0,
        }
    }

    /// The call that changes `ct_rw`'s reputation by `points`.
    pub fn change_reputation_state(&self, points: i64, ct_rw: Address) -> (c: Call)
        ensures
            c == (Call::UsersChangeReputationState { users: self@.user_profile_address, user_id: ct_rw, points }),
    {
        Call::UsersChangeReputationState { users: self.user_profile_address, user_id: ct_rw, points }
    }

    /// The call that reports a vote to the reward contract.
    pub fn reward_state(&self, author_id: Address, stake: U256, vote: i8, content_id: u8) -> (c: Call)
        ensures
            c == (Call::RewardVoteContent { reward: self@.reward, content_id, vote, voter: author_id, stake }),
    {
        Call::RewardVoteContent { reward: self.reward, content_id, vote, voter: author_id, stake }
    }
}

} // verus!
