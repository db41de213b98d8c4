//! Calls that one contract makes on another. A contract's entry point decides
//! which calls to make and with what arguments; carrying them out is left to
//! the host, in the order given.

use vstd::prelude::*;
use crate::word::{Address, U256};

verus! {

/// A call that changes another contract's state.
#[derive(Debug)]
pub enum Call {
    /// `IErc20.setAdmin(admin)` on the token at `token`.
    Erc20SetAdmin { token: Address, admin: Address },
    /// `IErc20.mintTo(to, value)` on the token at `token`.
    Erc20MintTo { token: Address, to: Address, value: U256 },
    /// `IErc20.stakeControl(from, value)` on the token at `token`.
    Erc20StakeControl { token: Address, from: Address, value: U256 },
    /// `IUsers.registerUser(address)` on the profiles at `users`.
    UsersRegisterUser { users: Address, address: Address },
    /// `IUsers.changeReputationState(user_id, points)` on the profiles at `users`.
    UsersChangeReputationState { users: Address, user_id: Address, points: i64 },
    /// `IUsers.setMyStakes(user, content_id)` on the profiles at `users`.
    UsersSetMyStakes { users: Address, user: Address, content_id: u8 },
    /// `IVotesState.voteContent(content_id, vote, voter, stake)` on the votes at `votes`.
    VotesVoteContent { votes: Address, content_id: u8, vote: i8, voter: Address, stake: U256 },
    /// `IRewardState.voteContent(content_id, vote, voter, stake)` on the rewards at `reward`.
    RewardVoteContent { reward: Address, content_id: u8, vote: i8, voter: Address, stake: U256 },
    /// `IContentState.submitContent(..)` on the content store at `content`.
    ContentSubmitContent {
        content: Address,
        author: Address,
        sub_data: String,
        content_data: String,
        community_id: u8,
        content_id: u8,
    },
}

/// A call that reads another contract's state; its answer comes back to the
/// caller.
#[derive(Clone, Copy, Debug)]
pub enum Query {
    /// `IErc20.balanceOf(owner)`, answered with a `U256`.
    Erc20BalanceOf { token: Address, owner: Address },
    /// `ICommunityState.isAMember(index, user)`, answered with a `bool`.
    CommunityIsAMember { communities: Address, index: u8, user: Address },
    /// `IContentState.getContent(content_id)`, answered with a `String`.
    ContentGetContent { content: Address, content_id: u8 },
    /// `IContentState.getContentByCommunity(community_id)`, answered with a `Vec<String>`.
    ContentGetContentByCommunity { content: Address, community_id: u8 },
    /// `IUsers.hasRegistered(user)`, answered with a `bool`.
    UsersHasRegistered { users: Address, user: Address },
    /// `IUsers.getProfile(user)`, answered with a `String`.
    UsersGetProfile { users: Address, user: Address },
    /// `IUsers.getMyStakes(user)`, answered with a `Vec<u8>`.
    UsersGetMyStakes { users: Address, user: Address },
    /// `IVotesState.getVoters(content_id)`, answered with a `Vec<String>`.
    VotesGetVoters { votes: Address, content_id: u8 },
    /// `IVotesState.getTotalVotes(content_id)`, answered with a `String`.
    VotesGetTotalVotes { votes: Address, content_id: u8 },
}

/// What a contract does next in an entry point that waits on answers from
/// other contracts.
#[derive(Debug)]
pub enum Step {
    /// Ask `Query`; the entry point goes on with its answer.
    Ask(Query),
    /// Make these calls, in order, and end.
    Send(Vec<Call>),
    /// End without further calls.
    Done,
}

} // verus!
