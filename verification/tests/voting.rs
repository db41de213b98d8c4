use stylus_social::calls::{Call, Query, Step};
use stylus_social::voters::VotesState;
use stylus_social::voting_connector::Test;
use stylus_social::word::{Address, Env, U256};

fn addr(n: u64) -> Address {
    Address { hi: 0, mid: 0, lo: n }
}

fn env(sender: u64, timestamp: u64) -> Env {
    Env { sender: addr(sender), timestamp, this: addr(500) }
}

#[test]
fn votes_tally_and_one_vote_each() {
    let mut v = VotesState::new();
    v.set_profile_address(addr(61));
    v.set_reward_address(addr(64));
    let calls = v.vote_content(&env(1, 10), 5, 1, addr(2), U256::from_u64(100));
    assert_eq!(calls.len(), 2);
    match &calls[0] {
        Call::UsersChangeReputationState { users, user_id, points } => {
            assert_eq!(*users, addr(61));
            assert_eq!(*user_id, addr(2));
            assert_eq!(*points, 1);
        }
        _ => panic!("expected changeReputationState"),
    }
    match &calls[1] {
        Call::RewardVoteContent { reward, content_id, vote, voter, stake } => {
            assert_eq!(*reward, addr(64));
            assert_eq!(*content_id, 5);
            assert_eq!(*vote, 1);
            assert_eq!(*voter, addr(2));
            assert_eq!(*stake, U256::from_u64(100));
        }
        _ => panic!("expected voteContent on rewards"),
    }
    let second = v.vote_content(&env(1, 11), 5, -1, addr(3), U256::from_u64(7));
    match &second[0] {
        Call::UsersChangeReputationState { user_id, points, .. } => {
            assert_eq!(*user_id, addr(2));
            assert_eq!(*points, -1);
        }
        _ => panic!("expected changeReputationState"),
    }
    assert!(v.vote_content(&env(1, 12), 5, 1, addr(2), U256::from_u64(1)).is_empty());
    assert_eq!(v.get_total_votes(5), "0");
    v.vote_content(&env(1, 13), 5, -1, addr(4), U256::from_u64(1));
    assert_eq!(v.get_total_votes(5), "-1");
    assert_eq!(v.total_votes(5), -1);
    assert_eq!(v.get_total_votes(6), "0");
    assert_eq!(
        v.get_voters(5)[0],
        "{\"voters_id\":\"0x0000000000000000000000000000000000000002\",\"stake\":\"100\",\"time_stamp\":10}"
    );
    assert_eq!(v.get_voters(5).len(), 3);
}

#[test]
fn large_stakes_print_in_decimal() {
    let mut v = VotesState::new();
    v.vote_content(&env(1, 10), 5, 1, addr(2), U256 { l0: 0, l1: 1, l2: 0, l3: 0 });
    assert_eq!(
        v.get_voters(5)[0],
        "{\"voters_id\":\"0x0000000000000000000000000000000000000002\",\"stake\":\"18446744073709551616\",\"time_stamp\":10}"
    );
}

fn connector() -> Test {
    let mut t = Test::new();
    t.set_vote_address(addr(63));
    t.set_community_address(addr(62));
    t.set_erc2o_address(addr(77));
    t.set_profile_address(addr(61));
    t
}

#[test]
fn vote_in_community_asks_membership_first() {
    let t = connector();
    match t.vote_content(&env(2, 1), 4, U256::from_u64(10), 9, 1) {
        Step::Ask(Query::CommunityIsAMember { communities, index, user }) => {
            assert_eq!(communities, addr(62));
            assert_eq!(index, 4);
            assert_eq!(user, addr(2));
        }
        _ => panic!("expected a membership question"),
    }
    assert!(matches!(t.vote_content_on_membership(&env(2, 1), false), Step::Done));
    assert!(matches!(
        t.vote_content_on_membership(&env(2, 1), true),
        Step::Ask(Query::Erc20BalanceOf { .. })
    ));
}

#[test]
fn vote_in_open_feed_asks_balance() {
    let t = connector();
    match t.vote_content(&env(2, 1), 0, U256::from_u64(10), 9, 1) {
        Step::Ask(Query::Erc20BalanceOf { token, owner }) => {
            assert_eq!(token, addr(77));
            assert_eq!(owner, addr(2));
        }
        _ => panic!("expected a balance question"),
    }
}

#[test]
fn vote_needs_stake_plus_fifty() {
    let t = connector();
    assert!(!t.has_enough_balance(U256::from_u64(10), U256::from_u64(59)));
    assert!(t.has_enough_balance(U256::from_u64(10), U256::from_u64(60)));
    assert!(matches!(
        t.vote_content_on_balance(&env(2, 1), U256::from_u64(10), 9, 1, U256::from_u64(59)),
        Step::Done
    ));
    match t.vote_content_on_balance(&env(2, 1), U256::from_u64(10), 9, 1, U256::from_u64(60)) {
        Step::Send(calls) => {
            assert_eq!(calls.len(), 4);
            assert!(matches!(calls[0], Call::Erc20SetAdmin { .. }));
            match &calls[1] {
                Call::Erc20StakeControl { token, from, value } => {
                    assert_eq!(*token, addr(77));
                    assert_eq!(*from, addr(2));
                    assert_eq!(*value, U256::from_u64(10));
                }
                _ => panic!("expected stakeControl"),
            }
            assert!(matches!(calls[2], Call::UsersSetMyStakes { content_id: 9, .. }));
            assert!(matches!(calls[3], Call::VotesVoteContent { content_id: 9, vote: 1, .. }));
        }
        _ => panic!("expected the vote's calls"),
    }
}

#[test]
fn repeated_vote_is_ignored_at_any_time() {
    let mut v = VotesState::new();
    v.vote_content(&env(1, 10), 5, 1, addr(2), U256::from_u64(100));
    assert!(v.vote_content(&env(1, u64::MAX), 5, 1, addr(2), U256::from_u64(1)).is_empty());
    assert_eq!(v.total_votes(5), 1);
}
