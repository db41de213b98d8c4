use stylus_social::calls::{Call, Query, Step};
use stylus_social::connector;
use stylus_social::content_connector;
use stylus_social::content_work::ContentState;
use stylus_social::safe_registration;
use stylus_social::word::{Address, Env};

fn addr(n: u64) -> Address {
    Address { hi: 0, mid: 0, lo: n }
}

fn env(sender: u64, timestamp: u64) -> Env {
    Env { sender: addr(sender), timestamp, this: addr(500) }
}

#[test]
fn submitted_content_reads_back() {
    let mut s = ContentState::new();
    s.submit_content(&env(1, 50), addr(2), String::from("title"), String::from("body"), 0, 3);
    assert_eq!(
        s.get_content(3),
        "{\"content_id\":3,\"author\":\"0x0000000000000000000000000000000000000002\",\"sub_data\":\"title\",\"content\":\"body\",\"community_id\":0,\"verified\":false,\"timestamp\":50}"
    );
    s.verify_content(3);
    assert_eq!(
        s.get_content_by_community(0),
        vec![String::from(
            "{\"content_id\":3,\"author\":\"0x0000000000000000000000000000000000000002\",\"sub_data\":\"title\",\"verified\":true,\"timestamp\":50}"
        )]
    );
    assert!(s.get_content_by_community(1).is_empty());
}

#[test]
fn feeds_keep_submission_order() {
    let mut s = ContentState::new();
    s.submit_content(&env(1, 50), addr(2), String::from("a"), String::from("x"), 4, 7);
    s.submit_content(&env(1, 51), addr(3), String::from("b"), String::from("y"), 4, 8);
    assert_eq!(s.content_ids(4), vec![7u8, 8u8]);
    assert_eq!(s.get_content_by_community(4).len(), 2);
}

#[test]
fn posting_numbers_content_from_three() {
    let mut p = content_connector::Test::new();
    p.set_content_address(addr(60));
    p.set_profile_address(addr(61));
    let calls = p.add_content(&env(2, 1), String::from("t"), String::from("c"), 5);
    assert_eq!(p.get_draft(&env(2, 1)), 3);
    assert_eq!(p.get_draft(&env(9, 1)), 0);
    match &calls[0] {
        Call::UsersChangeReputationState { users, user_id, points } => {
            assert_eq!(*users, addr(61));
            assert_eq!(*user_id, addr(2));
            assert_eq!(*points, 7);
        }
        _ => panic!("expected changeReputationState"),
    }
    match &calls[1] {
        Call::ContentSubmitContent { content, author, sub_data, content_data, community_id, content_id } => {
            assert_eq!(*content, addr(60));
            assert_eq!(*author, addr(2));
            assert_eq!(sub_data, "t");
            assert_eq!(content_data, "c");
            assert_eq!(*community_id, 5);
            assert_eq!(*content_id, 3);
        }
        _ => panic!("expected submitContent"),
    }
    p.add_content(&env(2, 1), String::from("t2"), String::from("c2"), 5);
    assert_eq!(p.get_draft(&env(2, 1)), 4);
}

#[test]
fn listing_a_community_needs_membership() {
    let mut c = connector::Test::new();
    c.set_content_address(addr(60));
    c.set_community_address(addr(62));
    match c.get_content_list(&env(2, 1), 4) {
        Step::Ask(Query::CommunityIsAMember { communities, index, user }) => {
            assert_eq!(communities, addr(62));
            assert_eq!(index, 4);
            assert_eq!(user, addr(2));
        }
        _ => panic!("expected a membership question"),
    }
    assert!(matches!(c.get_content_list_on_membership(4, false), Step::Done));
    assert!(matches!(
        c.get_content_list_on_membership(4, true),
        Step::Ask(Query::ContentGetContentByCommunity { community_id: 4, .. })
    ));
    assert!(matches!(
        c.get_content_list(&env(2, 1), 0),
        Step::Ask(Query::ContentGetContentByCommunity { community_id: 0, .. })
    ));
}

#[test]
fn reads_go_to_the_named_contracts() {
    let mut c = connector::Test::new();
    c.set_vote_address(addr(63));
    c.set_profile_address(addr(61));
    assert!(matches!(c.get_voters(9), Query::VotesGetVoters { content_id: 9, .. }));
    match c.get_profile(&env(2, 1)) {
        Query::UsersGetProfile { users, user } => {
            assert_eq!(users, addr(61));
            assert_eq!(user, addr(2));
        }
        _ => panic!("expected getProfile"),
    }
}

#[test]
fn front_door_registers_the_caller() {
    let mut t = safe_registration::Test::new();
    t.set_profile_address(addr(61));
    match t.register_user(&env(2, 1)) {
        Call::UsersRegisterUser { users, address } => {
            assert_eq!(users, addr(61));
            assert_eq!(address, addr(2));
        }
        _ => panic!("expected registerUser"),
    }
}
