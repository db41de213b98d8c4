use stylus_social::communities::CommunityState;
use stylus_social::word::{Address, Env};

fn addr(n: u64) -> Address {
    Address { hi: 0, mid: 0, lo: n }
}

fn env(sender: u64, timestamp: u64) -> Env {
    Env { sender: addr(sender), timestamp, this: addr(500) }
}

#[test]
fn communities_are_numbered_from_one() {
    let mut c = CommunityState::new();
    c.create_community(&env(2, 100), String::from("Rust"), String::from("systems"));
    assert_eq!(c.get_last_index(), 1);
    c.create_community(&env(3, 101), String::from("Go"), String::from("gophers"));
    assert_eq!(c.get_last_index(), 2);
    assert_eq!(
        c.get_community(1),
        "{\"creator\":\"0x0000000000000000000000000000000000000002\",\"name\":\"Rust\",\"meta_data\":\"systems\",\"numbers of members\":\"0\",\"created_at\":100}"
    );
}

#[test]
fn community_names_unique_up_to_case() {
    let mut c = CommunityState::new();
    c.create_community(&env(2, 100), String::from("Rust"), String::from("a"));
    assert!(c.name_taken(String::from("RUST")));
    c.create_community(&env(3, 100), String::from("rust"), String::from("b"));
    assert_eq!(c.get_last_index(), 1);
}

#[test]
fn members_join_once_and_creator_counts() {
    let mut c = CommunityState::new();
    c.create_community(&env(2, 100), String::from("Rust"), String::from("a"));
    assert!(c.is_a_member(1, addr(2)));
    assert!(!c.is_a_member(1, addr(3)));
    c.add_user_to_community(&env(3, 1), 1);
    c.add_user_to_community(&env(3, 1), 1);
    c.add_user_to_community(&env(2, 1), 1);
    assert!(c.is_a_member(1, addr(3)));
    assert_eq!(
        c.get_community(1),
        "{\"creator\":\"0x0000000000000000000000000000000000000002\",\"name\":\"Rust\",\"meta_data\":\"a\",\"numbers of members\":\"1\",\"created_at\":100}"
    );
}

#[test]
fn unknown_community_counts_zero_address_as_creator() {
    let c = CommunityState::new();
    assert!(c.is_a_member(9, Address::zero()));
    assert!(!c.is_a_member(9, addr(1)));
}

#[test]
fn index_wraps_after_255() {
    let mut c = CommunityState::new();
    let mut i: u32 = 0;
    while i < 256 {
        c.create_community(&env(2, 1), format!("c{}", i), String::new());
        i += 1;
    }
    assert_eq!(c.get_last_index(), 0);
}

#[test]
fn taken_name_is_refused_at_any_time() {
    let mut c = CommunityState::new();
    c.create_community(&env(2, 100), String::from("Rust"), String::from("a"));
    c.create_community(&env(3, u64::MAX), String::from("rUST"), String::from("b"));
    assert_eq!(c.get_last_index(), 1);
}

#[test]
fn creation_leaves_earlier_communities_alone() {
    let mut c = CommunityState::new();
    c.create_community(&env(2, 100), String::from("Rust"), String::from("a"));
    let first = c.get_community(1);
    c.add_user_to_community(&env(4, 1), 2);
    c.create_community(&env(3, 200), String::from("Go"), String::from("b"));
    c.create_community(&env(5, 300), String::from("Zig"), String::from("c"));
    assert_eq!(c.get_community(1), first);
    assert!(c.name_taken(String::from("gO")));
    assert!(c.name_taken(String::from("ZIG")));
    assert!(!c.name_taken(String::from("Nim")));
}
