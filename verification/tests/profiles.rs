use stylus_social::calls::Call;
use stylus_social::user_meta_data;
use stylus_social::user_profiles::Users;
use stylus_social::word::{Address, Env, U256};

fn addr(n: u64) -> Address {
    Address { hi: 0, mid: 0, lo: n }
}

fn env(sender: u64, timestamp: u64) -> Env {
    Env { sender: addr(sender), timestamp, this: addr(500) }
}

#[test]
fn register_user_grants_tokens_once() {
    let mut u = Users::new();
    u.set_erc2o_address(addr(77));
    let calls = u.register_user(&env(9, 1_700_000_000), addr(2));
    assert!(u.has_registered(addr(2)));
    assert_eq!(calls.len(), 2);
    match &calls[0] {
        Call::Erc20SetAdmin { token, admin } => {
            assert_eq!(*token, addr(77));
            assert_eq!(*admin, addr(500));
        }
        _ => panic!("expected setAdmin"),
    }
    match &calls[1] {
        Call::Erc20MintTo { token, to, value } => {
            assert_eq!(*token, addr(77));
            assert_eq!(*to, addr(2));
            assert_eq!(*value, U256::from_u64(20_000_000));
        }
        _ => panic!("expected mintTo"),
    }
    let again = u.register_user(&env(9, 1_700_000_100), addr(2));
    assert!(again.is_empty());
    assert_eq!(
        u.get_profile(addr(2)),
        "{\"user_id\":\"0x0000000000000000000000000000000000000002\",\"reputation\":0,\"joined_at\":\"1700000000\"}"
    );
}

#[test]
fn unregistered_profile_is_blank() {
    let u = Users::new();
    assert!(!u.has_registered(addr(3)));
    assert_eq!(
        u.get_profile(addr(3)),
        "{\"user_id\":\"0x0000000000000000000000000000000000000000\",\"reputation\":0,\"joined_at\":\"0\"}"
    );
}

#[test]
fn reputation_changes_add_up() {
    let mut u = Users::new();
    u.register_user(&env(1, 10), addr(2));
    u.change_reputation_state(addr(2), 7);
    u.change_reputation_state(addr(2), -20);
    assert_eq!(
        u.get_profile(addr(2)),
        "{\"user_id\":\"0x0000000000000000000000000000000000000002\",\"reputation\":-13,\"joined_at\":\"10\"}"
    );
}

#[test]
fn stakes_and_communities_accumulate() {
    let mut u = Users::new();
    u.set_my_stakes(addr(2), 5);
    u.set_my_stakes(addr(2), 9);
    u.set_community(addr(2), 1);
    assert_eq!(u.get_my_stakes(addr(2)), vec![5u8, 9u8]);
    assert_eq!(u.get_my_stakes(addr(3)), Vec::<u8>::new());
    u.register_user(&env(1, 10), addr(2));
    assert_eq!(u.get_my_stakes(addr(2)), vec![5u8, 9u8]);
}

#[test]
fn meta_data_registration_is_unique_up_to_case() {
    let mut m = user_meta_data::Users::new();
    m.register_user(&env(2, 1), String::from("Alice"), vec![1, 2, 3]);
    assert!(m.has_meta_data(&env(2, 1)));
    assert!(m.name_taken(String::from("aLiCe")));
    assert!(!m.name_taken(String::from("Bob")));
    m.register_user(&env(3, 1), String::from("ALICE"), vec![]);
    assert!(!m.has_meta_data(&env(3, 1)));
    assert_eq!(m.get_username(addr(2)), "Alice");
    assert_eq!(m.get_username(addr(3)), "");
    m.register_user(&env(2, 1), String::from("Carol"), vec![]);
    assert_eq!(m.get_username(addr(2)), "Alice");
    assert!(!m.name_taken(String::from("carol")));
    assert_eq!(
        m.get_meta_data(&env(2, 1)),
        "{\"user_id\":\"0x0000000000000000000000000000000000000002\",\"name\":\"Alice\",\"metaData\":[1, 2, 3]}"
    );
    assert_eq!(
        m.get_meta_data(&env(4, 1)),
        "{\"user_id\":\"0x0000000000000000000000000000000000000000\",\"name\":\"\",\"metaData\":[]}"
    );
}

#[test]
fn folding_touches_only_ascii_capitals() {
    let mut m = user_meta_data::Users::new();
    m.register_user(&env(2, 1), String::from("ÉCOLE"), vec![]);
    assert!(m.name_taken(String::from("École")));
    assert!(!m.name_taken(String::from("école")));
}

#[test]
fn registered_address_is_left_alone_at_any_time() {
    let mut u = Users::new();
    u.register_user(&env(1, 10), addr(2));
    assert!(u.register_user(&env(1, u64::MAX), addr(2)).is_empty());
    assert!(u.get_profile(addr(2)).ends_with("\"joined_at\":\"10\"}"));
}
