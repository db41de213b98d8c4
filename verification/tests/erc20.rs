use stylus_social::erc20::{Erc20, Erc20Error, Erc20Event, Erc20Params};
use stylus_social::word::{Address, Env, U256};

struct Social;

impl Erc20Params for Social {
    const NAME: &'static str = "Social Token";
    const SYMBOL: &'static str = "SOC";
    const DECIMALS: u8 = 10;
}

fn addr(n: u64) -> Address {
    Address { hi: 0, mid: 0, lo: n }
}

fn env(sender: u64, timestamp: u64) -> Env {
    Env { sender: addr(sender), timestamp, this: addr(999) }
}

fn w(x: u64) -> U256 {
    U256::from_u64(x)
}

const ADMIN: u64 = 1;
const ALICE: u64 = 2;
const BOB: u64 = 3;

fn token_with_alice(amount: u64) -> Erc20<Social> {
    let mut t: Erc20<Social> = Erc20::new();
    t.set_admin(addr(ADMIN));
    t.mint(&env(ADMIN, 100), addr(ALICE), w(amount)).unwrap();
    t.set_transaction_limit(&env(ADMIN, 100), w(1_000_000)).unwrap();
    t
}

#[test]
fn params_are_the_token_constants() {
    assert_eq!(Erc20::<Social>::name(), "Social Token");
    assert_eq!(Erc20::<Social>::symbol(), "SOC");
    assert_eq!(Erc20::<Social>::decimals(), 10);
}

#[test]
fn mint_by_admin_credits_and_logs() {
    let t = token_with_alice(1000);
    assert_eq!(t.balance_of(addr(ALICE)), w(1000));
    assert_eq!(t.total_supply(), w(1000));
    match t.events()[0] {
        Erc20Event::Transfer(tr) => {
            assert_eq!(tr.from, Address::zero());
            assert_eq!(tr.to, addr(ALICE));
            assert_eq!(tr.value, w(1000));
        }
        _ => panic!("expected a transfer event"),
    }
}

#[test]
fn mint_by_other_caller_is_restricted() {
    let mut t: Erc20<Social> = Erc20::new();
    t.set_admin(addr(ADMIN));
    match t.mint(&env(ALICE, 100), addr(ALICE), w(5)) {
        Err(Erc20Error::RestrictedCall(e)) => assert_eq!(e.caller, addr(ALICE)),
        _ => panic!("expected RestrictedCall"),
    }
    assert_eq!(t.total_supply(), w(0));
    assert_eq!(t.balance_of(addr(ALICE)), w(0));
}

#[test]
fn mint_up_to_the_cap_fails() {
    let mut t: Erc20<Social> = Erc20::new();
    t.set_admin(addr(ADMIN));
    t.mint(&env(ADMIN, 1), addr(ALICE), w(759_999_999_999_999_999)).unwrap();
    match t.mint(&env(ADMIN, 1), addr(BOB), w(1)) {
        Err(Erc20Error::MaxSupplyExceed(e)) => assert_eq!(e.max_supply, w(760_000_000_000_000_000)),
        _ => panic!("expected MaxSupplyExceed"),
    }
    assert_eq!(t.balance_of(addr(BOB)), w(0));
    assert_eq!(t.total_supply(), w(759_999_999_999_999_999));
}

#[test]
fn mint_whose_sum_wraps_below_the_cap_goes_through() {
    let mut t: Erc20<Social> = Erc20::new();
    t.set_admin(addr(ADMIN));
    t.mint(&env(ADMIN, 1), addr(ALICE), w(1)).unwrap();
    let max = U256 { l0: u64::MAX, l1: u64::MAX, l2: u64::MAX, l3: u64::MAX };
    t.mint(&env(ADMIN, 1), addr(BOB), max).unwrap();
    assert_eq!(t.total_supply(), w(0));
    assert_eq!(t.balance_of(addr(BOB)), max);
    assert_eq!(t.balance_of(addr(ALICE)), w(1));
}

#[test]
fn transfer_moves_funds_and_stamps_time() {
    let mut t = token_with_alice(1000);
    assert_eq!(t.transfer(&env(ALICE, 200), addr(BOB), w(300)).unwrap(), true);
    assert_eq!(t.balance_of(addr(ALICE)), w(700));
    assert_eq!(t.balance_of(addr(BOB)), w(300));
    assert_eq!(t.total_supply(), w(1000));
    match t.events()[1] {
        Erc20Event::Transfer(tr) => {
            assert_eq!(tr.from, addr(ALICE));
            assert_eq!(tr.to, addr(BOB));
            assert_eq!(tr.value, w(300));
        }
        _ => panic!("expected a transfer event"),
    }
}

#[test]
fn transfer_to_self_is_invalid() {
    let mut t = token_with_alice(1000);
    match t.transfer(&env(ALICE, 200), addr(ALICE), w(10)) {
        Err(Erc20Error::InvalidParameter(e)) => {
            assert_eq!(e.from, addr(ALICE));
            assert_eq!(e.to, addr(ALICE));
        }
        _ => panic!("expected InvalidParameter"),
    }
}

#[test]
fn transfer_above_limit_is_refused() {
    let mut t = token_with_alice(1000);
    t.set_transaction_limit(&env(ADMIN, 100), w(100)).unwrap();
    match t.transfer(&env(ALICE, 200), addr(BOB), w(101)) {
        Err(Erc20Error::MaxTranscationReached(e)) => {
            assert_eq!(e.transaction_limit, w(100));
            assert_eq!(e.value, w(101));
        }
        _ => panic!("expected MaxTranscationReached"),
    }
    assert!(t.transfer(&env(ALICE, 200), addr(BOB), w(100)).is_ok());
}

#[test]
fn transfer_must_leave_fifty() {
    let mut t = token_with_alice(1000);
    match t.transfer(&env(ALICE, 200), addr(BOB), w(951)) {
        Err(Erc20Error::InsufficientBalance(e)) => {
            assert_eq!(e.from, addr(ALICE));
            assert_eq!(e.have, w(1000));
            assert_eq!(e.want, w(951));
        }
        _ => panic!("expected InsufficientBalance"),
    }
    assert!(t.transfer(&env(ALICE, 200), addr(BOB), w(950)).is_ok());
    assert_eq!(t.balance_of(addr(ALICE)), w(50));
}

#[test]
fn transfer_more_than_held_is_refused() {
    let mut t = token_with_alice(1000);
    match t.transfer(&env(BOB, 200), addr(ALICE), w(1)) {
        Err(Erc20Error::InsufficientBalance(e)) => {
            assert_eq!(e.have, w(0));
            assert_eq!(e.want, w(1));
        }
        _ => panic!("expected InsufficientBalance"),
    }
}

#[test]
fn cooldown_between_transfers() {
    let mut t = token_with_alice(1000);
    t.transfer(&env(ALICE, 200), addr(BOB), w(10)).unwrap();
    match t.transfer(&env(ALICE, 214), addr(BOB), w(10)) {
        Err(Erc20Error::CoolDownRestriction(e)) => {
            assert_eq!(e.caller, addr(ALICE));
            assert_eq!(e.last_time, w(200));
        }
        _ => panic!("expected CoolDownRestriction"),
    }
    assert!(t.transfer(&env(ALICE, 215), addr(BOB), w(10)).is_ok());
    assert_eq!(t.balance_of(addr(BOB)), w(20));
}

#[test]
fn first_transfer_waits_for_time_fifteen() {
    let mut t = token_with_alice(1000);
    assert!(matches!(
        t.transfer(&env(ALICE, 14), addr(BOB), w(10)),
        Err(Erc20Error::CoolDownRestriction(_))
    ));
    assert!(t.transfer(&env(ALICE, 15), addr(BOB), w(10)).is_ok());
}

#[test]
fn admin_skips_cooldown_in_stake_control() {
    let mut t = token_with_alice(1000);
    t.transfer(&env(ALICE, 200), addr(BOB), w(10)).unwrap();
    assert_eq!(t.stake_control(&env(ADMIN, 201), addr(ALICE), w(40)).unwrap(), true);
    assert_eq!(t.balance_of(addr(ADMIN)), w(40));
    assert_eq!(t.balance_of(addr(ALICE)), w(950));
}

#[test]
fn stake_control_is_admin_only() {
    let mut t = token_with_alice(1000);
    assert!(matches!(
        t.stake_control(&env(BOB, 201), addr(ALICE), w(40)),
        Err(Erc20Error::RestrictedCall(_))
    ));
}

#[test]
fn pause_blocks_and_unpause_restores() {
    let mut t = token_with_alice(1000);
    assert!(matches!(t.pause(&env(ALICE, 1)), Err(Erc20Error::RestrictedCall(_))));
    t.pause(&env(ADMIN, 1)).unwrap();
    assert!(t.is_paused());
    match t.transfer(&env(ALICE, 300), addr(BOB), w(10)) {
        Err(Erc20Error::SystemPause(e)) => {
            assert!(e.is_system_paused);
            assert_eq!(e.time_stamp, w(300));
        }
        _ => panic!("expected SystemPause"),
    }
    assert!(matches!(t.unpause(&env(BOB, 1)), Err(Erc20Error::RestrictedCall(_))));
    t.unpause(&env(ADMIN, 1)).unwrap();
    assert!(!t.is_paused());
    assert!(t.transfer(&env(ALICE, 300), addr(BOB), w(10)).is_ok());
}

#[test]
fn approve_then_allowance() {
    let mut t = token_with_alice(1000);
    assert!(t.approve(&env(ALICE, 1), addr(BOB), w(77)));
    assert_eq!(t.allowance(addr(ALICE), addr(BOB)), w(77));
    assert_eq!(t.allowance(addr(BOB), addr(ALICE)), w(0));
    match t.events()[1] {
        Erc20Event::Approval(a) => {
            assert_eq!(a.owner, addr(ALICE));
            assert_eq!(a.spender, addr(BOB));
            assert_eq!(a.value, w(77));
        }
        _ => panic!("expected an approval event"),
    }
}

#[test]
fn transfer_from_spends_allowance() {
    let mut t = token_with_alice(1000);
    t.approve(&env(ALICE, 1), addr(BOB), w(100));
    assert_eq!(t.transfer_from(&env(BOB, 200), addr(ALICE), addr(BOB), w(60)).unwrap(), true);
    assert_eq!(t.allowance(addr(ALICE), addr(BOB)), w(40));
    assert_eq!(t.balance_of(addr(BOB)), w(60));
    match t.transfer_from(&env(BOB, 300), addr(ALICE), addr(BOB), w(41)) {
        Err(Erc20Error::InsufficientAllowance(e)) => {
            assert_eq!(e.owner, addr(ALICE));
            assert_eq!(e.spender, addr(BOB));
            assert_eq!(e.have, w(40));
            assert_eq!(e.want, w(41));
        }
        _ => panic!("expected InsufficientAllowance"),
    }
}

#[test]
fn failed_transfer_from_keeps_allowance() {
    let mut t = token_with_alice(1000);
    t.approve(&env(ALICE, 1), addr(BOB), w(100));
    t.pause(&env(ADMIN, 1)).unwrap();
    assert!(matches!(
        t.transfer_from(&env(BOB, 200), addr(ALICE), addr(BOB), w(60)),
        Err(Erc20Error::SystemPause(_))
    ));
    assert_eq!(t.allowance(addr(ALICE), addr(BOB)), w(100));
}

#[test]
fn burn_by_admin() {
    let mut t = token_with_alice(1000);
    t.burn(&env(ADMIN, 1), addr(ALICE), w(400)).unwrap();
    assert_eq!(t.balance_of(addr(ALICE)), w(600));
    assert_eq!(t.total_supply(), w(600));
    match t.burn(&env(ADMIN, 1), addr(ALICE), w(601)) {
        Err(Erc20Error::InsufficientBalance(e)) => {
            assert_eq!(e.have, w(600));
            assert_eq!(e.want, w(601));
        }
        _ => panic!("expected InsufficientBalance"),
    }
    assert!(matches!(t.burn(&env(ALICE, 1), addr(ALICE), w(1)), Err(Erc20Error::RestrictedCall(_))));
}

#[test]
fn mint_then_burn_restores() {
    let mut t = token_with_alice(1000);
    t.mint(&env(ADMIN, 1), addr(ALICE), w(123)).unwrap();
    t.burn(&env(ADMIN, 1), addr(ALICE), w(123)).unwrap();
    assert_eq!(t.balance_of(addr(ALICE)), w(1000));
    assert_eq!(t.total_supply(), w(1000));
}

#[test]
fn large_words_add_across_limbs() {
    let mut t: Erc20<Social> = Erc20::new();
    t.set_admin(addr(ADMIN));
    t.set_transaction_limit(&env(ADMIN, 1), U256 { l0: 0, l1: 1, l2: 0, l3: 0 }).unwrap();
    t.mint(&env(ADMIN, 1), addr(ALICE), w(u64::MAX / 100)).unwrap();
    t.mint(&env(ADMIN, 1), addr(BOB), w(u64::MAX / 100)).unwrap();
    t.transfer(&env(ALICE, 100), addr(BOB), w(u64::MAX / 100 - 50)).unwrap();
    assert_eq!(t.balance_of(addr(BOB)), w((u64::MAX / 100) * 2 - 50));
}

#[test]
fn set_admin_by_anyone() {
    let mut t = token_with_alice(1000);
    t.set_admin(addr(BOB));
    assert!(matches!(t.mint(&env(ADMIN, 1), addr(ALICE), w(1)), Err(Erc20Error::RestrictedCall(_))));
    assert!(t.mint(&env(BOB, 1), addr(ALICE), w(1)).is_ok());
}

#[test]
fn ledger_adds_up_after_activity() {
    let mut t = token_with_alice(1000);
    t.mint(&env(ADMIN, 1), addr(BOB), w(500)).unwrap();
    t.transfer(&env(ALICE, 100), addr(BOB), w(300)).unwrap();
    t.approve(&env(BOB, 100), addr(ALICE), w(200));
    t.transfer_from(&env(ALICE, 130), addr(BOB), addr(4), w(150)).unwrap();
    t.stake_control(&env(ADMIN, 131), addr(4), w(100)).unwrap();
    t.burn(&env(ADMIN, 132), addr(ALICE), w(10)).unwrap();
    let sum = [ADMIN, ALICE, BOB, 4]
        .iter()
        .map(|a| t.balance_of(addr(*a)).l0)
        .sum::<u64>();
    assert_eq!(w(sum), t.total_supply());
    assert_eq!(t.total_supply(), w(1490));
}
