//! An ERC-20 token with an admin, a per-transfer limit, a cooldown between an
//! account's transfers, a floor on what a sender keeps, a supply cap and a
//! pause switch.

use core::marker::PhantomData;
use vstd::prelude::*;
use crate::keymap::{AddressPair, KeyMap, MapKey};
use crate::word::{
    Address, Env, U256, less_than, limb_base, lemma_add_wraps, lemma_add_then_sub, lemma_sum_two, lemma_value_bounds, lemma_value_injective, lemma_add_exact, lemma_sub_exact, lemma_sum_bounds,
    lemma_sum_nonneg, lemma_sum_push, lemma_sum_update, sum_words, word_modulus, word_of,
    wrapping_add, wrapping_sub, zero_word,
};

verus! {

/// What a sender must keep after a transfer.
pub const MIN_BALANCE: u8 = 50;

/// Seconds that must pass between two transfers from one account.
pub const MIN_TRANSACTION_DELAY: u64 = 15;

/// The supply that minting must stay below.
pub const MAX_SUPPLY: u128 = 760_000_000_000_000_000;

/// The token's fixed name, symbol and decimals.
pub trait Erc20Params {
    /// Immutable token name
    const NAME: &'static str;

    /// Immutable token symbol
    const SYMBOL: &'static str;

    /// Immutable token decimals
    const DECIMALS: u8;
}

#[derive(Clone, Copy, Debug)]
pub struct InsufficientBalance {
    pub from: Address,
    pub have: U256,
    pub want: U256,
}

#[derive(Clone, Copy, Debug)]
pub struct InsufficientAllowance {
    pub owner: Address,
    pub spender: Address,
    pub have: U256,
    pub want: U256,
}

#[derive(Clone, Copy, Debug)]
pub struct RestrictedCall {
    pub caller: Address,
}

#[derive(Clone, Copy, Debug)]
pub struct CoolDownRestriction {
    pub caller: Address,
    pub last_time: U256,
}

#[derive(Clone, Copy, Debug)]
pub struct MaxTranscationReached {
    pub transaction_limit: U256,
    pub value: U256,
}

#[derive(Clone, Copy, Debug)]
pub struct SystemPause {
    pub is_system_paused: bool,
    pub time_stamp: U256,
}

#[derive(Clone, Copy, Debug)]
pub struct MaxSupplyExceed {
    pub max_supply: U256,
}

#[derive(Clone, Copy, Debug)]
pub struct InvalidParameter {
    pub from: Address,
    pub to: Address,
}

/// Represents the ways methods may fail.
#[derive(Clone, Copy, Debug)]
pub enum Erc20Error {
    InsufficientBalance(InsufficientBalance),
    InsufficientAllowance(InsufficientAllowance),
    RestrictedCall(RestrictedCall),
    CoolDownRestriction(CoolDownRestriction),
    MaxTranscationReached(MaxTranscationReached),
    SystemPause(SystemPause),
    MaxSupplyExceed(MaxSupplyExceed),
    InvalidParameter(InvalidParameter),
}

#[derive(Clone, Copy, Debug)]
pub struct Transfer {
    pub from: Address,
    pub to: Address,
    pub value: U256,
}

#[derive(Clone, Copy, Debug)]
pub struct Approval {
    pub owner: Address,
    pub spender: Address,
    pub value: U256,
}

/// The events that the token logs.
#[derive(Clone, Copy, Debug)]
pub enum Erc20Event {
    Transfer(Transfer),
    Approval(Approval),
}

/// The token's storage, every mapping read as a total map in which a slot
/// never written holds zero, and the log of emitted events.
pub struct Erc20View {
    pub admin: Address,
    pub balances: Map<Address, U256>,
    pub allowances: Map<AddressPair, U256>,
    pub total_supply: U256,
    pub last_transaction_time: Map<Address, U256>,
    pub transaction_limit: U256,
    pub pause: bool,
    pub log: Seq<Erc20Event>,
}

/// The word held for `k`, zero where nothing was written.
pub open spec fn read_word<K>(m: Map<K, U256>, k: K) -> U256 {
    if m.dom().contains(k) {
        m[k]
    } else {
        zero_word()
    }
}

/// A partial map read as a total one.
pub open spec fn total_map<K>(m: Map<K, U256>) -> Map<K, U256> {
    Map::new(|k: K| true, |k: K| read_word(m, k))
}

/// Erc20 implements all ERC-20 methods.
pub struct Erc20<T> {
    admin: Address,
    balances: KeyMap<Address, U256>,
    allowances: KeyMap<AddressPair, U256>,
    total_supply: U256,
    phantom: PhantomData<T>,
    last_transaction_time: KeyMap<Address, U256>,
    transaction_limit: U256,
    pause: bool,
    log: Vec<Erc20Event>,
}

impl<T> View for Erc20<T> {
    type V = Erc20View;

    closed spec fn view(&self) -> Erc20View {
        Erc20View {
            admin: self.admin,
            balances: total_map(self.balances@),
            allowances: total_map(self.allowances@),
            total_supply: self.total_supply,
            last_transaction_time: total_map(self.last_transaction_time@),
            transaction_limit: self.transaction_limit,
            pause: self.pause,
            log: self.log@,
        }
    }
}

/// The error `_transfer` fails with, first match first, if any.
pub open spec fn transfer_error(
    s: Erc20View,
    env: Env,
    from: Address,
    to: Address,
    value: U256,
) -> Option<Erc20Error> {
    let have = s.balances[from];
    let last = s.last_transaction_time[from];
    if from == to {
        Some(Erc20Error::InvalidParameter(InvalidParameter { from, to }))
    } else if s.pause {
        Some(
            Erc20Error::SystemPause(
                SystemPause { is_system_paused: true, time_stamp: word_of(env.timestamp) },
            ),
        )
    } else if s.transaction_limit.value() < value.value() {
        Some(
            Erc20Error::MaxTranscationReached(
                MaxTranscationReached { transaction_limit: s.transaction_limit, value },
            ),
        )
    } else if have.value() < value.value() + MIN_BALANCE {
        Some(Erc20Error::InsufficientBalance(InsufficientBalance { from, have, want: value }))
    } else if env.sender != s.admin && env.timestamp < (last.value() + MIN_TRANSACTION_DELAY)
        % word_modulus() {
        Some(Erc20Error::CoolDownRestriction(CoolDownRestriction { caller: from, last_time: last }))
    } else {
        None
    }
}

/// `Err` with the error where there is one, else `Ok` of `ok`.
pub open spec fn outcome<A>(e: Option<Erc20Error>, ok: A) -> Result<A, Erc20Error> {
    match e {
        Some(e) => Err(e),
        None => Ok(ok),
    }
}

/// `post` is `pre` after `value` moved from `from` to `to` at `env.timestamp`.
pub open spec fn transferred(
    pre: Erc20View,
    post: Erc20View,
    env: Env,
    from: Address,
    to: Address,
    value: U256,
) -> bool {
    &&& post == Erc20View {
        balances: pre.balances.insert(from, post.balances[from]).insert(to, post.balances[to]),
        last_transaction_time: pre.last_transaction_time.insert(from, word_of(env.timestamp)),
        log: pre.log.push(Erc20Event::Transfer(Transfer { from, to, value })),
        ..pre
    }
    &&& post.balances[from].value() == pre.balances[from].value() - value.value()
    &&& post.balances[to].value() == (pre.balances[to].value() + value.value()) % word_modulus()
}

/// The error `mint` fails with, if any.
pub open spec fn mint_error(s: Erc20View, env: Env, value: U256) -> Option<Erc20Error> {
    if env.sender != s.admin {
        Some(Erc20Error::RestrictedCall(RestrictedCall { caller: env.sender }))
    } else if (s.total_supply.value() + value.value()) % word_modulus() >= MAX_SUPPLY {
        Some(Erc20Error::MaxSupplyExceed(MaxSupplyExceed { max_supply: word_of(MAX_SUPPLY as u64) }))
    } else {
        None
    }
}

/// `post` is `pre` after `value` was minted to `address`.
pub open spec fn minted(pre: Erc20View, post: Erc20View, address: Address, value: U256) -> bool {
    &&& post == Erc20View {
        balances: pre.balances.insert(address, post.balances[address]),
        total_supply: post.total_supply,
        log: pre.log.push(
            Erc20Event::Transfer(Transfer { from: Address::spec_zero(), to: address, value }),
        ),
        ..pre
    }
    &&& post.balances[address].value() == (pre.balances[address].value() + value.value())
        % word_modulus()
    &&& post.total_supply.value() == (pre.total_supply.value() + value.value()) % word_modulus()
}

/// The error `burn` fails with, if any.
pub open spec fn burn_error(s: Erc20View, env: Env, address: Address, value: U256) -> Option<
    Erc20Error,
> {
    if env.sender != s.admin {
        Some(Erc20Error::RestrictedCall(RestrictedCall { caller: env.sender }))
    } else if s.balances[address].value() < value.value() {
        Some(
            Erc20Error::InsufficientBalance(
                InsufficientBalance { from: address, have: s.balances[address], want: value },
            ),
        )
    } else {
        None
    }
}

/// `post` is `pre` after `value` was burnt from `address`.
pub open spec fn burnt(pre: Erc20View, post: Erc20View, address: Address, value: U256) -> bool {
    &&& post == Erc20View {
        balances: pre.balances.insert(address, post.balances[address]),
        total_supply: post.total_supply,
        log: pre.log.push(
            Erc20Event::Transfer(Transfer { from: address, to: Address::spec_zero(), value }),
        ),
        ..pre
    }
    &&& post.balances[address].value() == pre.balances[address].value() - value.value()
    &&& post.total_supply.value() == (pre.total_supply.value() - value.value()) % word_modulus()
}

/// The error `transfer_from` fails with, if any.
pub open spec fn transfer_from_error(
    s: Erc20View,
    env: Env,
    from: Address,
    to: Address,
    value: U256,
) -> Option<Erc20Error> {
    let key = AddressPair { first: from, second: env.sender };
    if s.allowances[key].value() < value.value() {
        Some(
            Erc20Error::InsufficientAllowance(
                InsufficientAllowance {
                    owner: from,
                    spender: env.sender,
                    have: s.allowances[key],
                    want: value,
                },
            ),
        )
    } else {
        transfer_error(s, env, from, to, value)
    }
}

/// The error of a call that only the admin may make, if any.
pub open spec fn admin_error(s: Erc20View, env: Env) -> Option<Erc20Error> {
    if env.sender != s.admin {
        Some(Erc20Error::RestrictedCall(RestrictedCall { caller: env.sender }))
    } else {
        None
    }
}

/// The step of a sum of balances: add `a`'s balance.
pub open spec fn add_balance(m: Map<Address, U256>) -> spec_fn(int, Address) -> int {
    |acc: int, a: Address| acc + m[a].value()
}

/// The sum of the balances that `m` gives the accounts of `s`.
pub open spec fn sum_over(m: Map<Address, U256>, s: Set<Address>) -> int {
    s.fold(0int, add_balance(m))
}

proof fn lemma_add_balance_commutes(m: Map<Address, U256>)
    ensures
        vstd::set::fold::is_fun_commutative(add_balance(m)),
{
}

/// Summing over the keys of a list with distinct keys adds up its values.
proof fn lemma_sum_over_list(m: Map<Address, U256>, ks: Seq<Address>, vs: Seq<U256>)
    requires
        ks.len() == vs.len(),
        forall|i: int, j: int| 0 <= i < j < ks.len() ==> ks[i] != ks[j],
        forall|i: int| 0 <= i < ks.len() ==> #[trigger] m[ks[i]] == vs[i],
    ensures
        ks.to_set().finite(),
        sum_over(m, ks.to_set()) == sum_words(vs),
    decreases ks.len(),
{
    vstd::seq_lib::seq_to_set_is_finite(ks);
    lemma_add_balance_commutes(m);
    if ks.len() == 0 {
        assert(ks.to_set() =~= Set::<Address>::empty());
        vstd::set::fold::lemma_fold_empty(0int, add_balance(m));
    } else {
        let ks0 = ks.drop_last();
        let vs0 = vs.drop_last();
        let k = ks.last();
        assert forall|i: int| 0 <= i < ks0.len() implies #[trigger] m[ks0[i]] == vs0[i] by {
            assert(m[ks[i]] == vs[i]);
        }
        lemma_sum_over_list(m, ks0, vs0);
        assert(ks.to_set() =~= ks0.to_set().insert(k)) by {
            assert forall|x: Address| #[trigger] ks.to_set().contains(x) <==> ks0.to_set().insert(
                k,
            ).contains(x) by {
                if ks.contains(x) {
                    let i = choose|i: int| 0 <= i < ks.len() && ks[i] == x;
                    if i < ks.len() - 1 {
                        assert(ks0[i] == x);
                    }
                }
                if ks0.contains(x) {
                    let i = choose|i: int| 0 <= i < ks0.len() && ks0[i] == x;
                    assert(ks[i] == x);
                }
                if x == k {
                    assert(ks[ks.len() - 1] == x);
                }
            }
        }
        assert(!ks0.to_set().contains(k)) by {
            if ks0.contains(k) {
                let i = choose|i: int| 0 <= i < ks0.len() && ks0[i] == k;
                assert(ks[i] != ks[ks.len() - 1]);
            }
        }
        vstd::set::fold::lemma_fold_insert(ks0.to_set(), 0int, add_balance(m), k);
        assert(m[ks[ks.len() - 1]] == vs[vs.len() - 1]);
    }
}

/// Accounts with a zero balance add nothing to a sum.
proof fn lemma_sum_over_zeros(m: Map<Address, U256>, t: Set<Address>, u: Set<Address>)
    requires
        u.finite(),
        t.subset_of(u),
        forall|a: Address| u.contains(a) && !t.contains(a) ==> #[trigger] m[a].value() == 0,
    ensures
        sum_over(m, u) == sum_over(m, t),
    decreases u.len(),
{
    lemma_add_balance_commutes(m);
    if u =~= t {
    } else {
        let a = choose|a: Address| u.contains(a) && !t.contains(a);
        let u0 = u.remove(a);
        lemma_sum_over_zeros(m, t, u0);
        vstd::set::fold::lemma_fold_insert(u0, 0int, add_balance(m), a);
        assert(u0.insert(a) =~= u);
    }
}

impl<T> Erc20<T> {
    /// `balance_sum` is the sum of the balances of any finite set of
    /// accounts that holds every account with a nonzero balance.
    pub proof fn lemma_balance_sum_is_sum_of_balances(&self, accounts: Set<Address>)
        requires
            self.wf(),
            accounts.finite(),
            forall|a: Address| #[trigger] self@.balances[a].value() != 0 ==> accounts.contains(a),
        ensures
            sum_over(self@.balances, accounts) == self.balance_sum(),
    {
        let m = self@.balances;
        let ks = self.balances.keys();
        let vs = self.balances.values();
        self.balances.lemma_entries();
        assert forall|i: int| 0 <= i < ks.len() implies #[trigger] m[ks[i]] == vs[i] by {
            assert(self.balances@.dom().contains(ks[i]));
            assert(self.balances@[ks[i]] == vs[i]);
        }
        lemma_sum_over_list(m, ks, vs);
        let keyset = ks.to_set();
        let common = accounts.intersect(keyset);
        assert forall|a: Address| accounts.contains(a) && !common.contains(a) implies #[trigger] m[a].value() == 0 by {
            assert(!self.balances@.dom().contains(a));
        }
        lemma_sum_over_zeros(m, common, accounts);
        assert forall|a: Address| keyset.contains(a) && !common.contains(a) implies #[trigger] m[a].value() == 0 by {
            if m[a].value() != 0 {
                assert(accounts.contains(a));
            }
        }
        lemma_sum_over_zeros(m, common, keyset);
    }
}

/// Where the ledger adds up, the balances of every finite set of accounts
/// that holds all accounts with a nonzero balance sum to the total supply.
pub proof fn law_balances_sum_to_supply<T>(token: &Erc20<T>, accounts: Set<Address>)
    requires
        token.wf(),
        token.balances_add_up(),
        accounts.finite(),
        forall|a: Address| #[trigger] token@.balances[a].value() != 0 ==> accounts.contains(a),
    ensures
        sum_over(token@.balances, accounts) == token@.total_supply.value(),
{
    token.lemma_balance_sum_is_sum_of_balances(accounts);
}

impl<T> Erc20<T> {
    /// The maps line up.
    pub closed spec fn wf(&self) -> bool {
        &&& self.balances.wf()
        &&& self.allowances.wf()
        &&& self.last_transaction_time.wf()
    }

    /// The sum of all balances (the accounts never written hold zero).
    pub closed spec fn balance_sum(&self) -> int {
        sum_words(self.balances.values())
    }

    /// The balances sum to the total supply.
    pub open spec fn balances_add_up(&self) -> bool {
        self.balance_sum() == self@.total_supply.value()
    }

    /// The ledger adds up: the balances sum to the total supply, which is
    /// below the cap.
    pub open spec fn supply_consistent(&self) -> bool {
        &&& self.balances_add_up()
        &&& self@.total_supply.value() < MAX_SUPPLY
    }

    /// The view's maps hold every key: a key never written reads as zero.
    pub proof fn lemma_view_is_total(&self)
        ensures
            forall|a: Address| #[trigger] self@.balances.dom().contains(a),
            forall|k: AddressPair| #[trigger] self@.allowances.dom().contains(k),
            forall|a: Address| #[trigger] self@.last_transaction_time.dom().contains(a),
    {
    }

    /// Two accounts together hold at most the sum of all balances.
    pub proof fn lemma_two_balances_at_most_sum(&self, a: Address, b: Address)
        requires
            self.wf(),
            a != b,
        ensures
            self@.balances[a].value() + self@.balances[b].value() <= self.balance_sum(),
    {
        self.balances.lemma_values();
        self.lemma_balance_at_most_sum(a);
        self.lemma_balance_at_most_sum(b);
        if self.balances@.dom().contains(a) && self.balances@.dom().contains(b) {
            assert(self.balances@.dom().contains(a));
            assert(self.balances@.dom().contains(b));
            let i = self.balances.slot(a);
            let j = self.balances.slot(b);
            assert(self@.balances[a] == self.balances@[a]);
            assert(self@.balances[b] == self.balances@[b]);
            lemma_sum_two(self.balances.values(), i, j);
        } else if self.balances@.dom().contains(a) {
            assert(self@.balances[b] == zero_word());
        } else {
            assert(self@.balances[a] == zero_word());
        }
    }

    /// No account holds more than the sum of all balances.
    pub proof fn lemma_balance_at_most_sum(&self, a: Address)
        requires
            self.wf(),
        ensures
            0 <= self@.balances[a].value() <= self.balance_sum(),
    {
        self.balances.lemma_values();
        lemma_sum_nonneg(self.balances.values());
        if self.balances@.dom().contains(a) {
            assert(self.balances@.dom().contains(a));
            lemma_sum_bounds(self.balances.values(), self.balances.slot(a));
            assert(self@.balances[a] == self.balances@[a]);
        } else {
            assert(self@.balances[a] == zero_word());
        }
    }

    proof fn lemma_sum_after_insert(&self, new: &Self, a: Address, w: U256)
        requires
            self.wf(),
            new.balances.values() == (if self.balances@.dom().contains(a) {
                self.balances.values().update(self.balances.slot(a), w)
            } else {
                self.balances.values().push(w)
            }),
        ensures
            new.balance_sum() == self.balance_sum() - self@.balances[a].value() + w.value(),
    {
        self.balances.lemma_values();
        if self.balances@.dom().contains(a) {
            lemma_sum_update(self.balances.values(), self.balances.slot(a), w);
        } else {
            lemma_sum_push(self.balances.values(), w);
        }
    }
}

impl<T> Erc20<T> {
    /// A token with no balances, no allowances, no supply, a zero admin and a
    /// zero transfer limit, not paused: freshly deployed storage.
    pub fn new() -> (r: Self)
        ensures
            r.wf(),
            r.supply_consistent(),
            r@ == (Erc20View {
                admin: Address::spec_zero(),
                balances: Map::new(|a: Address| true, |a: Address| zero_word()),
                allowances: Map::new(|k: AddressPair| true, |k: AddressPair| zero_word()),
                total_supply: zero_word(),
                last_transaction_time: Map::new(|a: Address| true, |a: Address| zero_word()),
                transaction_limit: zero_word(),
                pause: false,
                log: Seq::empty(),
            }),
    {
        let r = Erc20 {
            admin: Address::zero(),
            balances: KeyMap::new(),
            allowances: KeyMap::new(),
            total_supply: U256::zero(),
            phantom: PhantomData,
            last_transaction_time: KeyMap::new(),
            transaction_limit: U256::zero(),
            pause: false,
            log: Vec::new(),
        };
        assert(r@.balances =~= Map::new(|a: Address| true, |a: Address| zero_word()));
        assert(r@.allowances =~= Map::new(|k: AddressPair| true, |k: AddressPair| zero_word()));
        assert(r@.last_transaction_time =~= Map::new(|a: Address| true, |a: Address| zero_word()));
        r
    }

    fn read_balance(&self, a: &Address) -> (r: U256)
        requires
            self.wf(),
        ensures
            r == self@.balances[*a],
    {
        match self.balances.get(a) {
            Some(w) => *w,
            None => U256::zero(),
        }
    }

    fn read_last_time(&self, a: &Address) -> (r: U256)
        requires
            self.wf(),
        ensures
            r == self@.last_transaction_time[*a],
    {
        match self.last_transaction_time.get(a) {
            Some(w) => *w,
            None => U256::zero(),
        }
    }

    fn read_allowance(&self, k: &AddressPair) -> (r: U256)
        requires
            self.wf(),
        ensures
            r == self@.allowances[*k],
    {
        match self.allowances.get(k) {
            Some(w) => *w,
            None => U256::zero(),
        }
    }

    fn write_balance(&mut self, a: Address, w: U256)
        requires
            old(self).wf(),
        ensures
            final(self).wf(),
            final(self)@ == (Erc20View { balances: old(self)@.balances.insert(a, w), ..old(self)@ }),
            final(self).balance_sum() == old(self).balance_sum() - old(self)@.balances[a].value()
                + w.value(),
    {
        let ghost pre = *self;
        self.balances.insert(a, w);
        assert(self@.balances =~= pre@.balances.insert(a, w));
        proof {
            pre.lemma_sum_after_insert(self, a, w);
        }
    }

    /// Movement of funds between 2 accounts
    /// (invoked by the external transfer() and transfer_from() functions ).
    ///
    /// Fails, and changes nothing, when `from` is `to`, when paused, when
    /// `value` is above the transfer limit, when `from` would keep less than
    /// `MIN_BALANCE`, or when a caller other than the admin moves funds of an
    /// account within `MIN_TRANSACTION_DELAY` seconds of its last transfer.
    pub fn _transfer(&mut self, env: &Env, from: Address, to: Address, value: U256) -> (r: Result<
        (),
        Erc20Error,
    >)
        requires
            old(self).wf(),
        ensures
            final(self).wf(),
            r == outcome(transfer_error(old(self)@, *env, from, to, value), ()),
            r is Ok ==> transferred(old(self)@, final(self)@, *env, from, to, value),
            r is Err ==> final(self)@ == old(self)@,
            old(self).balances_add_up() ==> final(self).balances_add_up(),
            old(self).supply_consistent() ==> final(self).supply_consistent(),
            old(self).balances_add_up() && r is Ok ==> final(self)@.balances[to].value()
                == old(self)@.balances[to].value() + value.value(),
    {
        if from.same(&to) {
            return Err(Erc20Error::InvalidParameter(InvalidParameter { from, to }));
        }
        let transaction_limit = self.transaction_limit;
        let old_sender_balance = self.read_balance(&from);
        if self.pause {
            return Err(
                Erc20Error::SystemPause(
                    SystemPause { is_system_paused: true, time_stamp: U256::from_u64(env.timestamp) },
                ),
            );
        }
        if less_than(transaction_limit, value) {
            return Err(
                Erc20Error::MaxTranscationReached(MaxTranscationReached { transaction_limit, value }),
            );
        }
        let remaining_balance = wrapping_sub(old_sender_balance, value);
        proof {
            if old_sender_balance.value() >= value.value() {
                lemma_sub_exact(old_sender_balance, value, remaining_balance);
            }
        }
        if less_than(old_sender_balance, value) || less_than(
            remaining_balance,
            U256::from_u64(MIN_BALANCE as u64),
        ) {
            return Err(
                Erc20Error::InsufficientBalance(
                    InsufficientBalance { from, have: old_sender_balance, want: value },
                ),
            );
        }
        proof {
            lemma_sub_exact(old_sender_balance, value, remaining_balance);
        }
        let last_time = self.read_last_time(&from);
        if !env.sender.same(&self.admin) {
            let until = wrapping_add(last_time, U256::from_u64(MIN_TRANSACTION_DELAY));
            if less_than(U256::from_u64(env.timestamp), until) {
                return Err(
                    Erc20Error::CoolDownRestriction(
                        CoolDownRestriction { caller: from, last_time },
                    ),
                );
            }
        }
        let ghost pre = *self;
        self.write_balance(from, remaining_balance);
        let ghost mid = *self;
        let to_balance = self.read_balance(&to);
        let new_to_balance = wrapping_add(to_balance, value);
        self.write_balance(to, new_to_balance);
        self.last_transaction_time.insert(from, U256::from_u64(env.timestamp));
        self.log.push(Erc20Event::Transfer(Transfer { from, to, value }));
        proof {
            assert(self@.last_transaction_time =~= pre@.last_transaction_time.insert(
                from,
                word_of(env.timestamp),
            ));
            assert(self@.balances =~= pre@.balances.insert(from, self@.balances[from]).insert(
                to,
                self@.balances[to],
            ));
            if pre.balances_add_up() {
                mid.lemma_balance_at_most_sum(to);
                lemma_value_bounds(pre.total_supply);
                lemma_add_exact(to_balance, value, new_to_balance);
            }
        }
        Ok(())
    }

    /// Mints `value` tokens to `address`.
    ///
    /// Only the admin may mint, and only while the new supply, summed in
    /// 256-bit words as the token sums it, is below `MAX_SUPPLY`. A `value`
    /// that carries the sum past 2^256 wraps it, and the mint goes through
    /// where the wrapped sum is below the cap; the balances then no longer
    /// add up to the supply.
    pub fn mint(&mut self, env: &Env, address: Address, value: U256) -> (r: Result<(), Erc20Error>)
        requires
            old(self).wf(),
        ensures
            final(self).wf(),
            r == outcome(mint_error(old(self)@, *env, value), ()),
            r is Ok ==> minted(old(self)@, final(self)@, address, value),
            r is Err ==> final(self)@ == old(self)@,
            r is Ok ==> final(self)@.total_supply.value() < MAX_SUPPLY,
            old(self).balances_add_up() && old(self)@.total_supply.value() + value.value()
                < word_modulus() ==> final(self).balances_add_up(),
            old(self).supply_consistent() && old(self)@.total_supply.value() + value.value()
                < word_modulus() ==> final(self).supply_consistent(),
    {
        if !env.sender.same(&self.admin) {
            return Err(Erc20Error::RestrictedCall(RestrictedCall { caller: env.sender }));
        }
        // this is to make sure that the max supply is not exceeded
        let supply_test = wrapping_add(self.total_supply, value);
        if !less_than(supply_test, U256::from_u64(MAX_SUPPLY as u64)) {
            return Err(
                Erc20Error::MaxSupplyExceed(
                    MaxSupplyExceed { max_supply: U256::from_u64(MAX_SUPPLY as u64) },
                ),
            );
        }
        let ghost pre = *self;
        let balance = self.read_balance(&address);
        let new_balance = wrapping_add(balance, value);
        self.write_balance(address, new_balance);
        self.total_supply = wrapping_add(self.total_supply, value);
        self.log.push(
            Erc20Event::Transfer(Transfer { from: Address::zero(), to: address, value }),
        );
        proof {
            assert(self@.balances =~= pre@.balances.insert(address, self@.balances[address]));
            if pre.balances_add_up() && pre@.total_supply.value() + value.value()
                < word_modulus() {
                pre.lemma_balance_at_most_sum(address);
                lemma_add_exact(balance, value, new_balance);
                lemma_add_exact(pre.total_supply, value, self.total_supply);
            }
        }
        Ok(())
    }

    /// Burns `value` tokens from `address`; only the admin may burn.
    pub fn burn(&mut self, env: &Env, address: Address, value: U256) -> (r: Result<(), Erc20Error>)
        requires
            old(self).wf(),
        ensures
            final(self).wf(),
            r == outcome(burn_error(old(self)@, *env, address, value), ()),
            r is Ok ==> burnt(old(self)@, final(self)@, address, value),
            r is Err ==> final(self)@ == old(self)@,
            old(self).balances_add_up() ==> final(self).balances_add_up(),
            old(self).supply_consistent() ==> final(self).supply_consistent(),
            old(self).balances_add_up() && r is Ok ==> final(self)@.total_supply.value()
                == old(self)@.total_supply.value() - value.value(),
    {
        if !env.sender.same(&self.admin) {
            return Err(Erc20Error::RestrictedCall(RestrictedCall { caller: env.sender }));
        }
        let old_balance = self.read_balance(&address);
        if less_than(old_balance, value) {
            return Err(
                Erc20Error::InsufficientBalance(
                    InsufficientBalance { from: address, have: old_balance, want: value },
                ),
            );
        }
        let ghost pre = *self;
        let new_balance = wrapping_sub(old_balance, value);
        proof {
            lemma_sub_exact(old_balance, value, new_balance);
        }
        self.write_balance(address, new_balance);
        self.total_supply = wrapping_sub(self.total_supply, value);
        self.log.push(
            Erc20Event::Transfer(Transfer { from: address, to: Address::zero(), value }),
        );
        proof {
            assert(self@.balances =~= pre@.balances.insert(address, self@.balances[address]));
            if pre.balances_add_up() {
                pre.lemma_balance_at_most_sum(address);
                lemma_sub_exact(pre.total_supply, value, self.total_supply);
            }
        }
        Ok(())
    }
}


/// `post` is `pre` after `value` moved from `from` to `to` on the allowance
/// that `env.sender` holds on `from`'s tokens, which drops by `value`.
pub open spec fn transferred_on_allowance(
    pre: Erc20View,
    post: Erc20View,
    env: Env,
    from: Address,
    to: Address,
    value: U256,
) -> bool {
    let key = AddressPair { first: from, second: env.sender };
    &&& post.allowances == pre.allowances.insert(key, post.allowances[key])
    &&& post.allowances[key].value() == pre.allowances[key].value() - value.value()
    &&& transferred(Erc20View { allowances: post.allowances, ..pre }, post, env, from, to, value)
}

/// The error `stake_control` fails with, if any.
pub open spec fn stake_error(s: Erc20View, env: Env, from: Address, value: U256) -> Option<
    Erc20Error,
> {
    match admin_error(s, env) {
        Some(e) => Some(e),
        None => transfer_error(s, env, from, s.admin, value),
    }
}

impl<T: Erc20Params> Erc20<T> {
    /// Immutable token name
    pub fn name() -> (r: String)
        ensures
            r@ == T::NAME@,
    {
        String::from_str(T::NAME)
    }

    /// Immutable token symbol
    pub fn symbol() -> (r: String)
        ensures
            r@ == T::SYMBOL@,
    {
        String::from_str(T::SYMBOL)
    }

    /// Immutable token decimals
    pub fn decimals() -> (r: u8)
        ensures
            r == T::DECIMALS,
    {
        T::DECIMALS
    }
}

impl<T> Erc20<T> {
    /// Total supply of tokens
    pub fn total_supply(&self) -> (r: U256)
        ensures
            r == self@.total_supply,
    {
        self.total_supply
    }

    /// Balance of `address`
    pub fn balance_of(&self, owner: Address) -> (r: U256)
        requires
            self.wf(),
        ensures
            r == self@.balances[owner],
    {
        self.read_balance(&owner)
    }

    /// The events logged so far, oldest first.
    pub fn events(&self) -> (r: &Vec<Erc20Event>)
        ensures
            r@ == self@.log,
    {
        &self.log
    }

    /// Transfers `value` tokens from msg::sender() to `to`
    pub fn transfer(&mut self, env: &Env, to: Address, value: U256) -> (r: Result<bool, Erc20Error>)
        requires
            old(self).wf(),
        ensures
            final(self).wf(),
            r == outcome(transfer_error(old(self)@, *env, env.sender, to, value), true),
            r is Ok ==> transferred(old(self)@, final(self)@, *env, env.sender, to, value),
            r is Err ==> final(self)@ == old(self)@,
            old(self).balances_add_up() ==> final(self).balances_add_up(),
            old(self).supply_consistent() ==> final(self).supply_consistent(),
    {
        match self._transfer(env, env.sender, to, value) {
            Ok(()) => Ok(true),
            Err(e) => Err(e),
        }
    }

    /// Transfers `value` tokens from `from` to `to`
    /// (msg::sender() must be able to spend at least `value` tokens from `from`)
    pub fn transfer_from(&mut self, env: &Env, from: Address, to: Address, value: U256) -> (r:
        Result<bool, Erc20Error>)
        requires
            old(self).wf(),
        ensures
            final(self).wf(),
            r == outcome(transfer_from_error(old(self)@, *env, from, to, value), true),
            r is Ok ==> transferred_on_allowance(old(self)@, final(self)@, *env, from, to, value),
            r is Err ==> final(self)@ == old(self)@,
            old(self).balances_add_up() ==> final(self).balances_add_up(),
            old(self).supply_consistent() ==> final(self).supply_consistent(),
    {
        let key = AddressPair { first: from, second: env.sender };
        let old_allowance = self.read_allowance(&key);
        if less_than(old_allowance, value) {
            return Err(
                Erc20Error::InsufficientAllowance(
                    InsufficientAllowance {
                        owner: from,
                        spender: env.sender,
                        have: old_allowance,
                        want: value,
                    },
                ),
            );
        }
        let ghost pre = *self;
        match self._transfer(env, from, to, value) {
            Ok(()) => {},
            Err(e) => {
                return Err(e);
            },
        }
        let ghost mid = *self;
        let new_allowance = wrapping_sub(old_allowance, value);
        proof {
            lemma_sub_exact(old_allowance, value, new_allowance);
        }
        self.allowances.insert(key, new_allowance);
        proof {
            assert(self@.allowances =~= mid@.allowances.insert(key, new_allowance));
            assert(self.balance_sum() == mid.balance_sum());
        }
        Ok(true)
    }

    /// Moves `value` tokens from `from` to the admin; only the admin may call.
    pub fn stake_control(&mut self, env: &Env, from: Address, value: U256) -> (r: Result<
        bool,
        Erc20Error,
    >)
        requires
            old(self).wf(),
        ensures
            final(self).wf(),
            r == outcome(stake_error(old(self)@, *env, from, value), true),
            r is Ok ==> transferred(old(self)@, final(self)@, *env, from, old(self)@.admin, value),
            r is Err ==> final(self)@ == old(self)@,
            old(self).balances_add_up() ==> final(self).balances_add_up(),
            old(self).supply_consistent() ==> final(self).supply_consistent(),
    {
        if !env.sender.same(&self.admin) {
            return Err(Erc20Error::RestrictedCall(RestrictedCall { caller: env.sender }));
        }
        let admin_wallet = self.admin;
        match self._transfer(env, from, admin_wallet, value) {
            Ok(()) => Ok(true),
            Err(e) => Err(e),
        }
    }

    /// Approves the spenditure of `value` tokens of msg::sender() to `spender`
    pub fn approve(&mut self, env: &Env, spender: Address, value: U256) -> (r: bool)
        requires
            old(self).wf(),
        ensures
            final(self).wf(),
            r,
            final(self)@ == (Erc20View {
                allowances: old(self)@.allowances.insert(
                    AddressPair { first: env.sender, second: spender },
                    value,
                ),
                log: old(self)@.log.push(
                    Erc20Event::Approval(Approval { owner: env.sender, spender, value }),
                ),
                ..old(self)@
            }),
            final(self).balance_sum() == old(self).balance_sum(),
    {
        let ghost pre = *self;
        let key = AddressPair { first: env.sender, second: spender };
        self.allowances.insert(key, value);
        self.log.push(Erc20Event::Approval(Approval { owner: env.sender, spender, value }));
        proof {
            assert(self@.allowances =~= pre@.allowances.insert(key, value));
        }
        true
    }

    /// Returns the allowance of `spender` on `owner`'s tokens
    pub fn allowance(&self, owner: Address, spender: Address) -> (r: U256)
        requires
            self.wf(),
        ensures
            r == self@.allowances[AddressPair { first: owner, second: spender }],
    {
        self.read_allowance(&AddressPair { first: owner, second: spender })
    }

    /// Makes `admin` the admin; anyone may call.
    pub fn set_admin(&mut self, admin: Address)
        requires
            old(self).wf(),
        ensures
            final(self).wf(),
            final(self)@ == (Erc20View { admin, ..old(self)@ }),
            final(self).balance_sum() == old(self).balance_sum(),
    {
        self.admin = admin;
    }

    /// Sets the most that one transfer may move; only the admin may call.
    pub fn set_transaction_limit(&mut self, env: &Env, limit: U256) -> (r: Result<(), Erc20Error>)
        requires
            old(self).wf(),
        ensures
            final(self).wf(),
            r == outcome(admin_error(old(self)@, *env), ()),
            r is Ok ==> final(self)@ == (Erc20View { transaction_limit: limit, ..old(self)@ }),
            r is Err ==> final(self)@ == old(self)@,
            final(self).balance_sum() == old(self).balance_sum(),
    {
        if !env.sender.same(&self.admin) {
            return Err(Erc20Error::RestrictedCall(RestrictedCall { caller: env.sender }));
        }
        self.transaction_limit = limit;
        Ok(())
    }

    /// Stops all transfers; only the admin may call.
    pub fn pause(&mut self, env: &Env) -> (r: Result<(), Erc20Error>)
        requires
            old(self).wf(),
        ensures
            final(self).wf(),
            r == outcome(admin_error(old(self)@, *env), ()),
            r is Ok ==> final(self)@ == (Erc20View { pause: true, ..old(self)@ }),
            r is Err ==> final(self)@ == old(self)@,
            final(self).balance_sum() == old(self).balance_sum(),
    {
        if !env.sender.same(&self.admin) {
            return Err(Erc20Error::RestrictedCall(RestrictedCall { caller: env.sender }));
        }
        self.pause = true;
        Ok(())
    }

    /// Lets transfers run again; only the admin may call.
    pub fn unpause(&mut self, env: &Env) -> (r: Result<(), Erc20Error>)
        requires
            old(self).wf(),
        ensures
            final(self).wf(),
            r == outcome(admin_error(old(self)@, *env), ()),
            r is Ok ==> final(self)@ == (Erc20View { pause: false, ..old(self)@ }),
            r is Err ==> final(self)@ == old(self)@,
            final(self).balance_sum() == old(self).balance_sum(),
    {
        if !env.sender.same(&self.admin) {
            return Err(Erc20Error::RestrictedCall(RestrictedCall { caller: env.sender }));
        }
        self.pause = false;
        Ok(())
    }

    pub fn is_paused(&self) -> (r: bool)
        ensures
            r == self@.pause,
    {
        self.pause
    }
}

/// After `approve(spender, value)` by `owner`, `allowance(owner, spender)`
/// reads `value`.
pub proof fn law_allowance_reads_approval(
    pre: Erc20View,
    post: Erc20View,
    owner: Address,
    spender: Address,
    value: U256,
)
    requires
        post.allowances == pre.allowances.insert(
            AddressPair { first: owner, second: spender },
            value,
        ),
    ensures
        post.allowances[AddressPair { first: owner, second: spender }] == value,
{
}

/// A transfer that goes through leaves the sender at least `MIN_BALANCE`,
/// moves no more than the transfer limit, and happens only while unpaused.
pub proof fn law_transfer_guards(
    pre: Erc20View,
    post: Erc20View,
    env: Env,
    from: Address,
    to: Address,
    value: U256,
)
    requires
        transfer_error(pre, env, from, to, value) is None,
        transferred(pre, post, env, from, to, value),
    ensures
        post.balances[from].value() >= MIN_BALANCE,
        value.value() <= pre.transaction_limit.value(),
        !pre.pause,
        from != to,
{
}

/// While the token is paused every transfer fails, and the failure changes
/// nothing.
pub proof fn law_pause_blocks_transfers(
    s: Erc20View,
    env: Env,
    from: Address,
    to: Address,
    value: U256,
)
    requires
        s.pause,
    ensures
        transfer_error(s, env, from, to, value) is Some,
{
}

/// After a transfer out of `from` at time `t`, a caller other than the admin
/// cannot move `from`'s tokens again before `t + MIN_TRANSACTION_DELAY`.
pub proof fn law_cooldown(
    pre: Erc20View,
    post: Erc20View,
    env: Env,
    from: Address,
    to: Address,
    value: U256,
    later: Env,
    to2: Address,
    value2: U256,
)
    requires
        transferred(pre, post, env, from, to, value),
        later.sender != post.admin,
        later.timestamp < env.timestamp + MIN_TRANSACTION_DELAY,
    ensures
        transfer_error(post, later, from, to2, value2) is Some,
{
    let last = post.last_transaction_time[from];
    assert(last == word_of(env.timestamp));
    assert(last.value() + MIN_TRANSACTION_DELAY < word_modulus()) by {
        assert(limb_base() == 0x1_0000_0000_0000_0000);
        assert(word_modulus() == limb_base() * limb_base() * limb_base() * limb_base());
        assert(word_modulus() > limb_base()) by (nonlinear_arith)
            requires
                word_modulus() == limb_base() * limb_base() * limb_base() * limb_base(),
                limb_base() == 0x1_0000_0000_0000_0000,
        ;
    }
    vstd::arithmetic::div_mod::lemma_small_mod(
        (last.value() + MIN_TRANSACTION_DELAY) as nat,
        word_modulus() as nat,
    );
}

/// Where minting `value` to an account succeeds, burning `value` from it
/// right after succeeds too and gives every account and the supply back what
/// they held, provided the account's balance plus `value` stays below 2^256
/// (as it does where the balances add up to the supply and the supply plus
/// `value` stays below 2^256).
pub proof fn law_mint_then_burn(
    pre: Erc20View,
    mid: Erc20View,
    post: Erc20View,
    env: Env,
    address: Address,
    value: U256,
)
    requires
        mint_error(pre, env, value) is None,
        pre.balances.dom().contains(address),
        minted(pre, mid, address, value),
        pre.balances[address].value() + value.value() < word_modulus(),
        burnt(mid, post, address, value),
    ensures
        burn_error(mid, env, address, value) is None,
        post.balances == pre.balances,
        post.total_supply == pre.total_supply,
        post.admin == pre.admin,
        post.allowances == pre.allowances,
{
    lemma_value_bounds(pre.balances[address]);
    lemma_value_bounds(pre.total_supply);
    vstd::arithmetic::div_mod::lemma_small_mod(
        (pre.balances[address].value() + value.value()) as nat,
        word_modulus() as nat,
    );
    vstd::arithmetic::div_mod::lemma_small_mod(
        pre.total_supply.value() as nat,
        word_modulus() as nat,
    );
    lemma_add_then_sub(pre.total_supply, value, mid.total_supply, post.total_supply);
    lemma_value_injective(post.balances[address], pre.balances[address]);
    lemma_value_injective(post.total_supply, pre.total_supply);
    assert(post.balances =~= pre.balances);
}

/// Where the balances sum to the supply, a transfer moves value without
/// creating or destroying any: the two balances it touches keep their sum,
/// the total supply stays, and the balances still sum to it.
pub proof fn law_transfer_conserves<T>(
    pre: Erc20View,
    post: Erc20View,
    env: Env,
    from: Address,
    to: Address,
    value: U256,
    ledger: Erc20<T>,
)
    requires
        ledger.wf(),
        ledger@ == pre,
        ledger.balances_add_up(),
        transfer_error(pre, env, from, to, value) is None,
        transferred(pre, post, env, from, to, value),
    ensures
        post.balances[from].value() + post.balances[to].value() == pre.balances[from].value()
            + pre.balances[to].value(),
        post.total_supply == pre.total_supply,
{
    ledger.lemma_two_balances_at_most_sum(from, to);
    lemma_value_bounds(pre.total_supply);
    vstd::arithmetic::div_mod::lemma_small_mod(
        (pre.balances[to].value() + value.value()) as nat,
        word_modulus() as nat,
    );
}

/// A transfer stamps the time on the sender alone: every other account,
/// the recipient included, keeps its time of last transfer.
pub proof fn law_transfer_stamps_only_sender(
    pre: Erc20View,
    post: Erc20View,
    env: Env,
    from: Address,
    to: Address,
    value: U256,
)
    requires
        transferred(pre, post, env, from, to, value),
    ensures
        post.last_transaction_time[from] == word_of(env.timestamp),
        forall|a: Address| a != from ==> #[trigger] post.last_transaction_time[a]
            == pre.last_transaction_time[a],
{
}

/// What an account receives does not hold up its own transfers: an account
/// that never sent can send, once a transfer to it went through, at any time
/// from `MIN_TRANSACTION_DELAY` on, whoever calls.
pub proof fn law_receiving_does_not_start_cooldown(
    pre: Erc20View,
    post: Erc20View,
    env: Env,
    from: Address,
    to: Address,
    value: U256,
    later: Env,
    to2: Address,
    value2: U256,
)
    requires
        transferred(pre, post, env, from, to, value),
        from != to,
        pre.last_transaction_time[to].value() == 0,
        later.timestamp >= MIN_TRANSACTION_DELAY,
    ensures
        post.last_transaction_time[to].value() == 0,
        !(transfer_error(post, later, to, to2, value2) is Some && transfer_error(
            post,
            later,
            to,
            to2,
            value2,
        )->0 is CoolDownRestriction),
{
    assert(post.last_transaction_time[to] == pre.last_transaction_time[to]);
    assert(limb_base() == 0x1_0000_0000_0000_0000);
    assert(word_modulus() > limb_base()) by (nonlinear_arith)
        requires
            word_modulus() == limb_base() * limb_base() * limb_base() * limb_base(),
            limb_base() == 0x1_0000_0000_0000_0000,
    ;
    vstd::arithmetic::div_mod::lemma_small_mod(
        MIN_TRANSACTION_DELAY as nat,
        word_modulus() as nat,
    );
}

/// A spend on an allowance lowers the allowance that the caller holds on the
/// owner's tokens by the amount moved, and no other allowance.
pub proof fn law_transfer_from_spends_callers_allowance(
    pre: Erc20View,
    post: Erc20View,
    env: Env,
    from: Address,
    to: Address,
    value: U256,
)
    requires
        transferred_on_allowance(pre, post, env, from, to, value),
    ensures
        post.allowances[(AddressPair { first: from, second: env.sender })].value()
            == pre.allowances[(AddressPair { first: from, second: env.sender })].value()
            - value.value(),
        forall|k: AddressPair|
            k != (AddressPair { first: from, second: env.sender }) ==> #[trigger] post.allowances[k]
                == pre.allowances[k],
        post.balances[from].value() == pre.balances[from].value() - value.value(),
{
}

/// The admin can mint exactly while the new supply, summed in 256-bit words,
/// stays below `MAX_SUPPLY`; anyone else never can. The pause switch, the
/// balances and the allowances play no part.
pub proof fn law_mint_allowed(s: Erc20View, env: Env, value: U256, paused: bool)
    ensures
        (mint_error(s, env, value) is None) == (env.sender == s.admin && (s.total_supply.value()
            + value.value()) % word_modulus() < MAX_SUPPLY),
        mint_error((Erc20View { pause: paused, ..s }), env, value) == mint_error(s, env, value),
{
}

/// A transfer moves `value` out of `from` and into `to` (modulo 2^256), logs
/// it, and touches no other balance, no allowance, nor the supply, the
/// admin, the limit or the pause switch.
pub proof fn law_transfer_effects(
    pre: Erc20View,
    post: Erc20View,
    env: Env,
    from: Address,
    to: Address,
    value: U256,
)
    requires
        transferred(pre, post, env, from, to, value),
        from != to,
    ensures
        post.balances[from].value() == pre.balances[from].value() - value.value(),
        post.balances[to].value() == (pre.balances[to].value() + value.value()) % word_modulus(),
        forall|a: Address| a != from && a != to ==> #[trigger] post.balances[a] == pre.balances[a],
        post.allowances == pre.allowances,
        post.total_supply == pre.total_supply,
        post.admin == pre.admin,
        post.transaction_limit == pre.transaction_limit,
        post.pause == pre.pause,
        post.log.len() == pre.log.len() + 1,
        post.log.last() == Erc20Event::Transfer(Transfer { from, to, value }),
{
}

/// A transfer goes through exactly when `from` and `to` differ, the token
/// is not paused, `value` is within the limit, `from` keeps at least
/// `MIN_BALANCE`, and either the admin calls or `from`'s last transfer is at
/// least `MIN_TRANSACTION_DELAY` seconds old (its end taken modulo 2^256).
pub proof fn law_transfer_allowed(s: Erc20View, env: Env, from: Address, to: Address, value: U256)
    ensures
        (transfer_error(s, env, from, to, value) is None) == (from != to && !s.pause
            && value.value() <= s.transaction_limit.value() && s.balances[from].value()
            >= value.value() + MIN_BALANCE && (env.sender == s.admin || env.timestamp >= (
        s.last_transaction_time[from].value() + MIN_TRANSACTION_DELAY) % word_modulus())),
{
}

/// A mint adds `value` (modulo 2^256) to the account and to the supply, logs
/// it as a transfer from the zero address, and touches nothing else.
pub proof fn law_mint_effects(pre: Erc20View, post: Erc20View, address: Address, value: U256)
    requires
        minted(pre, post, address, value),
    ensures
        post.balances[address].value() == (pre.balances[address].value() + value.value())
            % word_modulus(),
        post.total_supply.value() == (pre.total_supply.value() + value.value()) % word_modulus(),
        forall|a: Address| a != address ==> #[trigger] post.balances[a] == pre.balances[a],
        post.allowances == pre.allowances,
        post.last_transaction_time == pre.last_transaction_time,
        post.pause == pre.pause,
        post.admin == pre.admin,
        post.log.last() == Erc20Event::Transfer(
            Transfer { from: Address::spec_zero(), to: address, value },
        ),
{
}

/// A burn takes `value` from the account and from the supply, logs it as a
/// transfer to the zero address, and touches nothing else.
pub proof fn law_burn_effects(pre: Erc20View, post: Erc20View, address: Address, value: U256)
    requires
        burnt(pre, post, address, value),
    ensures
        post.balances[address].value() == pre.balances[address].value() - value.value(),
        post.total_supply.value() == (pre.total_supply.value() - value.value()) % word_modulus(),
        forall|a: Address| a != address ==> #[trigger] post.balances[a] == pre.balances[a],
        post.allowances == pre.allowances,
        post.last_transaction_time == pre.last_transaction_time,
        post.pause == pre.pause,
        post.admin == pre.admin,
        post.log.last() == Erc20Event::Transfer(
            Transfer { from: address, to: Address::spec_zero(), value },
        ),
{
}

} // verus!
