//! Machine words of the contracts: 256-bit unsigned integers and 20-byte
//! account addresses, held as plain integers.

use vstd::prelude::*;

verus! {

/// 2^64, the weight of one limb.
pub open spec fn limb_base() -> int {
    0x1_0000_0000_0000_0000
}

/// 2^256, the modulus of 256-bit arithmetic.
pub open spec fn word_modulus() -> int {
    limb_base() * limb_base() * limb_base() * limb_base()
}

/// A 256-bit unsigned integer as four little-endian 64-bit limbs.
#[derive(Clone, Copy, PartialEq, Eq, Structural, Debug)]
pub struct U256 {
    pub l0: u64,
    pub l1: u64,
    pub l2: u64,
    pub l3: u64,
}

impl U256 {
    /// The number that the limbs stand for.
    pub open spec fn value(self) -> int {
        self.l0 + self.l1 * limb_base() + self.l2 * (limb_base() * limb_base()) + self.l3 * (
        limb_base() * limb_base() * limb_base())
    }

    /// The word zero.
    pub fn zero() -> (r: U256)
        ensures
            r == zero_word(),
            r.value() == 0,
    {
        U256 { l0: 0, l1: 0, l2: 0, l3: 0 }
    }

    /// The word holding `x`.
    pub fn from_u64(x: u64) -> (r: U256)
        ensures
            r == word_of(x),
            r.value() == x,
    {
        U256 { l0: x, l1: 0, l2: 0, l3: 0 }
    }
}

/// Every word lies in `[0, 2^256)`.
pub proof fn lemma_value_bounds(a: U256)
    ensures
        0 <= a.value() < word_modulus(),
{
    assert(a.value() < word_modulus()) by (nonlinear_arith)
        requires
            a.l0 < limb_base(),
            a.l1 < limb_base(),
            a.l2 < limb_base(),
            a.l3 < limb_base(),
            a.value() == a.l0 + a.l1 * limb_base() + a.l2 * (limb_base() * limb_base()) + a.l3 * (
            limb_base() * limb_base() * limb_base()),
            limb_base() == 0x1_0000_0000_0000_0000,
            word_modulus() == limb_base() * limb_base() * limb_base() * limb_base(),
    ;
}

/// Two words that stand for the same number are the same word.
pub proof fn lemma_value_injective(a: U256, b: U256)
    requires
        a.value() == b.value(),
    ensures
        a == b,
{
    assert(a.l0 == b.l0 && a.l1 == b.l1 && a.l2 == b.l2 && a.l3 == b.l3) by (nonlinear_arith)
        requires
            a.value() == b.value(),
            a.value() == a.l0 + a.l1 * limb_base() + a.l2 * (limb_base() * limb_base()) + a.l3 * (
            limb_base() * limb_base() * limb_base()),
            b.value() == b.l0 + b.l1 * limb_base() + b.l2 * (limb_base() * limb_base()) + b.l3 * (
            limb_base() * limb_base() * limb_base()),
            limb_base() == 0x1_0000_0000_0000_0000,
    ;
}

/// Sum modulo 2^256, computed by `+` on `alloy_primitives::U256`, which ruint
/// defines as `wrapping_add`.
#[verifier::external_body]
pub(crate) fn wrapping_add(a: U256, b: U256) -> (r: U256)
    ensures
        r.value() == (a.value() + b.value()) % word_modulus(),
{
    let x = alloy_primitives::U256::from_limbs([a.l0, a.l1, a.l2, a.l3]);
    let y = alloy_primitives::U256::from_limbs([b.l0, b.l1, b.l2, b.l3]);
    let l = (x + y).into_limbs();
    U256 { l0: l[0], l1: l[1], l2: l[2], l3: l[3] }
}

/// Difference modulo 2^256, computed by `-` on `alloy_primitives::U256`, which
/// ruint defines as `wrapping_sub`.
#[verifier::external_body]
pub(crate) fn wrapping_sub(a: U256, b: U256) -> (r: U256)
    ensures
        r.value() == (a.value() - b.value()) % word_modulus(),
{
    let x = alloy_primitives::U256::from_limbs([a.l0, a.l1, a.l2, a.l3]);
    let y = alloy_primitives::U256::from_limbs([b.l0, b.l1, b.l2, b.l3]);
    let l = (x - y).into_limbs();
    U256 { l0: l[0], l1: l[1], l2: l[2], l3: l[3] }
}

/// `a < b` on `alloy_primitives::U256`: ruint orders words by the numbers
/// they stand for.
#[verifier::external_body]
pub(crate) fn less_than(a: U256, b: U256) -> (r: bool)
    ensures
        r == (a.value() < b.value()),
{
    let x = alloy_primitives::U256::from_limbs([a.l0, a.l1, a.l2, a.l3]);
    let y = alloy_primitives::U256::from_limbs([b.l0, b.l1, b.l2, b.l3]);
    x < y
}

/// Sum of two words; exact when it stays below 2^256.
pub proof fn lemma_add_exact(a: U256, b: U256, r: U256)
    requires
        r.value() == (a.value() + b.value()) % word_modulus(),
        a.value() + b.value() < word_modulus(),
    ensures
        r.value() == a.value() + b.value(),
{
    lemma_value_bounds(a);
    lemma_value_bounds(b);
    vstd::arithmetic::div_mod::lemma_small_mod((a.value() + b.value()) as nat, word_modulus() as nat);
}

/// Difference of two words; exact when `b <= a`.
pub proof fn lemma_sub_exact(a: U256, b: U256, r: U256)
    requires
        r.value() == (a.value() - b.value()) % word_modulus(),
        b.value() <= a.value(),
    ensures
        r.value() == a.value() - b.value(),
{
    lemma_value_bounds(a);
    lemma_value_bounds(b);
    vstd::arithmetic::div_mod::lemma_small_mod((a.value() - b.value()) as nat, word_modulus() as nat);
}

/// Sum of two words modulo 2^256: exact below 2^256, else 2^256 less.
pub proof fn lemma_add_wraps(a: U256, b: U256, r: U256)
    requires
        r.value() == (a.value() + b.value()) % word_modulus(),
    ensures
        a.value() + b.value() < word_modulus() ==> r.value() == a.value() + b.value(),
        a.value() + b.value() >= word_modulus() ==> r.value() == a.value() + b.value()
            - word_modulus(),
{
    lemma_value_bounds(a);
    lemma_value_bounds(b);
    if a.value() + b.value() < word_modulus() {
        vstd::arithmetic::div_mod::lemma_small_mod(
            (a.value() + b.value()) as nat,
            word_modulus() as nat,
        );
    } else {
        let d = a.value() + b.value() - word_modulus();
        vstd::arithmetic::div_mod::lemma_mod_add_multiples_vanish(d, word_modulus());
        vstd::arithmetic::div_mod::lemma_small_mod(d as nat, word_modulus() as nat);
    }
}

/// Adding a word and then taking it away again, both modulo 2^256, gives
/// back the word started from.
pub proof fn lemma_add_then_sub(a: U256, b: U256, m: U256, r: U256)
    requires
        m.value() == (a.value() + b.value()) % word_modulus(),
        r.value() == (m.value() - b.value()) % word_modulus(),
    ensures
        r.value() == a.value(),
{
    lemma_add_wraps(a, b, m);
    lemma_value_bounds(a);
    lemma_value_bounds(b);
    if a.value() + b.value() < word_modulus() {
        vstd::arithmetic::div_mod::lemma_small_mod(a.value() as nat, word_modulus() as nat);
    } else {
        vstd::arithmetic::div_mod::lemma_mod_add_multiples_vanish(
            a.value() - word_modulus(),
            word_modulus(),
        );
        vstd::arithmetic::div_mod::lemma_small_mod(a.value() as nat, word_modulus() as nat);
    }
}

/// Two distinct words of a sequence sum to at most the sum of the sequence.
pub proof fn lemma_sum_two(s: Seq<U256>, i: int, j: int)
    requires
        0 <= i < s.len(),
        0 <= j < s.len(),
        i != j,
    ensures
        s[i].value() + s[j].value() <= sum_words(s),
    decreases s.len(),
{
    let n = s.len() - 1;
    if i == n {
        lemma_sum_bounds(s.drop_last(), j);
    } else if j == n {
        lemma_sum_bounds(s.drop_last(), i);
    } else {
        lemma_sum_two(s.drop_last(), i, j);
    }
}

/// A 20-byte account address: bytes 0..4, 4..12 and 12..20, each read
/// big-endian.
#[derive(Clone, Copy, PartialEq, Eq, Structural, Debug)]
pub struct Address {
    pub hi: u32,
    pub mid: u64,
    pub lo: u64,
}

impl Address {
    /// The zero address, the counterparty of mints and burns.
    pub fn zero() -> (r: Address)
        ensures
            r == Address::spec_zero(),
    {
        Address { hi: 0, mid: 0, lo: 0 }
    }

    pub open spec fn spec_zero() -> Address {
        Address { hi: 0, mid: 0, lo: 0 }
    }
}

/// The word holding a 64-bit number (ruint's `U256::from(u64)`).
pub open spec fn word_of(x: u64) -> U256 {
    U256 { l0: x, l1: 0, l2: 0, l3: 0 }
}

/// The word zero.
pub open spec fn zero_word() -> U256 {
    U256 { l0: 0, l1: 0, l2: 0, l3: 0 }
}

/// The sum of the numbers that a sequence of words stands for.
pub open spec fn sum_words(s: Seq<U256>) -> int
    decreases s.len(),
{
    if s.len() == 0 {
        0
    } else {
        sum_words(s.drop_last()) + s.last().value()
    }
}

pub proof fn lemma_sum_push(s: Seq<U256>, w: U256)
    ensures
        sum_words(s.push(w)) == sum_words(s) + w.value(),
{
    assert(s.push(w).drop_last() =~= s);
}

pub proof fn lemma_sum_update(s: Seq<U256>, i: int, w: U256)
    requires
        0 <= i < s.len(),
    ensures
        sum_words(s.update(i, w)) == sum_words(s) - s[i].value() + w.value(),
    decreases s.len(),
{
    if i == s.len() - 1 {
        assert(s.update(i, w).drop_last() =~= s.drop_last());
    } else {
        lemma_sum_update(s.drop_last(), i, w);
        assert(s.update(i, w).drop_last() =~= s.drop_last().update(i, w));
    }
}

/// Each word of a sequence is at most the sum of the sequence.
pub proof fn lemma_sum_bounds(s: Seq<U256>, i: int)
    requires
        0 <= i < s.len(),
    ensures
        0 <= s[i].value() <= sum_words(s),
    decreases s.len(),
{
    lemma_sum_nonneg(s.drop_last());
    if i < s.len() - 1 {
        lemma_sum_bounds(s.drop_last(), i);
    }
}

pub proof fn lemma_sum_nonneg(s: Seq<U256>)
    ensures
        0 <= sum_words(s),
    decreases s.len(),
{
    if s.len() > 0 {
        lemma_sum_nonneg(s.drop_last());
    }
}

/// What a call sees of its surroundings: the caller (`msg::sender()`), the
/// block time (`block::timestamp()`) and the contract's own address
/// (`contract::address()`).
#[derive(Clone, Copy, Debug)]
pub struct Env {
    pub sender: Address,
    pub timestamp: u64,
    pub this: Address,
}

} // verus!
