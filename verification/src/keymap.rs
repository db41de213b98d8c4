//! A finite map from keys to values held as two parallel vectors, the store
//! behind the contracts' `mapping`s (whose owners read a key never written as
//! the zero value).

use vstd::prelude::*;
use crate::word::Address;

verus! {

/// Keys whose equality can be decided in executable code.
pub trait MapKey: Sized {
    fn same(&self, other: &Self) -> (b: bool)
        ensures
            b == (*self == *other),
    ;
}

impl MapKey for Address {
    fn same(&self, other: &Self) -> (b: bool) {
        self.hi == other.hi && self.mid == other.mid && self.lo == other.lo
    }
}

impl MapKey for u8 {
    fn same(&self, other: &Self) -> (b: bool) {
        *self == *other
    }
}

/// The pair of an owner and a spender, the key of an allowance.
#[derive(Clone, Copy, PartialEq, Eq, Structural, Debug)]
pub struct AddressPair {
    pub first: Address,
    pub second: Address,
}

impl MapKey for AddressPair {
    fn same(&self, other: &Self) -> (b: bool) {
        self.first.same(&other.first) && self.second.same(&other.second)
    }
}

pub struct KeyMap<K, V> {
    keys: Vec<K>,
    vals: Vec<V>,
}

impl<K, V> View for KeyMap<K, V> {
    type V = Map<K, V>;

    closed spec fn view(&self) -> Map<K, V> {
        Map::new(|k: K| self.keys@.contains(k), |k: K| self.vals@[self.slot(k)])
    }
}

impl<K, V> KeyMap<K, V> {
    /// The position at which `k` is held.
    pub closed spec fn slot(&self, k: K) -> int {
        choose|i: int| 0 <= i < self.keys@.len() && self.keys@[i] == k
    }

    /// The stored values, in storage order.
    pub closed spec fn values(&self) -> Seq<V> {
        self.vals@
    }

    /// The stored keys, in storage order.
    pub closed spec fn keys(&self) -> Seq<K> {
        self.keys@
    }

    /// The keys and values, read position by position, are the map's entries.
    pub proof fn lemma_entries(&self)
        requires
            self.wf(),
        ensures
            self.keys().len() == self.values().len(),
            forall|i: int, j: int|
                0 <= i < j < self.keys().len() ==> self.keys()[i] != self.keys()[j],
            forall|i: int|
                0 <= i < self.keys().len() ==> #[trigger] self@[self.keys()[i]] == self.values()[i],
            self@.dom() == self.keys().to_set(),
    {
        assert forall|i: int| 0 <= i < self.keys().len() implies #[trigger] self@[self.keys()[i]]
            == self.values()[i] by {
            let k = self.keys@[i];
            assert(self.keys@.contains(k));
            let j = self.slot(k);
            if j != i {
                if j < i {
                    assert(self.keys@[j] != self.keys@[i]);
                } else {
                    assert(self.keys@[i] != self.keys@[j]);
                }
            }
        }
        assert(self@.dom() =~= self.keys@.to_set());
    }

    /// Keys and values line up and no key is held twice.
    pub closed spec fn wf(&self) -> bool {
        &&& self.keys@.len() == self.vals@.len()
        &&& forall|i: int, j: int|
            0 <= i < j < self.keys@.len() ==> self.keys@[i] != self.keys@[j]
    }

    /// Each stored value is the value of one key, and each key's value is stored.
    pub proof fn lemma_values(&self)
        requires
            self.wf(),
        ensures
            forall|k: K| #[trigger]
                self@.dom().contains(k) ==> 0 <= self.slot(k) < self.values().len()
                    && self.values()[self.slot(k)] == self@[k] && self.keys()[self.slot(k)] == k,
            self@.dom().finite(),
    {
        assert forall|k: K| #[trigger] self@.dom().contains(k) implies 0 <= self.slot(k)
            < self.values().len() && self.values()[self.slot(k)] == self@[k] && self.keys()[self.slot(
            k,
        )] == k by {
            let i = choose|i: int| 0 <= i < self.keys@.len() && self.keys@[i] == k;
        }
        self.lemma_dom_finite();
    }

    proof fn lemma_dom_finite(&self)
        ensures
            self@.dom().finite(),
    {
        assert(self@.dom() =~= self.keys@.to_set());
        vstd::seq_lib::seq_to_set_is_finite(self.keys@);
    }
}

impl<K: MapKey, V> KeyMap<K, V> {
    /// The empty map.
    pub fn new() -> (r: Self)
        ensures
            r.wf(),
            r@ == Map::<K, V>::empty(),
            r.values() == Seq::<V>::empty(),
    {
        let r = KeyMap { keys: Vec::new(), vals: Vec::new() };
        assert(r@ =~= Map::<K, V>::empty());
        r
    }

    fn find(&self, k: &K) -> (r: Option<usize>)
        requires
            self.wf(),
        ensures
            match r {
                Some(i) => i < self.keys@.len() && self.keys@[i as int] == *k && self.slot(*k)
                    == i,
                None => !self.keys@.contains(*k),
            },
    {
        let mut i: usize = 0;
        while i < self.keys.len()
            invariant
                self.wf(),
                i <= self.keys@.len(),
                forall|j: int| 0 <= j < i ==> self.keys@[j] != *k,
            decreases self.keys@.len() - i,
        {
            if self.keys[i].same(k) {
                assert(self.keys@[i as int] == *k);
                return Some(i);
            }
            i = i + 1;
        }
        None
    }

    /// The value held for `k`, if one was written.
    pub fn get(&self, k: &K) -> (r: Option<&V>)
        requires
            self.wf(),
        ensures
            r is Some <==> self@.dom().contains(*k),
            r matches Some(v) ==> *v == self@[*k],
    {
        match self.find(k) {
            Some(i) => Some(&self.vals[i]),
            None => None,
        }
    }

    /// Writes `v` for `k`, in place where `k` is held, else at the end.
    pub fn insert(&mut self, k: K, v: V)
        requires
            old(self).wf(),
        ensures
            final(self).wf(),
            final(self)@ == old(self)@.insert(k, v),
            old(self)@.dom().contains(k) ==> final(self).values() == old(self).values().update(
                old(self).slot(k),
                v,
            ),
            !old(self)@.dom().contains(k) ==> final(self).values() == old(self).values().push(v),
    {
        match self.find(&k) {
            Some(i) => {
                self.vals.set(i, v);
                assert forall|x: K| #[trigger] self@.dom().contains(x) implies self@[x] == old(self)@.insert(k, v)[x] by {
                    if x != k {
                        let j = choose|j: int| 0 <= j < self.keys@.len() && self.keys@[j] == x;
                    }
                }
                assert(self@ =~= old(self)@.insert(k, v));
            },
            None => {
                self.keys.push(k);
                self.vals.push(v);
                assert forall|x: K| #[trigger] self@.dom().contains(x) implies self@[x] == old(self)@.insert(k, v)[x] by {
                    if x != k {
                        let j = choose|j: int| 0 <= j < old(self).keys@.len() && old(self).keys@[j] == x;
                        assert(self.keys@[j] == x);
                    } else {
                        assert(self.keys@[self.keys@.len() - 1] == k);
                    }
                }
                assert forall|x: K| #[trigger] self@.dom().contains(x) <==> old(self)@.insert(k, v).dom().contains(x) by {
                    if old(self)@.dom().contains(x) {
                        let j = choose|j: int| 0 <= j < old(self).keys@.len() && old(self).keys@[j] == x;
                        assert(self.keys@[j] == x);
                    }
                    if x == k {
                        assert(self.keys@[self.keys@.len() - 1] == k);
                    }
                }
                assert(self@ =~= old(self)@.insert(k, v));
            },
        }
    }

    /// Removes the value held for `k` and hands it back.
    pub fn take(&mut self, k: &K) -> (r: Option<V>)
        requires
            old(self).wf(),
        ensures
            final(self).wf(),
            final(self)@ == old(self)@.remove(*k),
            r is Some <==> old(self)@.dom().contains(*k),
            r matches Some(v) ==> v == old(self)@[*k],
    {
        match self.find(k) {
            Some(i) => {
                let ghost ok = self.keys@;
                let ghost ov = self.vals@;
                self.keys.swap_remove(i);
                let v = self.vals.swap_remove(i);
                assert forall|x: K| #[trigger] self@.dom().contains(x) <==> old(self)@.remove(*k).dom().contains(x) by {
                    if old(self)@.dom().contains(x) && x != *k {
                        let j = choose|j: int| 0 <= j < ok.len() && ok[j] == x;
                        if j == ok.len() - 1 {
                            assert(self.keys@[i as int] == x);
                        } else {
                            assert(self.keys@[j] == x);
                        }
                    }
                }
                assert forall|x: K| #[trigger] self@.dom().contains(x) implies self@[x] == old(self)@[x] by {
                    let j = choose|j: int| 0 <= j < self.keys@.len() && self.keys@[j] == x;
                    if j == i {
                        assert(ok[ok.len() - 1] == x);
                    } else {
                        assert(ok[j] == x);
                    }
                }
                assert(self@ =~= old(self)@.remove(*k));
                Some(v)
            },
            None => {
                assert(self@ =~= old(self)@.remove(*k));
                None
            },
        }
    }
}

} // verus!
