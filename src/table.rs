use vstd::prelude::*;

use crate::address::{Address, Grant};
use crate::amount::U256;

verus! {

/// A key of a `Table`: copyable and comparable in executable code.
pub trait TableKey: Copy + Sized {
    fn same(&self, other: &Self) -> (r: bool)
        ensures
            r == (*self == *other),
    ;
}

impl TableKey for Address {
    fn same(&self, other: &Self) -> (r: bool) {
        self.hi == other.hi && self.lo == other.lo
    }
}

impl TableKey for Grant {
    fn same(&self, other: &Self) -> (r: bool) {
        self.owner.same(&other.owner) && self.spender.same(&other.spender)
    }
}

/// The amount stored under `k` in `s`, zero where `k` is absent.
pub open spec fn lookup<K>(s: Seq<(K, U256)>, k: K) -> nat
    decreases s.len(),
{
    if s.len() == 0 {
        0
    } else if s.last().0 == k {
        s.last().1@
    } else {
        lookup(s.drop_last(), k)
    }
}

/// The sum of all amounts in `s`.
pub open spec fn total<K>(s: Seq<(K, U256)>) -> nat
    decreases s.len(),
{
    if s.len() == 0 {
        0
    } else {
        total(s.drop_last()) + s.last().1@
    }
}

/// No key occurs twice in `s`.
pub open spec fn keys_unique<K>(s: Seq<(K, U256)>) -> bool {
    forall|i: int, j: int| 0 <= i < j < s.len() ==> s[i].0 != s[j].0
}

proof fn lemma_lookup_at<K>(s: Seq<(K, U256)>, i: int)
    requires
        keys_unique(s),
        0 <= i < s.len(),
    ensures
        lookup(s, s[i].0) == s[i].1@,
    decreases s.len(),
{
    if i < s.len() - 1 {
        lemma_lookup_at(s.drop_last(), i);
    }
}

proof fn lemma_lookup_absent<K>(s: Seq<(K, U256)>, k: K)
    requires
        forall|i: int| 0 <= i < s.len() ==> s[i].0 != k,
    ensures
        lookup(s, k) == 0,
    decreases s.len(),
{
    if s.len() > 0 {
        lemma_lookup_absent(s.drop_last(), k);
    }
}

proof fn lemma_lookup_le_total<K>(s: Seq<(K, U256)>, k: K)
    ensures
        lookup(s, k) <= total(s),
    decreases s.len(),
{
    if s.len() > 0 {
        lemma_lookup_le_total(s.drop_last(), k);
    }
}

proof fn lemma_update<K>(s: Seq<(K, U256)>, i: int, v: U256, k: K)
    requires
        keys_unique(s),
        0 <= i < s.len(),
    ensures
        lookup(s.update(i, (s[i].0, v)), k) == if k == s[i].0 { v@ } else { lookup(s, k) },
        total(s.update(i, (s[i].0, v))) + s[i].1@ == total(s) + v@,
    decreases s.len(),
{
    let t = s.update(i, (s[i].0, v));
    if i == s.len() - 1 {
        assert(t.drop_last() =~= s.drop_last());
        if k != s[i].0 {
        }
    } else {
        assert(t.drop_last() =~= s.drop_last().update(i, (s[i].0, v)));
        lemma_update(s.drop_last(), i, v, k);
    }
}

/// A finite map from keys to amounts, zero for every key that it does not hold.
pub struct Table<K> {
    pub entries: Vec<(K, U256)>,
}

impl<K: TableKey> Table<K> {
    pub open spec fn wf(&self) -> bool {
        keys_unique(self.entries@)
    }

    /// The amount held under `k`.
    pub open spec fn value(&self, k: K) -> nat {
        lookup(self.entries@, k)
    }

    /// The sum of the amounts under all keys.
    pub open spec fn sum(&self) -> nat {
        total(self.entries@)
    }

    /// The table that holds zero under every key.
    pub fn new() -> (r: Table<K>)
        ensures
            r.wf(),
            forall|k: K| r.value(k) == 0,
            r.sum() == 0,
    {
        Table { entries: Vec::new() }
    }

    /// Every single amount is bounded by the sum of all of them.
    pub proof fn lemma_value_le_sum(&self, k: K)
        ensures
            self.value(k) <= self.sum(),
    {
        lemma_lookup_le_total(self.entries@, k);
    }

    fn find(&self, k: &K) -> (r: Option<usize>)
        requires
            self.wf(),
        ensures
            r matches Some(i) ==> i < self.entries@.len() && self.entries@[i as int].0 == *k,
            r is None ==> forall|i: int| 0 <= i < self.entries@.len() ==> self.entries@[i].0 != *k,
    {
        let mut i: usize = 0;
        while i < self.entries.len()
            invariant
                i <= self.entries@.len(),
                forall|j: int| 0 <= j < i ==> self.entries@[j].0 != *k,
            decreases self.entries@.len() - i,
        {
            if self.entries[i].0.same(k) {
                return Some(i);
            }
            i = i + 1;
        }
        None
    }

    /// The amount held under `k`.
    pub fn get(&self, k: &K) -> (r: U256)
        requires
            self.wf(),
        ensures
            r@ == self.value(*k),
    {
        match self.find(k) {
            Some(i) => {
                proof {
                    lemma_lookup_at(self.entries@, i as int);
                }
                self.entries[i].1
            },
            None => {
                proof {
                    lemma_lookup_absent(self.entries@, *k);
                }
                U256::zero()
            },
        }
    }

    /// Replaces the amount held under `k` by `v`.
    pub fn set(&mut self, k: &K, v: U256)
        requires
            old(self).wf(),
        ensures
            final(self).wf(),
            final(self).value(*k) == v@,
            forall|j: K| j != *k ==> final(self).value(j) == old(self).value(j),
            final(self).sum() + old(self).value(*k) == old(self).sum() + v@,
    {
        match self.find(k) {
            Some(i) => {
                proof {
                    lemma_lookup_at(self.entries@, i as int);
                    assert forall|j: K| #[trigger] lookup(self.entries@.update(i as int, (*k, v)), j)
                        == if j == *k { v@ } else { lookup(self.entries@, j) } by {
                        lemma_update(self.entries@, i as int, v, j);
                    }
                    lemma_update(self.entries@, i as int, v, *k);
                }
                self.entries.set(i, (*k, v));
                assert(keys_unique(self.entries@));
            },
            None => {
                proof {
                    lemma_lookup_absent(self.entries@, *k);
                }
                self.entries.push((*k, v));
                assert(self.entries@.drop_last() =~= old(self).entries@);
            },
        }
    }
}

} // verus!
