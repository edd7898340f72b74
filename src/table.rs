//! A map from keys to 256-bit quantities in which an absent key reads as
//! zero, together with the sum of all its quantities.

use vstd::prelude::*;

use crate::account::TableKey;
use crate::uint::U256;

verus! {

/// The quantity stored under `k`, zero where `k` is absent; the last entry
/// for a key wins.
pub open spec fn value_in<K>(s: Seq<(K, U256)>, k: K) -> nat
    decreases s.len(),
{
    if s.len() == 0 {
        0
    } else if s.last().0 == k {
        s.last().1@
    } else {
        value_in(s.drop_last(), k)
    }
}

/// The sum of all quantities of the entries.
pub open spec fn total_in<K>(s: Seq<(K, U256)>) -> nat
    decreases s.len(),
{
    if s.len() == 0 {
        0
    } else {
        total_in(s.drop_last()) + s.last().1@
    }
}

/// No key occurs twice.
pub open spec fn keys_distinct<K>(s: Seq<(K, U256)>) -> bool {
    forall|i: int, j: int| 0 <= i < j < s.len() ==> s[i].0 != s[j].0
}

proof fn lemma_value_at<K>(s: Seq<(K, U256)>, i: int)
    requires
        keys_distinct(s),
        0 <= i < s.len(),
    ensures
        value_in(s, s[i].0) == s[i].1@,
    decreases s.len(),
{
    if i < s.len() - 1 {
        assert(s.last().0 != s[i].0);
        assert(s.drop_last()[i] == s[i]);
        lemma_value_at(s.drop_last(), i);
    }
}

proof fn lemma_value_absent<K>(s: Seq<(K, U256)>, k: K)
    requires
        forall|i: int| 0 <= i < s.len() ==> s[i].0 != k,
    ensures
        value_in(s, k) == 0,
    decreases s.len(),
{
    if s.len() > 0 {
        assert(s.last().0 != k);
        let t = s.drop_last();
        assert forall|i: int| 0 <= i < t.len() implies t[i].0 != k by {
            assert(t[i] == s[i]);
        }
        lemma_value_absent(t, k);
    }
}

proof fn lemma_value_le_total<K>(s: Seq<(K, U256)>, k: K)
    ensures
        value_in(s, k) <= total_in(s),
    decreases s.len(),
{
    if s.len() > 0 {
        lemma_value_le_total(s.drop_last(), k);
    }
}

proof fn lemma_value_update<K>(s: Seq<(K, U256)>, i: int, v: U256)
    requires
        keys_distinct(s),
        0 <= i < s.len(),
    ensures
        keys_distinct(s.update(i, (s[i].0, v))),
        total_in(s.update(i, (s[i].0, v))) == total_in(s) - s[i].1@ + v@,
        forall|k: K|
            #![trigger value_in(s.update(i, (s[i].0, v)), k)]
            value_in(s.update(i, (s[i].0, v)), k) == if k == s[i].0 {
                v@
            } else {
                value_in(s, k)
            },
    decreases s.len(),
{
    let u = s.update(i, (s[i].0, v));
    assert forall|a: int, b: int| 0 <= a < b < u.len() implies u[a].0 != u[b].0 by {
        assert(u[a].0 == s[a].0 && u[b].0 == s[b].0);
    }
    if i == s.len() - 1 {
        assert(u.drop_last() =~= s.drop_last());
        assert forall|k: K| #![trigger value_in(u, k)]
            value_in(u, k) == if k == s[i].0 { v@ } else { value_in(s, k) } by {
        }
    } else {
        let t = s.drop_last();
        assert(u.drop_last() =~= t.update(i, (t[i].0, v)));
        assert(t[i] == s[i]);
        assert(keys_distinct(t)) by {
            assert forall|a: int, b: int| 0 <= a < b < t.len() implies t[a].0 != t[b].0 by {
                assert(t[a] == s[a] && t[b] == s[b]);
            }
        }
        lemma_value_update(t, i, v);
        assert(s.last().0 != s[i].0);
        assert(u.last() == s.last());
        assert forall|k: K| #![trigger value_in(u, k)]
            value_in(u, k) == if k == s[i].0 { v@ } else { value_in(s, k) } by {
            assert(value_in(t.update(i, (t[i].0, v)), k) == if k == s[i].0 {
                v@
            } else {
                value_in(t, k)
            });
        }
    }
}

/// A table from keys to quantities, in which an absent key reads as zero.
pub struct Table<K> {
    entries: Vec<(K, U256)>,
}

impl<K: TableKey + Copy> Table<K> {
    /// The entries, each key at most once.
    pub closed spec fn wf(&self) -> bool {
        keys_distinct(self.entries@)
    }

    /// The quantity stored under `k`.
    pub closed spec fn value(&self, k: K) -> nat {
        value_in(self.entries@, k)
    }

    /// The sum of all stored quantities.
    pub closed spec fn total(&self) -> nat {
        total_in(self.entries@)
    }

    /// No single quantity exceeds the sum of them all.
    pub proof fn lemma_value_within_total(&self, k: K)
        ensures
            self.value(k) <= self.total(),
    {
        lemma_value_le_total(self.entries@, k);
    }

    /// An empty table: every key reads as zero.
    pub fn new() -> (r: Table<K>)
        ensures
            r.wf(),
            r.total() == 0,
            forall|k: K| r.value(k) == 0,
    {
        Table { entries: Vec::new() }
    }

    fn find(&self, k: &K) -> (r: Option<usize>)
        requires
            self.wf(),
        ensures
            match r {
                Some(i) => i < self.entries@.len() && self.entries@[i as int].0 == *k,
                None => forall|i: int| 0 <= i < self.entries@.len() ==> self.entries@[i].0 != *k,
            },
    {
        let mut i: usize = 0;
        while i < self.entries.len()
            invariant
                i <= self.entries@.len(),
                forall|j: int| 0 <= j < i ==> self.entries@[j].0 != *k,
            decreases self.entries@.len() - i,
        {
            if self.entries[i].0.same(k) {
                return Some(i);
            }
            i = i + 1;
        }
        None
    }

    /// The quantity stored under `k`, zero where nothing is.
    pub fn get(&self, k: &K) -> (r: U256)
        requires
            self.wf(),
        ensures
            r@ == self.value(*k),
    {
        match self.find(k) {
            Some(i) => {
                proof {
                    lemma_value_at(self.entries@, i as int);
                }
                self.entries[i].1
            },
            None => {
                proof {
                    lemma_value_absent(self.entries@, *k);
                }
                U256::zero()
            },
        }
    }

    /// Overwrites the quantity stored under `k` with `v`.
    pub fn set(&mut self, k: &K, v: U256)
        requires
            old(self).wf(),
        ensures
            final(self).wf(),
            forall|x: K| final(self).value(x) == if x == *k { v@ } else { old(self).value(x) },
            final(self).total() == old(self).total() - old(self).value(*k) + v@,
    {
        match self.find(k) {
            Some(i) => {
                proof {
                    lemma_value_at(self.entries@, i as int);
                    lemma_value_update(self.entries@, i as int, v);
                }
                self.entries.set(i, (*k, v));
            },
            None => {
                proof {
                    lemma_value_absent(self.entries@, *k);
                }
                let ghost before = self.entries@;
                self.entries.push((*k, v));
                proof {
                    assert(self.entries@.drop_last() =~= before);
                    assert forall|a: int, b: int|
                        0 <= a < b < self.entries@.len() implies
                        self.entries@[a].0 != self.entries@[b].0 by {
                        if b < before.len() {
                            assert(self.entries@[a] == before[a] && self.entries@[b] == before[b]);
                        } else {
                            assert(self.entries@[a] == before[a]);
                        }
                    }
                }
            },
        }
    }
}

} // verus!
