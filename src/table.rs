use vstd::prelude::*;

use crate::account::{same_bytes, AccountId};

verus! {

/// A key whose run-time comparison agrees with equality in specifications.
pub trait TableKey: Sized {
    fn same_key(&self, other: &Self) -> (r: bool)
        ensures
            r == (*self == *other),
    ;
}

impl TableKey for AccountId {
    fn same_key(&self, other: &Self) -> (r: bool) {
        self.same(other)
    }
}

impl TableKey for (AccountId, AccountId) {
    fn same_key(&self, other: &Self) -> (r: bool) {
        self.0.same(&other.0) && self.1.same(&other.1)
    }
}

impl TableKey for [u8; 32] {
    fn same_key(&self, other: &Self) -> (r: bool) {
        same_bytes(self, other)
    }
}

/// A keyed store held as a list of entries with pairwise distinct keys.
pub struct Table<K, V> {
    entries: Vec<(K, V)>,
}

/// The sum of the values of a list of entries.
pub open spec fn sum_of<K>(s: Seq<(K, u128)>) -> int
    decreases s.len(),
{
    if s.len() == 0 {
        0
    } else {
        sum_of(s.drop_last()) + s.last().1
    }
}

proof fn lemma_sum_of_update<K>(s: Seq<(K, u128)>, i: int, e: (K, u128))
    requires
        0 <= i < s.len(),
    ensures
        sum_of(s.update(i, e)) == sum_of(s) - s[i].1 + e.1,
    decreases s.len(),
{
    let t = s.update(i, e);
    if i == s.len() - 1 {
        assert(t.drop_last() =~= s.drop_last());
    } else {
        assert(t.drop_last() =~= s.drop_last().update(i, e));
        lemma_sum_of_update(s.drop_last(), i, e);
    }
}

proof fn lemma_sum_of_push<K>(s: Seq<(K, u128)>, e: (K, u128))
    ensures
        sum_of(s.push(e)) == sum_of(s) + e.1,
{
    assert(s.push(e).drop_last() =~= s);
}

proof fn lemma_sum_of_bounds<K>(s: Seq<(K, u128)>, i: int)
    requires
        0 <= i < s.len(),
    ensures
        0 <= s[i].1 <= sum_of(s),
    decreases s.len(),
{
    lemma_sum_of_nonneg(s.drop_last());
    if i < s.len() - 1 {
        lemma_sum_of_bounds(s.drop_last(), i);
    }
}

proof fn lemma_sum_of_nonneg<K>(s: Seq<(K, u128)>)
    ensures
        sum_of(s) >= 0,
    decreases s.len(),
{
    if s.len() > 0 {
        lemma_sum_of_nonneg(s.drop_last());
    }
}

impl<K: TableKey, V> Table<K, V> {
    /// The entries, in the order in which their keys were first inserted.
    pub closed spec fn items(&self) -> Seq<(K, V)> {
        self.entries@
    }

    /// No key occurs twice.
    pub open spec fn wf(&self) -> bool {
        forall|i: int, j: int|
            0 <= i < j < self.items().len() ==> #[trigger] self.items()[i].0
                != #[trigger] self.items()[j].0
    }

    /// Whether some entry has key `k`.
    pub open spec fn has(&self, k: K) -> bool {
        exists|i: int| 0 <= i < self.items().len() && #[trigger] self.items()[i].0 == k
    }

    /// `self` results from `before` by storing `v` under `k`: the entry of `k` is
    /// replaced in place, or appended if there was none.
    pub open spec fn is_insert_of(&self, before: &Self, k: K, v: V) -> bool {
        if before.has(k) {
            exists|i: int|
                0 <= i < before.items().len() && #[trigger] before.items()[i].0 == k
                    && self.items() == before.items().update(i, (k, v))
        } else {
            self.items() == before.items().push((k, v))
        }
    }

    proof fn lemma_view_at(&self, i: int)
        requires
            self.wf(),
            0 <= i < self.items().len(),
        ensures
            self@.contains_key(self.items()[i].0),
            self@[self.items()[i].0] == self.items()[i].1,
    {
        let k = self.items()[i].0;
        assert(self.has(k));
        let j = choose|j: int| 0 <= j < self.items().len() && #[trigger] self.items()[j].0 == k;
        if j != i {
            if i < j {
                assert(self.items()[i].0 != self.items()[j].0);
            } else {
                assert(self.items()[j].0 != self.items()[i].0);
            }
        }
    }

    /// An empty table.
    pub fn new() -> (t: Self)
        ensures
            t.wf(),
            t@ == Map::<K, V>::empty(),
            t.items().len() == 0,
    {
        let t = Table { entries: Vec::new() };
        assert(t@ =~= Map::<K, V>::empty());
        t
    }

    fn find(&self, k: &K) -> (r: Option<usize>)
        requires
            self.wf(),
        ensures
            match r {
                Some(i) => i < self.items().len() && self.items()[i as int].0 == *k,
                None => !self.has(*k),
            },
    {
        let mut i: usize = 0;
        while i < self.entries.len()
            invariant
                0 <= i <= self.entries.len(),
                forall|j: int| 0 <= j < i ==> self.entries@[j].0 != *k,
            decreases self.entries.len() - i,
        {
            if self.entries[i].0.same_key(k) {
                return Some(i);
            }
            i = i + 1;
        }
        None
    }

    /// The value stored under `k`, if any.
    pub fn get(&self, k: &K) -> (r: Option<&V>)
        requires
            self.wf(),
        ensures
            match r {
                Some(v) => self@.contains_key(*k) && *v == self@[*k],
                None => !self@.contains_key(*k),
            },
    {
        match self.find(k) {
            Some(i) => {
                proof {
                    self.lemma_view_at(i as int);
                }
                Some(&self.entries[i].1)
            },
            None => None,
        }
    }

    /// Stores `v` under `k`, replacing what was stored there.
    pub fn insert(&mut self, k: K, v: V)
        requires
            old(self).wf(),
        ensures
            final(self).wf(),
            final(self)@ == old(self)@.insert(k, v),
            final(self).is_insert_of(old(self), k, v),
    {
        let ghost before = *self;
        match self.find(&k) {
            Some(i) => {
                self.entries.set(i, (k, v));
                proof {
                    assert(self.items() == before.items().update(i as int, (k, v)));
                    assert(before.items()[i as int].0 == k);
                    assert(self.is_insert_of(&before, k, v));
                    assert forall|a: K| #[trigger] self@.contains_key(a) <==> before@.insert(
                        k,
                        v,
                    ).contains_key(a) by {
                        if self.has(a) {
                            let j = choose|j: int|
                                0 <= j < self.items().len() && #[trigger] self.items()[j].0 == a;
                            if j != i as int {
                                assert(before.items()[j].0 == a);
                            }
                        }
                        if before.has(a) {
                            let j = choose|j: int|
                                0 <= j < before.items().len() && #[trigger] before.items()[j].0
                                    == a;
                            assert(self.items()[j].0 == a);
                        }
                        if a == k {
                            assert(self.items()[i as int].0 == a);
                        }
                    }
                    assert forall|a: K| #[trigger] self@.contains_key(a) implies self@[a]
                        == before@.insert(k, v)[a] by {
                        let j = choose|j: int|
                            0 <= j < self.items().len() && #[trigger] self.items()[j].0 == a;
                        self.lemma_view_at(j);
                        if j != i as int {
                            before.lemma_view_at(j);
                        }
                    }
                    assert(self@ =~= before@.insert(k, v));
                }
            },
            None => {
                self.entries.push((k, v));
                proof {
                    assert(self.items() == before.items().push((k, v)));
                    let n = before.items().len() as int;
                    assert(self.items()[n].0 == k);
                    assert forall|a: K| #[trigger] self@.contains_key(a) <==> before@.insert(
                        k,
                        v,
                    ).contains_key(a) by {
                        if self.has(a) {
                            let j = choose|j: int|
                                0 <= j < self.items().len() && #[trigger] self.items()[j].0 == a;
                            if j != n {
                                assert(before.items()[j].0 == a);
                            }
                        }
                        if before.has(a) {
                            let j = choose|j: int|
                                0 <= j < before.items().len() && #[trigger] before.items()[j].0
                                    == a;
                            assert(self.items()[j].0 == a);
                        }
                    }
                    assert forall|a: K| #[trigger] self@.contains_key(a) implies self@[a]
                        == before@.insert(k, v)[a] by {
                        let j = choose|j: int|
                            0 <= j < self.items().len() && #[trigger] self.items()[j].0 == a;
                        self.lemma_view_at(j);
                        if j != n {
                            before.lemma_view_at(j);
                        }
                    }
                    assert(self@ =~= before@.insert(k, v));
                }
            },
        }
    }
}

impl<K: TableKey, V> View for Table<K, V> {
    type V = Map<K, V>;

    closed spec fn view(&self) -> Map<K, V> {
        Map::new(
            |k: K| self.has(k),
            |k: K|
                self.items()[choose|i: int|
                    0 <= i < self.items().len() && #[trigger] self.items()[i].0 == k].1,
        )
    }
}

impl<K: TableKey> Table<K, u128> {
    /// The amount stored under `k`, zero where nothing is stored.
    pub open spec fn amount(&self, k: K) -> int {
        if self@.contains_key(k) {
            self@[k] as int
        } else {
            0
        }
    }

    /// The sum of all stored amounts.
    pub closed spec fn total(&self) -> int {
        sum_of(self.items())
    }

    /// A stored amount never exceeds the sum of all of them.
    pub proof fn lemma_amount_bounded(&self, k: K)
        requires
            self.wf(),
        ensures
            0 <= self.amount(k) <= self.total(),
    {
        lemma_sum_of_nonneg(self.items());
        if self@.contains_key(k) {
            let j = choose|j: int| 0 <= j < self.items().len() && #[trigger] self.items()[j].0 == k;
            self.lemma_view_at(j);
            lemma_sum_of_bounds(self.items(), j);
        }
    }

    /// Storing `v` under `k` moves the total by the difference with the old amount.
    pub proof fn lemma_total_after_insert(&self, before: &Self, k: K, v: u128)
        requires
            before.wf(),
            self.is_insert_of(before, k, v),
        ensures
            self.total() == before.total() - before.amount(k) + v,
    {
        if before.has(k) {
            let i = choose|i: int|
                0 <= i < before.items().len() && #[trigger] before.items()[i].0 == k
                    && self.items() == before.items().update(i, (k, v));
            before.lemma_view_at(i);
            lemma_sum_of_update(before.items(), i, (k, v));
        } else {
            lemma_sum_of_push(before.items(), (k, v));
        }
    }

    /// The empty table sums to zero.
    pub proof fn lemma_total_empty(&self)
        requires
            self.items().len() == 0,
        ensures
            self.total() == 0,
    {
    }
}

} // verus!
