//! A small keyed store: a vector of entries with unique keys, seen as a map.
use vstd::prelude::*;

verus! {

/// A key of a `Table`: keys are compared and copied by their view.
pub trait TableKey: Sized + View {
    fn same_key(&self, other: &Self) -> (r: bool)
        ensures
            r == (self@ == other@),
    ;

    fn copy_key(&self) -> (r: Self)
        ensures
            r@ == self@,
    ;
}

/// A value of a `Table` that carries an amount; a table's total is the sum of them.
pub trait Amount: Copy {
    spec fn amount(&self) -> nat;
}

impl Amount for u64 {
    open spec fn amount(&self) -> nat {
        *self as nat
    }
}

/// Sum of the amounts of a sequence of entries.
pub open spec fn seq_total<K, V: Amount>(s: Seq<(K, V)>) -> nat
    decreases s.len(),
{
    if s.len() == 0 {
        0
    } else {
        seq_total(s.drop_last()) + s.last().1.amount()
    }
}

/// Amount of `a` in `m`; an absent key holds zero.
pub open spec fn bal<K>(m: Map<K, u64>, a: K) -> nat {
    if m.contains_key(a) {
        m[a] as nat
    } else {
        0
    }
}

/// `m` after taking `debit` from `from` and then giving `credit` to `to`.
pub open spec fn moved<K>(m: Map<K, u64>, from: K, to: K, debit: nat, credit: nat) -> Map<K, u64> {
    let m1 = m.insert(from, (bal(m, from) - debit) as u64);
    m1.insert(to, (bal(m1, to) + credit) as u64)
}

/// A map from keys (told apart by their views) to values, held as a vector of
/// entries.
pub struct Table<K, V> {
    entries: Vec<(K, V)>,
}

proof fn lemma_total_concat<K, V: Amount>(a: Seq<(K, V)>, b: Seq<(K, V)>)
    ensures
        seq_total(a + b) == seq_total(a) + seq_total(b),
    decreases b.len(),
{
    if b.len() == 0 {
        assert(a + b =~= a);
    } else {
        lemma_total_concat(a, b.drop_last());
        assert((a + b).drop_last() =~= a + b.drop_last());
    }
}

proof fn lemma_total_single<K, V: Amount>(e: (K, V))
    ensures
        seq_total(seq![e]) == e.1.amount(),
{
    let s = seq![e];
    assert(s.len() == 1);
    assert(s.last() == e);
    assert(s.drop_last() =~= Seq::<(K, V)>::empty());
    assert(seq_total(s.drop_last()) == 0);
}

proof fn lemma_total_split<K, V: Amount>(s: Seq<(K, V)>, i: int)
    requires
        0 <= i < s.len(),
    ensures
        seq_total(s) == seq_total(s.subrange(0, i)) + s[i].1.amount() + seq_total(
            s.subrange(i + 1, s.len() as int),
        ),
{
    let a = s.subrange(0, i);
    let c = s.subrange(i + 1, s.len() as int);
    assert(s =~= a + seq![s[i]] + c);
    lemma_total_concat(a + seq![s[i]], c);
    lemma_total_concat(a, seq![s[i]]);
    lemma_total_single(s[i]);
}

proof fn lemma_total_update<K, V: Amount>(s: Seq<(K, V)>, i: int, e: (K, V))
    requires
        0 <= i < s.len(),
    ensures
        seq_total(s.update(i, e)) + s[i].1.amount() == seq_total(s) + e.1.amount(),
{
    let t = s.update(i, e);
    lemma_total_split(s, i);
    lemma_total_split(t, i);
    assert(t.subrange(0, i) =~= s.subrange(0, i));
    assert(t.subrange(i + 1, t.len() as int) =~= s.subrange(i + 1, s.len() as int));
}

proof fn lemma_total_remove<K, V: Amount>(s: Seq<(K, V)>, i: int)
    requires
        0 <= i < s.len(),
    ensures
        seq_total(s.remove(i)) + s[i].1.amount() == seq_total(s),
{
    let t = s.remove(i);
    lemma_total_split(s, i);
    assert(t =~= s.subrange(0, i) + s.subrange(i + 1, s.len() as int));
    lemma_total_concat(s.subrange(0, i), s.subrange(i + 1, s.len() as int));
}

proof fn lemma_total_push<K, V: Amount>(s: Seq<(K, V)>, e: (K, V))
    ensures
        seq_total(s.push(e)) == seq_total(s) + e.1.amount(),
{
    assert(s.push(e).drop_last() =~= s);
}

impl<K: TableKey, V: Amount> Table<K, V> {
    /// Keys are unique.
    pub closed spec fn wf(&self) -> bool {
        forall|i: int, j: int|
            0 <= i < j < self.entries@.len() ==> #[trigger] self.entries@[i].0@
                != #[trigger] self.entries@[j].0@
    }

    /// Some entry has the key `k`.
    pub closed spec fn has(&self, k: K::V) -> bool {
        exists|i: int| 0 <= i < self.entries@.len() && #[trigger] self.entries@[i].0@ == k
    }

    /// The entries as a map from key views to values.
    pub closed spec fn view(&self) -> Map<K::V, V> {
        Map::new(
            |k: K::V| self.has(k),
            |k: K::V|
                self.entries@[choose|i: int|
                    0 <= i < self.entries@.len() && #[trigger] self.entries@[i].0@ == k].1,
        )
    }

    /// Sum of the amounts of all values.
    pub closed spec fn total(&self) -> nat {
        seq_total(self.entries@)
    }

    /// The amount stored under `k`, zero when `k` is absent.
    pub open spec fn amount_of(&self, k: K::V) -> nat {
        if self.view().contains_key(k) {
            self.view()[k].amount()
        } else {
            0
        }
    }

    proof fn lemma_entry(&self, i: int)
        requires
            self.wf(),
            0 <= i < self.entries@.len(),
        ensures
            self.view().contains_key(self.entries@[i].0@),
            self.view()[self.entries@[i].0@] == self.entries@[i].1,
    {
        let k = self.entries@[i].0@;
        assert(self.has(k));
        let j = choose|j: int| 0 <= j < self.entries@.len() && #[trigger] self.entries@[j].0@ == k;
        if j < i {
            assert(self.entries@[j].0@ != self.entries@[i].0@);
        } else if i < j {
            assert(self.entries@[i].0@ != self.entries@[j].0@);
        }
    }

    /// A single amount never exceeds the total.
    pub proof fn lemma_amount_le_total(&self, k: K::V)
        requires
            self.wf(),
        ensures
            self.amount_of(k) <= self.total(),
    {
        if self.view().contains_key(k) {
            let i = choose|i: int| 0 <= i < self.entries@.len() && #[trigger] self.entries@[i].0@ == k;
            self.lemma_entry(i);
            lemma_total_split(self.entries@, i);
        }
    }

    /// An empty table.
    pub fn new() -> (r: Self)
        ensures
            r.wf(),
            r.view() == Map::<K::V, V>::empty(),
            r.total() == 0,
    {
        let r = Table { entries: Vec::new() };
        assert(r.view() =~= Map::<K::V, V>::empty());
        r
    }

    fn find(&self, k: &K) -> (r: Option<usize>)
        ensures
            match r {
                Some(i) => i < self.entries@.len() && self.entries@[i as int].0@ == k@,
                None => !self.has(k@),
            },
    {
        let mut i: usize = 0;
        while i < self.entries.len()
            invariant
                i <= self.entries@.len(),
                forall|j: int| 0 <= j < i ==> #[trigger] self.entries@[j].0@ != k@,
            decreases self.entries@.len() - i,
        {
            if self.entries[i].0.same_key(k) {
                return Some(i);
            }
            i = i + 1;
        }
        None
    }

    /// The value stored under `k`, if any.
    pub fn get(&self, k: &K) -> (r: Option<V>)
        requires
            self.wf(),
        ensures
            r == (if self.view().contains_key(k@) {
                Some(self.view()[k@])
            } else {
                None
            }),
    {
        match self.find(k) {
            Some(i) => {
                proof { self.lemma_entry(i as int); }
                Some(self.entries[i].1)
            },
            None => None,
        }
    }

    /// Stores `v` under `k`, replacing any earlier value.
    pub fn set(&mut self, k: K, v: V)
        requires
            old(self).wf(),
        ensures
            final(self).wf(),
            final(self).view() == old(self).view().insert(k@, v),
            final(self).total() + old(self).amount_of(k@) == old(self).total() + v.amount(),
    {
        let ghost kv = k@;
        match self.find(&k) {
            Some(i) => {
                proof {
                    self.lemma_entry(i as int);
                    lemma_total_update(self.entries@, i as int, (k, v));
                }
                let ghost pre = *self;
                self.entries.set(i, (k, v));
                proof {
                    assert forall|a: int, b: int| 0 <= a < b < self.entries@.len() implies #[trigger] self.entries@[a].0@
                        != #[trigger] self.entries@[b].0@ by {
                        assert(pre.entries@[a].0@ != pre.entries@[b].0@);
                    }
                    self.lemma_view_after_update(pre, i as int);
                }
            },
            None => {
                let ghost pre = *self;
                proof { lemma_total_push(self.entries@, (k, v)); }
                self.entries.push((k, v));
                proof {
                    assert forall|a: int, b: int| 0 <= a < b < self.entries@.len() implies #[trigger] self.entries@[a].0@
                        != #[trigger] self.entries@[b].0@ by {
                        if b < pre.entries@.len() {
                            assert(pre.entries@[a].0@ != pre.entries@[b].0@);
                        } else {
                            assert(pre.entries@[a].0@ != kv);
                        }
                    }
                    self.lemma_view_after_push(pre);
                }
            },
        }
    }

    proof fn lemma_view_after_update(&self, pre: Self, i: int)
        requires
            pre.wf(),
            self.wf(),
            0 <= i < pre.entries@.len(),
            self.entries@ == pre.entries@.update(i, self.entries@[i]),
            self.entries@[i].0@ == pre.entries@[i].0@,
        ensures
            self.view() == pre.view().insert(self.entries@[i].0@, self.entries@[i].1),
    {
        let k = self.entries@[i].0@;
        assert forall|x: K::V| #[trigger] self.view().contains_key(x) == pre.view().insert(k, self.entries@[i].1).contains_key(x)
            by {
            if self.has(x) {
                let j = choose|j: int| 0 <= j < self.entries@.len() && #[trigger] self.entries@[j].0@ == x;
                assert(pre.entries@[j].0@ == x);
            }
            if pre.has(x) {
                let j = choose|j: int| 0 <= j < pre.entries@.len() && #[trigger] pre.entries@[j].0@ == x;
                assert(self.entries@[j].0@ == x);
            }
            if x == k {
                assert(self.entries@[i].0@ == x);
            }
        }
        assert forall|x: K::V| #[trigger] self.view().contains_key(x) implies self.view()[x] == pre.view().insert(k, self.entries@[i].1)[x]
            by {
            let j = choose|j: int| 0 <= j < self.entries@.len() && #[trigger] self.entries@[j].0@ == x;
            self.lemma_entry(j);
            if j != i {
                pre.lemma_entry(j);
            }
        }
        assert(self.view() =~= pre.view().insert(k, self.entries@[i].1));
    }

    proof fn lemma_view_after_push(&self, pre: Self)
        requires
            pre.wf(),
            self.wf(),
            self.entries@.len() == pre.entries@.len() + 1,
            self.entries@ == pre.entries@.push(self.entries@.last()),
        ensures
            self.view() == pre.view().insert(self.entries@.last().0@, self.entries@.last().1),
    {
        let n = pre.entries@.len() as int;
        let k = self.entries@[n].0@;
        let v = self.entries@[n].1;
        assert forall|x: K::V| #[trigger] self.view().contains_key(x) == pre.view().insert(k, v).contains_key(x) by {
            if self.has(x) {
                let j = choose|j: int| 0 <= j < self.entries@.len() && #[trigger] self.entries@[j].0@ == x;
                if j < n {
                    assert(pre.entries@[j].0@ == x);
                }
            }
            if pre.has(x) {
                let j = choose|j: int| 0 <= j < pre.entries@.len() && #[trigger] pre.entries@[j].0@ == x;
                assert(self.entries@[j].0@ == x);
            }
            if x == k {
                assert(self.entries@[n].0@ == x);
            }
        }
        assert forall|x: K::V| #[trigger] self.view().contains_key(x) implies self.view()[x] == pre.view().insert(k, v)[x] by {
            let j = choose|j: int| 0 <= j < self.entries@.len() && #[trigger] self.entries@[j].0@ == x;
            self.lemma_entry(j);
            if j != n {
                pre.lemma_entry(j);
            }
        }
        assert(self.view() =~= pre.view().insert(k, v));
    }

    /// Removes the entry under `k`, if any.
    pub fn remove(&mut self, k: &K)
        requires
            old(self).wf(),
        ensures
            final(self).wf(),
            final(self).view() == old(self).view().remove(k@),
            final(self).total() + old(self).amount_of(k@) == old(self).total(),
    {
        match self.find(k) {
            Some(i) => {
                let ghost pre = *self;
                proof {
                    self.lemma_entry(i as int);
                    lemma_total_remove(self.entries@, i as int);
                }
                self.entries.remove(i);
                proof {
                    let s = pre.entries@;
                    assert forall|a: int, b: int| 0 <= a < b < self.entries@.len() implies #[trigger] self.entries@[a].0@
                        != #[trigger] self.entries@[b].0@ by {
                        let a2 = if a < i { a } else { a + 1 };
                        let b2 = if b < i { b } else { b + 1 };
                        assert(self.entries@[a] == s[a2]);
                        assert(self.entries@[b] == s[b2]);
                        assert(s[a2].0@ != s[b2].0@);
                    }
                    assert forall|x: K::V| #[trigger] self.view().contains_key(x) == pre.view().remove(k@).contains_key(x) by {
                        if self.has(x) {
                            let j = choose|j: int| 0 <= j < self.entries@.len() && #[trigger] self.entries@[j].0@ == x;
                            let j2 = if j < i { j } else { j + 1 };
                            assert(s[j2].0@ == x);
                            assert(s[i as int].0@ != s[j2].0@);
                        }
                        if pre.has(x) && x != k@ {
                            let j = choose|j: int| 0 <= j < s.len() && #[trigger] s[j].0@ == x;
                            if j < i {
                                assert(self.entries@[j].0@ == x);
                            } else {
                                assert(j != i);
                                assert(self.entries@[j - 1].0@ == x);
                            }
                        }
                    }
                    assert forall|x: K::V| #[trigger] self.view().contains_key(x) implies self.view()[x] == pre.view().remove(k@)[x] by {
                        let j = choose|j: int| 0 <= j < self.entries@.len() && #[trigger] self.entries@[j].0@ == x;
                        let j2 = if j < i { j } else { j + 1 };
                        self.lemma_entry(j);
                        assert(s[j2] == self.entries@[j]);
                        pre.lemma_entry(j2);
                    }
                    assert(self.view() =~= pre.view().remove(k@));
                }
            },
            None => {
                proof {
                    assert(self.view() =~= self.view().remove(k@));
                }
            },
        }
    }

    /// All values, in storage order.
    pub fn values(&self) -> (r: Vec<V>)
        requires
            self.wf(),
        ensures
            seq_sum_amounts(r@) == self.total(),
    {
        let mut r: Vec<V> = Vec::new();
        let mut i: usize = 0;
        while i < self.entries.len()
            invariant
                i <= self.entries@.len(),
                seq_sum_amounts(r@) == seq_total(self.entries@.subrange(0, i as int)),
            decreases self.entries@.len() - i,
        {
            let ghost pre = r@;
            r.push(self.entries[i].1);
            proof {
                assert(r@.drop_last() =~= pre);
                assert(self.entries@.subrange(0, i + 1).drop_last() =~= self.entries@.subrange(0, i as int));
            }
            i = i + 1;
        }
        proof { assert(self.entries@.subrange(0, i as int) =~= self.entries@); }
        r
    }
}

/// Sum of the amounts of a sequence of values.
pub open spec fn seq_sum_amounts<V: Amount>(s: Seq<V>) -> nat
    decreases s.len(),
{
    if s.len() == 0 {
        0
    } else {
        seq_sum_amounts(s.drop_last()) + s.last().amount()
    }
}

/// Sums of prefixes never exceed the whole sum.
pub proof fn lemma_prefix_sum_le(s: Seq<u64>, i: int)
    requires
        0 <= i <= s.len(),
    ensures
        seq_sum_amounts(s.subrange(0, i)) <= seq_sum_amounts(s),
    decreases s.len(),
{
    if i < s.len() {
        lemma_prefix_sum_le(s.drop_last(), i);
        assert(s.drop_last().subrange(0, i) =~= s.subrange(0, i));
    } else {
        assert(s.subrange(0, i) =~= s);
    }
}

/// Sum of values whose total fits in `u64`.
pub fn sum_u64(values: &Vec<u64>) -> (r: u64)
    requires
        seq_sum_amounts(values@) <= u64::MAX,
    ensures
        r == seq_sum_amounts(values@),
{
    let mut sum: u64 = 0;
    let mut i: usize = 0;
    while i < values.len()
        invariant
            i <= values@.len(),
            seq_sum_amounts(values@) <= u64::MAX,
            sum == seq_sum_amounts(values@.subrange(0, i as int)),
        decreases values@.len() - i,
    {
        proof {
            lemma_prefix_sum_le(values@, i + 1);
            assert(values@.subrange(0, i + 1).drop_last() =~= values@.subrange(0, i as int));
        }
        sum = sum + values[i];
        i = i + 1;
    }
    proof {
        assert(values@.subrange(0, i as int) =~= values@);
    }
    sum
}

} // verus!
