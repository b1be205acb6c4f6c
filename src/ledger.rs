use vstd::prelude::*;

verus! {

/// The amount recorded for `addr` in a ledger view, zero where it has no entry.
pub open spec fn amount_of(m: Map<Seq<char>, u128>, addr: Seq<char>) -> u128 {
    if m.contains_key(addr) {
        m[addr]
    } else {
        0
    }
}

/// Sum of the amounts of a sequence of entries.
pub open spec fn entries_total(s: Seq<(String, u128)>) -> int
    decreases s.len(),
{
    if s.len() == 0 {
        0
    } else {
        entries_total(s.drop_last()) + s.last().1
    }
}

proof fn lemma_total_update(s: Seq<(String, u128)>, i: int, e: (String, u128))
    requires
        0 <= i < s.len(),
    ensures
        entries_total(s.update(i, e)) == entries_total(s) - s[i].1 + e.1,
    decreases s.len(),
{
    if i == s.len() - 1 {
        assert(s.update(i, e).drop_last() =~= s.drop_last());
    } else {
        assert(s.update(i, e).drop_last() =~= s.drop_last().update(i, e));
        lemma_total_update(s.drop_last(), i, e);
    }
}

proof fn lemma_total_prefix(s: Seq<(String, u128)>, k: int)
    requires
        0 <= k <= s.len(),
    ensures
        entries_total(s.take(k)) <= entries_total(s),
    decreases s.len(),
{
    if k == s.len() {
        assert(s.take(k) =~= s);
    } else {
        assert(s.drop_last().take(k) =~= s.take(k));
        lemma_total_prefix(s.drop_last(), k);
    }
}

/// Sum of the amounts that `m` records at the keys `ks`, in order.
pub open spec fn sum_at(m: Map<Seq<char>, u128>, ks: Seq<Seq<char>>) -> int
    decreases ks.len(),
{
    if ks.len() == 0 {
        0
    } else {
        sum_at(m, ks.drop_last()) + m[ks.last()]
    }
}

proof fn lemma_entries_total_at(
    s: Seq<(String, u128)>,
    ks: Seq<Seq<char>>,
    m: Map<Seq<char>, u128>,
)
    requires
        ks.len() == s.len(),
        forall|i: int| 0 <= i < s.len() ==> ks[i] == s[i].0@ && m[ks[i]] == s[i].1,
    ensures
        entries_total(s) == sum_at(m, ks),
    decreases s.len(),
{
    if s.len() > 0 {
        lemma_entries_total_at(s.drop_last(), ks.drop_last(), m);
    }
}

/// Per-contributor ledger: the cumulative amount that each account has pledged.
///
/// Entries are kept in a vector with distinct keys; the ghost map is its
/// abstract contents.
pub struct Contributions {
    entries: Vec<(String, u128)>,
    contents: Ghost<Map<Seq<char>, u128>>,
}

impl View for Contributions {
    type V = Map<Seq<char>, u128>;

    closed spec fn view(&self) -> Map<Seq<char>, u128> {
        self.contents@
    }
}

impl Contributions {
    /// The vector and the ghost map describe the same entries, each key once.
    pub closed spec fn wf(&self) -> bool {
        &&& forall|i: int, j: int|
            0 <= i < j < self.entries@.len() ==> self.entries@[i].0@ != self.entries@[j].0@
        &&& forall|i: int|
            0 <= i < self.entries@.len() ==> {
                &&& #[trigger] self.contents@.contains_key(self.entries@[i].0@)
                &&& self.contents@[self.entries@[i].0@] == self.entries@[i].1
            }
        &&& forall|k: Seq<char>|
            #[trigger] self.contents@.contains_key(k) ==> exists|i: int|
                0 <= i < self.entries@.len() && #[trigger] self.entries@[i].0@ == k
    }

    /// Sum of all recorded amounts.
    pub closed spec fn total(&self) -> int {
        entries_total(self.entries@)
    }

    /// The total is the sum of the ledger's amounts: listing every
    /// contributor once, in some order, their amounts add up to `total()`.
    pub proof fn lemma_total_is_sum(&self) -> (ks: Seq<Seq<char>>)
        requires
            self.wf(),
        ensures
            ks.no_duplicates(),
            forall|k: Seq<char>| ks.contains(k) <==> self@.contains_key(k),
            self.total() == sum_at(self@, ks),
    {
        let ks = Seq::new(self.entries@.len(), |i: int| self.entries@[i].0@);
        assert forall|i: int| 0 <= i < self.entries@.len() implies ks[i] == self.entries@[i].0@
            && self@[ks[i]] == self.entries@[i].1 by {
            assert(self.contents@.contains_key(self.entries@[i].0@));
        }
        lemma_entries_total_at(self.entries@, ks, self@);
        assert forall|i: int, j: int|
            0 <= i < ks.len() && 0 <= j < ks.len() && i != j implies ks[i] != ks[j] by {
            if i < j {
                assert(self.entries@[i].0@ != self.entries@[j].0@);
            } else {
                assert(self.entries@[j].0@ != self.entries@[i].0@);
            }
        }
        assert forall|k: Seq<char>| ks.contains(k) <==> self@.contains_key(k) by {
            if self@.contains_key(k) {
                let j = choose|j: int| 0 <= j < self.entries@.len() && #[trigger] self.entries@[j].0@ == k;
                assert(ks[j] == k);
            }
            if ks.contains(k) {
                let j = choose|j: int| 0 <= j < ks.len() && ks[j] == k;
                assert(self.contents@.contains_key(self.entries@[j].0@));
            }
        }
        ks
    }

    /// An empty ledger.
    pub fn new() -> (r: Self)
        ensures
            r.wf(),
            r@ == Map::<Seq<char>, u128>::empty(),
            r.total() == 0,
    {
        Contributions { entries: Vec::new(), contents: Ghost(Map::empty()) }
    }

    /// Position of the entry of `addr`, if there is one.
    fn position(&self, addr: &String) -> (r: Option<usize>)
        requires
            self.wf(),
        ensures
            match r {
                Some(i) => i < self.entries@.len() && self.entries@[i as int].0@ == addr@,
                None => !self@.contains_key(addr@),
            },
    {
        let mut i: usize = 0;
        while i < self.entries.len()
            invariant
                self.wf(),
                i <= self.entries@.len(),
                forall|j: int| 0 <= j < i ==> self.entries@[j].0@ != addr@,
            decreases self.entries@.len() - i,
        {
            if self.entries[i].0 == *addr {
                return Some(i);
            }
            i = i + 1;
        }
        None
    }

    /// The amount recorded for `addr`, or `None` where it never contributed
    /// (or was refunded).
    pub fn get(&self, addr: &String) -> (r: Option<u128>)
        requires
            self.wf(),
        ensures
            r == (if self@.contains_key(addr@) {
                Some(self@[addr@])
            } else {
                None
            }),
    {
        match self.position(addr) {
            Some(i) => Some(self.entries[i].1),
            None => None,
        }
    }

    /// Whether every entry is at most `bound`.
    pub fn all_at_most(&self, bound: u128) -> (r: bool)
        requires
            self.wf(),
        ensures
            r == (forall|k: Seq<char>| #[trigger] self@.contains_key(k) ==> self@[k] <= bound),
    {
        let mut i: usize = 0;
        while i < self.entries.len()
            invariant
                self.wf(),
                i <= self.entries@.len(),
                forall|j: int| 0 <= j < i ==> self.entries@[j].1 <= bound,
            decreases self.entries@.len() - i,
        {
            if self.entries[i].1 > bound {
                assert(self@.contains_key(self.entries@[i as int].0@));
                return false;
            }
            i = i + 1;
        }
        assert forall|k: Seq<char>| #[trigger] self@.contains_key(k) implies self@[k] <= bound by {
            let j = choose|j: int| 0 <= j < self.entries@.len() && #[trigger] self.entries@[j].0@ == k;
        }
        true
    }

    /// Whether the sum of all entries is at most `bound`.
    pub fn total_at_most(&self, bound: u128) -> (r: bool)
        ensures
            r == (self.total() <= bound),
    {
        let mut acc: u128 = 0;
        let mut i: usize = 0;
        assert(self.entries@.take(0) =~= Seq::<(String, u128)>::empty());
        while i < self.entries.len()
            invariant
                i <= self.entries@.len(),
                acc == entries_total(self.entries@.take(i as int)),
                acc <= bound,
            decreases self.entries@.len() - i,
        {
            assert(self.entries@.take(i + 1).drop_last() =~= self.entries@.take(i as int));
            if self.entries[i].1 > bound - acc {
                proof {
                    lemma_total_prefix(self.entries@, i + 1);
                }
                return false;
            }
            acc = acc + self.entries[i].1;
            i = i + 1;
        }
        assert(self.entries@.take(i as int) =~= self.entries@);
        true
    }

    /// Adds `amount` to the entry of `addr`, creating it where absent.
    pub fn add(&mut self, addr: &String, amount: u128)
        requires
            old(self).wf(),
            amount_of(old(self)@, addr@) + amount <= u128::MAX,
        ensures
            final(self).wf(),
            final(self)@ == old(self)@.insert(addr@, (amount_of(old(self)@, addr@) + amount) as u128),
            final(self).total() == old(self).total() + amount,
    {
        let ghost new_contents = self@.insert(addr@, (amount_of(self@, addr@) + amount) as u128);
        match self.position(addr) {
            Some(i) => {
                let total = self.entries[i].1 + amount;
                let name = self.entries[i].0.clone();
                proof {
                    lemma_total_update(self.entries@, i as int, (name, total));
                }
                self.entries.set(i, (name, total));
            }
            None => {
                let entry = (addr.clone(), amount);
                assert(self.entries@.push(entry).drop_last() =~= self.entries@);
                self.entries.push(entry);
            }
        }
        self.contents = Ghost(new_contents);
        assert forall|k: Seq<char>| #[trigger] self.contents@.contains_key(k) implies exists|i: int|
            0 <= i < self.entries@.len() && #[trigger] self.entries@[i].0@ == k by {
            if k == addr@ {
                if old(self)@.contains_key(addr@) {
                    let j = choose|j: int|
                        0 <= j < old(self).entries@.len() && #[trigger] old(self).entries@[j].0@ == k;
                    assert(self.entries@[j].0@ == k);
                } else {
                    assert(self.entries@[self.entries@.len() - 1].0@ == k);
                }
            } else {
                let j = choose|j: int|
                    0 <= j < old(self).entries@.len() && #[trigger] old(self).entries@[j].0@ == k;
                assert(self.entries@[j].0@ == k);
            }
        }
    }

    /// Removes the entry of `addr` and returns the amount it held.
    pub fn remove(&mut self, addr: &String) -> (r: Option<u128>)
        requires
            old(self).wf(),
        ensures
            final(self).wf(),
            final(self)@ == old(self)@.remove(addr@),
            final(self).total() == old(self).total() - amount_of(old(self)@, addr@),
            r == (if old(self)@.contains_key(addr@) {
                Some(old(self)@[addr@])
            } else {
                None
            }),
    {
        match self.position(addr) {
            Some(i) => {
                let ghost before = self.entries@;
                proof {
                    lemma_total_update(before, i as int, before.last());
                }
                let entry = self.entries.swap_remove(i);
                self.contents = Ghost(self@.remove(addr@));
                let ghost last = before.len() - 1;
                assert forall|x: int, y: int|
                    0 <= x < y < self.entries@.len() implies self.entries@[x].0@
                    != self.entries@[y].0@ by {
                    let ox = if x == i { last } else { x };
                    let oy = if y == i { last } else { y };
                    assert(before[ox].0@ != before[oy].0@);
                }
                assert forall|x: int| 0 <= x < self.entries@.len() implies {
                    &&& #[trigger] self.contents@.contains_key(self.entries@[x].0@)
                    &&& self.contents@[self.entries@[x].0@] == self.entries@[x].1
                } by {
                    let ox = if x == i { last } else { x };
                    assert(before[ox].0@ != before[i as int].0@);
                }
                assert forall|k: Seq<char>| #[trigger] self.contents@.contains_key(k) implies exists|x: int|
                    0 <= x < self.entries@.len() && #[trigger] self.entries@[x].0@ == k by {
                    let j = choose|j: int| 0 <= j < before.len() && #[trigger] before[j].0@ == k;
                    if j == last {
                        assert(self.entries@[i as int].0@ == k);
                    } else {
                        assert(self.entries@[j].0@ == k);
                    }
                }
                Some(entry.1)
            }
            None => {
                assert(self@.remove(addr@) =~= self@);
                None
            }
        }
    }
}

} // verus!
