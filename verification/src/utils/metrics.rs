//! Named event counters, as kept by the metrics recorder.

use vstd::prelude::*;

verus! {

/// Counters by name. Each name occurs at most once.
///
/// The counts are kept as a vector of pairs rather than in a
/// `HashMap<String, u64>`: vstd states what a hash map's methods do only for
/// key types that obey its key model, and it gives that model for integer and
/// boolean keys, not for `String`, so the counts of a map keyed by names could
/// not be proved.
pub struct CounterTable {
    entries: Vec<(String, u64)>,
}

/// No name occurs twice.
pub open spec fn names_distinct(e: Seq<(String, u64)>) -> bool {
    forall|i: int, j: int| 0 <= i < j < e.len() ==> e[i].0@ != e[j].0@
}

impl CounterTable {
    #[verifier::type_invariant]
    spec fn names_unique(self) -> bool {
        names_distinct(self.entries@)
    }

    /// The count of each name that was counted.
    pub closed spec fn counts(&self) -> Map<Seq<char>, u64> {
        Map::new(
            |n: Seq<char>| exists|i: int| 0 <= i < self.entries@.len() && self.entries@[i].0@ == n,
            |n: Seq<char>|
                self.entries@[choose|i: int| 0 <= i < self.entries@.len() && self.entries@[i].0@ == n].1,
        )
    }

    /// The count of a name (0 when it was never counted).
    pub open spec fn count_of(&self, name: Seq<char>) -> u64 {
        if self.counts().contains_key(name) {
            self.counts()[name]
        } else {
            0
        }
    }

    pub fn new() -> (r: Self)
        ensures
            r.counts() == Map::<Seq<char>, u64>::empty(),
    {
        let r = CounterTable { entries: Vec::new() };
        assert(r.counts() =~= Map::<Seq<char>, u64>::empty());
        r
    }

    /// Index of the entry of `name`.
    fn position(&self, name: &str) -> (r: Option<usize>)
        ensures
            match r {
                Some(i) => i < self.entries@.len() && self.entries@[i as int].0@ == name@,
                None => forall|i: int| 0 <= i < self.entries@.len() ==> self.entries@[i].0@ != name@,
            },
    {
        let mut i: usize = 0;
        while i < self.entries.len()
            invariant
                i <= self.entries@.len(),
                forall|j: int| 0 <= j < i ==> self.entries@[j].0@ != name@,
            decreases self.entries.len() - i,
        {
            if crate::text::str_eq(self.entries[i].0.as_str(), name) {
                return Some(i);
            }
            i += 1;
        }
        None
    }

    proof fn lemma_count_at(&self, i: int)
        requires
            0 <= i < self.entries@.len(),
            names_distinct(self.entries@),
        ensures
            self.counts().contains_key(self.entries@[i].0@),
            self.counts()[self.entries@[i].0@] == self.entries@[i].1,
    {
        let n = self.entries@[i].0@;
        let k = choose|k: int| 0 <= k < self.entries@.len() && self.entries@[k].0@ == n;
        assert(k == i);
    }

    /// Adds one to the count of `name` (wrapping around at `u64::MAX`).
    pub fn increment(&mut self, name: &str)
        ensures
            final(self).counts() == old(self).counts().insert(
                name@,
                (if old(self).count_of(name@) == u64::MAX {
                    0
                } else {
                    (old(self).count_of(name@) + 1) as u64
                }),
            ),
    {
        proof {
            use_type_invariant(&*self);
        }
        let ghost before = *self;
        assert(names_distinct(before.entries@));
        match self.position(name) {
            Some(i) => {
                proof {
                    before.lemma_count_at(i as int);
                }
                let c = self.entries[i].1;
                let n = self.entries[i].0.clone();
                let mut entries: Vec<(String, u64)> = Vec::new();
                std::mem::swap(&mut entries, &mut self.entries);
                entries.set(i, (n, c.wrapping_add(1)));
                self.entries = entries;
                proof {
                    assert forall|j: int| 0 <= j < self.entries@.len() implies self.entries@[j].0@ == before.entries@[j].0@ by {}
                    assert(names_distinct(self.entries@));
                    assert(self.counts() =~= before.counts().insert(name@, c.wrapping_add(1))) by {
                        assert forall|m: Seq<char>| #[trigger] self.counts().contains_key(m) == before.counts().insert(name@, c.wrapping_add(1)).contains_key(m) by {
                            if self.counts().contains_key(m) {
                                let k = choose|k: int| 0 <= k < self.entries@.len() && self.entries@[k].0@ == m;
                                assert(before.entries@[k].0@ == m);
                            }
                            if before.counts().contains_key(m) {
                                let k = choose|k: int| 0 <= k < before.entries@.len() && before.entries@[k].0@ == m;
                                assert(self.entries@[k].0@ == m);
                            }
                        }
                        assert forall|m: Seq<char>| #[trigger] self.counts().contains_key(m) implies self.counts()[m] == before.counts().insert(name@, c.wrapping_add(1))[m] by {
                            let k = choose|k: int| 0 <= k < self.entries@.len() && self.entries@[k].0@ == m;
                            self.lemma_count_at(k);
                            before.lemma_count_at(k);
                        }
                    }
                }
            },
            None => {
                let mut entries: Vec<(String, u64)> = Vec::new();
                std::mem::swap(&mut entries, &mut self.entries);
                entries.push((name.to_string(), 1));
                self.entries = entries;
                proof {
                    let last = self.entries@.len() - 1;
                    assert(self.entries@[last].0@ == name@);
                    assert(names_distinct(self.entries@));
                    assert(self.counts() =~= before.counts().insert(name@, 1u64)) by {
                        assert forall|m: Seq<char>| #[trigger] self.counts().contains_key(m) == before.counts().insert(name@, 1u64).contains_key(m) by {
                            if self.counts().contains_key(m) {
                                let k = choose|k: int| 0 <= k < self.entries@.len() && self.entries@[k].0@ == m;
                                if k < last {
                                    assert(before.entries@[k].0@ == m);
                                }
                            }
                            if before.counts().contains_key(m) {
                                let k = choose|k: int| 0 <= k < before.entries@.len() && before.entries@[k].0@ == m;
                                assert(self.entries@[k].0@ == m);
                            }
                            if m == name@ {
                                assert(self.entries@[last].0@ == m);
                            }
                        }
                        assert forall|m: Seq<char>| #[trigger] self.counts().contains_key(m) implies self.counts()[m] == before.counts().insert(name@, 1u64)[m] by {
                            let k = choose|k: int| 0 <= k < self.entries@.len() && self.entries@[k].0@ == m;
                            self.lemma_count_at(k);
                            if k < last {
                                before.lemma_count_at(k);
                            }
                        }
                    }
                }
            },
        }
    }

    /// The count of `name` (0 when it was never counted).
    pub fn get(&self, name: &str) -> (r: u64)
        ensures
            r == self.count_of(name@),
    {
        proof {
            use_type_invariant(self);
        }
        match self.position(name) {
            Some(i) => {
                proof {
                    self.lemma_count_at(i as int);
                }
                self.entries[i].1
            },
            None => {
                proof {
                    if self.counts().contains_key(name@) {
                        let k = choose|k: int| 0 <= k < self.entries@.len() && self.entries@[k].0@ == name@;
                        assert(self.entries@[k].0@ == name@);
                    }
                }
                0
            },
        }
    }
}

/// Law: after `increment(name)`, `get(name)` is one more than before
/// (modulo 2^64) and `get` of every other name is unchanged.
pub proof fn law_increment_counts_once(
    before: CounterTable,
    after: CounterTable,
    name: Seq<char>,
    other: Seq<char>,
)
    requires
        after.counts() == before.counts().insert(
            name,
            (if before.count_of(name) == u64::MAX {
                0
            } else {
                (before.count_of(name) + 1) as u64
            }),
        ),
        other != name,
    ensures
        after.count_of(name) == (before.count_of(name) + 1) % 0x1_0000_0000_0000_0000,
        after.count_of(other) == before.count_of(other),
{
}

} // verus!
