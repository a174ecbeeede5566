//! Verified collections keyed by strings: an association map with one entry
//! per key, and a set of strings. Both keep their entries in a `Vec` whose
//! keys are pairwise distinct, which makes "one vote per user" facts direct.

use vstd::prelude::*;

use crate::text::str_eq;

verus! {

/// A map from strings to values: at most one entry per key.
#[derive(Clone, Debug)]
pub struct StrMap<V> {
    pub pairs: Vec<(String, V)>,
}

impl<V> StrMap<V> {
    /// The entries, oldest first.
    pub open spec fn entries(&self) -> Seq<(String, V)> {
        self.pairs@
    }

    /// Keys are pairwise distinct.
    pub open spec fn wf(&self) -> bool {
        forall|i: int, j: int|
            0 <= i < j < self.entries().len() ==> self.entries()[i].0@ != self.entries()[j].0@
    }

    pub open spec fn spec_contains(&self, k: Seq<char>) -> bool {
        exists|i: int| 0 <= i < self.entries().len() && self.entries()[i].0@ == k
    }

    /// The value stored under `k`, if any.
    pub open spec fn spec_get(&self, k: Seq<char>) -> Option<V> {
        if self.spec_contains(k) {
            let i = choose|i: int| 0 <= i < self.entries().len() && self.entries()[i].0@ == k;
            Some(self.entries()[i].1)
        } else {
            None
        }
    }

    /// With distinct keys, the value under the key of entry `i` is entry
    /// `i`'s value.
    pub proof fn lemma_get_at(&self, i: int)
        requires
            self.wf(),
            0 <= i < self.entries().len(),
        ensures
            self.spec_get(self.entries()[i].0@) == Some(self.entries()[i].1),
    {
        let k = self.entries()[i].0@;
        assert(self.spec_contains(k));
        let j = choose|j: int| 0 <= j < self.entries().len() && self.entries()[j].0@ == k;
        if i != j {
            if i < j {
                assert(self.entries()[i].0@ != self.entries()[j].0@);
            } else {
                assert(self.entries()[j].0@ != self.entries()[i].0@);
            }
        }
    }

    pub fn new() -> (r: StrMap<V>)
        ensures
            r.entries().len() == 0,
            r.wf(),
    {
        StrMap { pairs: Vec::new() }
    }

    pub fn len(&self) -> (r: usize)
        ensures
            r == self.entries().len(),
    {
        self.pairs.len()
    }

    /// A borrow of the entries, for walking the map.
    pub fn as_vec(&self) -> (r: &Vec<(String, V)>)
        ensures
            r@ == self.entries(),
    {
        &self.pairs
    }

    fn index_of(&self, k: &str) -> (r: Option<usize>)
        requires
            self.wf(),
        ensures
            match r {
                Some(i) => i < self.entries().len() && self.entries()[i as int].0@ == k@,
                None => !self.spec_contains(k@),
            },
    {
        let n = self.pairs.len();
        let mut i: usize = 0;
        while i < n
            invariant
                n == self.entries().len(),
                i <= n,
                forall|j: int| 0 <= j < i ==> self.entries()[j].0@ != k@,
            decreases n - i,
        {
            if str_eq(self.pairs[i].0.as_str(), k) {
                return Some(i);
            }
            i = i + 1;
        }
        None
    }

    pub fn get(&self, k: &str) -> (r: Option<&V>)
        requires
            self.wf(),
        ensures
            match r {
                Some(v) => self.spec_get(k@) == Some(*v),
                None => self.spec_get(k@) is None,
            },
    {
        match self.index_of(k) {
            Some(i) => {
                proof {
                    self.lemma_get_at(i as int);
                }
                Some(&self.pairs[i].1)
            },
            None => None,
        }
    }

    pub fn contains(&self, k: &str) -> (r: bool)
        requires
            self.wf(),
        ensures
            r == self.spec_contains(k@),
    {
        self.index_of(k).is_some()
    }

    /// Store `v` under `k`, replacing any earlier entry for `k`.
    pub fn insert(&mut self, k: String, v: V)
        requires
            old(self).wf(),
        ensures
            final(self).wf(),
            forall|k2: Seq<char>|
                final(self).spec_get(k2) == if k2 == k@ {
                    Some(v)
                } else {
                    old(self).spec_get(k2)
                },
            final(self).entries().len() == old(self).entries().len() + (
            if old(self).spec_contains(k@) {
                0int
            } else {
                1int
            }),
            forall|i: int|
                0 <= i < final(self).entries().len() ==> old(self).entries().contains(
                    #[trigger] final(self).entries()[i],
                ) || (final(self).entries()[i].0@ == k@ && final(self).entries()[i].1 == v),
    {
        let ghost old_self = *self;
        match self.index_of(k.as_str()) {
            Some(i) => {
                let slot = &mut self.pairs[i];
                slot.1 = v;
                proof {
                    assert(self.entries() =~= old_self.entries().update(
                        i as int,
                        (old_self.entries()[i as int].0, v),
                    ));
                    assert forall|i2: int|
                        0 <= i2 < self.entries().len() implies (old_self.entries().contains(
                        #[trigger] self.entries()[i2],
                    ) || (self.entries()[i2].0@ == k@ && self.entries()[i2].1 == v)) by {
                        if i2 != i {
                            assert(self.entries()[i2] == old_self.entries()[i2]);
                        }
                    }
                    assert forall|k2: Seq<char>|
                        final(self).spec_get(k2) == (if k2 == k@ {
                            Some(v)
                        } else {
                            old_self.spec_get(k2)
                        }) by {
                        if k2 == k@ {
                            self.lemma_get_at(i as int);
                        } else {
                            if old_self.spec_contains(k2) {
                                let j = choose|j: int|
                                    0 <= j < old_self.entries().len() && old_self.entries()[j].0@
                                        == k2;
                                old_self.lemma_get_at(j);
                                self.lemma_get_at(j);
                            } else {
                                assert(!self.spec_contains(k2));
                            }
                        }
                    }
                }
            },
            None => {
                proof {
                    assert(!old_self.spec_contains(k@));
                }
                self.pairs.push((k, v));
                proof {
                    let n = old_self.entries().len() as int;
                    assert forall|i2: int|
                        0 <= i2 < self.entries().len() implies (old_self.entries().contains(
                        #[trigger] self.entries()[i2],
                    ) || (self.entries()[i2].0@ == k@ && self.entries()[i2].1 == v)) by {
                        if i2 < n {
                            assert(self.entries()[i2] == old_self.entries()[i2]);
                        }
                    }
                    assert forall|k2: Seq<char>|
                        final(self).spec_get(k2) == (if k2 == k@ {
                            Some(v)
                        } else {
                            old_self.spec_get(k2)
                        }) by {
                        if k2 == k@ {
                            self.lemma_get_at(n);
                        } else {
                            if old_self.spec_contains(k2) {
                                let j = choose|j: int|
                                    0 <= j < old_self.entries().len() && old_self.entries()[j].0@
                                        == k2;
                                old_self.lemma_get_at(j);
                                self.lemma_get_at(j);
                            } else {
                                assert(!self.spec_contains(k2)) by {
                                    if self.spec_contains(k2) {
                                        let j = choose|j: int|
                                            0 <= j < self.entries().len() && self.entries()[j].0@
                                                == k2;
                                        assert(j == n);
                                    }
                                }
                            }
                        }
                    }
                }
            },
        }
    }

    /// The index of the entry under `k`, for walking or mutating in place.
    pub fn position(&self, k: &str) -> (r: Option<usize>)
        requires
            self.wf(),
        ensures
            match r {
                Some(i) => i < self.entries().len() && self.entries()[i as int].0@ == k@,
                None => !self.spec_contains(k@),
            },
    {
        self.index_of(k)
    }

    /// Drop the entry under `k`, if any.
    pub fn remove(&mut self, k: &str)
        requires
            old(self).wf(),
        ensures
            final(self).wf(),
            forall|k2: Seq<char>|
                final(self).spec_get(k2) == if k2 == k@ {
                    None
                } else {
                    old(self).spec_get(k2)
                },
            final(self).entries().len() == old(self).entries().len() - (
            if old(self).spec_contains(k@) {
                1int
            } else {
                0int
            }),
            forall|i: int|
                0 <= i < final(self).entries().len() ==> old(self).entries().contains(
                    #[trigger] final(self).entries()[i],
                ),
    {
        let ghost old_self = *self;
        match self.index_of(k) {
            Some(i) => {
                self.pairs.remove(i);
                proof {
                    let n = old_self.entries().len() as int;
                    let ii = i as int;
                    assert(self.entries() =~= old_self.entries().subrange(0, ii)
                        + old_self.entries().subrange(ii + 1, n));
                    assert forall|i2: int|
                        0 <= i2 < self.entries().len() implies old_self.entries().contains(
                        #[trigger] self.entries()[i2],
                    ) by {
                        let i0 = if i2 < ii {
                            i2
                        } else {
                            i2 + 1
                        };
                        assert(self.entries()[i2] == old_self.entries()[i0]);
                    }
                    assert forall|a: int, b: int|
                        0 <= a < self.entries().len() && 0 <= b < self.entries().len() && a
                            != b implies self.entries()[a].0@ != self.entries()[b].0@ by {
                        let a0 = if a < ii {
                            a
                        } else {
                            a + 1
                        };
                        let b0 = if b < ii {
                            b
                        } else {
                            b + 1
                        };
                        assert(self.entries()[a] == old_self.entries()[a0]);
                        assert(self.entries()[b] == old_self.entries()[b0]);
                    }
                    assert forall|k2: Seq<char>|
                        final(self).spec_get(k2) == (if k2 == k@ {
                            None
                        } else {
                            old_self.spec_get(k2)
                        }) by {
                        if k2 == k@ {
                            assert(!self.spec_contains(k2)) by {
                                if self.spec_contains(k2) {
                                    let j = choose|j: int|
                                        0 <= j < self.entries().len() && self.entries()[j].0@
                                            == k2;
                                    let j0 = if j < ii {
                                        j
                                    } else {
                                        j + 1
                                    };
                                    assert(old_self.entries()[j0].0@ == k2);
                                    if j0 < ii {
                                        assert(old_self.entries()[j0].0@ != old_self.entries()[
                                            ii].0@);
                                    } else {
                                        assert(old_self.entries()[ii].0@ != old_self.entries()[
                                            j0].0@);
                                    }
                                }
                            }
                        } else {
                            if old_self.spec_contains(k2) {
                                let j = choose|j: int|
                                    0 <= j < old_self.entries().len() && old_self.entries()[j].0@
                                        == k2;
                                old_self.lemma_get_at(j);
                                if j < ii {
                                    assert(self.entries()[j] == old_self.entries()[j]);
                                    self.lemma_get_at(j);
                                } else {
                                    assert(j != ii);
                                    assert(self.entries()[j - 1] == old_self.entries()[j]);
                                    self.lemma_get_at(j - 1);
                                }
                            } else {
                                assert(!self.spec_contains(k2)) by {
                                    if self.spec_contains(k2) {
                                        let j = choose|j: int|
                                            0 <= j < self.entries().len() && self.entries()[j].0@
                                                == k2;
                                        let j0 = if j < ii {
                                            j
                                        } else {
                                            j + 1
                                        };
                                        assert(old_self.entries()[j0].0@ == k2);
                                    }
                                }
                            }
                        }
                    }
                }
            },
            None => {},
        }
    }

    /// Drop every entry.
    pub fn clear(&mut self)
        ensures
            final(self).entries().len() == 0,
            final(self).wf(),
    {
        self.pairs.clear();
    }
}

/// A set of strings.
#[derive(Clone, Debug)]
pub struct StrSet {
    pub items: Vec<String>,
}

impl StrSet {
    /// The members' character sequences, in insertion order.
    pub open spec fn keys(&self) -> Seq<Seq<char>> {
        self.items@.map_values(|s: String| s@)
    }

    /// Members are pairwise distinct.
    pub open spec fn wf(&self) -> bool {
        self.keys().no_duplicates()
    }

    /// The set of members.
    pub open spec fn view(&self) -> Set<Seq<char>> {
        self.keys().to_set()
    }

    pub open spec fn spec_contains(&self, k: Seq<char>) -> bool {
        self.view().contains(k)
    }

    /// With distinct members, the member count equals the set's cardinality.
    pub proof fn lemma_card(&self)
        requires
            self.wf(),
        ensures
            self.view().len() == self.items@.len(),
            self.view().finite(),
    {
        self.keys().unique_seq_to_set();
    }

    pub fn new() -> (r: StrSet)
        ensures
            r.view() =~= Set::<Seq<char>>::empty(),
            r.wf(),
            r.items@.len() == 0,
    {
        let r = StrSet { items: Vec::new() };
        proof {
            assert(r.keys() =~= Seq::<Seq<char>>::empty());
        }
        r
    }

    pub fn len(&self) -> (r: usize)
        ensures
            r == self.items@.len(),
    {
        self.items.len()
    }

    /// A borrow of the members, for walking the set.
    pub fn as_vec(&self) -> (r: &Vec<String>)
        ensures
            r@.map_values(|s: String| s@) == self.keys(),
    {
        &self.items
    }

    fn index_of(&self, k: &str) -> (r: Option<usize>)
        ensures
            match r {
                Some(i) => i < self.keys().len() && self.keys()[i as int] == k@,
                None => !self.spec_contains(k@),
            },
    {
        let n = self.items.len();
        let mut i: usize = 0;
        while i < n
            invariant
                n == self.keys().len(),
                i <= n,
                forall|j: int| 0 <= j < i ==> self.keys()[j] != k@,
            decreases n - i,
        {
            if str_eq(self.items[i].as_str(), k) {
                return Some(i);
            }
            i = i + 1;
        }
        proof {
            if self.spec_contains(k@) {
                let j = choose|j: int| 0 <= j < self.keys().len() && self.keys()[j] == k@;
                assert(self.keys()[j] != k@);
            }
        }
        None
    }

    pub fn contains(&self, k: &str) -> (r: bool)
        ensures
            r == self.spec_contains(k@),
    {
        match self.index_of(k) {
            Some(i) => {
                proof {
                    assert(self.view().contains(self.keys()[i as int]));
                }
                true
            },
            None => false,
        }
    }

    /// Add `k`; nothing changes when it is already a member.
    pub fn insert(&mut self, k: String)
        requires
            old(self).wf(),
        ensures
            final(self).wf(),
            final(self).view() =~= old(self).view().insert(k@),
            final(self).items@.len() == old(self).items@.len() + (
            if old(self).spec_contains(k@) {
                0int
            } else {
                1int
            }),
    {
        let ghost old_self = *self;
        match self.index_of(k.as_str()) {
            Some(i) => {
                proof {
                    assert(old_self.view().contains(k@)) by {
                        assert(old_self.view().contains(old_self.keys()[i as int]));
                    }
                    assert(final(self).view() =~= old_self.view().insert(k@));
                }
            },
            None => {
                self.items.push(k);
                proof {
                    assert(self.keys() =~= old_self.keys().push(k@));
                    assert forall|y: Seq<char>| #[trigger]
                        self.view().contains(y) implies old_self.view().insert(k@).contains(y) by {
                        let j = choose|j: int| 0 <= j < self.keys().len() && self.keys()[j] == y;
                        if j < old_self.keys().len() {
                            assert(old_self.keys()[j] == y);
                        }
                    }
                    assert forall|y: Seq<char>| old_self.view().insert(k@).contains(
                        y,
                    ) implies #[trigger] self.view().contains(y) by {
                        if y == k@ {
                            assert(self.keys()[self.keys().len() - 1] == y);
                        } else {
                            let j = choose|j: int|
                                0 <= j < old_self.keys().len() && old_self.keys()[j] == y;
                            assert(self.keys()[j] == y);
                        }
                    }
                    assert(final(self).view() =~= old_self.view().insert(k@));
                }
            },
        }
    }

    /// Remove `k`; nothing changes when it is not a member.
    pub fn remove(&mut self, k: &str)
        requires
            old(self).wf(),
        ensures
            final(self).wf(),
            final(self).view() =~= old(self).view().remove(k@),
            final(self).items@.len() == old(self).items@.len() - (
            if old(self).spec_contains(k@) {
                1int
            } else {
                0int
            }),
    {
        let ghost old_self = *self;
        match self.index_of(k) {
            Some(i) => {
                self.items.remove(i);
                proof {
                    let n = old_self.keys().len() as int;
                    let ii = i as int;
                    assert(self.keys() =~= old_self.keys().subrange(0, ii)
                        + old_self.keys().subrange(ii + 1, n));
                    assert forall|a: int, b: int|
                        0 <= a < self.keys().len() && 0 <= b < self.keys().len() && a
                            != b implies self.keys()[a] != self.keys()[b] by {
                        let a0 = if a < ii {
                            a
                        } else {
                            a + 1
                        };
                        let b0 = if b < ii {
                            b
                        } else {
                            b + 1
                        };
                        assert(self.keys()[a] == old_self.keys()[a0]);
                        assert(self.keys()[b] == old_self.keys()[b0]);
                    }
                    assert forall|y: Seq<char>| #[trigger]
                        self.view().contains(y) implies old_self.view().remove(k@).contains(y) by {
                        let j = choose|j: int| 0 <= j < self.keys().len() && self.keys()[j] == y;
                        if j < ii {
                            assert(old_self.keys()[j] == y);
                            if y == k@ {
                                assert(old_self.keys()[ii] == k@);
                            }
                        } else {
                            assert(old_self.keys()[j + 1] == y);
                            if y == k@ {
                                assert(old_self.keys()[ii] == k@);
                            }
                        }
                    }
                    assert forall|y: Seq<char>| old_self.view().remove(k@).contains(
                        y,
                    ) implies #[trigger] self.view().contains(y) by {
                        let j = choose|j: int|
                            0 <= j < old_self.keys().len() && old_self.keys()[j] == y;
                        if j < ii {
                            assert(self.keys()[j] == y);
                        } else if j > ii {
                            assert(self.keys()[j - 1] == y);
                        } else {
                            assert(y == k@);
                        }
                    }
                    assert(old_self.view().contains(k@)) by {
                        assert(old_self.view().contains(old_self.keys()[ii]));
                    }
                    assert(final(self).view() =~= old_self.view().remove(k@));
                }
            },
            None => {
                proof {
                    assert(final(self).view() =~= old_self.view().remove(k@));
                }
            },
        }
    }
}

} // verus!
