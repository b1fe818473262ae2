//! Values stored under names, each name at most once: the model of a JSON
//! object and of a map keyed by name.
use vstd::prelude::*;

use crate::text::str_eq;

verus! {

/// Values stored under names, each name at most once.
pub struct NamedEntries<V> {
    pub entries: Vec<(String, V)>,
}

impl<V> NamedEntries<V> {
    /// No name is stored twice.
    pub open spec fn unique(&self) -> bool {
        forall|i: int, j: int|
            0 <= i < j < self.entries@.len() ==> (#[trigger] self.entries@[i]).0@ != (
            #[trigger] self.entries@[j]).0@
    }

    /// Whether something is stored under `name`.
    pub open spec fn has(&self, name: Seq<char>) -> bool {
        exists|i: int| 0 <= i < self.entries@.len() && (#[trigger] self.entries@[i]).0@ == name
    }

    /// What is stored under `name`.
    pub open spec fn lookup(&self, name: Seq<char>) -> Option<V> {
        if self.has(name) {
            Some(
                self.entries@[choose|i: int|
                    0 <= i < self.entries@.len() && (#[trigger] self.entries@[i]).0@ == name].1,
            )
        } else {
            None
        }
    }

    /// The names and what is stored under them.
    pub open spec fn fields(&self) -> Map<Seq<char>, V> {
        Map::new(|k: Seq<char>| self.has(k), |k: Seq<char>| self.lookup(k).unwrap())
    }

    /// Nothing stored.
    pub fn new() -> (r: Self)
        ensures
            r.unique(),
            forall|n: Seq<char>| !r.has(n),
    {
        NamedEntries { entries: Vec::new() }
    }

    /// The position of `name`, if it is stored.
    pub fn position(&self, name: &str) -> (r: Option<usize>)
        requires
            self.unique(),
        ensures
            match r {
                Some(i) => i < self.entries@.len() && self.entries@[i as int].0@ == name@
                    && self.lookup(name@) == Some(self.entries@[i as int].1),
                None => !self.has(name@),
            },
    {
        let mut i: usize = 0;
        while i < self.entries.len()
            invariant
                self.unique(),
                i <= self.entries@.len(),
                forall|j: int| 0 <= j < i ==> (#[trigger] self.entries@[j]).0@ != name@,
            decreases self.entries@.len() - i,
        {
            if str_eq(self.entries[i].0.as_str(), name) {
                proof {
                    let c = choose|k: int|
                        0 <= k < self.entries@.len() && (#[trigger] self.entries@[k]).0@ == name@;
                    if c != i {
                        if c < i {
                            assert(self.entries@[c].0@ != name@);
                        } else {
                            assert(self.entries@[i as int].0@ != self.entries@[c].0@);
                        }
                    }
                }
                return Some(i);
            }
            i = i + 1;
        }
        None
    }

    /// What is stored under `name`.
    pub fn get(&self, name: &str) -> (r: Option<&V>)
        requires
            self.unique(),
        ensures
            match r {
                Some(v) => self.lookup(name@) == Some(*v) && self.has(name@),
                None => !self.has(name@),
            },
    {
        match self.position(name) {
            Some(i) => Some(&self.entries[i].1),
            None => None,
        }
    }

    /// Whether something is stored under `name`.
    pub fn contains(&self, name: &str) -> (b: bool)
        requires
            self.unique(),
        ensures
            b == self.has(name@),
    {
        self.position(name).is_some()
    }

    /// Stores `value` under `name`, replacing what was there.
    pub fn insert(&mut self, name: String, value: V)
        requires
            old(self).unique(),
        ensures
            final(self).unique(),
            final(self).lookup(name@) == Some(value),
            forall|n: Seq<char>| n != name@ ==> final(self).lookup(n) == old(self).lookup(n) && (
            final(self).has(n) == old(self).has(n)),
            final(self).fields() == old(self).fields().insert(name@, value),
    {
        let ghost before = self.entries@;
        let ghost name_view = name@;
        self.insert_entry(name, value);
        proof {
            assert(self.has(name_view));
            assert(self.fields() =~= old(self).fields().insert(name_view, value));
        }
    }

    fn insert_entry(&mut self, name: String, value: V)
        requires
            old(self).unique(),
        ensures
            final(self).unique(),
            final(self).lookup(name@) == Some(value),
            forall|n: Seq<char>| n != name@ ==> final(self).lookup(n) == old(self).lookup(n) && (
            final(self).has(n) == old(self).has(n)),
    {
        let ghost before = self.entries@;
        match self.position(name.as_str()) {
            Some(i) => {
                self.entries.set(i, (name, value));
                proof {
                    assert(self.entries@ == before.update(i as int, self.entries@[i as int]));
                    self.lemma_lookup_at(i as int);
                    assert forall|n: Seq<char>| n != self.entries@[i as int].0@ implies (self.has(n)
                        == (exists|j: int| 0 <= j < before.len() && (#[trigger] before[j]).0@ == n)) by {
                        if self.has(n) {
                            let j = choose|j: int| 0 <= j < self.entries@.len() && (#[trigger] self.entries@[j]).0@ == n;
                            assert(before[j].0@ == n);
                        }
                        if exists|j: int| 0 <= j < before.len() && (#[trigger] before[j]).0@ == n {
                            let j = choose|j: int| 0 <= j < before.len() && (#[trigger] before[j]).0@ == n;
                            assert(self.entries@[j].0@ == n);
                        }
                    }
                }
            },
            None => {
                self.entries.push((name, value));
                proof {
                    let k = (self.entries@.len() - 1) as int;
                    self.lemma_lookup_at(k);
                    assert forall|n: Seq<char>| n != self.entries@[k].0@ implies (self.has(n) == (exists|j: int|
                        0 <= j < before.len() && (#[trigger] before[j]).0@ == n)) by {
                        if self.has(n) {
                            let j = choose|j: int| 0 <= j < self.entries@.len() && (#[trigger] self.entries@[j]).0@ == n;
                            assert(before[j].0@ == n);
                        }
                        if exists|j: int| 0 <= j < before.len() && (#[trigger] before[j]).0@ == n {
                            let j = choose|j: int| 0 <= j < before.len() && (#[trigger] before[j]).0@ == n;
                            assert(self.entries@[j].0@ == n);
                        }
                    }
                }
            },
        }
    }

    /// With unique names, what is stored under the name at `k` is the value at `k`.
    proof fn lemma_lookup_at(&self, k: int)
        requires
            self.unique(),
            0 <= k < self.entries@.len(),
        ensures
            self.lookup(self.entries@[k].0@) == Some(self.entries@[k].1),
    {
        let n = self.entries@[k].0@;
        assert(self.has(n));
        let c = choose|i: int| 0 <= i < self.entries@.len() && (#[trigger] self.entries@[i]).0@ == n;
        if c != k {
            if c < k {
                assert(self.entries@[c].0@ != self.entries@[k].0@);
            } else {
                assert(self.entries@[k].0@ != self.entries@[c].0@);
            }
        }
    }
}


impl<V> NamedEntries<V> {
    /// Removes what is stored under `name`.
    pub fn remove(&mut self, name: &str)
        requires
            old(self).unique(),
        ensures
            final(self).unique(),
            !final(self).has(name@),
            forall|n: Seq<char>| n != name@ ==> final(self).lookup(n) == old(self).lookup(n) && (
            final(self).has(n) == old(self).has(n)),
            final(self).fields() == old(self).fields().remove(name@),
    {
        let _ = self.take(name);
    }

    /// Takes out what is stored under `name`.
    pub fn take(&mut self, name: &str) -> (r: Option<V>)
        requires
            old(self).unique(),
        ensures
            r == old(self).lookup(name@),
            final(self).unique(),
            !final(self).has(name@),
            forall|n: Seq<char>| n != name@ ==> final(self).lookup(n) == old(self).lookup(n) && (
            final(self).has(n) == old(self).has(n)),
            final(self).fields() == old(self).fields().remove(name@),
    {
        let r = self.take_entry(name);
        proof {
            assert(self.fields() =~= old(self).fields().remove(name@));
        }
        r
    }

    fn take_entry(&mut self, name: &str) -> (r: Option<V>)
        requires
            old(self).unique(),
        ensures
            r == old(self).lookup(name@),
            final(self).unique(),
            !final(self).has(name@),
            forall|n: Seq<char>| n != name@ ==> final(self).lookup(n) == old(self).lookup(n) && (
            final(self).has(n) == old(self).has(n)),
    {
        let ghost before = self.entries@;
        match self.position(name) {
            Some(i) => {
                let removed = self.entries.remove(i);
                proof {
                    let after = self.entries@;
                    assert(after =~= before.remove(i as int));
                    assert forall|a: int, b: int| 0 <= a < b < after.len() implies (#[trigger] after[a]).0@ != (
                    #[trigger] after[b]).0@ by {
                        let a0 = if a < i { a } else { a + 1 };
                        let b0 = if b < i { b } else { b + 1 };
                        assert(after[a] == before[a0]);
                        assert(after[b] == before[b0]);
                    }
                    assert forall|n: Seq<char>| n != name@ implies (self.has(n) == (exists|j: int|
                        0 <= j < before.len() && (#[trigger] before[j]).0@ == n)) by {
                        if self.has(n) {
                            let j = choose|j: int| 0 <= j < after.len() && (#[trigger] after[j]).0@ == n;
                            let j0 = if j < i { j } else { j + 1 };
                            assert(after[j] == before[j0]);
                        }
                        if exists|j: int| 0 <= j < before.len() && (#[trigger] before[j]).0@ == n {
                            let j = choose|j: int| 0 <= j < before.len() && (#[trigger] before[j]).0@ == n;
                            assert(j != i);
                            let j1 = if j < i { j } else { j - 1 };
                            assert(after[j1] == before[j]);
                        }
                    }
                    assert forall|n: Seq<char>| n != name@ && self.has(n) implies self.lookup(n) == Some(
                    before[choose|j: int| 0 <= j < before.len() && (#[trigger] before[j]).0@ == n].1) by {
                        let j = choose|j: int| 0 <= j < after.len() && (#[trigger] after[j]).0@ == n;
                        let k = choose|j: int| 0 <= j < before.len() && (#[trigger] before[j]).0@ == n;
                        let j0 = if j < i { j } else { j + 1 };
                        assert(after[j] == before[j0]);
                        if j0 != k {
                            if j0 < k {
                                assert(before[j0].0@ != before[k].0@);
                            } else {
                                assert(before[k].0@ != before[j0].0@);
                            }
                        }
                    }
                    assert forall|j: int| 0 <= j < after.len() implies (#[trigger] after[j]).0@ != name@ by {
                        let j0 = if j < i { j } else { j + 1 };
                        assert(after[j] == before[j0]);
                        assert(j0 != i);
                        if j0 < i {
                            assert(before[j0].0@ != before[i as int].0@);
                        } else {
                            assert(before[i as int].0@ != before[j0].0@);
                        }
                    }
                }
                Some(removed.1)
            },
            None => None,
        }
    }
}

} // verus!
