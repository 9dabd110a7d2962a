//! A small map keyed by strings, kept as a vector of entries with distinct
//! keys.
use vstd::prelude::*;
use crate::text::{owned, str_eq};

verus! {

/// A map from string keys to values.
#[derive(Debug)]
pub struct StrMap<V> {
    entries: Vec<(String, V)>,
}

impl<V> StrMap<V> {
    /// No key occurs twice.
    #[verifier::type_invariant]
    spec fn keys_unique(self) -> bool {
        forall|i: int, j: int|
            0 <= i < j < self.entries@.len() ==> (#[trigger] self.entries@[i]).0@
                != (#[trigger] self.entries@[j]).0@
    }

    /// Whether some entry has key `k`.
    spec fn holds(self, k: Seq<char>) -> bool {
        exists|i: int| 0 <= i < self.entries@.len() && (#[trigger] self.entries@[i]).0@ == k
    }

    /// The position of the entry with key `k`.
    spec fn position(self, k: Seq<char>) -> int {
        choose|i: int| 0 <= i < self.entries@.len() && (#[trigger] self.entries@[i]).0@ == k
    }

    /// The entries as a map.
    pub closed spec fn as_map(self) -> Map<Seq<char>, V> {
        Map::new(|k: Seq<char>| self.holds(k), |k: Seq<char>| self.entries@[self.position(k)].1)
    }

    /// The entry at `i` is the one for its key.
    proof fn lemma_position(self, i: int)
        requires
            self.keys_unique(),
            0 <= i < self.entries@.len(),
        ensures
            self.holds(self.entries@[i].0@),
            self.position(self.entries@[i].0@) == i,
    {
        let k = self.entries@[i].0@;
        assert(self.holds(k));
        let p = self.position(k);
        if p != i {
            if p < i {
                assert(self.entries@[p].0@ != self.entries@[i].0@);
            } else {
                assert(self.entries@[i].0@ != self.entries@[p].0@);
            }
        }
    }

    /// Replacing the value of entry `i` replaces that key's value.
    proof fn lemma_replace(before: Self, after: Self, i: int)
        requires
            before.keys_unique(),
            0 <= i < before.entries@.len(),
            after.entries@.len() == before.entries@.len(),
            forall|j: int| 0 <= j < before.entries@.len() && j != i ==> #[trigger] after.entries@[j] == before.entries@[j],
            after.entries@[i].0@ == before.entries@[i].0@,
        ensures
            after.keys_unique(),
            after.as_map() =~= before.as_map().insert(before.entries@[i].0@, after.entries@[i].1),
    {
        let k = before.entries@[i].0@;
        assert forall|a: int, b: int|
            0 <= a < b < after.entries@.len() implies (#[trigger] after.entries@[a]).0@
            != (#[trigger] after.entries@[b]).0@ by {
            assert(before.entries@[a].0@ != before.entries@[b].0@);
        }
        assert forall|b: Seq<char>| #[trigger] after.holds(b) == (before.holds(b) || b == k) by {
            if after.holds(b) {
                let j = after.position(b);
                if j != i {
                    assert(before.entries@[j].0@ == b);
                }
            }
            if before.holds(b) {
                let p = before.position(b);
                assert(after.entries@[p].0@ == b);
            }
            if b == k {
                assert(after.entries@[i].0@ == b);
            }
        }
        assert forall|b: Seq<char>| after.holds(b) implies #[trigger] after.as_map()[b]
            == before.as_map().insert(k, after.entries@[i].1)[b] by {
            let j = after.position(b);
            after.lemma_position(j);
            if j != i {
                before.lemma_position(j);
            }
        }
    }

    /// Appending an entry with a new key adds that key.
    proof fn lemma_append(before: Self, after: Self)
        requires
            before.keys_unique(),
            after.entries@.len() == before.entries@.len() + 1,
            forall|j: int| 0 <= j < before.entries@.len() ==> #[trigger] after.entries@[j] == before.entries@[j],
            !before.holds(after.entries@[before.entries@.len() as int].0@),
        ensures
            after.keys_unique(),
            after.as_map() =~= before.as_map().insert(
                after.entries@[before.entries@.len() as int].0@,
                after.entries@[before.entries@.len() as int].1,
            ),
    {
        let n = before.entries@.len() as int;
        let k = after.entries@[n].0@;
        assert forall|a: int, b: int|
            0 <= a < b < after.entries@.len() implies (#[trigger] after.entries@[a]).0@
            != (#[trigger] after.entries@[b]).0@ by {
            if b < n {
                assert(before.entries@[a].0@ != before.entries@[b].0@);
            } else {
                assert(before.entries@[a].0@ != k);
            }
        }
        assert forall|b: Seq<char>| #[trigger] after.holds(b) == (before.holds(b) || b == k) by {
            if after.holds(b) {
                let j = after.position(b);
                if j < n {
                    assert(before.entries@[j].0@ == b);
                }
            }
            if before.holds(b) {
                let p = before.position(b);
                assert(after.entries@[p].0@ == b);
            }
            if b == k {
                assert(after.entries@[n].0@ == b);
            }
        }
        assert forall|b: Seq<char>| after.holds(b) implies #[trigger] after.as_map()[b]
            == before.as_map().insert(k, after.entries@[n].1)[b] by {
            let j = after.position(b);
            after.lemma_position(j);
            if j < n {
                before.lemma_position(j);
            }
        }
    }

    /// Removing entry `i` removes its key.
    proof fn lemma_remove(before: Self, after: Self, i: int)
        requires
            before.keys_unique(),
            0 <= i < before.entries@.len(),
            after.entries@ == before.entries@.remove(i),
        ensures
            after.keys_unique(),
            after.as_map() =~= before.as_map().remove(before.entries@[i].0@),
    {
        let k = before.entries@[i].0@;
        assert forall|a: int, b: int|
            0 <= a < b < after.entries@.len() implies (#[trigger] after.entries@[a]).0@
            != (#[trigger] after.entries@[b]).0@ by {
            let a2 = if a < i { a } else { a + 1 };
            let b2 = if b < i { b } else { b + 1 };
            assert(after.entries@[a] == before.entries@[a2]);
            assert(after.entries@[b] == before.entries@[b2]);
            assert(before.entries@[a2].0@ != before.entries@[b2].0@);
        }
        assert forall|b: Seq<char>| #[trigger] after.holds(b) == (before.holds(b) && b != k) by {
            if after.holds(b) {
                let j = after.position(b);
                let j2 = if j < i { j } else { j + 1 };
                assert(after.entries@[j] == before.entries@[j2]);
                if b == k {
                    if j2 < i {
                        assert(before.entries@[j2].0@ != before.entries@[i].0@);
                    } else {
                        assert(before.entries@[i].0@ != before.entries@[j2].0@);
                    }
                }
            }
            if before.holds(b) && b != k {
                let p = before.position(b);
                let p2 = if p < i { p } else { p - 1 };
                assert(after.entries@[p2] == before.entries@[p]);
                assert(after.holds(b));
            }
        }
        assert forall|b: Seq<char>| after.holds(b) implies #[trigger] after.as_map()[b]
            == before.as_map().remove(k)[b] by {
            let j = after.position(b);
            after.lemma_position(j);
            let j2 = if j < i { j } else { j + 1 };
            assert(after.entries@[j] == before.entries@[j2]);
            before.lemma_position(j2);
        }
    }
}

impl<V> View for StrMap<V> {
    type V = Map<Seq<char>, V>;

    open spec fn view(&self) -> Map<Seq<char>, V> {
        self.as_map()
    }
}

impl<V> StrMap<V> {
    /// An empty map.
    pub fn new() -> (r: StrMap<V>)
        ensures
            r@ == Map::<Seq<char>, V>::empty(),
    {
        let r = StrMap { entries: Vec::new() };
        assert(r.as_map() =~= Map::<Seq<char>, V>::empty());
        r
    }

    /// The position of the entry with key `k`, if there is one.
    fn find(&self, k: &str) -> (r: Option<usize>)
        ensures
            match r {
                Some(i) => i < self.entries@.len() && self.entries@[i as int].0@ == k@,
                None => !self.holds(k@),
            },
    {
        let mut i: usize = 0;
        while i < self.entries.len()
            invariant
                i <= self.entries@.len(),
                forall|j: int| 0 <= j < i ==> (#[trigger] self.entries@[j]).0@ != k@,
            decreases self.entries@.len() - i,
        {
            if str_eq(self.entries[i].0.as_str(), k) {
                return Some(i);
            }
            i = i + 1;
        }
        None
    }

    /// The value for `k`, if any.
    pub fn get(&self, k: &str) -> (r: Option<&V>)
        ensures
            match r {
                Some(v) => self@.contains_key(k@) && self@[k@] == *v,
                None => !self@.contains_key(k@),
            },
    {
        proof {
            use_type_invariant(self);
        }
        match self.find(k) {
            Some(i) => {
                proof {
                    self.lemma_position(i as int);
                }
                Some(&self.entries[i].1)
            },
            None => None,
        }
    }

    /// Whether there is a value for `k`.
    pub fn contains_key(&self, k: &str) -> (r: bool)
        ensures
            r == self@.contains_key(k@),
    {
        self.find(k).is_some()
    }

    /// Whether the map is empty.
    pub fn is_empty(&self) -> (r: bool)
        ensures
            r == (self@.dom() == Set::<Seq<char>>::empty()),
    {
        if self.entries.len() == 0 {
            assert(self@.dom() =~= Set::<Seq<char>>::empty());
            true
        } else {
            assert(self@.dom().contains(self.entries@[0].0@));
            false
        }
    }

    /// Sets the value for `k`, replacing any value it had.
    pub fn insert(&mut self, k: &str, v: V)
        ensures
            final(self)@ == old(self)@.insert(k@, v),
    {
        proof {
            use_type_invariant(&*self);
        }
        let ghost before = *self;
        let key = owned(k);
        let found = self.find(k);
        let mut entries: Vec<(String, V)> = Vec::new();
        std::mem::swap(&mut entries, &mut self.entries);
        match found {
            Some(i) => {
                entries.set(i, (key, v));
                proof {
                    Self::lemma_replace(before, StrMap { entries }, i as int);
                }
            },
            None => {
                entries.push((key, v));
                proof {
                    Self::lemma_append(before, StrMap { entries });
                }
            },
        }
        self.entries = entries;
    }

    /// Removes the value for `k`, if any.
    pub fn remove(&mut self, k: &str)
        ensures
            final(self)@ == old(self)@.remove(k@),
    {
        proof {
            use_type_invariant(&*self);
        }
        let ghost before = *self;
        match self.find(k) {
            Some(i) => {
                let mut entries: Vec<(String, V)> = Vec::new();
                std::mem::swap(&mut entries, &mut self.entries);
                entries.remove(i);
                proof {
                    Self::lemma_remove(before, StrMap { entries }, i as int);
                }
                self.entries = entries;
            },
            None => {
                assert(self.as_map() =~= before.as_map().remove(k@));
            },
        }
    }
}

/// The entries of `m` whose value is not `v`.
pub open spec fn without_value(m: Map<Seq<char>, String>, v: Seq<char>) -> Map<Seq<char>, String> {
    m.restrict(m.dom().filter(|k: Seq<char>| m[k]@ != v))
}

impl<V> StrMap<V> {
    /// The entries among the first `i`, as a map.
    spec fn prefix_map(self, i: int) -> Map<Seq<char>, V> {
        Map::new(
            |k: Seq<char>| exists|j: int| 0 <= j < i && (#[trigger] self.entries@[j]).0@ == k,
            |k: Seq<char>| self.as_map()[k],
        )
    }
}

impl StrMap<String> {
    /// Removes every entry whose value is `v`.
    pub fn remove_value(&mut self, v: &str)
        ensures
            final(self)@ == without_value(old(self)@, v@),
    {
        proof {
            use_type_invariant(&*self);
        }
        let ghost before = *self;
        let mut kept: Vec<(String, String)> = Vec::new();
        proof {
            assert((StrMap::<String> { entries: kept }).as_map() =~= Map::<Seq<char>, String>::empty());
            assert(without_value(before.prefix_map(0), v@) =~= Map::<Seq<char>, String>::empty());
        }
        let n = self.entries.len();
        let mut i: usize = 0;
        while i < n
            invariant
                n == before.entries@.len(),
                before.keys_unique(),
                self.entries@ == before.entries@,
                i <= n,
                (StrMap::<String> { entries: kept }).keys_unique(),
                forall|k: Seq<char>| #[trigger] (StrMap::<String> { entries: kept }).holds(k)
                    ==> before.prefix_map(i as int).contains_key(k),
                (StrMap::<String> { entries: kept }).as_map() == without_value(before.prefix_map(i as int), v@),
            decreases n - i,
        {
            let ghost kb = StrMap::<String> { entries: kept };
            let ghost ki = before.entries@[i as int].0@;
            let ghost vi = before.entries@[i as int].1;
            proof {
                before.lemma_position(i as int);
                if before.prefix_map(i as int).contains_key(ki) {
                    let j = choose|j: int| 0 <= j < i && (#[trigger] before.entries@[j]).0@ == ki;
                    assert(before.entries@[j].0@ != before.entries@[i as int].0@);
                }
                assert(before.prefix_map(i + 1) =~= before.prefix_map(i as int).insert(ki, vi));
            }
            if !str_eq(self.entries[i].1.as_str(), v) {
                let key = owned(self.entries[i].0.as_str());
                let val = self.entries[i].1.clone();
                kept.push((key, val));
                proof {
                    Self::lemma_append(kb, StrMap::<String> { entries: kept });
                    assert(without_value(before.prefix_map(i + 1), v@) =~= without_value(
                        before.prefix_map(i as int),
                        v@,
                    ).insert(ki, vi));
                    assert forall|k: Seq<char>| #[trigger] (StrMap::<String> { entries: kept }).holds(k)
                        implies before.prefix_map(i + 1).contains_key(k) by {
                        if k != ki {
                            assert(kb.as_map().contains_key(k));
                        }
                    }
                }
            } else {
                proof {
                    assert(without_value(before.prefix_map(i + 1), v@) =~= without_value(
                        before.prefix_map(i as int),
                        v@,
                    ));
                }
            }
            i = i + 1;
        }
        proof {
            assert(before.prefix_map(n as int) =~= before.as_map());
        }
        self.entries = kept;
    }
}

impl<V> StrMap<V> {
    /// Keeps only the entries whose key is in `keep`.
    pub fn retain_keys(&mut self, keep: &Vec<String>)
        ensures
            final(self)@ == old(self)@.restrict(keep@.map_values(|s: String| s@).to_set()),
    {
        proof {
            use_type_invariant(&*self);
        }
        let ghost before = *self;
        let ghost ks = keep@.map_values(|s: String| s@).to_set();
        let mut rest: Vec<(String, V)> = Vec::new();
        std::mem::swap(&mut rest, &mut self.entries);
        let mut kept: Vec<(String, V)> = Vec::new();
        proof {
            assert((StrMap::<V> { entries: kept }).as_map() =~= Map::<Seq<char>, V>::empty());
            assert(before.prefix_map(0).restrict(ks) =~= Map::<Seq<char>, V>::empty());
        }
        let n = rest.len();
        let mut i: usize = 0;
        while i < n
            invariant
                n == before.entries@.len(),
                before.keys_unique(),
                i <= n,
                rest@ == before.entries@.subrange(i as int, n as int),
                ks == keep@.map_values(|s: String| s@).to_set(),
                (StrMap::<V> { entries: kept }).keys_unique(),
                forall|k: Seq<char>| #[trigger] (StrMap::<V> { entries: kept }).holds(k)
                    ==> before.prefix_map(i as int).contains_key(k),
                (StrMap::<V> { entries: kept }).as_map() == before.prefix_map(i as int).restrict(ks),
            decreases n - i,
        {
            let ghost kb = StrMap::<V> { entries: kept };
            let ghost ki = before.entries@[i as int].0@;
            let ghost vi = before.entries@[i as int].1;
            proof {
                before.lemma_position(i as int);
                if before.prefix_map(i as int).contains_key(ki) {
                    let j = choose|j: int| 0 <= j < i && (#[trigger] before.entries@[j]).0@ == ki;
                    assert(before.entries@[j].0@ != before.entries@[i as int].0@);
                }
                assert(before.prefix_map(i + 1) =~= before.prefix_map(i as int).insert(ki, vi));
                assert(rest@[0] == before.entries@[i as int]);
            }
            let (key, value) = rest.remove(0);
            proof {
                assert(rest@ =~= before.entries@.subrange(i + 1, n as int));
            }
            let mut wanted = false;
            let mut k: usize = 0;
            while k < keep.len()
                invariant
                    k <= keep@.len(),
                    wanted == exists|j: int| 0 <= j < k && (#[trigger] keep@[j])@ == key@,
                decreases keep@.len() - k,
            {
                if str_eq(keep[k].as_str(), key.as_str()) {
                    wanted = true;
                }
                k = k + 1;
            }
            proof {
                if wanted {
                    let j = choose|j: int| 0 <= j < keep@.len() && (#[trigger] keep@[j])@ == key@;
                    assert(keep@.map_values(|s: String| s@)[j] == key@);
                    assert(ks.contains(key@));
                } else {
                    let kv = keep@.map_values(|s: String| s@);
                    assert forall|j: int| 0 <= j < kv.len() implies #[trigger] kv[j] != key@ by {
                        assert(kv[j] == keep@[j]@);
                    }
                    assert(!ks.contains(key@));
                }
            }
            if wanted {
                kept.push((key, value));
                proof {
                    Self::lemma_append(kb, StrMap::<V> { entries: kept });
                    assert(before.prefix_map(i + 1).restrict(ks) =~= before.prefix_map(i as int).restrict(ks).insert(ki, vi));
                    assert forall|k2: Seq<char>| #[trigger] (StrMap::<V> { entries: kept }).holds(k2)
                        implies before.prefix_map(i + 1).contains_key(k2) by {
                        if k2 != ki {
                            assert(kb.as_map().contains_key(k2));
                        }
                    }
                }
            } else {
                proof {
                    assert(before.prefix_map(i + 1).restrict(ks) =~= before.prefix_map(i as int).restrict(ks));
                }
            }
            i = i + 1;
        }
        proof {
            assert(before.prefix_map(n as int) =~= before.as_map());
        }
        self.entries = kept;
    }
}

} // verus!
