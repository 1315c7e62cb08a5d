use vstd::prelude::*;
use crate::numeric::Identifier;

verus! {

spec fn distinct_keys<K: View, V>(s: Seq<(K, V)>) -> bool {
    forall|i: int, j: int|
        0 <= i < s.len() && 0 <= j < s.len() && i != j ==> #[trigger] s[i].0@ != #[trigger] s[j].0@
}

/// A storage map from identifiers to values, kept as a list of pairs whose
/// keys are pairwise distinct (compared by view).
#[derive(Debug)]
pub struct StorageMap<K: Identifier, V> {
    entries: Vec<(K, V)>,
}

impl<K: Identifier, V> StorageMap<K, V> {
    spec fn key_at(&self, i: int) -> K::V {
        self.entries@[i].0@
    }

    spec fn holds(&self, k: K::V) -> bool {
        exists|i: int| 0 <= i < self.entries@.len() && #[trigger] self.key_at(i) == k
    }

    #[verifier::type_invariant]
    spec fn keys_distinct(&self) -> bool {
        distinct_keys(self.entries@)
    }

    /// The map that the list stands for.
    pub closed spec fn contents(&self) -> Map<K::V, V> {
        Map::new(
            |k: K::V| self.holds(k),
            |k: K::V|
                self.entries@[choose|i: int| 0 <= i < self.entries@.len() && #[trigger] self.key_at(i) == k].1,
        )
    }

    proof fn lemma_entry(&self, i: int)
        requires
            self.keys_distinct(),
            0 <= i < self.entries@.len(),
        ensures
            self.contents().contains_key(self.key_at(i)),
            self.contents()[self.key_at(i)] == self.entries@[i].1,
    {
        let k = self.key_at(i);
        assert(self.holds(k));
        let j = choose|j: int| 0 <= j < self.entries@.len() && #[trigger] self.key_at(j) == k;
        assert(i == j);
    }

    pub fn new() -> (r: Self)
        ensures
            r@ == Map::<K::V, V>::empty(),
    {
        let r = StorageMap { entries: Vec::new() };
        assert(r@ =~= Map::<K::V, V>::empty());
        r
    }

    fn find(&self, k: &K) -> (r: Option<usize>)
        ensures
            match r {
                Some(i) => i < self.entries@.len() && self.key_at(i as int) == k@,
                None => forall|i: int| 0 <= i < self.entries@.len() ==> #[trigger] self.key_at(i) != k@,
            },
    {
        let mut i: usize = 0;
        while i < self.entries.len()
            invariant
                i <= self.entries@.len(),
                forall|j: int| 0 <= j < i ==> #[trigger] self.key_at(j) != k@,
            decreases self.entries@.len() - i,
        {
            if self.entries[i].0.same(k) {
                return Some(i);
            }
            i = i + 1;
        }
        None
    }

    pub fn contains_key(&self, k: &K) -> (r: bool)
        ensures
            r == self@.contains_key(k@),
    {
        proof {
            use_type_invariant(self);
        }
        match self.find(k) {
            Some(i) => {
                proof {
                    self.lemma_entry(i as int);
                }
                true
            },
            None => false,
        }
    }

    pub fn get(&self, k: &K) -> (r: Option<&V>)
        ensures
            match r {
                Some(v) => self@.contains_key(k@) && *v == self@[k@],
                None => !self@.contains_key(k@),
            },
    {
        proof {
            use_type_invariant(self);
        }
        match self.find(k) {
            Some(i) => {
                proof {
                    self.lemma_entry(i as int);
                }
                Some(&self.entries[i].1)
            },
            None => None,
        }
    }

    pub fn insert(&mut self, k: K, v: V)
        ensures
            final(self)@ == old(self)@.insert(k@, v),
    {
        proof {
            use_type_invariant(&*self);
        }
        let ghost pre = *self;
        let found = self.find(&k);
        let mut entries = Vec::new();
        std::mem::swap(&mut entries, &mut self.entries);
        match found {
            Some(i) => {
                entries.set(i, (k, v));
                assert(forall|j: int| 0 <= j < entries@.len() && j != i ==> entries@[j] == pre.entries@[j]);
            },
            None => {
                entries.push((k, v));
                assert(forall|j: int| 0 <= j < pre.entries@.len() ==> entries@[j] == pre.entries@[j]);
                assert(forall|j: int| 0 <= j < pre.entries@.len() ==> #[trigger] pre.key_at(j) != k@);
            },
        }
        assert(distinct_keys(entries@)) by {
            assert forall|x: int, y: int|
                0 <= x < entries@.len() && 0 <= y < entries@.len() && x != y implies #[trigger] entries@[x].0@
                != #[trigger] entries@[y].0@ by {
                if x < pre.entries@.len() && y < pre.entries@.len() {
                    assert(pre.key_at(x) != pre.key_at(y));
                } else if x < pre.entries@.len() {
                    assert(pre.key_at(x) != k@);
                } else {
                    assert(pre.key_at(y) != k@);
                }
            }
        }
        self.entries = entries;
        proof {
            let kv = k@;
            assert forall|a: K::V| #[trigger] self@.contains_key(a) == pre@.insert(kv, v).contains_key(a) by {
                if self.holds(a) {
                    let j = choose|j: int| 0 <= j < self.entries@.len() && #[trigger] self.key_at(j) == a;
                    if a != kv {
                        assert(pre.key_at(j) == a);
                    }
                }
                if pre.holds(a) && a != kv {
                    let j = choose|j: int| 0 <= j < pre.entries@.len() && #[trigger] pre.key_at(j) == a;
                    assert(self.key_at(j) == a);
                }
                if a == kv {
                    match found {
                        Some(i) => assert(self.key_at(i as int) == a),
                        None => assert(self.key_at(pre.entries@.len() as int) == a),
                    }
                }
            }
            assert forall|a: K::V| #[trigger] self@.contains_key(a) implies self@[a] == pre@.insert(kv, v)[a] by {
                if a != kv {
                    let j = choose|j: int| 0 <= j < self.entries@.len() && #[trigger] self.key_at(j) == a;
                    self.lemma_entry(j);
                    pre.lemma_entry(j);
                } else {
                    match found {
                        Some(i) => self.lemma_entry(i as int),
                        None => self.lemma_entry(pre.entries@.len() as int),
                    }
                }
            }
            assert(self@ =~= pre@.insert(kv, v));
        }
    }

    pub fn remove(&mut self, k: &K)
        ensures
            final(self)@ == old(self)@.remove(k@),
    {
        proof {
            use_type_invariant(&*self);
        }
        let ghost pre = *self;
        match self.find(k) {
            Some(i) => {
                let mut entries = Vec::new();
                std::mem::swap(&mut entries, &mut self.entries);
                entries.remove(i);
                assert(forall|j: int| 0 <= j < i ==> entries@[j] == pre.entries@[j]);
                assert(forall|j: int| i <= j < entries@.len() ==> entries@[j] == pre.entries@[j + 1]);
                assert(distinct_keys(entries@)) by {
                    assert forall|x: int, y: int|
                        0 <= x < entries@.len() && 0 <= y < entries@.len() && x != y implies #[trigger] entries@[x].0@
                        != #[trigger] entries@[y].0@ by {
                        let px = if x < i { x } else { x + 1 };
                        let py = if y < i { y } else { y + 1 };
                        assert(pre.key_at(px) != pre.key_at(py));
                    }
                }
                self.entries = entries;
                proof {
                    let kv = k@;
                    assert forall|a: K::V| #[trigger] self@.contains_key(a) == pre@.remove(kv).contains_key(a) by {
                        if self.holds(a) {
                            let j = choose|j: int| 0 <= j < self.entries@.len() && #[trigger] self.key_at(j) == a;
                            if j < i {
                                assert(pre.key_at(j) == a);
                            } else {
                                assert(pre.key_at(j + 1) == a);
                            }
                        }
                        if pre.holds(a) && a != kv {
                            let j = choose|j: int| 0 <= j < pre.entries@.len() && #[trigger] pre.key_at(j) == a;
                            if j < i {
                                assert(self.key_at(j) == a);
                            } else {
                                assert(j != i);
                                assert(self.key_at(j - 1) == a);
                            }
                        }
                    }
                    assert forall|a: K::V| #[trigger] self@.contains_key(a) implies self@[a] == pre@.remove(kv)[a] by {
                        let j = choose|j: int| 0 <= j < self.entries@.len() && #[trigger] self.key_at(j) == a;
                        self.lemma_entry(j);
                        if j < i {
                            pre.lemma_entry(j);
                        } else {
                            pre.lemma_entry(j + 1);
                        }
                    }
                    assert(self@ =~= pre@.remove(kv));
                }
            },
            None => {
                proof {
                    assert(self@ =~= pre@.remove(k@));
                }
            },
        }
    }
}

impl<K: Identifier, V> View for StorageMap<K, V> {
    type V = Map<K::V, V>;

    closed spec fn view(&self) -> Map<K::V, V> {
        self.contents()
    }
}

} // verus!
