//! A small map keyed by strings, kept as a list of entries with distinct keys,
//! in insertion order.

use vstd::prelude::*;

verus! {

pub struct StrMap<V> {
    entries: Vec<(String, V)>,
}

impl<V> StrMap<V> {
    /// The keys, in the order they were first inserted.
    pub closed spec fn keys(&self) -> Seq<Seq<char>> {
        self.entries@.map_values(|e: (String, V)| e.0@)
    }

    #[verifier::type_invariant]
    closed spec fn keys_distinct(self) -> bool {
        self.keys().no_duplicates()
    }

    /// The map from each key to its value.
    pub closed spec fn contents(&self) -> Map<Seq<char>, V> {
        Map::new(
            |k: Seq<char>| self.keys().contains(k),
            |k: Seq<char>| self.entries@[self.keys().index_of(k)].1,
        )
    }

    /// An empty map.
    pub fn new() -> (r: StrMap<V>)
        ensures
            r.contents() == Map::<Seq<char>, V>::empty(),
            r.keys() == Seq::<Seq<char>>::empty(),
    {
        let r = StrMap { entries: Vec::new() };
        assert(r.keys() =~= Seq::<Seq<char>>::empty());
        assert(r.contents() =~= Map::<Seq<char>, V>::empty());
        r
    }

    /// Number of entries.
    pub fn len(&self) -> (r: usize)
        ensures
            r == self.keys().len(),
    {
        self.entries.len()
    }

    /// The key of entry `i`.
    pub fn key_at(&self, i: usize) -> (r: &String)
        requires
            i < self.keys().len(),
        ensures
            r@ == self.keys()[i as int],
    {
        &self.entries[i].0
    }

    /// The entries, in key order of first insertion.
    pub fn entries(&self) -> (r: &Vec<(String, V)>)
        ensures
            r@.map_values(|e: (String, V)| e.0@) == self.keys(),
            forall|i: int| 0 <= i < r@.len() ==> self.contents()[#[trigger] r@[i].0@] == r@[i].1,
    {
        proof {
            use_type_invariant(self);
            assert forall|i: int| 0 <= i < self.entries@.len() implies self.contents()[#[trigger] self.entries@[i].0@]
                == self.entries@[i].1 by {
                self.lemma_index_of(i);
            }
        }
        &self.entries
    }

    proof fn lemma_index_of(&self, i: int)
        requires
            self.keys_distinct(),
            0 <= i < self.entries@.len(),
        ensures
            self.keys().contains(self.entries@[i].0@),
            self.keys().index_of(self.entries@[i].0@) == i,
    {
        let ks = self.keys();
        assert(ks[i] == self.entries@[i].0@);
        let j = ks.index_of(ks[i]);
        assert(ks.contains(ks[i]));
        if j != i {
            assert(ks[j] == ks[i]);
        }
    }

    /// The value stored under `key`.
    pub fn get(&self, key: &str) -> (r: Option<&V>)
        ensures
            match r {
                Some(v) => self.contents().contains_key(key@) && self.contents()[key@] == *v,
                None => !self.contents().contains_key(key@),
            },
    {
        proof {
            use_type_invariant(self);
        }
        let k = key.to_owned();
        let mut i: usize = 0;
        while i < self.entries.len()
            invariant
                i <= self.entries@.len(),
                self.keys_distinct(),
                k@ == key@,
                forall|j: int| 0 <= j < i ==> self.entries@[j].0@ != key@,
            decreases self.entries.len() - i,
        {
            if self.entries[i].0 == k {
                proof {
                    self.lemma_index_of(i as int);
                }
                return Some(&self.entries[i].1);
            }
            i = i + 1;
        }
        proof {
            if self.keys().contains(key@) {
                let j = choose|j: int| 0 <= j < self.keys().len() && self.keys()[j] == key@;
                assert(self.entries@[j].0@ == key@);
            }
        }
        None
    }

    /// Stores `value` under `key`, replacing a previous value (`BTreeMap::insert`).
    pub fn insert(&mut self, key: String, value: V)
        ensures
            final(self).contents() == old(self).contents().insert(key@, value),
            final(self).keys() == if old(self).keys().contains(key@) {
                old(self).keys()
            } else {
                old(self).keys().push(key@)
            },
    {
        proof {
            use_type_invariant(&*self);
        }
        let ghost kv = key@;
        let ghost before = *self;
        let mut i: usize = 0;
        while i < self.entries.len()
            invariant
                i <= self.entries@.len(),
                *self == before,
                before == *old(self),
                before.keys_distinct(),
                key@ == kv,
                forall|j: int| 0 <= j < i ==> self.entries@[j].0@ != kv,
            decreases self.entries.len() - i,
        {
            if self.entries[i].0 == key {
                proof {
                    before.lemma_index_of(i as int);
                }
                let mut entries: Vec<(String, V)> = Vec::new();
        std::mem::swap(&mut entries, &mut self.entries);
                entries.set(i, (key, value));
                let ghost e2 = entries@;
                proof {
                    let ks = before.keys();
                    let ks2 = e2.map_values(|e: (String, V)| e.0@);
                    assert(ks2 =~= ks);
                }
                self.entries = entries;
                proof {
                    let ks = before.keys();
                    assert(self.keys() =~= ks);
                    assert(ks[i as int] == kv);
                    assert(ks.contains(kv));
                    assert(self.contents() =~= before.contents().insert(kv, value)) by {
                        assert forall|k: Seq<char>| #[trigger] self.contents().contains_key(k) implies self.contents()[k]
                            == before.contents().insert(kv, value)[k] by {
                            let j = ks.index_of(k);
                            assert(ks.contains(k));
                            if k == kv {
                                assert(ks[i as int] == kv);
                                if j != i {
                                    assert(ks[j] == ks[i as int]);
                                }
                            } else {
                                assert(ks[j] == k);
                            }
                        }
                    }
                }
                return;
            }
            i = i + 1;
        }
        proof {
            assert(!before.keys().contains(kv)) by {
                if before.keys().contains(kv) {
                    let j = choose|j: int| 0 <= j < before.keys().len() && before.keys()[j] == kv;
                    assert(self.entries@[j].0@ == kv);
                }
            }
        }
        let mut entries: Vec<(String, V)> = Vec::new();
        std::mem::swap(&mut entries, &mut self.entries);
        entries.push((key, value));
        let ghost e2 = entries@;
        proof {
            let ks = before.keys();
            let ks2 = e2.map_values(|e: (String, V)| e.0@);
            assert(ks2 =~= ks.push(kv));
            assert forall|a: int, b: int| 0 <= a < b < ks2.len() implies ks2[a] != ks2[b] by {
                if b == ks.len() {
                    assert(ks.contains(ks[a]));
                }
            }
        }
        self.entries = entries;
        proof {
            let ks = before.keys();
            let ks2 = self.keys();
            assert(ks2 =~= ks.push(kv));
            assert(self.contents() =~= before.contents().insert(kv, value)) by {
                assert forall|k: Seq<char>| #[trigger] self.contents().contains_key(k) implies self.contents()[k]
                    == before.contents().insert(kv, value)[k] by {
                    let j = ks2.index_of(k);
                    assert(ks2.contains(k));
                    if k == kv {
                        let n = ks.len() as int;
                        assert(ks2[n] == kv);
                        if j != n {
                            assert(ks2[j] == ks2[n]);
                            assert(ks.contains(kv));
                        }
                    } else {
                        assert(ks2[j] == k);
                        assert(j < ks.len());
                        assert(ks.contains(k));
                        let j0 = ks.index_of(k);
                        if j0 != j {
                            assert(ks2[j0] == ks[j0]);
                        }
                    }
                }
                assert forall|k: Seq<char>| before.contents().insert(kv, value).contains_key(k) implies #[trigger] ks2.contains(k) by {
                    if k == kv {
                        assert(ks2[ks.len() as int] == kv);
                    } else {
                        let j = choose|j: int| 0 <= j < ks.len() && ks[j] == k;
                        assert(ks2[j] == k);
                    }
                }
            }
        }
    }

    /// The keys are exactly the keys of the map.
    pub proof fn lemma_keys_are_domain(&self)
        ensures
            self.contents().dom() == self.keys().to_set(),
    {
        assert(self.contents().dom() =~= self.keys().to_set());
    }
}

} // verus!
