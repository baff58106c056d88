use vstd::prelude::*;

verus! {

/// A string-keyed table of offsets in which every key occurs once.
///
/// It is read through its view, a `Map` from the key's characters to the
/// stored offset; `insert` replaces the value of a key already present.
pub struct NetvarMap {
    entries: Vec<(String, usize)>,
}

impl NetvarMap {
    #[verifier::type_invariant]
    spec fn keys_distinct(self) -> bool {
        forall|i: int, j: int|
            0 <= i < self.entries.len() && 0 <= j < self.entries.len() && #[trigger] self.entries@[i].0@
                == #[trigger] self.entries@[j].0@ ==> i == j
    }

    spec fn has_key_at(self, k: Seq<char>, i: int) -> bool {
        0 <= i < self.entries.len() && self.entries@[i].0@ == k
    }

    /// The stored keys and offsets.
    pub closed spec fn view(&self) -> Map<Seq<char>, usize> {
        Map::new(
            |k: Seq<char>| exists|i: int| self.has_key_at(k, i),
            |k: Seq<char>| self.entries@[choose|i: int| self.has_key_at(k, i)].1,
        )
    }

    proof fn lemma_index_of(self, k: Seq<char>, i: int)
        requires
            self.keys_distinct(),
            self.has_key_at(k, i),
        ensures
            self@.contains_key(k),
            (choose|j: int| self.has_key_at(k, j)) == i,
            self@[k] == self.entries@[i].1,
    {
        let j = choose|j: int| self.has_key_at(k, j);
        assert(self.entries@[j].0@ == self.entries@[i].0@);
    }

    /// An empty table.
    pub fn new() -> (m: NetvarMap)
        ensures
            m@ == Map::<Seq<char>, usize>::empty(),
    {
        let m = NetvarMap { entries: Vec::new() };
        assert(m@ =~= Map::<Seq<char>, usize>::empty());
        m
    }

    /// The position of `key` among the entries, if it is stored.
    fn find(&self, key: &String) -> (pos: Option<usize>)
        ensures
            match pos {
                Some(i) => self.has_key_at(key@, i as int),
                None => !self@.contains_key(key@),
            },
    {
        let mut i: usize = 0;
        while i < self.entries.len()
            invariant
                i <= self.entries.len(),
                forall|j: int| 0 <= j < i ==> self.entries@[j].0@ != key@,
            decreases self.entries.len() - i,
        {
            if self.entries[i].0 == *key {
                return Some(i);
            }
            i = i + 1;
        }
        proof {
            if self@.contains_key(key@) {
                let j = choose|j: int| self.has_key_at(key@, j);
                assert(self.entries@[j].0@ != key@);
            }
        }
        None
    }

    /// Whether `key` is stored.
    pub fn contains_key(&self, key: &String) -> (found: bool)
        ensures
            found == self@.contains_key(key@),
    {
        proof {
            use_type_invariant(self);
        }
        match self.find(key) {
            Some(i) => {
                proof {
                    self.lemma_index_of(key@, i as int);
                }
                true
            },
            None => false,
        }
    }

    /// The offset stored under `key`, if any.
    pub fn get(&self, key: &String) -> (value: Option<usize>)
        ensures
            value == (if self@.contains_key(key@) {
                Some(self@[key@])
            } else {
                None
            }),
    {
        proof {
            use_type_invariant(self);
        }
        match self.find(key) {
            Some(i) => {
                proof {
                    self.lemma_index_of(key@, i as int);
                }
                Some(self.entries[i].1)
            },
            None => None,
        }
    }

    /// Stores `value` under `key`, replacing what was stored there.
    pub fn insert(&mut self, key: String, value: usize)
        ensures
            final(self)@ == old(self)@.insert(key@, value),
    {
        proof {
            use_type_invariant(&*self);
        }
        let ghost old_map = self@;
        let ghost old_entries = self.entries@;
        let ghost k = key@;
        let pos = self.find(&key);
        let mut entries: Vec<(String, usize)> = Vec::new();
        std::mem::swap(&mut entries, &mut self.entries);
        assert(entries@ == old_entries);
        match pos {
            Some(i) => {
                entries.set(i, (key, value));
            },
            None => {
                entries.push((key, value));
            },
        }
        proof {
            let post = NetvarMap { entries: entries };
            let idx: int = match pos {
                Some(i) => i as int,
                None => old_entries.len() as int,
            };
            assert forall|a: int| 0 <= a < post.entries.len() && a != idx implies #[trigger] post.entries@[a]
                == old_entries[a] by {}
            assert(post.entries@[idx].0@ == k);
            assert forall|a: int, b: int|
                0 <= a < post.entries.len() && 0 <= b < post.entries.len() && #[trigger] post.entries@[a].0@
                    == #[trigger] post.entries@[b].0@ implies a == b by {
                if a != idx && b != idx {
                    assert(old_entries[a].0@ == old_entries[b].0@);
                } else if a != idx {
                    assert(old_entries[a].0@ == k);
                    if pos is None {
                        assert(old(self).has_key_at(k, a));
                    }
                } else if b != idx {
                    assert(old_entries[b].0@ == k);
                    if pos is None {
                        assert(old(self).has_key_at(k, b));
                    }
                }
            }
            assert(post.keys_distinct());
            post.lemma_index_of(k, idx);
            assert forall|q: Seq<char>| q != k implies (#[trigger] post@.contains_key(q)
                == old_map.contains_key(q)) && (old_map.contains_key(q) ==> post@[q]
                == old_map[q]) by {
                if old_map.contains_key(q) {
                    let j = choose|j: int|
                        0 <= j < old_entries.len() && old_entries[j].0@ == q;
                    assert(j != idx);
                    assert(old(self).has_key_at(q, j));
                    old(self).lemma_index_of(q, j);
                    assert(post.has_key_at(q, j));
                    post.lemma_index_of(q, j);
                }
                if post@.contains_key(q) {
                    let j = choose|j: int| post.has_key_at(q, j);
                    assert(j != idx);
                    assert(old(self).has_key_at(q, j));
                }
            }
            assert(post@ =~= old_map.insert(k, value));
        }
        self.entries = entries;
    }
}

} // verus!
