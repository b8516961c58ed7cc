use vstd::prelude::*;

verus! {

/// Whether two byte arrays hold the same bytes.
pub fn same_bytes<const N: usize>(a: &[u8; N], b: &[u8; N]) -> (same: bool)
    ensures
        same == (a@ == b@),
{
    let mut i: usize = 0;
    while i < N
        invariant
            i <= N,
            forall|j: int| 0 <= j < i ==> a@[j] == b@[j],
        decreases N - i,
    {
        if a[i] != b[i] {
            return false;
        }
        i += 1;
    }
    assert(a@ =~= b@);
    true
}

/// A keyed store of values under `N`-byte keys. A key is looked up at the
/// first entry that carries it, and `insert` writes there, so the store
/// behaves as a map whatever it holds.
pub struct Table<const N: usize, V> {
    entries: Vec<([u8; N], V)>,
}

impl<const N: usize, V: Copy> Table<N, V> {
    /// Whether entry `i` is the first that carries `key`.
    closed spec fn first_at(&self, key: Seq<u8>, i: int) -> bool {
        &&& 0 <= i < self.entries.len()
        &&& self.entries[i].0@ == key
        &&& forall|j: int| 0 <= j < i ==> (#[trigger] self.entries[j]).0@ != key
    }

    /// The first entry that carries `key`, where there is one.
    closed spec fn slot(&self, key: Seq<u8>) -> int {
        choose|i: int| self.first_at(key, i)
    }

    /// Whether some entry carries `key`.
    closed spec fn holds(&self, key: Seq<u8>) -> bool {
        exists|i: int| self.first_at(key, i)
    }

    /// The store as a map from key bytes to value.
    pub closed spec fn view(&self) -> Map<Seq<u8>, V> {
        Map::new(|key: Seq<u8>| self.holds(key), |key: Seq<u8>| self.entries[self.slot(key)].1)
    }

    /// The first entry that carries a key is the one the map speaks of.
    proof fn lemma_first(&self, key: Seq<u8>, i: int)
        requires
            self.first_at(key, i),
        ensures
            self.holds(key),
            self.slot(key) == i,
            self@.dom().contains(key),
            self@[key] == self.entries[i].1,
    {
        let s = self.slot(key);
        assert(self.first_at(key, s));
        if s < i {
            assert(self.entries[s].0@ != key);
        } else if i < s {
            assert(self.entries[i].0@ != key);
        }
    }

    /// An empty store.
    pub fn new() -> (table: Self)
        ensures
            table@ == Map::<Seq<u8>, V>::empty(),
    {
        let table = Table { entries: Vec::new() };
        assert(table@ =~= Map::<Seq<u8>, V>::empty());
        table
    }

    fn find(&self, key: &[u8; N]) -> (found: Option<usize>)
        ensures
            match found {
                Some(i) => self.first_at(key@, i as int),
                None => !self.holds(key@),
            },
    {
        let mut i: usize = 0;
        while i < self.entries.len()
            invariant
                i <= self.entries.len(),
                forall|j: int| 0 <= j < i ==> (#[trigger] self.entries[j]).0@ != key@,
            decreases self.entries.len() - i,
        {
            if same_bytes(&self.entries[i].0, key) {
                return Some(i);
            }
            i += 1;
        }
        None
    }

    /// Looks up the value under `key`.
    pub fn get(&self, key: &[u8; N]) -> (value: Option<V>)
        ensures
            value == if self@.dom().contains(key@) {
                Some(self@[key@])
            } else {
                None::<V>
            },
    {
        match self.find(key) {
            Some(i) => {
                proof {
                    self.lemma_first(key@, i as int);
                }
                Some(self.entries[i].1)
            },
            None => None,
        }
    }

    /// Whether a value is held under `key`.
    pub fn contains(&self, key: &[u8; N]) -> (held: bool)
        ensures
            held == self@.dom().contains(key@),
    {
        match self.find(key) {
            Some(i) => {
                proof {
                    self.lemma_first(key@, i as int);
                }
                true
            },
            None => false,
        }
    }

    /// Stores `value` under `key`, replacing what was held there.
    pub fn insert(&mut self, key: [u8; N], value: V)
        ensures
            final(self)@ == old(self)@.insert(key@, value),
    {
        let ghost before = *self;
        let found = self.find(&key);
        match found {
            Some(i) => {
                self.entries.set(i, (key, value));
            },
            None => {
                self.entries.push((key, value));
            },
        }
        proof {
            let after = *self;
            let at: int = match found {
                Some(i) => i as int,
                None => before.entries.len() as int,
            };
            assert(after.entries[at] == (key, value));
            assert forall|j: int| 0 <= j < before.entries.len() && j != at implies (
            #[trigger] after.entries[j]) == before.entries[j] by {}
            assert forall|j: int| 0 <= j < at implies (#[trigger] after.entries[j]).0@ != key@ by {
                assert(after.entries[j] == before.entries[j]);
                if found is Some {
                    assert(before.first_at(key@, at));
                } else {
                    if before.entries[j].0@ == key@ {
                        Self::lemma_some_first(before, key@, j);
                    }
                }
            }
            assert(after.first_at(key@, at));
            after.lemma_first(key@, at);
            assert forall|k: Seq<u8>, i: int| k != key@ implies after.first_at(k, i)
                == before.first_at(k, i) by {
                if after.first_at(k, i) {
                    assert(i != at);
                    assert(after.entries[i] == before.entries[i]);
                    assert forall|j: int| 0 <= j < i implies (#[trigger] before.entries[j]).0@
                        != k by {
                        if j != at {
                            assert(after.entries[j] == before.entries[j]);
                        } else {
                            assert(after.entries[j].0@ != k);
                            if found is Some {
                                assert(before.first_at(key@, at));
                            }
                        }
                    }
                }
                if before.first_at(k, i) {
                    assert(i != at) by {
                        if found is Some {
                            assert(before.first_at(key@, at));
                        }
                    }
                    assert(after.entries[i] == before.entries[i]);
                    assert forall|j: int| 0 <= j < i implies (#[trigger] after.entries[j]).0@
                        != k by {
                        if j != at {
                            assert(after.entries[j] == before.entries[j]);
                        }
                    }
                }
            }
            assert forall|k: Seq<u8>| k != key@ implies after.holds(k) == before.holds(k) by {
                if after.holds(k) {
                    let i = choose|i: int| after.first_at(k, i);
                    assert(before.first_at(k, i));
                }
                if before.holds(k) {
                    let i = choose|i: int| before.first_at(k, i);
                    assert(after.first_at(k, i));
                }
            }
            assert forall|k: Seq<u8>| k != key@ && before.holds(k) implies after@[k]
                == before@[k] by {
                let i = before.slot(k);
                assert(before.first_at(k, i));
                assert(after.first_at(k, i));
                before.lemma_first(k, i);
                after.lemma_first(k, i);
                assert(i != at);
                assert(after.entries[i] == before.entries[i]);
            }
            assert(after@ =~= before@.insert(key@, value));
        }
    }

    /// Where some entry carries a key, a first one does.
    proof fn lemma_some_first(table: Self, key: Seq<u8>, i: int)
        requires
            0 <= i < table.entries.len(),
            table.entries[i].0@ == key,
        ensures
            table.holds(key),
        decreases i,
    {
        if forall|j: int| 0 <= j < i ==> (#[trigger] table.entries[j]).0@ != key {
            assert(table.first_at(key, i));
        } else {
            let j = choose|j: int| 0 <= j < i && (#[trigger] table.entries[j]).0@ == key;
            Self::lemma_some_first(table, key, j);
        }
    }
}

} // verus!
