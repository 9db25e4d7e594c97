//! A small table keyed by text, kept as a list in which no key occurs
//! twice. It serves the resolver's caches, which hold few entries per
//! remote identity and are read far more often than written.

use vstd::prelude::*;

verus! {

/// A table from text keys to values; its view is the map it stands for.
pub struct KeyedList<T> {
    items: Vec<(String, T)>,
}

impl<T> KeyedList<T> {
    /// No key occurs twice.
    pub closed spec fn wf(self) -> bool {
        forall|i: int, j: int|
            0 <= i < j < self.items@.len() ==> (#[trigger] self.items@[i]).0@ != (
            #[trigger] self.items@[j]).0@
    }

    /// The entry at position `i` has key `k`.
    pub closed spec fn has_at(self, k: Seq<char>, i: int) -> bool {
        0 <= i < self.items@.len() && self.items@[i].0@ == k
    }

    /// The map that the table stands for.
    pub closed spec fn view(self) -> Map<Seq<char>, T> {
        Map::new(
            |k: Seq<char>| exists|i: int| self.has_at(k, i),
            |k: Seq<char>| self.items@[choose|i: int| self.has_at(k, i)].1,
        )
    }

    proof fn lemma_at(self, k: Seq<char>, i: int)
        requires
            self.wf(),
            self.has_at(k, i),
        ensures
            self@.contains_key(k),
            self@[k] == self.items@[i].1,
    {
        let c = choose|c: int| self.has_at(k, c);
        if c < i {
            assert(self.items@[c].0@ != self.items@[i].0@);
        } else if i < c {
            assert(self.items@[i].0@ != self.items@[c].0@);
        }
    }

    /// An empty table.
    pub fn new() -> (r: Self)
        ensures
            r.wf(),
            r@ == Map::<Seq<char>, T>::empty(),
    {
        let r = KeyedList { items: Vec::new() };
        assert(r@ =~= Map::<Seq<char>, T>::empty());
        r
    }

    fn position(&self, key: &String) -> (r: Option<usize>)
        ensures
            match r {
                Some(i) => self.has_at(key@, i as int),
                None => forall|i: int| !self.has_at(key@, i),
            },
    {
        let mut i: usize = 0;
        while i < self.items.len()
            invariant
                i <= self.items@.len(),
                forall|j: int| 0 <= j < i ==> !self.has_at(key@, j),
            decreases self.items@.len() - i,
        {
            if self.items[i].0 == *key {
                return Some(i);
            }
            i += 1;
        }
        None
    }

    /// Whether the table holds `key`.
    pub fn contains(&self, key: &String) -> (b: bool)
        requires
            self.wf(),
        ensures
            b == self@.contains_key(key@),
    {
        match self.position(key) {
            Some(i) => {
                proof {
                    self.lemma_at(key@, i as int);
                }
                true
            },
            None => false,
        }
    }

    /// The value under `key`, if the table holds one.
    pub fn get(&self, key: &String) -> (r: Option<&T>)
        requires
            self.wf(),
        ensures
            r is Some <==> self@.contains_key(key@),
            r is Some ==> *r->Some_0 == self@[key@],
    {
        match self.position(key) {
            Some(i) => {
                proof {
                    self.lemma_at(key@, i as int);
                }
                Some(&self.items[i].1)
            },
            None => None,
        }
    }

    /// Sets the value under `key`, replacing the one that was there.
    pub fn put(&mut self, key: String, value: T)
        requires
            old(self).wf(),
        ensures
            final(self).wf(),
            final(self)@ == old(self)@.insert(key@, value),
    {
        let ghost before = *self;
        let ghost k = key@;
        let found = self.position(&key);
        match found {
            Some(i) => {
                self.items.set(i, (key, value));
            },
            None => {
                self.items.push((key, value));
            },
        }
        proof {
            let after = *self;
            let at: int = match found {
                Some(i) => i as int,
                None => before.items@.len() as int,
            };
            assert(after.has_at(k, at));
            assert(forall|j: int| 0 <= j < after.items@.len() && j != at ==> after.items@[j] == before.items@[j]);
            assert(after.wf()) by {
                assert forall|i: int, j: int| 0 <= i < j < after.items@.len() implies (
                #[trigger] after.items@[i]).0@ != (#[trigger] after.items@[j]).0@ by {
                    if i == at {
                        if found is Some {
                            assert(before.items@[at].0@ != before.items@[j].0@);
                        }
                    } else if j == at {
                        if found is Some {
                            assert(before.items@[i].0@ != before.items@[at].0@);
                        } else {
                            assert(!before.has_at(k, i));
                        }
                    } else {
                        assert(before.items@[i].0@ != before.items@[j].0@);
                    }
                }
            }
            after.lemma_at(k, at);
            assert forall|q: Seq<char>| #[trigger] after@.contains_key(q) == before@.insert(k, value).contains_key(q) by {
                if q != k {
                    if before@.contains_key(q) {
                        let c = choose|c: int| before.has_at(q, c);
                        assert(after.has_at(q, c));
                    }
                    if after@.contains_key(q) {
                        let c = choose|c: int| after.has_at(q, c);
                        assert(before.has_at(q, c));
                    }
                }
            }
            assert forall|q: Seq<char>| after@.contains_key(q) implies #[trigger] after@[q] == before@.insert(k, value)[q] by {
                if q != k {
                    let c = choose|c: int| after.has_at(q, c);
                    assert(before.has_at(q, c));
                    after.lemma_at(q, c);
                    before.lemma_at(q, c);
                }
            }
            assert(after@ =~= before@.insert(k, value));
        }
    }

    /// Removes the entry under `key`, if there is one.
    pub fn remove(&mut self, key: &String)
        requires
            old(self).wf(),
        ensures
            final(self).wf(),
            final(self)@ == old(self)@.remove(key@),
    {
        let ghost before = *self;
        let ghost k = key@;
        let found = self.position(key);
        match found {
            Some(i) => {
                let _ = self.items.remove(i);
                proof {
                    let after = *self;
                    let at = i as int;
                    assert(forall|j: int| 0 <= j < at ==> after.items@[j] == before.items@[j]);
                    assert(forall|j: int| at <= j < after.items@.len() ==> after.items@[j] == before.items@[j + 1]);
                    assert(after.wf()) by {
                        assert forall|a: int, b: int| 0 <= a < b < after.items@.len() implies (
                        #[trigger] after.items@[a]).0@ != (#[trigger] after.items@[b]).0@ by {
                            let a0 = if a < at { a } else { a + 1 };
                            let b0 = if b < at { b } else { b + 1 };
                            assert(before.items@[a0].0@ != before.items@[b0].0@);
                        }
                    }
                    assert forall|q: Seq<char>| #[trigger] after@.contains_key(q) == before@.remove(k).contains_key(q) by {
                        if before@.contains_key(q) && q != k {
                            let c = choose|c: int| before.has_at(q, c);
                            let c1 = if c < at { c } else { c - 1 };
                            assert(after.has_at(q, c1));
                        }
                        if after@.contains_key(q) {
                            let c = choose|c: int| after.has_at(q, c);
                            let c0 = if c < at { c } else { c + 1 };
                            assert(before.has_at(q, c0));
                            if q == k {
                                assert(before.items@[c0].0@ == before.items@[at].0@);
                                if c0 < at {
                                    assert(before.items@[c0].0@ != before.items@[at].0@);
                                } else {
                                    assert(before.items@[at].0@ != before.items@[c0].0@);
                                }
                            }
                        }
                    }
                    assert forall|q: Seq<char>| after@.contains_key(q) implies #[trigger] after@[q] == before@.remove(k)[q] by {
                        let c = choose|c: int| after.has_at(q, c);
                        let c0 = if c < at { c } else { c + 1 };
                        assert(before.has_at(q, c0));
                        after.lemma_at(q, c);
                        before.lemma_at(q, c0);
                    }
                    assert(after@ =~= before@.remove(k));
                }
            },
            None => {
                proof {
                    assert(!before@.contains_key(k));
                    assert(before@ =~= before@.remove(k));
                }
            },
        }
    }
}

} // verus!
