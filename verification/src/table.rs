//! A table from text keys to values.
//!
//! The table is stored as two parallel columns. Its view is a `Map` from the
//! characters of a key to the value stored beside it; the invariant is that
//! no key occurs twice.

use vstd::prelude::*;

verus! {

pub struct Table<V> {
    keys: Vec<String>,
    values: Vec<V>,
}

impl<V> View for Table<V> {
    type V = Map<Seq<char>, V>;

    open spec fn view(&self) -> Map<Seq<char>, V> {
        Map::new(
            |k: Seq<char>| self.keys().contains(k),
            |k: Seq<char>| self.values()[self.keys().index_of(k)],
        )
    }
}

impl<V> Table<V> {
    /// The keys in storage order.
    pub closed spec fn keys(&self) -> Seq<Seq<char>> {
        Seq::new(self.keys@.len(), |i: int| self.keys@[i]@)
    }

    /// The values in storage order; `values()[i]` belongs to `keys()[i]`.
    pub closed spec fn values(&self) -> Seq<V> {
        self.values@
    }

    /// Both columns have the same length and no key occurs twice.
    pub open spec fn wf(&self) -> bool {
        &&& self.keys().len() == self.values().len()
        &&& self.keys().no_duplicates()
    }

    /// In a well-formed table the view binds each stored key to the value beside it,
    /// and has exactly as many keys as the table has rows.
    pub proof fn lemma_view(&self)
        requires
            self.wf(),
        ensures
            self@.dom().finite(),
            self@.dom() == self.keys().to_set(),
            self@.len() == self.keys().len(),
            forall|i: int|
                0 <= i < self.keys().len() ==> self@.contains_key(#[trigger] self.keys()[i])
                    && self@[self.keys()[i]] == self.values()[i],
    {
        let ks = self.keys();
        assert(self@.dom() =~= ks.to_set());
        ks.unique_seq_to_set();
        vstd::seq_lib::seq_to_set_is_finite(ks);
        assert forall|i: int| 0 <= i < ks.len() implies self@.contains_key(#[trigger] ks[i])
            && self@[ks[i]] == self.values()[i] by {
            assert(ks.contains(ks[i]));
            let j = ks.index_of(ks[i]);
            assert(ks[j] == ks[i]);
        }
    }

    /// An empty table.
    pub fn new() -> (t: Self)
        ensures
            t.wf(),
            t@ == Map::<Seq<char>, V>::empty(),
            t.keys().len() == 0,
    {
        let t = Table { keys: Vec::new(), values: Vec::new() };
        assert(t@ =~= Map::<Seq<char>, V>::empty());
        t
    }

    /// The number of rows, which is the number of keys.
    pub fn len(&self) -> (n: usize)
        requires
            self.wf(),
        ensures
            n == self.keys().len(),
            n == self@.len(),
            self@.dom().finite(),
    {
        proof {
            self.lemma_view();
        }
        self.keys.len()
    }

    /// The row at which `key` is stored, if it is stored.
    pub fn position(&self, key: &str) -> (r: Option<usize>)
        requires
            self.wf(),
        ensures
            match r {
                Some(i) => i < self.keys().len() && self.keys()[i as int] == key@,
                None => !self.keys().contains(key@),
            },
            r is Some <==> self@.contains_key(key@),
    {
        let wanted = key.to_owned();
        let mut i: usize = 0;
        while i < self.keys.len()
            invariant
                i <= self.keys.len(),
                wanted@ == key@,
                forall|j: int| 0 <= j < i ==> self.keys()[j] != key@,
            decreases self.keys.len() - i,
        {
            if self.keys[i] == wanted {
                assert(self.keys()[i as int] == key@);
                assert(self.keys().contains(key@));
                return Some(i);
            }
            i += 1;
        }
        None
    }

    /// Whether `key` is bound.
    pub fn contains_key(&self, key: &str) -> (b: bool)
        requires
            self.wf(),
        ensures
            b == self@.contains_key(key@),
    {
        self.position(key).is_some()
    }

    /// The value bound to `key`, if any.
    pub fn get(&self, key: &str) -> (r: Option<&V>)
        requires
            self.wf(),
        ensures
            match r {
                Some(v) => self@.contains_key(key@) && *v == self@[key@],
                None => !self@.contains_key(key@),
            },
    {
        match self.position(key) {
            Some(i) => {
                proof {
                    self.lemma_view();
                }
                Some(&self.values[i])
            },
            None => None,
        }
    }

    /// The key of row `i`.
    pub fn key_at(&self, i: usize) -> (k: &String)
        requires
            self.wf(),
            i < self.keys().len(),
        ensures
            k@ == self.keys()[i as int],
    {
        &self.keys[i]
    }

    /// The value of row `i`.
    pub fn value_at(&self, i: usize) -> (v: &V)
        requires
            self.wf(),
            i < self.keys().len(),
        ensures
            *v == self.values()[i as int],
    {
        &self.values[i]
    }

    /// Binds `key` to `value`. A value that was bound to `key` before is handed back.
    pub fn insert(&mut self, key: String, value: V) -> (previous: Option<V>)
        requires
            old(self).wf(),
        ensures
            final(self).wf(),
            final(self)@ == old(self)@.insert(key@, value),
            previous == (if old(self)@.contains_key(key@) {
                Some(old(self)@[key@])
            } else {
                None
            }),
            match previous {
                Some(_) => final(self).keys() == old(self).keys(),
                None => final(self).keys() == old(self).keys().push(key@),
            },
    {
        proof {
            self.lemma_view();
        }
        match self.position(key.as_str()) {
            Some(i) => {
                let ghost before = *self;
                self.values.push(value);
                let previous = self.values.swap_remove(i);
                proof {
                    assert(self.keys() == before.keys());
                    assert(self.values() =~= before.values().update(i as int, value));
                    self.lemma_view();
                    assert(self@ =~= before@.insert(key@, value)) by {
                        assert forall|k: Seq<char>| self@.contains_key(k) implies #[trigger] self@[k]
                            == before@.insert(key@, value)[k] by {
                            let j = self.keys().index_of(k);
                            assert(self.keys()[j] == k);
                        }
                    }
                }
                Some(previous)
            },
            None => {
                let ghost before = *self;
                self.keys.push(key);
                self.values.push(value);
                proof {
                    assert(self.keys() =~= before.keys().push(key@));
                    assert(self.values() =~= before.values().push(value));
                    assert(self.keys().no_duplicates());
                    self.lemma_view();
                    assert(self@ =~= before@.insert(key@, value)) by {
                        assert forall|k: Seq<char>| #[trigger]
                            self@.contains_key(k) <==> before@.insert(key@, value).contains_key(
                                k,
                            ) by {
                            if before.keys().contains(k) {
                                let j = before.keys().index_of(k);
                                assert(self.keys()[j] == k);
                            }
                            if k == key@ {
                                assert(self.keys()[before.keys().len() as int] == k);
                            }
                        }
                        assert forall|k: Seq<char>| self@.contains_key(k) implies #[trigger] self@[k]
                            == before@.insert(key@, value)[k] by {
                            let j = self.keys().index_of(k);
                            assert(self.keys()[j] == k);
                            if j < before.keys().len() {
                                assert(before.keys()[j] == k);
                            }
                        }
                    }
                }
                None
            },
        }
    }

    /// Takes the row at `i` out of the table. The rows behind it move up by one.
    pub fn remove_at(&mut self, i: usize) -> (row: (String, V))
        requires
            old(self).wf(),
            i < old(self).keys().len(),
        ensures
            final(self).wf(),
            row.0@ == old(self).keys()[i as int],
            row.1 == old(self).values()[i as int],
            final(self).keys() == old(self).keys().remove(i as int),
            final(self).values() == old(self).values().remove(i as int),
            final(self)@ == old(self)@.remove(row.0@),
    {
        let ghost before = *self;
        proof {
            before.lemma_view();
        }
        let key = self.keys.remove(i);
        let value = self.values.remove(i);
        proof {
            assert(self.keys() =~= before.keys().remove(i as int));
            assert(self.values() =~= before.values().remove(i as int));
            assert(self.keys().no_duplicates());
            self.lemma_view();
            assert(self@ =~= before@.remove(key@)) by {
                assert forall|k: Seq<char>| #[trigger]
                    self@.contains_key(k) <==> before@.remove(key@).contains_key(k) by {
                    assert(before.keys()[i as int] == key@);
                    if self.keys().contains(k) {
                        let j = self.keys().index_of(k);
                        assert(self.keys()[j] == k);
                        let h = if j < i { j } else { j + 1 };
                        assert(before.keys()[h] == k);
                        assert(before.keys().contains(k));
                        assert(k != key@);
                    }
                    if before.keys().contains(k) && k != key@ {
                        let j = before.keys().index_of(k);
                        assert(before.keys()[j] == k);
                        let h = if j < i { j } else { j - 1 };
                        assert(self.keys()[h] == k);
                        assert(self.keys().contains(k));
                    }
                }
                assert forall|k: Seq<char>| self@.contains_key(k) implies #[trigger] self@[k]
                    == before@.remove(key@)[k] by {
                    let j = self.keys().index_of(k);
                    assert(self.keys()[j] == k);
                    if j < i {
                        assert(before.keys()[j] == k);
                    } else {
                        assert(before.keys()[j + 1] == k);
                    }
                }
            }
        }
        (key, value)
    }

    /// Unbinds `key` and hands back the value that was bound to it, if any.
    pub fn remove(&mut self, key: &str) -> (taken: Option<V>)
        requires
            old(self).wf(),
        ensures
            final(self).wf(),
            final(self)@ == old(self)@.remove(key@),
            taken == (if old(self)@.contains_key(key@) {
                Some(old(self)@[key@])
            } else {
                None
            }),
    {
        proof {
            self.lemma_view();
        }
        match self.position(key) {
            Some(i) => {
                let row = self.remove_at(i);
                Some(row.1)
            },
            None => {
                assert(self@ =~= self@.remove(key@));
                None
            },
        }
    }

    /// Unbinds every key.
    pub fn clear(&mut self)
        ensures
            final(self).wf(),
            final(self)@ == Map::<Seq<char>, V>::empty(),
            final(self).keys().len() == 0,
    {
        self.keys.clear();
        self.values.clear();
        assert(self@ =~= Map::<Seq<char>, V>::empty());
    }

    /// The value bound to `key`, for changing in place.
    pub fn get_mut(&mut self, key: &str) -> (r: Option<&mut V>)
        requires
            old(self).wf(),
        ensures
            match r {
                Some(v) => old(self)@.contains_key(key@) && *v == old(self)@[key@]
                    && final(self).keys() == old(self).keys()
                    && final(self)@ == old(self)@.insert(key@, *final(v)),
                None => !old(self)@.contains_key(key@) && *final(self) == *old(self),
            },
            final(self).wf(),
    {
        proof {
            self.lemma_view();
        }
        match self.position(key) {
            Some(i) => {
                Some(&mut self.values[i])
            },
            None => None,
        }
    }
}

} // verus!
