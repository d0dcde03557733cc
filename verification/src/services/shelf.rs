//! Records kept in memory, each under a key of its own.
//!
//! A `Shelf` is a map from key to record, held as a list in which no two
//! records share a key. The stores of record are shelves.

use vstd::prelude::*;
use crate::text::same_text;

verus! {

/// A record that is filed under a key which what the record says determines.
pub trait Filed: View + Sized {
    /// The key under which a record that says `record` is filed.
    spec fn key_of(record: Self::V) -> Seq<char>;

    /// The key under which the record is filed.
    fn key(&self) -> (key: &str)
        ensures
            key@ == Self::key_of(self@),
    ;

    /// A copy of the record.
    fn duplicate(&self) -> (copy: Self)
        ensures
            copy@ == self@,
    ;
}

/// Records in a list, no two under one key.
pub struct Shelf<T: Filed> {
    records: Vec<T>,
}

impl<T: Filed> View for Shelf<T> {
    type V = Map<Seq<char>, T::V>;

    closed spec fn view(&self) -> Map<Seq<char>, T::V> {
        Map::new(
            |key: Seq<char>| self.position(key) is Some,
            |key: Seq<char>| self.records[self.position(key).unwrap()]@,
        )
    }
}

impl<T: Filed> Shelf<T> {
    /// No two records share a key.
    pub closed spec fn wf(self) -> bool {
        forall|i: int, j: int|
            0 <= i < j < self.records.len() ==> T::key_of(self.records[i]@) != T::key_of(
                self.records[j]@,
            )
    }

    /// How many records there are.
    pub closed spec fn count(self) -> nat {
        self.records.len() as nat
    }

    /// What the record at place `i` says.
    pub closed spec fn at(self, i: int) -> T::V {
        self.records[i]@
    }

    /// The place of the record with this key, if there is one.
    closed spec fn position(self, key: Seq<char>) -> Option<int> {
        if exists|i: int| 0 <= i < self.records.len() && T::key_of(self.records[i]@) == key {
            Some(choose|i: int| 0 <= i < self.records.len() && T::key_of(self.records[i]@) == key)
        } else {
            None
        }
    }

    /// With distinct keys, the record at `i` is the one found under its key.
    proof fn lemma_position(self, i: int)
        requires
            self.wf(),
            0 <= i < self.records.len(),
        ensures
            self.position(T::key_of(self.records[i]@)) == Some(i),
    {
        let key = T::key_of(self.records[i]@);
        let k = choose|k: int| 0 <= k < self.records.len() && T::key_of(self.records[k]@) == key;
        assert(0 <= k < self.records.len() && T::key_of(self.records[k]@) == key);
        if k < i {
            assert(T::key_of(self.records[k]@) != T::key_of(self.records[i]@));
        }
        if i < k {
            assert(T::key_of(self.records[i]@) != T::key_of(self.records[k]@));
        }
    }

    /// The map and the list hold the same records: every record of the list
    /// is in the map under its key, every record of the map is in the list,
    /// and each is filed under its own key.
    pub proof fn lemma_entries(self)
        requires
            self.wf(),
        ensures
            forall|i: int|
                0 <= i < self.count() ==> self@.contains_key(T::key_of(#[trigger] self.at(i)))
                    && self@[T::key_of(self.at(i))] == self.at(i),
            forall|key: Seq<char>| #[trigger]
                self@.contains_key(key) ==> T::key_of(self@[key]) == key && exists|i: int|
                    0 <= i < self.count() && #[trigger] self.at(i) == self@[key],
    {
        assert forall|i: int| 0 <= i < self.count() implies self@.contains_key(
            T::key_of(#[trigger] self.at(i)),
        ) && self@[T::key_of(self.at(i))] == self.at(i) by {
            self.lemma_position(i);
        }
        assert forall|key: Seq<char>| #[trigger] self@.contains_key(key) implies T::key_of(
            self@[key],
        ) == key && exists|i: int| 0 <= i < self.count() && #[trigger] self.at(i) == self@[key] by {
            let k = self.position(key).unwrap();
            assert(self.at(k) == self@[key]);
        }
    }

    /// The map has as many keys as the list has records.
    pub proof fn lemma_count(self)
        requires
            self.wf(),
        ensures
            self@.dom().finite(),
            self@.len() == self.count(),
    {
        self.lemma_count_from(self.records.len() as int);
    }

    /// The keys of the first `n` records are `n` distinct keys.
    proof fn lemma_count_from(self, n: int)
        requires
            self.wf(),
            0 <= n <= self.records.len(),
        ensures
            Set::new(
                |key: Seq<char>| exists|i: int| 0 <= i < n && T::key_of(self.records[i]@) == key,
            ).finite(),
            Set::new(
                |key: Seq<char>| exists|i: int| 0 <= i < n && T::key_of(self.records[i]@) == key,
            ).len() == n,
            n == self.records.len() ==> self@.dom() =~= Set::new(
                |key: Seq<char>| exists|i: int| 0 <= i < n && T::key_of(self.records[i]@) == key,
            ),
        decreases n,
    {
        let keys = Set::new(
            |key: Seq<char>| exists|i: int| 0 <= i < n && T::key_of(self.records[i]@) == key,
        );
        if n == 0 {
            assert(keys =~= Set::empty());
        } else {
            self.lemma_count_from(n - 1);
            let fewer = Set::new(
                |key: Seq<char>|
                    exists|i: int| 0 <= i < n - 1 && T::key_of(self.records[i]@) == key,
            );
            let added = T::key_of(self.records[n - 1]@);
            assert(!fewer.contains(added)) by {
                if fewer.contains(added) {
                    let i = choose|i: int| 0 <= i < n - 1 && T::key_of(self.records[i]@) == added;
                    assert(T::key_of(self.records[i]@) != T::key_of(self.records[n - 1]@));
                }
            }
            assert(keys =~= fewer.insert(added)) by {
                assert forall|key: Seq<char>| keys.contains(key) <==> fewer.insert(added).contains(
                    key,
                ) by {
                    if keys.contains(key) {
                        let i = choose|i: int|
                            0 <= i < n && T::key_of(self.records[i]@) == key;
                        if i < n - 1 {
                            assert(fewer.contains(key));
                        }
                    }
                    if fewer.contains(key) {
                        let i = choose|i: int|
                            0 <= i < n - 1 && T::key_of(self.records[i]@) == key;
                        assert(0 <= i < n && T::key_of(self.records[i]@) == key);
                    }
                    if key == added {
                        assert(0 <= n - 1 < n && T::key_of(self.records[n - 1]@) == key);
                    }
                }
            }
        }
    }

    /// An empty shelf.
    pub fn new() -> (shelf: Shelf<T>)
        ensures
            shelf.wf(),
            shelf.count() == 0,
            shelf@ == Map::<Seq<char>, T::V>::empty(),
    {
        let shelf = Shelf { records: Vec::new() };
        assert(shelf@ =~= Map::<Seq<char>, T::V>::empty());
        shelf
    }

    /// How many records there are.
    pub fn len(&self) -> (n: usize)
        requires
            self.wf(),
        ensures
            n == self.count(),
            n == self@.len(),
            self@.dom().finite(),
    {
        proof {
            self.lemma_count();
        }
        self.records.len()
    }

    /// The record at place `i`.
    pub fn get_at(&self, i: usize) -> (record: &T)
        requires
            i < self.count(),
        ensures
            record@ == self.at(i as int),
    {
        &self.records[i]
    }

    /// The place of the record with this key.
    fn locate(&self, key: &str) -> (r: Option<usize>)
        requires
            self.wf(),
        ensures
            match r {
                Some(i) => i < self.records.len() && self.position(key@) == Some(i as int),
                None => self.position(key@) is None,
            },
    {
        let mut i: usize = 0;
        while i < self.records.len()
            invariant
                i <= self.records.len(),
                self.wf(),
                forall|k: int| 0 <= k < i ==> T::key_of(self.records[k]@) != key@,
            decreases self.records.len() - i,
        {
            if same_text(self.records[i].key(), key) {
                proof {
                    self.lemma_position(i as int);
                }
                return Some(i);
            }
            i += 1;
        }
        None
    }

    /// A copy of the record under `key`, if there is one.
    pub fn find(&self, key: &str) -> (r: Option<T>)
        requires
            self.wf(),
        ensures
            match r {
                Some(record) => self@.contains_key(key@) && self@[key@] == record@,
                None => !self@.contains_key(key@),
            },
    {
        match self.locate(key) {
            Some(i) => Some(self.records[i].duplicate()),
            None => None,
        }
    }

    /// Files the record if its key is free, and says whether it did.
    pub fn put(&mut self, record: T) -> (filed: bool)
        requires
            old(self).wf(),
        ensures
            final(self).wf(),
            filed == !old(self)@.contains_key(T::key_of(record@)),
            final(self)@ == if filed {
                old(self)@.insert(T::key_of(record@), record@)
            } else {
                old(self)@
            },
            final(self).count() == old(self).count() + if filed {
                1int
            } else {
                0int
            },
    {
        if self.locate(record.key()).is_some() {
            return false;
        }
        let ghost before = *self;
        let ghost key = T::key_of(record@);
        let ghost said = record@;
        self.records.push(record);
        proof {
            let after = *self;
            let last = before.records.len() as int;
            assert(after.wf()) by {
                assert forall|i: int, j: int|
                    0 <= i < j < after.records.len() implies T::key_of(after.records[i]@)
                    != T::key_of(after.records[j]@) by {
                    if j == last {
                        assert(T::key_of(before.records[i]@) != key);
                    }
                }
            }
            after.lemma_position(last);
            let expected = before@.insert(key, said);
            assert forall|k: Seq<char>| after@.contains_key(k) <==> expected.contains_key(k) by {
                if before.position(k) is Some {
                    let i = before.position(k).unwrap();
                    assert(after.records[i] == before.records[i]);
                }
                if after.position(k) is Some {
                    let i = after.position(k).unwrap();
                    if i < last {
                        assert(after.records[i] == before.records[i]);
                    }
                }
            }
            assert forall|k: Seq<char>| after@.contains_key(k) implies after@[k]
                == expected[k] by {
                let i = after.position(k).unwrap();
                if i < last {
                    assert(after.records[i] == before.records[i]);
                    before.lemma_position(i);
                }
            }
            assert(after@ =~= expected);
        }
        true
    }

    /// Puts the record in the place of the one that is filed under its key.
    pub fn replace(&mut self, record: T)
        requires
            old(self).wf(),
            old(self)@.contains_key(T::key_of(record@)),
        ensures
            final(self).wf(),
            final(self)@ == old(self)@.insert(T::key_of(record@), record@),
            final(self).count() == old(self).count(),
    {
        let i = match self.locate(record.key()) {
            Some(i) => i,
            None => {
                return ;
            },
        };
        let ghost before = *self;
        let ghost key = T::key_of(record@);
        let ghost said = record@;
        self.records.set(i, record);
        proof {
            let after = *self;
            assert(after.wf()) by {
                assert forall|a: int, b: int|
                    0 <= a < b < after.records.len() implies T::key_of(after.records[a]@)
                    != T::key_of(after.records[b]@) by {
                    assert(T::key_of(after.records[a]@) == T::key_of(before.records[a]@));
                    assert(T::key_of(after.records[b]@) == T::key_of(before.records[b]@));
                }
            }
            assert forall|k: Seq<char>| after@.contains_key(k) <==> before@.contains_key(k) by {
                if after.position(k) is Some {
                    let j = after.position(k).unwrap();
                    assert(T::key_of(before.records[j]@) == k);
                }
                if before.position(k) is Some {
                    let j = before.position(k).unwrap();
                    assert(T::key_of(after.records[j]@) == k);
                }
            }
            let expected = before@.insert(key, said);
            after.lemma_position(i as int);
            assert forall|k: Seq<char>| after@.contains_key(k) implies after@[k]
                == expected[k] by {
                let j = after.position(k).unwrap();
                if j != i {
                    assert(after.records[j] == before.records[j]);
                    before.lemma_position(j);
                }
            }
            assert(after@ =~= expected);
        }
    }
}

} // verus!
