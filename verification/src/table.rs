//! A keyed table of records: at most one record per key.

use vstd::prelude::*;

verus! {

/// Records keyed by text. The view is the map from each key to the view of its record.
pub struct Table<T> {
    entries: Vec<(String, T)>,
}

impl<T> Table<T> {
    #[verifier::type_invariant]
    spec fn distinct_keys(&self) -> bool {
        forall|i: int, j: int|
            0 <= i < j < self.entries@.len() ==> self.key_at(i) != self.key_at(j)
    }

    spec fn key_at(&self, i: int) -> Seq<char> {
        self.entries@[i].0@
    }

    spec fn holds(&self, key: Seq<char>) -> bool {
        exists|i: int| 0 <= i < self.entries@.len() && #[trigger] self.key_at(i) == key
    }

    spec fn place(&self, key: Seq<char>) -> int {
        choose|i: int| 0 <= i < self.entries@.len() && #[trigger] self.key_at(i) == key
    }

}

impl<T: View> Table<T> {
    /// An empty table.
    pub fn new() -> (t: Self)
        ensures
            t@ == Map::<Seq<char>, T::V>::empty(),
    {
        let t = Table { entries: Vec::new() };
        assert(t@ =~= Map::<Seq<char>, T::V>::empty());
        t
    }

    fn find(&self, key: &String) -> (r: Option<usize>)
        ensures
            match r {
                Some(i) => i < self.entries@.len() && self.key_at(i as int) == key@,
                None => !self.holds(key@),
            },
    {
        let mut i: usize = 0;
        while i < self.entries.len()
            invariant
                i <= self.entries@.len(),
                forall|j: int| 0 <= j < i ==> self.key_at(j) != key@,
            decreases self.entries@.len() - i,
        {
            if self.entries[i].0 == *key {
                return Some(i);
            }
            i += 1;
        }
        None
    }

    /// Whether a record is stored under `key`.
    pub fn has(&self, key: &String) -> (b: bool)
        ensures
            b == self@.contains_key(key@),
    {
        self.find(key).is_some()
    }

    /// The record stored under `key`, if there is one.
    pub fn may_load(&self, key: &String) -> (r: Option<&T>)
        ensures
            match r {
                Some(record) => self@.contains_key(key@) && record@ == self@[key@],
                None => !self@.contains_key(key@),
            },
    {
        proof {
            use_type_invariant(self);
        }
        match self.find(key) {
            Some(i) => {
                assert(self.key_at(i as int) == key@);
                assert(self.place(key@) == i as int);
                Some(&self.entries[i].1)
            },
            None => None,
        }
    }

    /// Stores `record` under `key`, in place of any record that was there.
    pub fn save(&mut self, key: String, record: T)
        ensures
            final(self)@ == old(self)@.insert(key@, record@),
    {
        proof {
            use_type_invariant(&*self);
        }
        let ghost before = *self;
        match self.find(&key) {
            Some(i) => {
                let mut entries: Vec<(String, T)> = Vec::new();
                std::mem::swap(&mut self.entries, &mut entries);
                entries.set(i, (key, record));
                assert forall|a: int, b: int| 0 <= a < b < entries@.len() implies entries@[a].0@
                    != entries@[b].0@ by {
                    assert(before.key_at(a) != before.key_at(b));
                }
                self.entries = entries;
                assert forall|k: Seq<char>| #[trigger] self.holds(k) == before.holds(k) by {
                    if before.holds(k) {
                        assert(self.key_at(before.place(k)) == k);
                    }
                    if self.holds(k) {
                        assert(before.key_at(self.place(k)) == k);
                    }
                }
                assert forall|k: Seq<char>| self.holds(k) implies #[trigger] self.place(k)
                    == before.place(k) by {
                    assert(before.key_at(self.place(k)) == k);
                }
            },
            None => {
                let mut entries: Vec<(String, T)> = Vec::new();
                std::mem::swap(&mut self.entries, &mut entries);
                entries.push((key, record));
                assert forall|a: int, b: int| 0 <= a < b < entries@.len() implies entries@[a].0@
                    != entries@[b].0@ by {
                    assert(before.key_at(a) == entries@[a].0@);
                    if b < before.entries@.len() {
                        assert(before.key_at(a) != before.key_at(b));
                    }
                }
                self.entries = entries;
                let ghost last = before.entries@.len() as int;
                assert(self.key_at(last) == key@);
                assert forall|k: Seq<char>| #[trigger]
                    self.holds(k) == (before.holds(k) || k == key@) by {
                    if before.holds(k) {
                        assert(self.key_at(before.place(k)) == k);
                    }
                    if self.holds(k) && k != key@ {
                        assert(before.key_at(self.place(k)) == k);
                    }
                }
                assert forall|k: Seq<char>| before.holds(k) implies #[trigger] self.place(k)
                    == before.place(k) by {
                    assert(self.key_at(before.place(k)) == k);
                }
            },
        }
        assert(self@ =~= before@.insert(key@, record@));
    }

    /// Removes the record stored under `key`, if there is one.
    pub fn remove(&mut self, key: &String)
        ensures
            final(self)@ == old(self)@.remove(key@),
    {
        proof {
            use_type_invariant(&*self);
        }
        let ghost before = *self;
        match self.find(key) {
            Some(i) => {
                let mut entries: Vec<(String, T)> = Vec::new();
                std::mem::swap(&mut self.entries, &mut entries);
                entries.remove(i);
                assert forall|a: int, b: int| 0 <= a < b < entries@.len() implies entries@[a].0@
                    != entries@[b].0@ by {
                    let a0 = if a < i { a } else { a + 1 };
                    let b0 = if b < i { b } else { b + 1 };
                    assert(before.key_at(a0) != before.key_at(b0));
                }
                self.entries = entries;
                assert forall|j: int| 0 <= j < self.entries@.len() implies #[trigger] self.key_at(j)
                    == before.key_at(if j < i { j } else { j + 1 }) by {}
                assert forall|k: Seq<char>| #[trigger]
                    self.holds(k) == (before.holds(k) && k != key@) by {
                    if before.holds(k) && k != key@ {
                        let p = before.place(k);
                        assert(self.key_at(if p < i { p } else { p - 1 }) == k);
                    }
                    if self.holds(k) {
                        let p = self.place(k);
                        assert(before.key_at(if p < i { p } else { p + 1 }) == k);
                    }
                }
                assert forall|k: Seq<char>| self.holds(k) implies self.entries@[self.place(k)].1
                    == before.entries@[before.place(k)].1 by {
                    let p = self.place(k);
                    assert(before.key_at(if p < i { p } else { p + 1 }) == k);
                }
            },
            None => {},
        }
        assert(self@ =~= before@.remove(key@));
    }
}

impl<T: View> View for Table<T> {
    type V = Map<Seq<char>, T::V>;

    closed spec fn view(&self) -> Map<Seq<char>, T::V> {
        Map::new(|k: Seq<char>| self.holds(k), |k: Seq<char>| self.entries@[self.place(k)].1@)
    }
}

} // verus!
