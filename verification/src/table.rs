//! A table of values keyed by collection name.
use vstd::prelude::*;
use vstd::string::*;

verus! {

/// `entries` lists exactly the pairs of `m`, each key once.
pub open spec fn lists_map<V>(entries: Seq<(String, V)>, m: Map<Seq<char>, V>) -> bool {
    &&& m.dom().finite()
    &&& m.dom().len() == entries.len()
    &&& forall|i: int, j: int|
        0 <= i < j < entries.len() ==> (#[trigger] entries[i]).0@ != (#[trigger] entries[j]).0@
    &&& forall|i: int|
        0 <= i < entries.len() ==> m.contains_key((#[trigger] entries[i]).0@) && m[entries[i].0@]
            == entries[i].1
    &&& forall|k: Seq<char>|
        #[trigger] m.contains_key(k) ==> exists|i: int| 0 <= i < entries.len() && entries[i].0@ == k
}

/// Values keyed by collection name, each name at most once.
pub struct CollectionTable<V> {
    entries: Vec<(String, V)>,
    contents: Ghost<Map<Seq<char>, V>>,
}

impl<V> View for CollectionTable<V> {
    type V = Map<Seq<char>, V>;

    /// The value stored under each name.
    closed spec fn view(&self) -> Map<Seq<char>, V> {
        self.contents@
    }
}

impl<V> CollectionTable<V> {
    /// The table's entries list its contents, each name once.
    pub closed spec fn wf(&self) -> bool {
        lists_map(self.entries@, self.contents@)
    }

    /// An empty table.
    pub fn new() -> (table: Self)
        ensures
            table.wf(),
            table@ == Map::<Seq<char>, V>::empty(),
    {
        CollectionTable { entries: Vec::new(), contents: Ghost(Map::empty()) }
    }

    /// The number of names in the table.
    pub fn len(&self) -> (n: usize)
        requires
            self.wf(),
        ensures
            n == self@.len(),
    {
        self.entries.len()
    }

    /// The position of `key` among the entries, if it is there.
    fn position(&self, key: &str) -> (pos: Option<usize>)
        requires
            self.wf(),
        ensures
            match pos {
                Some(i) => i < self.entries@.len() && self.entries@[i as int].0@ == key@,
                None => !self@.contains_key(key@),
            },
    {
        let wanted = String::from_str(key);
        let mut i: usize = 0;
        while i < self.entries.len()
            invariant
                self.wf(),
                wanted@ == key@,
                i <= self.entries@.len(),
                forall|j: int| 0 <= j < i ==> (#[trigger] self.entries@[j]).0@ != key@,
            decreases self.entries@.len() - i,
        {
            if self.entries[i].0 == wanted {
                return Some(i);
            }
            i = i + 1;
        }
        proof {
            if self@.contains_key(key@) {
                let j = choose|j: int| 0 <= j < self.entries@.len() && self.entries@[j].0@ == key@;
                assert(self.entries@[j].0@ != key@);
            }
        }
        None
    }

    /// Whether `key` is in the table.
    pub fn contains_key(&self, key: &str) -> (found: bool)
        requires
            self.wf(),
        ensures
            found == self@.contains_key(key@),
    {
        match self.position(key) {
            Some(_) => true,
            None => false,
        }
    }

    /// The value stored under `key`, if any.
    pub fn get(&self, key: &str) -> (value: Option<&V>)
        requires
            self.wf(),
        ensures
            match value {
                Some(v) => self@.contains_key(key@) && *v == self@[key@],
                None => !self@.contains_key(key@),
            },
    {
        match self.position(key) {
            Some(i) => Some(&self.entries[i].1),
            None => None,
        }
    }

    /// Removes `key` and returns the value stored under it, if any.
    pub fn remove(&mut self, key: &str) -> (removed: Option<V>)
        requires
            old(self).wf(),
        ensures
            final(self).wf(),
            final(self)@ == old(self)@.remove(key@),
            match removed {
                Some(v) => old(self)@.contains_key(key@) && v == old(self)@[key@],
                None => !old(self)@.contains_key(key@),
            },
    {
        match self.position(key) {
            Some(i) => {
                let ghost old_entries = self.entries@;
                let ghost old_map = self.contents@;
                let entry = self.entries.remove(i);
                self.contents = Ghost(old_map.remove(key@));
                proof {
                    let new_entries = self.entries@;
                    assert(new_entries =~= old_entries.remove(i as int));
                    assert forall|a: int, b: int|
                        0 <= a < b < new_entries.len() implies (#[trigger] new_entries[a]).0@
                        != (#[trigger] new_entries[b]).0@ by {
                        let oa = if a < i { a } else { a + 1 };
                        let ob = if b < i { b } else { b + 1 };
                        assert(new_entries[a] == old_entries[oa]);
                        assert(new_entries[b] == old_entries[ob]);
                    }
                    assert forall|a: int| 0 <= a < new_entries.len() implies self.contents@.contains_key(
                        (#[trigger] new_entries[a]).0@,
                    ) && self.contents@[new_entries[a].0@] == new_entries[a].1 by {
                        let oa = if a < i { a } else { a + 1 };
                        assert(new_entries[a] == old_entries[oa]);
                        assert(old_entries[oa].0@ != old_entries[i as int].0@);
                    }
                    assert forall|k: Seq<char>| #[trigger]
                        self.contents@.contains_key(k) implies exists|a: int|
                        0 <= a < new_entries.len() && new_entries[a].0@ == k by {
                        let o = choose|o: int| 0 <= o < old_entries.len() && old_entries[o].0@ == k;
                        assert(o != i);
                        let a = if o < i { o } else { o - 1 };
                        assert(new_entries[a] == old_entries[o]);
                    }
                    assert(old_map.contains_key(key@));
                }
                Some(entry.1)
            },
            None => {
                assert(self.contents@.remove(key@) =~= self.contents@);
                None
            },
        }
    }

    /// Stores `value` under `key`, replacing any value stored there.
    pub fn insert(&mut self, key: String, value: V)
        requires
            old(self).wf(),
        ensures
            final(self).wf(),
            final(self)@ == old(self)@.insert(key@, value),
    {
        let _ = self.remove(key.as_str());
        let ghost before = self.entries@;
        let ghost key_view = key@;
        let ghost old_map = self.contents@;
        self.contents = Ghost(old_map.insert(key_view, value));
        self.entries.push((key, value));
        proof {
            let after = self.entries@;
            let n = before.len() as int;
            assert(after =~= before.push((after[n].0, value)));
            assert(after[n].0@ == key_view);
            assert forall|a: int, b: int|
                0 <= a < b < after.len() implies (#[trigger] after[a]).0@ != (#[trigger] after[b]).0@ by {
                if b == n {
                    assert(after[a] == before[a]);
                    assert(old_map.contains_key(before[a].0@));
                } else {
                    assert(after[a] == before[a]);
                    assert(after[b] == before[b]);
                }
            }
            assert forall|a: int| 0 <= a < after.len() implies self.contents@.contains_key(
                (#[trigger] after[a]).0@,
            ) && self.contents@[after[a].0@] == after[a].1 by {
                if a < n {
                    assert(after[a] == before[a]);
                    assert(old_map.contains_key(before[a].0@));
                }
            }
            assert forall|k: Seq<char>| #[trigger]
                self.contents@.contains_key(k) implies exists|a: int|
                0 <= a < after.len() && after[a].0@ == k by {
                if k == key_view {
                    assert(after[n].0@ == k);
                } else {
                    let o = choose|o: int| 0 <= o < before.len() && before[o].0@ == k;
                    assert(after[o] == before[o]);
                }
            }
        }
    }

    /// Empties the table and returns its former entries, each name once.
    pub fn drain(&mut self) -> (drained: Vec<(String, V)>)
        requires
            old(self).wf(),
        ensures
            final(self).wf(),
            final(self)@ == Map::<Seq<char>, V>::empty(),
            lists_map(drained@, old(self)@),
    {
        let mut drained: Vec<(String, V)> = Vec::new();
        core::mem::swap(&mut drained, &mut self.entries);
        self.contents = Ghost(Map::empty());
        drained
    }
}

} // verus!
