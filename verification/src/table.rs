use vstd::prelude::*;
use crate::ids::KeyEq;

verus! {

/// A finite map from keys to values, held as a list of entries whose keys
/// are pairwise distinct.
pub struct Table<K: KeyEq, V: View> {
    entries: Vec<(K, V)>,
    contents: Ghost<Map<K::V, V::V>>,
}

impl<K: KeyEq + Clone, V: View + Clone> Clone for Table<K, V> {
    fn clone(&self) -> (r: Self) {
        Table { entries: self.entries.clone(), contents: Ghost(self.contents@) }
    }
}

impl<K: KeyEq, V: View> View for Table<K, V> {
    type V = Map<K::V, V::V>;

    closed spec fn view(&self) -> Map<K::V, V::V> {
        self.contents@
    }
}

impl<K: KeyEq, V: View> Table<K, V> {
    /// The entries are pairwise distinct in their keys, and the ghost map
    /// holds exactly them.
    pub closed spec fn wf(&self) -> bool {
        &&& forall|i: int, j: int|
            0 <= i < self.entries@.len() && 0 <= j < self.entries@.len() && i != j
                ==> #[trigger] self.entries@[i].0@ != #[trigger] self.entries@[j].0@
        &&& forall|i: int|
            0 <= i < self.entries@.len() ==> {
                &&& #[trigger] self.contents@.contains_key(self.entries@[i].0@)
                &&& self.contents@[self.entries@[i].0@] == self.entries@[i].1@
            }
        &&& forall|k: K::V|
            #[trigger] self.contents@.contains_key(k) ==> exists|i: int|
                0 <= i < self.entries@.len() && #[trigger] self.entries@[i].0@ == k
    }

    pub fn new() -> (t: Self)
        ensures
            t.wf(),
            t@ == Map::<K::V, V::V>::empty(),
    {
        Table { entries: Vec::new(), contents: Ghost(Map::empty()) }
    }

    fn find(&self, k: &K) -> (r: Option<usize>)
        requires
            self.wf(),
        ensures
            match r {
                Some(i) => i < self.entries@.len() && self.entries@[i as int].0@ == k@,
                None => !self@.contains_key(k@),
            },
    {
        let mut i: usize = 0;
        while i < self.entries.len()
            invariant
                0 <= i <= self.entries@.len(),
                forall|j: int| 0 <= j < i ==> #[trigger] self.entries@[j].0@ != k@,
            decreases self.entries@.len() - i,
        {
            if self.entries[i].0.key_eq(k) {
                return Some(i);
            }
            i = i + 1;
        }
        None
    }

    pub fn contains(&self, k: &K) -> (r: bool)
        requires
            self.wf(),
        ensures
            r == self@.contains_key(k@),
    {
        match self.find(k) {
            Some(i) => {
                assert(self.contents@.contains_key(self.entries@[i as int].0@));
                true
            },
            None => false,
        }
    }

    pub fn get(&self, k: &K) -> (r: Option<&V>)
        requires
            self.wf(),
        ensures
            match r {
                Some(v) => self@.contains_key(k@) && v@ == self@[k@],
                None => !self@.contains_key(k@),
            },
    {
        match self.find(k) {
            Some(i) => {
                assert(self.contents@.contains_key(self.entries@[i as int].0@));
                Some(&self.entries[i].1)
            },
            None => None,
        }
    }

    pub fn insert(&mut self, k: K, v: V)
        requires
            old(self).wf(),
        ensures
            final(self).wf(),
            final(self)@ == old(self)@.insert(k@, v@),
    {
        let ghost old_entries = self.entries@;
        let ghost new_map = self.contents@.insert(k@, v@);
        match self.find(&k) {
            Some(i) => {
                self.entries.set(i, (k, v));
                self.contents = Ghost(new_map);
                assert forall|j: int| 0 <= j < self.entries@.len() && j != i implies
                    self.entries@[j] == old_entries[j] by {}
                assert forall|key: K::V| #[trigger] self.contents@.contains_key(key) implies
                    exists|j: int| 0 <= j < self.entries@.len() && #[trigger] self.entries@[j].0@ == key by {
                    if key != self.entries@[i as int].0@ {
                        let j = choose|j: int| 0 <= j < old_entries.len() && #[trigger] old_entries[j].0@ == key;
                        assert(self.entries@[j].0@ == key);
                    }
                }
            },
            None => {
                self.entries.push((k, v));
                self.contents = Ghost(new_map);
                let ghost n = old_entries.len() as int;
                assert forall|j: int| 0 <= j < n implies self.entries@[j] == old_entries[j] by {}
                assert forall|key: K::V| #[trigger] self.contents@.contains_key(key) implies
                    exists|j: int| 0 <= j < self.entries@.len() && #[trigger] self.entries@[j].0@ == key by {
                    if key != self.entries@[n].0@ {
                        let j = choose|j: int| 0 <= j < old_entries.len() && #[trigger] old_entries[j].0@ == key;
                        assert(self.entries@[j].0@ == key);
                    }
                }
            },
        }
    }

    pub fn remove(&mut self, k: &K)
        requires
            old(self).wf(),
        ensures
            final(self).wf(),
            final(self)@ == old(self)@.remove(k@),
    {
        let ghost old_entries = self.entries@;
        let ghost new_map = self.contents@.remove(k@);
        match self.find(k) {
            Some(i) => {
                self.entries.remove(i);
                self.contents = Ghost(new_map);
                assert forall|j: int| 0 <= j < self.entries@.len() implies
                    #[trigger] self.entries@[j] == (if j < i { old_entries[j] } else { old_entries[j + 1] }) by {}
                assert forall|key: K::V| #[trigger] self.contents@.contains_key(key) implies
                    exists|j: int| 0 <= j < self.entries@.len() && #[trigger] self.entries@[j].0@ == key by {
                    let j = choose|j: int| 0 <= j < old_entries.len() && #[trigger] old_entries[j].0@ == key;
                    if j < i {
                        assert(self.entries@[j].0@ == key);
                    } else {
                        assert(j != i);
                        assert(self.entries@[j - 1].0@ == key);
                    }
                }
            },
            None => {
                assert(self.contents@ =~= new_map);
            },
        }
    }
}

} // verus!
