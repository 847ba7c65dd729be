//! A small map from text keys to text values that keeps insertion order.
use vstd::prelude::*;

use crate::text::same_text;

verus! {

/// Text keys mapped to text values, in insertion order, each key at most once.
#[derive(Debug, Clone)]
pub struct StringMap {
    entries: Vec<(String, String)>,
}

/// The key of an entry.
pub open spec fn entry_key(e: (Seq<char>, Seq<char>)) -> Seq<char> {
    e.0
}

/// Keys of `s` are pairwise distinct.
pub open spec fn keys_unique(s: Seq<(Seq<char>, Seq<char>)>) -> bool {
    forall|i: int, j: int| 0 <= i < j < s.len() ==> #[trigger] s[i].0 != #[trigger] s[j].0
}

/// The index of key `k` in `s`, if present.
pub open spec fn key_index(s: Seq<(Seq<char>, Seq<char>)>, k: Seq<char>) -> Option<int> {
    if exists|i: int| 0 <= i < s.len() && #[trigger] s[i].0 == k {
        Some(choose|i: int| 0 <= i < s.len() && #[trigger] s[i].0 == k)
    } else {
        None
    }
}

impl View for StringMap {
    type V = Seq<(Seq<char>, Seq<char>)>;

    closed spec fn view(&self) -> Seq<(Seq<char>, Seq<char>)> {
        self.entries@.map_values(|e: (String, String)| (e.0@, e.1@))
    }
}

impl StringMap {
    /// The entries are well formed: keys are unique.
    pub open spec fn wf(&self) -> bool {
        keys_unique(self@)
    }

    /// The value stored under `k`, if any.
    pub open spec fn lookup(&self, k: Seq<char>) -> Option<Seq<char>> {
        match key_index(self@, k) {
            Some(i) => Some(self@[i].1),
            None => None,
        }
    }

    /// An empty map.
    pub fn new() -> (r: Self)
        ensures
            r@ == Seq::<(Seq<char>, Seq<char>)>::empty(),
            r.wf(),
    {
        StringMap { entries: Vec::new() }
    }

    /// Number of entries.
    pub fn len(&self) -> (r: usize)
        ensures
            r == self@.len(),
    {
        self.entries.len()
    }

    /// Whether the map is empty.
    pub fn is_empty(&self) -> (r: bool)
        ensures
            r == (self@.len() == 0),
    {
        self.entries.len() == 0
    }

    /// The key of the entry at position `i`.
    pub fn key_at(&self, i: usize) -> (r: &String)
        requires
            i < self@.len(),
        ensures
            r@ == self@[i as int].0,
    {
        &self.entries[i].0
    }

    /// The value of the entry at position `i`.
    pub fn value_at(&self, i: usize) -> (r: &String)
        requires
            i < self@.len(),
        ensures
            r@ == self@[i as int].1,
    {
        &self.entries[i].1
    }

    /// The position of `k`, if present.
    pub fn find(&self, k: &str) -> (r: Option<usize>)
        requires
            self.wf(),
        ensures
            r is Some <==> key_index(self@, k@) is Some,
            r is Some ==> key_index(self@, k@) == Some(r->Some_0 as int),
            r is Some ==> r->Some_0 < self@.len() && self@[r->Some_0 as int].0 == k@,
    {
        let n = self.entries.len();
        let mut i: usize = 0;
        while i < n
            invariant
                n == self@.len(),
                i <= n,
                self.wf(),
                forall|j: int| 0 <= j < i ==> #[trigger] self@[j].0 != k@,
            decreases n - i,
        {
            if same_text(self.entries[i].0.as_str(), k) {
                assert(self@[i as int].0 == k@);
                proof {
                    let j = choose|j: int| 0 <= j < self@.len() && #[trigger] self@[j].0 == k@;
                    assert(j == i as int);
                }
                return Some(i);
            }
            i += 1;
        }
        None
    }

    /// The value stored under `k`.
    pub fn get(&self, k: &str) -> (r: Option<&String>)
        requires
            self.wf(),
        ensures
            r is Some <==> self.lookup(k@) is Some,
            r is Some ==> r->Some_0@ == self.lookup(k@)->Some_0,
    {
        match self.find(k) {
            Some(i) => Some(&self.entries[i].1),
            None => None,
        }
    }

    /// Whether `k` is stored.
    pub fn contains_key(&self, k: &str) -> (r: bool)
        requires
            self.wf(),
        ensures
            r == self.lookup(k@) is Some,
    {
        self.find(k).is_some()
    }

    /// Stores `v` under `k`; an existing entry keeps its position. Returns the previous value.
    pub fn insert(&mut self, k: String, v: String) -> (r: Option<String>)
        requires
            old(self).wf(),
        ensures
            final(self).wf(),
            final(self).lookup(k@) == Some(v@),
            r is Some <==> old(self).lookup(k@) is Some,
            r is Some ==> r->Some_0@ == old(self).lookup(k@)->Some_0,
            match key_index(old(self)@, k@) {
                Some(i) => final(self)@ == old(self)@.update(i, (k@, v@)),
                None => final(self)@ == old(self)@.push((k@, v@)),
            },
    {
        match self.find(k.as_str()) {
            Some(i) => {
                let previous = self.entries[i].1.clone();
                let ghost before = self@;
                self.entries.set(i, (k, v));
                assert(self@ =~= before.update(i as int, (k@, v@)));
                assert(self@[i as int].0 == k@);
                proof {
                    let j = choose|j: int| 0 <= j < self@.len() && #[trigger] self@[j].0 == k@;
                    assert(j == i as int);
                }
                Some(previous)
            },
            None => {
                let ghost before = self@;
                let ghost kv = k@;
                let ghost vv = v@;
                self.entries.push((k, v));
                assert(self@ =~= before.push((kv, vv)));
                assert(self@[before.len() as int].0 == kv);
                proof {
                    let j = choose|j: int| 0 <= j < self@.len() && #[trigger] self@[j].0 == kv;
                    assert(j == before.len());
                }
                None
            },
        }
    }

    /// Removes the entry of `k`, returning its value.
    pub fn remove(&mut self, k: &str) -> (r: Option<String>)
        requires
            old(self).wf(),
        ensures
            final(self).wf(),
            r is Some <==> old(self).lookup(k@) is Some,
            r is Some ==> r->Some_0@ == old(self).lookup(k@)->Some_0,
            match key_index(old(self)@, k@) {
                Some(i) => final(self)@ == old(self)@.remove(i),
                None => final(self)@ == old(self)@,
            },
    {
        match self.find(k) {
            Some(i) => {
                let ghost before = self@;
                let e = self.entries.remove(i);
                assert(self@ =~= before.remove(i as int));
                Some(e.1)
            },
            None => None,
        }
    }
}

} // verus!
