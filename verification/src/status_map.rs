//! The run status of each session, keyed by session id.

use vstd::prelude::*;

use crate::types::SessionStatus;

verus! {

/// A map from session id to the session's run status.
///
/// Kept as a vector of entries in which no id occurs twice.
#[derive(Debug)]
pub struct StatusMap {
    entries: Vec<(String, SessionStatus)>,
}

impl StatusMap {
    #[verifier::type_invariant]
    spec fn keys_unique(self) -> bool {
        forall|i: int, j: int|
            0 <= i < self.entries@.len() && 0 <= j < self.entries@.len() && i != j
                ==> #[trigger] self.entries@[i].0@ != #[trigger] self.entries@[j].0@
    }

    spec fn has_index(self, k: Seq<char>, i: int) -> bool {
        0 <= i < self.entries@.len() && self.entries@[i].0@ == k
    }

    spec fn index_of(self, k: Seq<char>) -> int {
        choose|i: int| self.has_index(k, i)
    }

    /// The map from each session id to its status.
    pub closed spec fn view(&self) -> Map<Seq<char>, SessionStatus> {
        Map::new(
            |k: Seq<char>| exists|i: int| self.has_index(k, i),
            |k: Seq<char>| self.entries@[self.index_of(k)].1,
        )
    }

    proof fn lemma_index(self, k: Seq<char>, i: int)
        requires
            self.keys_unique(),
            self.has_index(k, i),
        ensures
            self.index_of(k) == i,
            self.view().contains_key(k),
            self.view()[k] == self.entries@[i].1,
    {
        let j = self.index_of(k);
        assert(self.has_index(k, j));
        if i != j {
            assert(self.entries@[i].0@ != self.entries@[j].0@);
        }
    }

    /// An empty map.
    pub fn new() -> (r: StatusMap)
        ensures
            r.view() == Map::<Seq<char>, SessionStatus>::empty(),
    {
        let r = StatusMap { entries: Vec::new() };
        assert(r.view() =~= Map::<Seq<char>, SessionStatus>::empty());
        r
    }

    /// Number of sessions with a status.
    pub fn len(&self) -> (n: usize)
        ensures
            n == self.view().dom().len(),
    {
        proof {
            use_type_invariant(self);
            self.lemma_len();
        }
        self.entries.len()
    }

    proof fn lemma_len(self)
        requires
            self.keys_unique(),
        ensures
            self.view().dom().len() == self.entries@.len(),
            self.view().dom().finite(),
    {
        let keys = self.entries@.map_values(|e: (String, SessionStatus)| e.0@);
        assert forall|i: int, j: int| 0 <= i < keys.len() && 0 <= j < keys.len() && i != j
            implies keys[i] != keys[j] by {
            assert(self.entries@[i].0@ != self.entries@[j].0@);
        }
        assert(keys.no_duplicates());
        keys.unique_seq_to_set();
        assert forall|k: Seq<char>| self.view().dom().contains(k) <==> keys.to_set().contains(k) by {
            if self.view().dom().contains(k) {
                let i = choose|i: int| self.has_index(k, i);
                assert(keys[i] == k);
            }
            if keys.to_set().contains(k) {
                let i = choose|i: int| 0 <= i < keys.len() && keys[i] == k;
                assert(self.has_index(k, i));
            }
        }
        assert(self.view().dom() =~= keys.to_set());
    }

    /// Whether no session has a status.
    pub fn is_empty(&self) -> (r: bool)
        ensures
            r == (self.view().dom().len() == 0),
    {
        self.len() == 0
    }

    /// The status of the session with id `key`, if it has one.
    pub fn get(&self, key: &str) -> (r: Option<&SessionStatus>)
        ensures
            match r {
                Some(v) => self.view().contains_key(key@) && *v == self.view()[key@],
                None => !self.view().contains_key(key@),
            },
    {
        proof {
            use_type_invariant(self);
        }
        for i in 0..self.entries.len()
            invariant
                self.keys_unique(),
                forall|j: int| 0 <= j < i ==> self.entries@[j].0@ != key@,
        {
            if crate::text::str_eq(self.entries[i].0.as_str(), key) {
                proof {
                    self.lemma_index(key@, i as int);
                }
                return Some(&self.entries[i].1);
            }
        }
        None
    }

    /// Sets the status of the session with id `key`.
    pub fn insert(&mut self, key: String, value: SessionStatus)
        ensures
            final(self).view() == old(self).view().insert(key@, value),
    {
        proof {
            use_type_invariant(&*self);
        }
        let ghost old_self = *self;
        let mut entries: Vec<(String, SessionStatus)> = Vec::new();
        std::mem::swap(&mut entries, &mut self.entries);
        let n = entries.len();
        let mut i: usize = 0;
        while i < n
            invariant
                n == entries@.len(),
                entries == old_self.entries,
                old_self.keys_unique(),
                i <= n,
                forall|j: int| 0 <= j < i ==> entries@[j].0@ != key@,
            ensures
                i <= n,
                entries == old_self.entries,
                forall|j: int| 0 <= j < i ==> entries@[j].0@ != key@,
                i < n ==> entries@[i as int].0@ == key@,
            decreases n - i,
        {
            if crate::text::str_eq(entries[i].0.as_str(), key.as_str()) {
                break;
            }
            i = i + 1;
        }
        let ghost k0 = key@;
        if i < n {
            entries.set(i, (key, value));
        } else {
            entries.push((key, value));
        }
        let ghost found = i as int;
        let ghost new_self = StatusMap { entries };
        proof {
            assert(new_self.keys_unique()) by {
                assert forall|a: int, b: int|
                    0 <= a < new_self.entries@.len() && 0 <= b < new_self.entries@.len() && a != b
                    implies #[trigger] new_self.entries@[a].0@ != #[trigger] new_self.entries@[b].0@ by {
                    if a != found && b != found {
                        assert(old_self.entries@[a].0@ != old_self.entries@[b].0@);
                    } else if found < n {
                        assert(old_self.entries@[found].0@ == k0);
                        assert(old_self.entries@[a].0@ != old_self.entries@[b].0@);
                    }
                }
            }
            let m = new_self.view();
            let o = old_self.view();
            assert(new_self.has_index(k0, found));
            new_self.lemma_index(k0, found);
            assert forall|k: Seq<char>| m.contains_key(k) <==> o.insert(k0, value).contains_key(k) by {
                if m.contains_key(k) && k != k0 {
                    let j = choose|j: int| new_self.has_index(k, j);
                    assert(old_self.has_index(k, j));
                }
                if o.contains_key(k) && k != k0 {
                    let j = choose|j: int| old_self.has_index(k, j);
                    assert(new_self.has_index(k, j));
                }
            }
            assert forall|k: Seq<char>| m.contains_key(k) implies m[k] == o.insert(k0, value)[k] by {
                if k != k0 {
                    let j = choose|j: int| new_self.has_index(k, j);
                    new_self.lemma_index(k, j);
                    assert(old_self.has_index(k, j));
                    old_self.lemma_index(k, j);
                }
            }
            assert(m =~= o.insert(k0, value));
        }
        self.entries = entries;
    }
}

impl View for StatusMap {
    type V = Map<Seq<char>, SessionStatus>;

    open spec fn view(&self) -> Map<Seq<char>, SessionStatus> {
        StatusMap::view(self)
    }
}

} // verus!
