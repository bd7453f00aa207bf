//! The result cache of one request: each key resolved so far, with what it
//! resolved to. Nothing is ever evicted or overwritten.

use vstd::prelude::*;
use crate::key::{Key, KeyView};

verus! {

/// Why a key has no value.
#[derive(Clone, Debug, PartialEq, Eq)]
pub enum LoadError {
    /// The fetch succeeded and held nothing for this key.
    NotFound,
    /// The fetch for this key's batch failed; the cause is kept.
    FetchFailed(String),
}

/// What a key resolved to.
pub type Resolution<V> = Result<V, LoadError>;

/// The resolved keys of one request.
pub struct ResultCache<V> {
    entries: Vec<(Key, Resolution<V>)>,
}

impl<V> View for ResultCache<V> {
    type V = Map<KeyView, Resolution<V>>;

    /// The cache as a map: a key resolves to what its first entry holds.
    closed spec fn view(&self) -> Map<KeyView, Resolution<V>> {
        Map::new(|k: KeyView| self.holds(k), |k: KeyView| self.entries@[self.slot(k)].1)
    }
}

impl<V> ResultCache<V> {
    spec fn holds(&self, k: KeyView) -> bool {
        exists|i: int| 0 <= i < self.entries@.len() && (#[trigger] self.entries@[i]).0@ == k
    }

    spec fn first_at(&self, i: int, k: KeyView) -> bool {
        &&& 0 <= i < self.entries@.len()
        &&& self.entries@[i].0@ == k
        &&& forall|j: int| 0 <= j < i ==> (#[trigger] self.entries@[j]).0@ != k
    }

    spec fn slot(&self, k: KeyView) -> int {
        choose|i: int| self.first_at(i, k)
    }

    proof fn lemma_entry(&self, i: int, k: KeyView)
        requires
            self.first_at(i, k),
        ensures
            self@.contains_key(k),
            self@[k] == self.entries@[i].1,
    {
        assert(self.entries@[i].0@ == k);
        assert(self.holds(k));
        let j = self.slot(k);
        assert(self.first_at(j, k));
        if j < i {
            assert(self.entries@[j].0@ != k);
        } else if i < j {
            assert(self.entries@[i].0@ != k);
        }
    }

    proof fn lemma_first(&self, w: int, k: KeyView)
        requires
            0 <= w < self.entries@.len(),
            self.entries@[w].0@ == k,
        ensures
            exists|i: int| 0 <= i <= w && self.first_at(i, k),
        decreases w,
    {
        if exists|j: int| 0 <= j < w && (#[trigger] self.entries@[j]).0@ == k {
            let j = choose|j: int| 0 <= j < w && (#[trigger] self.entries@[j]).0@ == k;
            self.lemma_first(j, k);
        } else {
            assert(self.first_at(w, k));
        }
    }

    /// A cache with nothing resolved.
    pub fn new() -> (c: Self)
        ensures
            c@ == Map::<KeyView, Resolution<V>>::empty(),
    {
        let c = ResultCache { entries: Vec::new() };
        assert(c@ =~= Map::<KeyView, Resolution<V>>::empty());
        c
    }

    /// What `key` resolved to, if it has resolved.
    pub fn get(&self, key: &Key) -> (r: Option<&Resolution<V>>)
        ensures
            match r {
                Some(e) => self@.contains_key(key@) && *e == self@[key@],
                None => !self@.contains_key(key@),
            },
    {
        let mut i: usize = 0;
        while i < self.entries.len()
            invariant
                0 <= i <= self.entries@.len(),
                forall|j: int| 0 <= j < i ==> (#[trigger] self.entries@[j]).0@ != key@,
            decreases self.entries@.len() - i,
        {
            if self.entries[i].0.same(key) {
                proof {
                    self.lemma_entry(i as int, key@);
                }
                return Some(&self.entries[i].1);
            }
            i = i + 1;
        }
        None
    }

    /// Whether `key` has resolved.
    pub fn contains(&self, key: &Key) -> (b: bool)
        ensures
            b == self@.contains_key(key@),
    {
        self.get(key).is_some()
    }

    /// Records what `key` resolved to, unless it has resolved already: the
    /// first resolution of a key is the one that stays. The result says
    /// whether the entry was recorded.
    pub fn remember(&mut self, key: Key, entry: Resolution<V>) -> (recorded: bool)
        ensures
            recorded == !old(self)@.contains_key(key@),
            final(self)@ == if recorded {
                old(self)@.insert(key@, entry)
            } else {
                old(self)@
            },
    {
        if self.contains(&key) {
            false
        } else {
            self.insert_new(key, entry);
            true
        }
    }

    /// Records what a key that had not resolved yet resolved to.
    pub(crate) fn insert_new(&mut self, key: Key, entry: Resolution<V>)
        requires
            !old(self)@.contains_key(key@),
        ensures
            final(self)@ == old(self)@.insert(key@, entry),
    {
        let ghost before = *self;
        self.entries.push((key, entry));
        proof {
            let after = *self;
            let last = after.entries@.len() - 1;
            assert(after.entries@[last].0@ == key@);
            assert(after.entries@[last].1 == entry);
            assert(after.first_at(last, key@)) by {
                assert forall|j: int| 0 <= j < last implies (#[trigger] after.entries@[j]).0@
                    != key@ by {
                    assert(before.entries@[j] == after.entries@[j]);
                    if before.entries@[j].0@ == key@ {
                        assert(before.holds(key@));
                    }
                }
            }
            after.lemma_entry(last, key@);
            assert forall|k: KeyView| #[trigger] after@.contains_key(k) implies k == key@
                || before@.contains_key(k) by {
                let i = choose|i: int|
                    0 <= i < after.entries@.len() && (#[trigger] after.entries@[i]).0@ == k;
                if i < last {
                    assert(before.entries@[i].0@ == k);
                }
            }
            assert forall|k: KeyView| #[trigger] before@.contains_key(k) implies after@.contains_key(
                k,
            ) && after@[k] == before@[k] by {
                let w = choose|i: int|
                    0 <= i < before.entries@.len() && (#[trigger] before.entries@[i]).0@ == k;
                before.lemma_first(w, k);
                let i = choose|i: int| 0 <= i <= w && before.first_at(i, k);
                before.lemma_entry(i, k);
                assert(after.entries@[i] == before.entries@[i]);
                assert(after.first_at(i, k)) by {
                    assert forall|j: int| 0 <= j < i implies (#[trigger] after.entries@[j]).0@
                        != k by {
                        assert(after.entries@[j] == before.entries@[j]);
                    }
                }
                after.lemma_entry(i, k);
            }
            assert(after@ =~= before@.insert(key@, entry));
        }
    }
}

} // verus!
