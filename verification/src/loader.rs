//! The loader of one request: it collects the keys asked for during a tick,
//! hands them out once per distinct key as batches to fetch, and keeps what
//! each key resolved to for the rest of the request.
//!
//! The loader never fetches. Its caller performs each batch's fetch and hands
//! the outcome back to `complete`.

use vstd::prelude::*;
use crate::batch::{
    batch_views, fetchable, lemma_one_fetch_per_key, planned, Batch, BatchView, BatchWindow,
};
use crate::cache::{LoadError, Resolution, ResultCache};
use crate::key::{key_in, key_views, Key, KeyView};

verus! {

/// The keys among `keys` that have not resolved, in order.
pub open spec fn unresolved(keys: Seq<KeyView>, resolved: Set<KeyView>) -> Seq<KeyView>
    decreases keys.len(),
{
    if keys.len() == 0 {
        Seq::empty()
    } else {
        let earlier = unresolved(keys.drop_last(), resolved);
        if resolved.contains(keys.last()) {
            earlier
        } else {
            earlier.push(keys.last())
        }
    }
}

/// The entity that a fetch returned for `k`, if it returned one. Should the
/// fetch name a key more than once, its last entry counts.
pub open spec fn fetched_value<V>(found: Seq<(Key, V)>, k: KeyView) -> Option<V>
    decreases found.len(),
{
    if found.len() == 0 {
        None
    } else if found.last().0@ == k {
        Some(found.last().1)
    } else {
        fetched_value(found.drop_last(), k)
    }
}

/// What a key of a batch resolves to, given the outcome of the batch's fetch.
pub open spec fn resolution<V>(outcome: Result<Vec<(Key, V)>, String>, k: KeyView) -> Resolution<
    V,
> {
    match outcome {
        Err(cause) => Err(LoadError::FetchFailed(cause)),
        Ok(found) => match fetched_value(found@, k) {
            Some(v) => Ok(v),
            None => Err(LoadError::NotFound),
        },
    }
}

/// What a key that no fetch resolved is given: the failure's cause, or
/// `NotFound` after a fetch that succeeded.
pub open spec fn fallback<V>(cause: Option<String>) -> Resolution<V> {
    match cause {
        Some(c) => Err(LoadError::FetchFailed(c)),
        None => Err(LoadError::NotFound),
    }
}

/// The cache after the keys `keys` were given `filler` unless resolved.
pub open spec fn filled<V>(
    before: Map<KeyView, Resolution<V>>,
    keys: Seq<KeyView>,
    filler: Resolution<V>,
) -> Map<KeyView, Resolution<V>> {
    Map::new(
        |k: KeyView| before.contains_key(k) || keys.contains(k),
        |k: KeyView|
            if before.contains_key(k) {
                before[k]
            } else {
                filler
            },
    )
}

/// The cache after a batch completed: what was resolved stays as it was, and
/// each other key of the batch gets its resolution.
pub open spec fn completed<V>(
    before: Map<KeyView, Resolution<V>>,
    keys: Seq<KeyView>,
    outcome: Result<Vec<(Key, V)>, String>,
) -> Map<KeyView, Resolution<V>> {
    Map::new(
        |k: KeyView| before.contains_key(k) || keys.contains(k),
        |k: KeyView|
            if before.contains_key(k) {
                before[k]
            } else {
                resolution(outcome, k)
            },
    )
}

/// What asking a cache for `k` gives.
pub open spec fn answer<V>(cache: Map<KeyView, Resolution<V>>, k: KeyView) -> Option<
    Resolution<V>,
> {
    if cache.contains_key(k) {
        Some(cache[k])
    } else {
        None
    }
}

/// A fetch has an entity for a key exactly if one of its entries names it.
pub proof fn lemma_fetched_value<V>(found: Seq<(Key, V)>, k: KeyView)
    ensures
        fetched_value(found, k) is Some <==> exists|i: int|
            0 <= i < found.len() && (#[trigger] found[i]).0@ == k,
    decreases found.len(),
{
    if found.len() > 0 {
        lemma_fetched_value(found.drop_last(), k);
        if found.last().0@ != k {
            if exists|i: int| 0 <= i < found.len() && (#[trigger] found[i]).0@ == k {
                let i = choose|i: int| 0 <= i < found.len() && (#[trigger] found[i]).0@ == k;
                assert(found.drop_last()[i].0@ == k);
            }
            if fetched_value(found, k) is Some {
                let i = choose|i: int|
                    0 <= i < found.drop_last().len() && (#[trigger] found.drop_last()[i]).0@ == k;
                assert(found[i].0@ == k);
            }
        } else {
            assert(found[found.len() - 1].0@ == k);
        }
    }
}

/// A key that a successful fetch leaves out resolves to `NotFound`, and it
/// alone: every key of the batch that the fetch names resolves to its entity.
pub proof fn lemma_absent_key_alone_not_found<V>(
    before: Map<KeyView, Resolution<V>>,
    keys: Seq<KeyView>,
    found: Vec<(Key, V)>,
    k: KeyView,
)
    requires
        keys.contains(k),
        !before.contains_key(k),
    ensures
        completed(before, keys, Ok(found)).contains_key(k),
        completed(before, keys, Ok(found))[k] == Err::<V, LoadError>(LoadError::NotFound) <==> !(
        exists|i: int| 0 <= i < found@.len() && (#[trigger] found@[i]).0@ == k),
        (exists|i: int| 0 <= i < found@.len() && (#[trigger] found@[i]).0@ == k) ==> completed(
            before,
            keys,
            Ok(found),
        )[k] == Ok::<V, LoadError>(fetched_value(found@, k)->0),
{
    lemma_fetched_value(found@, k);
}

/// A fetch that fails gives every key of the batch that had not resolved the
/// failure with its cause.
pub proof fn lemma_failure_reaches_batch<V>(
    before: Map<KeyView, Resolution<V>>,
    keys: Seq<KeyView>,
    cause: String,
    k: KeyView,
)
    requires
        keys.contains(k),
        !before.contains_key(k),
    ensures
        completed(before, keys, Err::<Vec<(Key, V)>, String>(cause))[k] == Err::<V, LoadError>(
            LoadError::FetchFailed(cause),
        ),
{
}

/// What has resolved stays: completing a batch, whatever its keys and
/// outcome, changes the answer for no key that had one.
pub proof fn lemma_resolved_stays<V>(
    before: Map<KeyView, Resolution<V>>,
    keys: Seq<KeyView>,
    outcome: Result<Vec<(Key, V)>, String>,
    k: KeyView,
)
    requires
        before.contains_key(k),
    ensures
        answer(completed(before, keys, outcome), k) == answer(before, k),
{
}

/// Every key asked for resolves: once the batches of a flush have completed,
/// in whatever order and with whatever outcomes, the cache answers for each
/// key of the window.
pub proof fn lemma_every_asked_key_resolves<V>(
    window: Seq<KeyView>,
    before: Map<KeyView, Resolution<V>>,
    outcomes: Seq<Result<Vec<(Key, V)>, String>>,
    k: KeyView,
)
    requires
        window.contains(k),
        outcomes.len() == planned(window, before.dom()).len(),
    ensures
        after_all(before, planned(window, before.dom()), outcomes).contains_key(k),
{
    let batches = planned(window, before.dom());
    lemma_one_fetch_per_key(window, before.dom());
    if before.contains_key(k) {
        lemma_after_all_keeps(before, batches, outcomes, k);
    } else {
        let b = choose|b: int| 0 <= b < batches.len() && (#[trigger] batches[b]).keys.contains(k);
        lemma_after_all_covers(before, batches, outcomes, b, k);
    }
}

/// The cache after the batches `batches` completed one after the other, the
/// `i`-th with the `i`-th of `outcomes`.
pub open spec fn after_all<V>(
    before: Map<KeyView, Resolution<V>>,
    batches: Seq<BatchView>,
    outcomes: Seq<Result<Vec<(Key, V)>, String>>,
) -> Map<KeyView, Resolution<V>>
    recommends
        batches.len() == outcomes.len(),
    decreases batches.len(),
{
    if batches.len() == 0 || outcomes.len() == 0 {
        before
    } else {
        completed(
            after_all(before, batches.drop_last(), outcomes.drop_last()),
            batches.last().keys,
            outcomes.last(),
        )
    }
}

/// Completing batches takes no answer away and changes none.
pub proof fn lemma_after_all_keeps<V>(
    before: Map<KeyView, Resolution<V>>,
    batches: Seq<BatchView>,
    outcomes: Seq<Result<Vec<(Key, V)>, String>>,
    k: KeyView,
)
    requires
        before.contains_key(k),
    ensures
        answer(after_all(before, batches, outcomes), k) == answer(before, k),
    decreases batches.len(),
{
    if batches.len() == 0 || outcomes.len() == 0 {
    } else {
        lemma_after_all_keeps(before, batches.drop_last(), outcomes.drop_last(), k);
    }
}

/// Once a batch has completed, each of its keys has an answer.
pub proof fn lemma_after_all_covers<V>(
    before: Map<KeyView, Resolution<V>>,
    batches: Seq<BatchView>,
    outcomes: Seq<Result<Vec<(Key, V)>, String>>,
    b: int,
    k: KeyView,
)
    requires
        batches.len() == outcomes.len(),
        0 <= b < batches.len(),
        batches[b].keys.contains(k),
    ensures
        after_all(before, batches, outcomes).contains_key(k),
    decreases batches.len(),
{
    if b == batches.len() - 1 {
    } else {
        lemma_after_all_covers(before, batches.drop_last(), outcomes.drop_last(), b, k);
        let earlier = after_all(before, batches.drop_last(), outcomes.drop_last());
        lemma_resolved_stays(earlier, batches.last().keys, outcomes.last(), k);
    }
}

/// The loader of one request: the window that is open and the cache of what
/// has resolved.
pub struct Loader<V> {
    cache: ResultCache<V>,
    window: BatchWindow,
}

/// Gives every key of `keys` that has not resolved the resolution that `cause`
/// stands for.
fn settle<V>(cache: &mut ResultCache<V>, keys: Vec<Key>, cause: Option<&String>)
    ensures
        final(cache)@ == filled(
            old(cache)@,
            key_views(keys@),
            fallback::<V>(
                match cause {
                    Some(c) => Some(*c),
                    None => None,
                },
            ),
        ),
{
    let ghost all = key_views(keys@);
    let ghost before = cache@;
    let ghost filler = fallback::<V>(
        match cause {
            Some(c) => Some(*c),
            None => None,
        },
    );
    let mut keys = keys;
    while keys.len() > 0
        invariant
            keys@.len() <= all.len(),
            key_views(keys@) == all.take(keys@.len() as int),
            filler == fallback::<V>(
                match cause {
                    Some(c) => Some(*c),
                    None => None,
                },
            ),
            forall|k: KeyView| #[trigger]
                cache@.contains_key(k) <==> before.contains_key(k) || (exists|i: int|
                    keys@.len() <= i < all.len() && all[i] == k),
            forall|k: KeyView| #[trigger]
                cache@.contains_key(k) ==> cache@[k] == if before.contains_key(k) {
                    before[k]
                } else {
                    filler
                },
        decreases keys@.len(),
    {
        let ghost shorter = keys@.len() - 1;
        let key = keys.pop();
        match key {
            Some(key) => {
                proof {
                    assert(key_views(keys@) =~= all.take(shorter));
                    assert(all[shorter] == all.take(shorter + 1)[shorter]);
                    assert(all[shorter] == key@);
                }
                if !cache.contains(&key) {
                    let entry: Resolution<V> = match cause {
                        Some(c) => Err(LoadError::FetchFailed(c.clone())),
                        None => Err(LoadError::NotFound),
                    };
                    cache.insert_new(key, entry);
                }
            },
            None => {},
        }
    }
    proof {
        let target = filled(before, all, filler);
        assert forall|k: KeyView| cache@.contains_key(k) <==> target.contains_key(k) by {
            if all.contains(k) {
                let i = choose|i: int| 0 <= i < all.len() && all[i] == k;
                assert(keys@.len() <= i < all.len() && all[i] == k);
            }
        }
        assert(cache@ =~= target);
    }
}

impl<V> Loader<V> {
    /// What has resolved so far.
    pub closed spec fn cached(&self) -> Map<KeyView, Resolution<V>> {
        self.cache@
    }

    /// The keys asked for since the last flush, in the order of asking.
    pub closed spec fn pending(&self) -> Seq<KeyView> {
        self.window@
    }

    /// A loader for a new request: nothing resolved, nothing asked for.
    pub fn new() -> (l: Self)
        ensures
            l.cached() == Map::<KeyView, Resolution<V>>::empty(),
            l.pending() == Seq::<KeyView>::empty(),
    {
        Loader { cache: ResultCache::new(), window: BatchWindow::new() }
    }

    /// Asks for `key`. A key that has resolved is answered at once, from the
    /// cache and with what it resolved to, and nothing is registered. Any
    /// other key joins the window and waits for the next flush.
    pub fn load(&mut self, key: Key) -> (r: Option<&Resolution<V>>)
        ensures
            final(self).cached() == old(self).cached(),
            match r {
                Some(e) => answer(old(self).cached(), key@) == Some(*e) && final(self).pending()
                    == old(self).pending(),
                None => answer(old(self).cached(), key@) is None && final(self).pending() == old(
                    self,
                ).pending().push(key@),
            },
    {
        match self.cache.get(&key) {
            Some(e) => Some(e),
            None => {
                self.window.register(key);
                None
            },
        }
    }

    /// Asks for every key of `keys`, in order.
    pub fn load_many(&mut self, keys: &Vec<Key>)
        ensures
            final(self).cached() == old(self).cached(),
            final(self).pending() == old(self).pending() + unresolved(
                key_views(keys@),
                old(self).cached().dom(),
            ),
    {
        let ghost all = key_views(keys@);
        let ghost resolved = self.cached().dom();
        let ghost start = self.pending();
        let mut i: usize = 0;
        assert(start + unresolved(all.take(0), resolved) =~= start);
        while i < keys.len()
            invariant
                0 <= i <= keys@.len(),
                all == key_views(keys@),
                self.cached() == old(self).cached(),
                resolved == old(self).cached().dom(),
                self.pending() == start + unresolved(all.take(i as int), resolved),
            decreases keys@.len() - i,
        {
            let key = keys[i].duplicate();
            proof {
                assert(all.take(i + 1).drop_last() =~= all.take(i as int));
                assert(all.take(i + 1).last() == key@);
                let sofar = unresolved(all.take(i as int), resolved);
                assert(start + sofar.push(key@) =~= (start + sofar).push(key@));
            }
            self.load(key);
            i = i + 1;
        }
        assert(all.take(keys@.len() as int) =~= all);
    }

    /// What `key` resolved to, or nothing while it has not resolved.
    pub fn get(&self, key: &Key) -> (r: Option<&Resolution<V>>)
        ensures
            match r {
                Some(e) => answer(self.cached(), key@) == Some(*e),
                None => answer(self.cached(), key@) is None,
            },
    {
        self.cache.get(key)
    }

    /// What each key of `keys` resolved to, in the order of `keys`.
    pub fn get_many<'a>(&'a self, keys: &Vec<Key>) -> (r: Vec<Option<&'a Resolution<V>>>)
        ensures
            r@.len() == keys@.len(),
            forall|i: int|
                0 <= i < keys@.len() ==> match #[trigger] r@[i] {
                    Some(e) => answer(self.cached(), keys@[i]@) == Some(*e),
                    None => answer(self.cached(), keys@[i]@) is None,
                },
    {
        let mut r: Vec<Option<&'a Resolution<V>>> = Vec::new();
        let mut i: usize = 0;
        while i < keys.len()
            invariant
                0 <= i <= keys@.len(),
                r@.len() == i,
                forall|j: int|
                    0 <= j < i ==> match #[trigger] r@[j] {
                        Some(e) => answer(self.cached(), keys@[j]@) == Some(*e),
                        None => answer(self.cached(), keys@[j]@) is None,
                    },
            decreases keys@.len() - i,
        {
            let e = self.get(&keys[i]);
            r.push(e);
            i = i + 1;
        }
        r
    }

    /// Closes the window: the keys asked for and not resolved leave as
    /// batches, one per kind and each key once, and a new window opens empty.
    pub fn flush(&mut self) -> (batches: Vec<Batch>)
        ensures
            final(self).cached() == old(self).cached(),
            final(self).pending() == Seq::<KeyView>::empty(),
            batch_views(batches@) == planned(old(self).pending(), old(self).cached().dom()),
            batches@.len() <= 2,
            forall|b: int| 0 <= b < batches@.len() ==> fetchable(#[trigger] batches@[b]@),
            forall|a: int, b: int|
                0 <= a < b < batches@.len() ==> (#[trigger] batches@[a]).kind != (
                #[trigger] batches@[b]).kind,
    {
        self.window.close(&self.cache)
    }

    /// Abandons the open window, as when the request is cancelled: what was
    /// asked for and not yet flushed is never fetched, and what has resolved
    /// stays.
    pub fn cancel(&mut self)
        ensures
            final(self).cached() == old(self).cached(),
            final(self).pending() == Seq::<KeyView>::empty(),
    {
        self.window = BatchWindow::new();
    }

    /// Takes in the outcome of one batch's fetch. Every key of the batch that
    /// had not resolved resolves now: to its entity, to `NotFound` where a
    /// successful fetch left it out, to the failure where the fetch failed.
    /// What had resolved before stays as it was.
    pub fn complete(&mut self, batch: Batch, outcome: Result<Vec<(Key, V)>, String>)
        ensures
            final(self).pending() == old(self).pending(),
            final(self).cached() == completed(old(self).cached(), batch@.keys, outcome),
    {
        let ghost before = self.cache@;
        let ghost wanted_keys = key_views(batch.keys@);
        match outcome {
            Ok(found) => {
                let ghost full = found@;
                let mut found = found;
                while found.len() > 0
                    invariant
                        self.window == old(self).window,
                        wanted_keys == key_views(batch.keys@),
                        forall|k: KeyView| #[trigger]
                            self.cache@.contains_key(k) ==> before.contains_key(k)
                                || wanted_keys.contains(k),
                        forall|k: KeyView| #[trigger]
                            before.contains_key(k) ==> self.cache@.contains_key(k)
                                && self.cache@[k] == before[k],
                        forall|k: KeyView|
                            !before.contains_key(k) ==> #[trigger] fetched_value(full, k) == (
                            if self.cache@.contains_key(k) {
                                match self.cache@[k] {
                                    Ok(v) => Some(v),
                                    Err(_) => None,
                                }
                            } else if wanted_keys.contains(k) {
                                fetched_value(found@, k)
                            } else {
                                fetched_value(full, k)
                            }),
                        forall|k: KeyView|
                            !before.contains_key(k) && #[trigger] self.cache@.contains_key(k)
                                ==> self.cache@[k] is Ok,
                    decreases found@.len(),
                {
                    let ghost longer = found@;
                    let entry = found.pop();
                    match entry {
                        Some((key, value)) => {
                            proof {
                                assert(longer.drop_last() =~= found@);
                                assert(longer.last() == (key, value));
                            }
                            if key_in(&batch.keys, &key) && !self.cache.contains(&key) {
                                self.cache.insert_new(key, Ok(value));
                            }
                        },
                        None => {},
                    }
                }
                let ghost middle = self.cache@;
                settle(&mut self.cache, batch.keys, None);
                proof {
                    let target = completed(before, wanted_keys, outcome);
                    assert forall|k: KeyView| #[trigger]
                        target.contains_key(k) implies self.cache@[k] == target[k] by {
                        if !before.contains_key(k) {
                            assert(fetched_value(full, k) == fetched_value(full, k));
                        }
                    }
                    assert(self.cache@ =~= target);
                }
            },
            Err(cause) => {
                settle(&mut self.cache, batch.keys, Some(&cause));
                assert(self.cache@ =~= completed(before, wanted_keys, outcome));
            },
        }
    }
}

} // verus!
