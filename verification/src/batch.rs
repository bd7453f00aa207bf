//! Batches and the window that collects the keys for them: what is asked
//! for during one tick leaves as one fetch per kind, each key once.

use vstd::prelude::*;
use crate::cache::ResultCache;
use crate::key::{key_in, key_views, kind_of, Key, KeyKind, KeyView};

verus! {

/// The keys of one fetch: distinct, of one kind, and at least one.
#[derive(Debug)]
pub struct Batch {
    pub kind: KeyKind,
    pub keys: Vec<Key>,
}

/// What a batch is, as a value of mathematics.
pub struct BatchView {
    pub kind: KeyKind,
    pub keys: Seq<KeyView>,
}

impl View for Batch {
    type V = BatchView;

    open spec fn view(&self) -> BatchView {
        BatchView { kind: self.kind, keys: key_views(self.keys@) }
    }
}

/// The views of a sequence of batches, in order.
pub open spec fn batch_views(batches: Seq<Batch>) -> Seq<BatchView> {
    Seq::new(batches.len(), |i: int| batches[i]@)
}

/// The keys of `kind` that a window asks to fetch: those not resolved yet,
/// each once, in the order in which they were first asked for.
pub open spec fn wanted(window: Seq<KeyView>, kind: KeyKind, resolved: Set<KeyView>) -> Seq<
    KeyView,
>
    decreases window.len(),
{
    if window.len() == 0 {
        Seq::empty()
    } else {
        let earlier = wanted(window.drop_last(), kind, resolved);
        let k = window.last();
        if kind_of(k) == kind && !resolved.contains(k) && !earlier.contains(k) {
            earlier.push(k)
        } else {
            earlier
        }
    }
}

/// What a fetch may be asked: at least one key, keys of the batch's kind
/// only, and no key twice.
pub open spec fn fetchable(batch: BatchView) -> bool {
    &&& batch.keys.len() > 0
    &&& batch.keys.no_duplicates()
    &&& forall|j: int| 0 <= j < batch.keys.len() ==> kind_of(#[trigger] batch.keys[j]) == batch.kind
}

/// The batch for one kind, or none where no key of that kind is wanted.
pub open spec fn group(kind: KeyKind, keys: Seq<KeyView>) -> Seq<BatchView> {
    if keys.len() == 0 {
        Seq::empty()
    } else {
        seq![BatchView { kind, keys }]
    }
}

/// The batches that flushing a window gives: ids first, then slugs.
pub open spec fn planned(window: Seq<KeyView>, resolved: Set<KeyView>) -> Seq<BatchView> {
    group(KeyKind::Id, wanted(window, KeyKind::Id, resolved)) + group(
        KeyKind::Slug,
        wanted(window, KeyKind::Slug, resolved),
    )
}

/// The wanted keys of a window hold a key exactly if the window asks for it,
/// it is of the kind, and it has not resolved; and they hold it once.
pub proof fn lemma_wanted(window: Seq<KeyView>, kind: KeyKind, resolved: Set<KeyView>)
    ensures
        wanted(window, kind, resolved).no_duplicates(),
        forall|k: KeyView|
            wanted(window, kind, resolved).contains(k) <==> window.contains(k) && kind_of(k)
                == kind && !resolved.contains(k),
    decreases window.len(),
{
    let w = wanted(window, kind, resolved);
    if window.len() == 0 {
    } else {
        let shorter = window.drop_last();
        let earlier = wanted(shorter, kind, resolved);
        let last = window.last();
        lemma_wanted(shorter, kind, resolved);
        assert forall|k: KeyView| w.contains(k) <==> window.contains(k) && kind_of(k) == kind
            && !resolved.contains(k) by {
            if w.contains(k) {
                let i = choose|i: int| 0 <= i < w.len() && w[i] == k;
                if i < earlier.len() {
                    assert(earlier[i] == k);
                    assert(earlier.contains(k));
                    let j = choose|j: int| 0 <= j < shorter.len() && shorter[j] == k;
                    assert(window[j] == k);
                } else {
                    assert(k == last);
                    assert(window[window.len() - 1] == k);
                }
            }
            if window.contains(k) && kind_of(k) == kind && !resolved.contains(k) {
                let j = choose|j: int| 0 <= j < window.len() && window[j] == k;
                if j < shorter.len() {
                    assert(shorter[j] == k);
                    assert(shorter.contains(k));
                    assert(earlier.contains(k));
                    let i = choose|i: int| 0 <= i < earlier.len() && earlier[i] == k;
                    assert(w[i] == k);
                } else {
                    if earlier.contains(k) {
                        let i = choose|i: int| 0 <= i < earlier.len() && earlier[i] == k;
                        assert(w[i] == k);
                    } else {
                        assert(w[w.len() - 1] == k);
                    }
                }
            }
        }
    }
}

/// One fetch per distinct key: a flush gives at most one batch per kind,
/// every batch holds at least one key, only keys of its kind and none twice,
/// and a key is in some batch exactly if the window asks for it and it has
/// not resolved.
pub proof fn lemma_one_fetch_per_key(window: Seq<KeyView>, resolved: Set<KeyView>)
    ensures
        planned(window, resolved).len() <= 2,
        forall|a: int, b: int|
            0 <= a < b < planned(window, resolved).len() ==> (#[trigger] planned(
                window,
                resolved,
            )[a]).kind != (#[trigger] planned(window, resolved)[b]).kind,
        forall|b: int|
            0 <= b < planned(window, resolved).len() ==> {
                let batch = #[trigger] planned(window, resolved)[b];
                &&& fetchable(batch)
                &&& batch.keys == wanted(window, batch.kind, resolved)
            },
        forall|k: KeyView|
            (window.contains(k) && !resolved.contains(k)) <==> (exists|b: int|
                0 <= b < planned(window, resolved).len() && (#[trigger] planned(
                    window,
                    resolved,
                )[b]).keys.contains(k)),
{
    let ids = wanted(window, KeyKind::Id, resolved);
    let slugs = wanted(window, KeyKind::Slug, resolved);
    let p = planned(window, resolved);
    lemma_wanted(window, KeyKind::Id, resolved);
    lemma_wanted(window, KeyKind::Slug, resolved);
    assert forall|b: int| 0 <= b < p.len() implies {
        let batch = #[trigger] p[b];
        &&& fetchable(batch)
        &&& batch.keys == wanted(window, batch.kind, resolved)
    } by {
        let batch = p[b];
        assert forall|j: int| 0 <= j < batch.keys.len() implies kind_of(#[trigger] batch.keys[j])
            == batch.kind by {
            assert(batch.keys.contains(batch.keys[j]));
        }
    }
    assert forall|k: KeyView|
        (window.contains(k) && !resolved.contains(k)) <==> (exists|b: int|
            0 <= b < p.len() && (#[trigger] p[b]).keys.contains(k)) by {
        if window.contains(k) && !resolved.contains(k) {
            if kind_of(k) == KeyKind::Id {
                assert(ids.contains(k));
                assert(p[0].keys.contains(k));
            } else {
                assert(slugs.contains(k));
                assert(p[p.len() - 1].keys.contains(k));
            }
        }
    }
}

/// A key that has resolved is never fetched again: no flush, whatever the
/// window holds, puts it into a batch.
pub proof fn lemma_resolved_not_fetched(window: Seq<KeyView>, resolved: Set<KeyView>, k: KeyView)
    requires
        resolved.contains(k),
    ensures
        forall|b: int|
            0 <= b < planned(window, resolved).len() ==> !(#[trigger] planned(
                window,
                resolved,
            )[b]).keys.contains(k),
{
    lemma_one_fetch_per_key(window, resolved);
}

/// The keys asked for during one tick, in the order of asking. Closing the
/// window hands them out as batches and opens the next window empty.
pub struct BatchWindow {
    keys: Vec<Key>,
}

impl View for BatchWindow {
    type V = Seq<KeyView>;

    closed spec fn view(&self) -> Seq<KeyView> {
        key_views(self.keys@)
    }
}

impl BatchWindow {
    /// A window that holds no key.
    pub fn new() -> (w: Self)
        ensures
            w@ == Seq::<KeyView>::empty(),
    {
        let w = BatchWindow { keys: Vec::new() };
        assert(w@ =~= Seq::<KeyView>::empty());
        w
    }

    /// Registers one more request for `key`.
    pub fn register(&mut self, key: Key)
        ensures
            final(self)@ == old(self)@.push(key@),
    {
        let ghost before = self.keys@;
        self.keys.push(key);
        assert(key_views(self.keys@) =~= key_views(before).push(key@));
    }

    /// Closes the window: the keys asked for that `cache` has not resolved
    /// leave as batches, one per kind and each key once, and the window is
    /// empty again.
    pub fn close<V>(&mut self, cache: &ResultCache<V>) -> (batches: Vec<Batch>)
        ensures
            final(self)@ == Seq::<KeyView>::empty(),
            batch_views(batches@) == planned(old(self)@, cache@.dom()),
            batches@.len() <= 2,
            forall|b: int| 0 <= b < batches@.len() ==> fetchable(#[trigger] batches@[b]@),
            forall|a: int, b: int|
                0 <= a < b < batches@.len() ==> (#[trigger] batches@[a]).kind != (
                #[trigger] batches@[b]).kind,
    {
        let ghost window = self@;
        let ghost resolved = cache@.dom();
        let mut ids: Vec<Key> = Vec::new();
        let mut slugs: Vec<Key> = Vec::new();
        let mut i: usize = 0;
        assert(key_views(ids@) =~= wanted(window.take(0), KeyKind::Id, resolved));
        assert(key_views(slugs@) =~= wanted(window.take(0), KeyKind::Slug, resolved));
        while i < self.keys.len()
            invariant
                0 <= i <= self.keys@.len(),
                *self == *old(self),
                window == key_views(self.keys@),
                resolved == cache@.dom(),
                key_views(ids@) == wanted(window.take(i as int), KeyKind::Id, resolved),
                key_views(slugs@) == wanted(window.take(i as int), KeyKind::Slug, resolved),
            decreases self.keys@.len() - i,
        {
            let key = self.keys[i].duplicate();
            proof {
                assert(window.take(i + 1).drop_last() =~= window.take(i as int));
                assert(window.take(i + 1).last() == key@);
            }
            if !cache.contains(&key) {
                match key.kind() {
                    KeyKind::Id => {
                        if !key_in(&ids, &key) {
                            let ghost before = ids@;
                            ids.push(key);
                            assert(key_views(ids@) =~= key_views(before).push(key@));
                        }
                    },
                    KeyKind::Slug => {
                        if !key_in(&slugs, &key) {
                            let ghost before = slugs@;
                            slugs.push(key);
                            assert(key_views(slugs@) =~= key_views(before).push(key@));
                        }
                    },
                }
            }
            i = i + 1;
        }
        assert(window.take(self.keys@.len() as int) =~= window);
        self.keys.clear();
        assert(self@ =~= Seq::<KeyView>::empty());
        let mut batches: Vec<Batch> = Vec::new();
        if ids.len() > 0 {
            batches.push(Batch { kind: KeyKind::Id, keys: ids });
        }
        if slugs.len() > 0 {
            batches.push(Batch { kind: KeyKind::Slug, keys: slugs });
        }
        assert(batch_views(batches@) =~= planned(window, resolved));
        proof {
            lemma_one_fetch_per_key(window, resolved);
            assert forall|b: int| 0 <= b < batches@.len() implies fetchable(
                #[trigger] batches@[b]@,
            ) by {
                assert(batches@[b]@ == planned(window, resolved)[b]);
            }
            assert forall|a: int, b: int| 0 <= a < b < batches@.len() implies (
            #[trigger] batches@[a]).kind != (#[trigger] batches@[b]).kind by {
                assert(batches@[a]@ == planned(window, resolved)[a]);
                assert(batches@[b]@ == planned(window, resolved)[b]);
            }
        }
        batches
    }
}

} // verus!
