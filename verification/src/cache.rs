//! The dedup cache: a bounded map from canonical URL to outcome that forgets
//! the least recently used entry first.

use lru_cache::LruCache;
use std::hash::BuildHasher;
use std::hash::Hash;
use vstd::prelude::*;

verus! {

/// The `lru_cache` crate's cache, taken as it is: nothing inside it is seen
/// here.
#[verifier::external_type_specification]
#[verifier::external_body]
#[verifier::reject_recursive_types(K)]
#[verifier::reject_recursive_types(V)]
#[verifier::reject_recursive_types(S)]
pub struct ExLruCache<K: Eq + Hash, V, S: BuildHasher>(LruCache<K, V, S>);

/// What an `LruCache` holds: its entries from the least recently used to the
/// most recently used. A key occurs in it once at most.
pub uninterp spec fn held(cache: LruCache<String, bool>) -> Seq<(Seq<char>, bool)>;

/// The number of entries that an `LruCache` was made to hold at most.
pub uninterp spec fn limit(cache: LruCache<String, bool>) -> nat;

/// Whether some entry has this key.
pub open spec fn has_key(entries: Seq<(Seq<char>, bool)>, key: Seq<char>) -> bool {
    exists|i: int| 0 <= i < entries.len() && (#[trigger] entries[i]).0 == key
}

/// The place of an entry with this key, where there is one.
pub open spec fn key_index(entries: Seq<(Seq<char>, bool)>, key: Seq<char>) -> int {
    choose|i: int| 0 <= i < entries.len() && (#[trigger] entries[i]).0 == key
}

/// The entries with the one for this key taken out.
pub open spec fn without(entries: Seq<(Seq<char>, bool)>, key: Seq<char>) -> Seq<
    (Seq<char>, bool),
> {
    if has_key(entries, key) {
        entries.remove(key_index(entries, key))
    } else {
        entries
    }
}

/// The entries after a look-up of `key`: a hit becomes the most recently
/// used entry, a miss changes nothing.
pub open spec fn touched(entries: Seq<(Seq<char>, bool)>, key: Seq<char>) -> Seq<
    (Seq<char>, bool),
> {
    if has_key(entries, key) {
        without(entries, key).push(entries[key_index(entries, key)])
    } else {
        entries
    }
}

/// The entries after `key` was stored with `value` under the limit `cap`:
/// the pair becomes the most recently used entry, and where that makes one
/// entry too many the least recently used one leaves.
pub open spec fn stored(
    entries: Seq<(Seq<char>, bool)>,
    cap: nat,
    key: Seq<char>,
    value: bool,
) -> Seq<(Seq<char>, bool)> {
    let grown = without(entries, key).push((key, value));
    if grown.len() > cap {
        grown.drop_first()
    } else {
        grown
    }
}

/// The entries after each of `items` was stored in turn.
pub open spec fn stored_all(
    entries: Seq<(Seq<char>, bool)>,
    cap: nat,
    items: Seq<(Seq<char>, bool)>,
) -> Seq<(Seq<char>, bool)>
    decreases items.len(),
{
    if items.len() == 0 {
        entries
    } else {
        stored(
            stored_all(entries, cap, items.drop_last()),
            cap,
            items.last().0,
            items.last().1,
        )
    }
}

/// No key occurs twice.
pub open spec fn distinct_keys(entries: Seq<(Seq<char>, bool)>) -> bool {
    forall|i: int, j: int|
        0 <= i < j < entries.len() ==> (#[trigger] entries[i]).0 != (#[trigger] entries[j]).0
}

/// `LruCache::new`: an empty cache with the given limit.
#[verifier::external_body]
fn lru_new(capacity: usize) -> (cache: LruCache<String, bool>)
    ensures
        held(cache) == Seq::<(Seq<char>, bool)>::empty(),
        limit(cache) == capacity,
{
    LruCache::new(capacity)
}

/// `LruCache::len`: the number of entries.
#[verifier::external_body]
fn lru_len(cache: &LruCache<String, bool>) -> (count: usize)
    ensures
        count == held(*cache).len(),
{
    cache.len()
}

/// `LruCache::get_mut`, asked only whether it found the key: a hit moves the
/// entry to the most recently used end, a miss leaves the cache as it was.
#[verifier::external_body]
fn lru_touch(cache: &mut LruCache<String, bool>, key: &str) -> (found: bool)
    ensures
        found == has_key(held(*old(cache)), key@),
        held(*final(cache)) == touched(held(*old(cache)), key@),
        limit(*final(cache)) == limit(*old(cache)),
{
    cache.get_mut(key).is_some()
}

/// `LruCache::insert`: the pair becomes the most recently used entry, in
/// place of an entry with the same key; if the cache then holds more than
/// its limit, the least recently used entry is removed.
#[verifier::external_body]
fn lru_insert(cache: &mut LruCache<String, bool>, key: String, value: bool)
    ensures
        held(*final(cache)) == stored(held(*old(cache)), limit(*old(cache)), key@, value),
        limit(*final(cache)) == limit(*old(cache)),
{
    cache.insert(key, value);
}

/// Storing keeps the keys distinct and the length within the limit, and
/// where the limit is not zero the key that was stored is present.
pub proof fn lemma_stored_bounded(
    entries: Seq<(Seq<char>, bool)>,
    cap: nat,
    key: Seq<char>,
    value: bool,
)
    requires
        entries.len() <= cap,
    ensures
        stored(entries, cap, key, value).len() <= cap,
        distinct_keys(entries) ==> distinct_keys(stored(entries, cap, key, value)),
        cap >= 1 ==> has_key(stored(entries, cap, key, value), key),
        cap >= 1 ==> stored(entries, cap, key, value).last() == (key, value),
{
    let after = stored(entries, cap, key, value);
    if distinct_keys(entries) {
        lemma_without_forgets(entries, key);
    }
    if cap >= 1 {
        assert(after[after.len() - 1].0 == key);
    }
}

/// With distinct keys, taking a key out leaves distinct keys, none of them
/// the key taken out.
pub proof fn lemma_without_forgets(entries: Seq<(Seq<char>, bool)>, key: Seq<char>)
    requires
        distinct_keys(entries),
    ensures
        distinct_keys(without(entries, key)),
        !has_key(without(entries, key), key),
        without(entries, key).len() <= entries.len(),
{
    let rest = without(entries, key);
    if has_key(entries, key) {
        let at = key_index(entries, key);
        // each entry that is left stood at its place or one place further on
        assert forall|i: int| 0 <= i < rest.len() implies (#[trigger] rest[i]).0 != key by {
            assert(rest[i] == entries[if i < at { i } else { i + 1 }]);
        }
        assert forall|i: int, j: int| 0 <= i < j < rest.len() implies (#[trigger] rest[i]).0 != (
        #[trigger] rest[j]).0 by {
            assert(rest[i] == entries[if i < at { i } else { i + 1 }]);
            assert(rest[j] == entries[if j < at { j } else { j + 1 }]);
        }
    }
}

/// The dedup cache. A key that is present, with either outcome, was
/// attempted and is not to be processed again; an absent key was never
/// attempted, or was forgotten.
pub struct DedupCache {
    store: LruCache<String, bool>,
}

impl DedupCache {
    /// The entries, from the least recently used to the most recently used.
    pub closed spec fn entries(&self) -> Seq<(Seq<char>, bool)> {
        held(self.store)
    }

    /// The number of entries that the cache holds at most.
    pub closed spec fn capacity(&self) -> nat {
        limit(self.store)
    }

    /// The cache is within its capacity and holds no key twice.
    pub open spec fn wf(&self) -> bool {
        &&& self.entries().len() <= self.capacity()
        &&& distinct_keys(self.entries())
    }

    /// An empty cache for `capacity` entries.
    pub fn new(capacity: usize) -> (cache: Self)
        ensures
            cache.entries() == Seq::<(Seq<char>, bool)>::empty(),
            cache.capacity() == capacity,
            cache.wf(),
    {
        DedupCache { store: lru_new(capacity) }
    }

    /// The number of entries.
    pub fn len(&self) -> (count: usize)
        ensures
            count == self.entries().len(),
    {
        lru_len(&self.store)
    }

    /// Whether `url` is present, with either outcome. Finding it counts as a
    /// use: the entry becomes the most recently used one.
    pub fn contains(&mut self, url: &str) -> (found: bool)
        ensures
            found == has_key(old(self).entries(), url@),
            final(self).entries() == touched(old(self).entries(), url@),
            final(self).capacity() == old(self).capacity(),
            old(self).wf() ==> final(self).wf(),
    {
        proof {
            if self.wf() {
                lemma_touched_bounded(self.entries(), url@);
            }
        }
        lru_touch(&mut self.store, url)
    }

    /// Records `outcome` for `url` as the most recently used entry. Where
    /// that exceeds the capacity, the least recently used entry is dropped,
    /// silently.
    pub fn put(&mut self, url: String, outcome: bool)
        ensures
            final(self).entries() == stored(
                old(self).entries(),
                old(self).capacity(),
                url@,
                outcome,
            ),
            final(self).capacity() == old(self).capacity(),
            old(self).wf() ==> final(self).wf(),
    {
        proof {
            if self.wf() {
                lemma_stored_bounded(self.entries(), self.capacity(), url@, outcome);
            }
        }
        lru_insert(&mut self.store, url, outcome)
    }
}

/// A look-up keeps the length, and keeps distinct keys distinct.
pub proof fn lemma_touched_bounded(entries: Seq<(Seq<char>, bool)>, key: Seq<char>)
    requires
        distinct_keys(entries),
    ensures
        touched(entries, key).len() == entries.len(),
        distinct_keys(touched(entries, key)),
        has_key(touched(entries, key), key) == has_key(entries, key),
{
    if has_key(entries, key) {
        lemma_without_forgets(entries, key);
        let after = touched(entries, key);
        assert(after[after.len() - 1].0 == key);
    }
}

/// The most recent entries survive: after `items` with distinct keys were
/// stored in turn, the cache ends with the last `cap` of them (with all of
/// them, where they are fewer), in the order in which they were stored.
pub proof fn lemma_recent_kept(
    entries: Seq<(Seq<char>, bool)>,
    cap: nat,
    items: Seq<(Seq<char>, bool)>,
)
    requires
        entries.len() <= cap,
        distinct_keys(items),
    ensures
        ({
            let after = stored_all(entries, cap, items);
            let kept = if items.len() <= cap { items.len() } else { cap };
            &&& kept <= after.len() <= cap
            &&& after.subrange(after.len() - kept, after.len() as int) == items.subrange(
                items.len() - kept,
                items.len() as int,
            )
        }),
    decreases items.len(),
{
    let after = stored_all(entries, cap, items);
    let kept = if items.len() <= cap { items.len() } else { cap };
    let after_tail = after.subrange(after.len() - kept, after.len() as int);
    let items_tail = items.subrange(items.len() - kept, items.len() as int);
    if items.len() == 0 {
        assert(after_tail =~= items_tail);
    } else {
        let front = items.drop_last();
        let key = items.last().0;
        lemma_recent_kept(entries, cap, front);
        let before = stored_all(entries, cap, front);
        let kept_before = if front.len() <= cap { front.len() } else { cap };
        let tail = before.subrange(before.len() - kept_before, before.len() as int);
        // the key is new among the entries that were kept so far
        assert forall|i: int| before.len() - kept_before <= i < before.len() implies (
        #[trigger] before[i]).0 != key by {
            let k = i - (before.len() - kept_before);
            assert(tail[k] == front[front.len() - kept_before + k]);
        }
        // so taking it out leaves them where they were, counted from the end
        let rest = without(before, key);
        let rest_tail = rest.subrange(rest.len() - kept_before, rest.len() as int);
        assert(rest.len() >= kept_before && rest_tail =~= tail);
        assert forall|k: int| 0 <= k < kept implies #[trigger] after_tail[k] == items_tail[k] by {
            if k < kept - 1 {
                let back = kept - 1 - k;
                assert(tail[kept_before - back] == front[front.len() - back]);
            }
        }
    }
}

/// Eviction bound: after one entry more than the capacity was stored, each
/// under a key of its own, the cache holds exactly `cap` entries, and the
/// key stored first, the least recently used one, is gone.
pub proof fn lemma_eviction_bound(
    entries: Seq<(Seq<char>, bool)>,
    cap: nat,
    items: Seq<(Seq<char>, bool)>,
)
    requires
        entries.len() <= cap,
        items.len() == cap + 1,
        distinct_keys(items),
    ensures
        stored_all(entries, cap, items).len() == cap,
        !has_key(stored_all(entries, cap, items), items[0].0),
        stored_all(entries, cap, items) == items.drop_first(),
{
    lemma_recent_kept(entries, cap, items);
    let after = stored_all(entries, cap, items);
    assert(after =~= items.drop_first());
    assert forall|i: int| 0 <= i < after.len() implies (#[trigger] after[i]).0 != items[0].0 by {
        assert(after[i] == items[i + 1]);
    }
}

} // verus!
