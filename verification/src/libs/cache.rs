//! A keyed store whose entries expire.
//!
//! Time is a count of nanoseconds on a clock that the caller reads; every
//! operation that depends on the time takes the reading as `now`. A lifetime is
//! given in whole seconds. The store is a plain value: whoever shares it between
//! tasks guards it with one lock, so that each operation here is one critical
//! section.
use vstd::prelude::*;
use crate::text::same_text;

verus! {

/// Number of nanoseconds in one second.
pub const NANOS_PER_SEC: u128 = 1_000_000_000;

/// What the store holds under one key: the value and the instant, in
/// nanoseconds, from which it no longer counts.
pub struct Entry<T> {
    pub value: T,
    pub expires_at: int,
}

/// The instant at which an entry written at `now` with a lifetime of `ttl_secs`
/// seconds expires.
pub open spec fn deadline(now: u64, ttl_secs: u64) -> int {
    now + ttl_secs * NANOS_PER_SEC
}

/// Whether `m` holds an entry under `key` that has not expired at `now`.
pub open spec fn is_live<T>(m: Map<Seq<char>, Entry<T>>, key: Seq<char>, now: u64) -> bool {
    m.contains_key(key) && now < m[key].expires_at
}

/// `m` without the entries that have expired at `now`.
pub open spec fn unexpired<T>(m: Map<Seq<char>, Entry<T>>, now: u64) -> Map<Seq<char>, Entry<T>> {
    m.restrict(Set::new(|key: Seq<char>| is_live(m, key, now)))
}

/// `m` after writing `value` under `key` at `now` with a lifetime of `ttl_secs` seconds.
pub open spec fn written<T>(
    m: Map<Seq<char>, Entry<T>>,
    key: Seq<char>,
    value: T,
    ttl_secs: u64,
    now: u64,
) -> Map<Seq<char>, Entry<T>> {
    m.insert(key, Entry { value, expires_at: deadline(now, ttl_secs) })
}

/// One slot of the store: a key, its value and its expiry.
pub struct CacheItem<T> {
    key: String,
    value: T,
    expires_at: u128,
}

impl<T> CacheItem<T> {
    /// The key of this slot, as characters.
    pub closed spec fn spec_key(&self) -> Seq<char> {
        self.key@
    }

    /// The value and expiry of this slot.
    pub closed spec fn entry(&self) -> Entry<T> {
        Entry { value: self.value, expires_at: self.expires_at as int }
    }

    /// The key of this slot.
    pub fn key(&self) -> (k: &str)
        ensures
            k@ == self.spec_key(),
    {
        self.key.as_str()
    }

    /// The value of this slot, whether or not it still counts.
    pub fn value(&self) -> (v: &T)
        ensures
            *v == self.entry().value,
    {
        &self.value
    }

    /// Whether this slot still counts at `now`.
    pub fn is_live(&self, now: u64) -> (live: bool)
        ensures
            live == (now < self.entry().expires_at),
    {
        (now as u128) < self.expires_at
    }
}

spec fn distinct_keys<T>(items: Seq<CacheItem<T>>) -> bool {
    forall|i: int, j: int|
        0 <= i < items.len() && 0 <= j < items.len() && i != j ==> items[i].key@ != items[j].key@
}

spec fn has_key<T>(items: Seq<CacheItem<T>>, key: Seq<char>) -> bool {
    exists|i: int| 0 <= i < items.len() && #[trigger] items[i].key@ == key
}

spec fn slot_of<T>(items: Seq<CacheItem<T>>, key: Seq<char>) -> int {
    choose|i: int| 0 <= i < items.len() && #[trigger] items[i].key@ == key
}

spec fn contents<T>(items: Seq<CacheItem<T>>) -> Map<Seq<char>, Entry<T>> {
    Map::new(|key: Seq<char>| has_key(items, key), |key: Seq<char>| items[slot_of(items, key)].entry())
}

/// With distinct keys, the map holds exactly what the slots hold.
proof fn lemma_contents<T>(items: Seq<CacheItem<T>>)
    requires
        distinct_keys(items),
    ensures
        forall|i: int|
            0 <= i < items.len() ==> contents(items).contains_key(#[trigger] items[i].key@)
                && contents(items)[items[i].key@] == items[i].entry(),
        forall|key: Seq<char>| #[trigger]
            contents(items).contains_key(key) ==> 0 <= slot_of(items, key) < items.len()
                && items[slot_of(items, key)].key@ == key,
{
    assert forall|i: int| 0 <= i < items.len() implies contents(items).contains_key(
        #[trigger] items[i].key@,
    ) && contents(items)[items[i].key@] == items[i].entry() by {
        assert(has_key(items, items[i].key@));
        assert(slot_of(items, items[i].key@) == i);
    }
}

/// With distinct keys, the map has as many keys as there are slots.
proof fn lemma_size<T>(items: Seq<CacheItem<T>>)
    requires
        distinct_keys(items),
    ensures
        contents(items).dom().finite(),
        contents(items).dom().len() == items.len(),
{
    let keys = items.map_values(|item: CacheItem<T>| item.key@);
    assert(keys.no_duplicates());
    keys.unique_seq_to_set();
    lemma_contents(items);
    assert forall|key: Seq<char>| contents(items).dom().contains(key) implies keys.to_set().contains(
        key,
    ) by {
        assert(keys[slot_of(items, key)] == key);
    }
    assert forall|key: Seq<char>| keys.to_set().contains(key) implies contents(items).dom().contains(
        key,
    ) by {
        let i = choose|i: int| 0 <= i < keys.len() && keys[i] == key;
        assert(items[i].key@ == key);
    }
    assert(contents(items).dom() =~= keys.to_set());
}

/// A store of values under string keys, each with an expiry.
pub struct AsyncCache<T> {
    items: Vec<CacheItem<T>>,
    cleanup_interval_secs: u64,
}

impl<T> View for AsyncCache<T> {
    type V = Map<Seq<char>, Entry<T>>;

    /// The entries that the store holds, expired ones included until they are purged.
    closed spec fn view(&self) -> Map<Seq<char>, Entry<T>> {
        contents(self.items@)
    }
}

impl<T> AsyncCache<T> {
    #[verifier::type_invariant]
    spec fn keys_are_distinct(&self) -> bool {
        distinct_keys(self.items@)
    }

    /// The interval, in seconds, at which the store asks to be purged.
    pub closed spec fn spec_cleanup_interval_secs(&self) -> u64 {
        self.cleanup_interval_secs
    }

    /// An empty store that asks to be purged every `cleanup_interval_secs` seconds.
    pub fn new(cleanup_interval_secs: u64) -> (cache: Self)
        ensures
            cache@ == Map::<Seq<char>, Entry<T>>::empty(),
            cache.spec_cleanup_interval_secs() == cleanup_interval_secs,
    {
        let cache = AsyncCache { items: Vec::new(), cleanup_interval_secs };
        assert(cache@ =~= Map::<Seq<char>, Entry<T>>::empty());
        cache
    }

    /// The interval, in seconds, at which the store asks to be purged.
    #[verifier::when_used_as_spec(spec_cleanup_interval_secs)]
    pub fn cleanup_interval_secs(&self) -> (secs: u64)
        ensures
            secs == self.spec_cleanup_interval_secs(),
    {
        self.cleanup_interval_secs
    }

    /// The slot that holds `key`, if any.
    fn find(&self, key: &str) -> (at: Option<usize>)
        ensures
            at is Some <==> self@.contains_key(key@),
            at is Some ==> at->0 < self.items@.len() && self.items@[at->0 as int].key@ == key@,
    {
        proof {
            use_type_invariant(self);
            lemma_contents(self.items@);
        }
        let mut i: usize = 0;
        while i < self.items.len()
            invariant
                i <= self.items@.len(),
                forall|j: int| 0 <= j < i ==> self.items@[j].key@ != key@,
            decreases self.items@.len() - i,
        {
            if same_text(self.items[i].key.as_str(), key) {
                return Some(i);
            }
            i += 1;
        }
        None
    }

    /// Writes `value` under `key` with a lifetime of `ttl_secs` seconds from `now`.
    /// An entry already held under `key` is replaced, whatever its state.
    pub fn set(&mut self, key: String, value: T, ttl_secs: u64, now: u64)
        ensures
            final(self)@ == written(old(self)@, key@, value, ttl_secs, now),
            final(self).spec_cleanup_interval_secs() == old(self).spec_cleanup_interval_secs(),
    {
        let at = self.find(key.as_str());
        let item = CacheItem { key, value, expires_at: expiry(now, ttl_secs) };
        let ghost before = self.items@;
        proof {
            use_type_invariant(&*self);
            lemma_contents(before);
        }
        let mut items: Vec<CacheItem<T>> = Vec::new();
        std::mem::swap(&mut self.items, &mut items);
        match at {
            Some(i) => {
                items.set(i, item);
                assert(forall|j: int| 0 <= j < before.len() ==> items@[j].key@ == before[j].key@);
            },
            None => {
                items.push(item);
                assert(forall|j: int| 0 <= j < before.len() ==> items@[j] == before[j]);
            },
        }
        self.items = items;
        proof {
            lemma_contents(self.items@);
            let after = contents(self.items@);
            let wanted = written(contents(before), item.key@, item.value, ttl_secs, now);
            assert forall|k: Seq<char>| wanted.contains_key(k) implies #[trigger] after.contains_key(k)
                && after[k] == wanted[k] by {
                if k != item.key@ {
                    let j = slot_of(before, k);
                    assert(self.items@[j].key@ == k);
                } else {
                    let j = if at is Some { at->0 as int } else { before.len() as int };
                    assert(self.items@[j] == item);
                }
            }
            assert forall|k: Seq<char>| #[trigger] after.contains_key(k) implies wanted.contains_key(k) by {
                let j = slot_of(self.items@, k);
                if k != item.key@ {
                    assert(before[j].key@ == k);
                }
            }
            assert(after =~= wanted);
        }
    }

    /// The value under `key`, if the store holds one that has not expired at `now`.
    /// An expired entry is left in place.
    pub fn peek(&self, key: &str, now: u64) -> (found: Option<&T>)
        ensures
            found is Some <==> is_live(self@, key@, now),
            found is Some ==> *found->0 == self@[key@].value,
    {
        proof {
            use_type_invariant(self);
            lemma_contents(self.items@);
        }
        match self.find(key) {
            Some(i) => {
                let item = &self.items[i];
                if item.is_live(now) {
                    Some(&item.value)
                } else {
                    None
                }
            },
            None => None,
        }
    }

    /// A copy of the value under `key`, if the store holds one that has not
    /// expired at `now`. An expired entry is left in place.
    pub fn get(&self, key: &str, now: u64) -> (found: Option<T>) where T: Clone
        ensures
            found is Some <==> is_live(self@, key@, now),
            found is Some ==> cloned(self@[key@].value, found->0),
    {
        match self.peek(key, now) {
            Some(value) => Some(value.clone()),
            None => None,
        }
    }

    /// Removes every entry that has expired at `now`, and nothing else.
    pub fn purge_expired(&mut self, now: u64)
        ensures
            final(self)@ == unexpired(old(self)@, now),
            final(self).spec_cleanup_interval_secs() == old(self).spec_cleanup_interval_secs(),
    {
        let ghost before = self.items@;
        proof {
            use_type_invariant(&*self);
        }
        let mut items: Vec<CacheItem<T>> = Vec::new();
        std::mem::swap(&mut self.items, &mut items);
        let mut i: usize = 0;
        while i < items.len()
            invariant
                i <= items@.len(),
                distinct_keys(before),
                distinct_keys(items@),
                forall|j: int| 0 <= j < items@.len() ==> before.contains(#[trigger] items@[j]),
                forall|j: int|
                    0 <= j < before.len() && now < (#[trigger] before[j]).expires_at
                        ==> items@.contains(before[j]),
                forall|j: int| 0 <= j < i ==> now < (#[trigger] items@[j]).expires_at,
            decreases items@.len() - i,
        {
            if items[i].is_live(now) {
                i += 1;
            } else {
                let ghost cur = items@;
                let ghost last = cur.len() - 1;
                items.swap_remove(i);
                proof {
                    let next = items@;
                    assert forall|j: int| 0 <= j < next.len() implies before.contains(
                        #[trigger] next[j],
                    ) by {
                        if j == i {
                            assert(next[j] == cur[last]);
                        } else {
                            assert(next[j] == cur[j]);
                        }
                    }
                    assert forall|j: int|
                        0 <= j < before.len() && now < (#[trigger] before[j]).expires_at implies next.contains(
                        before[j],
                    ) by {
                        let at = choose|at: int| 0 <= at < cur.len() && cur[at] == before[j];
                        if at == last {
                            assert(next[i as int] == before[j]);
                        } else {
                            assert(next[at] == before[j]);
                        }
                    }
                    assert forall|a: int, b: int|
                        0 <= a < next.len() && 0 <= b < next.len() && a != b implies next[a].key@
                        != next[b].key@ by {
                        let from_a = if a == i { last } else { a };
                        let from_b = if b == i { last } else { b };
                        assert(next[a] == cur[from_a] && next[b] == cur[from_b]);
                    }
                }
            }
        }
        self.items = items;
        proof {
            let cur = self.items@;
            lemma_contents(before);
            lemma_contents(cur);
            let wanted = unexpired(contents(before), now);
            assert forall|k: Seq<char>| #[trigger] contents(cur).contains_key(k) implies wanted.contains_key(k)
                && wanted[k] == contents(cur)[k] by {
                let j = slot_of(cur, k);
                assert(before.contains(cur[j]));
                let at = choose|at: int| 0 <= at < before.len() && before[at] == cur[j];
                assert(before[at].key@ == k);
            }
            assert forall|k: Seq<char>| #[trigger] wanted.contains_key(k) implies contents(cur).contains_key(k) by {
                let j = slot_of(before, k);
                assert(cur.contains(before[j]));
                let at = choose|at: int| 0 <= at < cur.len() && cur[at] == before[j];
                assert(cur[at].key@ == k);
            }
            assert(contents(cur) =~= wanted);
        }
    }

    /// The number of entries held. An expired entry counts until it is purged.
    pub fn len(&self) -> (n: usize)
        ensures
            self@.dom().finite(),
            n == self@.dom().len(),
    {
        proof {
            use_type_invariant(self);
            lemma_size(self.items@);
        }
        self.items.len()
    }

    /// The slots of the store, in no particular order: one for each entry.
    pub fn entries(&self) -> (list: &Vec<CacheItem<T>>)
        ensures
            list@.len() == self@.dom().len(),
            forall|i: int|
                0 <= i < list@.len() ==> self@.contains_key((#[trigger] list@[i]).spec_key())
                    && self@[list@[i].spec_key()] == list@[i].entry(),
            forall|key: Seq<char>| #[trigger]
                self@.contains_key(key) ==> exists|i: int|
                    0 <= i < list@.len() && (#[trigger] list@[i]).spec_key() == key,
    {
        proof {
            use_type_invariant(self);
            lemma_contents(self.items@);
            lemma_size(self.items@);
        }
        &self.items
    }
}

/// One step in the life of a store.
pub enum Step<T> {
    /// `value` is written under `key` at `now`, to live for `ttl_secs` seconds.
    Write { key: Seq<char>, value: T, ttl_secs: u64, now: u64 },
    /// The expired entries are purged at `now`.
    Sweep { now: u64 },
}

/// The entries of a store that started empty and went through `steps` in order.
pub open spec fn after_steps<T>(steps: Seq<Step<T>>) -> Map<Seq<char>, Entry<T>>
    decreases steps.len(),
{
    if steps.len() == 0 {
        Map::empty()
    } else {
        let m = after_steps(steps.drop_last());
        match steps.last() {
            Step::Write { key, value, ttl_secs, now } => written(m, key, value, ttl_secs, now),
            Step::Sweep { now } => unexpired(m, now),
        }
    }
}

/// A key that no step has written is not held, so a lookup of it finds nothing
/// at any time.
pub proof fn law_unset_key_is_absent<T>(steps: Seq<Step<T>>, key: Seq<char>, now: u64)
    requires
        forall|i: int| 0 <= i < steps.len() && steps[i] is Write ==> steps[i]->key != key,
    ensures
        !after_steps(steps).contains_key(key),
        !is_live(after_steps(steps), key, now),
    decreases steps.len(),
{
    if steps.len() > 0 {
        let earlier = steps.drop_last();
        assert forall|i: int| 0 <= i < earlier.len() && earlier[i] is Write implies earlier[i]->key
            != key by {
            assert(earlier[i] == steps[i]);
        }
        law_unset_key_is_absent(earlier, key, now);
        assert(steps.last() == steps[steps.len() - 1]);
    }
}

/// Until its lifetime is over, a key that was written is live and holds the
/// value that was written.
pub proof fn law_written_value_is_read<T>(
    m: Map<Seq<char>, Entry<T>>,
    key: Seq<char>,
    value: T,
    ttl_secs: u64,
    written_at: u64,
    read_at: u64,
)
    requires
        read_at < deadline(written_at, ttl_secs),
    ensures
        is_live(written(m, key, value, ttl_secs, written_at), key, read_at),
        written(m, key, value, ttl_secs, written_at)[key].value == value,
{
}

/// Once its lifetime is over, a key that was written is no longer live, and a
/// purge removes it from the store and from its count of entries.
pub proof fn law_expired_key_is_purged<T>(
    m: Map<Seq<char>, Entry<T>>,
    key: Seq<char>,
    value: T,
    ttl_secs: u64,
    written_at: u64,
    purged_at: u64,
    read_at: u64,
)
    requires
        m.dom().finite(),
        deadline(written_at, ttl_secs) <= purged_at,
    ensures
        !is_live(written(m, key, value, ttl_secs, written_at), key, purged_at),
        !unexpired(written(m, key, value, ttl_secs, written_at), purged_at).contains_key(key),
        !is_live(unexpired(written(m, key, value, ttl_secs, written_at), purged_at), key, read_at),
        unexpired(written(m, key, value, ttl_secs, written_at), purged_at).dom().len() < written(
            m,
            key,
            value,
            ttl_secs,
            written_at,
        ).dom().len(),
{
    let full = written(m, key, value, ttl_secs, written_at);
    let rest = unexpired(full, purged_at);
    assert(rest.dom().subset_of(full.dom().remove(key)));
    vstd::set_lib::lemma_len_subset(rest.dom(), full.dom().remove(key));
}

/// A purge keeps every entry that is still live, unchanged.
pub proof fn law_purge_keeps_live_entries<T>(m: Map<Seq<char>, Entry<T>>, key: Seq<char>, now: u64)
    ensures
        is_live(unexpired(m, now), key, now) == is_live(m, key, now),
        is_live(m, key, now) ==> unexpired(m, now)[key] == m[key],
{
}

/// The instant at which an entry written at `now` with a lifetime of `ttl_secs`
/// seconds expires. The sum cannot overflow: it is below 2^95.
pub fn expiry(now: u64, ttl_secs: u64) -> (at: u128)
    ensures
        at == deadline(now, ttl_secs),
{
    let base: u128 = now as u128;
    let span: u128 = ttl_secs as u128;
    assert(span * NANOS_PER_SEC <= u64::MAX * NANOS_PER_SEC) by (nonlinear_arith)
        requires
            span <= u64::MAX,
    ;
    base + span * NANOS_PER_SEC
}

} // verus!
