//! The bounded cache: a fixed number of orders, each under its identifier,
//! kept in the order of their last use.
//!
//! The contents are modelled as a sequence of `(key, order)` pairs that runs
//! from the most recently used entry to the least recently used one. The
//! functions [`put_entries`], [`touch`] and [`lookup`] say what an insertion
//! and a lookup do to that sequence; the cache itself is an
//! [`lru::LruCache`], and everything this module proves of
//! [`BoundedCache`] rests on the contracts given here to three of its
//! methods.

use lru::LruCache;
use std::num::NonZeroUsize;
use vstd::prelude::*;

use crate::models::{Order, OrderView};

verus! {

/// The contents of a cache: its entries from the most recently used to the
/// least recently used, each a key with the order under it.
pub type Entries = Seq<(Seq<char>, OrderView)>;

/// Whether some entry stands under `key`.
pub open spec fn holds(entries: Entries, key: Seq<char>) -> bool {
    exists|i: int| 0 <= i < entries.len() && (#[trigger] entries[i]).0 == key
}

/// The place of an entry under `key`, counted from the most recently used.
/// With distinct keys there is at most one such place.
pub open spec fn position(entries: Entries, key: Seq<char>) -> int {
    choose|i: int| 0 <= i < entries.len() && (#[trigger] entries[i]).0 == key
}

/// The order cached under `key`, if there is one.
pub open spec fn lookup(entries: Entries, key: Seq<char>) -> Option<OrderView> {
    if holds(entries, key) {
        Some(entries[position(entries, key)].1)
    } else {
        None
    }
}

/// The contents after a lookup of `key`: a hit moves the entry to the front,
/// a miss changes nothing.
pub open spec fn touch(entries: Entries, key: Seq<char>) -> Entries {
    if holds(entries, key) {
        let at = position(entries, key);
        seq![entries[at]] + entries.remove(at)
    } else {
        entries
    }
}

/// The contents after `order` was put under `key` into a cache that holds at
/// most `capacity` entries. The new entry stands at the front. It replaces an
/// entry under the same key; failing that, in a full cache, the least recently
/// used entry makes room for it.
pub open spec fn put_entries(
    entries: Entries,
    capacity: nat,
    key: Seq<char>,
    order: OrderView,
) -> Entries {
    if holds(entries, key) {
        seq![(key, order)] + entries.remove(position(entries, key))
    } else if entries.len() == capacity {
        seq![(key, order)] + entries.drop_last()
    } else {
        seq![(key, order)] + entries
    }
}

/// No key stands in two entries.
pub open spec fn distinct_keys(entries: Entries) -> bool {
    forall|i: int, j: int|
        0 <= i < j < entries.len() ==> (#[trigger] entries[i]).0 != (#[trigger] entries[j]).0
}

/// What holds of the contents of every bounded cache: there is room for at
/// least one entry, no more entries than the capacity, and no key twice.
pub open spec fn well_formed(entries: Entries, capacity: nat) -> bool {
    &&& capacity > 0
    &&& entries.len() <= capacity
    &&& distinct_keys(entries)
}

/// With distinct keys, the entry under a key is the one found at any place
/// that carries the key.
pub proof fn lemma_position_is_unique(entries: Entries, key: Seq<char>, at: int)
    requires
        distinct_keys(entries),
        0 <= at < entries.len(),
        entries[at].0 == key,
    ensures
        holds(entries, key),
        position(entries, key) == at,
        lookup(entries, key) == Some(entries[at].1),
{
}

/// A lookup keeps a well-formed cache well formed, and keeps every key with
/// its order.
pub proof fn lemma_touch_keeps_well_formed(entries: Entries, capacity: nat, key: Seq<char>)
    requires
        well_formed(entries, capacity),
    ensures
        well_formed(touch(entries, key), capacity),
        touch(entries, key).len() == entries.len(),
        forall|other: Seq<char>| holds(touch(entries, key), other) <==> holds(entries, other),
        forall|other: Seq<char>| lookup(touch(entries, key), other) == lookup(entries, other),
{
    let after = touch(entries, key);
    if holds(entries, key) {
        let at = position(entries, key);
        // Where the entry at place `i` of `after` stood before the lookup.
        let origin = |i: int|
            if i == 0 {
                at
            } else if i <= at {
                i - 1
            } else {
                i
            };
        // Where the entry that stood at place `s` is after the lookup.
        let target = |s: int|
            if s == at {
                0
            } else if s < at {
                s + 1
            } else {
                s
            };
        assert forall|i: int| 0 <= i < after.len() implies #[trigger] after[i] == entries[origin(
            i,
        )] by {}
        assert forall|other: Seq<char>| holds(after, other) <==> holds(entries, other) by {
            if holds(entries, other) {
                assert(after[target(position(entries, other))].0 == other);
            }
        }
        assert forall|other: Seq<char>| lookup(after, other) == lookup(entries, other) by {
            if holds(entries, other) {
                lemma_position_is_unique(after, other, target(position(entries, other)));
            }
        }
    }
}

/// An insertion keeps a well-formed cache well formed; the new entry is then
/// the most recently used one and is found under its key.
pub proof fn lemma_put_keeps_well_formed(
    entries: Entries,
    capacity: nat,
    key: Seq<char>,
    order: OrderView,
)
    requires
        well_formed(entries, capacity),
    ensures
        well_formed(put_entries(entries, capacity, key, order), capacity),
        put_entries(entries, capacity, key, order)[0] == (key, order),
        lookup(put_entries(entries, capacity, key, order), key) == Some(order),
{
    lemma_position_is_unique(put_entries(entries, capacity, key, order), key, 0);
}

/// `lru::DefaultHasher`, the hasher of every `LruCache` made with
/// `LruCache::new`.
#[verifier::external_type_specification]
#[verifier::external_body]
pub struct ExDefaultHasher(lru::DefaultHasher);

/// `lru::LruCache`.
#[verifier::external_type_specification]
#[verifier::external_body]
#[verifier::reject_recursive_types(K)]
#[verifier::reject_recursive_types(V)]
#[verifier::reject_recursive_types(S)]
pub struct ExLruCache<K, V, S>(LruCache<K, V, S>);

/// What an `LruCache` of orders holds: its entries from the most recently
/// used to the least recently used, each as its key and the view of its
/// order.
pub uninterp spec fn cache_entries(cache: LruCache<String, Order>) -> Seq<(Seq<char>, OrderView)>;

/// The number of entries that an `LruCache` of orders was made to hold.
pub uninterp spec fn cache_capacity(cache: LruCache<String, Order>) -> usize;

/// The largest capacity that a cache can be made with. A cache reserves the
/// table of its keys when it is made, and the size of that table in bytes
/// has to fit the machine's addresses.
pub const MAX_CAPACITY: usize = 100_000_000;

/// `LruCache::new`: an empty cache that holds at most `capacity` entries. It
/// reserves a hash table for that many keys at once and panics where the
/// size of the table overflows, which no capacity up to [`MAX_CAPACITY`]
/// makes it do.
#[verifier::external_body]
fn lru_new(capacity: usize) -> (cache: LruCache<String, Order>)
    requires
        0 < capacity <= MAX_CAPACITY,
    ensures
        cache_entries(cache) == Entries::empty(),
        cache_capacity(cache) == capacity,
{
    LruCache::new(NonZeroUsize::new(capacity).unwrap())
}

/// `LruCache::put`: the entry goes to the front. Where the key was present
/// its old entry is replaced and the old order returned; where it was not and
/// the cache is full, the entry at the back is dropped. The call does not
/// unwind.
#[verifier::external_body]
fn lru_put(cache: &mut LruCache<String, Order>, key: String, order: Order) -> (replaced: Option<
    Order,
>)
    ensures
        cache_capacity(*final(cache)) == cache_capacity(*old(cache)),
        cache_entries(*final(cache)) == put_entries(
            cache_entries(*old(cache)),
            cache_capacity(*old(cache)) as nat,
            key@,
            order@,
        ),
        match replaced {
            Some(previous) => lookup(cache_entries(*old(cache)), key@) == Some(previous@),
            None => lookup(cache_entries(*old(cache)), key@) is None,
        },
    no_unwind
{
    cache.put(key, order)
}

/// `LruCache::get`: a reference to the order under the key, whose entry
/// moves to the front; `None`, and no change, where the key is absent. The
/// call does not unwind.
#[verifier::external_body]
fn lru_get<'a>(cache: &'a mut LruCache<String, Order>, key: &str) -> (found: Option<&'a Order>)
    ensures
        cache_capacity(*final(cache)) == cache_capacity(*old(cache)),
        cache_entries(*final(cache)) == touch(cache_entries(*old(cache)), key@),
        match found {
            Some(order) => lookup(cache_entries(*old(cache)), key@) == Some(order@),
            None => lookup(cache_entries(*old(cache)), key@) is None,
        },
    no_unwind
{
    cache.get(key)
}

/// A cache of orders by identifier that holds at most a fixed number of
/// entries and gives up the least recently used one when it is full.
pub struct BoundedCache {
    inner: LruCache<String, Order>,
}

impl BoundedCache {
    /// The entries, from the most recently used to the least recently used.
    pub closed spec fn entries(&self) -> Entries {
        cache_entries(self.inner)
    }

    /// The largest number of entries that the cache holds.
    pub closed spec fn capacity(&self) -> nat {
        cache_capacity(self.inner) as nat
    }

    /// Every cache is well formed.
    #[verifier::type_invariant]
    pub open spec fn valid(&self) -> bool {
        well_formed(self.entries(), self.capacity())
    }

    /// An empty cache for at most `capacity` orders.
    pub fn new(capacity: usize) -> (cache: BoundedCache)
        requires
            0 < capacity <= MAX_CAPACITY,
        ensures
            cache.entries() == Entries::empty(),
            cache.capacity() == capacity,
    {
        BoundedCache { inner: lru_new(capacity) }
    }

    /// Inserts `order` under `key`, or overwrites the order that stood there,
    /// and returns the order that was overwritten.
    pub fn put(&mut self, key: String, order: Order) -> (replaced: Option<Order>)
        ensures
            final(self).capacity() == old(self).capacity(),
            final(self).entries() == put_entries(
                old(self).entries(),
                old(self).capacity(),
                key@,
                order@,
            ),
            match replaced {
                Some(previous) => lookup(old(self).entries(), key@) == Some(previous@),
                None => lookup(old(self).entries(), key@) is None,
            },
    {
        proof {
            use_type_invariant(&*self);
            lemma_put_keeps_well_formed(self.entries(), self.capacity(), key@, order@);
        }
        lru_put(&mut self.inner, key, order)
    }

    /// Returns a copy of the order under `key` and marks its entry as the most
    /// recently used; `None` where the cache holds no such key.
    pub fn get(&mut self, key: &str) -> (found: Option<Order>)
        ensures
            final(self).capacity() == old(self).capacity(),
            final(self).entries() == touch(old(self).entries(), key@),
            match found {
                Some(order) => lookup(old(self).entries(), key@) == Some(order@),
                None => lookup(old(self).entries(), key@) is None,
            },
    {
        proof {
            use_type_invariant(&*self);
            lemma_touch_keeps_well_formed(self.entries(), self.capacity(), key@);
        }
        match lru_get(&mut self.inner, key) {
            Some(order) => Some(order.clone()),
            None => None,
        }
    }
}

/// A key that is new to a full cache evicts the least recently used entry
/// and no other: afterwards the cache holds the new key and every old key but
/// the one that stood last.
pub proof fn lemma_full_cache_evicts_least_recent(
    entries: Entries,
    capacity: nat,
    key: Seq<char>,
    order: OrderView,
)
    requires
        well_formed(entries, capacity),
        entries.len() == capacity,
        !holds(entries, key),
    ensures
        put_entries(entries, capacity, key, order).len() == capacity,
        !holds(put_entries(entries, capacity, key, order), entries.last().0),
        forall|other: Seq<char>|
            holds(put_entries(entries, capacity, key, order), other) <==> (other == key || (holds(
                entries,
                other,
            ) && other != entries.last().0)),
        forall|other: Seq<char>|
            other != key && other != entries.last().0 ==> lookup(
                put_entries(entries, capacity, key, order),
                other,
            ) == lookup(entries, other),
{
    let after = put_entries(entries, capacity, key, order);
    lemma_put_keeps_well_formed(entries, capacity, key, order);
    assert forall|i: int| 1 <= i < after.len() implies #[trigger] after[i] == entries[i - 1] by {}
    assert forall|other: Seq<char>|
        holds(after, other) <==> (other == key || (holds(entries, other) && other
            != entries.last().0)) by {
        if holds(entries, other) && other != entries.last().0 {
            assert(after[position(entries, other) + 1].0 == other);
        }
    }
    assert forall|other: Seq<char>| other != key && other != entries.last().0 implies lookup(
        after,
        other,
    ) == lookup(entries, other) by {
        if holds(entries, other) {
            lemma_position_is_unique(after, other, position(entries, other) + 1);
        }
    }
}

/// The contents after the pairs of `items` were put one after the other,
/// the first of them first.
pub open spec fn put_all(entries: Entries, capacity: nat, items: Entries) -> Entries
    decreases items.len(),
{
    if items.len() == 0 {
        entries
    } else {
        put_entries(
            put_all(entries, capacity, items.drop_last()),
            capacity,
            items.last().0,
            items.last().1,
        )
    }
}

/// Orders under distinct keys, put into an empty cache, leave in it the
/// last `capacity` of them, the latest first. So one order more than the
/// capacity evicts the first order that was put, and no other.
pub proof fn lemma_distinct_puts_keep_the_latest(capacity: nat, items: Entries)
    requires
        capacity > 0,
        distinct_keys(items),
    ensures
        put_all(Seq::empty(), capacity, items).len() == if items.len() <= capacity {
            items.len()
        } else {
            capacity
        },
        forall|i: int|
            0 <= i < put_all(Seq::empty(), capacity, items).len() ==> #[trigger] put_all(
                Seq::empty(),
                capacity,
                items,
            )[i] == items[items.len() - 1 - i],
        items.len() == capacity + 1 ==> !holds(
            put_all(Seq::empty(), capacity, items),
            items[0].0,
        ),
        items.len() == capacity + 1 ==> forall|j: int|
            1 <= j < items.len() ==> holds(
                put_all(Seq::empty(), capacity, items),
                (#[trigger] items[j]).0,
            ),
    decreases items.len(),
{
    let after = put_all(Seq::empty(), capacity, items);
    if items.len() > 0 {
        let earlier = items.drop_last();
        let before = put_all(Seq::empty(), capacity, earlier);
        let key = items.last().0;
        let order = items.last().1;
        assert(distinct_keys(earlier));
        lemma_distinct_puts_keep_the_latest(capacity, earlier);
        assert(!holds(before, key));
        assert forall|i: int| 0 <= i < after.len() implies #[trigger] after[i] == items[items.len()
            - 1 - i] by {}
        if items.len() == capacity + 1 {
            assert(!holds(after, items[0].0));
            assert forall|j: int| 1 <= j < items.len() implies holds(
                after,
                (#[trigger] items[j]).0,
            ) by {
                assert(after[items.len() - 1 - j] == items[j]);
            }
        }
    }
}

/// In a cache for two orders or more, a lookup protects the entry that it
/// finds from the eviction that follows: whatever is put next, the entry is
/// still there, with the same order unless the put overwrote it.
pub proof fn lemma_lookup_protects_from_eviction(
    entries: Entries,
    capacity: nat,
    used: Seq<char>,
    key: Seq<char>,
    order: OrderView,
)
    requires
        well_formed(entries, capacity),
        capacity >= 2,
        holds(entries, used),
    ensures
        holds(put_entries(touch(entries, used), capacity, key, order), used),
        key != used ==> lookup(put_entries(touch(entries, used), capacity, key, order), used)
            == lookup(entries, used),
{
    let touched = touch(entries, used);
    let after = put_entries(touched, capacity, key, order);
    lemma_touch_keeps_well_formed(entries, capacity, used);
    lemma_put_keeps_well_formed(touched, capacity, key, order);
    lemma_position_is_unique(touched, used, 0);
    lemma_position_is_unique(entries, used, position(entries, used));
    if key != used {
        // The entry that the lookup moved to the front stands second now.
        lemma_position_is_unique(after, used, 1);
    }
}

} // verus!
