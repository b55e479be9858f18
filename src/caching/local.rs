use std::collections::hash_map::RandomState;
use std::hash::{BuildHasher, Hash};
use std::time::Duration;
use ttl_cache::TtlCache;
use vstd::prelude::*;
use vstd::string::StringExecFns;

use crate::caching::messages::{CacheEntry, CacheError, EntryView, GetCacheEntry, PutCacheEntry};
use crate::gcs::GetObjectResult;

verus! {

/// The largest time to live, in seconds, that an entry may be given: well inside what the
/// monotonic clock can add to the present instant without overflow.
pub const MAX_TTL_SECS: u64 = 4294967296;

/// The reason given for a lookup that finds nothing.
pub const KEY_NOT_PRESENT: &'static str = "Key not present";

/// Capacity of a local store made without one.
pub const DEFAULT_CAPACITY: usize = 100;

/// Time to live, in seconds, of a store made without one.
pub const DEFAULT_TTL_SECS: u64 = 3600;

/// Relies on ttl_cache::TtlCache as an opaque type: Verus sees nothing inside a value of it,
/// and what it holds is known only through `ttl_entries` and `ttl_capacity`.
#[verifier::external_type_specification]
#[verifier::external_body]
#[verifier::reject_recursive_types(K)]
#[verifier::reject_recursive_types(V)]
#[verifier::reject_recursive_types(S)]
pub struct ExTtlCache<K: Eq + Hash, V, S: BuildHasher>(TtlCache<K, V, S>);

/// What a TTL cache holds, oldest first: each key with its entry, expired or not.
pub uninterp spec fn ttl_entries(c: TtlCache<String, CacheEntry>) -> Seq<(Seq<char>, EntryView)>;

/// The number of entries a TTL cache was made to hold at most.
pub uninterp spec fn ttl_capacity(c: TtlCache<String, CacheEntry>) -> nat;

/// The entries with `key` taken out.
pub open spec fn without_key(s: Seq<(Seq<char>, EntryView)>, key: Seq<char>) -> Seq<(Seq<char>, EntryView)> {
    s.filter(|p: (Seq<char>, EntryView)| p.0 != key)
}

/// The entries after `key` is stored with `value` in a store of `capacity`: the key moves to
/// the newest end, and the oldest entry leaves when the count passes the capacity.
pub open spec fn after_insert(
    s: Seq<(Seq<char>, EntryView)>,
    key: Seq<char>,
    value: EntryView,
    capacity: nat,
) -> Seq<(Seq<char>, EntryView)> {
    let t = without_key(s, key).push((key, value));
    if t.len() > capacity { t.drop_first() } else { t }
}

/// The entry stored under `key`, searching from the newest end.
pub open spec fn find_entry(s: Seq<(Seq<char>, EntryView)>, key: Seq<char>) -> Option<EntryView>
    decreases s.len(),
{
    if s.len() == 0 {
        None
    } else if s.last().0 == key {
        Some(s.last().1)
    } else {
        find_entry(s.drop_last(), key)
    }
}

/// Relies on ttl_cache::TtlCache::new: an empty cache bounded by `capacity` entries.
#[verifier::external_body]
fn ttl_new(capacity: usize) -> (c: TtlCache<String, CacheEntry>)
    ensures
        ttl_entries(c) == Seq::<(Seq<char>, EntryView)>::empty(),
        ttl_capacity(c) == capacity,
{
    TtlCache::new(capacity)
}

/// Relies on ttl_cache::TtlCache::insert: the key's node takes the new value and moves to the
/// newest end, and the oldest node is popped when the count passes the capacity. The deadline
/// is the present instant plus `ttl_secs`, which the bound keeps from overflowing.
#[verifier::external_body]
fn ttl_insert(c: &mut TtlCache<String, CacheEntry>, key: String, value: CacheEntry, ttl_secs: u64)
    requires
        ttl_secs <= MAX_TTL_SECS,
    ensures
        ttl_entries(*final(c)) == after_insert(ttl_entries(*old(c)), key@, value@, ttl_capacity(*old(c))),
        ttl_capacity(*final(c)) == ttl_capacity(*old(c)),
{
    c.insert(key, value, Duration::from_secs(ttl_secs));
}

/// Relies on ttl_cache::TtlCache::get: the value stored under the key, or nothing once its
/// deadline has passed on the clock, which is why a stored key may still give nothing.
#[verifier::external_body]
fn ttl_get<'a>(c: &'a TtlCache<String, CacheEntry>, key: &str) -> (r: Option<&'a CacheEntry>)
    ensures
        r matches Some(e) ==> find_entry(ttl_entries(*c), key@) == Some(e@),
        find_entry(ttl_entries(*c), key@) is None ==> r is None,
{
    c.get(key)
}

/// The key under which a local store keeps the object `key` of `bucket`.
pub open spec fn local_key_of(bucket: Seq<char>, key: Seq<char>) -> Seq<char> {
    bucket + ":"@ + key
}

/// Builds the key of the object `key` of `bucket` in a local store.
pub fn local_key(bucket: &str, key: &str) -> (r: String)
    ensures
        r@ == local_key_of(bucket@, key@),
{
    let mut r = String::from_str(bucket);
    r.append(":");
    r.append(key);
    r
}

/// The answer to a lookup from what the store gave: a copy of the entry found, or
/// `FailedToGetKey` when there was none (absent, or past its deadline).
pub fn found_entry(found: Option<&CacheEntry>) -> (r: Result<CacheEntry, CacheError>)
    ensures
        match found {
            Some(e) => r matches Ok(x) && x@ == e@,
            None => r matches Err(CacheError::FailedToGetKey { reason }) && reason@ == KEY_NOT_PRESENT@,
        },
{
    match found {
        Some(e) => Ok(e.duplicate()),
        None => Err(CacheError::FailedToGetKey { reason: String::from_str(KEY_NOT_PRESENT) }),
    }
}

/// An in-process cache: a TTL store bounded in size, keyed by bucket and object name.
pub struct LocalCache {
    cache: TtlCache<String, CacheEntry>,
    ttl: u64,
}

impl LocalCache {
    /// What the store holds, oldest first, expired entries included.
    pub closed spec fn entries(&self) -> Seq<(Seq<char>, EntryView)> {
        ttl_entries(self.cache)
    }

    /// The most entries the store holds at once.
    pub closed spec fn capacity(&self) -> nat {
        ttl_capacity(self.cache)
    }

    /// The time to live, in seconds, given to each entry stored.
    pub closed spec fn ttl(&self) -> nat {
        self.ttl as nat
    }

    pub open spec fn wf(&self) -> bool {
        &&& self.entries().len() <= self.capacity()
        &&& self.ttl() <= MAX_TTL_SECS
    }

    pub fn new(capacity: Option<usize>, ttl: Option<u64>) -> (r: Self)
        requires
            ttl matches Some(t) ==> t <= MAX_TTL_SECS,
        ensures
            r.wf(),
            r.entries() == Seq::<(Seq<char>, EntryView)>::empty(),
            r.capacity() == (match capacity { Some(c) => c, None => DEFAULT_CAPACITY }),
            r.ttl() == (match ttl { Some(t) => t, None => DEFAULT_TTL_SECS }),
    {
        let capacity = match capacity {
            Some(c) => c,
            None => DEFAULT_CAPACITY,
        };
        let ttl = match ttl {
            Some(t) => t,
            None => DEFAULT_TTL_SECS,
        };
        LocalCache { cache: ttl_new(capacity), ttl }
    }

    /// Stores the entry of the message, replacing what its key held and evicting the oldest
    /// entry if the store would pass its capacity. Never fails.
    pub fn put(&mut self, msg: PutCacheEntry) -> (r: Result<(), CacheError>)
        requires
            old(self).wf(),
        ensures
            final(self).wf(),
            r is Ok,
            final(self).entries() == after_insert(
                old(self).entries(),
                local_key_of(msg.bucket@, msg.key@),
                msg.entry@,
                old(self).capacity(),
            ),
            final(self).capacity() == old(self).capacity(),
            final(self).ttl() == old(self).ttl(),
    {
        let key = local_key(msg.bucket.as_str(), msg.key.as_str());
        proof {
            lemma_after_insert_len(self.entries(), key@, msg.entry@, self.capacity());
        }
        ttl_insert(&mut self.cache, key, msg.entry, self.ttl);
        Ok(())
    }

    /// The entry stored under the message's key, or `FailedToGetKey` when the key is absent
    /// or its time to live has passed.
    pub fn get(&self, msg: &GetCacheEntry) -> (r: Result<CacheEntry, CacheError>)
        ensures
            r matches Ok(e) ==> find_entry(self.entries(), local_key_of(msg.bucket@, msg.key@)) == Some(e@),
            find_entry(self.entries(), local_key_of(msg.bucket@, msg.key@)) is None ==> r is Err,
            r matches Err(e) ==> (e matches CacheError::FailedToGetKey { reason } && reason@ == KEY_NOT_PRESENT@),
    {
        let key = local_key(msg.bucket.as_str(), msg.key.as_str());
        found_entry(ttl_get(&self.cache, key.as_str()))
    }

    /// Stores `object` under its name alone, as a cache for a single bucket does.
    pub fn put_object(&mut self, object_name: &str, object: GetObjectResult)
        requires
            old(self).wf(),
        ensures
            final(self).wf(),
            final(self).entries() == after_insert(old(self).entries(), object_name@, object@, old(self).capacity()),
            final(self).capacity() == old(self).capacity(),
            final(self).ttl() == old(self).ttl(),
    {
        proof {
            lemma_after_insert_len(self.entries(), object_name@, object@, self.capacity());
        }
        let entry = CacheEntry::from_body_and_headers(object.body, object.headers);
        ttl_insert(&mut self.cache, String::from_str(object_name), entry, self.ttl);
    }

    /// The object stored under its name alone, as a cache for a single bucket keeps it.
    pub fn get_object(&self, object_name: &str) -> (r: Option<GetObjectResult>)
        ensures
            r matches Some(o) ==> find_entry(self.entries(), object_name@) == Some(o@),
            find_entry(self.entries(), object_name@) is None ==> r is None,
    {
        match ttl_get(&self.cache, object_name) {
            Some(e) => Some(e.duplicate().to_get_object_result()),
            None => None,
        }
    }
}

/// Storing never lets the entries pass the capacity when they were within it.
pub proof fn lemma_after_insert_len(
    s: Seq<(Seq<char>, EntryView)>,
    key: Seq<char>,
    value: EntryView,
    capacity: nat,
)
    requires
        s.len() <= capacity,
    ensures
        after_insert(s, key, value, capacity).len() <= capacity,
{
    let f = |p: (Seq<char>, EntryView)| p.0 != key;
    s.lemma_filter_len(f);
}

/// The entries after each `(key, value)` of `puts` is stored in turn, in a store of `capacity`.
pub open spec fn after_puts(
    s: Seq<(Seq<char>, EntryView)>,
    puts: Seq<(Seq<char>, EntryView)>,
    capacity: nat,
) -> Seq<(Seq<char>, EntryView)>
    decreases puts.len(),
{
    if puts.len() == 0 {
        s
    } else {
        after_puts(after_insert(s, puts[0].0, puts[0].1, capacity), puts.drop_first(), capacity)
    }
}

/// Right after `key` is stored with `value` in a store that can hold an entry, the store's
/// entry under `key` is `value`: a lookup then finds `value`, or nothing once the clock has
/// passed the entry's deadline, and never another entry.
pub proof fn lemma_put_then_get(
    s: Seq<(Seq<char>, EntryView)>,
    key: Seq<char>,
    value: EntryView,
    capacity: nat,
)
    requires
        capacity >= 1,
    ensures
        find_entry(after_insert(s, key, value, capacity), key) == Some(value),
{
    let t = without_key(s, key).push((key, value));
    let u = after_insert(s, key, value, capacity);
    if t.len() > capacity {
        assert(u.last() == t.last());
    }
    assert(u.last() == (key, value));
}

/// A store never holds more than its capacity, whatever sequence of puts it is given.
pub proof fn lemma_puts_within_capacity(
    s: Seq<(Seq<char>, EntryView)>,
    puts: Seq<(Seq<char>, EntryView)>,
    capacity: nat,
)
    requires
        s.len() <= capacity,
    ensures
        after_puts(s, puts, capacity).len() <= capacity,
    decreases puts.len(),
{
    if puts.len() > 0 {
        lemma_after_insert_len(s, puts[0].0, puts[0].1, capacity);
        lemma_puts_within_capacity(
            after_insert(s, puts[0].0, puts[0].1, capacity),
            puts.drop_first(),
            capacity,
        );
    }
}

} // verus!
