use vstd::prelude::*;
use vstd::string::StringExecFns;

use crate::caching::local::{
    after_insert, find_entry, local_key_of, LocalCache, KEY_NOT_PRESENT, DEFAULT_CAPACITY, DEFAULT_TTL_SECS, MAX_TTL_SECS,
};
use crate::caching::messages::{CacheEntry, CacheError, GetCacheEntry, PutCacheEntry};
use crate::caching::redis::RedisCache;
use crate::config;
use crate::config::{named_in, spec_effective_caching, BucketConfiguration};
use crate::text::same_text;

verus! {

/// Why one cache of the configuration could not be made. The cache is then left out.
pub enum CacheInstantiationError {
    MissingField { field_name: String },
    NotImplemented { cache_type: String },
    /// A field holds a value out of its range.
    InvalidField { field_name: String },
    CacheError { source: CacheError },
}

/// One cache, of either kind.
pub enum CacheInstance {
    LocalCache(LocalCache),
    Redis(RedisCache),
}

/// The reason given when a message is handed to a remote cache through its handle: the
/// connection to a remote store is held by the caller, not by the registry.
pub const REMOTE_NOT_DELIVERED: &'static str = "a remote cache is reached through its connection";

/// What a put through a handle does: a local cache stores the entry and answers `Ok`; a
/// remote one stays as it is and the message is not delivered.
pub open spec fn put_delivered(
    before: CacheInstance,
    after: CacheInstance,
    msg: PutCacheEntry,
    r: Result<(), CacheError>,
) -> bool {
    match before {
        CacheInstance::LocalCache(a) => {
            &&& r is Ok
            &&& after matches CacheInstance::LocalCache(b) && {
                &&& b.wf()
                &&& b.entries() == after_insert(a.entries(), local_key_of(msg.bucket@, msg.key@), msg.entry@, a.capacity())
                &&& b.capacity() == a.capacity()
                &&& b.ttl() == a.ttl()
            }
        },
        CacheInstance::Redis(_) => {
            &&& after == before
            &&& r matches Err(CacheError::FailedToSendMessage { reason }) && reason@ == REMOTE_NOT_DELIVERED@
        },
    }
}

/// What a get through a handle answers: from a local cache, the entry stored under the
/// message's key or a miss (a key it lacks is always a miss); from a remote one, a message
/// not delivered.
pub open spec fn get_answered(inst: CacheInstance, msg: GetCacheEntry, r: Result<CacheEntry, CacheError>) -> bool {
    match inst {
        CacheInstance::LocalCache(l) => {
            &&& r matches Ok(e) ==> find_entry(l.entries(), local_key_of(msg.bucket@, msg.key@)) == Some(e@)
            &&& find_entry(l.entries(), local_key_of(msg.bucket@, msg.key@)) is None ==> r is Err
            &&& r matches Err(e) ==> (e matches CacheError::FailedToGetKey { reason } && reason@ == KEY_NOT_PRESENT@)
        },
        CacheInstance::Redis(_) =>
            r matches Err(CacheError::FailedToSendMessage { reason }) && reason@ == REMOTE_NOT_DELIVERED@,
    }
}

impl CacheInstance {
    /// Whether the cache is in a state its operations accept.
    pub open spec fn wf(&self) -> bool {
        self matches CacheInstance::LocalCache(l) ==> l.wf()
    }

    /// Stores the message's entry in this cache, where it is a local one.
    pub fn send_put_message(&mut self, msg: PutCacheEntry) -> (r: Result<(), CacheError>)
        requires
            old(self).wf(),
        ensures
            final(self).wf(),
            put_delivered(*old(self), *final(self), msg, r),
    {
        match self {
            CacheInstance::LocalCache(l) => l.put(msg),
            CacheInstance::Redis(_) => Err(CacheError::FailedToSendMessage { reason: String::from_str(REMOTE_NOT_DELIVERED) }),
        }
    }

    /// Reads the message's entry from this cache, where it is a local one.
    pub fn send_get_message(&self, msg: &GetCacheEntry) -> (r: Result<CacheEntry, CacheError>)
        ensures
            get_answered(*self, *msg, r),
    {
        match self {
            CacheInstance::LocalCache(l) => l.get(msg),
            CacheInstance::Redis(_) => Err(CacheError::FailedToSendMessage { reason: String::from_str(REMOTE_NOT_DELIVERED) }),
        }
    }
}

/// What a cache of the registry is found by: the name the configuration gives it, or the
/// virtual host of a bucket that has settings of its own.
pub enum CacheScope {
    Named(String),
    Bucket(String),
}

pub enum ScopeView {
    Named(Seq<char>),
    Bucket(Seq<char>),
}

impl View for CacheScope {
    type V = ScopeView;

    open spec fn view(&self) -> ScopeView {
        match self {
            CacheScope::Named(n) => ScopeView::Named(n@),
            CacheScope::Bucket(h) => ScopeView::Bucket(h@),
        }
    }
}

impl CacheScope {
    /// Whether two scopes are the same.
    pub fn same_as(&self, other: &CacheScope) -> (r: bool)
        ensures
            r == (self@ == other@),
    {
        match (self, other) {
            (CacheScope::Named(a), CacheScope::Named(b)) => same_text(a.as_str(), b.as_str()),
            (CacheScope::Bucket(a), CacheScope::Bucket(b)) => same_text(a.as_str(), b.as_str()),
            _ => false,
        }
    }
}

/// The kind of cache that the settings name, where it is one this proxy offers.
pub open spec fn is_local_type(t: Seq<char>) -> bool {
    t == "local"@
}

pub open spec fn is_remote_type(t: Seq<char>) -> bool {
    t == "remote"@ || t == "redis"@
}

/// Whether a cache can be made from the settings.
pub open spec fn cache_config_valid(c: config::Caching) -> bool {
    match c.caching_type {
        None => false,
        Some(t) => if is_local_type(t@) {
            c.ttl matches Some(ttl) ==> ttl <= MAX_TTL_SECS
        } else if is_remote_type(t@) {
            c.host is Some && c.port is Some
        } else {
            false
        },
    }
}

/// Whether `inst` is the cache that the settings `c` make: an empty local store of the
/// given capacity and time to live, or a remote store at the given address.
pub open spec fn instance_of(c: config::Caching, inst: CacheInstance) -> bool {
    match inst {
        CacheInstance::LocalCache(l) => {
            &&& (c.caching_type matches Some(t) && is_local_type(t@))
            &&& l.wf()
            &&& l.entries().len() == 0
            &&& l.capacity() == (match c.capacity { Some(n) => n, None => DEFAULT_CAPACITY })
            &&& l.ttl() == (match c.ttl { Some(t) => t, None => DEFAULT_TTL_SECS })
        },
        CacheInstance::Redis(r) => {
            &&& (c.caching_type matches Some(t) && is_remote_type(t@))
            &&& (c.host matches Some(h) && r.host@ == h@)
            &&& c.port == Some(r.port)
            &&& r.ttl == (match c.ttl { Some(t) => t, None => DEFAULT_TTL_SECS })
        },
    }
}

/// Makes the cache that the settings describe.
fn make_cache(c: &config::Caching) -> (r: Result<CacheInstance, CacheInstantiationError>)
    ensures
        r matches Ok(inst) ==> cache_config_valid(*c) && instance_of(*c, inst),
        r is Err ==> !cache_config_valid(*c),
        c.caching_type is None ==> (r matches Err(CacheInstantiationError::MissingField { field_name })
            && field_name@ == "caching_type"@),
        c.caching_type matches Some(t) ==> (!is_local_type(t@) && !is_remote_type(t@)
            ==> (r matches Err(CacheInstantiationError::NotImplemented { cache_type }) && cache_type@ == t@)),
        c.caching_type matches Some(t) ==> (is_remote_type(t@) && c.host is None
            ==> (r matches Err(CacheInstantiationError::MissingField { field_name }) && field_name@ == "host"@)),
        c.caching_type matches Some(t) ==> (is_remote_type(t@) && c.host is Some && c.port is None
            ==> (r matches Err(CacheInstantiationError::MissingField { field_name }) && field_name@ == "port"@)),
{
    proof {
        reveal_strlit("local");
        reveal_strlit("remote");
        reveal_strlit("redis");
        assert("local"@.len() != "remote"@.len());
        assert("local"@[0] != "redis"@[0]);
        assert(!is_remote_type("local"@));
    }
    match &c.caching_type {
        None => Err(CacheInstantiationError::MissingField { field_name: String::from_str("caching_type") }),
        Some(t) => {
            if same_text(t.as_str(), "local") {
                match c.ttl {
                    Some(ttl) => if ttl > MAX_TTL_SECS {
                        return Err(CacheInstantiationError::InvalidField { field_name: String::from_str("ttl") });
                    },
                    None => {},
                }
                Ok(CacheInstance::LocalCache(LocalCache::new(c.capacity, c.ttl)))
            } else if same_text(t.as_str(), "remote") || same_text(t.as_str(), "redis") {
                match (&c.host, c.port) {
                    (None, _) => Err(CacheInstantiationError::MissingField { field_name: String::from_str("host") }),
                    (_, None) => Err(CacheInstantiationError::MissingField { field_name: String::from_str("port") }),
                    (Some(h), Some(p)) => Ok(CacheInstance::Redis(RedisCache::new(h.clone(), p, c.ttl))),
                }
            } else {
                Err(CacheInstantiationError::NotImplemented { cache_type: t.clone() })
            }
        },
    }
}

/// The caches that the named settings call for, in order.
pub open spec fn named_plan(configs: Seq<(String, config::Caching)>) -> Seq<(ScopeView, config::Caching)> {
    configs.map_values(|p: (String, config::Caching)| (ScopeView::Named(p.0@), p.1))
}

/// The caches that buckets with settings of their own call for, in order: one for each such
/// bucket, with the named settings it refers to overridden by its own.
pub open spec fn bucket_plan(
    configs: Seq<(String, config::Caching)>,
    buckets: Seq<(String, BucketConfiguration)>,
) -> Seq<(ScopeView, config::Caching)>
    decreases buckets.len(),
{
    if buckets.len() == 0 {
        Seq::empty()
    } else {
        let rest = bucket_plan(configs, buckets.drop_last());
        let b = buckets.last().1;
        match b.cache_override {
            Some(o) => rest.push((
                ScopeView::Bucket(b.host@),
                spec_effective_caching(
                    match b.cache_name { Some(n) => named_in(configs, n@), None => None },
                    Some(o),
                ).unwrap(),
            )),
            None => rest,
        }
    }
}

/// The entries of the plan whose settings make a cache.
pub open spec fn valid_part(plan: Seq<(ScopeView, config::Caching)>) -> Seq<(ScopeView, config::Caching)> {
    plan.filter(|p: (ScopeView, config::Caching)| cache_config_valid(p.1))
}

/// Whether the registry's caches are, one for one, those that `plan` describes.
pub open spec fn follows(caches: Seq<(CacheScope, CacheInstance)>, plan: Seq<(ScopeView, config::Caching)>) -> bool {
    &&& caches.len() == plan.len()
    &&& forall|i: int| 0 <= i < caches.len() ==> #[trigger] caches[i].0@ == plan[i].0 && instance_of(plan[i].1, caches[i].1)
}

/// The caches of the proxy, made once from the configuration. Caches are found by scope;
/// where two share a scope, the first one made is the one found.
pub struct Caching {
    caches: Vec<(CacheScope, CacheInstance)>,
}

proof fn lemma_filter_push(
    plan: Seq<(ScopeView, config::Caching)>,
    p: (ScopeView, config::Caching),
)
    ensures
        valid_part(plan.push(p)) == if cache_config_valid(p.1) {
            valid_part(plan).push(p)
        } else {
            valid_part(plan)
        },
{
    reveal(Seq::filter);
    assert(plan.push(p).drop_last() =~= plan);
}

impl Caching {
    /// The caches, in the order they were made.
    pub closed spec fn instances(&self) -> Seq<(CacheScope, CacheInstance)> {
        self.caches@
    }

    pub open spec fn len(&self) -> nat {
        self.instances().len()
    }

    /// Every cache is in a state its operations accept.
    pub open spec fn wf(&self) -> bool {
        forall|i: int| 0 <= i < self.len() ==> #[trigger] self.instances()[i].1.wf()
    }

    fn add_planned(
        caches: &mut Vec<(CacheScope, CacheInstance)>,
        scope: CacheScope,
        c: &config::Caching,
        Ghost(plan): Ghost<Seq<(ScopeView, config::Caching)>>,
    )
        requires
            follows(old(caches)@, valid_part(plan)),
        ensures
            follows(final(caches)@, valid_part(plan.push((scope@, *c)))),
    {
        proof {
            lemma_filter_push(plan, (scope@, *c));
        }
        match make_cache(c) {
            Ok(inst) => {
                caches.push((scope, inst));
                assert(follows(caches@, valid_part(plan.push((scope@, *c))))) by {
                    let n = old(caches)@.len();
                    assert forall|i: int| 0 <= i < caches@.len() implies #[trigger] caches@[i].0@ == valid_part(plan.push((scope@, *c)))[i].0
                        && instance_of(valid_part(plan.push((scope@, *c)))[i].1, caches@[i].1) by {
                        if i < n {
                            assert(caches@[i] == old(caches)@[i]);
                        }
                    }
                }
            },
            Err(_) => {},
        }
    }

    /// Makes a cache for each named setting and for each bucket with settings of its own
    /// (those it names overridden by its own). Settings from which no cache can be made are
    /// left out; the others are all there, in that order.
    pub fn new(configs: &Vec<(String, config::Caching)>, buckets: &Vec<(String, BucketConfiguration)>) -> (r: Self)
        ensures
            follows(r.instances(), valid_part(named_plan(configs@) + bucket_plan(configs@, buckets@))),
            r.wf(),
    {
        let mut caches: Vec<(CacheScope, CacheInstance)> = Vec::new();
        let mut i: usize = 0;
        assert(named_plan(configs@).subrange(0, 0) =~= Seq::<(ScopeView, config::Caching)>::empty());
        assert(valid_part(Seq::<(ScopeView, config::Caching)>::empty()) =~= Seq::<(ScopeView, config::Caching)>::empty()) by {
            reveal(Seq::filter);
        }
        while i < configs.len()
            invariant
                i <= configs@.len(),
                follows(caches@, valid_part(named_plan(configs@).subrange(0, i as int))),
            decreases configs@.len() - i,
        {
            let ghost prefix = named_plan(configs@).subrange(0, i as int);
            let scope = CacheScope::Named(configs[i].0.clone());
            Self::add_planned(&mut caches, scope, &configs[i].1, Ghost(prefix));
            assert(named_plan(configs@).subrange(0, i + 1) =~= prefix.push((scope@, configs@[i as int].1)));
            i = i + 1;
        }
        assert(named_plan(configs@).subrange(0, configs@.len() as int) =~= named_plan(configs@));
        let mut j: usize = 0;
        assert(buckets@.subrange(0, 0) =~= Seq::<(String, BucketConfiguration)>::empty());
        assert(named_plan(configs@) + bucket_plan(configs@, buckets@.subrange(0, 0)) =~= named_plan(configs@));
        while j < buckets.len()
            invariant
                j <= buckets@.len(),
                follows(caches@, valid_part(named_plan(configs@) + bucket_plan(configs@, buckets@.subrange(0, j as int)))),
            decreases buckets@.len() - j,
        {
            let ghost prefix = named_plan(configs@) + bucket_plan(configs@, buckets@.subrange(0, j as int));
            let b = &buckets[j].1;
            assert(buckets@.subrange(0, j + 1).drop_last() =~= buckets@.subrange(0, j as int));
            match &b.cache_override {
                Some(o) => {
                    let global = match (&b.cache_name) {
                        Some(n) => config::caching_named(configs, n.as_str()),
                        None => None,
                    };
                    let effective = config::effective_caching(global, Some(o));
                    match effective {
                        Some(c) => {
                            let scope = CacheScope::Bucket(b.host.clone());
                            Self::add_planned(&mut caches, scope, &c, Ghost(prefix));
                            assert(named_plan(configs@) + bucket_plan(configs@, buckets@.subrange(0, j + 1))
                                =~= prefix.push((scope@, c)));
                        },
                        None => {},
                    }
                },
                None => {
                    assert(named_plan(configs@) + bucket_plan(configs@, buckets@.subrange(0, j + 1)) =~= prefix);
                },
            }
            j = j + 1;
        }
        assert(buckets@.subrange(0, buckets@.len() as int) =~= buckets@);
        let r = Caching { caches };
        assert forall|i: int| 0 <= i < r.len() implies #[trigger] r.instances()[i].1.wf() by {
            let plan = valid_part(named_plan(configs@) + bucket_plan(configs@, buckets@));
            assert(r.instances()[i].0@ == plan[i].0 && instance_of(plan[i].1, r.instances()[i].1));
        }
        r
    }

    /// The position of the first cache found by `scope`.
    pub fn find_cache(&self, scope: &CacheScope) -> (r: Option<usize>)
        ensures
            match r {
                None => forall|i: int| 0 <= i < self.len() ==> #[trigger] self.instances()[i].0@ != scope@,
                Some(i) => i < self.len() && self.instances()[i as int].0@ == scope@
                    && forall|j: int| 0 <= j < i ==> #[trigger] self.instances()[j].0@ != scope@,
            },
    {
        let mut i: usize = 0;
        while i < self.caches.len()
            invariant
                i <= self.caches@.len(),
                forall|j: int| 0 <= j < i ==> #[trigger] self.caches@[j].0@ != scope@,
            decreases self.caches@.len() - i,
        {
            if self.caches[i].0.same_as(scope) {
                return Some(i);
            }
            i = i + 1;
        }
        None
    }

    /// The cache that the configuration names `name`.
    pub fn get_cache(&self, name: &str) -> (r: Option<&CacheInstance>)
        ensures
            match r {
                None => forall|i: int| 0 <= i < self.len() ==> #[trigger] self.instances()[i].0@ != ScopeView::Named(name@),
                Some(c) => exists|i: int| 0 <= i < self.len() && self.instances()[i].0@ == ScopeView::Named(name@)
                    && self.instances()[i].1 == *c
                    && forall|j: int| 0 <= j < i ==> #[trigger] self.instances()[j].0@ != ScopeView::Named(name@),
            },
    {
        let scope = CacheScope::Named(String::from_str(name));
        match self.find_cache(&scope) {
            Some(i) => Some(&self.caches[i].1),
            None => None,
        }
    }

    /// The position of the cache that `bucket` uses, as `cache_for_bucket` finds it.
    pub open spec fn spec_cache_for_bucket(&self, bucket: BucketConfiguration) -> Option<usize> {
        match bucket.cache_override {
            Some(_) => self.spec_find(ScopeView::Bucket(bucket.host@)),
            None => match bucket.cache_name {
                Some(n) => self.spec_find(ScopeView::Named(n@)),
                None => None,
            },
        }
    }

    /// The position of the cache that `bucket` uses: the one made for its own settings where
    /// it has some, else the one it names; none where it names none. The registry is not
    /// searched for a bucket that uses no cache.
    pub fn cache_for_bucket(&self, bucket: &BucketConfiguration) -> (r: Option<usize>)
        ensures
            r == self.spec_cache_for_bucket(*bucket),
    {
        match (&bucket.cache_override, &bucket.cache_name) {
            (Some(_), _) => {
                let r = self.find_cache(&CacheScope::Bucket(bucket.host.clone()));
                proof { self.lemma_find_unique(ScopeView::Bucket(bucket.host@), r); }
                r
            },
            (None, Some(n)) => {
                let r = self.find_cache(&CacheScope::Named(n.clone()));
                proof { self.lemma_find_unique(ScopeView::Named(n@), r); }
                r
            },
            (None, None) => None,
        }
    }

    /// The position of the first cache found by `scope`.
    pub open spec fn spec_find(&self, scope: ScopeView) -> Option<usize> {
        if exists|i: int| 0 <= i < self.len() && self.instances()[i].0@ == scope {
            Some(choose|i: usize| i < self.len() && self.instances()[i as int].0@ == scope
                && forall|j: int| 0 <= j < i ==> #[trigger] self.instances()[j].0@ != scope)
        } else {
            None
        }
    }

    proof fn lemma_find_unique(&self, scope: ScopeView, r: Option<usize>)
        requires
            match r {
                None => forall|i: int| 0 <= i < self.len() ==> #[trigger] self.instances()[i].0@ != scope,
                Some(i) => i < self.len() && self.instances()[i as int].0@ == scope
                    && forall|j: int| 0 <= j < i ==> #[trigger] self.instances()[j].0@ != scope,
            },
        ensures
            r == self.spec_find(scope),
    {
        match r {
            None => {},
            Some(i) => {
                assert(0 <= i < self.len() && self.instances()[i as int].0@ == scope);
                let k = choose|k: usize| k < self.len() && self.instances()[k as int].0@ == scope
                    && forall|j: int| 0 <= j < k ==> #[trigger] self.instances()[j].0@ != scope;
                if k < i {
                    assert(self.instances()[k as int].0@ != scope);
                } else if k > i {
                    assert(self.instances()[i as int].0@ != scope);
                }
            },
        }
    }

    /// The number of caches.
    pub fn count(&self) -> (r: usize)
        ensures
            r == self.len(),
    {
        self.caches.len()
    }

    /// The cache at position `i`.
    pub fn instance(&self, i: usize) -> (r: &CacheInstance)
        requires
            i < self.len(),
        ensures
            *r == self.instances()[i as int].1,
    {
        &self.caches[i].1
    }

    /// Stores the message's entry in the cache at position `i`, as its handle does; the
    /// other caches stay as they are.
    pub fn send_put_message(&mut self, i: usize, msg: PutCacheEntry) -> (r: Result<(), CacheError>)
        requires
            i < old(self).len(),
            old(self).wf(),
        ensures
            final(self).wf(),
            final(self).len() == old(self).len(),
            forall|j: int| 0 <= j < old(self).len() && j != i ==> #[trigger] final(self).instances()[j] == old(self).instances()[j],
            final(self).instances()[i as int].0 == old(self).instances()[i as int].0,
            put_delivered(old(self).instances()[i as int].1, final(self).instances()[i as int].1, msg, r),
    {
        assert(self.caches@[i as int].1.wf());
        let r = self.caches[i].1.send_put_message(msg);
        assert forall|j: int| 0 <= j < self.len() implies #[trigger] self.instances()[j].1.wf() by {
            if j != i {
                assert(self.instances()[j] == old(self).instances()[j]);
            }
        }
        r
    }

    /// Reads the message's entry from the cache at position `i`, as its handle does.
    pub fn send_get_message(&self, i: usize, msg: &GetCacheEntry) -> (r: Result<CacheEntry, CacheError>)
        requires
            i < self.len(),
        ensures
            get_answered(self.instances()[i as int].1, *msg, r),
    {
        self.caches[i].1.send_get_message(msg)
    }

    /// Leaves out the cache at position `i`, as for a remote store that could not be reached;
    /// the caches after it move down by one.
    pub fn remove_cache(&mut self, i: usize)
        requires
            i < old(self).len(),
            old(self).wf(),
        ensures
            final(self).wf(),
            final(self).instances() == old(self).instances().remove(i as int),
    {
        self.caches.remove(i);
        assert forall|j: int| 0 <= j < self.len() implies #[trigger] self.instances()[j].1.wf() by {
            if j < i {
                assert(self.instances()[j] == old(self).instances()[j]);
            } else {
                assert(self.instances()[j] == old(self).instances()[j + 1]);
            }
        }
    }
}

} // verus!
