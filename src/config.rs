use vstd::prelude::*;

use crate::address::{dotted_quad, parsed_bytes, split_dots};
use crate::text::same_text;

verus! {

/// The settings of the whole proxy, as read from its configuration file.
pub struct Config {
    pub service_account_key: Option<String>,
    pub service_account_key_file: Option<String>,
    pub bind_address: Option<String>,
    pub port: Option<u16>,
    /// The named caches, each with its settings; names are looked up first match first.
    pub caching: Option<Vec<(String, Caching)>>,
    /// The served buckets, each under a name of the configuration's own; a host is looked up
    /// first match first.
    pub buckets: Option<Vec<(String, BucketConfiguration)>>,
}

/// How the objects of one bucket are served.
pub struct BucketConfiguration {
    /// The virtual host whose requests go to this bucket.
    pub host: String,
    /// The bucket's name in the origin store.
    pub bucket: Option<String>,
    /// The object served for a directory path; `index.html` when absent.
    pub index: Option<String>,
    /// The object served when the requested one does not exist; `404.html` when absent.
    pub not_found: Option<String>,
    /// The named cache that this bucket uses.
    pub cache_name: Option<String>,
    /// Headers appended to every successful response, in order.
    pub headers: Option<Vec<(String, String)>>,
    /// Settings of this bucket's own that replace those of the named cache, field by field.
    pub cache_override: Option<Caching>,
}

/// The address the proxy listens on when the configuration gives none.
pub const DEFAULT_BIND_ADDRESS: &'static str = "0.0.0.0";

/// The settings of one cache. Every field may be absent, so that a partial set can
/// override a full one.
pub struct Caching {
    /// `local` or `remote` (also written `redis`).
    pub caching_type: Option<String>,
    /// Time to live of an entry, in seconds.
    pub ttl: Option<u64>,
    /// Most entries held at once, for a local cache.
    pub capacity: Option<usize>,
    /// Address of the store, for a remote cache.
    pub host: Option<String>,
    pub port: Option<u16>,
}

/// The settings of one rate limiter.
pub struct RateLimitingConfiguration {
    pub rate_limiting_type: Option<String>,
}

/// The field of the override where it is set, else the field of the base.
pub open spec fn pick<T>(over: Option<T>, base: Option<T>) -> Option<T> {
    if over is Some { over } else { base }
}

fn pick_string(over: &Option<String>, base: &Option<String>) -> (r: Option<String>)
    ensures
        r == pick(*over, *base),
{
    match over {
        Some(s) => Some(s.clone()),
        None => match base {
            Some(s) => Some(s.clone()),
            None => None,
        },
    }
}

fn pick_copy<T: Copy>(over: Option<T>, base: Option<T>) -> (r: Option<T>)
    ensures
        r == pick(over, base),
{
    match over {
        Some(v) => Some(v),
        None => base,
    }
}

impl Caching {
    /// These settings with every field that `over` sets replaced by its value there.
    pub open spec fn spec_overridden_by(self, over: Caching) -> Caching {
        Caching {
            caching_type: pick(over.caching_type, self.caching_type),
            ttl: pick(over.ttl, self.ttl),
            capacity: pick(over.capacity, self.capacity),
            host: pick(over.host, self.host),
            port: pick(over.port, self.port),
        }
    }

    /// These settings with every field that `over` sets replaced by its value there; the
    /// fields that `over` leaves absent keep their value here.
    pub fn overridden_by(&self, over: &Caching) -> (r: Caching)
        ensures
            r == self.spec_overridden_by(*over),
    {
        Caching {
            caching_type: pick_string(&over.caching_type, &self.caching_type),
            ttl: pick_copy(over.ttl, self.ttl),
            capacity: pick_copy(over.capacity, self.capacity),
            host: pick_string(&over.host, &self.host),
            port: pick_copy(over.port, self.port),
        }
    }

    /// A copy of these settings.
    pub fn duplicate(&self) -> (r: Caching)
        ensures
            r == *self,
    {
        Caching {
            caching_type: pick_string(&self.caching_type, &None),
            ttl: self.ttl,
            capacity: self.capacity,
            host: pick_string(&self.host, &None),
            port: self.port,
        }
    }
}

/// The settings that a bucket's cache takes: the named settings overridden by the bucket's
/// own, either one alone where the other is absent, and none where both are.
pub open spec fn spec_effective_caching(global: Option<Caching>, over: Option<Caching>) -> Option<Caching> {
    match (global, over) {
        (Some(g), Some(o)) => Some(g.spec_overridden_by(o)),
        (Some(g), None) => Some(g),
        (None, Some(o)) => Some(o),
        (None, None) => None,
    }
}

pub fn effective_caching(global: Option<&Caching>, over: Option<&Caching>) -> (r: Option<Caching>)
    ensures
        r == spec_effective_caching(
            match global { Some(g) => Some(*g), None => None },
            match over { Some(o) => Some(*o), None => None },
        ),
{
    match (global, over) {
        (Some(g), Some(o)) => Some(g.overridden_by(o)),
        (Some(g), None) => Some(g.duplicate()),
        (None, Some(o)) => Some(o.duplicate()),
        (None, None) => None,
    }
}

/// The settings named `name` in `caches`: those of the first entry of that name.
pub open spec fn named_in(caches: Seq<(String, Caching)>, name: Seq<char>) -> Option<Caching>
    decreases caches.len(),
{
    if caches.len() == 0 {
        None
    } else if caches[0].0@ == name {
        Some(caches[0].1)
    } else {
        named_in(caches.drop_first(), name)
    }
}

/// The settings named `name` in `caches`.
pub fn caching_named<'a>(caches: &'a Vec<(String, Caching)>, name: &str) -> (r: Option<&'a Caching>)
    ensures
        (match r { Some(c) => Some(*c), None => None }) == named_in(caches@, name@),
{
    let mut i: usize = 0;
    assert(caches@.subrange(0, caches@.len() as int) =~= caches@);
    while i < caches.len()
        invariant
            i <= caches@.len(),
            named_in(caches@, name@) == named_in(caches@.subrange(i as int, caches@.len() as int), name@),
        decreases caches@.len() - i,
    {
        let ghost rest = caches@.subrange(i as int, caches@.len() as int);
        assert(rest.drop_first() =~= caches@.subrange(i + 1, caches@.len() as int));
        if same_text(caches[i].0.as_str(), name) {
            return Some(&caches[i].1);
        }
        i = i + 1;
    }
    None
}

impl Config {
    /// The configuration of the first bucket served for the virtual host `host`.
    pub fn bucket_configuration_by_host(&self, host: &str) -> (r: Option<&BucketConfiguration>)
        ensures
            match self.buckets {
                None => r is None,
                Some(bs) => match r {
                    None => forall|i: int| 0 <= i < bs@.len() ==> #[trigger] bs@[i].1.host@ != host@,
                    Some(b) => exists|i: int|
                        0 <= i < bs@.len() && bs@[i].1 == *b && b.host@ == host@
                            && forall|j: int| 0 <= j < i ==> #[trigger] bs@[j].1.host@ != host@,
                },
            },
    {
        match self.buckets.as_ref() {
            None => None,
            Some(buckets) => {
                let mut i: usize = 0;
                while i < buckets.len()
                    invariant
                        self.buckets == Some(*buckets),
                        i <= buckets@.len(),
                        forall|j: int| 0 <= j < i ==> #[trigger] buckets@[j].1.host@ != host@,
                    decreases buckets@.len() - i,
                {
                    if same_text(buckets[i].1.host.as_str(), host) {
                        assert(buckets@[i as int].1 == buckets[i as int].1);
                        return Some(&buckets[i].1);
                    }
                    i = i + 1;
                }
                None
            },
        }
    }

    /// The text of the listening address.
    pub open spec fn bind_text(&self) -> Seq<char> {
        match self.bind_address {
            Some(a) => a@,
            None => DEFAULT_BIND_ADDRESS@,
        }
    }

    /// The listening address as four bytes: those of the dot-separated parts of the bind
    /// address that read as a byte, where there are exactly four of them.
    pub fn ip_addr(&self) -> (r: Option<[u8; 4]>)
        ensures
            match r {
                Some(a) => a@ == parsed_bytes(split_dots(self.bind_text())),
                None => parsed_bytes(split_dots(self.bind_text())).len() != 4,
            },
    {
        match &self.bind_address {
            Some(a) => dotted_quad(a.as_str()),
            None => dotted_quad(DEFAULT_BIND_ADDRESS),
        }
    }

    /// The settings of the cache that `bucket` uses: the cache it names, overridden by the
    /// bucket's own settings; none where neither exists.
    pub fn caching_for_bucket(&self, bucket: &BucketConfiguration) -> (r: Option<Caching>)
        ensures
            r == spec_effective_caching(
                match (self.caching, bucket.cache_name) {
                    (Some(cs), Some(n)) => named_in(cs@, n@),
                    _ => None,
                },
                bucket.cache_override,
            ),
    {
        let global = match (&self.caching, &bucket.cache_name) {
            (Some(cs), Some(n)) => caching_named(cs, n.as_str()),
            _ => None,
        };
        effective_caching(global, bucket.cache_override.as_ref())
    }
}

} // verus!
