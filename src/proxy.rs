//! The decisions taken for one request: which cache to ask, when to go to the origin store,
//! what to store back, and what to answer. The caller performs each action and hands back
//! what came of it.

use vstd::prelude::*;
use vstd::string::{StringExecFns, StringSliceAdditionalSpecFns};

use crate::caching::caching::Caching;
use crate::caching::messages::{copy_headers, headers_view, CacheEntry, CacheError, EntryView, GetCacheEntry, PutCacheEntry};
use crate::config::BucketConfiguration;
use crate::gcs::{GCSClientError, GetObjectResult};

verus! {

/// The object served for a directory path when the bucket names none.
pub const DEFAULT_INDEX: &'static str = "index.html";

/// The object served for a missing one when the bucket names none.
pub const DEFAULT_NOT_FOUND: &'static str = "404.html";

/// The body of the answer for a missing object when the bucket's own page is missing too.
pub const NOT_FOUND_BODY: &'static str = "not found.";

/// The body of the answer when the origin store failed.
pub const INTERNAL_ERROR_BODY: &'static str = "failed to get gcs object";

/// An answer to a client.
pub struct Response {
    pub status: u16,
    pub body: Vec<u8>,
    pub headers: Vec<(String, String)>,
}

pub struct ResponseView {
    pub status: u16,
    pub body: Seq<u8>,
    pub headers: Seq<(Seq<char>, Seq<char>)>,
}

impl View for Response {
    type V = ResponseView;

    open spec fn view(&self) -> ResponseView {
        ResponseView { status: self.status, body: self.body@, headers: headers_view(self.headers@) }
    }
}

/// The path without one leading slash.
pub open spec fn trimmed_path(path: Seq<char>) -> Seq<char> {
    if path.len() > 0 && path[0] == '/' { path.drop_first() } else { path }
}

/// The object that a request path names: the path without its leading slash, with the index
/// object appended where that leaves nothing or a directory.
pub open spec fn object_name_of(path: Seq<char>, index: Seq<char>) -> Seq<char> {
    let p = trimmed_path(path);
    if p.len() == 0 || p.last() == '/' { p + index } else { p }
}

/// The index object of a bucket.
pub open spec fn index_of(b: BucketConfiguration) -> Seq<char> {
    match b.index {
        Some(i) => i@,
        None => DEFAULT_INDEX@,
    }
}

/// The object served by a bucket in place of a missing one.
pub open spec fn not_found_of(b: BucketConfiguration) -> Seq<char> {
    match b.not_found {
        Some(n) => n@,
        None => DEFAULT_NOT_FOUND@,
    }
}

/// The headers a bucket appends to every successful answer.
pub open spec fn extra_headers_of(b: BucketConfiguration) -> Seq<(Seq<char>, Seq<char>)> {
    match b.headers {
        Some(h) => headers_view(h@),
        None => Seq::empty(),
    }
}

/// An answer that carries an object: its body, its headers and then the bucket's.
pub open spec fn object_response(status: u16, o: EntryView, extra: Seq<(Seq<char>, Seq<char>)>) -> ResponseView {
    ResponseView { status, body: o.body, headers: o.headers + extra }
}

pub open spec fn not_found_view() -> ResponseView {
    ResponseView { status: 404, body: NOT_FOUND_BODY.spec_bytes(), headers: Seq::empty() }
}

pub open spec fn internal_error_view() -> ResponseView {
    ResponseView { status: 500, body: INTERNAL_ERROR_BODY.spec_bytes(), headers: Seq::empty() }
}

/// The object that the request path `path` names, with `index` as the index object.
pub fn object_name_for_path(path: &str, index: &str) -> (r: String)
    ensures
        r@ == object_name_of(path@, index@),
{
    let n = path.unicode_len();
    let p: &str = if n > 0 && path.get_char(0) == '/' {
        path.substring_char(1, n)
    } else {
        path
    };
    assert(p@ == trimmed_path(path@));
    let m = p.unicode_len();
    let mut r = String::from_str(p);
    if m == 0 || p.get_char(m - 1) == '/' {
        r.append(index);
    }
    r
}

/// The headers that `config` appends to every successful answer.
fn extra_headers(config: &BucketConfiguration) -> (r: Vec<(String, String)>)
    ensures
        headers_view(r@) == extra_headers_of(*config),
{
    match &config.headers {
        Some(h) => copy_headers(h),
        None => Vec::new(),
    }
}

/// An answer with status `status` that carries `object`, with `extra` after its headers.
fn respond_with_object(status: u16, object: GetObjectResult, extra: &Vec<(String, String)>) -> (r: Response)
    ensures
        r@ == object_response(status, object@, headers_view(extra@)),
{
    let mut headers = object.headers;
    let ghost own = headers@;
    let mut more = copy_headers(extra);
    headers.append(&mut more);
    assert(headers_view(headers@) =~= headers_view(own) + headers_view(extra@));
    Response { status, body: object.body, headers }
}

/// The successful answer that carries `object` for a bucket of `config`.
pub fn response_for_object(config: &BucketConfiguration, object: GetObjectResult) -> (r: Response)
    ensures
        r@ == object_response(200, object@, extra_headers_of(*config)),
{
    let extra = extra_headers(config);
    respond_with_object(200, object, &extra)
}

/// The fixed answer for a missing object.
pub fn not_found_response() -> (r: Response)
    ensures
        r@ == not_found_view(),
{
    let r = Response { status: 404, body: NOT_FOUND_BODY.as_bytes_vec(), headers: Vec::new() };
    assert(headers_view(r.headers@) =~= Seq::empty());
    r
}

/// The fixed answer for a failure of the origin store.
pub fn internal_error_response() -> (r: Response)
    ensures
        r@ == internal_error_view(),
{
    let r = Response { status: 500, body: INTERNAL_ERROR_BODY.as_bytes_vec(), headers: Vec::new() };
    assert(headers_view(r.headers@) =~= Seq::empty());
    r
}

/// Where a request stands.
pub enum Phase {
    /// Waiting for the cache's answer.
    AwaitCache,
    /// Waiting for the origin store's answer for the object asked.
    AwaitObject,
    /// Waiting for the origin store's answer for the bucket's not-found object.
    AwaitNotFoundObject,
    /// Answered.
    Done,
}

/// What came of the last action.
pub enum Event {
    CacheReply(Result<CacheEntry, CacheError>),
    ObjectReply(Result<GetObjectResult, GCSClientError>),
}

/// What the caller is to do next.
pub enum Action {
    /// Ask the cache at position `cache` of the registry for the entry that `get` names.
    CacheGet { cache: usize, get: GetCacheEntry },
    /// Fetch `object` of `bucket` from the origin store.
    FetchObject { bucket: String, object: String },
    /// Answer with `response` now, and store the entry of `put` in the cache at position
    /// `cache` without making the answer wait for it or depend on it.
    CachePut { cache: usize, put: PutCacheEntry, response: Response },
    /// Answer with `response`; the request is over.
    Respond { response: Response },
}

pub enum ActionView {
    CacheGet { cache: usize, bucket: Seq<char>, key: Seq<char> },
    FetchObject { bucket: Seq<char>, object: Seq<char> },
    CachePut { cache: usize, bucket: Seq<char>, key: Seq<char>, entry: EntryView, response: ResponseView },
    Respond { response: ResponseView },
}

impl View for Action {
    type V = ActionView;

    open spec fn view(&self) -> ActionView {
        match self {
            Action::CacheGet { cache, get } => ActionView::CacheGet { cache: *cache, bucket: get.bucket@, key: get.key@ },
            Action::FetchObject { bucket, object } => ActionView::FetchObject { bucket: bucket@, object: object@ },
            Action::CachePut { cache, put, response } => ActionView::CachePut {
                cache: *cache,
                bucket: put.bucket@,
                key: put.key@,
                entry: put.entry@,
                response: response@,
            },
            Action::Respond { response } => ActionView::Respond { response: response@ },
        }
    }
}

/// One request on its way through the cache and the origin store.
pub struct ProxyRequest {
    pub bucket_name: String,
    pub object_name: String,
    pub not_found_name: String,
    pub extra_headers: Vec<(String, String)>,
    /// The position of the bucket's cache in the registry, where it has one.
    pub cache: Option<usize>,
    pub phase: Phase,
}

/// The phase that a request enters, and the action it asks for, when `e` comes in `s`.
/// A cache hit is answered from the entry; any failure of the cache sends the request to
/// the origin store; an object found there is answered and stored back; a missing one is
/// replaced by the bucket's not-found object under status 404, or by a fixed 404 answer
/// where that one is missing too; any other failure of the origin store gives a fixed 500
/// answer. An event that the phase does not wait for gives the 500 answer too.
pub open spec fn next_step(s: ProxyRequest, e: Event) -> (Phase, ActionView) {
    let extra = headers_view(s.extra_headers@);
    match (s.phase, e) {
        (Phase::AwaitCache, Event::CacheReply(Ok(entry))) =>
            (Phase::Done, ActionView::Respond { response: object_response(200, entry@, extra) }),
        (Phase::AwaitCache, Event::CacheReply(Err(_))) =>
            (Phase::AwaitObject, ActionView::FetchObject { bucket: s.bucket_name@, object: s.object_name@ }),
        (Phase::AwaitObject, Event::ObjectReply(Ok(o))) => (Phase::Done, match s.cache {
            Some(i) => ActionView::CachePut {
                cache: i,
                bucket: s.bucket_name@,
                key: s.object_name@,
                entry: o@,
                response: object_response(200, o@, extra),
            },
            None => ActionView::Respond { response: object_response(200, o@, extra) },
        }),
        (Phase::AwaitObject, Event::ObjectReply(Err(GCSClientError::ObjectNotFound))) =>
            (Phase::AwaitNotFoundObject, ActionView::FetchObject { bucket: s.bucket_name@, object: s.not_found_name@ }),
        (Phase::AwaitObject, Event::ObjectReply(Err(_))) =>
            (Phase::Done, ActionView::Respond { response: internal_error_view() }),
        (Phase::AwaitNotFoundObject, Event::ObjectReply(Ok(o))) =>
            (Phase::Done, ActionView::Respond { response: object_response(404, o@, extra) }),
        (Phase::AwaitNotFoundObject, Event::ObjectReply(Err(_))) =>
            (Phase::Done, ActionView::Respond { response: not_found_view() }),
        _ => (Phase::Done, ActionView::Respond { response: internal_error_view() }),
    }
}

impl ProxyRequest {
    /// Begins a request for `path` of a bucket of `config` named `bucket_name`: it asks the
    /// bucket's cache where the registry has one, and goes to the origin store otherwise.
    pub fn start(config: &BucketConfiguration, bucket_name: &str, path: &str, registry: &Caching) -> (r: (ProxyRequest, Action))
        ensures
            r.0.bucket_name@ == bucket_name@,
            r.0.object_name@ == object_name_of(path@, index_of(*config)),
            r.0.not_found_name@ == not_found_of(*config),
            headers_view(r.0.extra_headers@) == extra_headers_of(*config),
            r.0.cache == registry.spec_cache_for_bucket(*config),
            match r.0.cache {
                Some(i) => r.0.phase == Phase::AwaitCache
                    && r.1@ == (ActionView::CacheGet { cache: i, bucket: bucket_name@, key: r.0.object_name@ }),
                None => r.0.phase == Phase::AwaitObject
                    && r.1@ == (ActionView::FetchObject { bucket: bucket_name@, object: r.0.object_name@ }),
            },
    {
        let object_name = match &config.index {
            Some(i) => object_name_for_path(path, i.as_str()),
            None => object_name_for_path(path, DEFAULT_INDEX),
        };
        let not_found_name = match &config.not_found {
            Some(n) => n.clone(),
            None => String::from_str(DEFAULT_NOT_FOUND),
        };
        let cache = registry.cache_for_bucket(config);
        let (phase, action) = match cache {
            Some(i) => (Phase::AwaitCache, Action::CacheGet {
                cache: i,
                get: GetCacheEntry { bucket: String::from_str(bucket_name), key: object_name.clone() },
            }),
            None => (Phase::AwaitObject, Action::FetchObject {
                bucket: String::from_str(bucket_name),
                object: object_name.clone(),
            }),
        };
        let req = ProxyRequest {
            bucket_name: String::from_str(bucket_name),
            object_name,
            not_found_name,
            extra_headers: extra_headers(config),
            cache,
            phase,
        };
        (req, action)
    }

    /// Takes what came of the last action and says what to do next.
    pub fn step(&mut self, event: Event) -> (a: Action)
        ensures
            (final(self).phase, a@) == next_step(*old(self), event),
            final(self).bucket_name == old(self).bucket_name,
            final(self).object_name == old(self).object_name,
            final(self).not_found_name == old(self).not_found_name,
            final(self).extra_headers == old(self).extra_headers,
            final(self).cache == old(self).cache,
    {
        match (&self.phase, event) {
            (Phase::AwaitCache, Event::CacheReply(Ok(entry))) => {
                self.phase = Phase::Done;
                Action::Respond { response: respond_with_object(200, entry.to_get_object_result(), &self.extra_headers) }
            },
            (Phase::AwaitCache, Event::CacheReply(Err(_))) => {
                self.phase = Phase::AwaitObject;
                Action::FetchObject { bucket: self.bucket_name.clone(), object: self.object_name.clone() }
            },
            (Phase::AwaitObject, Event::ObjectReply(Ok(o))) => {
                self.phase = Phase::Done;
                match self.cache {
                    Some(i) => {
                        let entry = CacheEntry::from_body_and_headers(
                            crate::caching::messages::copy_bytes(&o.body),
                            copy_headers(&o.headers),
                        );
                        let msg = PutCacheEntry {
                            bucket: self.bucket_name.clone(),
                            key: self.object_name.clone(),
                            entry,
                        };
                        Action::CachePut { cache: i, put: msg, response: respond_with_object(200, o, &self.extra_headers) }
                    },
                    None => Action::Respond { response: respond_with_object(200, o, &self.extra_headers) },
                }
            },
            (Phase::AwaitObject, Event::ObjectReply(Err(GCSClientError::ObjectNotFound))) => {
                self.phase = Phase::AwaitNotFoundObject;
                Action::FetchObject { bucket: self.bucket_name.clone(), object: self.not_found_name.clone() }
            },
            (Phase::AwaitObject, Event::ObjectReply(Err(_))) => {
                self.phase = Phase::Done;
                Action::Respond { response: internal_error_response() }
            },
            (Phase::AwaitNotFoundObject, Event::ObjectReply(Ok(o))) => {
                self.phase = Phase::Done;
                Action::Respond { response: respond_with_object(404, o, &self.extra_headers) }
            },
            (Phase::AwaitNotFoundObject, Event::ObjectReply(Err(_))) => {
                self.phase = Phase::Done;
                Action::Respond { response: not_found_response() }
            },
            _ => {
                self.phase = Phase::Done;
                Action::Respond { response: internal_error_response() }
            },
        }
    }
}

} // verus!
