use vstd::prelude::*;

use crate::gcs::GetObjectResult;

verus! {

/// The header list of an entry, as pairs of character sequences.
pub open spec fn headers_view(h: Seq<(String, String)>) -> Seq<(Seq<char>, Seq<char>)> {
    h.map_values(|p: (String, String)| (p.0@, p.1@))
}

/// What a cached object holds, as mathematical values.
pub struct EntryView {
    pub body: Seq<u8>,
    pub headers: Seq<(Seq<char>, Seq<char>)>,
}

/// An immutable cached object: its body bytes and its headers, as name and value pairs in
/// the order they came; where a name comes twice, the answer built from the entry carries
/// the later value.
#[derive(Clone)]
pub struct CacheEntry {
    pub body: Vec<u8>,
    pub headers: Vec<(String, String)>,
}

impl View for CacheEntry {
    type V = EntryView;

    open spec fn view(&self) -> EntryView {
        EntryView { body: self.body@, headers: headers_view(self.headers@) }
    }
}

/// Copies a byte buffer element by element.
pub fn copy_bytes(b: &Vec<u8>) -> (r: Vec<u8>)
    ensures
        r@ == b@,
{
    let mut r: Vec<u8> = Vec::with_capacity(b.len());
    let mut i: usize = 0;
    while i < b.len()
        invariant
            i <= b@.len(),
            r@ == b@.subrange(0, i as int),
        decreases b@.len() - i,
    {
        r.push(b[i]);
        i = i + 1;
    }
    assert(r@ =~= b@);
    r
}

/// Copies a header list pair by pair.
pub fn copy_headers(h: &Vec<(String, String)>) -> (r: Vec<(String, String)>)
    ensures
        r@ == h@,
{
    let mut r: Vec<(String, String)> = Vec::with_capacity(h.len());
    let mut i: usize = 0;
    while i < h.len()
        invariant
            i <= h@.len(),
            r@ =~= h@.subrange(0, i as int),
        decreases h@.len() - i,
    {
        let name = h[i].0.clone();
        let value = h[i].1.clone();
        r.push((name, value));
        i = i + 1;
    }
    r
}

impl CacheEntry {
    pub fn from_body_and_headers(body: Vec<u8>, headers: Vec<(String, String)>) -> (r: Self)
        ensures
            r.body@ == body@,
            r.headers@ == headers@,
    {
        CacheEntry { body, headers }
    }

    /// The entry as an object of the origin store, with the same body and headers.
    pub fn to_get_object_result(self) -> (r: GetObjectResult)
        ensures
            r.body@ == self.body@,
            r.headers@ == self.headers@,
    {
        GetObjectResult { body: self.body, headers: self.headers }
    }

    /// A copy of this entry with equal body and headers.
    pub fn duplicate(&self) -> (r: Self)
        ensures
            r@ == self@,
    {
        CacheEntry { body: copy_bytes(&self.body), headers: copy_headers(&self.headers) }
    }
}

/// Why a cache operation did not succeed. Every one of them is treated as a miss.
pub enum CacheError {
    /// The client of a remote store could not be made: bad address, refused connection.
    FailedToCreateCacheClient { reason: String },
    /// A stored payload could not be encoded or decoded.
    SerdeError { reason: String },
    /// The key is absent, or reading it failed.
    FailedToGetKey { reason: String },
    /// The request could not reach the cache's serialized execution context.
    FailedToSendMessage { reason: String },
}

/// A request to store `entry` under `key` of `bucket`.
pub struct PutCacheEntry {
    pub bucket: String,
    pub key: String,
    pub entry: CacheEntry,
}

/// A request for the entry stored under `key` of `bucket`.
pub struct GetCacheEntry {
    pub bucket: String,
    pub key: String,
}

} // verus!
