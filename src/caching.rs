pub mod caching;
pub mod local;
pub mod messages;
pub mod redis;

use vstd::prelude::*;

use crate::caching::local::{find_entry, lemma_put_then_get, LocalCache};
use crate::caching::messages::EntryView;
use crate::gcs::GetObjectResult;

verus! {

/// A cache of objects keyed by object name alone, for a proxy that serves one bucket.
pub trait GCSObjectCache: Sized {
    /// Whether the cache is in a state its operations accept.
    spec fn inv(&self) -> bool;

    /// Whether the cache, as it stands, may answer a lookup of `object_name` with `object`.
    spec fn may_answer(&self, object_name: Seq<char>, object: EntryView) -> bool;

    /// Whether the cache keeps `object` under `object_name`, as far as it keeps anything.
    spec fn keeps(&self, object_name: Seq<char>, object: EntryView) -> bool;

    /// Stores `object` under `object_name`, replacing what that name held.
    fn put(&mut self, object_name: &str, object: GetObjectResult)
        requires
            old(self).inv(),
        ensures
            final(self).inv(),
            final(self).keeps(object_name@, object@),
    ;

    fn get(&self, object_name: &str) -> (r: Option<GetObjectResult>)
        requires
            self.inv(),
        ensures
            r matches Some(o) ==> self.may_answer(object_name@, o@),
    ;
}

/// A cache that keeps nothing: every lookup misses.
pub struct NoCaching {}

impl NoCaching {
    pub fn new() -> (r: Self) {
        NoCaching {}
    }
}

impl GCSObjectCache for NoCaching {
    open spec fn inv(&self) -> bool {
        true
    }

    open spec fn may_answer(&self, object_name: Seq<char>, object: EntryView) -> bool {
        false
    }

    open spec fn keeps(&self, object_name: Seq<char>, object: EntryView) -> bool {
        true
    }

    fn put(&mut self, _object_name: &str, _object: GetObjectResult) {
    }

    fn get(&self, _object_name: &str) -> (r: Option<GetObjectResult>) {
        None
    }
}

impl GCSObjectCache for LocalCache {
    open spec fn inv(&self) -> bool {
        self.wf()
    }

    open spec fn may_answer(&self, object_name: Seq<char>, object: EntryView) -> bool {
        find_entry(self.entries(), object_name) == Some(object)
    }

    /// A store of capacity 0 keeps nothing; any other keeps the object last put.
    open spec fn keeps(&self, object_name: Seq<char>, object: EntryView) -> bool {
        self.capacity() == 0 || find_entry(self.entries(), object_name) == Some(object)
    }

    fn put(&mut self, object_name: &str, object: GetObjectResult) {
        let ghost before = self.entries();
        let ghost capacity = self.capacity();
        self.put_object(object_name, object);
        proof {
            if capacity >= 1 {
                lemma_put_then_get(before, object_name@, object@, capacity);
            }
        }
    }

    fn get(&self, object_name: &str) -> (r: Option<GetObjectResult>) {
        self.get_object(object_name)
    }
}

} // verus!
