use vstd::prelude::*;
use vstd::string::StringExecFns;

use crate::caching::messages::{headers_view, EntryView};

verus! {

/// The address that every object is fetched from; the bucket goes in the `Host` header.
pub const STORAGE_ENDPOINT: &'static str = "https://c.storage.googleapis.com/";

/// The access scope asked of the authenticator.
pub const STORAGE_SCOPE: &'static str = "https://www.googleapis.com/auth/devstorage.full_control";

/// Why an object could not be had from the origin store.
pub enum GCSClientError {
    FailedToReadAccountKey { details: String },
    FailedToAuthToServiceAccount { details: String },
    OAuthError { details: String },
    RequestFailed { details: String },
    ObjectNotFound,
}

/// An object as the origin store hands it out: its bytes and its response headers.
#[derive(Clone)]
pub struct GetObjectResult {
    pub body: Vec<u8>,
    pub headers: Vec<(String, String)>,
}

impl View for GetObjectResult {
    type V = EntryView;

    open spec fn view(&self) -> EntryView {
        EntryView { body: self.body@, headers: headers_view(self.headers@) }
    }
}

impl GetObjectResult {
    /// The object that an answer of the origin store carries: `ObjectNotFound` for status
    /// 404, else its headers and body.
    pub fn new(status: u16, headers: Vec<(String, String)>, body: Vec<u8>) -> (r: Result<Self, GCSClientError>)
        ensures
            status == 404 ==> r matches Err(GCSClientError::ObjectNotFound),
            status != 404 ==> (r matches Ok(o) && o.body@ == body@ && o.headers@ == headers@),
    {
        if status == 404 {
            return Err(GCSClientError::ObjectNotFound);
        }
        Ok(GetObjectResult { body, headers })
    }
}

/// The address from which the object `object` is fetched.
pub fn object_url(object: &str) -> (r: String)
    ensures
        r@ == STORAGE_ENDPOINT@ + object@,
{
    let mut r = String::from_str(STORAGE_ENDPOINT);
    r.append(object);
    r
}

} // verus!
