//! Rewrites an object's metadata: a PATCH carrying the changed fields as
//! JSON, answered by the full metadata record.

use vstd::prelude::*;
use vstd::utf8::encode_utf8;

use crate::Method;
use crate::api::JsonError;
use crate::api::json::Send;
use crate::header::content_type_name;

verus! {

/// Names the object to patch and takes the changed fields.
pub fn builder(bucket_name: String, object_name: String, request: Request) -> (b: Builder)
    ensures
        b.bucket_name@ == bucket_name@,
        b.object_name@ == object_name@,
        b.request == request,
{
    Builder { bucket_name, object_name, request }
}

pub struct Builder {
    pub bucket_name: String,
    pub object_name: String,
    pub request: Request,
}

impl Builder {
    /// Builds the PATCH request around the serialised form of the changed
    /// fields, and the machine that validates, collects and decodes its
    /// response.  A failed serialisation resolves on the first poll.
    pub fn send<SE, BE>(self, body_json: Result<Vec<u8>, JsonError>) -> (r: (
        Send<SE, BE>,
        Option<crate::Request<Vec<u8>>>,
    ))
        ensures
            body_json matches Ok(body) ==> {
                &&& r.0 matches Send::Status(machine) && machine is S0
                &&& r.1 matches Some(req)
                &&& req.method == Method::Patch
                &&& req.uri@ == super::spec_uri(
                    encode_utf8(self.bucket_name@),
                    encode_utf8(self.object_name@),
                )
                &&& req.headers@ =~= seq![(content_type_name(), super::json_content_type())]
                &&& req.body@ == body@
            },
            body_json matches Err(e) ==> r.0 == Send::<SE, BE>::Failed(
                crate::api::Error::Json(e),
            ) && r.1 is None,
    {
        let Builder { bucket_name, object_name, request: _ } = self;
        let uri = super::uri(bucket_name.as_str(), object_name.as_str());
        super::send(Method::Patch, uri, body_json)
    }
}

/// The operation's future.
pub type Future<SE, BE> = Send<SE, BE>;

/// The changed fields: only the content type can be rewritten.
#[derive(Clone, Debug, PartialEq, Eq)]
pub struct Request {
    pub content_type: Option<String>,
}

impl Default for Request {
    /// A patch that changes nothing.
    fn default() -> (r: Request)
        ensures
            r.content_type is None,
    {
        Request { content_type: None }
    }
}

/// The decoded metadata record of the patched object.
#[derive(Clone, Debug, PartialEq, Eq)]
pub struct Response {
    pub bucket: String,
    pub content_type: String,
    pub crc32c: [u8; 4],
    pub id: String,
    pub md5_hash: Option<[u8; 16]>,
    pub name: String,
    pub size: u64,
}

} // verus!
