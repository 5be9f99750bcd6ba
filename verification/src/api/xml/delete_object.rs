//! Deletes an object: header-only, the success body is discarded.

use vstd::prelude::*;
use vstd::utf8::encode_utf8;

use crate::HeaderMap;
use crate::Method;
use crate::Request;
use crate::Response;
use crate::ResponseParts;
use crate::api::future::Oneshot;

verus! {

/// Names the object to delete.
pub fn builder(bucket_name: String, object_name: String) -> (b: Builder)
    ensures
        b.bucket_name@ == bucket_name@,
        b.object_name@ == object_name@,
{
    Builder { bucket_name, object_name }
}

pub struct Builder {
    pub bucket_name: String,
    pub object_name: String,
}

impl Builder {
    /// Builds the DELETE request and the machine that validates its
    /// response.
    pub fn send<SE, BE>(self) -> (r: (Oneshot<SE, BE>, Request<()>))
        ensures
            r.0 is S0,
            r.1.method == Method::Delete,
            r.1.uri@ == super::spec_uri(
                encode_utf8(self.bucket_name@),
                encode_utf8(self.object_name@),
            ),
            r.1.headers@ == Seq::<(Seq<u8>, Seq<u8>)>::empty(),
    {
        let Builder { bucket_name, object_name } = self;
        let uri = super::uri(bucket_name.as_str(), object_name.as_str());
        let request = Request { method: Method::Delete, uri, headers: HeaderMap::new(), body: () };
        let (machine, sent) = super::send(Ok(request));
        match sent {
            Some(rq) => (machine, rq),
            None => vstd::pervasive::unreached(),
        }
    }
}

/// Maps the machine's resolution into the operation's result: errors map
/// one variant to one, a success keeps status and headers and drops the
/// body.
pub fn finish<SE, BE>(result: Result<ResponseParts, crate::Error<SE, BE>>) -> (r: Result<
    Response<()>,
    crate::api::Error<SE, BE>,
>)
    ensures
        result matches Ok(parts) ==> r matches Ok(resp) && resp.status == parts.status
            && resp.headers == parts.headers,
        result matches Err(e) ==> r == Err::<Response<()>, crate::api::Error<SE, BE>>(
            crate::api::spec_map_err(e),
        ),
{
    match super::finish(result) {
        Ok(parts) => Ok(super::empty(parts)),
        Err(e) => Err(e),
    }
}

} // verus!
