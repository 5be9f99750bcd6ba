//! Uploads an object: the caller supplies the body and any typed headers
//! (content type, content digests); header-only on the way back.

use vstd::prelude::*;
use vstd::utf8::encode_utf8;

use crate::HeaderMap;
use crate::Method;
use crate::Request;
use crate::Response;
use crate::ResponseParts;
use crate::api::future::Oneshot;
use crate::header::TypedHeader;
use crate::remove_named;

verus! {

/// Names the object to create and takes its body.
pub fn builder<T>(bucket_name: String, object_name: String, body: T) -> (b: Builder<T>)
    ensures
        b.bucket_name@ == bucket_name@,
        b.object_name@ == object_name@,
        b.body == body,
        b.headers@ == Seq::<(Seq<u8>, Seq<u8>)>::empty(),
{
    let headers = HeaderMap::new();
    proof {
        assert(headers@ =~= Seq::<(Seq<u8>, Seq<u8>)>::empty());
    }
    Builder { bucket_name, object_name, body, headers }
}

pub struct Builder<T> {
    pub bucket_name: String,
    pub object_name: String,
    pub body: T,
    pub headers: HeaderMap,
}

impl<T> Builder<T> {
    /// Builds the PUT request, carrying the accumulated headers and the
    /// body, and the machine that validates its response.
    pub fn send<SE, BE>(self) -> (r: (Oneshot<SE, BE>, Request<T>))
        ensures
            r.0 is S0,
            r.1.method == Method::Put,
            r.1.uri@ == super::spec_uri(
                encode_utf8(self.bucket_name@),
                encode_utf8(self.object_name@),
            ),
            r.1.headers == self.headers,
            r.1.body == self.body,
    {
        let Builder { bucket_name, object_name, body, headers } = self;
        let uri = super::uri(bucket_name.as_str(), object_name.as_str());
        let request = Request { method: Method::Put, uri, headers, body };
        let (machine, sent) = super::send(Ok(request));
        match sent {
            Some(rq) => (machine, rq),
            None => vstd::pervasive::unreached(),
        }
    }

    /// Sets a typed header on the request, replacing any occurrences of the
    /// same header set before.
    pub fn typed_header<H: TypedHeader>(self, header: H) -> (r: Builder<T>)
        ensures
            r.bucket_name == self.bucket_name,
            r.object_name == self.object_name,
            r.body == self.body,
            r.headers@ =~= remove_named(self.headers@, header.spec_name())
                + header.spec_values().map_values(|v: Seq<u8>| (header.spec_name(), v)),
    {
        let Builder { bucket_name, object_name, body, mut headers } = self;
        crate::header::insert_typed(&header, &mut headers);
        Builder { bucket_name, object_name, body, headers }
    }
}

/// Maps the machine's resolution into the operation's result: errors map
/// one variant to one, a success keeps status and headers and drops the
/// body.
pub fn finish<SE, BE>(result: Result<ResponseParts, crate::Error<SE, BE>>) -> (r: Result<
    Response<()>,
    crate::api::Error<SE, BE>,
>)
    ensures
        result matches Ok(parts) ==> r matches Ok(resp) && resp.status == parts.status
            && resp.headers == parts.headers,
        result matches Err(e) ==> r == Err::<Response<()>, crate::api::Error<SE, BE>>(
            crate::api::spec_map_err(e),
        ),
{
    match super::finish(result) {
        Ok(parts) => Ok(super::empty(parts)),
        Err(e) => Err(e),
    }
}

} // verus!
