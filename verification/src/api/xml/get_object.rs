//! Downloads an object: a success resolves to the response head, with the
//! body left for the caller to stream (and collect, if it wants it whole).

use vstd::prelude::*;
use vstd::utf8::encode_utf8;

use crate::HeaderMap;
use crate::Method;
use crate::Request;
use crate::api::future::Oneshot;

verus! {

/// Names the object to fetch.
pub fn builder(bucket_name: String, object_name: String) -> (b: Builder)
    ensures
        b.bucket_name@ == bucket_name@,
        b.object_name@ == object_name@,
{
    Builder { bucket_name, object_name }
}

pub struct Builder {
    pub bucket_name: String,
    pub object_name: String,
}

impl Builder {
    /// Builds the GET request and the machine that validates its response.
    pub fn send<SE, BE>(self) -> (r: (Oneshot<SE, BE>, Request<()>))
        ensures
            r.0 is S0,
            r.1.method == Method::Get,
            r.1.uri@ == super::spec_uri(
                encode_utf8(self.bucket_name@),
                encode_utf8(self.object_name@),
            ),
            r.1.headers@ == Seq::<(Seq<u8>, Seq<u8>)>::empty(),
    {
        let Builder { bucket_name, object_name } = self;
        let uri = super::uri(bucket_name.as_str(), object_name.as_str());
        let request = Request { method: Method::Get, uri, headers: HeaderMap::new(), body: () };
        let (machine, sent) = super::send(Ok(request));
        match sent {
            Some(rq) => (machine, rq),
            None => vstd::pervasive::unreached(),
        }
    }
}

} // verus!
