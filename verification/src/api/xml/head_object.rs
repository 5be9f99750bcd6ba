//! Reads an object's metadata: a HEAD request, answered by status and
//! headers alone.

use vstd::prelude::*;
use vstd::utf8::encode_utf8;

use crate::HeaderMap;
use crate::Method;
use crate::Request;
use crate::Response;
use crate::api::StatusError;
use crate::api::future::Event;
use crate::api::future::Oneshot;
use crate::api::future::OneshotPoll;
use crate::api::future::oneshot_accepts;
use crate::spec_is_success;

verus! {

/// Names the object to probe.
pub fn builder(bucket_name: String, object_name: String) -> (b: Builder)
    ensures
        b.bucket_name@ == bucket_name@,
        b.object_name@ == object_name@,
{
    Builder { bucket_name, object_name }
}

pub struct Builder {
    pub bucket_name: String,
    pub object_name: String,
}

impl Builder {
    /// Builds the HEAD request and the future that resolves to a body-less
    /// response.
    pub fn send<SE, BE>(self) -> (r: (Future<SE, BE>, Request<()>))
        ensures
            r.0.0 is S0,
            r.1.method == Method::Head,
            r.1.uri@ == super::spec_uri(
                encode_utf8(self.bucket_name@),
                encode_utf8(self.object_name@),
            ),
            r.1.headers@ == Seq::<(Seq<u8>, Seq<u8>)>::empty(),
    {
        let Builder { bucket_name, object_name } = self;
        let uri = super::uri(bucket_name.as_str(), object_name.as_str());
        let request = Request { method: Method::Head, uri, headers: HeaderMap::new(), body: () };
        let (machine, sent) = super::send(Ok(request));
        match sent {
            Some(rq) => (Future(machine), rq),
            None => vstd::pervasive::unreached(),
        }
    }
}

/// The operation's future: the status-validation machine, resolving into a
/// body-less response under the operation error taxonomy.
pub struct Future<SE, BE>(pub Oneshot<SE, BE>);

/// One step's outcome of [`Future`].
pub enum FuturePoll<SE, BE> {
    Pending(Future<SE, BE>),
    Ready(Result<Response<()>, crate::api::Error<SE, BE>>),
}

impl<SE, BE> Future<SE, BE> {
    /// Advances by one event: exactly the status-validation machine, with a
    /// success head stripped to a body-less response and errors mapped into
    /// the operation taxonomy.
    pub fn poll(self, event: Event<SE, BE>) -> (r: FuturePoll<SE, BE>)
        requires
            oneshot_accepts(self.0, event),
        ensures
            ({
                match self.0 {
                    Oneshot::S1(e) => r == FuturePoll::<SE, BE>::Ready(
                        Err(crate::api::spec_map_err(e)),
                    ),
                    Oneshot::S0 => {
                        &&& (event matches Event::Transport(Err(se)) ==> r == FuturePoll::<
                            SE,
                            BE,
                        >::Ready(Err(crate::api::Error::Service(se))))
                        &&& (event matches Event::Transport(Ok(parts)) ==> {
                            if spec_is_success(parts.status) {
                                &&& r matches FuturePoll::Ready(res)
                                &&& res matches Ok(resp)
                                &&& resp.status == parts.status
                                &&& resp.headers == parts.headers
                            } else {
                                &&& r matches FuturePoll::Pending(next)
                                &&& next.0 matches Oneshot::S2 { parts: p2, collected }
                                &&& p2 == parts
                                &&& collected@ == Seq::<u8>::empty()
                            }
                        })
                    },
                    Oneshot::S2 { parts, collected } => {
                        &&& (event matches Event::Chunk(c) ==> {
                            &&& r matches FuturePoll::Pending(next)
                            &&& next.0 matches Oneshot::S2 { parts: p2, collected: c2 }
                            &&& p2 == parts
                            &&& c2@ == collected@ + c@
                        })
                        &&& (event is BodyEnd ==> r == FuturePoll::<SE, BE>::Ready(
                            Err(
                                crate::api::Error::Status(
                                    StatusError {
                                        response: Response {
                                            status: parts.status,
                                            headers: parts.headers,
                                            body: collected,
                                        },
                                    },
                                ),
                            ),
                        ))
                        &&& (event matches Event::BodyFailed(be) ==> r == FuturePoll::<
                            SE,
                            BE,
                        >::Ready(Err(crate::api::Error::Body(be))))
                    },
                }
            }),
    {
        match self.0.poll(event) {
            OneshotPoll::Pending(machine) => FuturePoll::Pending(Future(machine)),
            OneshotPoll::Ready(Ok(parts)) => FuturePoll::Ready(Ok(super::empty(parts))),
            OneshotPoll::Ready(Err(e)) => FuturePoll::Ready(Err(crate::api::map_err(e))),
        }
    }
}

} // verus!
