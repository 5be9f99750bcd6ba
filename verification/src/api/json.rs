//! The JSON metadata protocol: operations whose success bodies are
//! collected and decoded into a declared shape.  The decoding itself is
//! (de)serialisation done by the surrounding glue; the machine here fixes
//! when it applies — only to a collected success body — and how its
//! outcome resolves the operation.

use vstd::prelude::*;
use vstd::slice::slice_to_vec;
use vstd::string::StringSliceAdditionalSpecFns;

pub mod patch_object;

use crate::Method;
use crate::Request;
use crate::Response;
use crate::ResponseParts;
use crate::api::Error;
use crate::api::JsonError;
use crate::api::future::Oneshot;
use crate::api::future::OneshotPoll;
use crate::api::future::oneshot_accepts;
use crate::api::spec_map_err;
use crate::encoding::percent_encode;
use crate::encoding::percent_encoded;
use crate::header::content_type_name;
use crate::spec_is_success;

verus! {

/// "https://storage.googleapis.com/storage/v1/b/"
pub open spec fn endpoint_prefix() -> Seq<u8> {
    seq![
        'h' as u8,
        't' as u8,
        't' as u8,
        'p' as u8,
        's' as u8,
        ':' as u8,
        '/' as u8,
        '/' as u8,
        's' as u8,
        't' as u8,
        'o' as u8,
        'r' as u8,
        'a' as u8,
        'g' as u8,
        'e' as u8,
        '.' as u8,
        'g' as u8,
        'o' as u8,
        'o' as u8,
        'g' as u8,
        'l' as u8,
        'e' as u8,
        'a' as u8,
        'p' as u8,
        'i' as u8,
        's' as u8,
        '.' as u8,
        'c' as u8,
        'o' as u8,
        'm' as u8,
        '/' as u8,
        's' as u8,
        't' as u8,
        'o' as u8,
        'r' as u8,
        'a' as u8,
        'g' as u8,
        'e' as u8,
        '/' as u8,
        'v' as u8,
        '1' as u8,
        '/' as u8,
        'b' as u8,
        '/' as u8,
    ]
}

/// "/o/"
pub open spec fn object_infix() -> Seq<u8> {
    seq!['/' as u8, 'o' as u8, '/' as u8]
}

/// The object URI of this protocol: bucket and percent-encoded object name
/// under the versioned endpoint path.
pub open spec fn spec_uri(bucket: Seq<u8>, object: Seq<u8>) -> Seq<u8> {
    endpoint_prefix() + bucket + object_infix() + percent_encoded(object)
}

/// Builds the object URI from the UTF-8 bytes of the two names.
pub fn uri(bucket_name: &str, object_name: &str) -> (r: Vec<u8>)
    ensures
        r@ == spec_uri(bucket_name.spec_bytes(), object_name.spec_bytes()),
{
    let prefix: [u8; 44] = [
        'h' as u8,
        't' as u8,
        't' as u8,
        'p' as u8,
        's' as u8,
        ':' as u8,
        '/' as u8,
        '/' as u8,
        's' as u8,
        't' as u8,
        'o' as u8,
        'r' as u8,
        'a' as u8,
        'g' as u8,
        'e' as u8,
        '.' as u8,
        'g' as u8,
        'o' as u8,
        'o' as u8,
        'g' as u8,
        'l' as u8,
        'e' as u8,
        'a' as u8,
        'p' as u8,
        'i' as u8,
        's' as u8,
        '.' as u8,
        'c' as u8,
        'o' as u8,
        'm' as u8,
        '/' as u8,
        's' as u8,
        't' as u8,
        'o' as u8,
        'r' as u8,
        'a' as u8,
        'g' as u8,
        'e' as u8,
        '/' as u8,
        'v' as u8,
        '1' as u8,
        '/' as u8,
        'b' as u8,
        '/' as u8,
    ];
    let infix: [u8; 3] = ['/' as u8, 'o' as u8, '/' as u8];
    let mut out: Vec<u8> = slice_to_vec(prefix.as_slice());
    let mut bucket: Vec<u8> = slice_to_vec(bucket_name.as_bytes());
    out.append(&mut bucket);
    let mut mid: Vec<u8> = slice_to_vec(infix.as_slice());
    out.append(&mut mid);
    let mut object: Vec<u8> = percent_encode(object_name.as_bytes());
    out.append(&mut object);
    proof {
        assert(prefix@ =~= endpoint_prefix());
        assert(infix@ =~= object_infix());
        assert(out@ =~= spec_uri(bucket_name.spec_bytes(), object_name.spec_bytes()));
    }
    out
}

/// "application/json"
pub open spec fn json_content_type() -> Seq<u8> {
    seq![
        'a' as u8,
        'p' as u8,
        'p' as u8,
        'l' as u8,
        'i' as u8,
        'c' as u8,
        'a' as u8,
        't' as u8,
        'i' as u8,
        'o' as u8,
        'n' as u8,
        '/' as u8,
        'j' as u8,
        's' as u8,
        'o' as u8,
        'n' as u8,
    ]
}

/// The per-operation machine of this protocol: construction failed
/// (`Failed`), validating the status (`Status`), collecting the success
/// body (`Collecting`), or waiting for that body to be decoded
/// (`Decoding`).
pub enum Send<SE, BE> {
    Failed(Error<SE, BE>),
    Status(Oneshot<SE, BE>),
    Collecting { parts: ResponseParts, collected: Vec<u8> },
    Decoding { parts: ResponseParts, collected: Vec<u8> },
}

/// What the surrounding glue can report to [`Send`]: the transport and
/// body events of the raw pipeline, plus the outcome of decoding the
/// collected success body into the operation's declared shape `T`.
pub enum SendEvent<T, SE, BE> {
    Wake,
    Transport(Result<ResponseParts, SE>),
    Chunk(Vec<u8>),
    BodyEnd,
    BodyFailed(BE),
    Decoded(Result<T, JsonError>),
}

/// One step's outcome: still running, or resolved into a decoded response.
pub enum SendPoll<T, SE, BE> {
    Pending(Send<SE, BE>),
    Ready(Result<Response<T>, Error<SE, BE>>),
}

/// Which events each state of [`Send`] can take.
pub open spec fn send_accepts<T, SE, BE>(state: Send<SE, BE>, event: SendEvent<T, SE, BE>) -> bool {
    match state {
        Send::Failed(_) => event is Wake,
        Send::Status(machine) => match event {
            SendEvent::Transport(tr) => oneshot_accepts(machine, crate::api::future::Event::<
                SE,
                BE,
            >::Transport(tr)),
            SendEvent::Chunk(c) => oneshot_accepts(machine, crate::api::future::Event::<
                SE,
                BE,
            >::Chunk(c)),
            SendEvent::BodyEnd => oneshot_accepts(machine, crate::api::future::Event::<
                SE,
                BE,
            >::BodyEnd),
            SendEvent::BodyFailed(be) => oneshot_accepts(machine, crate::api::future::Event::<
                SE,
                BE,
            >::BodyFailed(be)),
            _ => false,
        },
        Send::Collecting { .. } => event is Chunk || event is BodyEnd || event is BodyFailed,
        Send::Decoding { .. } => event is Decoded,
    }
}

/// Wires a built request and its serialised body into the machine: a good
/// body is sent as JSON, a serialisation failure resolves on the first
/// poll as a JSON error.
pub fn send<SE, BE>(
    method: Method,
    uri: Vec<u8>,
    body_json: Result<Vec<u8>, JsonError>,
) -> (r: (Send<SE, BE>, Option<Request<Vec<u8>>>))
    ensures
        body_json matches Ok(body) ==> {
            &&& r.0 matches Send::Status(machine) && machine is S0
            &&& r.1 matches Some(req)
            &&& req.method == method
            &&& req.uri@ == uri@
            &&& req.headers@ =~= seq![(content_type_name(), json_content_type())]
            &&& req.body@ == body@
        },
        body_json matches Err(e) ==> r.0 == Send::<SE, BE>::Failed(Error::Json(e)) && r.1 is None,
{
    match body_json {
        Ok(body) => {
            let mut headers = crate::HeaderMap::new();
            let ct: [u8; 16] = [
                'a' as u8,
                'p' as u8,
                'p' as u8,
                'l' as u8,
                'i' as u8,
                'c' as u8,
                'a' as u8,
                't' as u8,
                'i' as u8,
                'o' as u8,
                'n' as u8,
                '/' as u8,
                'j' as u8,
                's' as u8,
                'o' as u8,
                'n' as u8,
            ];
            let name = crate::header::ContentType { value: slice_to_vec(ct.as_slice()) };
            crate::header::insert_typed(&name, &mut headers);
            proof {
                assert(ct@ =~= json_content_type());
                assert(headers@ =~= seq![(content_type_name(), json_content_type())]);
            }
            let req = Request { method, uri, headers, body };
            (Send::Status(Oneshot::S0), Some(req))
        },
        Err(e) => (Send::Failed(Error::Json(e)), None),
    }
}

impl<SE, BE> Send<SE, BE> {
    /// Advances the machine by one event.
    ///
    /// The status phase behaves exactly as the raw pipeline, with errors
    /// mapped into the operation taxonomy.  A success head switches into
    /// collecting the body: chunks append in order, a clean end asks for
    /// the collected bytes to be decoded, and the decode outcome resolves
    /// the operation — decoding applies only on this success path.
    pub fn poll<T>(self, event: SendEvent<T, SE, BE>) -> (r: SendPoll<T, SE, BE>)
        requires
            send_accepts(self, event),
        ensures
            ({
                match self {
                    Send::Failed(e) => r == SendPoll::<T, SE, BE>::Ready(Err(e)),
                    Send::Status(machine) => {
                        &&& (machine is S0 ==> (event matches SendEvent::Transport(Err(se)) ==> r
                            == SendPoll::<T, SE, BE>::Ready(Err(Error::Service(se)))))
                        &&& (machine is S0 ==> (event matches SendEvent::Transport(Ok(parts)) ==> {
                            if spec_is_success(parts.status) {
                                &&& r matches SendPoll::Pending(next)
                                &&& next matches Send::Collecting { parts: p2, collected }
                                &&& p2 == parts
                                &&& collected@ == Seq::<u8>::empty()
                            } else {
                                &&& r matches SendPoll::Pending(next)
                                &&& next matches Send::Status(m2)
                                &&& m2 matches Oneshot::S2 { parts: p2, collected }
                                &&& p2 == parts
                                &&& collected@ == Seq::<u8>::empty()
                            }
                        }))
                        &&& (machine matches Oneshot::S2 { parts, collected } ==> {
                            &&& (event matches SendEvent::Chunk(c) ==> {
                                &&& r matches SendPoll::Pending(next)
                                &&& next matches Send::Status(m2)
                                &&& m2 matches Oneshot::S2 { parts: p2, collected: c2 }
                                &&& p2 == parts
                                &&& c2@ == collected@ + c@
                            })
                            &&& (event is BodyEnd ==> r == SendPoll::<T, SE, BE>::Ready(
                                Err(
                                    spec_map_err(
                                        crate::Error::Status(
                                            Response {
                                                status: parts.status,
                                                headers: parts.headers,
                                                body: collected,
                                            },
                                        ),
                                    ),
                                ),
                            ))
                            &&& (event matches SendEvent::BodyFailed(be) ==> r == SendPoll::<
                                T,
                                SE,
                                BE,
                            >::Ready(Err(Error::Body(be))))
                        })
                    },
                    Send::Collecting { parts, collected } => {
                        &&& (event matches SendEvent::Chunk(c) ==> {
                            &&& r matches SendPoll::Pending(next)
                            &&& next matches Send::Collecting { parts: p2, collected: c2 }
                            &&& p2 == parts
                            &&& c2@ == collected@ + c@
                        })
                        &&& (event is BodyEnd ==> {
                            &&& r matches SendPoll::Pending(next)
                            &&& next == Send::<SE, BE>::Decoding { parts, collected }
                        })
                        &&& (event matches SendEvent::BodyFailed(be) ==> r == SendPoll::<
                            T,
                            SE,
                            BE,
                        >::Ready(Err(Error::Body(be))))
                    },
                    Send::Decoding { parts, collected } => {
                        &&& (event matches SendEvent::Decoded(Ok(value)) ==> r == SendPoll::<
                            T,
                            SE,
                            BE,
                        >::Ready(
                            Ok(
                                Response {
                                    status: parts.status,
                                    headers: parts.headers,
                                    body: value,
                                },
                            ),
                        ))
                        &&& (event matches SendEvent::Decoded(Err(e)) ==> r == SendPoll::<
                            T,
                            SE,
                            BE,
                        >::Ready(Err(Error::Json(e))))
                    },
                }
            }),
    {
        match self {
            Send::Failed(e) => SendPoll::Ready(Err(e)),
            Send::Status(machine) => {
                let inner_event: crate::api::future::Event<SE, BE> = match event {
                    SendEvent::Transport(tr) => crate::api::future::Event::Transport(tr),
                    SendEvent::Chunk(c) => crate::api::future::Event::Chunk(c),
                    SendEvent::BodyEnd => crate::api::future::Event::BodyEnd,
                    SendEvent::BodyFailed(be) => crate::api::future::Event::BodyFailed(be),
                    _ => vstd::pervasive::unreached(),
                };
                match machine.poll(inner_event) {
                    OneshotPoll::Pending(m2) => SendPoll::Pending(Send::Status(m2)),
                    OneshotPoll::Ready(Ok(parts)) => SendPoll::Pending(
                        Send::Collecting { parts, collected: Vec::new() },
                    ),
                    OneshotPoll::Ready(Err(e)) => SendPoll::Ready(Err(crate::api::map_err(e))),
                }
            },
            Send::Collecting { parts, mut collected } => {
                match event {
                    SendEvent::Chunk(mut c) => {
                        collected.append(&mut c);
                        SendPoll::Pending(Send::Collecting { parts, collected })
                    },
                    SendEvent::BodyEnd => SendPoll::Pending(Send::Decoding { parts, collected }),
                    SendEvent::BodyFailed(be) => SendPoll::Ready(Err(Error::Body(be))),
                    _ => vstd::pervasive::unreached(),
                }
            },
            Send::Decoding { parts, collected: _ } => {
                match event {
                    SendEvent::Decoded(Ok(value)) => SendPoll::Ready(
                        Ok(
                            Response {
                                status: parts.status,
                                headers: parts.headers,
                                body: value,
                            },
                        ),
                    ),
                    SendEvent::Decoded(Err(e)) => SendPoll::Ready(Err(Error::Json(e))),
                    _ => vstd::pervasive::unreached(),
                }
            },
        }
    }
}

} // verus!
