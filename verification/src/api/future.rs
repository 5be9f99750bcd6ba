//! The suspend/resume machines at the heart of the pipeline.
//!
//! [`Oneshot`] validates the status of a response: success passes through
//! untouched, anything else drains the error body and surfaces it as a
//! status error.  [`Collect`] materialises a success body.  Both are plain
//! state machines: the surrounding transport glue performs the waiting and
//! feeds each completion in as an [`Event`] / [`CollectEvent`].

use vstd::prelude::*;

use crate::Error;
use crate::Request;
use crate::Response;
use crate::ResponseParts;
use crate::is_success;
use crate::spec_is_success;

verus! {

/// What the transport layer can report to a pipeline machine.
pub enum Event<SE, BE> {
    /// A plain wake-up with nothing resolved.
    Wake,
    /// The transport resolved: a response head, or a transport failure.
    Transport(Result<ResponseParts, SE>),
    /// The body stream produced its next chunk.
    Chunk(Vec<u8>),
    /// The body stream finished cleanly.
    BodyEnd,
    /// The body stream failed mid-way.
    BodyFailed(BE),
}

/// The status-validation machine of one request: sent and awaiting the
/// response head (`S0`), failed before sending (`S1`), or draining the
/// body of a non-success response (`S2`).
pub enum Oneshot<SE, BE> {
    S0,
    S1(Error<SE, BE>),
    S2 { parts: ResponseParts, collected: Vec<u8> },
}

/// One step's outcome: still running, or resolved.
pub enum OneshotPoll<SE, BE> {
    Pending(Oneshot<SE, BE>),
    Ready(Result<ResponseParts, Error<SE, BE>>),
}

/// Which events each state of [`Oneshot`] can take.
pub open spec fn oneshot_accepts<SE, BE>(state: Oneshot<SE, BE>, event: Event<SE, BE>) -> bool {
    match state {
        Oneshot::S0 => event is Transport,
        Oneshot::S1(_) => event is Wake,
        Oneshot::S2 { .. } => event is Chunk || event is BodyEnd || event is BodyFailed,
    }
}

/// Starts the machine for a built request: a good request is handed back to
/// be sent and awaited, a failed construction resolves on the first poll.
pub fn oneshot<T, SE, BE>(request: Result<Request<T>, Error<SE, BE>>) -> (r: (
    Oneshot<SE, BE>,
    Option<Request<T>>,
))
    ensures
        request matches Ok(req) ==> r.0 is S0 && r.1 == Some(req),
        request matches Err(e) ==> r.0 == Oneshot::<SE, BE>::S1(e) && r.1 is None,
{
    match request {
        Ok(req) => (Oneshot::S0, Some(req)),
        Err(e) => (Oneshot::S1(e), None),
    }
}

impl<SE, BE> Oneshot<SE, BE> {
    /// Advances the machine by one event.
    ///
    /// A success head resolves at once, byte-for-byte untouched, and the
    /// machine never collects a body for it.  A non-success head switches
    /// into collection: chunks append in order, a clean end resolves into a
    /// status error carrying the original head and the collected bytes, and
    /// a stream failure resolves into a body error instead.
    pub fn poll(self, event: Event<SE, BE>) -> (r: OneshotPoll<SE, BE>)
        requires
            oneshot_accepts(self, event),
        ensures
            ({
                match self {
                    Oneshot::S1(e) => r == OneshotPoll::<SE, BE>::Ready(Err(e)),
                    Oneshot::S0 => {
                        &&& (event matches Event::Transport(Err(se)) ==> r == OneshotPoll::<
                            SE,
                            BE,
                        >::Ready(Err(Error::Service(se))))
                        &&& (event matches Event::Transport(Ok(parts)) ==> {
                            if spec_is_success(parts.status) {
                                r == OneshotPoll::<SE, BE>::Ready(Ok(parts))
                            } else {
                                &&& r matches OneshotPoll::Pending(next)
                                &&& next matches Oneshot::S2 { parts: p2, collected }
                                &&& p2 == parts
                                &&& collected@ == Seq::<u8>::empty()
                            }
                        })
                    },
                    Oneshot::S2 { parts, collected } => {
                        &&& (event matches Event::Chunk(c) ==> {
                            &&& r matches OneshotPoll::Pending(next)
                            &&& next matches Oneshot::S2 { parts: p2, collected: c2 }
                            &&& p2 == parts
                            &&& c2@ == collected@ + c@
                        })
                        &&& (event is BodyEnd ==> r == OneshotPoll::<SE, BE>::Ready(
                            Err(
                                Error::Status(
                                    Response {
                                        status: parts.status,
                                        headers: parts.headers,
                                        body: collected,
                                    },
                                ),
                            ),
                        ))
                        &&& (event matches Event::BodyFailed(be) ==> r == OneshotPoll::<
                            SE,
                            BE,
                        >::Ready(Err(Error::Body(be))))
                    },
                }
            }),
    {
        match self {
            Oneshot::S1(e) => OneshotPoll::Ready(Err(e)),
            Oneshot::S0 => {
                match event {
                    Event::Transport(Err(se)) => OneshotPoll::Ready(Err(Error::Service(se))),
                    Event::Transport(Ok(parts)) => {
                        if is_success(parts.status) {
                            OneshotPoll::Ready(Ok(parts))
                        } else {
                            OneshotPoll::Pending(Oneshot::S2 { parts, collected: Vec::new() })
                        }
                    },
                    _ => vstd::pervasive::unreached(),
                }
            },
            Oneshot::S2 { parts, mut collected } => {
                match event {
                    Event::Chunk(mut c) => {
                        collected.append(&mut c);
                        OneshotPoll::Pending(Oneshot::S2 { parts, collected })
                    },
                    Event::BodyEnd => OneshotPoll::Ready(
                        Err(
                            Error::Status(
                                Response {
                                    status: parts.status,
                                    headers: parts.headers,
                                    body: collected,
                                },
                            ),
                        ),
                    ),
                    Event::BodyFailed(be) => OneshotPoll::Ready(Err(Error::Body(be))),
                    _ => vstd::pervasive::unreached(),
                }
            },
        }
    }
}

/// What the inner future and the body stream report to [`Collect`].
pub enum CollectEvent<SE, BE> {
    /// The wrapped status-validation future resolved.
    Inner(Result<ResponseParts, Error<SE, BE>>),
    /// The success body produced its next chunk.
    Chunk(Vec<u8>),
    /// The success body finished cleanly.
    BodyEnd,
    /// The success body failed mid-way.
    BodyFailed(BE),
}

/// The success-body collection machine: awaiting the inner future (`S0`),
/// then draining the success body into a buffer (`S1`).
pub enum Collect {
    S0,
    S1 { parts: ResponseParts, collected: Vec<u8> },
}

/// One step's outcome: still running, or resolved into a response whose
/// body is fully materialised.
pub enum CollectPoll<SE, BE> {
    Pending(Collect),
    Ready(Result<Response<Vec<u8>>, Error<SE, BE>>),
}

/// Which events each state of [`Collect`] can take.
pub open spec fn collect_accepts<SE, BE>(state: Collect, event: CollectEvent<SE, BE>) -> bool {
    match state {
        Collect::S0 => event is Inner,
        Collect::S1 { .. } => event is Chunk || event is BodyEnd || event is BodyFailed,
    }
}

/// Starts the collection machine.
pub fn collect() -> (r: Collect)
    ensures
        r is S0,
{
    Collect::S0
}

impl Collect {
    /// Advances the machine by one event.
    ///
    /// An inner failure passes through unchanged.  An inner success head
    /// switches into collection: chunks append in order, a clean end
    /// resolves into the response with the collected bytes as its body and
    /// the head untouched, and a stream failure resolves into a body error.
    pub fn poll<SE, BE>(self, event: CollectEvent<SE, BE>) -> (r: CollectPoll<SE, BE>)
        requires
            collect_accepts(self, event),
        ensures
            ({
                match self {
                    Collect::S0 => {
                        &&& (event matches CollectEvent::Inner(Err(e)) ==> r == CollectPoll::<
                            SE,
                            BE,
                        >::Ready(Err(e)))
                        &&& (event matches CollectEvent::Inner(Ok(parts)) ==> {
                            &&& r matches CollectPoll::Pending(next)
                            &&& next matches Collect::S1 { parts: p2, collected }
                            &&& p2 == parts
                            &&& collected@ == Seq::<u8>::empty()
                        })
                    },
                    Collect::S1 { parts, collected } => {
                        &&& (event matches CollectEvent::Chunk(c) ==> {
                            &&& r matches CollectPoll::Pending(next)
                            &&& next matches Collect::S1 { parts: p2, collected: c2 }
                            &&& p2 == parts
                            &&& c2@ == collected@ + c@
                        })
                        &&& (event is BodyEnd ==> r == CollectPoll::<SE, BE>::Ready(
                            Ok(
                                Response {
                                    status: parts.status,
                                    headers: parts.headers,
                                    body: collected,
                                },
                            ),
                        ))
                        &&& (event matches CollectEvent::BodyFailed(be) ==> r == CollectPoll::<
                            SE,
                            BE,
                        >::Ready(Err(Error::Body(be))))
                    },
                }
            }),
    {
        match self {
            Collect::S0 => {
                match event {
                    CollectEvent::Inner(Err(e)) => CollectPoll::Ready(Err(e)),
                    CollectEvent::Inner(Ok(parts)) => CollectPoll::Pending(
                        Collect::S1 { parts, collected: Vec::new() },
                    ),
                    _ => vstd::pervasive::unreached(),
                }
            },
            Collect::S1 { parts, mut collected } => {
                match event {
                    CollectEvent::Chunk(mut c) => {
                        collected.append(&mut c);
                        CollectPoll::Pending(Collect::S1 { parts, collected })
                    },
                    CollectEvent::BodyEnd => CollectPoll::Ready(
                        Ok(
                            Response {
                                status: parts.status,
                                headers: parts.headers,
                                body: collected,
                            },
                        ),
                    ),
                    CollectEvent::BodyFailed(be) => CollectPoll::Ready(Err(Error::Body(be))),
                    _ => vstd::pervasive::unreached(),
                }
            },
        }
    }
}

/// The buffer left after draining a chunk sequence into an initial buffer,
/// one append per chunk — the exact recurrence the `Chunk` steps of both
/// machines follow.
pub open spec fn concat_chunks(init: Seq<u8>, chunks: Seq<Seq<u8>>) -> Seq<u8>
    decreases chunks.len(),
{
    if chunks.len() == 0 {
        init
    } else {
        concat_chunks(init + chunks[0], chunks.drop_first())
    }
}

/// Draining appends chunks after the initial buffer, in order, with no
/// drops and no reordering.
pub proof fn lemma_concat_chunks(init: Seq<u8>, chunks: Seq<Seq<u8>>)
    ensures
        concat_chunks(init, chunks) == init + chunks.flatten(),
    decreases chunks.len(),
{
    if chunks.len() == 0 {
        assert(chunks.flatten() =~= Seq::<u8>::empty());
        assert(init + chunks.flatten() =~= init);
    } else {
        lemma_concat_chunks(init + chunks[0], chunks.drop_first());
        assert(chunks.flatten() == chunks.first() + chunks.drop_first().flatten());
        assert((init + chunks[0]) + chunks.drop_first().flatten() =~= init + (chunks[0]
            + chunks.drop_first().flatten()));
    }
}

/// Law: a body drained from an empty buffer — as both machines do the
/// moment they start collecting — materialises as exactly the
/// concatenation of its chunks in their original order.
pub proof fn lemma_collected_body_is_chunk_concatenation(chunks: Seq<Seq<u8>>)
    ensures
        concat_chunks(Seq::<u8>::empty(), chunks) == chunks.flatten(),
{
    lemma_concat_chunks(Seq::<u8>::empty(), chunks);
    assert(Seq::<u8>::empty() + chunks.flatten() =~= chunks.flatten());
}

} // verus!
