//! The earlier form of the authentication layer, kept alongside
//! [`crate::middleware::yup_oauth2`]: the same token-then-forward
//! behaviour, with the per-request machine folded into two stages — the
//! acquisition starts the moment the service is called.

use vstd::prelude::*;

use crate::Request;
use crate::remove_named;
use crate::token::AccessToken;
use crate::token::Authenticator;
use crate::token::InvalidBearerToken;
use crate::token::TokenError;
use crate::token::authorization_header_name;
use crate::token::authorization_name;
use crate::token::bearer_prefix;
use crate::token::bearer_value;
use crate::token::header_value_byte_ok;

verus! {

/// The layer's error, exactly one variant populated.
#[derive(Debug)]
pub enum Error<S> {
    Authenticator(TokenError),
    InvalidBearerToken(InvalidBearerToken),
    Service(S),
}

/// The authenticating service: the wrapped transport and the shared token
/// cache.
#[derive(Debug)]
pub struct Service<S> {
    pub inner: S,
    pub authenticator: Authenticator,
}

impl<S> Service<S> {
    /// Maps the wrapped transport's readiness outcome: its failure becomes
    /// a service error of this layer.
    pub fn poll_ready<E>(&mut self, readiness: Result<(), E>) -> (r: Result<(), Error<E>>)
        ensures
            *final(self) == *old(self),
            readiness is Ok ==> r is Ok,
            readiness matches Err(e) ==> r == Err::<(), Error<E>>(Error::Service(e)),
    {
        match readiness {
            Ok(()) => Ok(()),
            Err(e) => Err(Error::Service(e)),
        }
    }

    /// Starts one request's machine, with the token acquisition under way
    /// from the start.
    pub fn call<T>(&mut self, request: Request<T>) -> (f: Future<T>)
        ensures
            *final(self) == *old(self),
            f.0 == State::<T>::S0(request),
    {
        Future(State::S0(request))
    }
}

/// One request's future: the per-request authentication machine.
#[derive(Debug)]
pub struct Future<T>(pub State<T>);

/// The machine's stages: awaiting the token acquisition with the request
/// held (`S0`), then awaiting the wrapped transport (`S1`).  There are no
/// backward transitions.
#[derive(Debug)]
pub enum State<T> {
    S0(Request<T>),
    S1,
}

/// What the surrounding glue can report to the machine.
pub enum Event<R, SE> {
    TokenResolved(Result<AccessToken, TokenError>),
    Inner(Result<R, SE>),
}

/// One step's outcome: carrying the request the glue must now send on the
/// wrapped transport, or resolved.
pub enum FuturePoll<T, R, SE> {
    Pending(Future<T>),
    Forward(Future<T>, Request<T>),
    Ready(Result<R, Error<SE>>),
}

/// Which events each stage of the machine can take.
pub open spec fn future_accepts<T, R, SE>(state: State<T>, event: Event<R, SE>) -> bool {
    match state {
        State::S0(_) => event is TokenResolved,
        State::S1 => event is Inner,
    }
}

impl<T> Future<T> {
    /// Advances the machine by one event: as
    /// [`crate::middleware::yup_oauth2::Future::poll`], with the machine's
    /// first two stages folded into one.
    pub fn poll<R, SE>(self, event: Event<R, SE>) -> (r: FuturePoll<T, R, SE>)
        requires
            future_accepts(self.0, event),
        ensures
            ({
                match self.0 {
                    State::S0(req) => {
                        &&& (event matches Event::TokenResolved(Err(e)) ==> r == FuturePoll::<
                            T,
                            R,
                            SE,
                        >::Ready(Err(Error::Authenticator(e))))
                        &&& (event matches Event::TokenResolved(Ok(t)) ==> {
                            match t.token {
                                None => r == FuturePoll::<T, R, SE>::Ready(
                                    Err(Error::Authenticator(TokenError::MissingAccessToken)),
                                ),
                                Some(tok) => {
                                    if forall|i: int|
                                        0 <= i < tok@.len() ==> #[trigger] header_value_byte_ok(
                                            tok@[i],
                                        ) {
                                        &&& r matches FuturePoll::Forward(f2, req2)
                                        &&& f2.0 is S1
                                        &&& req2.method == req.method
                                        &&& req2.uri == req.uri
                                        &&& req2.body == req.body
                                        &&& req2.headers@ =~= remove_named(
                                            req.headers@,
                                            authorization_name(),
                                        ).push((authorization_name(), bearer_prefix() + tok@))
                                    } else {
                                        r matches FuturePoll::Ready(res) && res matches Err(e)
                                            && e is InvalidBearerToken
                                    }
                                },
                            }
                        })
                    },
                    State::S1 => {
                        &&& (event matches Event::Inner(Ok(resp)) ==> r == FuturePoll::<
                            T,
                            R,
                            SE,
                        >::Ready(Ok(resp)))
                        &&& (event matches Event::Inner(Err(se)) ==> r == FuturePoll::<
                            T,
                            R,
                            SE,
                        >::Ready(Err(Error::Service(se))))
                    },
                }
            }),
    {
        match self.0 {
            State::S0(req) => {
                match event {
                    Event::TokenResolved(Err(e)) => FuturePoll::Ready(
                        Err(Error::Authenticator(e)),
                    ),
                    Event::TokenResolved(Ok(t)) => {
                        match t.token {
                            None => FuturePoll::Ready(
                                Err(Error::Authenticator(TokenError::MissingAccessToken)),
                            ),
                            Some(tok) => {
                                match bearer_value(tok.as_slice()) {
                                    Ok(value) => {
                                        let mut request = req;
                                        let name = authorization_header_name();
                                        request.headers.insert(name, value);
                                        FuturePoll::Forward(Future(State::S1), request)
                                    },
                                    Err(e) => FuturePoll::Ready(Err(Error::InvalidBearerToken(e))),
                                }
                            },
                        }
                    },
                    _ => vstd::pervasive::unreached(),
                }
            },
            State::S1 => {
                match event {
                    Event::Inner(Ok(resp)) => FuturePoll::Ready(Ok(resp)),
                    Event::Inner(Err(se)) => FuturePoll::Ready(Err(Error::Service(se))),
                    _ => vstd::pervasive::unreached(),
                }
            },
        }
    }
}

/// The layer: holds the authenticator whose token cache the wrapped
/// services share.
#[derive(Debug)]
pub struct Layer {
    pub authenticator: Authenticator,
}

impl Layer {
    /// Wraps a transport in the authentication layer.
    pub fn layer<S>(self, inner: S) -> (svc: Service<S>)
        ensures
            svc.inner == inner,
            svc.authenticator == self.authenticator,
    {
        Service { inner, authenticator: self.authenticator }
    }
}

} // verus!
