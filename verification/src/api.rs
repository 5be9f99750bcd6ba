//! The typed operations of the client and their shared machinery: the
//! status-validation/body-collection machines in [`future`], the XML-style
//! protocol in [`xml`], the JSON metadata protocol in [`json`], and the
//! per-operation error taxonomy.

use vstd::prelude::*;

pub mod future;
pub mod json;
pub mod xml;

use crate::HttpError;
use crate::Response;
use crate::ResponseView;

verus! {

/// Carrier for a (de)serialisation failure reported by the surrounding JSON
/// glue.  The message is kept only for diagnostics; the pipeline never
/// reads it.
#[derive(Debug)]
pub struct JsonError {
    pub message: String,
}

/// A well-formed non-success response from the service: its status and
/// headers, with the error body fully collected.
#[derive(Debug)]
pub struct StatusError {
    pub response: Response<Vec<u8>>,
}

impl View for StatusError {
    type V = ResponseView<Seq<u8>>;

    open spec fn view(&self) -> ResponseView<Seq<u8>> {
        self.response@
    }
}

impl StatusError {
    /// The status code the service answered with.
    pub fn status(&self) -> (s: u16)
        ensures
            s == self@.status,
    {
        self.response.status
    }
}

/// The error of one typed operation, exactly one variant populated.
#[derive(Debug)]
pub enum Error<S, B> {
    Body(B),
    Http(HttpError),
    Json(JsonError),
    Service(S),
    Status(StatusError),
}

/// How a raw pipeline error surfaces from a typed operation: every variant
/// maps to its counterpart, and a non-success response becomes a
/// [`StatusError`].
pub open spec fn spec_map_err<S, B>(e: crate::Error<S, B>) -> Error<S, B> {
    match e {
        crate::Error::Http(h) => Error::Http(h),
        crate::Error::Service(s) => Error::Service(s),
        crate::Error::Body(b) => Error::Body(b),
        crate::Error::Status(response) => Error::Status(StatusError { response }),
    }
}

/// Maps a raw pipeline error into the operation error, one variant to one.
pub fn map_err<S, B>(e: crate::Error<S, B>) -> (r: Error<S, B>)
    ensures
        r == spec_map_err(e),
{
    match e {
        crate::Error::Http(h) => Error::Http(h),
        crate::Error::Service(s) => Error::Service(s),
        crate::Error::Body(b) => Error::Body(b),
        crate::Error::Status(response) => Error::Status(StatusError { response }),
    }
}

} // verus!
