//! The XML-style protocol: per-object operations addressed by bucket and
//! object name, answered with headers and raw bytes — no payload decoding.

use vstd::prelude::*;
use vstd::slice::slice_to_vec;
use vstd::string::StringSliceAdditionalSpecFns;

pub mod delete_object;
pub mod get_object;
pub mod head_object;
pub mod put_object;

use crate::HttpError;
use crate::Request;
use crate::Response;
use crate::ResponseParts;
use crate::api::future::Oneshot;
use crate::api::future::oneshot;
use crate::encoding::percent_encode;
use crate::encoding::percent_encoded;

verus! {

/// "https://"
pub open spec fn scheme_prefix() -> Seq<u8> {
    seq![
        'h' as u8,
        't' as u8,
        't' as u8,
        'p' as u8,
        's' as u8,
        ':' as u8,
        '/' as u8,
        '/' as u8,
    ]
}

/// ".storage.googleapis.com/"
pub open spec fn host_suffix() -> Seq<u8> {
    seq![
        '.' as u8,
        's' as u8,
        't' as u8,
        'o' as u8,
        'r' as u8,
        'a' as u8,
        'g' as u8,
        'e' as u8,
        '.' as u8,
        'g' as u8,
        'o' as u8,
        'o' as u8,
        'g' as u8,
        'l' as u8,
        'e' as u8,
        'a' as u8,
        'p' as u8,
        'i' as u8,
        's' as u8,
        '.' as u8,
        'c' as u8,
        'o' as u8,
        'm' as u8,
        '/' as u8,
    ]
}

/// The object URI of this protocol: the bucket names the virtual host, the
/// percent-encoded object name is the path.
pub open spec fn spec_uri(bucket: Seq<u8>, object: Seq<u8>) -> Seq<u8> {
    scheme_prefix() + bucket + host_suffix() + percent_encoded(object)
}

/// Builds the object URI from the UTF-8 bytes of the two names.
pub fn uri(bucket_name: &str, object_name: &str) -> (r: Vec<u8>)
    ensures
        r@ == spec_uri(bucket_name.spec_bytes(), object_name.spec_bytes()),
{
    let scheme: [u8; 8] = [
        'h' as u8,
        't' as u8,
        't' as u8,
        'p' as u8,
        's' as u8,
        ':' as u8,
        '/' as u8,
        '/' as u8,
    ];
    let suffix: [u8; 24] = [
        '.' as u8,
        's' as u8,
        't' as u8,
        'o' as u8,
        'r' as u8,
        'a' as u8,
        'g' as u8,
        'e' as u8,
        '.' as u8,
        'g' as u8,
        'o' as u8,
        'o' as u8,
        'g' as u8,
        'l' as u8,
        'e' as u8,
        'a' as u8,
        'p' as u8,
        'i' as u8,
        's' as u8,
        '.' as u8,
        'c' as u8,
        'o' as u8,
        'm' as u8,
        '/' as u8,
    ];
    let mut out: Vec<u8> = slice_to_vec(scheme.as_slice());
    let mut bucket: Vec<u8> = slice_to_vec(bucket_name.as_bytes());
    out.append(&mut bucket);
    let mut tail: Vec<u8> = slice_to_vec(suffix.as_slice());
    out.append(&mut tail);
    let mut object: Vec<u8> = percent_encode(object_name.as_bytes());
    out.append(&mut object);
    proof {
        assert(scheme@ =~= scheme_prefix());
        assert(suffix@ =~= host_suffix());
        assert(out@ =~= spec_uri(bucket_name.spec_bytes(), object_name.spec_bytes()));
    }
    out
}

/// Wires a built request into the status-validation machine: a good request
/// is handed back to be sent, a construction failure resolves on the first
/// poll as an HTTP error.
pub fn send<T, SE, BE>(request: Result<Request<T>, HttpError>) -> (r: (
    Oneshot<SE, BE>,
    Option<Request<T>>,
))
    ensures
        request matches Ok(req) ==> r.0 is S0 && r.1 == Some(req),
        request matches Err(e) ==> r.0 == Oneshot::<SE, BE>::S1(crate::Error::Http(e)) && r.1
            is None,
{
    match request {
        Ok(req) => oneshot(Ok(req)),
        Err(e) => oneshot(Err(crate::Error::Http(e))),
    }
}

/// Maps the machine's resolution into the operation error taxonomy, one
/// variant to one; success passes through untouched.
pub fn finish<SE, BE>(result: Result<ResponseParts, crate::Error<SE, BE>>) -> (r: Result<
    ResponseParts,
    super::Error<SE, BE>,
>)
    ensures
        result matches Ok(parts) ==> r == Ok::<ResponseParts, super::Error<SE, BE>>(parts),
        result matches Err(e) ==> r == Err::<ResponseParts, super::Error<SE, BE>>(
            super::spec_map_err(e),
        ),
{
    match result {
        Ok(parts) => Ok(parts),
        Err(e) => Err(super::map_err(e)),
    }
}

/// Discards the body of a resolved response, keeping status and headers:
/// header-only operations use the body only to reach a status.
pub fn empty(parts: ResponseParts) -> (r: Response<()>)
    ensures
        r.status == parts.status,
        r.headers == parts.headers,
{
    Response { status: parts.status, headers: parts.headers, body: () }
}

} // verus!
