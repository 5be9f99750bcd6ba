//! A typed client core for a cloud object-storage service.
//!
//! The crate models the request/response processing pipeline of such a
//! client: authentication-token injection, HTTP status validation,
//! response-body collection and typed decoding, composed around an
//! arbitrary transport.  Requests and responses are plain data; the
//! asynchronous transport itself is an external collaborator that drives
//! the state machines defined here by feeding them events.

use vstd::prelude::*;
use vstd::slice::slice_to_vec;

pub mod api;
pub mod encoding;
pub mod header;
pub mod middleware;
pub mod token;
pub mod yup_oauth2;

verus! {

/// Carrier for a request-construction failure reported by the surrounding
/// HTTP glue: the descriptor could not be turned into a wire request.
/// The message is kept only for diagnostics; the pipeline never reads it.
#[derive(Debug)]
pub struct HttpError {
    pub message: String,
}

/// Request method of the wire protocols used by this client.
#[derive(Clone, Copy, Debug, PartialEq, Eq, Structural)]
pub enum Method {
    Get,
    Head,
    Put,
    Delete,
    Patch,
}

/// One header field line: a name and a value, both byte strings.
/// Names are stored lower-case and compared byte-for-byte.
#[derive(Debug)]
pub struct HeaderEntry {
    pub name: Vec<u8>,
    pub value: Vec<u8>,
}

impl View for HeaderEntry {
    type V = (Seq<u8>, Seq<u8>);

    open spec fn view(&self) -> (Seq<u8>, Seq<u8>) {
        (self.name@, self.value@)
    }
}

/// An ordered multimap of header fields, in insertion order.
#[derive(Debug)]
pub struct HeaderMap {
    pub entries: Vec<HeaderEntry>,
}

/// The header fields with a given name, in order, as a spec-level projection.
pub open spec fn values_named(entries: Seq<(Seq<u8>, Seq<u8>)>, name: Seq<u8>) -> Seq<Seq<u8>> {
    entries.filter(|e: (Seq<u8>, Seq<u8>)| e.0 == name).map_values(|e: (Seq<u8>, Seq<u8>)| e.1)
}

/// The header fields left after removing every field with a given name.
pub open spec fn remove_named(
    entries: Seq<(Seq<u8>, Seq<u8>)>,
    name: Seq<u8>,
) -> Seq<(Seq<u8>, Seq<u8>)> {
    entries.filter(|e: (Seq<u8>, Seq<u8>)| e.0 != name)
}

impl View for HeaderMap {
    type V = Seq<(Seq<u8>, Seq<u8>)>;

    open spec fn view(&self) -> Seq<(Seq<u8>, Seq<u8>)> {
        self.entries@.map_values(|e: HeaderEntry| e@)
    }
}

/// Byte-for-byte equality of two byte strings.
pub fn bytes_eq(a: &[u8], b: &[u8]) -> (r: bool)
    ensures
        r <==> a@ == b@,
{
    if a.len() != b.len() {
        proof {
            assert(a@.len() != b@.len());
        }
        return false;
    }
    let mut i: usize = 0;
    while i < a.len()
        invariant
            i <= a.len(),
            a.len() == b.len(),
            forall|j: int| 0 <= j < i ==> a@[j] == b@[j],
        decreases a.len() - i,
    {
        if a[i] != b[i] {
            return false;
        }
        i += 1;
    }
    proof {
        assert(a@ =~= b@);
    }
    true
}

impl HeaderMap {
    /// An empty header map.
    pub fn new() -> (h: HeaderMap)
        ensures
            h@ =~= Seq::<(Seq<u8>, Seq<u8>)>::empty(),
    {
        let h = HeaderMap { entries: Vec::new() };
        proof {
            assert(h@ =~= Seq::<(Seq<u8>, Seq<u8>)>::empty());
        }
        h
    }

    /// Adds a field at the end, keeping any existing fields of the same name.
    pub fn append(&mut self, name: Vec<u8>, value: Vec<u8>)
        ensures
            final(self)@ =~= old(self)@.push((name@, value@)),
    {
        let ghost old_entries = self.entries@;
        self.entries.push(HeaderEntry { name, value });
        proof {
            assert(self@ =~= old(self)@.push((name@, value@)));
        }
    }

    /// Removes every field with the given name.
    pub fn remove(&mut self, name: &[u8])
        ensures
            final(self)@ =~= remove_named(old(self)@, name@),
    {
        let mut kept: Vec<HeaderEntry> = Vec::new();
        let mut i: usize = 0;
        while i < self.entries.len()
            invariant
                i <= self.entries.len(),
                self == old(self),
                kept@.map_values(|e: HeaderEntry| e@) =~= remove_named(
                    self@.take(i as int),
                    name@,
                ),
            decreases self.entries.len() - i,
        {
            let ghost t0 = self@.take(i as int);
            let ghost t1 = self@.take(i as int + 1);
            let ghost kept0 = kept@;
            let e = &self.entries[i];
            let keep = !bytes_eq(e.name.as_slice(), name);
            proof {
                assert(t1.drop_last() =~= t0);
                assert(t1.last() == self@[i as int]);
                assert(e@ == self@[i as int]);
                reveal(Seq::filter);
                if keep {
                    assert(remove_named(t1, name@) =~= remove_named(t0, name@).push(e@));
                } else {
                    assert(remove_named(t1, name@) =~= remove_named(t0, name@));
                }
            }
            if keep {
                let copied = HeaderEntry {
                    name: slice_to_vec(e.name.as_slice()),
                    value: slice_to_vec(e.value.as_slice()),
                };
                proof {
                    assert(copied@ == e@);
                }
                kept.push(copied);
                proof {
                    assert(kept@.map_values(|e: HeaderEntry| e@) =~= kept0.map_values(
                        |e: HeaderEntry| e@,
                    ).push(e@));
                }
            }
            i += 1;
        }
        proof {
            assert(self@.take(self.entries@.len() as int) =~= self@);
        }
        self.entries = kept;
        proof {
            assert(self@ =~= remove_named(old(self)@, name@));
        }
    }

    /// Replaces every field of the given name with the single given field,
    /// appended at the end.
    pub fn insert(&mut self, name: Vec<u8>, value: Vec<u8>)
        ensures
            final(self)@ =~= remove_named(old(self)@, name@).push((name@, value@)),
    {
        self.remove(name.as_slice());
        self.append(name, value);
    }

    /// The values of every field with the given name, in order.
    pub fn get_all(&self, name: &[u8]) -> (r: Vec<Vec<u8>>)
        ensures
            r@.map_values(|v: Vec<u8>| v@) =~= values_named(self@, name@),
    {
        let mut out: Vec<Vec<u8>> = Vec::new();
        let mut i: usize = 0;
        while i < self.entries.len()
            invariant
                i <= self.entries.len(),
                out@.map_values(|v: Vec<u8>| v@) =~= values_named(self@.take(i as int), name@),
            decreases self.entries.len() - i,
        {
            let ghost t0 = self@.take(i as int);
            let ghost t1 = self@.take(i as int + 1);
            let ghost out0 = out@;
            let e = &self.entries[i];
            let hit = bytes_eq(e.name.as_slice(), name);
            proof {
                assert(t1.drop_last() =~= t0);
                assert(t1.last() == self@[i as int]);
                assert(e@ == self@[i as int]);
                reveal(Seq::filter);
                if hit {
                    assert(t1.filter(|x: (Seq<u8>, Seq<u8>)| x.0 == name@) =~= t0.filter(
                        |x: (Seq<u8>, Seq<u8>)| x.0 == name@,
                    ).push(e@));
                    assert(values_named(t1, name@) =~= values_named(t0, name@).push(e@.1));
                } else {
                    assert(t1.filter(|x: (Seq<u8>, Seq<u8>)| x.0 == name@) =~= t0.filter(
                        |x: (Seq<u8>, Seq<u8>)| x.0 == name@,
                    ));
                    assert(values_named(t1, name@) =~= values_named(t0, name@));
                }
            }
            if hit {
                out.push(slice_to_vec(e.value.as_slice()));
                proof {
                    assert(out@.map_values(|v: Vec<u8>| v@) =~= out0.map_values(
                        |v: Vec<u8>| v@,
                    ).push(e@.1));
                }
            }
            i += 1;
        }
        proof {
            assert(self@.take(self.entries@.len() as int) =~= self@);
        }
        out
    }

    /// How many fields the map holds.
    pub fn len(&self) -> (n: usize)
        ensures
            n == self@.len(),
    {
        self.entries.len()
    }
}

/// A request descriptor, ready for a transport to send.
#[derive(Debug)]
pub struct Request<T> {
    pub method: Method,
    pub uri: Vec<u8>,
    pub headers: HeaderMap,
    pub body: T,
}

/// Spec-level image of a `Request`.
pub struct RequestView<B> {
    pub method: Method,
    pub uri: Seq<u8>,
    pub headers: Seq<(Seq<u8>, Seq<u8>)>,
    pub body: B,
}

impl<T: View> View for Request<T> {
    type V = RequestView<T::V>;

    open spec fn view(&self) -> RequestView<T::V> {
        RequestView {
            method: self.method,
            uri: self.uri@,
            headers: self.headers@,
            body: self.body@,
        }
    }
}

/// Status and headers of a response, separated from its body.
#[derive(Debug)]
pub struct ResponseParts {
    pub status: u16,
    pub headers: HeaderMap,
}

/// Spec-level image of `ResponseParts`.
pub struct ResponsePartsView {
    pub status: u16,
    pub headers: Seq<(Seq<u8>, Seq<u8>)>,
}

impl View for ResponseParts {
    type V = ResponsePartsView;

    open spec fn view(&self) -> ResponsePartsView {
        ResponsePartsView { status: self.status, headers: self.headers@ }
    }
}

/// A response whose body has been fully materialised (or replaced).
#[derive(Debug)]
pub struct Response<T> {
    pub status: u16,
    pub headers: HeaderMap,
    pub body: T,
}

/// Spec-level image of a `Response`.
pub struct ResponseView<B> {
    pub status: u16,
    pub headers: Seq<(Seq<u8>, Seq<u8>)>,
    pub body: B,
}

impl<T: View> View for Response<T> {
    type V = ResponseView<T::V>;

    open spec fn view(&self) -> ResponseView<T::V> {
        ResponseView { status: self.status, headers: self.headers@, body: self.body@ }
    }
}

/// True of status codes that the protocol counts as success.
pub open spec fn spec_is_success(status: u16) -> bool {
    200 <= status < 300
}

/// Success statuses pass the pipeline through untouched; all others divert
/// into error-body collection.
pub fn is_success(status: u16) -> (r: bool)
    ensures
        r == spec_is_success(status),
{
    200 <= status && status < 300
}

/// The error of the raw pipeline, exactly one variant populated: a request
/// that could not be built, a transport failure, a body-stream failure, or a
/// well-formed non-success response with its collected body.
#[derive(Debug)]
pub enum Error<S, B> {
    Http(HttpError),
    Service(S),
    Body(B),
    Status(Response<Vec<u8>>),
}

} // verus!
