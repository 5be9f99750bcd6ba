//! End-to-end scenarios: the typed operations driven against an in-memory
//! object store that answers like the service — digests checked on upload,
//! structured not-found payloads, metadata patching.

use std::collections::HashMap;

use gcs_client::HeaderMap;
use gcs_client::Method;
use gcs_client::ResponseParts;
use gcs_client::api::Error;
use gcs_client::api::future::Event;
use gcs_client::api::future::Oneshot;
use gcs_client::api::future::OneshotPoll;
use gcs_client::api::json::Send;
use gcs_client::api::json::SendEvent;
use gcs_client::api::json::SendPoll;
use gcs_client::api::json::patch_object;
use gcs_client::api::xml::delete_object;
use gcs_client::api::xml::get_object;
use gcs_client::api::xml::head_object;
use gcs_client::api::xml::put_object;
use gcs_client::header::ContentType;
use gcs_client::header::XGoogHash;
use md5::Digest;
use md5::Md5;

const NOT_FOUND_BODY: &[u8] =
    b"<Error><Code>NoSuchKey</Code><Message>The specified key does not exist.</Message></Error>";
const BAD_DIGEST_BODY: &[u8] = b"<Error><Code>BadDigest</Code></Error>";

struct StoredObject {
    data: Vec<u8>,
    content_type: Vec<u8>,
}

struct Store {
    objects: HashMap<String, StoredObject>,
}

/// The bucket and encoded object name a request URI addresses, whichever
/// of the two protocols formed it.
fn key_of(uri: &[u8]) -> String {
    let s = String::from_utf8(uri.to_vec()).unwrap();
    if let Some(rest) = s.strip_prefix("https://storage.googleapis.com/storage/v1/b/") {
        let (bucket, object) = rest.split_once("/o/").unwrap();
        format!("{bucket}/{object}")
    } else {
        let rest = s.strip_prefix("https://").unwrap();
        let (bucket, object) = rest.split_once(".storage.googleapis.com/").unwrap();
        format!("{bucket}/{object}")
    }
}

impl Store {
    fn new() -> Store {
        Store {
            objects: HashMap::new(),
        }
    }

    fn md5_of(data: &[u8]) -> [u8; 16] {
        Md5::digest(data).into()
    }

    fn object_headers(o: &StoredObject) -> HeaderMap {
        let mut h = HeaderMap::new();
        h.append(
            b"content-length".to_vec(),
            o.data.len().to_string().into_bytes(),
        );
        h.append(b"content-type".to_vec(), o.content_type.clone());
        let digest = XGoogHash {
            crc32c: None,
            md5: Some(Self::md5_of(&o.data)),
        };
        digest.typed_insert(&mut h);
        h
    }

    fn handle(
        &mut self,
        method: Method,
        uri: &[u8],
        headers: &HeaderMap,
        body: &[u8],
    ) -> (u16, HeaderMap, Vec<Vec<u8>>) {
        let key = key_of(uri);
        match method {
            Method::Put => {
                let declared = headers.get_all(b"x-goog-hash");
                if !declared.is_empty() {
                    match XGoogHash::decode(&declared) {
                        Ok(x) => {
                            if let Some(m) = x.md5 {
                                if m != Self::md5_of(body) {
                                    return (
                                        400,
                                        HeaderMap::new(),
                                        vec![BAD_DIGEST_BODY.to_vec()],
                                    );
                                }
                            }
                        }
                        Err(_) => {
                            return (400, HeaderMap::new(), vec![BAD_DIGEST_BODY.to_vec()]);
                        }
                    }
                }
                let content_type = headers
                    .get_all(b"content-type")
                    .into_iter()
                    .next()
                    .unwrap_or_else(|| b"application/octet-stream".to_vec());
                let object = StoredObject {
                    data: body.to_vec(),
                    content_type,
                };
                let response_headers = Self::object_headers(&object);
                self.objects.insert(key, object);
                (200, response_headers, vec![])
            }
            Method::Head => match self.objects.get(&key) {
                Some(o) => (200, Self::object_headers(o), vec![]),
                None => (404, HeaderMap::new(), vec![]),
            },
            Method::Get => match self.objects.get(&key) {
                Some(o) => {
                    let mid = o.data.len() / 2;
                    let chunks = vec![o.data[..mid].to_vec(), o.data[mid..].to_vec()];
                    (200, Self::object_headers(o), chunks)
                }
                None => (404, HeaderMap::new(), vec![NOT_FOUND_BODY.to_vec()]),
            },
            Method::Delete => {
                if self.objects.remove(&key).is_some() {
                    (204, HeaderMap::new(), vec![])
                } else {
                    (404, HeaderMap::new(), vec![NOT_FOUND_BODY.to_vec()])
                }
            }
            Method::Patch => match self.objects.get_mut(&key) {
                Some(o) => {
                    let patch: serde_json::Value = serde_json::from_slice(body).unwrap();
                    if let Some(ct) = patch.get("contentType").and_then(|v| v.as_str()) {
                        o.content_type = ct.as_bytes().to_vec();
                    }
                    let record = format!(
                        "{{\"bucket\":\"b\",\"contentType\":\"{}\",\"crc32c\":\"AAAAAA==\",\"id\":\"{}\",\"name\":\"{}\",\"size\":\"{}\"}}",
                        String::from_utf8(o.content_type.clone()).unwrap(),
                        key,
                        key,
                        o.data.len(),
                    );
                    let headers = Self::object_headers(o);
                    (200, headers, vec![record.into_bytes()])
                }
                None => (404, HeaderMap::new(), vec![NOT_FOUND_BODY.to_vec()]),
            },
        }
    }
}

/// Runs the status-validation machine against the store's answer, draining
/// the error body where there is one.
fn run_oneshot(
    machine: Oneshot<String, String>,
    status: u16,
    headers: HeaderMap,
    chunks: Vec<Vec<u8>>,
) -> Result<ResponseParts, gcs_client::Error<String, String>> {
    match machine.poll(Event::Transport(Ok(ResponseParts { status, headers }))) {
        OneshotPoll::Ready(r) => r,
        OneshotPoll::Pending(mut m) => {
            for c in chunks {
                m = match m.poll(Event::Chunk(c)) {
                    OneshotPoll::Pending(next) => next,
                    OneshotPoll::Ready(_) => panic!("still draining"),
                };
            }
            match m.poll(Event::BodyEnd) {
                OneshotPoll::Ready(r) => r,
                OneshotPoll::Pending(_) => panic!("the drained body must resolve"),
            }
        }
    }
}

fn assert_status(e: Error<String, String>, status: u16) {
    if let Error::Status(se) = e {
        assert_eq!(se.status(), status);
    } else {
        panic!("expected a status error");
    }
}

fn put(
    store: &mut Store,
    bucket: &str,
    object: &str,
    data: &[u8],
) -> Result<gcs_client::Response<()>, Error<String, String>> {
    let b = put_object::builder(bucket.to_string(), object.to_string(), data.to_vec());
    let (machine, request) = b.send::<String, String>();
    let (status, headers, chunks) =
        store.handle(request.method, &request.uri, &request.headers, &request.body);
    put_object::finish(run_oneshot(machine, status, headers, chunks))
}

fn head(
    store: &mut Store,
    bucket: &str,
    object: &str,
) -> Result<gcs_client::Response<()>, Error<String, String>> {
    let b = head_object::builder(bucket.to_string(), object.to_string());
    let (future, request) = b.send::<String, String>();
    let (status, headers, chunks) =
        store.handle(request.method, &request.uri, &request.headers, &[]);
    match future.poll(Event::Transport(Ok(ResponseParts { status, headers }))) {
        head_object::FuturePoll::Ready(r) => r,
        head_object::FuturePoll::Pending(mut f) => {
            for c in chunks {
                f = match f.poll(Event::Chunk(c)) {
                    head_object::FuturePoll::Pending(next) => next,
                    _ => panic!(),
                };
            }
            match f.poll(Event::BodyEnd) {
                head_object::FuturePoll::Ready(r) => r,
                _ => panic!(),
            }
        }
    }
}

#[test]
fn test_xml_head_object_no_such_key() {
    let mut store = Store::new();
    let e = head(&mut store, "bucket", "missing").unwrap_err();
    assert_status(e, 404);
}

#[test]
fn test_xml_get_object_no_such_key() {
    let mut store = Store::new();
    let b = get_object::builder("bucket".to_string(), "missing".to_string());
    let (machine, request) = b.send::<String, String>();
    let (status, headers, chunks) =
        store.handle(request.method, &request.uri, &request.headers, &[]);
    let e = gcs_client::api::xml::finish(run_oneshot(machine, status, headers, chunks))
        .unwrap_err();
    if let Error::Status(se) = &e {
        assert_eq!(se.response.body, NOT_FOUND_BODY.to_vec());
    }
    assert_status(e, 404);
}

#[test]
fn test_xml_delete_object_no_such_key() {
    let mut store = Store::new();
    let b = delete_object::builder("bucket".to_string(), "missing".to_string());
    let (machine, request) = b.send::<String, String>();
    let (status, headers, chunks) =
        store.handle(request.method, &request.uri, &request.headers, &[]);
    let e = delete_object::finish(run_oneshot(machine, status, headers, chunks)).unwrap_err();
    assert_status(e, 404);
}

#[test]
fn test_xml_put_object() {
    let mut store = Store::new();
    let data = b"hello world";

    {
        let response = put(&mut store, "bucket", "object-one", data).unwrap();
        let XGoogHash { md5, .. } = XGoogHash::typed_get(&response.headers).unwrap();
        assert_eq!(md5, Some(Md5::digest(data).into()));
    }
    {
        let response = head(&mut store, "bucket", "object-one").unwrap();
        let content_length = response.headers.get_all(b"content-length");
        assert_eq!(content_length, vec![b"11".to_vec()]);
        let XGoogHash { md5, .. } = XGoogHash::typed_get(&response.headers).unwrap();
        assert_eq!(md5, Some(Md5::digest(data).into()));
    }
    {
        let b = get_object::builder("bucket".to_string(), "object-one".to_string());
        let (machine, request) = b.send::<String, String>();
        let (status, headers, chunks) =
            store.handle(request.method, &request.uri, &request.headers, &[]);
        let parts = gcs_client::api::xml::finish(run_oneshot(
            machine,
            status,
            headers,
            chunks.clone(),
        ))
        .unwrap();
        let content_length = parts.headers.get_all(b"content-length");
        assert_eq!(content_length, vec![b"11".to_vec()]);
        let XGoogHash { md5, .. } = XGoogHash::typed_get(&parts.headers).unwrap();
        assert_eq!(md5, Some(Md5::digest(data).into()));

        // The success body streams on: collect it chunk by chunk.
        let mut collector = gcs_client::api::future::collect();
        collector = match collector.poll::<String, String>(
            gcs_client::api::future::CollectEvent::Inner(Ok(parts)),
        ) {
            gcs_client::api::future::CollectPoll::Pending(next) => next,
            _ => panic!(),
        };
        for c in chunks {
            collector = match collector
                .poll::<String, String>(gcs_client::api::future::CollectEvent::Chunk(c))
            {
                gcs_client::api::future::CollectPoll::Pending(next) => next,
                _ => panic!(),
            };
        }
        match collector.poll::<String, String>(gcs_client::api::future::CollectEvent::BodyEnd) {
            gcs_client::api::future::CollectPoll::Ready(Ok(response)) => {
                assert_eq!(response.body, data.to_vec());
            }
            _ => panic!(),
        }
    }
}

#[test]
fn test_xml_put_object_content_type() {
    let mut store = Store::new();
    let data = b"hello world";

    {
        put_object_with_content_type(&mut store, "bucket", "object-ct", data).unwrap();
    }
    {
        let response = head(&mut store, "bucket", "object-ct").unwrap();
        let content_type = response.headers.get_all(b"content-type");
        assert_eq!(content_type, vec![b"text/plain; charset=utf-8".to_vec()]);
    }
}

fn put_object_with_content_type(
    store: &mut Store,
    bucket: &str,
    object: &str,
    data: &[u8],
) -> Result<gcs_client::Response<()>, Error<String, String>> {
    let b = put_object::builder(bucket.to_string(), object.to_string(), data.to_vec())
        .typed_header(ContentType {
            value: b"text/plain; charset=utf-8".to_vec(),
        });
    let (machine, request) = b.send::<String, String>();
    let (status, headers, chunks) =
        store.handle(request.method, &request.uri, &request.headers, &request.body);
    put_object::finish(run_oneshot(machine, status, headers, chunks))
}

#[test]
fn test_xml_put_object_bad_digest() {
    let mut store = Store::new();
    let data = b"hello";
    let b = put_object::builder("bucket".to_string(), "object-bad".to_string(), data.to_vec())
        .typed_header(XGoogHash {
            md5: Some(Md5::digest("world").into()),
            ..XGoogHash::default()
        });
    let (machine, request) = b.send::<String, String>();
    let (status, headers, chunks) =
        store.handle(request.method, &request.uri, &request.headers, &request.body);
    let e = put_object::finish(run_oneshot(machine, status, headers, chunks)).unwrap_err();
    assert_status(e, 400);

    // The object was not created: a probe still answers not-found.
    let e = head(&mut store, "bucket", "object-bad").unwrap_err();
    assert_status(e, 404);
}

#[test]
fn test_xml_delete_object() {
    let mut store = Store::new();
    let data = b"hello world";

    put(&mut store, "bucket", "object-del", data).unwrap();
    head(&mut store, "bucket", "object-del").unwrap();
    {
        let b = delete_object::builder("bucket".to_string(), "object-del".to_string());
        let (machine, request) = b.send::<String, String>();
        let (status, headers, chunks) =
            store.handle(request.method, &request.uri, &request.headers, &[]);
        delete_object::finish(run_oneshot(machine, status, headers, chunks)).unwrap();
    }
    {
        let e = head(&mut store, "bucket", "object-del").unwrap_err();
        assert_status(e, 404);
    }
}

#[test]
fn test_json_patch_object_content_type() {
    let mut store = Store::new();
    let data = b"hello world";

    put(&mut store, "bucket", "objectpatch", data).unwrap();
    {
        let response = head(&mut store, "bucket", "objectpatch").unwrap();
        let content_type = response.headers.get_all(b"content-type");
        assert_eq!(content_type, vec![b"application/octet-stream".to_vec()]);
    }
    {
        let patch = patch_object::Request {
            content_type: Some("text/plain; charset=utf-8".to_string()),
        };
        let b = patch_object::builder(
            "bucket".to_string(),
            "objectpatch".to_string(),
            patch,
        );
        let body_json = format!(
            "{{\"contentType\":\"{}\"}}",
            b.request.content_type.as_ref().unwrap()
        )
        .into_bytes();
        let (machine, request) = b.send::<String, String>(Ok(body_json));
        let request = request.unwrap();
        let (status, headers, chunks) =
            store.handle(request.method, &request.uri, &request.headers, &request.body);

        let mut machine = match machine.poll::<patch_object::Response>(SendEvent::Transport(Ok(
            ResponseParts { status, headers },
        ))) {
            SendPoll::Pending(next) => next,
            _ => panic!(),
        };
        for c in chunks {
            machine = match machine.poll::<patch_object::Response>(SendEvent::Chunk(c)) {
                SendPoll::Pending(next) => next,
                _ => panic!(),
            };
        }
        machine = match machine.poll::<patch_object::Response>(SendEvent::BodyEnd) {
            SendPoll::Pending(next) => next,
            _ => panic!(),
        };
        let collected = match &machine {
            Send::Decoding { collected, .. } => collected.clone(),
            _ => panic!("the machine must be waiting for the decode"),
        };
        let value: serde_json::Value = serde_json::from_slice(&collected).unwrap();
        let decoded = patch_object::Response {
            bucket: value["bucket"].as_str().unwrap().to_string(),
            content_type: value["contentType"].as_str().unwrap().to_string(),
            crc32c: [0, 0, 0, 0],
            id: value["id"].as_str().unwrap().to_string(),
            md5_hash: None,
            name: value["name"].as_str().unwrap().to_string(),
            size: value["size"].as_str().unwrap().parse().unwrap(),
        };
        match machine.poll::<patch_object::Response>(SendEvent::Decoded(Ok(decoded))) {
            SendPoll::Ready(Ok(response)) => {
                assert_eq!(response.body.content_type, "text/plain; charset=utf-8");
                assert_eq!(response.body.size, 11);
            }
            _ => panic!(),
        }
    }
    {
        let response = head(&mut store, "bucket", "objectpatch").unwrap();
        let content_type = response.headers.get_all(b"content-type");
        assert_eq!(content_type, vec![b"text/plain; charset=utf-8".to_vec()]);
    }
}
