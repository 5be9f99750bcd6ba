//! The content-digest header codec, on the wire vectors it was written for.

use gcs_client::HeaderMap;
use gcs_client::header::ContentType;
use gcs_client::header::XGoogHash;

const CRC: [u8; 4] = [0x9f, 0x4d, 0xf1, 0xe8];
const MD5: [u8; 16] = [
    0x3a, 0x39, 0x3d, 0x73, 0x77, 0x61, 0x7f, 0x18, 0x28, 0x29, 0x55, 0x47, 0x63, 0x01, 0x5b, 0x1d,
];

#[test]
fn test_x_goo_hash_decode() {
    {
        let headers = HeaderMap::new();
        assert_eq!(XGoogHash::typed_get(&headers), None);
    }
    {
        let mut headers = HeaderMap::new();
        headers.append(b"x-goog-hash".to_vec(), b"crc32c=n03x6A==".to_vec());
        assert_eq!(
            XGoogHash::typed_get(&headers),
            Some(XGoogHash {
                crc32c: Some(CRC),
                ..XGoogHash::default()
            }),
        );
    }
    {
        let mut headers = HeaderMap::new();
        headers.append(b"x-goog-hash".to_vec(), b"md5=Ojk9c3dhfxgoKVVHYwFbHQ==".to_vec());
        assert_eq!(
            XGoogHash::typed_get(&headers),
            Some(XGoogHash {
                md5: Some(MD5),
                ..XGoogHash::default()
            }),
        );
    }
    {
        let mut headers = HeaderMap::new();
        headers.append(b"x-goog-hash".to_vec(), b"crc32c=n03x6A==".to_vec());
        headers.append(b"x-goog-hash".to_vec(), b"md5=Ojk9c3dhfxgoKVVHYwFbHQ==".to_vec());
        assert_eq!(
            XGoogHash::typed_get(&headers),
            Some(XGoogHash {
                crc32c: Some(CRC),
                md5: Some(MD5),
            }),
        );
    }
}

#[test]
fn test_x_goo_hash_encode() {
    {
        let mut headers = HeaderMap::new();
        let header = XGoogHash {
            crc32c: Some(CRC),
            md5: Some(MD5),
        };
        header.typed_insert(&mut headers);
        let values = headers.get_all(b"x-goog-hash");
        assert_eq!(values.len(), 2);
        assert_eq!(values[0], b"crc32c=n03x6A==".to_vec());
        assert_eq!(values[1], b"md5=Ojk9c3dhfxgoKVVHYwFbHQ==".to_vec());
    }
}

#[test]
fn test_x_goo_hash_encode_omits_unset() {
    let only_crc = XGoogHash {
        crc32c: Some(CRC),
        md5: None,
    };
    let values = only_crc.encode();
    assert_eq!(values, vec![b"crc32c=n03x6A==".to_vec()]);

    let only_md5 = XGoogHash {
        crc32c: None,
        md5: Some(MD5),
    };
    let values = only_md5.encode();
    assert_eq!(values, vec![b"md5=Ojk9c3dhfxgoKVVHYwFbHQ==".to_vec()]);

    let neither = XGoogHash::default();
    assert_eq!(neither.encode(), Vec::<Vec<u8>>::new());
}

#[test]
fn test_x_goo_hash_decode_rejects_bad_base64() {
    let values = vec![b"crc32c=!!!!".to_vec()];
    assert!(XGoogHash::decode(&values).is_err());
    let values = vec![b"md5=Ojk9c3dhfxgoKVVHYwFbH".to_vec()];
    assert!(XGoogHash::decode(&values).is_err());
}

#[test]
fn test_x_goo_hash_decode_rejects_wrong_length() {
    // Valid base64, but three bytes where the checksum needs four.
    let values = vec![b"crc32c=n03x".to_vec()];
    assert!(XGoogHash::decode(&values).is_err());
    // Valid base64, but four bytes where the hash needs sixteen.
    let values = vec![b"md5=n03x6A==".to_vec()];
    assert!(XGoogHash::decode(&values).is_err());
}

#[test]
fn test_x_goo_hash_decode_ignores_other_values() {
    let values = vec![b"sha256=abcd".to_vec(), b"crc32c=n03x6A==".to_vec()];
    let decoded = XGoogHash::decode(&values).unwrap();
    assert_eq!(decoded.crc32c, Some(CRC));
    assert_eq!(decoded.md5, None);
}

#[test]
fn test_x_goo_hash_typed_get_swallows_malformed() {
    let mut headers = HeaderMap::new();
    headers.append(b"x-goog-hash".to_vec(), b"crc32c=!!!!".to_vec());
    assert_eq!(XGoogHash::typed_get(&headers), None);
}

#[test]
fn test_typed_insert_replaces_existing() {
    let mut headers = HeaderMap::new();
    headers.append(b"x-goog-hash".to_vec(), b"crc32c=AAAAAA==".to_vec());
    headers.append(b"accept".to_vec(), b"*/*".to_vec());
    let header = XGoogHash {
        crc32c: Some(CRC),
        md5: None,
    };
    header.typed_insert(&mut headers);
    let values = headers.get_all(b"x-goog-hash");
    assert_eq!(values, vec![b"crc32c=n03x6A==".to_vec()]);
    assert_eq!(headers.get_all(b"accept"), vec![b"*/*".to_vec()]);
}

#[test]
fn test_content_type_header() {
    let mut headers = HeaderMap::new();
    let header = ContentType {
        value: b"text/plain; charset=utf-8".to_vec(),
    };
    gcs_client::header::insert_typed(&header, &mut headers);
    assert_eq!(
        headers.get_all(b"content-type"),
        vec![b"text/plain; charset=utf-8".to_vec()]
    );
}
