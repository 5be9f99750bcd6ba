//! The `x-goog-hash` response header: up to two content digests (a 4-byte
//! checksum and a 16-byte hash), each carried base64-encoded in its own
//! `crc32c=`/`md5=` sub-field.  Occurrences are decoded independently and
//! merged; malformed base64 or a wrong decoded length fails the decode.

use vstd::prelude::*;
use vstd::slice::slice_to_vec;

use crate::HeaderMap;
use crate::bytes_eq;
use crate::encoding::base64;
use crate::encoding::base64_decode;
use crate::encoding::base64_encode;
use crate::encoding::base64_preimage;
use crate::encoding::is_base64;
use crate::encoding::lemma_base64_preimage;
use crate::remove_named;
use crate::values_named;

verus! {

/// The content-digest header value: both sub-fields optional.
#[derive(Clone, Copy, Debug, PartialEq, Eq)]
pub struct XGoogHash {
    pub crc32c: Option<[u8; 4]>,
    pub md5: Option<[u8; 16]>,
}

/// Spec-level image of an `XGoogHash`.
pub struct XGoogHashView {
    pub crc32c: Option<Seq<u8>>,
    pub md5: Option<Seq<u8>>,
}

impl View for XGoogHash {
    type V = XGoogHashView;

    open spec fn view(&self) -> XGoogHashView {
        XGoogHashView {
            crc32c: match self.crc32c {
                Some(v) => Some(v@),
                None => None,
            },
            md5: match self.md5 {
                Some(v) => Some(v@),
                None => None,
            },
        }
    }
}

/// A view whose digests, where present, have the lengths the wire format
/// fixes: 4 bytes of checksum, 16 of hash.  Every `XGoogHash` value has it.
pub open spec fn wf_x_goog_hash(h: XGoogHashView) -> bool {
    &&& (h.crc32c matches Some(c) ==> c.len() == 4)
    &&& (h.md5 matches Some(m) ==> m.len() == 16)
}

/// The header's name, as bytes: "x-goog-hash".
pub open spec fn spec_header_name() -> Seq<u8> {
    seq![
        'x' as u8,
        '-' as u8,
        'g' as u8,
        'o' as u8,
        'o' as u8,
        'g' as u8,
        '-' as u8,
        'h' as u8,
        'a' as u8,
        's' as u8,
        'h' as u8,
    ]
}

/// The `crc32c=` sub-field prefix.
pub open spec fn crc32c_prefix() -> Seq<u8> {
    seq!['c' as u8, 'r' as u8, 'c' as u8, '3' as u8, '2' as u8, 'c' as u8, '=' as u8]
}

/// The `md5=` sub-field prefix.
pub open spec fn md5_prefix() -> Seq<u8> {
    seq!['m' as u8, 'd' as u8, '5' as u8, '=' as u8]
}

/// How one occurrence of the header updates the value decoded so far:
/// a `crc32c=` value must carry valid base64 of exactly 4 bytes, an `md5=`
/// value valid base64 of exactly 16; any other value changes nothing.
/// `None` is a hard decode failure.
pub open spec fn spec_decode_value(acc: XGoogHashView, v: Seq<u8>) -> Option<XGoogHashView> {
    if v.len() >= 7 && v.take(7) == crc32c_prefix() {
        let tail = v.skip(7);
        if is_base64(tail) && base64_preimage(tail).len() == 4 {
            Some(XGoogHashView { crc32c: Some(base64_preimage(tail)), md5: acc.md5 })
        } else {
            None
        }
    } else if v.len() >= 4 && v.take(4) == md5_prefix() {
        let tail = v.skip(4);
        if is_base64(tail) && base64_preimage(tail).len() == 16 {
            Some(XGoogHashView { crc32c: acc.crc32c, md5: Some(base64_preimage(tail)) })
        } else {
            None
        }
    } else {
        Some(acc)
    }
}

/// Decoding a sequence of occurrences, left to right, from a given start.
pub open spec fn spec_decode_from(acc: XGoogHashView, values: Seq<Seq<u8>>) -> Option<
    XGoogHashView,
>
    decreases values.len(),
{
    if values.len() == 0 {
        Some(acc)
    } else {
        match spec_decode_value(acc, values[0]) {
            Some(acc2) => spec_decode_from(acc2, values.drop_first()),
            None => None,
        }
    }
}

/// Decoding a sequence of occurrences from the empty value.
pub open spec fn spec_decode(values: Seq<Seq<u8>>) -> Option<XGoogHashView> {
    spec_decode_from(XGoogHashView { crc32c: None, md5: None }, values)
}

/// The wire form of a value: one occurrence per sub-field that is set, the
/// checksum first, each prefixed and base64-encoded; an unset sub-field
/// contributes nothing.
pub open spec fn spec_encode(h: XGoogHashView) -> Seq<Seq<u8>> {
    let c = match h.crc32c {
        Some(v) => seq![crc32c_prefix() + base64(v)],
        None => Seq::<Seq<u8>>::empty(),
    };
    let m = match h.md5 {
        Some(v) => seq![md5_prefix() + base64(v)],
        None => Seq::<Seq<u8>>::empty(),
    };
    c + m
}

impl XGoogHash {
    /// The header's name on the wire.
    pub fn name() -> (r: Vec<u8>)
        ensures
            r@ == spec_header_name(),
    {
        let arr: [u8; 11] = [
            'x' as u8,
            '-' as u8,
            'g' as u8,
            'o' as u8,
            'o' as u8,
            'g' as u8,
            '-' as u8,
            'h' as u8,
            'a' as u8,
            's' as u8,
            'h' as u8,
        ];
        let r = slice_to_vec(arr.as_slice());
        proof {
            assert(r@ =~= spec_header_name());
        }
        r
    }

    /// Decodes the given occurrences of the header, merging sub-fields
    /// across them; fails exactly where one occurrence is malformed.
    pub fn decode(values: &Vec<Vec<u8>>) -> (r: Result<XGoogHash, HeaderError>)
        ensures
            r is Ok <==> spec_decode(values@.map_values(|v: Vec<u8>| v@)) is Some,
            r matches Ok(h) ==> Some(h@) == spec_decode(values@.map_values(|v: Vec<u8>| v@)),
    {
        let ghost all = values@.map_values(|v: Vec<u8>| v@);
        let mut this = XGoogHash { crc32c: None, md5: None };
        let mut i: usize = 0;
        proof {
            assert(all.skip(0) =~= all);
        }
        while i < values.len()
            invariant
                i <= values.len(),
                all == values@.map_values(|v: Vec<u8>| v@),
                spec_decode(all) == spec_decode_from(this@, all.skip(i as int)),
            decreases values.len() - i,
        {
            let ghost rest = all.skip(i as int);
            let ghost acc0 = this@;
            let v = values[i].as_slice();
            proof {
                assert(rest[0] == v@);
                assert(rest.drop_first() =~= all.skip(i as int + 1));
            }
            let crc_prefix: [u8; 7] = [
                'c' as u8,
                'r' as u8,
                'c' as u8,
                '3' as u8,
                '2' as u8,
                'c' as u8,
                '=' as u8,
            ];
            let md_prefix: [u8; 4] = ['m' as u8, 'd' as u8, '5' as u8, '=' as u8];
            proof {
                assert(crc_prefix@ =~= crc32c_prefix());
                assert(md_prefix@ =~= md5_prefix());
                if v@.len() >= 7 {
                    assert(v@.subrange(0, 7) =~= v@.take(7));
                }
                if v@.len() >= 4 {
                    assert(v@.subrange(0, 4) =~= v@.take(4));
                }
            }
            let is_crc = v.len() >= 7 && bytes_eq(&v[0..7], crc_prefix.as_slice());
            if is_crc {
                let tail = &v[7..v.len()];
                proof {
                    assert(tail@ =~= v@.skip(7));
                }
                match base64_decode(tail) {
                    Some(bytes) => {
                        proof {
                            lemma_base64_preimage(tail@, bytes@);
                        }
                        if bytes.len() == 4 {
                            this.crc32c = Some([bytes[0], bytes[1], bytes[2], bytes[3]]);
                            proof {
                                assert(this@.crc32c matches Some(c) && c =~= bytes@);
                                assert(base64_preimage(v@.skip(7)) == bytes@);
                                assert(spec_decode_value(acc0, v@) == Some(this@));
                            }
                        } else {
                            proof {
                                assert(base64_preimage(v@.skip(7)).len() != 4);
                                assert(spec_decode_value(acc0, v@) is None);
                            }
                            return Err(HeaderError {  });
                        }
                    },
                    None => {
                        proof {
                            assert(!is_base64(v@.skip(7)));
                            assert(spec_decode_value(acc0, v@) is None);
                        }
                        return Err(HeaderError {  });
                    },
                }
            } else {
                let is_md = v.len() >= 4 && bytes_eq(&v[0..4], md_prefix.as_slice());
                if is_md {
                    let tail = &v[4..v.len()];
                    proof {
                        assert(tail@ =~= v@.skip(4));
                    }
                    match base64_decode(tail) {
                        Some(bytes) => {
                            proof {
                                lemma_base64_preimage(tail@, bytes@);
                            }
                            if bytes.len() == 16 {
                                this.md5 = Some(
                                    [
                                        bytes[0],
                                        bytes[1],
                                        bytes[2],
                                        bytes[3],
                                        bytes[4],
                                        bytes[5],
                                        bytes[6],
                                        bytes[7],
                                        bytes[8],
                                        bytes[9],
                                        bytes[10],
                                        bytes[11],
                                        bytes[12],
                                        bytes[13],
                                        bytes[14],
                                        bytes[15],
                                    ],
                                );
                                proof {
                                    assert(this@.md5 matches Some(m) && m =~= bytes@);
                                    assert(base64_preimage(v@.skip(4)) == bytes@);
                                    assert(spec_decode_value(acc0, v@) == Some(this@));
                                }
                            } else {
                                proof {
                                    assert(base64_preimage(v@.skip(4)).len() != 16);
                                    assert(spec_decode_value(acc0, v@) is None);
                                }
                                return Err(HeaderError {  });
                            }
                        },
                        None => {
                            proof {
                                assert(!is_base64(v@.skip(4)));
                                assert(spec_decode_value(acc0, v@) is None);
                            }
                            return Err(HeaderError {  });
                        },
                    }
                } else {
                    proof {
                        assert(spec_decode_value(acc0, v@) == Some(acc0));
                    }
                }
            }
            proof {
                assert(spec_decode_from(acc0, rest) == spec_decode_from(
                    this@,
                    all.skip(i as int + 1),
                ));
            }
            i += 1;
        }
        proof {
            assert(all.skip(values@.len() as int) =~= Seq::<Seq<u8>>::empty());
        }
        Ok(this)
    }

    /// Encodes this value into its wire occurrences.
    pub fn encode(&self) -> (r: Vec<Vec<u8>>)
        ensures
            r@.map_values(|v: Vec<u8>| v@) =~= spec_encode(self@),
    {
        let mut out: Vec<Vec<u8>> = Vec::new();
        if let Some(c) = &self.crc32c {
            let mut v: Vec<u8> = slice_to_vec(
                ['c' as u8, 'r' as u8, 'c' as u8, '3' as u8, '2' as u8, 'c' as u8, '=' as u8]
                    .as_slice(),
            );
            let mut enc = base64_encode(c.as_slice());
            v.append(&mut enc);
            proof {
                assert(v@ =~= crc32c_prefix() + base64(c@));
            }
            out.push(v);
        }
        if let Some(m) = &self.md5 {
            let mut v: Vec<u8> = slice_to_vec(
                ['m' as u8, 'd' as u8, '5' as u8, '=' as u8].as_slice(),
            );
            let mut enc = base64_encode(m.as_slice());
            v.append(&mut enc);
            proof {
                assert(v@ =~= md5_prefix() + base64(m@));
            }
            out.push(v);
        }
        out
    }
}

impl Default for XGoogHash {
    /// The value with neither sub-field set.
    fn default() -> (d: XGoogHash)
        ensures
            d@.crc32c is None,
            d@.md5 is None,
    {
        XGoogHash { crc32c: None, md5: None }
    }
}

impl XGoogHash {
    /// Reads this header from a header map, as a typed-header lookup does:
    /// absent means `None`, and a malformed occurrence is swallowed to
    /// `None` as well.
    pub fn typed_get(headers: &HeaderMap) -> (r: Option<XGoogHash>)
        ensures
            ({
                let vals = values_named(headers@, spec_header_name());
                &&& (vals.len() == 0 ==> r is None)
                &&& (vals.len() > 0 ==> match spec_decode(vals) {
                    Some(h) => r matches Some(x) && x@ == h,
                    None => r is None,
                })
            }),
    {
        let name = Self::name();
        let values = headers.get_all(name.as_slice());
        proof {
            assert(values@.map_values(|v: Vec<u8>| v@) == values_named(
                headers@,
                spec_header_name(),
            ));
        }
        if values.len() == 0 {
            None
        } else {
            match Self::decode(&values) {
                Ok(h) => Some(h),
                Err(_) => None,
            }
        }
    }

    /// Writes this header into a header map, as a typed-header insert does:
    /// every existing occurrence is replaced by the encoded ones.
    pub fn typed_insert(&self, headers: &mut HeaderMap)
        ensures
            final(headers)@ =~= remove_named(old(headers)@, spec_header_name()) + spec_encode(
                self@,
            ).map_values(|v: Seq<u8>| (spec_header_name(), v)),
    {
        insert_typed(self, headers);
    }
}

/// A typed header: a name and the value occurrences it encodes to.
pub trait TypedHeader {
    /// The header's name on the wire.
    spec fn spec_name(&self) -> Seq<u8>;

    /// The header's encoded value occurrences, in order.
    spec fn spec_values(&self) -> Seq<Seq<u8>>;

    fn name(&self) -> (r: Vec<u8>)
        ensures
            r@ == self.spec_name(),
    ;

    fn values(&self) -> (r: Vec<Vec<u8>>)
        ensures
            r@.map_values(|v: Vec<u8>| v@) =~= self.spec_values(),
    ;
}

impl TypedHeader for XGoogHash {
    open spec fn spec_name(&self) -> Seq<u8> {
        spec_header_name()
    }

    open spec fn spec_values(&self) -> Seq<Seq<u8>> {
        spec_encode(self@)
    }

    fn name(&self) -> (r: Vec<u8>) {
        XGoogHash::name()
    }

    fn values(&self) -> (r: Vec<Vec<u8>>) {
        self.encode()
    }
}

/// The content-type header, carried as raw bytes.
#[derive(Clone, Debug, PartialEq, Eq)]
pub struct ContentType {
    pub value: Vec<u8>,
}

/// The content-type header's name, as bytes: "content-type".
pub open spec fn content_type_name() -> Seq<u8> {
    seq![
        'c' as u8,
        'o' as u8,
        'n' as u8,
        't' as u8,
        'e' as u8,
        'n' as u8,
        't' as u8,
        '-' as u8,
        't' as u8,
        'y' as u8,
        'p' as u8,
        'e' as u8,
    ]
}

impl TypedHeader for ContentType {
    open spec fn spec_name(&self) -> Seq<u8> {
        content_type_name()
    }

    open spec fn spec_values(&self) -> Seq<Seq<u8>> {
        seq![self.value@]
    }

    fn name(&self) -> (r: Vec<u8>) {
        let arr: [u8; 12] = [
            'c' as u8,
            'o' as u8,
            'n' as u8,
            't' as u8,
            'e' as u8,
            'n' as u8,
            't' as u8,
            '-' as u8,
            't' as u8,
            'y' as u8,
            'p' as u8,
            'e' as u8,
        ];
        let r = slice_to_vec(arr.as_slice());
        proof {
            assert(r@ =~= content_type_name());
        }
        r
    }

    fn values(&self) -> (r: Vec<Vec<u8>>) {
        let mut out: Vec<Vec<u8>> = Vec::new();
        out.push(slice_to_vec(self.value.as_slice()));
        proof {
            assert(out@.map_values(|v: Vec<u8>| v@) =~= seq![self.value@]);
        }
        out
    }
}

/// Replaces every occurrence of a typed header in a map by its freshly
/// encoded occurrences, appended at the end.
pub fn insert_typed<H: TypedHeader>(header: &H, headers: &mut HeaderMap)
    ensures
        final(headers)@ =~= remove_named(old(headers)@, header.spec_name())
            + header.spec_values().map_values(|v: Seq<u8>| (header.spec_name(), v)),
{
    let name = header.name();
    headers.remove(name.as_slice());
    let ghost removed = headers@;
    let values = header.values();
    let ghost encoded = header.spec_values();
    let mut i: usize = 0;
    while i < values.len()
        invariant
            i <= values.len(),
            encoded == header.spec_values(),
            values@.map_values(|v: Vec<u8>| v@) =~= encoded,
            headers@ =~= removed + encoded.take(i as int).map_values(
                |v: Seq<u8>| (header.spec_name(), v),
            ),
        decreases values.len() - i,
    {
        let value = slice_to_vec(values[i].as_slice());
        let entry_name = header.name();
        proof {
            assert(value@ == encoded[i as int]);
        }
        headers.append(entry_name, value);
        proof {
            assert(encoded.take(i as int + 1) =~= encoded.take(i as int).push(encoded[i as int]));
            assert(headers@ =~= removed + encoded.take(i as int + 1).map_values(
                |v: Seq<u8>| (header.spec_name(), v),
            ));
        }
        i += 1;
    }
    proof {
        assert(encoded.take(values@.len() as int) =~= encoded);
    }
}

/// A malformed header value: bad base64 or a digest of the wrong length.
#[derive(Clone, Copy, Debug, PartialEq, Eq, Structural)]
pub struct HeaderError {}

/// Law: the header round-trips.  Encoding any well-formed value — both
/// sub-fields, one, or none — and decoding the resulting occurrences gives
/// back exactly the value; in particular two occurrences that set different
/// sub-fields merge into one value with both set.
pub proof fn lemma_header_round_trip(h: XGoogHashView)
    requires
        wf_x_goog_hash(h),
    ensures
        spec_decode(spec_encode(h)) == Some(h),
{
    let init = XGoogHashView { crc32c: None, md5: None };
    match h.crc32c {
        Some(c) => {
            let wire = crc32c_prefix() + base64(c);
            crate::encoding::lemma_base64_len(c);
            assert(wire.len() >= 7);
            assert(wire.take(7) =~= crc32c_prefix());
            assert(wire.skip(7) =~= base64(c));
            lemma_base64_preimage(base64(c), c);
            let acc1 = XGoogHashView { crc32c: Some(c), md5: None };
            assert(spec_decode_value(init, wire) == Some(acc1));
            match h.md5 {
                Some(m) => {
                    let mwire = md5_prefix() + base64(m);
                    lemma_decode_md5_wire(acc1, m);
                    let acc2 = XGoogHashView { crc32c: Some(c), md5: Some(m) };
                    let s = seq![wire, mwire];
                    assert(spec_encode(h) =~= s);
                    assert(s[0] == wire);
                    assert(spec_decode_from(init, s) == spec_decode_from(acc1, s.drop_first()));
                    assert(s.drop_first() =~= seq![mwire]);
                    assert(spec_decode_from(acc1, seq![mwire]) == spec_decode_from(
                        acc2,
                        seq![mwire].drop_first(),
                    ));
                    assert(seq![mwire].drop_first() =~= Seq::<Seq<u8>>::empty());
                    assert(spec_decode_from(acc2, Seq::<Seq<u8>>::empty()) == Some(acc2));
                    assert(acc2 == h);
                },
                None => {
                    let s = seq![wire];
                    assert(spec_encode(h) =~= s);
                    assert(s[0] == wire);
                    assert(spec_decode_from(init, s) == spec_decode_from(acc1, s.drop_first()));
                    assert(s.drop_first() =~= Seq::<Seq<u8>>::empty());
                    assert(spec_decode_from(acc1, Seq::<Seq<u8>>::empty()) == Some(acc1));
                    assert(acc1 == h);
                },
            }
        },
        None => {
            match h.md5 {
                Some(m) => {
                    let mwire = md5_prefix() + base64(m);
                    lemma_decode_md5_wire(init, m);
                    let acc1 = XGoogHashView { crc32c: None, md5: Some(m) };
                    let s = seq![mwire];
                    assert(spec_encode(h) =~= s);
                    assert(s[0] == mwire);
                    assert(spec_decode_from(init, s) == spec_decode_from(acc1, s.drop_first()));
                    assert(s.drop_first() =~= Seq::<Seq<u8>>::empty());
                    assert(spec_decode_from(acc1, Seq::<Seq<u8>>::empty()) == Some(acc1));
                    assert(acc1 == h);
                },
                None => {
                    assert(spec_encode(h) =~= Seq::<Seq<u8>>::empty());
                    assert(spec_decode_from(init, Seq::<Seq<u8>>::empty()) == Some(init));
                    assert(init == h);
                },
            }
        },
    }
}

/// Decoding one `md5=` occurrence sets the hash sub-field and keeps the
/// checksum sub-field of the value decoded so far.
proof fn lemma_decode_md5_wire(acc: XGoogHashView, m: Seq<u8>)
    requires
        m.len() == 16,
    ensures
        spec_decode_value(acc, md5_prefix() + base64(m)) == Some(
            XGoogHashView { crc32c: acc.crc32c, md5: Some(m) },
        ),
{
    let wire = md5_prefix() + base64(m);
    crate::encoding::lemma_base64_len(m);
    assert(wire.len() == 28);
    assert(wire[0] == 'm' as u8);
    assert(wire.take(7)[0] == 'm' as u8);
    assert(crc32c_prefix()[0] == 'c' as u8);
    assert(wire.take(7) != crc32c_prefix());
    assert(wire.take(4) =~= md5_prefix());
    assert(wire.skip(4) =~= base64(m));
    lemma_base64_preimage(base64(m), m);
}

/// True of a header occurrence that names a sub-field but carries a payload
/// the decoder must reject: base64 that does not decode, or a digest of the
/// wrong length.
pub open spec fn value_malformed(v: Seq<u8>) -> bool {
    if v.len() >= 7 && v.take(7) == crc32c_prefix() {
        !(is_base64(v.skip(7)) && base64_preimage(v.skip(7)).len() == 4)
    } else if v.len() >= 4 && v.take(4) == md5_prefix() {
        !(is_base64(v.skip(4)) && base64_preimage(v.skip(4)).len() == 16)
    } else {
        false
    }
}

proof fn lemma_malformed_fails_from(acc: XGoogHashView, values: Seq<Seq<u8>>, i: int)
    requires
        0 <= i < values.len(),
        value_malformed(values[i]),
    ensures
        spec_decode_from(acc, values) is None,
    decreases i,
{
    if i == 0 {
        assert(spec_decode_value(acc, values[0]) is None);
    } else {
        match spec_decode_value(acc, values[0]) {
            Some(acc2) => {
                assert(values.drop_first()[i - 1] == values[i]);
                lemma_malformed_fails_from(acc2, values.drop_first(), i - 1);
            },
            None => {
            },
        }
    }
}

/// Law: one malformed occurrence anywhere fails the whole decode; it is
/// never silently dropped.
pub proof fn lemma_malformed_fails_decode(values: Seq<Seq<u8>>, i: int)
    requires
        0 <= i < values.len(),
        value_malformed(values[i]),
    ensures
        spec_decode(values) is None,
{
    lemma_malformed_fails_from(XGoogHashView { crc32c: None, md5: None }, values, i);
}

} // verus!
