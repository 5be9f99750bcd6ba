//! Byte-level wire encodings used by the client: standard base64 (for the
//! content-digest header) and percent-encoding (for object names in URIs).
//!
//! The encodings themselves are performed by outside crates; this module
//! states exactly what those calls return, and proves the properties the
//! rest of the crate needs, chiefly that the base64 encoding is injective,
//! so that decoding is its exact inverse.

use vstd::prelude::*;

use base64::Engine;

verus! {

/// The standard base64 alphabet: the byte that stands for a 6-bit value.
pub open spec fn b64_digit(v: int) -> u8
    recommends
        0 <= v < 64,
{
    if 0 <= v < 26 {
        (65 + v) as u8  // 'A' to 'Z'
    } else if 26 <= v < 52 {
        (97 + (v - 26)) as u8  // 'a' to 'z'
    } else if 52 <= v < 62 {
        (48 + (v - 52)) as u8  // '0' to '9'
    } else if v == 62 {
        43u8  // '+'
    } else {
        47u8  // '/'
    }
}

/// Standard, padded base64 of a byte string: three input bytes become four
/// alphabet bytes; a final group of one or two bytes is padded with '='
/// (byte 61) and its unused low bits are zero.
pub open spec fn base64(s: Seq<u8>) -> Seq<u8>
    decreases s.len(),
{
    if s.len() == 0 {
        Seq::empty()
    } else if s.len() == 1 {
        let b0 = s[0] as int;
        seq![b64_digit(b0 / 4), b64_digit((b0 % 4) * 16), 61u8, 61u8]
    } else if s.len() == 2 {
        let b0 = s[0] as int;
        let b1 = s[1] as int;
        seq![
            b64_digit(b0 / 4),
            b64_digit((b0 % 4) * 16 + b1 / 16),
            b64_digit((b1 % 16) * 4),
            61u8,
        ]
    } else {
        let b0 = s[0] as int;
        let b1 = s[1] as int;
        let b2 = s[2] as int;
        seq![
            b64_digit(b0 / 4),
            b64_digit((b0 % 4) * 16 + b1 / 16),
            b64_digit((b1 % 16) * 4 + b2 / 64),
            b64_digit(b2 % 64),
        ] + base64(s.skip(3))
    }
}

/// True of byte strings that are the base64 encoding of something.
pub open spec fn is_base64(text: Seq<u8>) -> bool {
    exists|b: Seq<u8>| text == base64(b)
}

/// The byte string a base64 text encodes, where there is one.
pub open spec fn base64_preimage(text: Seq<u8>) -> Seq<u8> {
    choose|b: Seq<u8>| text == base64(b)
}

/// Relies on `base64`'s `general_purpose::STANDARD` engine (the standard
/// alphabet with padding) for encoding.
#[verifier::external_body]
pub(crate) fn base64_encode(bytes: &[u8]) -> (r: Vec<u8>)
    ensures
        r@ == base64(bytes@),
{
    base64::engine::general_purpose::STANDARD.encode(bytes).into_bytes()
}

/// Relies on `base64`'s `general_purpose::STANDARD` engine for decoding:
/// its configuration requires canonical padding and zero trailing bits, so
/// it accepts exactly the outputs of the padded standard encoding, and
/// inverts them.
#[verifier::external_body]
pub(crate) fn base64_decode(text: &[u8]) -> (r: Option<Vec<u8>>)
    ensures
        r matches Some(v) ==> text@ == base64(v@),
        is_base64(text@) ==> r is Some,
{
    base64::engine::general_purpose::STANDARD.decode(text).ok()
}

/// No alphabet byte is the padding byte '=' (61).
proof fn lemma_b64_digit_not_pad(v: int)
    requires
        0 <= v < 64,
    ensures
        b64_digit(v) != 61u8,
{
}

/// The alphabet is injective on 6-bit values.
proof fn lemma_b64_digit_injective(i: int, j: int)
    requires
        0 <= i < 64,
        0 <= j < 64,
        b64_digit(i) == b64_digit(j),
    ensures
        i == j,
{
}

/// The base64 encoding of a byte string determines the byte string:
/// no two inputs share an encoding.
pub proof fn lemma_base64_injective(a: Seq<u8>, b: Seq<u8>)
    requires
        base64(a) == base64(b),
    ensures
        a == b,
    decreases a.len(),
{
    let ea = base64(a);
    let eb = base64(b);
    if a.len() == 0 {
        if b.len() != 0 {
            assert(eb.len() >= 4);
            assert(false);
        }
        assert(a =~= b);
    } else if b.len() == 0 {
        assert(ea.len() >= 4);
        assert(false);
    } else {
        // The padding pattern at positions 2 and 3 separates the three
        // shapes a final group can take.
        if a.len() == 1 {
            assert(ea[2] == 61u8);
            if b.len() == 2 {
                assert(eb[2] == b64_digit((b[1] as int % 16) * 4));
                lemma_b64_digit_not_pad((b[1] as int % 16) * 4);
                assert(false);
            } else if b.len() >= 3 {
                assert(eb[2] == b64_digit((b[1] as int % 16) * 4 + b[2] as int / 64));
                lemma_b64_digit_not_pad((b[1] as int % 16) * 4 + b[2] as int / 64);
                assert(false);
            }
            assert(b.len() == 1);
            assert(ea[0] == b64_digit(a[0] as int / 4));
            assert(eb[0] == b64_digit(b[0] as int / 4));
            assert(ea[1] == b64_digit((a[0] as int % 4) * 16));
            assert(eb[1] == b64_digit((b[0] as int % 4) * 16));
            lemma_b64_digit_injective(a[0] as int / 4, b[0] as int / 4);
            lemma_b64_digit_injective((a[0] as int % 4) * 16, (b[0] as int % 4) * 16);
            assert(a[0] == b[0]);
            assert(a =~= b);
        } else if a.len() == 2 {
            assert(ea[2] == b64_digit((a[1] as int % 16) * 4));
            assert(ea[3] == 61u8);
            lemma_b64_digit_not_pad((a[1] as int % 16) * 4);
            if b.len() == 1 {
                assert(eb[2] == 61u8);
                assert(false);
            } else if b.len() >= 3 {
                assert(eb[3] == b64_digit(b[2] as int % 64));
                lemma_b64_digit_not_pad(b[2] as int % 64);
                assert(false);
            }
            assert(b.len() == 2);
            assert(ea[0] == b64_digit(a[0] as int / 4));
            assert(eb[0] == b64_digit(b[0] as int / 4));
            assert(ea[1] == b64_digit((a[0] as int % 4) * 16 + a[1] as int / 16));
            assert(eb[1] == b64_digit((b[0] as int % 4) * 16 + b[1] as int / 16));
            lemma_b64_digit_injective(a[0] as int / 4, b[0] as int / 4);
            lemma_b64_digit_injective(
                (a[0] as int % 4) * 16 + a[1] as int / 16,
                (b[0] as int % 4) * 16 + b[1] as int / 16,
            );
            lemma_b64_digit_injective((a[1] as int % 16) * 4, (b[1] as int % 16) * 4);
            assert(a[0] == b[0]);
            assert(a[1] == b[1]);
            assert(a =~= b);
        } else {
            assert(ea[2] == b64_digit((a[1] as int % 16) * 4 + a[2] as int / 64));
            assert(ea[3] == b64_digit(a[2] as int % 64));
            lemma_b64_digit_not_pad((a[1] as int % 16) * 4 + a[2] as int / 64);
            lemma_b64_digit_not_pad(a[2] as int % 64);
            if b.len() == 1 {
                assert(eb[2] == 61u8);
                assert(false);
            } else if b.len() == 2 {
                assert(eb[3] == 61u8);
                assert(false);
            }
            assert(b.len() >= 3);
            assert(ea[0] == b64_digit(a[0] as int / 4));
            assert(eb[0] == b64_digit(b[0] as int / 4));
            assert(ea[1] == b64_digit((a[0] as int % 4) * 16 + a[1] as int / 16));
            assert(eb[1] == b64_digit((b[0] as int % 4) * 16 + b[1] as int / 16));
            assert(eb[2] == b64_digit((b[1] as int % 16) * 4 + b[2] as int / 64));
            assert(eb[3] == b64_digit(b[2] as int % 64));
            lemma_b64_digit_injective(a[0] as int / 4, b[0] as int / 4);
            lemma_b64_digit_injective(
                (a[0] as int % 4) * 16 + a[1] as int / 16,
                (b[0] as int % 4) * 16 + b[1] as int / 16,
            );
            lemma_b64_digit_injective(
                (a[1] as int % 16) * 4 + a[2] as int / 64,
                (b[1] as int % 16) * 4 + b[2] as int / 64,
            );
            lemma_b64_digit_injective(a[2] as int % 64, b[2] as int % 64);
            assert(a[0] == b[0]);
            assert(a[1] == b[1]);
            assert(a[2] == b[2]);
            assert(base64(a.skip(3)) =~= base64(b.skip(3))) by {
                assert(base64(a.skip(3)).len() == base64(b.skip(3)).len());
                assert forall|k: int| 0 <= k < base64(a.skip(3)).len() implies base64(a.skip(3))[k]
                    == base64(b.skip(3))[k] by {
                    assert(base64(a.skip(3))[k] == ea[k + 4]);
                    assert(base64(b.skip(3))[k] == eb[k + 4]);
                }
            }
            lemma_base64_injective(a.skip(3), b.skip(3));
            assert(a.len() == a.skip(3).len() + 3);
            assert(b.len() == b.skip(3).len() + 3);
            assert(a.len() == b.len());
            assert forall|k: int| 0 <= k < a.len() implies a[k] == b[k] by {
                if k >= 3 {
                    assert(a.skip(3)[k - 3] == b.skip(3)[k - 3]);
                    assert(a.skip(3)[k - 3] == a[k]);
                    assert(b.skip(3)[k - 3] == b[k]);
                }
            }
            assert(a =~= b);
        }
    }
}

/// The encoding's length: four output bytes for every started group of
/// three input bytes.
pub proof fn lemma_base64_len(s: Seq<u8>)
    ensures
        base64(s).len() == 4 * ((s.len() + 2) / 3),
    decreases s.len(),
{
    if s.len() >= 3 {
        lemma_base64_len(s.skip(3));
    }
}

/// Where a base64 text has a preimage, that preimage is unique, so the
/// `choose`-based projection is exact.
pub proof fn lemma_base64_preimage(text: Seq<u8>, b: Seq<u8>)
    requires
        text == base64(b),
    ensures
        is_base64(text),
        base64_preimage(text) == b,
{
    assert(is_base64(text));
    lemma_base64_injective(base64_preimage(text), b);
}

/// True of bytes that percent-encoding leaves as they are: ASCII letters
/// and digits.
pub open spec fn is_ascii_alphanumeric_byte(b: u8) -> bool {
    (48 <= b <= 57) || (65 <= b <= 90) || (97 <= b <= 122)
}

/// Upper-case hexadecimal digit of a 4-bit value.
pub open spec fn hex_digit_upper(v: int) -> u8
    recommends
        0 <= v < 16,
{
    if v < 10 {
        (48 + v) as u8
    } else {
        (65 + (v - 10)) as u8
    }
}

/// Percent-encoding with the non-alphanumeric set: ASCII letters and digits
/// pass through; every other byte becomes '%' and two upper-case hex digits.
pub open spec fn percent_encoded(s: Seq<u8>) -> Seq<u8>
    decreases s.len(),
{
    if s.len() == 0 {
        Seq::empty()
    } else {
        let head = if is_ascii_alphanumeric_byte(s[0]) {
            seq![s[0]]
        } else {
            seq![37u8, hex_digit_upper(s[0] as int / 16), hex_digit_upper(s[0] as int % 16)]
        };
        head + percent_encoded(s.drop_first())
    }
}

/// Relies on `percent_encoding::percent_encode` with the `NON_ALPHANUMERIC`
/// set: it keeps exactly the ASCII alphanumeric bytes and writes every other
/// byte as '%' followed by its two upper-case hex digits.
#[verifier::external_body]
pub(crate) fn percent_encode(input: &[u8]) -> (r: Vec<u8>)
    ensures
        r@ == percent_encoded(input@),
{
    percent_encoding::percent_encode(input, percent_encoding::NON_ALPHANUMERIC)
        .to_string()
        .into_bytes()
}

} // verus!
