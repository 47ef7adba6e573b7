use vstd::prelude::*;
use base64::Engine;
use crate::error::BridgeError;

verus! {

/// The digit that stands for a six-bit value in the standard base64 alphabet:
/// `A`-`Z`, `a`-`z`, `0`-`9`, `+`, `/`.
pub open spec fn sextet_char(v: u8) -> char {
    if v < 26 {
        (v as u32 + 65) as char
    } else if v < 52 {
        (v as u32 + 71) as char
    } else if v < 62 {
        (v as u32 - 4) as char
    } else if v == 62 {
        '+'
    } else {
        '/'
    }
}

/// The four digits of one full group of three bytes.
pub open spec fn encode_group(a: u8, b: u8, c: u8) -> Seq<char> {
    seq![
        sextet_char(a >> 2),
        sextet_char(((a & 3) << 4) | (b >> 4)),
        sextet_char(((b & 15) << 2) | (c >> 6)),
        sextet_char(c & 63),
    ]
}

/// Standard base64 with padding: each group of three bytes becomes four
/// digits, and a final group of one or two bytes is padded with `=`.
pub open spec fn b64_encode(b: Seq<u8>) -> Seq<char>
    decreases b.len(),
{
    if b.len() == 0 {
        seq![]
    } else if b.len() == 1 {
        seq![sextet_char(b[0] >> 2), sextet_char((b[0] & 3) << 4), '=', '=']
    } else if b.len() == 2 {
        seq![
            sextet_char(b[0] >> 2),
            sextet_char(((b[0] & 3) << 4) | (b[1] >> 4)),
            sextet_char((b[1] & 15) << 2),
            '=',
        ]
    } else {
        encode_group(b[0], b[1], b[2]) + b64_encode(b.subrange(3, b.len() as int))
    }
}

/// The bytes whose encoding is `s`, if there are any.
pub open spec fn b64_decode(s: Seq<char>) -> Option<Seq<u8>> {
    if exists|b: Seq<u8>| b64_encode(b) == s {
        Some(choose|b: Seq<u8>| b64_encode(b) == s)
    } else {
        None
    }
}

proof fn lemma_sextet_injective(x: u8, y: u8)
    requires
        x < 64,
        y < 64,
        sextet_char(x) == sextet_char(y),
    ensures
        x == y,
{
}

proof fn lemma_sextet_not_pad(x: u8)
    requires
        x < 64,
    ensures
        sextet_char(x) != '=',
{
}

proof fn lemma_group_bits(a: u8, b: u8, c: u8, x: u8, y: u8, z: u8)
    by (bit_vector)
    requires
        a >> 2 == x >> 2,
        ((a & 3) << 4) | (b >> 4) == ((x & 3) << 4) | (y >> 4),
        ((b & 15) << 2) | (c >> 6) == ((y & 15) << 2) | (z >> 6),
        c & 63 == z & 63,
    ensures
        a == x,
        b == y,
        c == z,
{
}

proof fn lemma_sextets_small(a: u8, b: u8, c: u8)
    by (bit_vector)
    ensures
        a >> 2 < 64,
        ((a & 3) << 4) | (b >> 4) < 64,
        ((b & 15) << 2) | (c >> 6) < 64,
        c & 63 < 64,
        (a & 3) << 4 < 64,
        (b & 15) << 2 < 64,
{
}

proof fn lemma_group_injective(a: u8, b: u8, c: u8, x: u8, y: u8, z: u8)
    requires
        encode_group(a, b, c) == encode_group(x, y, z),
    ensures
        a == x,
        b == y,
        c == z,
{
    let g = encode_group(a, b, c);
    let h = encode_group(x, y, z);
    assert(g[0] == h[0] && g[1] == h[1] && g[2] == h[2] && g[3] == h[3]);
    lemma_sextets_small(a, b, c);
    lemma_sextets_small(x, y, z);
    lemma_sextet_injective(a >> 2, x >> 2);
    lemma_sextet_injective(((a & 3) << 4) | (b >> 4), ((x & 3) << 4) | (y >> 4));
    lemma_sextet_injective(((b & 15) << 2) | (c >> 6), ((y & 15) << 2) | (z >> 6));
    lemma_sextet_injective(c & 63, z & 63);
    lemma_group_bits(a, b, c, x, y, z);
}

proof fn lemma_encode_shape(b: Seq<u8>)
    ensures
        b.len() == 0 <==> b64_encode(b).len() == 0,
        b.len() >= 3 ==> b64_encode(b).len() >= 4 && b64_encode(b)[3] != '=',
        b.len() == 2 ==> b64_encode(b).len() == 4 && b64_encode(b)[2] != '=' && b64_encode(
            b,
        )[3] == '=',
        b.len() == 1 ==> b64_encode(b).len() == 4 && b64_encode(b)[2] == '=',
{
    if b.len() >= 1 {
        lemma_sextets_small(b[0], 0, 0);
    }
    if b.len() >= 2 {
        lemma_sextets_small(b[0], b[1], 0);
        lemma_sextet_not_pad((b[1] & 15) << 2);
    }
    if b.len() >= 3 {
        lemma_sextets_small(b[0], b[1], b[2]);
        lemma_sextet_not_pad(b[2] & 63);
        let rest = b64_encode(b.subrange(3, b.len() as int));
        assert(b64_encode(b) == encode_group(b[0], b[1], b[2]) + rest);
    }
}

/// Distinct byte sequences have distinct encodings.
pub proof fn lemma_encode_injective(x: Seq<u8>, y: Seq<u8>)
    requires
        b64_encode(x) == b64_encode(y),
    ensures
        x == y,
    decreases x.len(),
{
    lemma_encode_shape(x);
    lemma_encode_shape(y);
    let e = b64_encode(x);
    if x.len() == 0 {
        assert(x =~= y);
    } else if x.len() == 1 {
        lemma_sextets_small(x[0], 0, 0);
        lemma_sextets_small(y[0], 0, 0);
        lemma_sextet_injective(x[0] >> 2, y[0] >> 2);
        lemma_sextet_injective((x[0] & 3) << 4, (y[0] & 3) << 4);
        lemma_group_bits(x[0], 0, 0, y[0], 0, 0);
        assert(x =~= y);
    } else if x.len() == 2 {
        lemma_sextets_small(x[0], x[1], 0);
        lemma_sextets_small(y[0], y[1], 0);
        lemma_sextet_injective(x[0] >> 2, y[0] >> 2);
        lemma_sextet_injective(((x[0] & 3) << 4) | (x[1] >> 4), ((y[0] & 3) << 4) | (y[1] >> 4));
        lemma_sextet_injective((x[1] & 15) << 2, (y[1] & 15) << 2);
        lemma_group_bits(x[0], x[1], 0, y[0], y[1], 0);
        assert(x =~= y);
    } else {
        let xr = x.subrange(3, x.len() as int);
        let yr = y.subrange(3, y.len() as int);
        let gx = encode_group(x[0], x[1], x[2]);
        let gy = encode_group(y[0], y[1], y[2]);
        assert(e == gx + b64_encode(xr));
        assert(b64_encode(y) == gy + b64_encode(yr));
        assert(gx =~= e.subrange(0, 4));
        assert(gy =~= e.subrange(0, 4));
        assert(b64_encode(xr) =~= e.subrange(4, e.len() as int));
        assert(b64_encode(yr) =~= e.subrange(4, e.len() as int));
        lemma_group_injective(x[0], x[1], x[2], y[0], y[1], y[2]);
        lemma_encode_injective(xr, yr);
        assert(x.len() == y.len());
        assert forall|i: int| 0 <= i < x.len() implies x[i] == y[i] by {
            if i >= 3 {
                assert(x[i] == xr[i - 3]);
                assert(y[i] == yr[i - 3]);
            }
        }
        assert(x =~= y);
    }
}

/// Decoding the encoding of any byte sequence gives those bytes back:
/// `decode_payload` on the text of `encode_payload(b)` returns `b`.
pub proof fn lemma_round_trip(b: Seq<u8>)
    ensures
        b64_decode(b64_encode(b)) == Some(b),
{
    let s = b64_encode(b);
    assert(exists|v: Seq<u8>| b64_encode(v) == s);
    let v = choose|v: Seq<u8>| b64_encode(v) == s;
    lemma_encode_injective(v, b);
}

#[verifier::external_type_specification]
#[verifier::external_body]
pub struct ExDecodeError(base64::DecodeError);

/// Relies on `Engine::encode` of base64's `STANDARD` engine: standard
/// alphabet, padded with `=`.
#[verifier::external_body]
fn encode_standard(bytes: &[u8]) -> (r: String)
    ensures
        r@ == b64_encode(bytes@),
{
    base64::engine::general_purpose::STANDARD.encode(bytes)
}

/// Relies on `Engine::decode` of base64's `STANDARD` engine. Its config
/// requires canonical padding and refuses set trailing bits, so it accepts
/// exactly the strings that encoding produces, and gives back the bytes
/// that were encoded.
#[verifier::external_body]
fn decode_standard(text: &str) -> (r: Result<Vec<u8>, base64::DecodeError>)
    ensures
        r is Ok ==> b64_encode(r->Ok_0@) == text@,
        r is Err ==> forall|b: Seq<u8>| #[trigger] b64_encode(b) != text@,
{
    base64::engine::general_purpose::STANDARD.decode(text)
}

/// Relies on the `Display` impl of base64's `DecodeError`, which describes
/// the offending byte or padding.
#[verifier::external_body]
fn decode_error_text(e: &base64::DecodeError) -> String {
    e.to_string()
}

/// Encodes bytes as padded standard base64 text.
pub fn encode_payload(bytes: &[u8]) -> (r: String)
    ensures
        r@ == b64_encode(bytes@),
{
    encode_standard(bytes)
}

/// Decodes padded standard base64 text into the bytes it stands for;
/// anything else is a decode error.
pub fn decode_payload(encoded: &str) -> (r: Result<Vec<u8>, BridgeError>)
    ensures
        match r {
            Ok(v) => b64_decode(encoded@) == Some(v@),
            Err(e) => b64_decode(encoded@) is None && e is Decode,
        },
{
    match decode_standard(encoded) {
        Ok(v) => {
            proof {
                lemma_round_trip(v@);
            }
            Ok(v)
        },
        Err(e) => Err(BridgeError::Decode { reason: decode_error_text(&e) }),
    }
}

} // verus!
