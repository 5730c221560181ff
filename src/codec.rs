//! The padded standard base64 text of a byte string, as a mathematical
//! function, and the executable encoder and decoder that are held to it.

use base64::engine::general_purpose::STANDARD;
use base64::Engine;
use vstd::prelude::*;

verus! {

/// The symbol of the standard alphabet that stands for a six-bit value.
pub open spec fn symbol(v: u8) -> char {
    if v < 26 {
        (v + 65) as char
    } else if v < 52 {
        (v + 71) as char
    } else if v < 62 {
        (v - 4) as char
    } else if v == 62 {
        '+'
    } else {
        '/'
    }
}

/// The six-bit value that a symbol of the standard alphabet stands for.
pub open spec fn symbol_value(c: char) -> u8 {
    if 'A' <= c && c <= 'Z' {
        (c as u32 - 65) as u8
    } else if 'a' <= c && c <= 'z' {
        (c as u32 - 71) as u8
    } else if '0' <= c && c <= '9' {
        (c as u32 + 4) as u8
    } else if c == '+' {
        62
    } else {
        63
    }
}

/// A symbol of the standard alphabet (padding aside).
pub open spec fn is_symbol(c: char) -> bool {
    ('A' <= c && c <= 'Z') || ('a' <= c && c <= 'z') || ('0' <= c && c <= '9') || c == '+'
        || c == '/'
}

/// The four symbols that stand for three bytes.
pub open spec fn encode_group(b0: u8, b1: u8, b2: u8) -> Seq<char> {
    seq![
        symbol(b0 >> 2u8),
        symbol(((b0 & 3u8) << 4u8) | (b1 >> 4u8)),
        symbol(((b1 & 15u8) << 2u8) | (b2 >> 6u8)),
        symbol(b2 & 63u8),
    ]
}

/// The padded standard base64 text of `b`: three bytes to four symbols, a
/// final group of one or two bytes padded with `=` to four characters.
pub open spec fn encode_spec(b: Seq<u8>) -> Seq<char>
    decreases b.len(),
{
    if b.len() == 0 {
        seq![]
    } else if b.len() == 1 {
        encode_group(b[0], 0, 0).take(2) + seq!['=', '=']
    } else if b.len() == 2 {
        encode_group(b[0], b[1], 0).take(3) + seq!['=']
    } else {
        encode_group(b[0], b[1], b[2]) + encode_spec(b.skip(3))
    }
}

/// The three bytes that four symbols stand for.
pub open spec fn decode_group(s0: char, s1: char, s2: char, s3: char) -> Seq<u8> {
    let v0 = symbol_value(s0);
    let v1 = symbol_value(s1);
    let v2 = symbol_value(s2);
    let v3 = symbol_value(s3);
    seq![
        ((v0 << 2u8) | (v1 >> 4u8)) as u8,
        (((v1 & 15u8) << 4u8) | (v2 >> 2u8)) as u8,
        (((v2 & 3u8) << 6u8) | v3) as u8,
    ]
}

/// The bytes that a padded base64 text stands for, read four characters at a
/// time; a group that ends in padding gives one or two bytes.
pub open spec fn decode_spec(t: Seq<char>) -> Seq<u8>
    decreases t.len(),
{
    if t.len() < 4 {
        seq![]
    } else {
        let g = decode_group(t[0], t[1], t[2], t[3]);
        let head = if t[2] == '=' {
            g.take(1)
        } else if t[3] == '=' {
            g.take(2)
        } else {
            g
        };
        head + decode_spec(t.skip(4))
    }
}

proof fn lemma_group_round_trip(b0: u8, b1: u8, b2: u8)
    ensures
        decode_group(
            encode_group(b0, b1, b2)[0],
            encode_group(b0, b1, b2)[1],
            encode_group(b0, b1, b2)[2],
            encode_group(b0, b1, b2)[3],
        ) == seq![b0, b1, b2],
        forall|i: int| 0 <= i < 4 ==> #[trigger] is_symbol(encode_group(b0, b1, b2)[i]),
{
    let v0 = b0 >> 2u8;
    let v1 = ((b0 & 3u8) << 4u8) | (b1 >> 4u8);
    let v2 = ((b1 & 15u8) << 2u8) | (b2 >> 6u8);
    let v3 = b2 & 63u8;
    assert(v0 < 64 && v1 < 64 && v2 < 64 && v3 < 64) by (bit_vector)
        requires
            v0 == b0 >> 2u8,
            v1 == ((b0 & 3u8) << 4u8) | (b1 >> 4u8),
            v2 == ((b1 & 15u8) << 2u8) | (b2 >> 6u8),
            v3 == b2 & 63u8,
    ;
    lemma_symbol_round_trip(v0);
    lemma_symbol_round_trip(v1);
    lemma_symbol_round_trip(v2);
    lemma_symbol_round_trip(v3);
    assert(((v0 << 2u8) | (v1 >> 4u8)) == b0) by (bit_vector)
        requires
            v0 == b0 >> 2u8,
            v1 == ((b0 & 3u8) << 4u8) | (b1 >> 4u8),
    ;
    assert((((v1 & 15u8) << 4u8) | (v2 >> 2u8)) == b1) by (bit_vector)
        requires
            v1 == ((b0 & 3u8) << 4u8) | (b1 >> 4u8),
            v2 == ((b1 & 15u8) << 2u8) | (b2 >> 6u8),
    ;
    assert((((v2 & 3u8) << 6u8) | v3) == b2) by (bit_vector)
        requires
            v2 == ((b1 & 15u8) << 2u8) | (b2 >> 6u8),
            v3 == b2 & 63u8,
    ;
    assert(decode_group(symbol(v0), symbol(v1), symbol(v2), symbol(v3)) =~= seq![b0, b1, b2]);
}

proof fn lemma_symbol_round_trip(v: u8)
    requires
        v < 64,
    ensures
        symbol_value(symbol(v)) == v,
        is_symbol(symbol(v)),
{
}

/// Decoding the padded base64 text of any byte string gives that byte string
/// back, and the text is made of alphabet symbols followed by at most two
/// padding characters.
pub proof fn lemma_decode_encode(b: Seq<u8>)
    ensures
        decode_spec(encode_spec(b)) == b,
        encode_spec(b).len() == (b.len() + 2) / 3 * 4,
        forall|i: int|
            0 <= i < encode_spec(b).len() ==> is_symbol(#[trigger] encode_spec(b)[i])
                || encode_spec(b)[i] == '=',
    decreases b.len(),
{
    let e = encode_spec(b);
    if b.len() == 0 {
    } else if b.len() == 1 {
        lemma_group_round_trip(b[0], 0, 0);
        let g = encode_group(b[0], 0, 0);
        assert(e.skip(4) =~= seq![]);
        assert(e[0] == g[0] && e[1] == g[1] && e[2] == '=');
        assert(decode_group(e[0], e[1], e[2], e[3])[0] == decode_group(g[0], g[1], g[2], g[3])[0]);
        assert(decode_spec(e) =~= seq![b[0]] + decode_spec(e.skip(4)));
        assert(decode_spec(e) =~= b);
        assert forall|i: int| 0 <= i < e.len() implies is_symbol(#[trigger] e[i]) || e[i] == '=' by {
            if i < 2 {
                assert(e[i] == g[i]);
            }
        }
    } else if b.len() == 2 {
        lemma_group_round_trip(b[0], b[1], 0);
        let g = encode_group(b[0], b[1], 0);
        assert(e.skip(4) =~= seq![]);
        assert(e[0] == g[0] && e[1] == g[1] && e[2] == g[2] && e[3] == '=');
        assert(is_symbol(g[2]));
        assert(decode_group(e[0], e[1], e[2], e[3])[0] == decode_group(g[0], g[1], g[2], g[3])[0]);
        assert(decode_group(e[0], e[1], e[2], e[3])[1] == decode_group(g[0], g[1], g[2], g[3])[1]);
        assert(decode_spec(e) =~= seq![b[0], b[1]] + decode_spec(e.skip(4)));
        assert(decode_spec(e) =~= b);
        assert forall|i: int| 0 <= i < e.len() implies is_symbol(#[trigger] e[i]) || e[i] == '=' by {
            if i < 3 {
                assert(e[i] == g[i]);
            }
        }
    } else {
        let rest = b.skip(3);
        lemma_decode_encode(rest);
        lemma_group_round_trip(b[0], b[1], b[2]);
        let g = encode_group(b[0], b[1], b[2]);
        assert(e.skip(4) =~= encode_spec(rest));
        assert(e[2] == g[2] && e[3] == g[3] && e[0] == g[0] && e[1] == g[1]);
        assert(is_symbol(g[2]) && is_symbol(g[3]));
        assert(decode_spec(e) =~= seq![b[0], b[1], b[2]] + decode_spec(encode_spec(rest)));
        assert(decode_spec(e) =~= b);
        assert forall|i: int| 0 <= i < e.len() implies is_symbol(#[trigger] e[i]) || e[i] == '=' by {
            if i >= 4 {
                assert(e[i] == encode_spec(rest)[i - 4]);
            }
        }
    }
}

/// Relies on base64's `STANDARD` engine (standard alphabet, padding on):
/// `encode` writes the padded standard text of the bytes. Its length
/// computation panics only past `usize::MAX`, which the bound keeps out.
#[verifier::external_body]
pub(crate) fn standard_encode(b: &[u8]) -> (r: String)
    requires
        b@.len() <= isize::MAX as int,
    ensures
        r@ == encode_spec(b@),
{
    STANDARD.encode(b)
}

/// Relies on base64's `STANDARD` engine, which requires canonical padding and
/// refuses nonzero trailing bits: `decode` succeeds on exactly the texts that
/// `encode` writes, and gives back the bytes they were written from.
#[verifier::external_body]
fn standard_decode(text: &str) -> (r: Option<Vec<u8>>)
    ensures
        r matches Some(v) ==> encode_spec(v@) == text@,
        (exists|v: Seq<u8>| encode_spec(v) == text@) ==> r is Some,
{
    STANDARD.decode(text).ok()
}

/// The padded standard base64 text of `bytes`.
pub fn encode_payload(bytes: &[u8]) -> (r: String)
    requires
        bytes@.len() <= isize::MAX as int,
    ensures
        r@ == encode_spec(bytes@),
        decode_spec(r@) == bytes@,
{
    proof {
        lemma_decode_encode(bytes@);
    }
    standard_encode(bytes)
}

/// The bytes that `text` encodes, or `None` where `text` is not the padded
/// standard base64 text of any byte string.
pub fn decode_payload(text: &str) -> (r: Option<Vec<u8>>)
    ensures
        r is Some <==> encode_spec(decode_spec(text@)) == text@,
        r matches Some(v) ==> v@ == decode_spec(text@),
{
    let r = standard_decode(text);
    proof {
        if r is Some {
            lemma_decode_encode(r->Some_0@);
        }
    }
    r
}

/// Decoding the encoding of any byte string gives it back, whatever its
/// length: `decode_payload(&encode_payload(b)) == Some(b)`.
pub proof fn lemma_payload_round_trip(b: Seq<u8>)
    ensures
        encode_spec(decode_spec(encode_spec(b))) == encode_spec(b),
        decode_spec(encode_spec(b)) == b,
{
    lemma_decode_encode(b);
}

} // verus!
