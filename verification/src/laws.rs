//! The laws of the codec: encoding and decoding are mutually inverse on the
//! canonical strings, encoding preserves the numeric order lexicographically,
//! decoding depends only on symbol values (so aliases are interchangeable),
//! and the two decode errors come exactly when their conditions hold.

use vstd::prelude::*;

use crate::codec_tables::{
    byte_canonical, byte_sym, byte_valid, encode_table, lemma_canonical_is_encode_of_sym,
    lemma_decode_of_encode, lemma_decode_table_range, lemma_encode_table_monotone,
};
use crate::encode::{
    lemma_digit_bound, lemma_encode_chars_utf8, spec_digit, spec_encode_bytes, spec_encode_chars,
};
use crate::from_str::{spec_all_canonical, spec_all_valid, spec_combine, spec_decode};
use crate::id30_parse::ParseError;
use crate::ID30_LIMIT;

verus! {

/// Byte-wise lexicographic strict order on sequences of equal length: the
/// sequences agree up to some position and differ in the first byte after it.
pub open spec fn lex_lt(s: Seq<u8>, t: Seq<u8>) -> bool {
    exists|k: int|
        0 <= k < s.len() && k < t.len() && (forall|j: int| 0 <= j < k ==> s[j] == t[j]) && s[k]
            < t[k]
}

/// Encoding is always exactly six bytes wide, for every value.
pub proof fn lemma_encode_fixed_width(v: u32)
    ensures
        spec_encode_bytes(v).len() == 6,
{
}

/// Decoding inverts encoding: the canonical encoding of any 30 bit value
/// decodes back to that value, flagged as canonical.
pub proof fn lemma_encode_decode_roundtrip(v: u32)
    requires
        v < ID30_LIMIT,
    ensures
        spec_decode(spec_encode_bytes(v)) == Ok::<_, ParseError>((v, true)),
{
    let s = spec_encode_bytes(v);
    lemma_digit_bound(v);
    lemma_decode_of_encode();
    assert forall|i: int| 0 <= i < 6 implies byte_valid(#[trigger] s[i]) && byte_canonical(s[i])
        && byte_sym(s[i]) == spec_digit(v, i) by {
        assert(s[i] == encode_table(spec_digit(v, i)));
    }
    let d0 = spec_digit(v, 0);
    let d1 = spec_digit(v, 1);
    let d2 = spec_digit(v, 2);
    let d3 = spec_digit(v, 3);
    let d4 = spec_digit(v, 4);
    let d5 = spec_digit(v, 5);
    assert(((d0 as u32) << 25 | (d1 as u32) << 20 | (d2 as u32) << 15 | (d3 as u32) << 10 | (
    d4 as u32) << 5 | (d5 as u32)) == v) by (bit_vector)
        requires
            d0 == ((v >> 25) & 0x1f) as u8,
            d1 == ((v >> 20) & 0x1f) as u8,
            d2 == ((v >> 15) & 0x1f) as u8,
            d3 == ((v >> 10) & 0x1f) as u8,
            d4 == ((v >> 5) & 0x1f) as u8,
            d5 == (v & 0x1f) as u8,
            v < 0x4000_0000,
    ;
}

/// Encoding is injective on the 30 bit range, so together with
/// [`lemma_encode_decode_roundtrip`] it is a bijection between `[0, 2^30)`
/// and the canonical six byte strings.
pub proof fn lemma_encode_injective(a: u32, b: u32)
    requires
        a < ID30_LIMIT,
        b < ID30_LIMIT,
        spec_encode_bytes(a) == spec_encode_bytes(b),
    ensures
        a == b,
{
    lemma_encode_decode_roundtrip(a);
    lemma_encode_decode_roundtrip(b);
}

/// The round trip at the string level: the six character string that
/// [`Id30::encode`](crate::Id30::encode) returns, read back as UTF-8 bytes the
/// way [`from_str`](crate::from_str) reads its input, decodes to the original
/// value, flagged as canonical.
pub proof fn lemma_encode_string_decodes_back(v: u32)
    requires
        v < ID30_LIMIT,
    ensures
        spec_decode(vstd::utf8::encode_utf8(spec_encode_chars(v))) == Ok::<_, ParseError>(
            (v, true),
        ),
{
    lemma_encode_chars_utf8(v);
    lemma_encode_decode_roundtrip(v);
}

/// Encoding preserves order: a numerically smaller value encodes to a
/// lexicographically smaller string.
pub proof fn lemma_encode_order_preserving(a: u32, b: u32)
    requires
        a < b,
        b < ID30_LIMIT,
    ensures
        lex_lt(spec_encode_bytes(a), spec_encode_bytes(b)),
{
    let s = spec_encode_bytes(a);
    let t = spec_encode_bytes(b);
    lemma_digit_bound(a);
    lemma_digit_bound(b);
    lemma_encode_table_monotone();
    let a0 = spec_digit(a, 0);
    let a1 = spec_digit(a, 1);
    let a2 = spec_digit(a, 2);
    let a3 = spec_digit(a, 3);
    let a4 = spec_digit(a, 4);
    let a5 = spec_digit(a, 5);
    let b0 = spec_digit(b, 0);
    let b1 = spec_digit(b, 1);
    let b2 = spec_digit(b, 2);
    let b3 = spec_digit(b, 3);
    let b4 = spec_digit(b, 4);
    let b5 = spec_digit(b, 5);
    if a0 != b0 {
        assert(a0 <= b0) by (bit_vector)
            requires
                a < b && b < 0x4000_0000 && a0 == ((a >> 25) & 0x1f) as u8 && b0 == ((b >> 25)
                    & 0x1f) as u8,
        ;
        assert(s[0] < t[0]);
        assert(lex_lt(s, t));
    } else if a1 != b1 {
        assert(a1 <= b1) by (bit_vector)
            requires
                a < b && b < 0x4000_0000 && a0 == ((a >> 25) & 0x1f) as u8 && b0 == ((b >> 25)
                    & 0x1f) as u8 && a1 == ((a >> 20) & 0x1f) as u8 && b1 == ((b >> 20)
                    & 0x1f) as u8 && a0 == b0,
        ;
        assert(forall|j: int| 0 <= j < 1 ==> s[j] == t[j]);
        assert(s[1] < t[1]);
        assert(lex_lt(s, t));
    } else if a2 != b2 {
        assert(a2 <= b2) by (bit_vector)
            requires
                a < b && b < 0x4000_0000 && a1 == ((a >> 20) & 0x1f) as u8 && b1 == ((b >> 20)
                    & 0x1f) as u8 && a2 == ((a >> 15) & 0x1f) as u8 && b2 == ((b >> 15)
                    & 0x1f) as u8 && a0 == ((a >> 25) & 0x1f) as u8 && b0 == ((b >> 25)
                    & 0x1f) as u8 && a0 == b0 && a1 == b1,
        ;
        assert(forall|j: int| 0 <= j < 2 ==> s[j] == t[j]);
        assert(s[2] < t[2]);
        assert(lex_lt(s, t));
    } else if a3 != b3 {
        assert(a3 <= b3) by (bit_vector)
            requires
                a < b && b < 0x4000_0000 && a0 == ((a >> 25) & 0x1f) as u8 && b0 == ((b >> 25)
                    & 0x1f) as u8 && a1 == ((a >> 20) & 0x1f) as u8 && b1 == ((b >> 20)
                    & 0x1f) as u8 && a2 == ((a >> 15) & 0x1f) as u8 && b2 == ((b >> 15)
                    & 0x1f) as u8 && a3 == ((a >> 10) & 0x1f) as u8 && b3 == ((b >> 10)
                    & 0x1f) as u8 && a0 == b0 && a1 == b1 && a2 == b2,
        ;
        assert(forall|j: int| 0 <= j < 3 ==> s[j] == t[j]);
        assert(s[3] < t[3]);
        assert(lex_lt(s, t));
    } else if a4 != b4 {
        assert(a4 <= b4) by (bit_vector)
            requires
                a < b && b < 0x4000_0000 && a0 == ((a >> 25) & 0x1f) as u8 && b0 == ((b >> 25)
                    & 0x1f) as u8 && a1 == ((a >> 20) & 0x1f) as u8 && b1 == ((b >> 20)
                    & 0x1f) as u8 && a2 == ((a >> 15) & 0x1f) as u8 && b2 == ((b >> 15)
                    & 0x1f) as u8 && a3 == ((a >> 10) & 0x1f) as u8 && b3 == ((b >> 10)
                    & 0x1f) as u8 && a4 == ((a >> 5) & 0x1f) as u8 && b4 == ((b >> 5)
                    & 0x1f) as u8 && a0 == b0 && a1 == b1 && a2 == b2 && a3 == b3,
        ;
        assert(forall|j: int| 0 <= j < 4 ==> s[j] == t[j]);
        assert(s[4] < t[4]);
        assert(lex_lt(s, t));
    } else {
        assert(a5 < b5) by (bit_vector)
            requires
                a < b && b < 0x4000_0000 && a0 == ((a >> 25) & 0x1f) as u8 && b0 == ((b >> 25)
                    & 0x1f) as u8 && a1 == ((a >> 20) & 0x1f) as u8 && b1 == ((b >> 20)
                    & 0x1f) as u8 && a2 == ((a >> 15) & 0x1f) as u8 && b2 == ((b >> 15)
                    & 0x1f) as u8 && a3 == ((a >> 10) & 0x1f) as u8 && b3 == ((b >> 10)
                    & 0x1f) as u8 && a4 == ((a >> 5) & 0x1f) as u8 && b4 == ((b >> 5)
                    & 0x1f) as u8 && a5 == (a & 0x1f) as u8 && b5 == (b & 0x1f) as u8 && a0 == b0
                    && a1 == b1 && a2 == b2 && a3 == b3 && a4 == b4,
        ;
        assert(forall|j: int| 0 <= j < 5 ==> s[j] == t[j]);
        assert(s[5] < t[5]);
        assert(lex_lt(s, t));
    }
}

/// Decoding depends only on the symbol values: two valid six byte inputs
/// whose bytes decode to the same symbols — for example an input and its
/// upper case variant — decode to the same 30 bit value.
pub proof fn lemma_decode_depends_on_symbols(s: Seq<u8>, t: Seq<u8>)
    requires
        s.len() == 6,
        t.len() == 6,
        spec_all_valid(s),
        spec_all_valid(t),
        forall|i: int| 0 <= i < 6 ==> byte_sym(#[trigger] s[i]) == byte_sym(#[trigger] t[i]),
    ensures
        spec_decode(s) == Ok::<_, ParseError>((spec_combine(s), spec_all_canonical(s))),
        spec_decode(t) == Ok::<_, ParseError>((spec_combine(t), spec_all_canonical(t))),
        spec_combine(s) == spec_combine(t),
{
    assert(byte_sym(s[0]) == byte_sym(t[0]));
    assert(byte_sym(s[1]) == byte_sym(t[1]));
    assert(byte_sym(s[2]) == byte_sym(t[2]));
    assert(byte_sym(s[3]) == byte_sym(t[3]));
    assert(byte_sym(s[4]) == byte_sym(t[4]));
    assert(byte_sym(s[5]) == byte_sym(t[5]));
}

/// A valid six byte input is flagged canonical exactly when it is the
/// canonical encoding of the value it decodes to. In particular any alias or
/// case variation makes the flag false, and re-encoding a decoded value
/// canonicalizes the input.
pub proof fn lemma_canonical_means_encoded(s: Seq<u8>)
    requires
        s.len() == 6,
        spec_all_valid(s),
    ensures
        spec_all_canonical(s) <==> s =~= spec_encode_bytes(spec_combine(s)),
{
    lemma_decode_table_range();
    lemma_canonical_is_encode_of_sym();
    let v = spec_combine(s);
    let s0 = byte_sym(s[0]);
    let s1 = byte_sym(s[1]);
    let s2 = byte_sym(s[2]);
    let s3 = byte_sym(s[3]);
    let s4 = byte_sym(s[4]);
    let s5 = byte_sym(s[5]);
    assert(((v >> 25) & 0x1f) as u8 == s0 && ((v >> 20) & 0x1f) as u8 == s1 && ((v >> 15)
        & 0x1f) as u8 == s2 && ((v >> 10) & 0x1f) as u8 == s3 && ((v >> 5) & 0x1f) as u8 == s4 && (
    v & 0x1f) as u8 == s5) by (bit_vector)
        requires
            v == ((s0 as u32) << 25 | (s1 as u32) << 20 | (s2 as u32) << 15 | (s3 as u32) << 10 | (
            s4 as u32) << 5 | (s5 as u32)),
            s0 < 32 && s1 < 32 && s2 < 32 && s3 < 32 && s4 < 32 && s5 < 32,
    ;
    assert forall|i: int| 0 <= i < 6 implies spec_encode_bytes(v)[i] == encode_table(
        byte_sym(s[i]),
    ) by {
        if i == 0 {
        } else if i == 1 {
        } else if i == 2 {
        } else if i == 3 {
        } else if i == 4 {
        } else {
        }
    }
    if spec_all_canonical(s) {
        assert forall|i: int| 0 <= i < 6 implies s[i] == spec_encode_bytes(v)[i] by {
            assert(byte_canonical(s[i]));
        }
    }
    if s =~= spec_encode_bytes(v) {
        assert forall|i: int| 0 <= i < 6 implies byte_canonical(#[trigger] s[i]) by {
            assert(s[i] == encode_table(byte_sym(s[i])));
        }
    }
}

/// An input that is not exactly six bytes is always rejected as
/// `InvalidLength`, whatever its content.
pub proof fn lemma_wrong_length_rejected(s: Seq<u8>)
    requires
        s.len() != 6,
    ensures
        spec_decode(s) == Err::<(u32, bool), _>(ParseError::InvalidLength),
{
}

/// A six byte input with any byte outside the alphabet is always rejected as
/// `InvalidCharacters`.
pub proof fn lemma_invalid_byte_rejected(s: Seq<u8>, i: int)
    requires
        s.len() == 6,
        0 <= i < 6,
        !byte_valid(s[i]),
    ensures
        spec_decode(s) == Err::<(u32, bool), _>(ParseError::InvalidCharacters),
{
}

} // verus!
