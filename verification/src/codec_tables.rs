//! The canonical encoding alphabet and the decode table derived from it.
//!
//! Encoding maps each 5 bit symbol value to one canonical character. Decoding
//! maps every possible input byte to either a symbol value (with a flag that
//! records whether the byte was the canonical character or an alias), or to an
//! error sentinel. Aliases are the upper case variants of the canonical
//! letters together with the confusable characters `o`/`O` (read as `0`) and
//! `i`/`I`/`l`/`L` (read as `1`).

use vstd::prelude::*;

verus! {

/// Added to a symbol value in a decode table entry when the input byte is an
/// alias (upper case or confusable) rather than the canonical character.
pub const ALT_FLAG: u8 = 0x20;

/// The decode table entry for a byte that is not part of the alphabet at all.
pub const ERR_FLAG: u8 = 0x40;

/// The canonical character, as a byte, for each symbol value in `[0, 32)`.
///
/// This is the encode table: the digits `0`-`9` followed by the lower case
/// letters of the English alphabet except `i`, `l`, `o` and `u`.
pub open spec fn encode_table(sym: u8) -> u8 {
    match sym {
        0 => 48,
        1 => 49,
        2 => 50,
        3 => 51,
        4 => 52,
        5 => 53,
        6 => 54,
        7 => 55,
        8 => 56,
        9 => 57,
        10 => 97,
        11 => 98,
        12 => 99,
        13 => 100,
        14 => 101,
        15 => 102,
        16 => 103,
        17 => 104,
        18 => 106,
        19 => 107,
        20 => 109,
        21 => 110,
        22 => 112,
        23 => 113,
        24 => 114,
        25 => 115,
        26 => 116,
        27 => 118,
        28 => 119,
        29 => 120,
        30 => 121,
        31 => 122,
        _ => 0,
    }
}

/// The decode table entry for each possible input byte: the symbol value for
/// a canonical character, the symbol value plus [`ALT_FLAG`] for an alias,
/// and [`ERR_FLAG`] for every other byte.
pub open spec fn decode_table(b: u8) -> u8 {
    match b {
        48 => 0,
        49 => 1,
        50 => 2,
        51 => 3,
        52 => 4,
        53 => 5,
        54 => 6,
        55 => 7,
        56 => 8,
        57 => 9,
        97 => 10,
        98 => 11,
        99 => 12,
        100 => 13,
        101 => 14,
        102 => 15,
        103 => 16,
        104 => 17,
        106 => 18,
        107 => 19,
        109 => 20,
        110 => 21,
        112 => 22,
        113 => 23,
        114 => 24,
        115 => 25,
        116 => 26,
        118 => 27,
        119 => 28,
        120 => 29,
        121 => 30,
        122 => 31,
        // Confusable aliases: o/O read as 0, i/I/l/L read as 1.
        111 => 0x20,
        79 => 0x20,
        105 => 0x21,
        73 => 0x21,
        108 => 0x21,
        76 => 0x21,
        // Upper case aliases of the canonical letters.
        65 => 0x2a,
        66 => 0x2b,
        67 => 0x2c,
        68 => 0x2d,
        69 => 0x2e,
        70 => 0x2f,
        71 => 0x30,
        72 => 0x31,
        74 => 0x32,
        75 => 0x33,
        77 => 0x34,
        78 => 0x35,
        80 => 0x36,
        81 => 0x37,
        82 => 0x38,
        83 => 0x39,
        84 => 0x3a,
        86 => 0x3b,
        87 => 0x3c,
        88 => 0x3d,
        89 => 0x3e,
        90 => 0x3f,
        _ => 0x40,
    }
}

/// True iff the byte belongs to the alphabet, canonical or alias.
pub open spec fn byte_valid(b: u8) -> bool {
    decode_table(b) != ERR_FLAG
}

/// True iff the byte is the canonical character of its symbol value.
pub open spec fn byte_canonical(b: u8) -> bool {
    decode_table(b) < ALT_FLAG
}

/// The symbol value a valid byte decodes to.
pub open spec fn byte_sym(b: u8) -> u8
    recommends
        byte_valid(b),
{
    if decode_table(b) < ALT_FLAG {
        decode_table(b)
    } else {
        (decode_table(b) - ALT_FLAG) as u8
    }
}

/// Looks a symbol value up in the encode table.
pub(crate) fn encode_lookup(sym: u8) -> (r: u8)
    requires
        sym < 32,
    ensures
        r == encode_table(sym),
{
    match sym {
        0 => 48,
        1 => 49,
        2 => 50,
        3 => 51,
        4 => 52,
        5 => 53,
        6 => 54,
        7 => 55,
        8 => 56,
        9 => 57,
        10 => 97,
        11 => 98,
        12 => 99,
        13 => 100,
        14 => 101,
        15 => 102,
        16 => 103,
        17 => 104,
        18 => 106,
        19 => 107,
        20 => 109,
        21 => 110,
        22 => 112,
        23 => 113,
        24 => 114,
        25 => 115,
        26 => 116,
        27 => 118,
        28 => 119,
        29 => 120,
        30 => 121,
        _ => 122,
    }
}

/// Looks an input byte up in the decode table.
pub(crate) fn decode_lookup(b: u8) -> (r: u8)
    ensures
        r == decode_table(b),
{
    match b {
        48 => 0,
        49 => 1,
        50 => 2,
        51 => 3,
        52 => 4,
        53 => 5,
        54 => 6,
        55 => 7,
        56 => 8,
        57 => 9,
        97 => 10,
        98 => 11,
        99 => 12,
        100 => 13,
        101 => 14,
        102 => 15,
        103 => 16,
        104 => 17,
        106 => 18,
        107 => 19,
        109 => 20,
        110 => 21,
        112 => 22,
        113 => 23,
        114 => 24,
        115 => 25,
        116 => 26,
        118 => 27,
        119 => 28,
        120 => 29,
        121 => 30,
        122 => 31,
        111 => 0x20,
        79 => 0x20,
        105 => 0x21,
        73 => 0x21,
        108 => 0x21,
        76 => 0x21,
        65 => 0x2a,
        66 => 0x2b,
        67 => 0x2c,
        68 => 0x2d,
        69 => 0x2e,
        70 => 0x2f,
        71 => 0x30,
        72 => 0x31,
        74 => 0x32,
        75 => 0x33,
        77 => 0x34,
        78 => 0x35,
        80 => 0x36,
        81 => 0x37,
        82 => 0x38,
        83 => 0x39,
        84 => 0x3a,
        86 => 0x3b,
        87 => 0x3c,
        88 => 0x3d,
        89 => 0x3e,
        90 => 0x3f,
        _ => 0x40,
    }
}

/// Every decode table entry is a symbol value, a flagged symbol value, or the
/// error sentinel; valid entries carry a symbol value below 32.
pub proof fn lemma_decode_table_range()
    ensures
        forall|b: u8| #[trigger] decode_table(b) <= 0x40,
        forall|b: u8| byte_valid(b) ==> #[trigger] byte_sym(b) < 32,
{
}

/// Decoding the canonical character of any symbol value yields that symbol
/// value back, flagged as canonical.
pub proof fn lemma_decode_of_encode()
    ensures
        forall|sym: u8| sym < 32 ==> #[trigger] decode_table(encode_table(sym)) == sym,
{
}

/// A valid byte is canonical exactly when it is the canonical character of
/// the symbol value it decodes to.
pub proof fn lemma_canonical_is_encode_of_sym()
    ensures
        forall|b: u8| byte_valid(b) ==> (byte_canonical(b) <==> b == encode_table(
            #[trigger] byte_sym(b),
        )),
{
}

/// The encode table is strictly monotone: a larger symbol value always maps
/// to a character with a larger byte value.
pub proof fn lemma_encode_table_monotone()
    ensures
        forall|i: u8, j: u8|
            i < j < 32 ==> #[trigger] encode_table(i) < #[trigger] encode_table(j),
{
}

} // verus!
