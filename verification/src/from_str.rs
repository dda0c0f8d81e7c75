//! Decoding a six character string to an [`Id30`].
//!
//! Decoding accepts an arbitrary byte sequence. It fails with
//! [`ParseError::InvalidLength`] when the input is not exactly six bytes, and
//! with [`ParseError::InvalidCharacters`] when any byte is outside the
//! alphabet. Otherwise every byte maps through the decode table to a 5 bit
//! symbol value, the six values are combined most significant group first,
//! and the result records whether all six bytes were canonical.

use vstd::prelude::*;
use vstd::string::StringSliceAdditionalSpecFns;

use crate::codec_tables::{
    byte_canonical, byte_sym, byte_valid, decode_lookup, decode_table, lemma_decode_table_range,
    ALT_FLAG, ERR_FLAG,
};
use crate::id30_parse::{Id30Parse, ParseError};
use crate::{Id30, ID30_LIMIT};

verus! {

/// True iff every byte of `s` belongs to the alphabet.
pub open spec fn spec_all_valid(s: Seq<u8>) -> bool {
    forall|i: int| 0 <= i < s.len() ==> byte_valid(#[trigger] s[i])
}

/// True iff every byte of `s` is the canonical character of its symbol value.
pub open spec fn spec_all_canonical(s: Seq<u8>) -> bool {
    forall|i: int| 0 <= i < s.len() ==> byte_canonical(#[trigger] s[i])
}

/// The 30 bit value assembled from the symbol values of six valid bytes, most
/// significant 5 bit group first.
pub open spec fn spec_combine(s: Seq<u8>) -> u32
    recommends
        s.len() == 6,
        spec_all_valid(s),
{
    ((byte_sym(s[0]) as u32) << 25) | ((byte_sym(s[1]) as u32) << 20) | ((byte_sym(s[2]) as u32)
        << 15) | ((byte_sym(s[3]) as u32) << 10) | ((byte_sym(s[4]) as u32) << 5) | (byte_sym(
        s[5],
    ) as u32)
}

/// What decoding a byte sequence returns: the assembled value and the
/// canonical flag on success, and otherwise the error — `InvalidLength` when
/// the input is not six bytes long (checked first, independent of content),
/// `InvalidCharacters` when any byte is outside the alphabet.
pub open spec fn spec_decode(s: Seq<u8>) -> Result<(u32, bool), ParseError> {
    if s.len() != 6 {
        Err(ParseError::InvalidLength)
    } else if !spec_all_valid(s) {
        Err(ParseError::InvalidCharacters)
    } else {
        Ok((spec_combine(s), spec_all_canonical(s)))
    }
}

/// The assembled value always fits in 30 bits.
pub proof fn lemma_combine_bound(s: Seq<u8>)
    requires
        s.len() == 6,
        spec_all_valid(s),
    ensures
        spec_combine(s) < ID30_LIMIT,
{
    lemma_decode_table_range();
    let s0 = byte_sym(s[0]);
    let s1 = byte_sym(s[1]);
    let s2 = byte_sym(s[2]);
    let s3 = byte_sym(s[3]);
    let s4 = byte_sym(s[4]);
    let s5 = byte_sym(s[5]);
    assert(((s0 as u32) << 25 | (s1 as u32) << 20 | (s2 as u32) << 15 | (s3 as u32) << 10 | (
    s4 as u32) << 5 | (s5 as u32)) < 0x4000_0000) by (bit_vector)
        requires
            s0 < 32 && s1 < 32 && s2 < 32 && s3 < 32 && s4 < 32 && s5 < 32,
    ;
}

/// Decodes the given string to an [`Id30`] and the canonical flag.
///
/// The input must be exactly six bytes from the alphabet; case variants and
/// the confusable aliases decode to the same value as the canonical
/// characters, with `is_canonical` reporting whether any were used.
pub fn from_str(s: &str) -> (r: Result<Id30Parse, ParseError>)
    ensures
        (r matches Ok(parse) ==> spec_decode(s.spec_bytes()) == Ok::<_, ParseError>(
            (parse.id30@, parse.is_canonical),
        ) && parse.id30@ < ID30_LIMIT),
        (r matches Err(e) ==> spec_decode(s.spec_bytes()) == Err::<(u32, bool), _>(e)),
{
    let bytes = s.as_bytes();
    if bytes.len() != 6 {
        return Err(ParseError::InvalidLength);
    }
    let e0 = decode_lookup(bytes[0]);
    let e1 = decode_lookup(bytes[1]);
    let e2 = decode_lookup(bytes[2]);
    let e3 = decode_lookup(bytes[3]);
    let e4 = decode_lookup(bytes[4]);
    let e5 = decode_lookup(bytes[5]);

    if e0 == ERR_FLAG || e1 == ERR_FLAG || e2 == ERR_FLAG || e3 == ERR_FLAG || e4 == ERR_FLAG
        || e5 == ERR_FLAG {
        proof {
            if e0 == ERR_FLAG {
                assert(!byte_valid(s.spec_bytes()[0]));
            } else if e1 == ERR_FLAG {
                assert(!byte_valid(s.spec_bytes()[1]));
            } else if e2 == ERR_FLAG {
                assert(!byte_valid(s.spec_bytes()[2]));
            } else if e3 == ERR_FLAG {
                assert(!byte_valid(s.spec_bytes()[3]));
            } else if e4 == ERR_FLAG {
                assert(!byte_valid(s.spec_bytes()[4]));
            } else {
                assert(!byte_valid(s.spec_bytes()[5]));
            }
            assert(!spec_all_valid(s.spec_bytes()));
        }
        return Err(ParseError::InvalidCharacters);
    }
    proof {
        assert forall|i: int| 0 <= i < 6 implies byte_valid(#[trigger] s.spec_bytes()[i]) by {
            if i == 0 {
            } else if i == 1 {
            } else if i == 2 {
            } else if i == 3 {
            } else if i == 4 {
            } else {
            }
        }
    }

    let is_canonical = e0 < ALT_FLAG && e1 < ALT_FLAG && e2 < ALT_FLAG && e3 < ALT_FLAG && e4
        < ALT_FLAG && e5 < ALT_FLAG;
    proof {
        assert(is_canonical == spec_all_canonical(s.spec_bytes())) by {
            if is_canonical {
                assert forall|i: int| 0 <= i < 6 implies byte_canonical(
                    #[trigger] s.spec_bytes()[i],
                ) by {
                    if i == 0 {
                    } else if i == 1 {
                    } else if i == 2 {
                    } else if i == 3 {
                    } else if i == 4 {
                    } else {
                    }
                }
            }
        }
    }

    proof {
        lemma_decode_table_range();
        assert((e0 & 0x1f) == if e0 < 32 {
            e0
        } else {
            (e0 - 32) as u8
        }) by (bit_vector)
            requires
                e0 < 64,
        ;
        assert((e1 & 0x1f) == if e1 < 32 {
            e1
        } else {
            (e1 - 32) as u8
        }) by (bit_vector)
            requires
                e1 < 64,
        ;
        assert((e2 & 0x1f) == if e2 < 32 {
            e2
        } else {
            (e2 - 32) as u8
        }) by (bit_vector)
            requires
                e2 < 64,
        ;
        assert((e3 & 0x1f) == if e3 < 32 {
            e3
        } else {
            (e3 - 32) as u8
        }) by (bit_vector)
            requires
                e3 < 64,
        ;
        assert((e4 & 0x1f) == if e4 < 32 {
            e4
        } else {
            (e4 - 32) as u8
        }) by (bit_vector)
            requires
                e4 < 64,
        ;
        assert((e5 & 0x1f) == if e5 < 32 {
            e5
        } else {
            (e5 - 32) as u8
        }) by (bit_vector)
            requires
                e5 < 64,
        ;
        lemma_combine_bound(s.spec_bytes());
    }

    let value = (((e0 & 0x1f) as u32) << 25) | (((e1 & 0x1f) as u32) << 20) | (((e2
        & 0x1f) as u32) << 15) | (((e3 & 0x1f) as u32) << 10) | (((e4 & 0x1f) as u32) << 5) | ((e5
        & 0x1f) as u32);

    Ok(Id30Parse { id30: Id30(value), is_canonical })
}

impl core::str::FromStr for Id30Parse {
    type Err = ParseError;

    /// Parses via [`from_str`]; `"string".parse::<Id30Parse>()` convenience.
    fn from_str(s: &str) -> Result<Self, ParseError> {
        from_str(s)
    }
}

impl core::str::FromStr for Id30 {
    type Err = ParseError;

    /// Parses via [`from_str`], discarding the canonical flag.
    fn from_str(s: &str) -> Result<Self, ParseError> {
        match from_str(s) {
            Ok(parse) => Ok(parse.id30),
            Err(e) => Err(e),
        }
    }
}

} // verus!
