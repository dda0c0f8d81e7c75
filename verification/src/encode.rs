//! Encoding an [`Id30`] as its six character text form.
//!
//! The 30 bit value is split into six 5 bit groups, most significant group
//! first, and each group is mapped through the encode table. The result is
//! always exactly six characters from the canonical alphabet.

use vstd::prelude::*;
use vstd::utf8::{encode_utf8, is_ascii_chars, is_ascii_chars_encode_utf8};

use crate::codec_tables::{encode_lookup, encode_table};
use crate::Id30;

verus! {

/// The `i`th 5 bit group of `v`, most significant group first: the groups sit
/// at bit positions 25, 20, 15, 10, 5 and 0.
pub open spec fn spec_digit(v: u32, i: int) -> u8 {
    if i == 0 {
        ((v >> 25) & 0x1f) as u8
    } else if i == 1 {
        ((v >> 20) & 0x1f) as u8
    } else if i == 2 {
        ((v >> 15) & 0x1f) as u8
    } else if i == 3 {
        ((v >> 10) & 0x1f) as u8
    } else if i == 4 {
        ((v >> 5) & 0x1f) as u8
    } else {
        (v & 0x1f) as u8
    }
}

/// The canonical six byte encoding of `v`.
pub open spec fn spec_encode_bytes(v: u32) -> Seq<u8> {
    Seq::new(6, |i: int| encode_table(spec_digit(v, i)))
}

/// The canonical six character encoding of `v`: the bytes of
/// [`spec_encode_bytes`] read as characters, which is lossless because the
/// whole alphabet is ASCII.
pub open spec fn spec_encode_chars(v: u32) -> Seq<char> {
    Seq::new(6, |i: int| encode_table(spec_digit(v, i)) as char)
}

/// Every 5 bit group is a symbol value below 32.
pub proof fn lemma_digit_bound(v: u32)
    ensures
        forall|i: int| #[trigger] spec_digit(v, i) < 32,
{
    assert(((v >> 25) & 0x1f) < 32) by (bit_vector);
    assert(((v >> 20) & 0x1f) < 32) by (bit_vector);
    assert(((v >> 15) & 0x1f) < 32) by (bit_vector);
    assert(((v >> 10) & 0x1f) < 32) by (bit_vector);
    assert(((v >> 5) & 0x1f) < 32) by (bit_vector);
    assert((v & 0x1f) < 32) by (bit_vector);
}

/// The character and byte forms of an encoding agree: encoding the character
/// sequence as UTF-8 gives exactly the canonical bytes.
pub proof fn lemma_encode_chars_utf8(v: u32)
    ensures
        is_ascii_chars(spec_encode_chars(v)),
        encode_utf8(spec_encode_chars(v)) =~= spec_encode_bytes(v),
{
    lemma_digit_bound(v);
    assert forall|i: int| 0 <= i < 6 implies '\0' <= #[trigger] spec_encode_chars(v)[i]
        <= '\u{7f}' by {
        assert(encode_table(spec_digit(v, i)) <= 0x7a);
    }
    is_ascii_chars_encode_utf8(spec_encode_chars(v));
}

/// Appends one character.
///
/// Relies on `String::push` from std: it appends exactly the given character
/// to the end of the string.
#[verifier::external_body]
fn push_char(s: &mut String, c: char)
    ensures
        final(s)@ == old(s)@.push(c),
{
    s.push(c);
}

/// Calls `f` with the canonical six character encoding of `id30` and returns
/// what `f` returns.
pub fn with_str<T, F: FnOnce(&str) -> T>(id30: &Id30, f: F) -> (r: T)
    requires
        forall|s: &str| s@ == spec_encode_chars(id30@) ==> f.requires((s,)),
    ensures
        exists|s: &str| s@ == spec_encode_chars(id30@) && f.ensures((s,), r),
{
    let encoded = id30.encode();
    f(encoded.as_str())
}

impl Id30 {
    /// Encodes this identifier as its canonical six character string: each 5
    /// bit group of the value, most significant first, mapped through the
    /// encode table.
    pub fn encode(&self) -> (r: String)
        ensures
            r@ == spec_encode_chars(self@),
            r@.len() == 6,
    {
        let v = self.0;
        proof {
            lemma_digit_bound(v);
            assert(spec_digit(v, 0) == ((v >> 25) & 0x1f) as u8);
            assert(spec_digit(v, 1) == ((v >> 20) & 0x1f) as u8);
            assert(spec_digit(v, 2) == ((v >> 15) & 0x1f) as u8);
            assert(spec_digit(v, 3) == ((v >> 10) & 0x1f) as u8);
            assert(spec_digit(v, 4) == ((v >> 5) & 0x1f) as u8);
            assert(spec_digit(v, 5) == (v & 0x1f) as u8);
        }
        let mut r = String::new();
        push_char(&mut r, encode_lookup(((v >> 25) & 0x1f) as u8) as char);
        push_char(&mut r, encode_lookup(((v >> 20) & 0x1f) as u8) as char);
        push_char(&mut r, encode_lookup(((v >> 15) & 0x1f) as u8) as char);
        push_char(&mut r, encode_lookup(((v >> 10) & 0x1f) as u8) as char);
        push_char(&mut r, encode_lookup(((v >> 5) & 0x1f) as u8) as char);
        push_char(&mut r, encode_lookup((v & 0x1f) as u8) as char);
        proof {
            assert(r@ =~= spec_encode_chars(self@));
        }
        r
    }
}

} // verus!
