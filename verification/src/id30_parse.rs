//! The result and error types of parsing an Id30 string.

use vstd::prelude::*;

use crate::Id30;

verus! {

/// The successful result of parsing an Id30 string:
///  - an [`Id30`] value, `id30`
///  - a boolean, `is_canonical`, which is `true` iff the parsed string was in
///    canonical encoding
///
/// When accepting an Id30 as input, a non-canonical encoding should
/// preferably redirect the user to the canonical encoding of the same value,
/// so that one resource is not exposed at many different URLs. Parsing to
/// `Id30Parse` yields the information necessary to implement this.
#[derive(Debug, PartialEq, Eq, Structural)]
pub struct Id30Parse {
    /// The parsed identifier.
    pub id30: Id30,
    /// True iff every input character was the canonical character of its
    /// symbol value: no upper case variant, no confusable alias.
    pub is_canonical: bool,
}

/// The given string was not a valid Id30.
#[derive(Debug, Copy, Clone, PartialEq, Eq, Structural)]
pub enum ParseError {
    /// The given string did not have length 6.
    InvalidLength,
    /// The given string contained one or more bytes outside the alphabet.
    InvalidCharacters,
}

} // verus!
