//! Id30 is an encoding scheme for 30 bit identifiers that look like the
//! following: `bpv3sq`, `zvaec2`, `rfmbyz`, `jwygvk`, `000000`, `zzzzzz`. It is
//! designed for use as opaque identifiers in URLs, that can be read and
//! written comfortably.
//!
//! In machine readable form, an Id30 is a 32 bit integer, of which the two
//! most significant bits are always zero. The text form is always exactly six
//! characters from a case-insensitive base 32 alphabet that also forgives
//! common misreadings of confusable characters.

use vstd::prelude::*;

pub mod codec_tables;
pub mod encode;
pub mod from;
pub mod from_str;
pub mod id30_parse;
pub mod laws;
pub mod rand_support;

pub use encode::with_str;
pub use from::OutOfRangeError;
pub use from_str::from_str;
pub use id30_parse::{Id30Parse, ParseError};

verus! {

/// The number of valid Id30 values: `1 << 30`. Every Id30 integer value lies
/// in `[0, ID30_LIMIT)`.
pub const ID30_LIMIT: u32 = 0x4000_0000;

/// A 30 bit identifier.
///
/// The value is held as a 32 bit integer whose two most significant bits are
/// always zero, so `u32` and `i32` are equally well suited as interchange
/// formats. Equality and ordering follow the wrapped integer, which is the
/// same order as the lexicographic order of the six character text form.
#[derive(PartialEq, Eq, Structural, PartialOrd, Ord, Hash, Copy, Clone, Debug)]
pub struct Id30(pub(crate) u32);

impl View for Id30 {
    type V = u32;

    closed spec fn view(&self) -> u32 {
        self.0
    }
}

impl Id30 {
    /// True exactly of the integers that an `Id30` can hold.
    pub open spec fn in_range(v: u32) -> bool {
        v < ID30_LIMIT
    }

    #[verifier::type_invariant]
    spec fn type_inv(&self) -> bool {
        Self::in_range(self.0)
    }

    /// The wrapped integer, always in `[0, ID30_LIMIT)`.
    pub fn to_u32(&self) -> (r: u32)
        ensures
            r == self@,
            Self::in_range(r),
    {
        proof {
            use_type_invariant(self);
        }
        self.0
    }
}

} // verus!
