//! Uniform random sampling of [`Id30`] values.
//!
//! A uniformly random 32 bit value is reduced to the 30 bit range by keeping
//! its 30 most significant bits: if the source is biased, the highest quality
//! random bits are typically the high ones.

use vstd::prelude::*;

use crate::Id30;

verus! {

/// Draws one 32 bit value from the thread-local random number generator.
///
/// Relies on `rand::random::<u32>()`; nothing is promised of the value, every
/// caller must handle every outcome.
#[verifier::external_body]
fn random_u32() -> u32 {
    rand::random()
}

impl Id30 {
    /// The [`Id30`] selected by an arbitrary 32 bit value: its 30 most
    /// significant bits. A uniform `raw` yields a uniform `Id30`.
    pub fn from_random_u32(raw: u32) -> (r: Id30)
        ensures
            r@ == raw >> 2,
    {
        proof {
            assert(raw >> 2 < 0x4000_0000) by (bit_vector);
        }
        Id30(raw >> 2)
    }

    /// Samples an [`Id30`] uniformly from the whole 30 bit range, using the
    /// thread-local random number generator.
    pub fn sample() -> (r: Id30)
        ensures
            Id30::in_range(r@),
    {
        let raw = random_u32();
        proof {
            assert(raw >> 2 < 0x4000_0000) by (bit_vector);
        }
        Id30::from_random_u32(raw)
    }
}

} // verus!
