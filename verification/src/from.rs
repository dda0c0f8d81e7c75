//! Conversions between [`Id30`] and the 32 bit integer types.
//!
//! An `Id30` holds a value in `[0, ID30_LIMIT)`, so conversion from an integer
//! is checked and conversion to an integer is total. The two most significant
//! bits of the wrapped value are always zero, so `u32` and `i32` represent
//! every `Id30` identically.

use vstd::prelude::*;

use crate::{Id30, ID30_LIMIT};
use vstd::std_specs::convert::{FromSpec, TryFromSpec};

verus! {

/// The given value was out of range for an [`Id30`]. The valid range is
/// `[0, 1 << 30)`.
#[derive(Debug, Copy, Clone, PartialEq, Eq, Structural)]
pub struct OutOfRangeError;

impl TryFrom<u32> for Id30 {
    type Error = OutOfRangeError;

    /// Succeeds with the `Id30` wrapping `value` exactly when `value` lies in
    /// `[0, ID30_LIMIT)`; fails with [`OutOfRangeError`] otherwise.
    fn try_from(value: u32) -> (r: Result<Self, OutOfRangeError>) {
        if value < ID30_LIMIT {
            Ok(Id30(value))
        } else {
            Err(OutOfRangeError)
        }
    }
}

impl vstd::std_specs::convert::TryFromSpecImpl<u32> for Id30 {
    open spec fn obeys_try_from_spec() -> bool {
        true
    }

    closed spec fn try_from_spec(value: u32) -> Result<Self, OutOfRangeError> {
        if value < ID30_LIMIT {
            Ok(Id30(value))
        } else {
            Err(OutOfRangeError)
        }
    }
}

impl TryFrom<i32> for Id30 {
    type Error = OutOfRangeError;

    /// Succeeds with the `Id30` wrapping `value` exactly when `value` lies in
    /// `[0, ID30_LIMIT)`; a negative `value` always fails.
    fn try_from(value: i32) -> (r: Result<Self, OutOfRangeError>) {
        if 0 <= value && value < ID30_LIMIT as i32 {
            Ok(Id30(value as u32))
        } else {
            Err(OutOfRangeError)
        }
    }
}

impl vstd::std_specs::convert::TryFromSpecImpl<i32> for Id30 {
    open spec fn obeys_try_from_spec() -> bool {
        true
    }

    closed spec fn try_from_spec(value: i32) -> Result<Self, OutOfRangeError> {
        if 0 <= value < ID30_LIMIT {
            Ok(Id30(value as u32))
        } else {
            Err(OutOfRangeError)
        }
    }
}

impl From<Id30> for u32 {
    /// Returns the wrapped value, always in `[0, ID30_LIMIT)`.
    fn from(id30: Id30) -> (r: u32) {
        proof {
            use_type_invariant(id30);
        }
        id30.0
    }
}

impl vstd::std_specs::convert::FromSpecImpl<Id30> for u32 {
    open spec fn obeys_from_spec() -> bool {
        true
    }

    closed spec fn from_spec(id30: Id30) -> u32 {
        id30.0
    }
}

impl From<Id30> for i32 {
    /// Returns the wrapped value, always in `[0, ID30_LIMIT)`, so the sign
    /// bit is never set.
    fn from(id30: Id30) -> (r: i32) {
        proof {
            use_type_invariant(id30);
        }
        id30.0 as i32
    }
}

impl vstd::std_specs::convert::FromSpecImpl<Id30> for i32 {
    open spec fn obeys_from_spec() -> bool {
        true
    }

    closed spec fn from_spec(id30: Id30) -> i32 {
        id30.0 as i32
    }
}

/// What conversion from `u32` returns: the in-range values convert, all
/// others are rejected.
pub proof fn lemma_try_from_u32(value: u32)
    ensures
        value < ID30_LIMIT ==> ({
            &&& Id30::try_from_spec(value) matches Ok(id30)
            &&& id30@ == value
        }),
        value >= ID30_LIMIT ==> Id30::try_from_spec(value) == Err::<Id30, _>(OutOfRangeError),
{
}

/// What conversion from `i32` returns: the in-range values convert, negative
/// values and values of `ID30_LIMIT` or more are rejected.
pub proof fn lemma_try_from_i32(value: i32)
    ensures
        0 <= value < ID30_LIMIT ==> ({
            &&& Id30::try_from_spec(value) matches Ok(id30)
            &&& id30@ == value
        }),
        !(0 <= value < ID30_LIMIT) ==> Id30::try_from_spec(value) == Err::<Id30, _>(
            OutOfRangeError,
        ),
{
}

/// Conversion to `u32` returns the wrapped value.
pub proof fn lemma_into_u32(id30: Id30)
    ensures
        u32::from_spec(id30) == id30@,
{
}

/// Conversion to `i32` returns the wrapped value, which is never negative.
pub proof fn lemma_into_i32(id30: Id30)
    requires
        Id30::in_range(id30@),
    ensures
        i32::from_spec(id30) == id30@,
        i32::from_spec(id30) >= 0,
{
}

} // verus!
