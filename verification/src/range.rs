//! Validation and normalization of the requested pack range.
//!
//! Both bounds must be positive; a reversed pair is swapped; the upper bound
//! must stay below a fixed domain ceiling. A run only ever starts from a
//! `BatchRange` that passed this validation.

use vstd::prelude::*;

use crate::errors::ValidationError;

verus! {

/// Exclusive upper limit on pack numbers: a normalized range whose upper
/// bound reaches this is rejected as pointing at nonexistent packs.
pub const PACK_NUM_CEILING: u16 = 3000;

/// A validated batch range: `1 <= min <= max < PACK_NUM_CEILING`.
#[derive(Debug, Clone, Copy, PartialEq, Eq, Structural)]
pub struct BatchRange {
    min: u16,
    max: u16,
}

/// The smaller of the two requested bounds.
pub open spec fn lower_bound(a: u16, b: u16) -> u16 {
    if a <= b {
        a
    } else {
        b
    }
}

/// The larger of the two requested bounds.
pub open spec fn upper_bound(a: u16, b: u16) -> u16 {
    if a <= b {
        b
    } else {
        a
    }
}

impl BatchRange {
    pub closed spec fn spec_min(&self) -> u16 {
        self.min
    }

    pub closed spec fn spec_max(&self) -> u16 {
        self.max
    }

    /// Every constructed range satisfies this.
    pub open spec fn well_formed(&self) -> bool {
        1 <= self.spec_min() && self.spec_min() <= self.spec_max() && self.spec_max()
            < PACK_NUM_CEILING
    }

    /// Number of packs the range covers.
    pub open spec fn spec_len(&self) -> int {
        self.spec_max() - self.spec_min() + 1
    }

    pub fn min(&self) -> (r: u16)
        ensures
            r == self.spec_min(),
    {
        self.min
    }

    pub fn max(&self) -> (r: u16)
        ensures
            r == self.spec_max(),
    {
        self.max
    }
}

/// Validates and normalizes a requested pack range.
///
/// A zero bound is rejected; a reversed pair is swapped into order; a range
/// whose upper bound reaches the domain ceiling is rejected. Exactly the
/// remaining requests yield a well-formed `BatchRange`.
pub fn normalize_range(a: u16, b: u16) -> (r: Result<BatchRange, ValidationError>)
    ensures
        (a == 0 || b == 0) ==> r == Result::<BatchRange, ValidationError>::Err(
            ValidationError::ZeroBound,
        ),
        (a >= 1 && b >= 1 && upper_bound(a, b) >= PACK_NUM_CEILING) ==> r == Result::<
            BatchRange,
            ValidationError,
        >::Err(ValidationError::TooHigh(upper_bound(a, b))),
        (a >= 1 && b >= 1 && upper_bound(a, b) < PACK_NUM_CEILING) ==> (r matches Ok(range)
            && range.spec_min() == lower_bound(a, b) && range.spec_max() == upper_bound(a, b)
            && range.well_formed()),
{
    if a == 0 || b == 0 {
        return Err(ValidationError::ZeroBound);
    }
    let min: u16 = if a <= b {
        a
    } else {
        b
    };
    let max: u16 = if a <= b {
        b
    } else {
        a
    };
    if max >= PACK_NUM_CEILING {
        return Err(ValidationError::TooHigh(max));
    }
    Ok(BatchRange { min, max })
}

} // verus!
