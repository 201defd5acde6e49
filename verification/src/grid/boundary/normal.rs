//! The band of values that count as normal.
use crate::grid::boundary::BoundaryUnitTrait;
use core::cmp::Ordering;
use vstd::prelude::*;

verus! {

/// What is considered normal behaviour of a monitored quantity.
#[derive(Debug, Clone, Copy, PartialEq, Eq)]
pub struct NormalBand<T: BoundaryUnitTrait> {
    /// Lower limit of the band, itself still normal.
    pub lower: T,
    /// Higher limit of the band, itself still normal.
    pub higher: T,
}

impl<T: BoundaryUnitTrait> NormalBand<T> {
    /// The value lies under the band.
    pub open spec fn below(self, value: T) -> bool {
        value.spec_value() < self.lower.spec_value()
    }

    /// The value lies over the band, and not under it.
    pub open spec fn above(self, value: T) -> bool {
        !self.below(value) && value.spec_value() > self.higher.spec_value()
    }

    /// The value lies in the band.
    pub open spec fn within(self, value: T) -> bool {
        !self.below(value) && !self.above(value)
    }

    /// Is the given value within the normal behaviour, or higher/lower?
    pub fn compare(&self, value: T) -> (ordering: Ordering)
        ensures
            self.below(value) <==> ordering == Ordering::Less,
            self.above(value) <==> ordering == Ordering::Greater,
            self.within(value) <==> ordering == Ordering::Equal,
    {
        if value.value() < self.lower.value() {
            return Ordering::Less;
        }
        if value.value() > self.higher.value() {
            return Ordering::Greater;
        }
        Ordering::Equal
    }
}

} // verus!
