//! One deviation band: a border and the time a value may stay beyond it.
use crate::grid::boundary::BoundaryUnitTrait;
use crate::grid::gridstate::GridBoundaryState;
use crate::util::Steps;
use core::cmp::Ordering;
use vstd::prelude::*;

verus! {

/// The side of the normal band on which a band list watches.
#[derive(Debug, Clone, Copy, PartialEq, Eq, Structural)]
pub enum Deviation {
    /// Under the normal band.
    Below,
    /// Neither under nor over: only a value right on a border counts.
    Level,
    /// Over the normal band.
    Above,
}

/// The side that an ordering relative to the normal band stands for.
pub open spec fn deviation_of(direction: Ordering) -> Deviation {
    match direction {
        Ordering::Less => Deviation::Below,
        Ordering::Equal => Deviation::Level,
        Ordering::Greater => Deviation::Above,
    }
}

/// Restriction on the grid: how many steps in a row may the monitored value be
/// at or beyond the border before the violation becomes critical?
#[derive(Clone, Copy, Debug, PartialEq, Eq)]
pub struct BoundaryBand<T: BoundaryUnitTrait> {
    /// The border value that the monitored value must reach to trigger this
    /// restriction. The direction is given by the list the band stands in.
    pub border: T,
    /// How many steps can the value pass the border before the restriction is
    /// broken?
    pub max_time_allowed: Steps,
    /// How many steps have already been spent past the border?
    pub time_passed: Steps,
}

impl<T: BoundaryUnitTrait> BoundaryBand<T> {
    /// The value is on the border or beyond it, seen from the given side.
    pub open spec fn reached(self, current: T, side: Deviation) -> bool {
        match side {
            Deviation::Below => current.spec_value() <= self.border.spec_value(),
            Deviation::Level => current.spec_value() == self.border.spec_value(),
            Deviation::Above => current.spec_value() >= self.border.spec_value(),
        }
    }

    /// The band after one step with the given value: a step at or beyond the
    /// border is counted, as long as the counter has room.
    pub open spec fn after(self, current: T, side: Deviation) -> BoundaryBand<T> {
        if self.reached(current, side) && self.time_passed.0 < i32::MAX {
            BoundaryBand {
                border: self.border,
                max_time_allowed: self.max_time_allowed,
                time_passed: Steps((self.time_passed.0 + 1) as i32),
            }
        } else {
            self
        }
    }

    /// The band with its counter back at zero.
    pub open spec fn cleared(self) -> BoundaryBand<T> {
        BoundaryBand {
            border: self.border,
            max_time_allowed: self.max_time_allowed,
            time_passed: Steps(0),
        }
    }

    /// More steps were spent past the border than are allowed.
    pub open spec fn exceeded(self) -> bool {
        self.time_passed.0 > self.max_time_allowed.0
    }

    /// What the band reports on the given side: the critical state once the
    /// allowed time is exceeded, the warning state before that.
    pub open spec fn reported(self, side: Deviation) -> GridBoundaryState {
        if self.exceeded() {
            if side == Deviation::Below {
                GridBoundaryState::TooLow
            } else {
                GridBoundaryState::TooHigh
            }
        } else if side == Deviation::Below {
            GridBoundaryState::Low
        } else {
            GridBoundaryState::High
        }
    }

    /// Takes one step with the given value on the given side of the normal
    /// band, and gives the state of the grid according to this band.
    pub fn advance(&mut self, current: T, side: Deviation) -> (state: GridBoundaryState)
        ensures
            *final(self) == old(self).after(current, side),
            state == final(self).reported(side),
    {
        let value: i32 = current.value();
        let border: i32 = self.border.value();
        let reached = match side {
            Deviation::Below => value <= border,
            Deviation::Level => value == border,
            Deviation::Above => value >= border,
        };
        if reached && self.time_passed.0 < i32::MAX {
            self.time_passed = Steps(self.time_passed.0 + 1);
        }
        let low = match side {
            Deviation::Below => true,
            _ => false,
        };
        if self.time_passed.0 > self.max_time_allowed.0 {
            if low {
                GridBoundaryState::TooLow
            } else {
                GridBoundaryState::TooHigh
            }
        } else if low {
            GridBoundaryState::Low
        } else {
            GridBoundaryState::High
        }
    }

    /// Check if the restriction is active, give the state of the grid at this
    /// point according to this band.
    pub fn check(&mut self, current: T, direction_regards_normal: Ordering) -> (state:
        GridBoundaryState)
        ensures
            *final(self) == old(self).after(current, deviation_of(direction_regards_normal)),
            state == final(self).reported(deviation_of(direction_regards_normal)),
    {
        let side = match direction_regards_normal {
            Ordering::Less => Deviation::Below,
            Ordering::Equal => Deviation::Level,
            Ordering::Greater => Deviation::Above,
        };
        self.advance(current, side)
    }
}

} // verus!
