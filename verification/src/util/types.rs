//! Strongly typed scalar units used throughout the grid simulation.
//!
//! Every unit is a thin wrapper around a machine integer, so that a wattage can
//! never be mistaken for a voltage or a tick count.
use vstd::prelude::*;

verus! {

/// The default signed integer of the simulation.
pub type BaseInt = i32;

/// The default unsigned integer of the simulation.
pub type BaseUint = u32;

/// Number of minutes in one day.
pub const MINUTES_PER_DAY: i32 = 1440;

/// Number of simulated minutes that one tick covers.
pub const MINUTES_PER_STEP: i32 = 15;

/// Number of ticks in one day.
pub const STEPS_PER_DAY: i32 = 96;

/// Marker for the scalar types that the simulation may carry around by value.
pub trait StructTraitBound: Copy {

}

/// A frequency in millihertz.
#[allow(non_camel_case_types)]
#[derive(Clone, Copy, Debug, PartialEq, Eq, Structural, PartialOrd, Ord, Hash)]
pub struct mHz(pub BaseInt);

/// A voltage in millivolts.
#[allow(non_camel_case_types)]
#[derive(Clone, Copy, Debug, PartialEq, Eq, Structural, PartialOrd, Ord, Hash)]
pub struct mVolt(pub BaseInt);

/// A duration in minutes.
#[derive(Clone, Copy, Debug, PartialEq, Eq, Structural, PartialOrd, Ord, Hash)]
pub struct Minutes(pub BaseInt);

/// An amount of power in watts.
#[derive(Clone, Copy, Debug, PartialEq, Eq, Structural, PartialOrd, Ord, Hash)]
pub struct Watt(pub i64);

/// A number of simulation ticks. One tick covers fifteen minutes.
#[derive(Clone, Copy, Debug, PartialEq, Eq, Structural, PartialOrd, Ord, Hash)]
pub struct Steps(pub BaseInt);

impl StructTraitBound for BaseInt {

}

impl StructTraitBound for BaseUint {

}

impl StructTraitBound for Steps {

}

impl StructTraitBound for Minutes {

}

impl StructTraitBound for mVolt {

}

impl StructTraitBound for mHz {

}

impl StructTraitBound for Watt {

}

/// Remainder of `a` by a positive `b` that takes the sign of `a`, as machine
/// integers compute it.
pub open spec fn rem_toward_zero(a: int, b: int) -> int {
    if a >= 0 {
        a % b
    } else {
        -((-a) % b)
    }
}

/// Quotient of `a` by a positive `b`, rounded toward zero, as machine integers
/// compute it.
pub open spec fn div_toward_zero(a: int, b: int) -> int {
    if a >= 0 {
        a / b
    } else {
        -((-a) / b)
    }
}

impl Steps {
    /// The minute of the day at which the given tick starts. A negative tick
    /// count gives a negative minute, mirroring the remainder of machine
    /// integers.
    pub open spec fn spec_time_of_day(steps: Steps) -> Minutes {
        Minutes(rem_toward_zero(steps.0 * MINUTES_PER_STEP, MINUTES_PER_DAY as int) as i32)
    }

    /// The index of the tick within its day, for a tick that is not negative.
    pub open spec fn spec_slot_of_day(steps: Steps) -> int {
        (steps.0 as int) % (STEPS_PER_DAY as int)
    }

    /// Returns the number of minutes that one tick covers.
    pub fn minutes_per_step() -> (m: Minutes)
        ensures
            m == Minutes(15),
    {
        Minutes(MINUTES_PER_STEP)
    }

    /// Minutes that have passed on the tick's own day.
    pub fn time_of_day(steps: &Self) -> (m: Minutes)
        ensures
            m == Self::spec_time_of_day(*steps),
            -1440 < m.0 < 1440,
            steps.0 >= 0 ==> 0 <= m.0 && m.0 == (steps.0 * 15) % 1440,
            steps.0 >= 0 ==> m.0 == 15 * Self::spec_slot_of_day(*steps),
    {
        let total_minutes: i64 = (steps.0 as i64) * (MINUTES_PER_STEP as i64);
        let minute_of_the_day: i64 = if total_minutes >= 0 {
            total_minutes % (MINUTES_PER_DAY as i64)
        } else {
            -((-total_minutes) % (MINUTES_PER_DAY as i64))
        };
        Minutes(minute_of_the_day as i32)
    }

    /// Number of ticks in one day.
    pub fn steps_per_day() -> (s: Steps)
        ensures
            s == Steps(96),
    {
        Steps(MINUTES_PER_DAY / MINUTES_PER_STEP)
    }
}

impl From<i64> for Watt {
    fn from(value: i64) -> (w: Self) {
        Watt(value)
    }
}

impl vstd::std_specs::convert::FromSpecImpl<i64> for Watt {
    open spec fn obeys_from_spec() -> bool {
        true
    }

    open spec fn from_spec(value: i64) -> Self {
        Watt(value)
    }
}

impl From<BaseInt> for mHz {
    fn from(value: BaseInt) -> (f: Self) {
        mHz(value)
    }
}

impl vstd::std_specs::convert::FromSpecImpl<BaseInt> for mHz {
    open spec fn obeys_from_spec() -> bool {
        true
    }

    open spec fn from_spec(value: BaseInt) -> Self {
        mHz(value)
    }
}

impl From<BaseInt> for mVolt {
    fn from(value: BaseInt) -> (v: Self) {
        mVolt(value)
    }
}

impl vstd::std_specs::convert::FromSpecImpl<BaseInt> for mVolt {
    open spec fn obeys_from_spec() -> bool {
        true
    }

    open spec fn from_spec(value: BaseInt) -> Self {
        mVolt(value)
    }
}

impl From<BaseInt> for Steps {
    fn from(value: BaseInt) -> (s: Self) {
        Steps(value)
    }
}

impl vstd::std_specs::convert::FromSpecImpl<BaseInt> for Steps {
    open spec fn obeys_from_spec() -> bool {
        true
    }

    open spec fn from_spec(value: BaseInt) -> Self {
        Steps(value)
    }
}

impl From<BaseInt> for Minutes {
    fn from(value: BaseInt) -> (m: Self) {
        Minutes(value)
    }
}

impl vstd::std_specs::convert::FromSpecImpl<BaseInt> for Minutes {
    open spec fn obeys_from_spec() -> bool {
        true
    }

    open spec fn from_spec(value: BaseInt) -> Self {
        Minutes(value)
    }
}

impl From<Minutes> for Steps {
    /// The number of whole ticks that fit in the given minutes.
    fn from(i: Minutes) -> (s: Self) {
        if i.0 >= 0 {
            Steps(i.0 / MINUTES_PER_STEP)
        } else if i.0 == i32::MIN {
            Steps(-143165576)
        } else {
            Steps(-((-i.0) / MINUTES_PER_STEP))
        }
    }
}

impl vstd::std_specs::convert::FromSpecImpl<Minutes> for Steps {
    open spec fn obeys_from_spec() -> bool {
        true
    }

    open spec fn from_spec(i: Minutes) -> Self {
        Steps(div_toward_zero(i.0 as int, MINUTES_PER_STEP as int) as i32)
    }
}

} // verus!
