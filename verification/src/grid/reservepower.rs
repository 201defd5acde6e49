//! The bounded reserve with which the grid operator absorbs power mismatch.
use crate::util::Watt;
use vstd::prelude::*;

verus! {

/// Regulating room of the grid operator: how far production can be moved up
/// or down, how much of that is in use, and how fast it can be changed.
#[derive(Copy, Clone, Debug, PartialEq, Eq, Structural)]
pub struct ReservePower {
    /// How much power can the grid operator let produce less in total?
    pub lower_limit: Watt,
    /// How much power can the grid operator let produce more in total?
    pub upper_limit: Watt,
    /// How much of that room is currently in use?
    pub current_usage: Watt,
    /// How much of that room can be used in a single step?
    pub watt_per_step: Watt,
}

/// Magnitude of an integer.
pub open spec fn magnitude(x: int) -> int {
    if x < 0 {
        -x
    } else {
        x
    }
}

/// The larger of two integers.
pub open spec fn larger(a: int, b: int) -> int {
    if a >= b {
        a
    } else {
        b
    }
}

impl ReservePower {
    /// The usage lies within the limits and the rate is not negative.
    pub open spec fn wf(self) -> bool {
        &&& self.lower_limit.0 <= self.current_usage.0 <= self.upper_limit.0
        &&& self.watt_per_step.0 >= 0
    }

    /// The compensation that the reserve gives for a power error.
    ///
    /// Where taking on the whole error would move the usage beyond a limit,
    /// it is the distance from the usage to that limit. Otherwise it is the
    /// error itself, cut down to the rate of change per step where the error is
    /// larger than that, with the sign of the error.
    pub open spec fn compensation(self, power_error: Watt) -> int {
        let new_usage = self.current_usage.0 + power_error.0;
        if new_usage > self.upper_limit.0 {
            self.upper_limit.0 - self.current_usage.0
        } else if new_usage < self.lower_limit.0 {
            self.lower_limit.0 - self.current_usage.0
        } else if power_error.0 > self.watt_per_step.0 {
            self.watt_per_step.0 as int
        } else if power_error.0 < -self.watt_per_step.0 {
            -self.watt_per_step.0
        } else {
            power_error.0 as int
        }
    }

    /// The reserve after it has compensated a power error: its usage has
    /// grown by the compensation.
    pub open spec fn after(self, power_error: Watt) -> ReservePower {
        ReservePower {
            current_usage: Watt((self.current_usage.0 + self.compensation(power_error)) as i64),
            ..self
        }
    }

    /// The reserve after it has compensated the given power errors one after
    /// the other.
    pub open spec fn after_all(self, power_errors: Seq<Watt>) -> ReservePower
        decreases power_errors.len(),
    {
        if power_errors.len() == 0 {
            self
        } else {
            self.after_all(power_errors.drop_last()).after(power_errors.last())
        }
    }

    /// Try to compensate the power mismatch with the available room.
    /// Returns the amount of Watt that is compensated, and takes it into use.
    pub fn compensate(&mut self, power_error: Watt) -> (compensated: Watt)
        requires
            old(self).wf(),
        ensures
            compensated.0 == old(self).compensation(power_error),
            *final(self) == old(self).after(power_error),
            final(self).current_usage.0 == old(self).current_usage.0 + compensated.0,
            final(self).wf(),
            magnitude(compensated.0 as int) <= larger(
                old(self).watt_per_step.0 as int,
                magnitude(power_error.0 as int),
            ),
    {
        let new_usage: i128 = self.current_usage.0 as i128 + power_error.0 as i128;
        if new_usage > self.upper_limit.0 as i128 {
            let res = Watt(self.upper_limit.0 - self.current_usage.0);
            self.current_usage = self.upper_limit;
            res
        } else if new_usage < self.lower_limit.0 as i128 {
            let res = Watt(self.lower_limit.0 - self.current_usage.0);
            self.current_usage = self.lower_limit;
            res
        } else {
            let take = if power_error.0 > self.watt_per_step.0 {
                self.watt_per_step
            } else if power_error.0 < -self.watt_per_step.0 {
                Watt(-self.watt_per_step.0)
            } else {
                power_error
            };
            self.current_usage = Watt(self.current_usage.0 + take.0);
            take
        }
    }
}

/// The compensation for a power error is never larger in magnitude than the
/// error itself or the rate of change per step, whichever is larger, and it
/// leaves the usage within the limits.
pub proof fn lemma_compensation_is_bounded(reserve: ReservePower, power_error: Watt)
    requires
        reserve.wf(),
    ensures
        magnitude(reserve.compensation(power_error)) <= larger(
            reserve.watt_per_step.0 as int,
            magnitude(power_error.0 as int),
        ),
        reserve.after(power_error).wf(),
        reserve.after(power_error).current_usage.0 == reserve.current_usage.0
            + reserve.compensation(power_error),
{
}

/// Whatever power errors a reserve compensates, and however many, its usage
/// stays within its limits, and its limits and its rate stay what they were.
pub proof fn lemma_usage_stays_within_limits(reserve: ReservePower, power_errors: Seq<Watt>)
    requires
        reserve.wf(),
    ensures
        reserve.after_all(power_errors).wf(),
        reserve.after_all(power_errors).lower_limit == reserve.lower_limit,
        reserve.after_all(power_errors).upper_limit == reserve.upper_limit,
        reserve.after_all(power_errors).watt_per_step == reserve.watt_per_step,
    decreases power_errors.len(),
{
    if power_errors.len() > 0 {
        lemma_usage_stays_within_limits(reserve, power_errors.drop_last());
        lemma_compensation_is_bounded(
            reserve.after_all(power_errors.drop_last()),
            power_errors.last(),
        );
    }
}

impl Default for ReservePower {
    fn default() -> (r: Self)
        ensures
            r == (ReservePower {
                lower_limit: Watt(0),
                upper_limit: Watt(0),
                current_usage: Watt(0),
                watt_per_step: Watt(0),
            }),
            r.wf(),
    {
        ReservePower {
            lower_limit: Watt(0),
            upper_limit: Watt(0),
            current_usage: Watt(0),
            watt_per_step: Watt(0),
        }
    }
}

} // verus!
