//! The frequency of the grid, as the root agent keeps it.
use crate::grid::states::power::pushed_bounded;
use crate::grid::states::GridState;
use crate::grid::Grid;
use crate::util::{mHz, BaseInt, Watt};
use vstd::prelude::*;

verus! {

/// The frequency that a grid in balance has, in millihertz.
pub const NOMINAL_FREQUENCY: BaseInt = 50_000;

/// Number of past values that a fresh frequency or voltage state keeps.
pub const STATE_HISTORY_LEN: BaseInt = 10;

/// Frequency state of an agent. With frequency, this is only the root node.
#[derive(Debug)]
pub struct FreqState {
    /// Current value
    pub now: mHz,
    /// History of the values, oldest first.
    pub history: Vec<mHz>,
    /// How much history is kept?
    pub history_len: BaseInt,
}

/// Quotient of two integers rounded toward zero, for a divisor that is not
/// zero.
pub open spec fn quotient_toward_zero(dividend: int, divisor: int) -> int {
    let q = (if dividend < 0 {
        -dividend
    } else {
        dividend
    }) / (if divisor < 0 {
        -divisor
    } else {
        divisor
    });
    if (dividend < 0) != (divisor < 0) {
        -q
    } else {
        q
    }
}

/// The value brought into the range of a 32 bit signed integer.
pub open spec fn clamped_to_i32(value: int) -> int {
    if value > i32::MAX {
        i32::MAX as int
    } else if value < i32::MIN {
        i32::MIN as int
    } else {
        value
    }
}

/// By how much a quantity that stands at `now` moves when the power error is
/// `power_error` against a base load of `power_base`: the quantity times the
/// ratio of error to base, rounded toward zero and held within 32 bits. With
/// no base load at all the move is as large as the range allows, in the
/// direction of the error, or zero where there is no error either.
pub open spec fn mismatch_shift(now: int, power_error: int, power_base: int) -> int {
    let weighted = now * power_error;
    if power_base == 0 {
        if weighted == 0 {
            0
        } else if (weighted > 0) {
            i32::MAX as int
        } else {
            i32::MIN as int
        }
    } else {
        clamped_to_i32(quotient_toward_zero(weighted, power_base))
    }
}

impl FreqState {
    /// The frequency that follows from a power mismatch: the current frequency
    /// moved by its share of the error relative to the total load, bulk
    /// consumption included, and held within the range of the unit.
    pub open spec fn spec_power_mismatch(
        self,
        power_total: Watt,
        power_error: Watt,
        bulk_consumption: Watt,
    ) -> mHz {
        mHz(
            clamped_to_i32(
                self.now.0 + mismatch_shift(
                    self.now.0 as int,
                    power_error.0 as int,
                    power_total.0 + bulk_consumption.0,
                ),
            ) as i32,
        )
    }

    /// Whether this state is `before` after it was updated with the value
    /// `new`: the value that was current is at the end of the history, which
    /// has dropped its oldest entry if it would otherwise be longer than its
    /// limit. A negative limit never drops anything.
    pub open spec fn is_updated(self, before: FreqState, new: mHz) -> bool {
        &&& self.now == new
        &&& self.history_len == before.history_len
        &&& before.history_len >= 0 ==> self.history@ == pushed_bounded(
            before.history@,
            before.now,
            before.history_len as int,
        )
        &&& before.history_len < 0 ==> self.history@ == before.history@.push(before.now)
    }

    /// Calculate the impact of the power mismatch. Gives back the new value.
    pub fn power_mismatch(&self, power_total: &Watt, power_error: &Watt, bulk_consumption: &Watt) -> (new: mHz)
        ensures
            new == self.spec_power_mismatch(*power_total, *power_error, *bulk_consumption),
    {
        let shift: i32 = shift_for_mismatch(
            self.now.0,
            power_error.0,
            power_total.0 as i128 + bulk_consumption.0 as i128,
        );
        let moved: i64 = self.now.0 as i64 + shift as i64;
        if moved > i32::MAX as i64 {
            mHz(i32::MAX)
        } else if moved < i32::MIN as i64 {
            mHz(i32::MIN)
        } else {
            mHz(moved as i32)
        }
    }
}

/// Computes `mismatch_shift` on machine integers.
pub fn shift_for_mismatch(now: i32, power_error: i64, power_base: i128) -> (shift: i32)
    requires
        -0x1_0000_0000_0000_0000 <= power_base <= 0x1_0000_0000_0000_0000,
    ensures
        shift == mismatch_shift(now as int, power_error as int, power_base as int),
{
    assert(-0x8000_0000 * 0x8000_0000_0000_0000 <= now * power_error <= 0x8000_0000
        * 0x8000_0000_0000_0000) by (nonlinear_arith)
        requires
            -0x8000_0000 <= now <= 0x8000_0000,
            -0x8000_0000_0000_0000 <= power_error <= 0x8000_0000_0000_0000,
    ;
    let weighted: i128 = (now as i128) * (power_error as i128);
    if power_base == 0 {
        if weighted == 0 {
            0
        } else if weighted > 0 {
            i32::MAX
        } else {
            i32::MIN
        }
    } else {
        let dividend: i128 = if weighted < 0 {
            -weighted
        } else {
            weighted
        };
        let divisor: i128 = if power_base < 0 {
            -power_base
        } else {
            power_base
        };
        let q: i128 = dividend / divisor;
        assert(0 <= q <= dividend) by (nonlinear_arith)
            requires
                q == dividend / divisor,
                dividend >= 0,
                divisor > 0,
        ;
        let signed: i128 = if (weighted < 0) != (power_base < 0) {
            -q
        } else {
            q
        };
        if signed > i32::MAX as i128 {
            i32::MAX
        } else if signed < i32::MIN as i128 {
            i32::MIN
        } else {
            signed as i32
        }
    }
}

impl GridState<mHz> for FreqState {
    open spec fn spec_now(&self) -> mHz {
        self.now
    }

    open spec fn spec_history(&self) -> Seq<mHz> {
        self.history@
    }

    open spec fn spec_history_len(&self) -> BaseInt {
        self.history_len
    }

    open spec fn nominal() -> mHz {
        mHz(NOMINAL_FREQUENCY)
    }

    /// Create the state of a grid in balance, with no history.
    fn new(_grid_param: &Grid) -> (state: Self)
        ensures
            state.now == mHz(NOMINAL_FREQUENCY),
            state.history@ == Seq::<mHz>::empty(),
            state.history_len == STATE_HISTORY_LEN,
    {
        Self { now: mHz(NOMINAL_FREQUENCY), history: Vec::new(), history_len: STATE_HISTORY_LEN }
    }

    /// Update the state with its new value. The value that was current goes to
    /// the end of the history, which drops its oldest entry when it has grown
    /// beyond its limit.
    fn update(&mut self, new: mHz)
        ensures
            final(self).is_updated(*old(self), new),
    {
        self.history.push(self.now);
        self.now = new;

        if self.history_len >= 0 && self.history.len() > self.history_len as usize {
            self.history.remove(0);
        }
    }
}

impl Clone for FreqState {
    fn clone(&self) -> (fs: Self)
        ensures
            fs.now == self.now,
            fs.history@ == self.history@,
            fs.history_len == self.history_len,
    {
        let fs = Self {
            now: self.now,
            history: self.history.clone(),
            history_len: self.history_len,
        };
        proof {
            assert(fs.history@ =~= self.history@);
        }
        fs
    }
}

impl Default for FreqState {
    fn default() -> (fs: Self)
        ensures
            fs.now == mHz(0),
            fs.history@ == Seq::<mHz>::empty(),
            fs.history_len == 0,
    {
        Self { now: mHz(0), history: Vec::new(), history_len: 0 }
    }
}

} // verus!
