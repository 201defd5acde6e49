//! The voltage at a netstation.
use crate::grid::states::frequency::STATE_HISTORY_LEN;
use crate::grid::states::power::pushed_bounded;
use crate::grid::states::GridState;
use crate::grid::Grid;
use crate::util::{mVolt, BaseInt};
use vstd::prelude::*;

verus! {

/// The voltage that a netstation in balance hands to its households, in
/// millivolts.
pub const NOMINAL_VOLTAGE: BaseInt = 230_000;

/// Voltage state of an agent. With voltage, these are the netstation agents as
/// they transform the voltage to the familiar 230V.
#[derive(Debug)]
pub struct VoltState {
    /// Current value
    pub now: mVolt,
    /// History of the values, oldest first.
    pub history: Vec<mVolt>,
    /// How much history is kept?
    pub history_len: BaseInt,
}

impl VoltState {
    /// Whether this state is `before` after it was updated with the value
    /// `new`: the value that was current is at the end of the history, which
    /// has dropped its oldest entry if it would otherwise be longer than its
    /// limit. A negative limit never drops anything.
    pub open spec fn is_updated(self, before: VoltState, new: mVolt) -> bool {
        &&& self.now == new
        &&& self.history_len == before.history_len
        &&& before.history_len >= 0 ==> self.history@ == pushed_bounded(
            before.history@,
            before.now,
            before.history_len as int,
        )
        &&& before.history_len < 0 ==> self.history@ == before.history@.push(before.now)
    }
}

impl GridState<mVolt> for VoltState {
    open spec fn spec_now(&self) -> mVolt {
        self.now
    }

    open spec fn spec_history(&self) -> Seq<mVolt> {
        self.history@
    }

    open spec fn spec_history_len(&self) -> BaseInt {
        self.history_len
    }

    open spec fn nominal() -> mVolt {
        mVolt(NOMINAL_VOLTAGE)
    }

    /// Create the state of a netstation in balance, with no history.
    fn new(_grid_param: &Grid) -> (state: Self)
        ensures
            state.now == mVolt(NOMINAL_VOLTAGE),
            state.history@ == Seq::<mVolt>::empty(),
            state.history_len == STATE_HISTORY_LEN,
    {
        Self { now: mVolt(NOMINAL_VOLTAGE), history: Vec::new(), history_len: STATE_HISTORY_LEN }
    }

    /// Update the state with its new value. The value that was current goes to
    /// the end of the history, which drops its oldest entry when it has grown
    /// beyond its limit.
    fn update(&mut self, new: mVolt)
        ensures
            final(self).is_updated(*old(self), new),
    {
        self.history.push(self.now);
        self.now = new;

        if self.history_len >= 0 && self.history.len() > self.history_len as usize {
            self.history.remove(0);
        }
    }
}

impl Clone for VoltState {
    fn clone(&self) -> (vs: Self)
        ensures
            vs.now == self.now,
            vs.history@ == self.history@,
            vs.history_len == self.history_len,
    {
        let vs = Self {
            now: self.now,
            history: self.history.clone(),
            history_len: self.history_len,
        };
        proof {
            assert(vs.history@ =~= self.history@);
        }
        vs
    }
}

impl Default for VoltState {
    fn default() -> (vs: Self)
        ensures
            vs.now == mVolt(0),
            vs.history@ == Seq::<mVolt>::empty(),
            vs.history_len == 0,
    {
        Self { now: mVolt(0), history: Vec::new(), history_len: 0 }
    }
}

} // verus!
