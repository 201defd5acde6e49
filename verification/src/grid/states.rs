//! The quantities that agents of the grid keep track of.
use crate::grid::boundary::BoundaryUnitTrait;
use crate::grid::Grid;
use crate::util::BaseInt;
use vstd::prelude::*;

mod frequency;
mod infectionstate;
mod power;
mod volt;

pub use frequency::{
    clamped_to_i32, mismatch_shift, quotient_toward_zero, shift_for_mismatch, FreqState,
    NOMINAL_FREQUENCY, STATE_HISTORY_LEN,
};
pub use infectionstate::{
    count_state, count_states, lemma_count_state_partition, lemma_transition_is_monotone,
    InfectionCount, InfectionState, InfectionStatistics,
};
pub use power::{
    figures_of, lemma_sum_totals_order_independent, lemma_total_of_concat,
    lemma_total_of_order_independent, lemma_total_of_remove, total_of,
    pushed_bounded, sum_fits, sum_totals, PowerState, PowerTotals, HISTORY_LEN,
};
pub use volt::{VoltState, NOMINAL_VOLTAGE};

verus! {

/// A trait to be implemented for the grid states: a current value of a unit
/// and a bounded history of past values.
pub trait GridState<T: BoundaryUnitTrait>: Sized {
    /// The current value.
    spec fn spec_now(&self) -> T;

    /// The past values, oldest first.
    spec fn spec_history(&self) -> Seq<T>;

    /// How many past values are kept.
    spec fn spec_history_len(&self) -> BaseInt;

    /// The value of a grid in balance.
    spec fn nominal() -> T;

    /// Create a new state: at the value of a grid in balance, with no history.
    fn new(grid_param: &Grid) -> (state: Self)
        ensures
            state.spec_now() == Self::nominal(),
            state.spec_history() == Seq::<T>::empty(),
            state.spec_history_len() == STATE_HISTORY_LEN,
    ;

    /// Update the state with its new value. The value that was current goes to
    /// the end of the history, which drops its oldest entry when it has grown
    /// beyond its limit. A negative limit never drops anything.
    fn update(&mut self, new: T)
        ensures
            final(self).spec_now() == new,
            final(self).spec_history_len() == old(self).spec_history_len(),
            old(self).spec_history_len() >= 0 ==> final(self).spec_history() == pushed_bounded(
                old(self).spec_history(),
                old(self).spec_now(),
                old(self).spec_history_len() as int,
            ),
            old(self).spec_history_len() < 0 ==> final(self).spec_history() == old(
                self,
            ).spec_history().push(old(self).spec_now()),
    ;
}

} // verus!
