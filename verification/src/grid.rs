//! Everything that describes the electrical side of the grid: power figures,
//! frequency and voltage, their allowed bands, and the reserve that absorbs
//! mismatch.
use crate::util::{mHz, mVolt, Watt};
use vstd::prelude::*;

mod boundary;
mod gridstate;
mod gridwarning;
mod powergeneration;
mod reservepower;
mod states;

pub use boundary::{
    any_exceeded, bands_after, bands_at_rest, bands_cleared, bands_state, deviation_of,
    lemma_after_keeps_wf, lemma_reentry_resets_every_band, Boundaries, BoundariesView,
    BoundaryAgentTrait, BoundaryBand, BoundaryUnitTrait, Deviation, NormalBand,
};
pub use gridstate::GridBoundaryState;
pub use gridwarning::GridWarning;
pub use powergeneration::{
    check_profile, generated_at, profile_is_valid, PowerGeneration, ProfilePoint,
};
pub use reservepower::{
    larger, lemma_compensation_is_bounded, lemma_usage_stays_within_limits, magnitude,
    ReservePower,
};
pub use states::{
    clamped_to_i32, count_state, count_states, lemma_count_state_partition,
    figures_of, lemma_sum_totals_order_independent, lemma_total_of_concat,
    lemma_total_of_order_independent, lemma_total_of_remove, total_of,
    lemma_transition_is_monotone, mismatch_shift, pushed_bounded, quotient_toward_zero,
    shift_for_mismatch, sum_fits, sum_totals, FreqState, GridState, InfectionCount, InfectionState,
    InfectionStatistics, PowerState, PowerTotals, VoltState, HISTORY_LEN, NOMINAL_FREQUENCY,
    NOMINAL_VOLTAGE, STATE_HISTORY_LEN,
};

verus! {

/// The parameters of the grid that the simulation core works with.
#[derive(Debug)]
pub struct Grid {
    /// Energy regulating room in W
    pub energy_storage: Watt,
    /// Max energy generation in W per time tick
    pub max_gen_inc_tick: Watt,
    /// Bulk consumption, i.e. factories
    pub bulk_consumption: Watt,
    /// The bands within which the voltage at a netstation has to stay.
    pub volt_boundary: Boundaries<mVolt>,
    /// The bands within which the frequency of the grid has to stay.
    pub freq_boundary: Boundaries<mHz>,
}

impl Grid {
    /// Creates a test version to be used for testing: a storage of 10 kW that
    /// moves by 100 W per tick, a bulk consumption of 10 kW, and monitors
    /// without bands.
    pub fn _test() -> (grid: Self)
        ensures
            grid.energy_storage == Watt(10_000),
            grid.max_gen_inc_tick == Watt(100),
            grid.bulk_consumption == Watt(10_000),
            grid.volt_boundary.state == GridBoundaryState::Normal,
            grid.volt_boundary.lowerbands@.len() == 0,
            grid.volt_boundary.upperbands@.len() == 0,
            grid.freq_boundary.state == GridBoundaryState::Normal,
            grid.freq_boundary.lowerbands@.len() == 0,
            grid.freq_boundary.upperbands@.len() == 0,
    {
        Self {
            energy_storage: Watt(10_000),
            max_gen_inc_tick: Watt(100),
            bulk_consumption: Watt(10_000),
            volt_boundary: Boundaries::<mVolt>::empty(),
            freq_boundary: Boundaries::<mHz>::empty(),
        }
    }
}

} // verus!
