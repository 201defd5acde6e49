//! The event that a boundary monitor raises when the grid leaves its normal
//! band.
use crate::grid::gridstate::GridBoundaryState;
use crate::grid::states::{FreqState, InfectionStatistics, PowerState, VoltState};
use crate::util::BaseUint;
use vstd::prelude::*;

verus! {

/// The warning returned if the grid is outside normal parameters.
#[derive(Debug)]
pub struct GridWarning {
    /// The state the grid is in.
    pub state: GridBoundaryState,
    /// Has the restriction overstepped its maximum allowed time to pass its
    /// boundary?
    pub critical: bool,
    /// Index of the agent that created the warning.
    pub agent_index: Option<BaseUint>,
    /// The powerstate of the agent.
    pub agent_powerstate: Option<PowerState>,
    /// The frequency state of the agent.
    pub freq_state: Option<FreqState>,
    /// The voltage state of the agent.
    pub volt_state: Option<VoltState>,
    /// Infection statistics of the households below the agent.
    pub infectionstatistics: Option<InfectionStatistics>,
}

impl GridWarning {
    /// Whether this is the bare warning for the given state, as a monitor
    /// raises it: critical exactly for the two outermost states, and without
    /// anything about the agent.
    pub open spec fn is_bare(self, state: GridBoundaryState) -> bool {
        &&& self.state == state
        &&& self.critical == state.spec_is_critical()
        &&& self.agent_index is None
        &&& self.agent_powerstate is None
        &&& self.freq_state is None
        &&& self.volt_state is None
        &&& self.infectionstatistics is None
    }

    /// The bare warning for the given state.
    pub fn bare(state: GridBoundaryState) -> (warning: GridWarning)
        ensures
            warning.is_bare(state),
    {
        GridWarning {
            state,
            critical: state.is_critical(),
            agent_index: None,
            agent_powerstate: None,
            freq_state: None,
            volt_state: None,
            infectionstatistics: None,
        }
    }
}

} // verus!
