//! The parameters that the simulation core is run with.
use crate::attack::Attack;
use crate::grid::Grid;
use crate::util::{Steps, Watt};
use vstd::prelude::*;
use vstd::string::StringExecFns;

verus! {

/// Struct that defines the model parameters
#[derive(Debug)]
pub struct ModelParameters {
    /// Naming for the model. Used for logs etc.
    pub name: String,
    /// Number of steps in the Model
    pub steps: Steps,
    /// Enable the output of the node states per step.
    pub enable_output: bool,
    /// The attack struct of this model.
    pub attack: Attack,
    /// The grid struct of this model.
    pub grid: Grid,
    /// Stop running the model when there is a critical grid frequency error.
    pub stop_on_freq_error: bool,
}

impl ModelParameters {
    /// Creates a test version to be used for testing: a year of steps, the test
    /// versions of the attack and the grid, no output, and no stop on frequency
    /// errors.
    pub fn test() -> (param: Self)
        ensures
            param.name@ == "Test"@,
            param.steps == Steps(35_040),
            !param.enable_output,
            !param.stop_on_freq_error,
            param.grid.energy_storage == Watt(10_000),
            param.grid.max_gen_inc_tick == Watt(100),
            param.grid.bulk_consumption == Watt(10_000),
            param.attack.attack_behaviour@.len() == 1,
            param.attack.current_attack is None,
    {
        Self {
            name: String::from_str("Test"),
            steps: Steps(96 * 365),
            enable_output: false,
            attack: Attack::test(),
            grid: Grid::_test(),
            stop_on_freq_error: false,
        }
    }
}

} // verus!
