//! The coarse state a monitored quantity can be in.
use vstd::prelude::*;

verus! {

/// Where a monitored quantity stands relative to its normal band.
#[allow(missing_docs)]
#[derive(PartialOrd, Ord, PartialEq, Eq, Structural, Clone, Copy, Debug, Hash)]
pub enum GridBoundaryState {
    TooLow,
    Low,
    Normal,
    High,
    TooHigh,
}

impl GridBoundaryState {
    /// Whether the state is one of the two that mean a tolerated duration was
    /// exceeded.
    pub open spec fn spec_is_critical(self) -> bool {
        self == GridBoundaryState::TooLow || self == GridBoundaryState::TooHigh
    }

    /// Whether the state is one of the two that mean a tolerated duration was
    /// exceeded.
    #[verifier::when_used_as_spec(spec_is_critical)]
    pub fn is_critical(self) -> (b: bool)
        ensures
            b == self.spec_is_critical(),
    {
        match self {
            GridBoundaryState::TooLow | GridBoundaryState::TooHigh => true,
            _ => false,
        }
    }
}

impl Default for GridBoundaryState {
    fn default() -> (s: Self)
        ensures
            s == GridBoundaryState::Normal,
    {
        GridBoundaryState::Normal
    }
}

} // verus!
