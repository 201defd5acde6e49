//! The hysteresis monitor that watches a quantity against its normal band and
//! the deviation bands around it.
use crate::agent::{AgentList, AgentRef, Household};
use crate::grid::gridstate::GridBoundaryState;
use crate::grid::gridwarning::GridWarning;
use crate::grid::Grid;
use crate::util::{mHz, mVolt, BaseInt, Steps, StructTraitBound};
use core::cmp::Ordering;
use vstd::prelude::*;
use vstd::std_specs::convert::FromSpecImpl;

mod band;
mod normal;

pub use band::{deviation_of, BoundaryBand, Deviation};
pub use normal::NormalBand;

verus! {

/// A unit that a boundary monitor can watch: it has a magnitude that orders
/// its values.
pub trait BoundaryUnitTrait: StructTraitBound + Sized {
    /// The magnitude of the value, in thousandths of the base unit.
    spec fn spec_value(self) -> int;

    /// The magnitude of the value, in thousandths of the base unit.
    fn value(&self) -> (v: BaseInt)
        ensures
            v == self.spec_value(),
    ;
}

impl BoundaryUnitTrait for mHz {
    open spec fn spec_value(self) -> int {
        self.0 as int
    }

    fn value(&self) -> (v: BaseInt) {
        self.0
    }
}

impl BoundaryUnitTrait for mVolt {
    open spec fn spec_value(self) -> int {
        self.0 as int
    }

    fn value(&self) -> (v: BaseInt) {
        self.0
    }
}

/// A helper trait for the agents that watch a boundary.
pub trait BoundaryAgentTrait<T: BoundaryUnitTrait> {
    /// Check the boundary and get a warning/error if needed. An agent that
    /// tells about its children in the warning finds them through the table in
    /// the list of households.
    fn boundary_check(&mut self, agents: &AgentList, households: &Vec<Household>) -> Option<
        GridWarning,
    >
        requires
            old(self).can_check(agents@, households@),
    ;

    /// Whether the agent finds in the table and the list of households what it
    /// needs for its check.
    spec fn can_check(&self, agents: Seq<AgentRef>, households: Seq<Household>) -> bool;
}

/// The boundaries that are set for a unit: the normal band and, on either side
/// of it, the bands that limit for how long a deviation is tolerated.
#[derive(Debug)]
pub struct Boundaries<T: BoundaryUnitTrait> {
    /// Current state of the grid
    pub state: GridBoundaryState,
    /// Normal value
    pub normalband: NormalBand<T>,
    /// The bands under the normal band.
    pub lowerbands: Vec<BoundaryBand<T>>,
    /// The bands over the normal band.
    pub upperbands: Vec<BoundaryBand<T>>,
}

/// What a boundary monitor holds, with its band lists as sequences.
pub struct BoundariesView<T: BoundaryUnitTrait> {
    /// Current state of the grid
    pub state: GridBoundaryState,
    /// Normal value
    pub normalband: NormalBand<T>,
    /// The bands under the normal band.
    pub lowerbands: Seq<BoundaryBand<T>>,
    /// The bands over the normal band.
    pub upperbands: Seq<BoundaryBand<T>>,
}

/// Every band after one step with the given value on the given side.
pub open spec fn bands_after<T: BoundaryUnitTrait>(
    bands: Seq<BoundaryBand<T>>,
    current: T,
    side: Deviation,
) -> Seq<BoundaryBand<T>> {
    Seq::new(bands.len(), |i: int| bands[i].after(current, side))
}

/// Every band with its counter back at zero.
pub open spec fn bands_cleared<T: BoundaryUnitTrait>(bands: Seq<BoundaryBand<T>>) -> Seq<
    BoundaryBand<T>,
> {
    Seq::new(bands.len(), |i: int| bands[i].cleared())
}

/// The counter of every band is at zero.
pub open spec fn bands_at_rest<T: BoundaryUnitTrait>(bands: Seq<BoundaryBand<T>>) -> bool {
    forall|i: int| 0 <= i < bands.len() ==> (#[trigger] bands[i]).time_passed == Steps(0)
}

/// At least one band has spent more time past its border than allowed.
pub open spec fn any_exceeded<T: BoundaryUnitTrait>(bands: Seq<BoundaryBand<T>>) -> bool {
    exists|i: int| 0 <= i < bands.len() && (#[trigger] bands[i]).exceeded()
}

/// The state that a list of bands reports together on the given side, after
/// they have taken their step: critical if any band is exceeded, a warning
/// otherwise, nothing where there is no band at all.
pub open spec fn bands_state<T: BoundaryUnitTrait>(
    bands: Seq<BoundaryBand<T>>,
    side: Deviation,
) -> Option<GridBoundaryState> {
    if bands.len() == 0 {
        None
    } else if any_exceeded(bands) {
        Some(
            if side == Deviation::Below {
                GridBoundaryState::TooLow
            } else {
                GridBoundaryState::TooHigh
            },
        )
    } else {
        Some(
            if side == Deviation::Below {
                GridBoundaryState::Low
            } else {
                GridBoundaryState::High
            },
        )
    }
}

impl<T: BoundaryUnitTrait> BoundariesView<T> {
    /// While the state is normal no band has counted anything.
    pub open spec fn wf(self) -> bool {
        self.state == GridBoundaryState::Normal ==> bands_at_rest(self.lowerbands) && bands_at_rest(
            self.upperbands,
        )
    }

    /// The state that the monitor is in after it has seen the given value.
    pub open spec fn state_after(self, current: T) -> GridBoundaryState {
        if self.normalband.below(current) {
            match bands_state(bands_after(self.lowerbands, current, Deviation::Below), Deviation::Below) {
                Some(state) => state,
                None => self.state,
            }
        } else if self.normalband.above(current) {
            match bands_state(bands_after(self.upperbands, current, Deviation::Above), Deviation::Above) {
                Some(state) => state,
                None => self.state,
            }
        } else {
            GridBoundaryState::Normal
        }
    }

    /// The monitor after it has seen the given value.
    ///
    /// A value under the normal band lets every lower band take a step, a
    /// value over it every upper band. A value inside the normal band brings
    /// the state back to normal and, if it was not normal before, every counter
    /// back to zero.
    pub open spec fn after(self, current: T) -> BoundariesView<T> {
        if self.normalband.below(current) {
            BoundariesView {
                state: self.state_after(current),
                normalband: self.normalband,
                lowerbands: bands_after(self.lowerbands, current, Deviation::Below),
                upperbands: self.upperbands,
            }
        } else if self.normalband.above(current) {
            BoundariesView {
                state: self.state_after(current),
                normalband: self.normalband,
                lowerbands: self.lowerbands,
                upperbands: bands_after(self.upperbands, current, Deviation::Above),
            }
        } else if self.state == GridBoundaryState::Normal {
            self
        } else {
            BoundariesView {
                state: GridBoundaryState::Normal,
                normalband: self.normalband,
                lowerbands: bands_cleared(self.lowerbands),
                upperbands: bands_cleared(self.upperbands),
            }
        }
    }

    /// The state for which the monitor raises a warning when it sees the given
    /// value: the state it changes to, if that is not the normal one. A monitor
    /// that stays in its state raises nothing.
    pub open spec fn warned_state(self, current: T) -> Option<GridBoundaryState> {
        let next = self.state_after(current);
        if next != self.state && next != GridBoundaryState::Normal {
            Some(next)
        } else {
            None
        }
    }

    /// The monitor after it has seen the given values one after the other.
    pub open spec fn after_all(self, readings: Seq<T>) -> BoundariesView<T>
        decreases readings.len(),
    {
        if readings.len() == 0 {
            self
        } else {
            self.after_all(readings.drop_last()).after(readings.last())
        }
    }
}

impl<T: BoundaryUnitTrait> View for Boundaries<T> {
    type V = BoundariesView<T>;

    open spec fn view(&self) -> BoundariesView<T> {
        BoundariesView {
            state: self.state,
            normalband: self.normalband,
            lowerbands: self.lowerbands@,
            upperbands: self.upperbands@,
        }
    }
}

impl<T: BoundaryUnitTrait> Clone for Boundaries<T> {
    fn clone(&self) -> (monitor: Self)
        ensures
            monitor@ == self@,
    {
        let mut lowerbands: Vec<BoundaryBand<T>> = Vec::new();
        let mut i: usize = 0;
        while i < self.lowerbands.len()
            invariant
                i <= self.lowerbands.len(),
                lowerbands@ == self.lowerbands@.take(i as int),
            decreases self.lowerbands.len() - i,
        {
            lowerbands.push(self.lowerbands[i]);
            proof {
                assert(lowerbands@ =~= self.lowerbands@.take(i + 1));
            }
            i = i + 1;
        }
        let mut upperbands: Vec<BoundaryBand<T>> = Vec::new();
        let mut k: usize = 0;
        while k < self.upperbands.len()
            invariant
                k <= self.upperbands.len(),
                upperbands@ == self.upperbands@.take(k as int),
                lowerbands@ == self.lowerbands@.take(self.lowerbands.len() as int),
            decreases self.upperbands.len() - k,
        {
            upperbands.push(self.upperbands[k]);
            proof {
                assert(upperbands@ =~= self.upperbands@.take(k + 1));
            }
            k = k + 1;
        }
        proof {
            assert(self.lowerbands@.take(self.lowerbands.len() as int) =~= self.lowerbands@);
            assert(self.upperbands@.take(self.upperbands.len() as int) =~= self.upperbands@);
        }
        Boundaries { state: self.state, normalband: self.normalband, lowerbands, upperbands }
    }
}

impl Boundaries<mHz> {
    /// A monitor in the normal state without any bands, whose normal band is
    /// the single value zero.
    pub fn empty() -> (monitor: Self)
        ensures
            monitor.state == GridBoundaryState::Normal,
            monitor.normalband == (NormalBand { lower: mHz(0), higher: mHz(0) }),
            monitor.lowerbands@ == Seq::<BoundaryBand<mHz>>::empty(),
            monitor.upperbands@ == Seq::<BoundaryBand<mHz>>::empty(),
            monitor@.wf(),
    {
        Boundaries {
            state: GridBoundaryState::Normal,
            normalband: NormalBand { lower: mHz(0), higher: mHz(0) },
            lowerbands: Vec::new(),
            upperbands: Vec::new(),
        }
    }
}

impl Boundaries<mVolt> {
    /// A monitor in the normal state without any bands, whose normal band is
    /// the single value zero.
    pub fn empty() -> (monitor: Self)
        ensures
            monitor.state == GridBoundaryState::Normal,
            monitor.normalband == (NormalBand { lower: mVolt(0), higher: mVolt(0) }),
            monitor.lowerbands@ == Seq::<BoundaryBand<mVolt>>::empty(),
            monitor.upperbands@ == Seq::<BoundaryBand<mVolt>>::empty(),
            monitor@.wf(),
    {
        Boundaries {
            state: GridBoundaryState::Normal,
            normalband: NormalBand { lower: mVolt(0), higher: mVolt(0) },
            lowerbands: Vec::new(),
            upperbands: Vec::new(),
        }
    }
}

impl From<&Grid> for Boundaries<mHz> {
    /// The frequency monitor that the grid parameters describe.
    fn from(value: &Grid) -> (monitor: Self)
        ensures
            monitor@ == value.freq_boundary@,
    {
        value.freq_boundary.clone()
    }
}

impl FromSpecImpl<&Grid> for Boundaries<mHz> {
    /// Left open: the monitor is a copy, which the contract of `from`
    /// describes by its contents.
    open spec fn obeys_from_spec() -> bool {
        false
    }

    open spec fn from_spec(value: &Grid) -> Self {
        value.freq_boundary
    }
}

impl From<&Grid> for Boundaries<mVolt> {
    /// The voltage monitor that the grid parameters describe.
    fn from(value: &Grid) -> (monitor: Self)
        ensures
            monitor@ == value.volt_boundary@,
    {
        value.volt_boundary.clone()
    }
}

impl FromSpecImpl<&Grid> for Boundaries<mVolt> {
    /// Left open: the monitor is a copy, which the contract of `from`
    /// describes by its contents.
    open spec fn obeys_from_spec() -> bool {
        false
    }

    open spec fn from_spec(value: &Grid) -> Self {
        value.volt_boundary
    }
}

impl Default for Boundaries<mHz> {
    fn default() -> (monitor: Self)
        ensures
            monitor.state == GridBoundaryState::Normal,
            monitor.normalband == (NormalBand { lower: mHz(0), higher: mHz(0) }),
            monitor.lowerbands@ == Seq::<BoundaryBand<mHz>>::empty(),
            monitor.upperbands@ == Seq::<BoundaryBand<mHz>>::empty(),
    {
        Boundaries::<mHz>::empty()
    }
}

impl Default for Boundaries<mVolt> {
    fn default() -> (monitor: Self)
        ensures
            monitor.state == GridBoundaryState::Normal,
            monitor.normalband == (NormalBand { lower: mVolt(0), higher: mVolt(0) }),
            monitor.lowerbands@ == Seq::<BoundaryBand<mVolt>>::empty(),
            monitor.upperbands@ == Seq::<BoundaryBand<mVolt>>::empty(),
    {
        Boundaries::<mVolt>::empty()
    }
}

/// Seeing a value keeps a well-formed monitor well-formed.
pub proof fn lemma_after_keeps_wf<T: BoundaryUnitTrait>(monitor: BoundariesView<T>, current: T)
    requires
        monitor.wf(),
    ensures
        monitor.after(current).wf(),
{
}

/// Whatever values a well-formed monitor has seen, and however long they
/// stayed outside the normal band, the first value inside the normal band
/// brings the counter of every band back to exactly zero.
pub proof fn lemma_reentry_resets_every_band<T: BoundaryUnitTrait>(
    monitor: BoundariesView<T>,
    readings: Seq<T>,
    current: T,
)
    requires
        monitor.wf(),
        monitor.normalband.within(current),
    ensures
        monitor.after_all(readings).wf(),
        monitor.after_all(readings).normalband == monitor.normalband,
        monitor.after_all(readings).after(current).state == GridBoundaryState::Normal,
        bands_at_rest(monitor.after_all(readings).after(current).lowerbands),
        bands_at_rest(monitor.after_all(readings).after(current).upperbands),
    decreases readings.len(),
{
    if readings.len() > 0 {
        lemma_reentry_resets_every_band(monitor, readings.drop_last(), current);
        lemma_after_keeps_wf(monitor.after_all(readings.drop_last()), readings.last());
    }
}

impl<T: BoundaryUnitTrait> Boundaries<T> {
    /// Update the boundary with the current value and check all the relevant
    /// restrictions to see if the grid is outside its parameters. A warning is
    /// given when the state changes to one that is not normal.
    pub fn update(&mut self, current: T) -> (warning: Option<GridWarning>)
        ensures
            final(self)@ == old(self)@.after(current),
            match old(self)@.warned_state(current) {
                Some(state) => warning is Some && warning->0.is_bare(state),
                None => warning is None,
            },
            old(self)@.wf() ==> final(self)@.wf(),
    {
        let update_cmp = self.normalband.compare(current);
        match update_cmp {
            Ordering::Less => self.check_lowerbands(current),
            Ordering::Equal => {
                self.check_normalband();
                None
            },
            Ordering::Greater => self.check_upperbands(current),
        }
    }

    /// Back to normal: if the state was not normal, it becomes so, and every
    /// band forgets the time it counted.
    pub fn check_normalband(&mut self)
        ensures
            final(self).normalband == old(self).normalband,
            old(self).state == GridBoundaryState::Normal ==> final(self)@ == old(self)@,
            old(self).state != GridBoundaryState::Normal ==> {
                &&& final(self).state == GridBoundaryState::Normal
                &&& final(self).lowerbands@ == bands_cleared(old(self).lowerbands@)
                &&& final(self).upperbands@ == bands_cleared(old(self).upperbands@)
            },
    {
        if self.state == GridBoundaryState::Normal {
        } else {
            self.change_state(GridBoundaryState::Normal);
            self.reset_bands();
        }
    }

    /// Lets every upper band take a step with the current value and moves to
    /// the state that they report together.
    pub fn check_upperbands(&mut self, current: T) -> (warning: Option<GridWarning>)
        ensures
            final(self).normalband == old(self).normalband,
            final(self).lowerbands@ == old(self).lowerbands@,
            final(self).upperbands@ == bands_after(old(self).upperbands@, current, Deviation::Above),
            final(self).state == match bands_state(final(self).upperbands@, Deviation::Above) {
                Some(state) => state,
                None => old(self).state,
            },
            final(self).state != old(self).state ==> warning is Some && warning->0.is_bare(
                final(self).state,
            ),
            final(self).state == old(self).state ==> warning is None,
    {
        let exceeded = advance_bands(&mut self.upperbands, current, Deviation::Above);
        if self.upperbands.len() == 0 {
            None
        } else if exceeded {
            self.change_state(GridBoundaryState::TooHigh)
        } else {
            self.change_state(GridBoundaryState::High)
        }
    }

    /// Lets every lower band take a step with the current value and moves to
    /// the state that they report together.
    pub fn check_lowerbands(&mut self, current: T) -> (warning: Option<GridWarning>)
        ensures
            final(self).normalband == old(self).normalband,
            final(self).upperbands@ == old(self).upperbands@,
            final(self).lowerbands@ == bands_after(old(self).lowerbands@, current, Deviation::Below),
            final(self).state == match bands_state(final(self).lowerbands@, Deviation::Below) {
                Some(state) => state,
                None => old(self).state,
            },
            final(self).state != old(self).state ==> warning is Some && warning->0.is_bare(
                final(self).state,
            ),
            final(self).state == old(self).state ==> warning is None,
    {
        let exceeded = advance_bands(&mut self.lowerbands, current, Deviation::Below);
        if self.lowerbands.len() == 0 {
            None
        } else if exceeded {
            self.change_state(GridBoundaryState::TooLow)
        } else {
            self.change_state(GridBoundaryState::Low)
        }
    }

    /// Moves to the given state. A warning is given only if this is a change,
    /// and not a change to the normal state.
    pub fn change_state(&mut self, state: GridBoundaryState) -> (warning: Option<GridWarning>)
        ensures
            final(self).state == state,
            final(self).normalband == old(self).normalband,
            final(self).lowerbands@ == old(self).lowerbands@,
            final(self).upperbands@ == old(self).upperbands@,
            old(self).state != state && state != GridBoundaryState::Normal ==> warning is Some
                && warning->0.is_bare(state),
            old(self).state == state || state == GridBoundaryState::Normal ==> warning is None,
    {
        if self.state != state {
            self.state = state;
            match state {
                GridBoundaryState::Normal => None,
                _ => Some(GridWarning::bare(state)),
            }
        } else {
            None
        }
    }

    /// Brings the counter of every band back to zero.
    pub fn reset_bands(&mut self)
        ensures
            final(self).state == old(self).state,
            final(self).normalband == old(self).normalband,
            final(self).lowerbands@ == bands_cleared(old(self).lowerbands@),
            final(self).upperbands@ == bands_cleared(old(self).upperbands@),
    {
        clear_bands(&mut self.lowerbands);
        clear_bands(&mut self.upperbands);
    }
}

/// Lets every band of the list take a step with the current value on the given
/// side, and tells whether any of them is exceeded afterwards.
fn advance_bands<T: BoundaryUnitTrait>(
    bands: &mut Vec<BoundaryBand<T>>,
    current: T,
    side: Deviation,
) -> (exceeded: bool)
    ensures
        final(bands)@ == bands_after(old(bands)@, current, side),
        exceeded == any_exceeded(final(bands)@),
{
    let mut exceeded = false;
    let mut i: usize = 0;
    while i < bands.len()
        invariant
            i <= bands.len(),
            bands.len() == old(bands).len(),
            forall|j: int| 0 <= j < i ==> bands@[j] == old(bands)@[j].after(current, side),
            forall|j: int| i <= j < bands.len() ==> bands@[j] == old(bands)@[j],
            exceeded == (exists|j: int| 0 <= j < i && (#[trigger] bands@[j]).exceeded()),
        decreases bands.len() - i,
    {
        let ghost before = bands@;
        let mut band = bands[i];
        let state = band.advance(current, side);
        bands.set(i, band);
        proof {
            assert(forall|j: int| 0 <= j < i ==> bands@[j] == before[j]);
            if exceeded {
                let j = choose|j: int| 0 <= j < i && (#[trigger] before[j]).exceeded();
                assert(bands@[j].exceeded());
            }
            if state.spec_is_critical() {
                assert(bands@[i as int].exceeded());
            }
        }
        exceeded = exceeded || state.is_critical();
        i = i + 1;
    }
    proof {
        assert(bands@ =~= bands_after(old(bands)@, current, side));
    }
    exceeded
}

/// Brings the counter of every band of the list back to zero.
fn clear_bands<T: BoundaryUnitTrait>(bands: &mut Vec<BoundaryBand<T>>)
    ensures
        final(bands)@ == bands_cleared(old(bands)@),
{
    let mut i: usize = 0;
    while i < bands.len()
        invariant
            i <= bands.len(),
            bands.len() == old(bands).len(),
            forall|j: int| 0 <= j < i ==> bands@[j] == old(bands)@[j].cleared(),
            forall|j: int| i <= j < bands.len() ==> bands@[j] == old(bands)@[j],
        decreases bands.len() - i,
    {
        let mut band = bands[i];
        band.time_passed = Steps(0);
        bands.set(i, band);
        i = i + 1;
    }
    proof {
        assert(bands@ =~= bands_cleared(old(bands)@));
    }
}

} // verus!
