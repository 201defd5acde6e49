//! The power figures of one agent and how they add up.
use crate::util::{BaseUint, Watt};
use core::ops::Add;
use vstd::prelude::*;
use vstd::std_specs::cmp::PartialEqSpecImpl;
use vstd::std_specs::ops::AddSpecImpl;

verus! {

/// Number of past values that a fresh history keeps.
pub const HISTORY_LEN: BaseUint = 10;

/// The four power figures of an agent as unbounded integers.
pub struct PowerTotals {
    /// Power that is generated.
    pub generated: int,
    /// Power that is drawn.
    pub used: int,
    /// Power that is reported to be drawn.
    pub reported: int,
    /// Difference between what is reported and what is measured.
    pub error: int,
}

impl PowerTotals {
    /// All four figures at zero.
    pub open spec fn zero() -> PowerTotals {
        PowerTotals { generated: 0, used: 0, reported: 0, error: 0 }
    }

    /// Figure by figure sum.
    pub open spec fn plus(self, other: PowerTotals) -> PowerTotals {
        PowerTotals {
            generated: self.generated + other.generated,
            used: self.used + other.used,
            reported: self.reported + other.reported,
            error: self.error + other.error,
        }
    }

    /// Whether each figure can be held in a `Watt`.
    pub open spec fn fits(self) -> bool {
        &&& i64::MIN <= self.generated <= i64::MAX
        &&& i64::MIN <= self.used <= i64::MAX
        &&& i64::MIN <= self.reported <= i64::MAX
        &&& i64::MIN <= self.error <= i64::MAX
    }
}

/// The power state of an agent: its current figures and a bounded record of
/// past ones.
#[derive(Debug)]
pub struct PowerState {
    /// Power that is generated.
    pub power_generated: Watt,
    /// Current amount of power measured. Positive indicates a draw by the
    /// children.
    pub power_used: Watt,
    /// Current amount of power being reported to be used. Positive indicates
    /// a draw by the children.
    pub power_reported: Watt,
    /// Current error between power used and power reported.
    pub power_error: Watt,
    /// Past values of `power_used`, oldest first.
    pub history_power_used: Vec<Watt>,
    /// Past values of `power_generated`, oldest first.
    pub history_power_generated: Vec<Watt>,
    /// Past values of `power_reported`, oldest first.
    pub history_power_reported: Vec<Watt>,
    /// Past values of `power_error`, oldest first.
    pub history_power_error: Vec<Watt>,
    /// Number of past values that are kept.
    pub history_len: BaseUint,
}

/// What a bounded record holds after `value` was appended: the record with the
/// value at its end, without its oldest entry if it would otherwise be longer
/// than `limit`.
pub open spec fn pushed_bounded<T>(history: Seq<T>, value: T, limit: int) -> Seq<T> {
    if history.len() + 1 > limit {
        history.push(value).drop_first()
    } else {
        history.push(value)
    }
}

/// The figures of each state of the sequence.
pub open spec fn figures_of(states: Seq<PowerState>) -> Seq<PowerTotals> {
    Seq::new(states.len(), |i: int| states[i].totals())
}

/// Figure by figure sum of all entries of the sequence.
pub open spec fn total_of(figures: Seq<PowerTotals>) -> PowerTotals
    decreases figures.len(),
{
    if figures.len() == 0 {
        PowerTotals::zero()
    } else {
        total_of(figures.drop_last()).plus(figures.last())
    }
}

/// Sum of the figures of all states in the sequence.
pub open spec fn sum_totals(states: Seq<PowerState>) -> PowerTotals {
    total_of(figures_of(states))
}

/// Whether summing the states from the first to the last stays within the
/// range of `Watt` at every step.
pub open spec fn sum_fits(states: Seq<PowerState>) -> bool {
    forall|k: int|
        0 <= k <= states.len() ==> (#[trigger] total_of(figures_of(states).take(k))).fits()
}

/// Taking one entry out of a sequence lowers the sum by that entry.
pub proof fn lemma_total_of_remove(figures: Seq<PowerTotals>, i: int)
    requires
        0 <= i < figures.len(),
    ensures
        total_of(figures) == total_of(figures.remove(i)).plus(figures[i]),
    decreases figures.len(),
{
    if i == figures.len() - 1 {
        assert(figures.remove(i) =~= figures.drop_last());
    } else {
        lemma_total_of_remove(figures.drop_last(), i);
        assert(figures.remove(i).drop_last() =~= figures.drop_last().remove(i));
        assert(figures.remove(i).last() == figures.last());
    }
}

/// The sum over a sequence is the sum over its first part plus the sum over
/// the rest, wherever the sequence is cut.
pub proof fn lemma_total_of_concat(front: Seq<PowerTotals>, back: Seq<PowerTotals>)
    ensures
        total_of(front + back) == total_of(front).plus(total_of(back)),
    decreases back.len(),
{
    if back.len() == 0 {
        assert(front + back =~= front);
    } else {
        lemma_total_of_concat(front, back.drop_last());
        assert((front + back).drop_last() =~= front + back.drop_last());
        assert((front + back).last() == back.last());
    }
}

/// The sum over a collection of power figures does not depend on the order in
/// which they are visited: two sequences that hold the same entries, each as
/// often as the other, have the same sum.
pub proof fn lemma_total_of_order_independent(a: Seq<PowerTotals>, b: Seq<PowerTotals>)
    requires
        a.to_multiset() == b.to_multiset(),
    ensures
        total_of(a) == total_of(b),
    decreases a.len(),
{
    broadcast use vstd::seq_lib::group_to_multiset_ensures;

    assert(a.len() == b.len()) by {
        vstd::seq_lib::to_multiset_len(a);
        vstd::seq_lib::to_multiset_len(b);
    }
    if a.len() > 0 {
        let x = a.last();
        assert(a.contains(x));
        assert(b.to_multiset().count(x) > 0);
        assert(b.contains(x));
        let j = choose|j: int| 0 <= j < b.len() && b[j] == x;
        assert(a.drop_last() =~= a.remove(a.len() - 1));
        assert(a.drop_last().to_multiset() == a.to_multiset().remove(x));
        assert(b.remove(j).to_multiset() == b.to_multiset().remove(x));
        lemma_total_of_order_independent(a.drop_last(), b.remove(j));
        lemma_total_of_remove(b, j);
    }
}

/// The sum of the power states of a collection of agents does not depend on
/// the order in which the agents are visited.
pub proof fn lemma_sum_totals_order_independent(a: Seq<PowerState>, b: Seq<PowerState>)
    requires
        figures_of(a).to_multiset() == figures_of(b).to_multiset(),
    ensures
        sum_totals(a) == sum_totals(b),
{
    lemma_total_of_order_independent(figures_of(a), figures_of(b));
}

impl PowerState {
    /// The four current figures as unbounded integers.
    pub open spec fn totals(self) -> PowerTotals {
        PowerTotals {
            generated: self.power_generated.0 as int,
            used: self.power_used.0 as int,
            reported: self.power_reported.0 as int,
            error: self.power_error.0 as int,
        }
    }

    /// The four records have one length, which does not exceed the limit.
    pub open spec fn wf(self) -> bool {
        &&& self.history_power_used.len() == self.history_power_error.len()
        &&& self.history_power_generated.len() == self.history_power_error.len()
        &&& self.history_power_reported.len() == self.history_power_error.len()
        &&& self.history_power_error.len() <= self.history_len
    }

    /// Whether the state has the given figures, no history and the default
    /// history limit.
    pub open spec fn is_fresh(self, totals: PowerTotals) -> bool {
        &&& self.totals() == totals
        &&& self.history_power_used@ == Seq::<Watt>::empty()
        &&& self.history_power_generated@ == Seq::<Watt>::empty()
        &&& self.history_power_reported@ == Seq::<Watt>::empty()
        &&& self.history_power_error@ == Seq::<Watt>::empty()
        &&& self.history_len == HISTORY_LEN
    }

    /// Whether the two states have the same records and history limit.
    pub open spec fn same_history(self, other: PowerState) -> bool {
        &&& self.history_power_used@ == other.history_power_used@
        &&& self.history_power_generated@ == other.history_power_generated@
        &&& self.history_power_reported@ == other.history_power_reported@
        &&& self.history_power_error@ == other.history_power_error@
        &&& self.history_len == other.history_len
    }

    /// Whether the two states have the same figures, records and history
    /// limit.
    pub open spec fn same_as(self, other: PowerState) -> bool {
        self.totals() == other.totals() && self.same_history(other)
    }

    /// Creates a state with all figures at zero and no history.
    pub fn new() -> (ps: Self)
        ensures
            ps.is_fresh(PowerTotals::zero()),
            ps.wf(),
    {
        Self {
            power_used: Watt(0),
            power_generated: Watt(0),
            power_reported: Watt(0),
            power_error: Watt(0),
            history_power_used: Vec::new(),
            history_power_reported: Vec::new(),
            history_power_error: Vec::new(),
            history_power_generated: Vec::new(),
            history_len: HISTORY_LEN,
        }
    }

    /// Whether this state is `before` after its figures were put on record:
    /// the figures are the same, and each record has taken the figure it
    /// belongs to, dropping its oldest entry if it would otherwise be longer
    /// than the limit.
    pub open spec fn is_recorded(self, before: PowerState) -> bool {
        &&& self.totals() == before.totals()
        &&& self.history_len == before.history_len
        &&& self.history_power_used@ == pushed_bounded(
            before.history_power_used@,
            before.power_used,
            before.history_len as int,
        )
        &&& self.history_power_generated@ == pushed_bounded(
            before.history_power_generated@,
            before.power_generated,
            before.history_len as int,
        )
        &&& self.history_power_reported@ == pushed_bounded(
            before.history_power_reported@,
            before.power_reported,
            before.history_len as int,
        )
        &&& self.history_power_error@ == pushed_bounded(
            before.history_power_error@,
            before.power_error,
            before.history_len as int,
        )
    }

    /// Appends the current figures to their records and drops the oldest
    /// entry of each record that has grown beyond the limit.
    pub fn update_history(&mut self)
        requires
            old(self).wf(),
        ensures
            final(self).wf(),
            final(self).is_recorded(*old(self)),
    {
        self.history_power_used.push(self.power_used);
        self.history_power_reported.push(self.power_reported);
        self.history_power_error.push(self.power_error);
        self.history_power_generated.push(self.power_generated);

        if self.history_power_error.len() > self.history_len as usize {
            self.history_power_used.remove(0);
            self.history_power_reported.remove(0);
            self.history_power_error.remove(0);
            self.history_power_generated.remove(0);
        }
    }

    /// Adds the figures of `rhs` to the own ones. The history is left alone.
    pub fn manual_add(&mut self, rhs: &Self)
        requires
            old(self).totals().plus(rhs.totals()).fits(),
        ensures
            final(self).totals() == old(self).totals().plus(rhs.totals()),
            final(self).same_history(*old(self)),
    {
        self.power_used = Watt(self.power_used.0 + rhs.power_used.0);
        self.power_reported = Watt(self.power_reported.0 + rhs.power_reported.0);
        self.power_error = Watt(self.power_error.0 + rhs.power_error.0);
        self.power_generated = Watt(self.power_generated.0 + rhs.power_generated.0);
    }

    /// Whether the figures of `rhs` can be added to the own ones without
    /// leaving the range of `Watt`.
    pub fn can_add(&self, rhs: &Self) -> (b: bool)
        ensures
            b == self.totals().plus(rhs.totals()).fits(),
    {
        self.power_used.0.checked_add(rhs.power_used.0).is_some()
            && self.power_reported.0.checked_add(rhs.power_reported.0).is_some()
            && self.power_error.0.checked_add(rhs.power_error.0).is_some()
            && self.power_generated.0.checked_add(rhs.power_generated.0).is_some()
    }

    /// The error that an attacked unit shows: what it reports minus what it
    /// really draws from the grid.
    pub open spec fn attacked_error(used: Watt, generated: Watt, reported: Watt) -> int {
        reported.0 - (used.0 - generated.0)
    }

    /// Puts the falsified figures of an attacked unit in place: the generated
    /// and the reported power are replaced by the scaled values, the power used
    /// stays as measured, and the error becomes the reported power minus the
    /// net draw.
    pub fn attack(&mut self, generated: Watt, reported: Watt)
        requires
            i64::MIN <= Self::attacked_error(old(self).power_used, generated, reported) <= i64::MAX,
            i64::MIN <= old(self).power_used.0 - generated.0 <= i64::MAX,
        ensures
            final(self).power_generated == generated,
            final(self).power_reported == reported,
            final(self).power_used == old(self).power_used,
            final(self).power_error.0 == Self::attacked_error(
                old(self).power_used,
                generated,
                reported,
            ),
            final(self).same_history(*old(self)),
    {
        self.power_generated = generated;
        self.power_reported = reported;
        self.power_error = Watt(
            self.power_reported.0 - (self.power_used.0 - self.power_generated.0),
        );
    }

    /// Sum of the figures of all given states, as a fresh state.
    pub fn sum(states: &Vec<PowerState>) -> (total: Self)
        requires
            sum_fits(states@),
        ensures
            total.is_fresh(sum_totals(states@)),
            total.wf(),
    {
        let mut total = PowerState::new();
        let mut i: usize = 0;
        while i < states.len()
            invariant
                i <= states.len(),
                sum_fits(states@),
                total.is_fresh(total_of(figures_of(states@).take(i as int))),
                total.wf(),
            decreases states.len() - i,
        {
            proof {
                let next = figures_of(states@).take(i + 1);
                assert(next.drop_last() =~= figures_of(states@).take(i as int));
                assert(next.last() == states@[i as int].totals());
                assert(total_of(next).fits());
            }
            total.manual_add(&states[i]);
            i = i + 1;
        }
        proof {
            assert(figures_of(states@).take(states.len() as int) =~= figures_of(states@));
        }
        total
    }
}

impl Clone for PowerState {
    fn clone(&self) -> (ps: Self)
        ensures
            ps.same_as(*self),
    {
        let ps = Self {
            power_generated: self.power_generated,
            power_used: self.power_used,
            power_reported: self.power_reported,
            power_error: self.power_error,
            history_power_used: self.history_power_used.clone(),
            history_power_generated: self.history_power_generated.clone(),
            history_power_reported: self.history_power_reported.clone(),
            history_power_error: self.history_power_error.clone(),
            history_len: self.history_len,
        };
        proof {
            assert(ps.history_power_used@ =~= self.history_power_used@);
            assert(ps.history_power_generated@ =~= self.history_power_generated@);
            assert(ps.history_power_reported@ =~= self.history_power_reported@);
            assert(ps.history_power_error@ =~= self.history_power_error@);
        }
        ps
    }
}

impl Default for PowerState {
    fn default() -> (ps: Self)
        ensures
            ps.is_fresh(PowerTotals::zero()),
            ps.wf(),
    {
        PowerState::new()
    }
}

impl PartialEq for PowerState {
    /// Two power states are equal when their four current figures are. The
    /// history does not count.
    fn eq(&self, other: &Self) -> (b: bool) {
        self.power_used.0 == other.power_used.0 && self.power_reported.0 == other.power_reported.0
            && self.power_error.0 == other.power_error.0 && self.power_generated.0
            == other.power_generated.0
    }
}

impl PartialEqSpecImpl for PowerState {
    open spec fn obeys_eq_spec() -> bool {
        true
    }

    open spec fn eq_spec(&self, other: &Self) -> bool {
        self.totals() == other.totals()
    }
}

impl Add for PowerState {
    type Output = PowerState;

    /// Figure by figure sum of two states, as a fresh state.
    fn add(self, rhs: Self) -> (total: Self::Output)
        ensures
            total.is_fresh(self.totals().plus(rhs.totals())),
            total.wf(),
    {
        PowerState {
            power_used: Watt(self.power_used.0 + rhs.power_used.0),
            power_reported: Watt(self.power_reported.0 + rhs.power_reported.0),
            power_error: Watt(self.power_error.0 + rhs.power_error.0),
            power_generated: Watt(self.power_generated.0 + rhs.power_generated.0),
            history_power_used: Vec::new(),
            history_power_reported: Vec::new(),
            history_power_error: Vec::new(),
            history_power_generated: Vec::new(),
            history_len: HISTORY_LEN,
        }
    }
}

impl AddSpecImpl for PowerState {
    open spec fn obeys_add_spec() -> bool {
        false
    }

    open spec fn add_req(self, rhs: Self) -> bool {
        self.totals().plus(rhs.totals()).fits()
    }

    /// Left open: the sum carries fresh, empty records, which the contract of
    /// `add` describes by their contents.
    open spec fn add_spec(self, rhs: Self) -> Self::Output {
        self
    }
}

} // verus!
