//! What holds of the power figures of a model from one phase of a tick to the
//! next, and over a whole run.
use crate::agent::{child_figures, AgentKind};
use crate::grid::{total_of, PowerTotals};
use crate::model::determinism::Course;
use crate::model::layout::AreaPlan;
use crate::model::run::{StepAction, StepEvent, StepPhase};
use crate::model::Model;
use crate::util::Steps;
use vstd::prelude::*;

verus! {

/// The sum of figures that are all zero is zero.
pub proof fn lemma_total_of_zeros(figures: Seq<PowerTotals>)
    requires
        forall|i: int| 0 <= i < figures.len() ==> #[trigger] figures[i] == PowerTotals::zero(),
    ensures
        total_of(figures) == PowerTotals::zero(),
    decreases figures.len(),
{
    if figures.len() > 0 {
        lemma_total_of_zeros(figures.drop_last());
    }
}

impl Model {
    /// Whether every netstation and every area shows the figure by figure sum
    /// of what its children show, and the root shows the sums of what the areas
    /// use, report and generate. An agent without children shows no power.
    ///
    /// The power error of the root is left out: the reserve takes its share of
    /// it after the sums are made.
    pub open spec fn shows_sums(&self) -> bool {
        &&& forall|k: int|
            0 <= k < self.netstations@.len() ==> (
            #[trigger] self.netstations@[k]).powerstate.totals() == total_of(
                child_figures(self.agents@, self.households@, self.netstations@[k].children@),
            )
        &&& forall|a: int|
            0 <= a < self.areas@.len() ==> (#[trigger] self.areas@[a]).powerstate.totals()
                == total_of(
                child_figures(self.agents@, self.netstations@, self.areas@[a].children@),
            )
        &&& self.root.powerstate.totals().used == total_of(
            child_figures(self.agents@, self.areas@, self.root.children@),
        ).used
        &&& self.root.powerstate.totals().reported == total_of(
            child_figures(self.agents@, self.areas@, self.root.children@),
        ).reported
        &&& self.root.powerstate.totals().generated == total_of(
            child_figures(self.agents@, self.areas@, self.root.children@),
        ).generated
    }

    /// The figure by figure sum of what the areas under the root show.
    pub open spec fn sum_of_areas(&self) -> PowerTotals {
        total_of(child_figures(self.agents@, self.areas@, self.root.children@))
    }

    /// Whether every netstation and every area without children, and a root
    /// without children, shows no power at all.
    pub open spec fn childless_at_rest(&self) -> bool {
        &&& forall|k: int|
            0 <= k < self.netstations@.len() && (#[trigger] self.netstations@[k]).children@.len()
                == 0 ==> self.netstations@[k].powerstate.totals() == PowerTotals::zero()
        &&& forall|a: int|
            0 <= a < self.areas@.len() && (#[trigger] self.areas@[a]).children@.len() == 0
                ==> self.areas@[a].powerstate.totals() == PowerTotals::zero()
        &&& self.root.children@.len() == 0 ==> self.root.powerstate.totals()
            == PowerTotals::zero()
    }

    /// Whether the two models have the same table and agents with the same
    /// children and power figures each, but for the power error of the root.
    pub open spec fn same_power(&self, other: &Model) -> bool {
        &&& self.agents == other.agents
        &&& self.root.children == other.root.children
        &&& self.root.powerstate.totals().used == other.root.powerstate.totals().used
        &&& self.root.powerstate.totals().reported == other.root.powerstate.totals().reported
        &&& self.root.powerstate.totals().generated == other.root.powerstate.totals().generated
        &&& self.areas@.len() == other.areas@.len()
        &&& forall|p: int|
            0 <= p < self.areas@.len() ==> (#[trigger] self.areas@[p]).children
                == other.areas@[p].children && self.areas@[p].powerstate.totals()
                == other.areas@[p].powerstate.totals()
        &&& self.netstations@.len() == other.netstations@.len()
        &&& forall|p: int|
            0 <= p < self.netstations@.len() ==> (#[trigger] self.netstations@[p]).children
                == other.netstations@[p].children && self.netstations@[p].powerstate.totals()
                == other.netstations@[p].powerstate.totals()
        &&& self.households@.len() == other.households@.len()
        &&& forall|p: int|
            0 <= p < self.households@.len() ==> (#[trigger] self.households@[p]).powerstate.totals()
                == other.households@[p].powerstate.totals()
    }

    /// A model as it is built shows the sums of its children everywhere: no
    /// agent shows any power.
    pub proof fn lemma_built_shows_sums(&self, layout: Seq<AreaPlan>)
        requires
            self.wf(),
            self.is_built_from(layout),
        ensures
            self.shows_sums(),
            self.childless_at_rest(),
            self.root.powerstate.totals() == PowerTotals::zero(),
            self.sum_of_areas() == PowerTotals::zero(),
    {
        assert forall|k: int| 0 <= k < self.netstations@.len() implies (
        #[trigger] self.netstations@[k]).powerstate.totals() == total_of(
            child_figures(self.agents@, self.households@, self.netstations@[k].children@),
        ) by {
            let children = self.netstations@[k].children@;
            self.lemma_children_in_level(children, AgentKind::Household);
            let figures = child_figures(self.agents@, self.households@, children);
            assert forall|i: int| 0 <= i < figures.len() implies #[trigger] figures[i]
                == PowerTotals::zero() by {
                let p = self.agents@[children[i] as int].position as int;
                assert(self.households@[p].powerstate.is_fresh(PowerTotals::zero()));
            }
            lemma_total_of_zeros(figures);
        }
        assert forall|a: int| 0 <= a < self.areas@.len() implies (
        #[trigger] self.areas@[a]).powerstate.totals() == total_of(
            child_figures(self.agents@, self.netstations@, self.areas@[a].children@),
        ) by {
            let children = self.areas@[a].children@;
            self.lemma_children_in_level(children, AgentKind::Netstation);
            let figures = child_figures(self.agents@, self.netstations@, children);
            assert forall|i: int| 0 <= i < figures.len() implies #[trigger] figures[i]
                == PowerTotals::zero() by {
                let p = self.agents@[children[i] as int].position as int;
                assert(self.netstations@[p].powerstate.is_fresh(PowerTotals::zero()));
            }
            lemma_total_of_zeros(figures);
        }
        let children = self.root.children@;
        self.lemma_children_in_level(children, AgentKind::Area);
        let figures = child_figures(self.agents@, self.areas@, children);
        assert forall|i: int| 0 <= i < figures.len() implies #[trigger] figures[i]
            == PowerTotals::zero() by {
            let p = self.agents@[children[i] as int].position as int;
            assert(self.areas@[p].powerstate.is_fresh(PowerTotals::zero()));
        }
        lemma_total_of_zeros(figures);
    }

    /// After the sums were made, every agent that is not a household shows the
    /// figure by figure sum of what its children show: the root too, in all of
    /// its four figures.
    pub proof fn lemma_summed_shows_sums(&self, before: &Model)
        requires
            before.wf(),
            before.childless_at_rest(),
            self.is_summed_from(before),
        ensures
            self.shows_sums(),
            self.childless_at_rest(),
            self.root.powerstate.totals() == total_of(
                child_figures(self.agents@, self.areas@, self.root.children@),
            ),
    {
        assert forall|k: int| 0 <= k < self.netstations@.len() implies {
            &&& (#[trigger] self.netstations@[k]).powerstate.totals() == total_of(
                child_figures(self.agents@, self.households@, self.netstations@[k].children@),
            )
            &&& self.netstations@[k].children@.len() == 0 ==> self.netstations@[k].powerstate.totals()
                == PowerTotals::zero()
        } by {
            assert(self.netstations@[k].children == before.netstations@[k].children);
            if self.netstations@[k].children@.len() == 0 {
                assert(before.netstations@[k].powerstate.totals() == PowerTotals::zero());
                assert(self.netstations@[k].powerstate.totals() == before.netstation_aggregate(k));
                assert(child_figures(
                    self.agents@,
                    self.households@,
                    self.netstations@[k].children@,
                ) =~= Seq::<PowerTotals>::empty());
            }
        }
        assert forall|a: int| 0 <= a < self.areas@.len() implies {
            &&& (#[trigger] self.areas@[a]).powerstate.totals() == total_of(
                child_figures(self.agents@, self.netstations@, self.areas@[a].children@),
            )
            &&& self.areas@[a].children@.len() == 0 ==> self.areas@[a].powerstate.totals()
                == PowerTotals::zero()
        } by {
            assert(self.areas@[a].children == before.areas@[a].children);
            if self.areas@[a].children@.len() == 0 {
                assert(before.areas@[a].powerstate.totals() == PowerTotals::zero());
                assert(self.areas@[a].powerstate.totals() == before.area_aggregate(a));
                assert(child_figures(self.agents@, self.netstations@, self.areas@[a].children@)
                    =~= Seq::<PowerTotals>::empty());
            }
        }
        if self.root.children@.len() == 0 {
            assert(child_figures(self.agents@, self.areas@, self.root.children@)
                =~= Seq::<PowerTotals>::empty());
        }
    }

    /// A model that has the table, the children and the power figures of one
    /// that shows the sums of its children shows them too.
    pub proof fn lemma_same_power_shows_sums(&self, before: &Model)
        requires
            before.shows_sums(),
            before.childless_at_rest(),
            before.tree_wf(),
            self.same_power(before),
            before.root.children@.len() == 0 ==> self.root.powerstate.totals()
                == PowerTotals::zero(),
        ensures
            self.shows_sums(),
            self.childless_at_rest(),
            self.sum_of_areas() == before.sum_of_areas(),
    {
        assert forall|k: int| 0 <= k < self.netstations@.len() implies (
        #[trigger] self.netstations@[k]).powerstate.totals() == total_of(
            child_figures(self.agents@, self.households@, self.netstations@[k].children@),
        ) by {
            let children = before.netstations@[k].children@;
            before.lemma_children_in_level(children, AgentKind::Household);
            assert(child_figures(self.agents@, self.households@, children) =~= child_figures(
                before.agents@,
                before.households@,
                children,
            ));
        }
        assert forall|a: int| 0 <= a < self.areas@.len() implies (
        #[trigger] self.areas@[a]).powerstate.totals() == total_of(
            child_figures(self.agents@, self.netstations@, self.areas@[a].children@),
        ) by {
            let children = before.areas@[a].children@;
            before.lemma_children_in_level(children, AgentKind::Netstation);
            assert(child_figures(self.agents@, self.netstations@, children) =~= child_figures(
                before.agents@,
                before.netstations@,
                children,
            ));
        }
        let children = before.root.children@;
        before.lemma_children_in_level(children, AgentKind::Area);
        assert(child_figures(self.agents@, self.areas@, children) =~= child_figures(
            before.agents@,
            before.areas@,
            children,
        ));
    }

    /// From the phase in which the sums are made to the end of the tick, and
    /// on until the households take their new figures in the next tick, every
    /// netstation and every area shows the figure by figure sum of what its
    /// children show, and the root shows the sums of what the areas use,
    /// report and generate.
    pub proof fn lemma_sums_outlast_the_phases(
        &self,
        before: &Model,
        phase: StepPhase,
        step: Steps,
        event: StepEvent,
        action: StepAction,
    )
        requires
            before.wf(),
            before.childless_at_rest(),
            self.has_taken(before, phase, step, event, action),
            phase == StepPhase::PowerFromChildren || before.shows_sums(),
            phase != StepPhase::NewPowerState,
            phase != StepPhase::AttackAndPatch,
            phase != StepPhase::ModifyInfected,
        ensures
            self.shows_sums(),
            self.childless_at_rest(),
            phase != StepPhase::PowerFromChildren ==> self.sum_of_areas() == before.sum_of_areas(),
    {
        match phase {
            StepPhase::PowerFromChildren => {
                self.lemma_summed_shows_sums(before);
            },
            StepPhase::Compensation => {
                if before.root.children@.len() == 0 {
                    assert(before.root.powerstate.power_error.0 == 0);
                }
                self.lemma_same_power_shows_sums(before);
            },
            _ => {
                self.lemma_same_power_shows_sums(before);
            },
        }
    }

    /// A phase that leaves the root, the areas and the netstations as they
    /// are leaves those of them without children at rest.
    pub proof fn lemma_rest_outlasts_the_households(&self, before: &Model)
        requires
            before.childless_at_rest(),
            self.root == before.root,
            self.areas == before.areas,
            self.netstations == before.netstations,
        ensures
            self.childless_at_rest(),
    {
    }
}

impl StepPhase {
    /// Whether the sums stand when a run is at this phase: no household has
    /// taken new figures since the sums were made. That is so from the phase
    /// after the sums to the phase in which the households take the clean
    /// figures of the next step, and before the first tick.
    pub open spec fn follows_the_sums(self) -> bool {
        self != StepPhase::AttackAndPatch && self != StepPhase::ModifyInfected && self
            != StepPhase::PowerFromChildren
    }
}

impl Course {
    /// The share of the power error of the root that the reserve has taken
    /// since the sums were made for the last time, after the given number of
    /// calls: nothing before the reserve is asked, and what it takes of the
    /// error of the root from then on.
    pub open spec fn taken_by_reserve(self, calls: int) -> int
        decreases calls,
    {
        if calls <= 0 {
            0
        } else {
            match self.runs[calls - 1].phase {
                StepPhase::PowerFromChildren => 0,
                StepPhase::Compensation => self.models[calls - 1].reserve_power.compensation(
                    self.models[calls - 1].root.powerstate.power_error,
                ),
                _ => self.taken_by_reserve(calls - 1),
            }
        }
    }

    /// Whether the model after the given number of calls shows the sums of a
    /// finished aggregation: every netstation and every area shows the figure
    /// by figure sum of what its children show, in all four figures, and the
    /// root shows the sums of what the areas use, report and generate, and as
    /// its power error the sum of theirs less what the reserve has taken of it.
    pub open spec fn shows_sums_after(self, calls: int) -> bool {
        &&& self.models[calls].shows_sums()
        &&& self.models[calls].root.powerstate.totals().error
            == self.models[calls].sum_of_areas().error - self.taken_by_reserve(calls)
    }

    /// The reserve is asked right after the sums were made, or at the first
    /// call: it has taken nothing since the sums by then.
    pub proof fn lemma_reserve_is_asked_after_the_sums(self, calls: int)
        requires
            self.is_taken(),
            0 <= calls <= self.events.len(),
            self.runs[calls].phase == StepPhase::Compensation,
        ensures
            self.taken_by_reserve(calls) == 0,
    {
        if calls > 0 {
            assert(self.models[calls - 1].wf());
            assert(self.runs[calls] == self.runs[calls - 1].after(self.actions[calls - 1]));
            assert(self.runs[calls - 1].phase == StepPhase::PowerFromChildren);
        }
    }

    /// The aggregation law over a whole run. A run that starts from a model as
    /// it is built, at a phase at which the sums stand, shows the sums after
    /// every call that leaves it at such a phase: from construction to the last
    /// tick, whenever the sums of a tick were made and until the households
    /// take the figures of the next, every netstation and every area shows the
    /// sums of its children in all four figures, and the root shows the sums of
    /// the areas, its power error less what the reserve has taken of it in the
    /// tick.
    pub proof fn lemma_run_shows_sums(self, layout: Seq<AreaPlan>, calls: int)
        requires
            self.is_taken(),
            self.models[0].wf(),
            self.models[0].is_built_from(layout),
            self.runs[0].phase.follows_the_sums(),
            0 <= calls <= self.events.len(),
        ensures
            self.models[calls].childless_at_rest(),
            self.runs[calls].phase.follows_the_sums() ==> self.shows_sums_after(calls),
        decreases calls,
    {
        if calls == 0 {
            self.models[0].lemma_built_shows_sums(layout);
        } else {
            let i = calls - 1;
            self.lemma_run_shows_sums(layout, i);
            let before = self.models[i];
            let after = self.models[calls];
            let phase = self.runs[i].phase;
            assert(before.wf());
            assert(after.has_taken(&before, phase, self.runs[i].step, self.events[i], self.actions[i]));
            assert(self.runs[calls] == self.runs[i].after(self.actions[i]));
            match phase {
                StepPhase::NewPowerState | StepPhase::ModifyInfected | StepPhase::AttackAndPatch => {
                    after.lemma_rest_outlasts_the_households(&before);
                },
                StepPhase::PowerFromChildren => {
                    after.lemma_summed_shows_sums(&before);
                },
                StepPhase::Compensation => {
                    self.lemma_reserve_is_asked_after_the_sums(i);
                    after.lemma_sums_outlast_the_phases(
                        &before,
                        phase,
                        self.runs[i].step,
                        self.events[i],
                        self.actions[i],
                    );
                },
                StepPhase::Stopped => {},
                _ => {
                    after.lemma_sums_outlast_the_phases(
                        &before,
                        phase,
                        self.runs[i].step,
                        self.events[i],
                        self.actions[i],
                    );
                },
            }
        }
    }
}

} // verus!
