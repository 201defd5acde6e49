//! One tick of the simulation, phase by phase.
use crate::agent::{
    aggregate, child_figures, child_infection_states, children_in_level, AgentKind, AgentList,
    AgentRef, AgentTrait, Area, Household, Netstation, Root,
};
use crate::attack::{first_active, infection_states};
use crate::grid::{
    total_of, BoundaryAgentTrait, FreqState, GridBoundaryState, GridState, GridWarning,
    InfectionState, InfectionStatistics, PowerState, PowerTotals, ReservePower,
};
use crate::model::{children_of_kind, Model};
use crate::util::{mVolt, BaseUint, ModelError, Steps, Watt};
use vstd::prelude::*;
use vstd::string::StringExecFns;

verus! {

/// The summary of one tick.
#[derive(Debug)]
pub struct GridInformation {
    /// How the infection stands among the households.
    pub infection_statistics: InfectionStatistics,
    /// The frequency of the grid.
    pub freq_state: FreqState,
    /// The power state of the root.
    pub power_state: PowerState,
    /// The reserve of the grid operator.
    pub reserve_power: ReservePower,
}

/// What the boundary checks of one tick have found.
#[derive(Debug)]
pub struct BoundaryReport {
    /// The warning of the frequency monitor at the root, if it gave one.
    pub frequency: Option<GridWarning>,
    /// The critical warnings of the voltage monitors, in the order of the
    /// netstations.
    pub voltage_errors: Vec<GridWarning>,
    /// The other warnings of the voltage monitors, in the order of the
    /// netstations.
    pub voltage_warnings: Vec<GridWarning>,
    /// Whether the run has to stop after this tick.
    pub need_to_stop: bool,
}

impl BoundaryReport {
    /// How the run goes on after the checks: it ends with the stop signal if
    /// the run has to stop, and goes on otherwise.
    pub fn outcome(&self) -> (outcome: Result<(), ModelError>)
        ensures
            outcome is Ok <==> !self.need_to_stop,
            outcome is Err ==> outcome->Err_0 is NeedToStop,
    {
        if self.need_to_stop {
            Err(ModelError::NeedToStop)
        } else {
            Ok(())
        }
    }
}

impl Model {
    /// Whether this model is `other` with the step of every agent set to
    /// `step`.
    pub open spec fn same_but_step(&self, other: &Model, step: Steps) -> bool {
        &&& self.param == other.param
        &&& self.graph == other.graph
        &&& self.agents == other.agents
        &&& self.reserve_power == other.reserve_power
        &&& self.root == (Root { step, ..other.root })
        &&& self.areas@.len() == other.areas@.len()
        &&& forall|p: int|
            0 <= p < self.areas@.len() ==> #[trigger] self.areas@[p] == (Area {
                step,
                ..other.areas@[p]
            })
        &&& self.netstations@.len() == other.netstations@.len()
        &&& forall|p: int|
            0 <= p < self.netstations@.len() ==> #[trigger] self.netstations@[p] == (Netstation {
                step,
                ..other.netstations@[p]
            })
        &&& self.households@.len() == other.households@.len()
        &&& forall|p: int|
            0 <= p < self.households@.len() ==> #[trigger] self.households@[p] == (Household {
                step,
                ..other.households@[p]
            })
    }

    /// Update step: stamps the new step on every agent.
    pub fn update_step(&mut self, step: Steps)
        ensures
            final(self).same_but_step(old(self), step),
            old(self).wf() ==> final(self).wf(),
    {
        self.root.update_step(step);
        let mut a: usize = 0;
        while a < self.areas.len()
            invariant
                a <= self.areas.len(),
                self.areas.len() == old(self).areas.len(),
                self.param == old(self).param,
                self.graph == old(self).graph,
                self.agents == old(self).agents,
                self.reserve_power == old(self).reserve_power,
                self.netstations == old(self).netstations,
                self.households == old(self).households,
                self.root == (Root { step, ..old(self).root }),
                forall|p: int|
                    0 <= p < a ==> #[trigger] self.areas@[p] == (Area {
                        step,
                        ..old(self).areas@[p]
                    }),
                forall|p: int| a <= p < self.areas.len() ==> self.areas@[p] == old(self).areas@[p],
            decreases self.areas.len() - a,
        {
            self.areas[a].update_step(step);
            a = a + 1;
        }
        let mut n: usize = 0;
        while n < self.netstations.len()
            invariant
                n <= self.netstations.len(),
                self.netstations.len() == old(self).netstations.len(),
                self.param == old(self).param,
                self.graph == old(self).graph,
                self.agents == old(self).agents,
                self.reserve_power == old(self).reserve_power,
                self.households == old(self).households,
                self.root == (Root { step, ..old(self).root }),
                self.areas@.len() == old(self).areas@.len(),
                forall|p: int|
                    0 <= p < self.areas@.len() ==> #[trigger] self.areas@[p] == (Area {
                        step,
                        ..old(self).areas@[p]
                    }),
                forall|p: int|
                    0 <= p < n ==> #[trigger] self.netstations@[p] == (Netstation {
                        step,
                        ..old(self).netstations@[p]
                    }),
                forall|p: int|
                    n <= p < self.netstations.len() ==> self.netstations@[p] == old(
                        self,
                    ).netstations@[p],
            decreases self.netstations.len() - n,
        {
            self.netstations[n].update_step(step);
            n = n + 1;
        }
        let mut h: usize = 0;
        while h < self.households.len()
            invariant
                h <= self.households.len(),
                self.households.len() == old(self).households.len(),
                self.param == old(self).param,
                self.graph == old(self).graph,
                self.agents == old(self).agents,
                self.reserve_power == old(self).reserve_power,
                self.root == (Root { step, ..old(self).root }),
                self.areas@.len() == old(self).areas@.len(),
                forall|p: int|
                    0 <= p < self.areas@.len() ==> #[trigger] self.areas@[p] == (Area {
                        step,
                        ..old(self).areas@[p]
                    }),
                self.netstations@.len() == old(self).netstations@.len(),
                forall|p: int|
                    0 <= p < self.netstations@.len() ==> #[trigger] self.netstations@[p] == (
                    Netstation { step, ..old(self).netstations@[p] }),
                forall|p: int|
                    0 <= p < h ==> #[trigger] self.households@[p] == (Household {
                        step,
                        ..old(self).households@[p]
                    }),
                forall|p: int|
                    h <= p < self.households.len() ==> self.households@[p] == old(
                        self,
                    ).households@[p],
            decreases self.households.len() - h,
        {
            self.households[h].update_step(step);
            h = h + 1;
        }
        proof {
            if old(self).wf() {
                Self::lemma_same_but_step_keeps_wf(self, old(self), step);
            }
        }
    }

    /// Whether this model is `other` but for its households, which are as
    /// many as before and have the same index, step and children each.
    pub open spec fn same_but_households(&self, other: &Model) -> bool {
        &&& self.param == other.param
        &&& self.graph == other.graph
        &&& self.agents == other.agents
        &&& self.reserve_power == other.reserve_power
        &&& self.root == other.root
        &&& self.areas == other.areas
        &&& self.netstations == other.netstations
        &&& self.households@.len() == other.households@.len()
        &&& forall|p: int|
            0 <= p < self.households@.len() ==> {
                &&& (#[trigger] self.households@[p]).kind == other.households@[p].kind
                &&& self.households@[p].index == other.households@[p].index
                &&& self.households@[p].step == other.households@[p].step
                &&& self.households@[p].children == other.households@[p].children
                &&& self.households@[p].power_generation.day_profile
                    == other.households@[p].power_generation.day_profile
                &&& self.households@[p].power_generation.has_generation
                    == other.households@[p].power_generation.has_generation
                &&& self.households@[p].powerstate.same_history(other.households@[p].powerstate)
            }
    }

    /// A model that differs from a well-formed one only in the power figures
    /// and infection states of its households is well-formed.
    pub proof fn lemma_same_but_households_keeps_wf(after: &Model, before: &Model)
        requires
            before.wf(),
            after.same_but_households(before),
        ensures
            after.wf(),
    {
        assert forall|i: int| 0 <= i < after.agents@.len() implies after.entry_is_valid(i) by {
            assert(before.entry_is_valid(i));
        }
        assert forall|p: int| 0 <= p < after.households@.len() implies (
        #[trigger] after.households@[p]).children@.len() == 0 by {
            assert(after.households@[p].children == before.households@[p].children);
        }
        assert forall|p: int| 0 <= p < after.households@.len() implies (
        #[trigger] after.households@[p]).power_generation.wf() by {
            assert(before.households@[p].power_generation.wf());
        }
        assert forall|p: int| 0 <= p < after.households@.len() implies (
        #[trigger] after.households@[p]).powerstate.wf() by {
            assert(before.households@[p].powerstate.wf());
        }
    }

    /// Whether this model is `before` after every household has taken the
    /// clean figures of its power generation unit for its current step.
    pub open spec fn has_clean_power(&self, before: &Model) -> bool {
        &&& self.same_but_households(before)
        &&& forall|p: int|
            0 <= p < before.households@.len() ==> (#[trigger] self.households@[p]).is_clean(
                before.households@[p],
            )
    }

    /// New power state for the households: every household takes the clean
    /// figures of its power generation unit for its current step.
    pub fn new_power_state(&mut self)
        requires
            old(self).wf(),
        ensures
            final(self).wf(),
            final(self).has_clean_power(old(self)),
    {
        let mut h: usize = 0;
        while h < self.households.len()
            invariant
                h <= self.households.len(),
                old(self).wf(),
                self.same_but_households(old(self)),
                forall|p: int|
                    0 <= p < h ==> (#[trigger] self.households@[p]).is_clean(
                        old(self).households@[p],
                    ),
                forall|p: int|
                    h <= p < self.households.len() ==> self.households@[p] == old(
                        self,
                    ).households@[p],
            decreases self.households.len() - h,
        {
            assert(old(self).households@[h as int].power_generation.wf());
            self.households[h].clean_power_gen();
            h = h + 1;
        }
        proof {
            Self::lemma_same_but_households_keeps_wf(self, old(self));
        }
    }

    /// The place of the first behaviour of the attack that is active at the
    /// given step, if any is.
    pub open spec fn active_place(&self, step: Steps) -> Option<usize> {
        match first_active(self.param.attack.attack_behaviour@, step) {
            Some(i) => Some(i as usize),
            None => None,
        }
    }

    /// Whether this model is `before` after the epidemic step of a tick: the
    /// current attack is the first behaviour that is active at the step, and
    /// every household has moved to the infection state that follows from its
    /// two rolls. Nothing else has changed.
    pub open spec fn has_taken_epidemic_step(
        &self,
        before: &Model,
        step: Steps,
        rolls: Seq<(bool, bool)>,
    ) -> bool {
        &&& self.graph == before.graph
        &&& self.agents == before.agents
        &&& self.reserve_power == before.reserve_power
        &&& self.root == before.root
        &&& self.areas == before.areas
        &&& self.netstations == before.netstations
        &&& self.param.name == before.param.name
        &&& self.param.steps == before.param.steps
        &&& self.param.enable_output == before.param.enable_output
        &&& self.param.grid == before.param.grid
        &&& self.param.stop_on_freq_error == before.param.stop_on_freq_error
        &&& self.param.attack.infection_start == before.param.attack.infection_start
        &&& self.param.attack.infection_stop == before.param.attack.infection_stop
        &&& self.param.attack.patch_start == before.param.attack.patch_start
        &&& self.param.attack.patch_stop == before.param.attack.patch_stop
        &&& self.param.attack.attack_behaviour@ == before.param.attack.attack_behaviour@
        &&& self.param.attack.current_attack == match first_active(
            before.param.attack.attack_behaviour@,
            step,
        ) {
            Some(i) => Some(before.param.attack.attack_behaviour@[i]),
            None => None,
        }
        &&& self.households@.len() == before.households@.len()
        &&& forall|p: int|
            0 <= p < before.households@.len() ==> (
            #[trigger] self.households@[p]).same_but_infection(
                before.households@[p],
                before.households@[p].power_generation.infection_state.spec_transition(
                    rolls[p].0,
                    rolls[p].1,
                ),
            )
    }

    /// The epidemic step of a tick: selects the attack behaviour that is active
    /// at the step, the first one in the order of the list, and lets every
    /// household take its step of the epidemic with its two rolls, which are
    /// given in the order of the households: whether it is patched, and
    /// whether it is infected. Gives the place of the active behaviour in the
    /// list.
    pub fn attack_and_patch(&mut self, step: Steps, rolls: &Vec<(bool, bool)>) -> (place: Option<
        usize,
    >)
        requires
            old(self).wf(),
            rolls.len() == old(self).households.len(),
        ensures
            final(self).wf(),
            place == old(self).active_place(step),
            final(self).has_taken_epidemic_step(old(self), step, rolls@),
    {
        let place = self.param.attack.check_current_attack(step);
        self.param.attack.try_to_patch_and_infect(&mut self.households, rolls);
        proof {
            assert forall|i: int| 0 <= i < self.agents@.len() implies self.entry_is_valid(i) by {
                assert(old(self).entry_is_valid(i));
            }
            assert forall|p: int| 0 <= p < self.households@.len() implies (
            #[trigger] self.households@[p]).children@.len() == 0 by {
                assert(self.households@[p].children == old(self).households@[p].children);
            }
            assert forall|p: int| 0 <= p < self.households@.len() implies (
            #[trigger] self.households@[p]).power_generation.wf() by {
                assert(old(self).households@[p].power_generation.wf());
            }
            assert forall|p: int| 0 <= p < self.households@.len() implies (
            #[trigger] self.households@[p]).powerstate.wf() by {
                assert(old(self).households@[p].powerstate.wf());
            }
        }
        place
    }

    /// Whether this model is `before` after the distortion step of a tick:
    /// every household whose unit is infected shows the falsified figures that
    /// are given for it, if an attack behaviour is active. Nothing else has
    /// changed.
    pub open spec fn is_distorted(&self, before: &Model, falsified: Seq<(Watt, Watt)>) -> bool {
        &&& self.same_but_households(before)
        &&& forall|p: int|
            0 <= p < before.households@.len() ==> if before.param.attack.distorts(
                before.households@[p],
            ) {
                (#[trigger] self.households@[p]).is_falsified(before.households@[p], falsified[p])
            } else {
                self.households@[p] == before.households@[p]
            }
    }

    /// The distortion step of a tick: puts the falsified figures in place at
    /// every household whose unit is infected, if an attack behaviour is
    /// active. The figures are given for each household, in the order of the
    /// households: the generated and the reported power that it shows while it
    /// is attacked. If the figures can not be put in place at a household,
    /// nothing is changed at all.
    pub fn modify_infected_devices(&mut self, falsified: &Vec<(Watt, Watt)>) -> (done: Result<
        (),
        ModelError,
    >)
        requires
            old(self).wf(),
            falsified.len() == old(self).households.len(),
        ensures
            final(self).wf(),
            done is Ok <==> old(self).param.attack.can_modify(old(self).households@, falsified@),
            done is Ok ==> final(self).is_distorted(old(self), falsified@),
            done is Err ==> done->Err_0 is InfectionError && *final(self) == *old(self),
    {
        let done = self.param.attack.modify_infected_devices(&mut self.households, falsified);
        proof {
            assert forall|p: int| 0 <= p < self.households@.len() implies {
                &&& (#[trigger] self.households@[p]).kind == old(self).households@[p].kind
                &&& self.households@[p].index == old(self).households@[p].index
                &&& self.households@[p].step == old(self).households@[p].step
                &&& self.households@[p].children == old(self).households@[p].children
                &&& self.households@[p].power_generation.day_profile == old(
                    self,
                ).households@[p].power_generation.day_profile
                &&& self.households@[p].power_generation.has_generation == old(
                    self,
                ).households@[p].power_generation.has_generation
                &&& self.households@[p].powerstate.same_history(old(self).households@[p].powerstate)
            } by {
                if done is Ok && old(self).param.attack.distorts(old(self).households@[p]) {
                    assert(self.households@[p].is_falsified(
                        old(self).households@[p],
                        falsified@[p],
                    ));
                }
            }
            Self::lemma_same_but_households_keeps_wf(self, old(self));
        }
        done
    }

    /// The figures that the netstation at the given place shows once it has
    /// summed up its households.
    pub open spec fn netstation_aggregate(&self, place: int) -> PowerTotals {
        aggregate(
            self.netstations@[place].powerstate.totals(),
            self.agents@,
            self.households@,
            self.netstations@[place].children@,
        )
    }

    /// The figures that the area at the given place shows once its netstations
    /// have summed up their households and it has summed up its netstations.
    pub open spec fn area_aggregate(&self, place: int) -> PowerTotals {
        let children = self.areas@[place].children@;
        if children.len() == 0 {
            self.areas@[place].powerstate.totals()
        } else {
            total_of(
                Seq::new(
                    children.len(),
                    |j: int|
                        self.netstation_aggregate(self.agents@[children[j] as int].position as int),
                ),
            )
        }
    }

    /// The figures that the root shows once every level below it has summed up
    /// its children and it has summed up the areas.
    pub open spec fn root_aggregate(&self) -> PowerTotals {
        let children = self.root.children@;
        if children.len() == 0 {
            self.root.powerstate.totals()
        } else {
            total_of(
                Seq::new(
                    children.len(),
                    |j: int| self.area_aggregate(self.agents@[children[j] as int].position as int),
                ),
            )
        }
    }

    /// Whether the sums of every netstation, every area and the root are
    /// within the range of `Watt`.
    pub open spec fn aggregation_fits(&self) -> bool {
        &&& forall|k: int|
            0 <= k < self.netstations@.len() ==> (#[trigger] self.netstation_aggregate(k)).fits()
        &&& forall|a: int| 0 <= a < self.areas@.len() ==> (#[trigger] self.area_aggregate(a)).fits()
        &&& self.root_aggregate().fits()
    }

    /// Whether every agent that has children shows the figure by figure sum of
    /// the figures that its children show.
    pub open spec fn is_aggregated(&self) -> bool {
        &&& forall|k: int|
            0 <= k < self.netstations@.len() ==> (
            #[trigger] self.netstations@[k]).powerstate.totals() == aggregate(
                self.netstations@[k].powerstate.totals(),
                self.agents@,
                self.households@,
                self.netstations@[k].children@,
            )
        &&& forall|a: int|
            0 <= a < self.areas@.len() ==> (#[trigger] self.areas@[a]).powerstate.totals()
                == aggregate(
                self.areas@[a].powerstate.totals(),
                self.agents@,
                self.netstations@,
                self.areas@[a].children@,
            )
        &&& self.root.powerstate.totals() == aggregate(
            self.root.powerstate.totals(),
            self.agents@,
            self.areas@,
            self.root.children@,
        )
    }

    /// Whether this model is `other` but for the power states of the root, the
    /// areas and the netstations, whose histories are as before.
    pub open spec fn same_but_upper_power(&self, other: &Model) -> bool {
        &&& self.param == other.param
        &&& self.graph == other.graph
        &&& self.agents == other.agents
        &&& self.reserve_power == other.reserve_power
        &&& self.households == other.households
        &&& self.root == (Root { powerstate: self.root.powerstate, ..other.root })
        &&& self.root.powerstate.same_history(other.root.powerstate)
        &&& self.areas@.len() == other.areas@.len()
        &&& forall|p: int|
            0 <= p < self.areas@.len() ==> #[trigger] self.areas@[p] == (Area {
                powerstate: self.areas@[p].powerstate,
                ..other.areas@[p]
            }) && self.areas@[p].powerstate.same_history(other.areas@[p].powerstate)
        &&& self.netstations@.len() == other.netstations@.len()
        &&& forall|p: int|
            0 <= p < self.netstations@.len() ==> #[trigger] self.netstations@[p] == (Netstation {
                powerstate: self.netstations@[p].powerstate,
                ..other.netstations@[p]
            }) && self.netstations@[p].powerstate.same_history(other.netstations@[p].powerstate)
    }

    /// A model that differs from a well-formed one only in the power states of
    /// the root, the areas and the netstations is well-formed.
    pub proof fn lemma_same_but_upper_power_keeps_wf(after: &Model, before: &Model)
        requires
            before.wf(),
            after.same_but_upper_power(before),
        ensures
            after.wf(),
    {
        assert forall|i: int| 0 <= i < after.agents@.len() implies after.entry_is_valid(i) by {
            assert(before.entry_is_valid(i));
        }
        assert forall|p: int| 0 <= p < after.areas@.len() implies children_of_kind(
            after.agents@,
            (#[trigger] after.areas@[p]).children@,
            AgentKind::Netstation,
        ) by {
            assert(after.areas@[p].children == before.areas@[p].children);
        }
        assert forall|p: int| 0 <= p < after.netstations@.len() implies children_of_kind(
            after.agents@,
            (#[trigger] after.netstations@[p]).children@,
            AgentKind::Household,
        ) by {
            assert(after.netstations@[p].children == before.netstations@[p].children);
        }
        assert forall|p: int| 0 <= p < after.areas@.len() implies (
        #[trigger] after.areas@[p]).powerstate.wf() by {
            assert(before.areas@[p].powerstate.wf());
        }
        assert forall|p: int| 0 <= p < after.netstations@.len() implies (
        #[trigger] after.netstations@[p]).powerstate.wf() by {
            assert(before.netstations@[p].powerstate.wf());
        }
    }

    /// In a well-formed model the children of an agent are found in the list
    /// of the kind that they are listed with in the table.
    pub proof fn lemma_children_in_level(&self, children: Seq<BaseUint>, kind: AgentKind)
        requires
            self.tree_wf(),
            children_of_kind(self.agents@, children, kind),
        ensures
            kind == AgentKind::Area ==> children_in_level(self.agents@, self.areas@.len(), children),
            kind == AgentKind::Netstation ==> children_in_level(
                self.agents@,
                self.netstations@.len(),
                children,
            ),
            kind == AgentKind::Household ==> children_in_level(
                self.agents@,
                self.households@.len(),
                children,
            ),
    {
        assert forall|j: int| 0 <= j < children.len() implies {
            &&& (#[trigger] children[j]) < self.agents@.len()
            &&& kind == AgentKind::Area ==> self.agents@[children[j] as int].position
                < self.areas@.len()
            &&& kind == AgentKind::Netstation ==> self.agents@[children[j] as int].position
                < self.netstations@.len()
            &&& kind == AgentKind::Household ==> self.agents@[children[j] as int].position
                < self.households@.len()
        } by {
            assert(self.entry_is_valid(children[j] as int));
        }
    }

    /// Whether this model is `before` after every netstation has summed up its
    /// households, then every area its netstations, then the root the areas:
    /// every agent with children shows the figure by figure sum of what its
    /// children show, and an agent without children shows what it did before.
    /// Households and histories are as before.
    pub open spec fn is_summed_from(&self, before: &Model) -> bool {
        &&& self.same_but_upper_power(before)
        &&& self.is_aggregated()
        &&& forall|k: int|
            0 <= k < before.netstations@.len() ==> (
            #[trigger] self.netstations@[k]).powerstate.totals() == before.netstation_aggregate(k)
        &&& forall|a: int|
            0 <= a < before.areas@.len() ==> (#[trigger] self.areas@[a]).powerstate.totals()
                == before.area_aggregate(a)
        &&& self.root.powerstate.totals() == before.root_aggregate()
    }

    /// Whether this model is `before` after the sums were made as far as they
    /// are within the range of `Watt`: up to the first netstation, or else the
    /// first area, whose sum is not, or up to the root if only its sum is not.
    /// The agents before that one show their sums, and that one and the agents
    /// after it are as they were.
    pub open spec fn is_summed_until_unfit(&self, before: &Model, netstations: int, areas: int) -> bool {
        &&& self.same_but_upper_power(before)
        &&& 0 <= netstations <= before.netstations@.len()
        &&& 0 <= areas <= before.areas@.len()
        &&& self.root == before.root
        &&& forall|p: int|
            0 <= p < netstations ==> before.netstation_aggregate(p).fits() && (
            #[trigger] self.netstations@[p]).powerstate.totals() == before.netstation_aggregate(p)
        &&& forall|p: int|
            netstations <= p < before.netstations@.len() ==> #[trigger] self.netstations@[p]
                == before.netstations@[p]
        &&& forall|p: int|
            0 <= p < areas ==> before.area_aggregate(p).fits() && (
            #[trigger] self.areas@[p]).powerstate.totals() == before.area_aggregate(p)
        &&& forall|p: int|
            areas <= p < before.areas@.len() ==> #[trigger] self.areas@[p] == before.areas@[p]
        &&& if netstations < before.netstations@.len() {
            areas == 0 && !before.netstation_aggregate(netstations).fits()
        } else if areas < before.areas@.len() {
            !before.area_aggregate(areas).fits()
        } else {
            !before.root_aggregate().fits()
        }
    }

    /// The level of the tree at which the sums stopped, where they were made up
    /// to the given numbers of netstations and areas.
    pub open spec fn unfit_level(&self, netstations: int, areas: int) -> Seq<char> {
        if netstations < self.netstations@.len() {
            "netstation"@
        } else if areas < self.areas@.len() {
            "area"@
        } else {
            "root"@
        }
    }

    /// Power state from children: every netstation sums up its households,
    /// then every area its netstations, then the root the areas. An agent
    /// without children keeps its figures. Households and histories are not
    /// touched.
    ///
    /// This succeeds exactly if every sum is within the range of `Watt`. It
    /// fails at the first agent whose sum is not: the agents before it show
    /// their sums, and that agent and the agents after it are as they were.
    /// The error is a parameter error about the level of that agent.
    pub fn power_state_from_children(&mut self) -> (done: Result<(), ModelError>)
        requires
            old(self).wf(),
        ensures
            final(self).wf(),
            final(self).same_but_upper_power(old(self)),
            done is Ok <==> old(self).aggregation_fits(),
            done is Ok ==> final(self).is_summed_from(old(self)),
            done is Err ==> done->Err_0 is ParamError && exists|netstations: int, areas: int|
                final(self).is_summed_until_unfit(old(self), netstations, areas)
                    && done->Err_0.is_param_error(
                    overflow_error_text(),
                    old(self).unfit_level(netstations, areas),
                ),
    {
        let mut k: usize = 0;
        while k < self.netstations.len()
            invariant
                k <= self.netstations.len(),
                old(self).wf(),
                self.same_but_upper_power(old(self)),
                self.root == old(self).root,
                self.areas == old(self).areas,
                forall|p: int|
                    0 <= p < k ==> (#[trigger] self.netstations@[p]).powerstate.totals() == old(
                        self,
                    ).netstation_aggregate(p) && old(self).netstation_aggregate(p).fits(),
                forall|p: int|
                    k <= p < self.netstations.len() ==> self.netstations@[p] == old(
                        self,
                    ).netstations@[p],
            decreases self.netstations.len() - k,
        {
            proof {
                old(self).lemma_children_in_level(
                    old(self).netstations@[k as int].children@,
                    AgentKind::Household,
                );
            }
            let done = self.netstations[k].calc_power_from_child(&self.agents, &self.households);
            if !done {
                proof {
                    assert(!old(self).netstation_aggregate(k as int).fits());
                    Self::lemma_same_but_upper_power_keeps_wf(self, old(self));
                }
                let error = overflow_error("netstation");
                proof {
                    assert(self.is_summed_until_unfit(old(self), k as int, 0)
                        && error.is_param_error(
                        overflow_error_text(),
                        old(self).unfit_level(k as int, 0),
                    ));
                }
                return Err(error);
            }
            k = k + 1;
        }
        let mut a: usize = 0;
        while a < self.areas.len()
            invariant
                a <= self.areas.len(),
                old(self).wf(),
                self.same_but_upper_power(old(self)),
                self.root == old(self).root,
                forall|p: int|
                    0 <= p < self.netstations@.len() ==> (
                    #[trigger] self.netstations@[p]).powerstate.totals() == old(
                        self,
                    ).netstation_aggregate(p) && old(self).netstation_aggregate(p).fits(),
                forall|p: int|
                    0 <= p < a ==> (#[trigger] self.areas@[p]).powerstate.totals() == old(
                        self,
                    ).area_aggregate(p) && old(self).area_aggregate(p).fits(),
                forall|p: int| a <= p < self.areas.len() ==> self.areas@[p] == old(self).areas@[p],
            decreases self.areas.len() - a,
        {
            proof {
                let children = old(self).areas@[a as int].children@;
                old(self).lemma_children_in_level(children, AgentKind::Netstation);
                assert(child_figures(self.agents@, self.netstations@, children) =~= Seq::new(
                    children.len(),
                    |j: int|
                        old(self).netstation_aggregate(
                            old(self).agents@[children[j] as int].position as int,
                        ),
                ));
            }
            let done = self.areas[a].calc_power_from_child(&self.agents, &self.netstations);
            if !done {
                proof {
                    assert(!old(self).area_aggregate(a as int).fits());
                    Self::lemma_same_but_upper_power_keeps_wf(self, old(self));
                }
                let error = overflow_error("area");
                proof {
                    assert(self.is_summed_until_unfit(
                        old(self),
                        old(self).netstations@.len() as int,
                        a as int,
                    ) && error.is_param_error(
                        overflow_error_text(),
                        old(self).unfit_level(old(self).netstations@.len() as int, a as int),
                    ));
                }
                return Err(error);
            }
            a = a + 1;
        }
        proof {
            let children = old(self).root.children@;
            old(self).lemma_children_in_level(children, AgentKind::Area);
            assert(child_figures(self.agents@, self.areas@, children) =~= Seq::new(
                children.len(),
                |j: int|
                    old(self).area_aggregate(old(self).agents@[children[j] as int].position as int),
            ));
        }
        let ghost summed = aggregate(
            old(self).root.powerstate.totals(),
            self.agents@,
            self.areas@,
            old(self).root.children@,
        );
        proof {
            assert(summed == old(self).root_aggregate());
        }
        let done = self.root.calc_power_from_child(&self.agents, &self.areas);
        proof {
            assert(done == old(self).root_aggregate().fits());
            Self::lemma_same_but_upper_power_keeps_wf(self, old(self));
        }
        if !done {
            let error = overflow_error("root");
            proof {
                assert(self.is_summed_until_unfit(
                    old(self),
                    old(self).netstations@.len() as int,
                    old(self).areas@.len() as int,
                ) && error.is_param_error(
                    overflow_error_text(),
                    old(self).unfit_level(
                        old(self).netstations@.len() as int,
                        old(self).areas@.len() as int,
                    ),
                ));
            }
            return Err(error);
        }
        proof {
            assert forall|p: int| 0 <= p < old(self).netstations@.len() implies (
            #[trigger] old(self).netstation_aggregate(p)).fits() by {
                assert(self.netstations@[p].powerstate.totals() == old(
                    self,
                ).netstation_aggregate(p));
            }
            assert forall|p: int| 0 <= p < old(self).areas@.len() implies (#[trigger] old(
                self,
            ).area_aggregate(p)).fits() by {
                assert(self.areas@[p].powerstate.totals() == old(self).area_aggregate(p));
            }
            assert forall|p: int| 0 <= p < self.netstations@.len() implies (
            #[trigger] self.netstations@[p]).powerstate.totals() == aggregate(
                self.netstations@[p].powerstate.totals(),
                self.agents@,
                self.households@,
                self.netstations@[p].children@,
            ) by {
                assert(self.netstations@[p].children == old(self).netstations@[p].children);
                assert(self.netstations@[p].powerstate.totals() == old(
                    self,
                ).netstation_aggregate(p));
            }
            assert forall|p: int| 0 <= p < self.areas@.len() implies (
            #[trigger] self.areas@[p]).powerstate.totals() == aggregate(
                self.areas@[p].powerstate.totals(),
                self.agents@,
                self.netstations@,
                self.areas@[p].children@,
            ) by {
                let children = old(self).areas@[p].children@;
                assert(self.areas@[p].children == old(self).areas@[p].children);
                old(self).lemma_children_in_level(children, AgentKind::Netstation);
                assert(child_figures(self.agents@, self.netstations@, children) =~= Seq::new(
                    children.len(),
                    |j: int|
                        old(self).netstation_aggregate(
                            old(self).agents@[children[j] as int].position as int,
                        ),
                ));
            }
        }
        Ok(())
    }

    /// Whether this model is `before` after the reserve has taken the share
    /// `able` of the power error of the root: the usage of the reserve has grown
    /// by the share and the power error of the root is lower by it. Nothing
    /// else has changed.
    pub open spec fn is_compensated(&self, before: &Model, able: Watt) -> bool {
        &&& able.0 == before.reserve_power.compensation(before.root.powerstate.power_error)
        &&& self.reserve_power == (ReservePower {
            current_usage: Watt((before.reserve_power.current_usage.0 + able.0) as i64),
            ..before.reserve_power
        })
        &&& self.root.powerstate.power_error.0 == before.root.powerstate.power_error.0 - able.0
        &&& self.root.powerstate == (PowerState {
            power_error: self.root.powerstate.power_error,
            ..before.root.powerstate
        })
        &&& self.root == (Root { powerstate: self.root.powerstate, ..before.root })
        &&& self.param == before.param
        &&& self.graph == before.graph
        &&& self.agents == before.agents
        &&& self.areas == before.areas
        &&& self.netstations == before.netstations
        &&& self.households == before.households
    }

    /// Try to compensate for the power mismatch on the root node: the reserve
    /// takes its share of the power error of the root, which is lowered by
    /// that share. Gives the share.
    pub fn grid_frequency_compensation(&mut self) -> (able: Watt)
        requires
            old(self).wf(),
        ensures
            final(self).wf(),
            final(self).is_compensated(old(self), able),
    {
        let power_error = self.root.powerstate.power_error;
        let able = self.reserve_power.compensate(power_error);
        self.root.powerstate.power_error = Watt(self.root.powerstate.power_error.0 - able.0);
        proof {
            assert forall|i: int| 0 <= i < self.agents@.len() implies self.entry_is_valid(i) by {
                assert(old(self).entry_is_valid(i));
            }
        }
        able
    }

    /// Whether this model is `before` after the impact of the power mismatch:
    /// the frequency at the root has moved with the power error of the root
    /// relative to its load and the bulk consumption, and every netstation has
    /// taken the voltage that is given for it. The values that were current
    /// are at the end of the histories. Nothing else has changed.
    pub open spec fn has_felt_mismatch(&self, before: &Model, volts: Seq<mVolt>) -> bool {
        &&& self.param == before.param
        &&& self.graph == before.graph
        &&& self.agents == before.agents
        &&& self.reserve_power == before.reserve_power
        &&& self.areas == before.areas
        &&& self.households == before.households
        &&& self.root == (Root { freq_state: self.root.freq_state, ..before.root })
        &&& self.root.freq_state.is_updated(
            before.root.freq_state,
            before.root.freq_state.spec_power_mismatch(
                before.root.powerstate.power_used,
                before.root.powerstate.power_error,
                before.param.grid.bulk_consumption,
            ),
        )
        &&& self.netstations@.len() == before.netstations@.len()
        &&& forall|k: int|
            0 <= k < before.netstations@.len() ==> #[trigger] self.netstations@[k] == (Netstation {
                volt_state: self.netstations@[k].volt_state,
                ..before.netstations@[k]
            }) && self.netstations@[k].volt_state.is_updated(
                before.netstations@[k].volt_state,
                volts[k],
            )
    }

    /// Impact from power mismatch: the frequency at the root moves with the
    /// power error of the root relative to its load and the bulk consumption,
    /// and every netstation takes the voltage that is given for it, in the
    /// order of the netstations. The values that were current go to the
    /// histories.
    pub fn power_mismatch_impact(&mut self, volts: &Vec<mVolt>)
        requires
            old(self).wf(),
            volts.len() == old(self).netstations.len(),
        ensures
            final(self).wf(),
            final(self).has_felt_mismatch(old(self), volts@),
    {
        let new_freq = self.root.freq_state.power_mismatch(
            &self.root.powerstate.power_used,
            &self.root.powerstate.power_error,
            &self.param.grid.bulk_consumption,
        );
        self.root.freq_state.update(new_freq);
        let mut k: usize = 0;
        while k < self.netstations.len()
            invariant
                k <= self.netstations.len(),
                volts.len() == self.netstations.len(),
                self.netstations.len() == old(self).netstations.len(),
                self.param == old(self).param,
                self.graph == old(self).graph,
                self.agents == old(self).agents,
                self.reserve_power == old(self).reserve_power,
                self.areas == old(self).areas,
                self.households == old(self).households,
                self.root == (Root { freq_state: self.root.freq_state, ..old(self).root }),
                self.root.freq_state.is_updated(
                    old(self).root.freq_state,
                    old(self).root.freq_state.spec_power_mismatch(
                        old(self).root.powerstate.power_used,
                        old(self).root.powerstate.power_error,
                        old(self).param.grid.bulk_consumption,
                    ),
                ),
                forall|p: int|
                    0 <= p < k ==> #[trigger] self.netstations@[p] == (Netstation {
                        volt_state: self.netstations@[p].volt_state,
                        ..old(self).netstations@[p]
                    }) && self.netstations@[p].volt_state.is_updated(
                        old(self).netstations@[p].volt_state,
                        volts@[p],
                    ),
                forall|p: int|
                    k <= p < self.netstations.len() ==> self.netstations@[p] == old(
                        self,
                    ).netstations@[p],
            decreases self.netstations.len() - k,
        {
            let volt = volts[k];
            self.netstations[k].volt_state.update(volt);
            k = k + 1;
        }
        proof {
            Self::lemma_same_tree_keeps_wf(self, old(self));
        }
    }

    /// Whether the two models have the same table, reserve and households, and
    /// agents that have the same index, children and power state each.
    pub open spec fn same_tree(&self, other: &Model) -> bool {
        &&& self.agents == other.agents
        &&& self.reserve_power == other.reserve_power
        &&& self.households == other.households
        &&& self.root.index == other.root.index
        &&& self.root.children == other.root.children
        &&& self.root.powerstate == other.root.powerstate
        &&& self.areas@.len() == other.areas@.len()
        &&& forall|p: int|
            0 <= p < self.areas@.len() ==> (#[trigger] self.areas@[p]).index
                == other.areas@[p].index && self.areas@[p].children == other.areas@[p].children
                && self.areas@[p].powerstate == other.areas@[p].powerstate
        &&& self.netstations@.len() == other.netstations@.len()
        &&& forall|p: int|
            0 <= p < self.netstations@.len() ==> (#[trigger] self.netstations@[p]).index
                == other.netstations@[p].index && self.netstations@[p].children
                == other.netstations@[p].children && self.netstations@[p].powerstate
                == other.netstations@[p].powerstate
    }

    /// A model that has the tree, the power states, the reserve and the
    /// households of a well-formed one is well-formed.
    pub proof fn lemma_same_tree_keeps_wf(after: &Model, before: &Model)
        requires
            before.wf(),
            after.same_tree(before),
        ensures
            after.wf(),
    {
        assert forall|i: int| 0 <= i < after.agents@.len() implies after.entry_is_valid(i) by {
            assert(before.entry_is_valid(i));
        }
        assert forall|p: int| 0 <= p < after.areas@.len() implies children_of_kind(
            after.agents@,
            (#[trigger] after.areas@[p]).children@,
            AgentKind::Netstation,
        ) by {
            assert(after.areas@[p].children == before.areas@[p].children);
        }
        assert forall|p: int| 0 <= p < after.netstations@.len() implies children_of_kind(
            after.agents@,
            (#[trigger] after.netstations@[p]).children@,
            AgentKind::Household,
        ) by {
            assert(after.netstations@[p].children == before.netstations@[p].children);
        }
        assert forall|p: int| 0 <= p < after.areas@.len() implies (
        #[trigger] after.areas@[p]).powerstate.wf() by {
            assert(before.areas@[p].powerstate.wf());
        }
        assert forall|p: int| 0 <= p < after.netstations@.len() implies (
        #[trigger] after.netstations@[p]).powerstate.wf() by {
            assert(before.netstations@[p].powerstate.wf());
        }
    }

    /// The infection states of the units of all households, in the order of
    /// the households.
    pub fn infection_states(&self) -> (states: Vec<InfectionState>)
        ensures
            states@ == infection_states(self.households@),
    {
        let mut states: Vec<InfectionState> = Vec::new();
        let mut h: usize = 0;
        while h < self.households.len()
            invariant
                h <= self.households.len(),
                states@ == infection_states(self.households@.take(h as int)),
            decreases self.households.len() - h,
        {
            states.push(self.households[h].power_generation.infection_state);
            proof {
                assert(states@ =~= infection_states(self.households@.take(h + 1)));
            }
            h = h + 1;
        }
        proof {
            assert(self.households@.take(self.households.len() as int) =~= self.households@);
        }
        states
    }

    /// Whether the summary tells how the model stands: the infection
    /// statistics of all households, the frequency state and the power state of
    /// the root, and the reserve.
    pub open spec fn is_summed_up_by(&self, information: GridInformation) -> bool {
        &&& information.infection_statistics == InfectionStatistics::of(
            infection_states(self.households@),
        )
        &&& information.freq_state.now == self.root.freq_state.now
        &&& information.freq_state.history@ == self.root.freq_state.history@
        &&& information.freq_state.history_len == self.root.freq_state.history_len
        &&& information.power_state.same_as(self.root.powerstate)
        &&& information.reserve_power == self.reserve_power
    }

    /// Assembles the summary of the tick from the current state of the model.
    pub fn grid_information(&self) -> (information: GridInformation)
        requires
            self.wf(),
        ensures
            self.is_summed_up_by(information),
    {
        let states = self.infection_states();
        GridInformation {
            infection_statistics: InfectionStatistics::new(states.as_slice()),
            freq_state: self.root.freq_state.clone(),
            power_state: self.root.powerstate.clone(),
            reserve_power: self.reserve_power,
        }
    }

    /// The state for which the voltage monitor of the netstation at the given
    /// place raises a warning when it sees the current voltage, if it raises
    /// one.
    pub open spec fn voltage_warned(&self, place: int) -> Option<GridBoundaryState> {
        self.netstations@[place].volt_boundary@.warned_state(
            self.netstations@[place].volt_state.now,
        )
    }

    /// The places of those among the first `n` netstations whose voltage
    /// monitor raises a warning that is critical, or one that is not, in
    /// ascending order.
    pub open spec fn warned_places(&self, n: int, critical: bool) -> Seq<int>
        decreases n,
    {
        if n <= 0 {
            Seq::empty()
        } else {
            let rest = self.warned_places(n - 1, critical);
            match self.voltage_warned(n - 1) {
                Some(state) => if state.spec_is_critical() == critical {
                    rest.push(n - 1)
                } else {
                    rest
                },
                None => rest,
            }
        }
    }

    /// Whether the warning is the one that the voltage monitor of the
    /// netstation at the given place raises: it has the state that the monitor
    /// changes to and what the netstation adds to it.
    pub open spec fn is_voltage_warning(&self, warning: GridWarning, place: int) -> bool {
        &&& self.voltage_warned(place) is Some
        &&& self.netstations@[place].has_enriched(
            warning,
            self.voltage_warned(place)->0,
            InfectionStatistics::of(
                child_infection_states(
                    self.agents@,
                    self.households@,
                    self.netstations@[place].children@,
                ),
            ),
        )
    }

    /// Whether the warnings are those that the voltage monitors of the first
    /// `n` netstations raise, critical ones or the others, in the order of the
    /// netstations.
    pub open spec fn are_voltage_warnings(
        &self,
        warnings: Seq<GridWarning>,
        n: int,
        critical: bool,
    ) -> bool {
        let places = self.warned_places(n, critical);
        &&& warnings.len() == places.len()
        &&& forall|j: int|
            0 <= j < warnings.len() ==> self.is_voltage_warning(#[trigger] warnings[j], places[j])
    }

    /// The warnings of the first `n + 1` netstations are those of the first
    /// `n`, followed by the warning of the netstation at place `n` if it
    /// raises one of the kind in question.
    pub proof fn lemma_voltage_warnings_step(
        &self,
        before: Seq<GridWarning>,
        after: Seq<GridWarning>,
        n: int,
        critical: bool,
    )
        requires
            0 <= n < self.netstations@.len(),
            self.are_voltage_warnings(before, n, critical),
            match self.voltage_warned(n) {
                Some(state) => if state.spec_is_critical() == critical {
                    &&& after.len() == before.len() + 1
                    &&& after.drop_last() == before
                    &&& self.is_voltage_warning(after.last(), n)
                } else {
                    after == before
                },
                None => after == before,
            },
        ensures
            self.are_voltage_warnings(after, n + 1, critical),
    {
        let places = self.warned_places(n + 1, critical);
        let shorter = self.warned_places(n, critical);
        assert(shorter == self.warned_places(n + 1 - 1, critical));
        let adds = self.voltage_warned(n) is Some && self.voltage_warned(n)->0.spec_is_critical()
            == critical;
        assert(places == if adds {
            shorter.push(n)
        } else {
            shorter
        });
        assert forall|j: int| 0 <= j < after.len() implies self.is_voltage_warning(
            #[trigger] after[j],
            places[j],
        ) by {
            if j < before.len() {
                assert(before[j] == after[j]) by {
                    if adds {
                        assert(after.drop_last()[j] == after[j]);
                    }
                }
                assert(self.is_voltage_warning(before[j], shorter[j]));
                assert(places[j] == shorter[j]);
            } else {
                assert(adds);
                assert(places[j] == n);
                assert(after[j] == after.last());
            }
        }
    }

    /// Whether this model is `before` after the boundary checks that the
    /// report tells about: the frequency monitor at the root has seen the
    /// frequency and the voltage monitor at every netstation the voltage. The
    /// report holds the warning of the frequency monitor, if it raised one, and
    /// the warnings of the voltage monitors, sorted into critical ones and
    /// others. It asks to stop exactly if the model is set to stop on frequency
    /// errors and the frequency monitor has raised a critical warning. Nothing
    /// but the monitors has changed.
    pub open spec fn is_checked(&self, before: &Model, report: BoundaryReport) -> bool {
        &&& self.param == before.param
        &&& self.graph == before.graph
        &&& self.agents == before.agents
        &&& self.reserve_power == before.reserve_power
        &&& self.areas == before.areas
        &&& self.households == before.households
        &&& self.root == (Root { freq_boundary: self.root.freq_boundary, ..before.root })
        &&& self.root.freq_boundary@ == before.root.freq_boundary@.after(before.root.freq_state.now)
        &&& self.netstations@.len() == before.netstations@.len()
        &&& forall|k: int|
            0 <= k < before.netstations@.len() ==> #[trigger] self.netstations@[k] == (Netstation {
                volt_boundary: self.netstations@[k].volt_boundary,
                ..before.netstations@[k]
            }) && self.netstations@[k].volt_boundary@
                == before.netstations@[k].volt_boundary@.after(
                before.netstations@[k].volt_state.now,
            )
        &&& match before.root.freq_boundary@.warned_state(before.root.freq_state.now) {
            Some(state) => report.frequency is Some && before.root.has_enriched(
                report.frequency->0,
                state,
            ),
            None => report.frequency is None,
        }
        &&& before.are_voltage_warnings(
            report.voltage_errors@,
            before.netstations@.len() as int,
            true,
        )
        &&& before.are_voltage_warnings(
            report.voltage_warnings@,
            before.netstations@.len() as int,
            false,
        )
        &&& report.need_to_stop == (before.param.stop_on_freq_error && report.frequency is Some
            && report.frequency->0.critical)
    }

    /// Boundary check: the frequency monitor at the root sees the current
    /// frequency and the voltage monitor at every netstation the current
    /// voltage. The warnings of the voltage monitors are sorted into critical
    /// ones and others. The run has to stop if the model is set to stop on
    /// frequency errors and the frequency monitor has raised a critical
    /// warning.
    pub fn boundary_check(&mut self) -> (report: BoundaryReport)
        requires
            old(self).wf(),
        ensures
            final(self).wf(),
            final(self).is_checked(old(self), report),
    {
        let frequency = self.root.boundary_check(&self.agents, &self.households);
        let critical_frequency = match &frequency {
            Some(warning) => warning.critical,
            None => false,
        };
        let mut voltage_errors: Vec<GridWarning> = Vec::new();
        let mut voltage_warnings: Vec<GridWarning> = Vec::new();
        let mut k: usize = 0;
        while k < self.netstations.len()
            invariant
                k <= self.netstations.len(),
                old(self).wf(),
                self.netstations.len() == old(self).netstations.len(),
                self.param == old(self).param,
                self.graph == old(self).graph,
                self.agents == old(self).agents,
                self.reserve_power == old(self).reserve_power,
                self.areas == old(self).areas,
                self.households == old(self).households,
                self.root == (Root { freq_boundary: self.root.freq_boundary, ..old(self).root }),
                self.root.freq_boundary@ == old(self).root.freq_boundary@.after(
                    old(self).root.freq_state.now,
                ),
                forall|p: int|
                    0 <= p < k ==> #[trigger] self.netstations@[p] == (Netstation {
                        volt_boundary: self.netstations@[p].volt_boundary,
                        ..old(self).netstations@[p]
                    }) && self.netstations@[p].volt_boundary@ == old(
                        self,
                    ).netstations@[p].volt_boundary@.after(old(self).netstations@[p].volt_state.now),
                forall|p: int|
                    k <= p < self.netstations.len() ==> self.netstations@[p] == old(
                        self,
                    ).netstations@[p],
                old(self).are_voltage_warnings(voltage_errors@, k as int, true),
                old(self).are_voltage_warnings(voltage_warnings@, k as int, false),
            decreases self.netstations.len() - k,
        {
            proof {
                old(self).lemma_children_in_level(
                    old(self).netstations@[k as int].children@,
                    AgentKind::Household,
                );
            }
            let ghost errors_before = voltage_errors@;
            let ghost warnings_before = voltage_warnings@;
            match self.netstations[k].boundary_check(&self.agents, &self.households) {
                Some(warning) => {
                    if warning.critical {
                        voltage_errors.push(warning);
                        proof {
                            assert(voltage_errors@.drop_last() =~= errors_before);
                        }
                    } else {
                        voltage_warnings.push(warning);
                        proof {
                            assert(voltage_warnings@.drop_last() =~= warnings_before);
                        }
                    }
                },
                None => {},
            }
            proof {
                old(self).lemma_voltage_warnings_step(
                    errors_before,
                    voltage_errors@,
                    k as int,
                    true,
                );
                old(self).lemma_voltage_warnings_step(
                    warnings_before,
                    voltage_warnings@,
                    k as int,
                    false,
                );
            }
            k = k + 1;
        }
        proof {
            Self::lemma_same_tree_keeps_wf(self, old(self));
        }
        BoundaryReport {
            frequency,
            voltage_errors,
            voltage_warnings,
            need_to_stop: self.param.stop_on_freq_error && critical_frequency,
        }
    }

    /// Update the history of the agents: every agent puts its current power
    /// figures on record.
    pub fn update_history(&mut self)
        requires
            old(self).wf(),
        ensures
            final(self).wf(),
            final(self).param == old(self).param,
            final(self).graph == old(self).graph,
            final(self).agents == old(self).agents,
            final(self).reserve_power == old(self).reserve_power,
            final(self).root == (Root { powerstate: final(self).root.powerstate, ..old(self).root }),
            final(self).root.powerstate.is_recorded(old(self).root.powerstate),
            final(self).areas@.len() == old(self).areas@.len(),
            forall|p: int|
                0 <= p < old(self).areas@.len() ==> #[trigger] final(self).areas@[p] == (Area {
                    powerstate: final(self).areas@[p].powerstate,
                    ..old(self).areas@[p]
                }) && final(self).areas@[p].powerstate.is_recorded(old(self).areas@[p].powerstate),
            final(self).netstations@.len() == old(self).netstations@.len(),
            forall|p: int|
                0 <= p < old(self).netstations@.len() ==> #[trigger] final(self).netstations@[p]
                    == (Netstation {
                    powerstate: final(self).netstations@[p].powerstate,
                    ..old(self).netstations@[p]
                }) && final(self).netstations@[p].powerstate.is_recorded(
                    old(self).netstations@[p].powerstate,
                ),
            final(self).households@.len() == old(self).households@.len(),
            forall|p: int|
                0 <= p < old(self).households@.len() ==> #[trigger] final(self).households@[p]
                    == (Household {
                    powerstate: final(self).households@[p].powerstate,
                    ..old(self).households@[p]
                }) && final(self).households@[p].powerstate.is_recorded(
                    old(self).households@[p].powerstate,
                ),
    {
        self.root.powerstate.update_history();
        let mut a: usize = 0;
        while a < self.areas.len()
            invariant
                a <= self.areas.len(),
                old(self).wf(),
                self.areas.len() == old(self).areas.len(),
                self.param == old(self).param,
                self.graph == old(self).graph,
                self.agents == old(self).agents,
                self.reserve_power == old(self).reserve_power,
                self.netstations == old(self).netstations,
                self.households == old(self).households,
                self.root == (Root { powerstate: self.root.powerstate, ..old(self).root }),
                self.root.powerstate.is_recorded(old(self).root.powerstate),
                self.root.powerstate.wf(),
                forall|p: int|
                    0 <= p < a ==> #[trigger] self.areas@[p] == (Area {
                        powerstate: self.areas@[p].powerstate,
                        ..old(self).areas@[p]
                    }) && self.areas@[p].powerstate.is_recorded(old(self).areas@[p].powerstate)
                        && self.areas@[p].powerstate.wf(),
                forall|p: int| a <= p < self.areas.len() ==> self.areas@[p] == old(self).areas@[p],
            decreases self.areas.len() - a,
        {
            assert(old(self).areas@[a as int].powerstate.wf());
            self.areas[a].powerstate.update_history();
            a = a + 1;
        }
        let mut n: usize = 0;
        while n < self.netstations.len()
            invariant
                n <= self.netstations.len(),
                old(self).wf(),
                self.netstations.len() == old(self).netstations.len(),
                self.param == old(self).param,
                self.graph == old(self).graph,
                self.agents == old(self).agents,
                self.reserve_power == old(self).reserve_power,
                self.households == old(self).households,
                self.root == (Root { powerstate: self.root.powerstate, ..old(self).root }),
                self.root.powerstate.is_recorded(old(self).root.powerstate),
                self.root.powerstate.wf(),
                self.areas@.len() == old(self).areas@.len(),
                forall|p: int|
                    0 <= p < self.areas@.len() ==> #[trigger] self.areas@[p] == (Area {
                        powerstate: self.areas@[p].powerstate,
                        ..old(self).areas@[p]
                    }) && self.areas@[p].powerstate.is_recorded(old(self).areas@[p].powerstate)
                        && self.areas@[p].powerstate.wf(),
                forall|p: int|
                    0 <= p < n ==> #[trigger] self.netstations@[p] == (Netstation {
                        powerstate: self.netstations@[p].powerstate,
                        ..old(self).netstations@[p]
                    }) && self.netstations@[p].powerstate.is_recorded(
                        old(self).netstations@[p].powerstate,
                    ) && self.netstations@[p].powerstate.wf(),
                forall|p: int|
                    n <= p < self.netstations.len() ==> self.netstations@[p] == old(
                        self,
                    ).netstations@[p],
            decreases self.netstations.len() - n,
        {
            assert(old(self).netstations@[n as int].powerstate.wf());
            self.netstations[n].powerstate.update_history();
            n = n + 1;
        }
        let mut h: usize = 0;
        while h < self.households.len()
            invariant
                h <= self.households.len(),
                old(self).wf(),
                self.households.len() == old(self).households.len(),
                self.param == old(self).param,
                self.graph == old(self).graph,
                self.agents == old(self).agents,
                self.reserve_power == old(self).reserve_power,
                self.root == (Root { powerstate: self.root.powerstate, ..old(self).root }),
                self.root.powerstate.is_recorded(old(self).root.powerstate),
                self.root.powerstate.wf(),
                self.areas@.len() == old(self).areas@.len(),
                forall|p: int|
                    0 <= p < self.areas@.len() ==> #[trigger] self.areas@[p] == (Area {
                        powerstate: self.areas@[p].powerstate,
                        ..old(self).areas@[p]
                    }) && self.areas@[p].powerstate.is_recorded(old(self).areas@[p].powerstate)
                        && self.areas@[p].powerstate.wf(),
                self.netstations@.len() == old(self).netstations@.len(),
                forall|p: int|
                    0 <= p < self.netstations@.len() ==> #[trigger] self.netstations@[p] == (
                    Netstation {
                        powerstate: self.netstations@[p].powerstate,
                        ..old(self).netstations@[p]
                    }) && self.netstations@[p].powerstate.is_recorded(
                        old(self).netstations@[p].powerstate,
                    ) && self.netstations@[p].powerstate.wf(),
                forall|p: int|
                    0 <= p < h ==> #[trigger] self.households@[p] == (Household {
                        powerstate: self.households@[p].powerstate,
                        ..old(self).households@[p]
                    }) && self.households@[p].powerstate.is_recorded(
                        old(self).households@[p].powerstate,
                    ) && self.households@[p].powerstate.wf(),
                forall|p: int|
                    h <= p < self.households.len() ==> self.households@[p] == old(
                        self,
                    ).households@[p],
            decreases self.households.len() - h,
        {
            assert(old(self).households@[h as int].powerstate.wf());
            self.households[h].powerstate.update_history();
            h = h + 1;
        }
        proof {
            assert forall|i: int| 0 <= i < self.agents@.len() implies self.entry_is_valid(i) by {
                assert(old(self).entry_is_valid(i));
            }
            assert forall|p: int| 0 <= p < self.areas@.len() implies children_of_kind(
                self.agents@,
                (#[trigger] self.areas@[p]).children@,
                AgentKind::Netstation,
            ) by {
                assert(self.areas@[p].children == old(self).areas@[p].children);
            }
            assert forall|p: int| 0 <= p < self.netstations@.len() implies children_of_kind(
                self.agents@,
                (#[trigger] self.netstations@[p]).children@,
                AgentKind::Household,
            ) by {
                assert(self.netstations@[p].children == old(self).netstations@[p].children);
            }
            assert forall|p: int| 0 <= p < self.households@.len() implies (
            #[trigger] self.households@[p]).children@.len() == 0 by {
                assert(self.households@[p].children == old(self).households@[p].children);
            }
            assert forall|p: int| 0 <= p < self.households@.len() implies (
            #[trigger] self.households@[p]).power_generation.wf() by {
                assert(old(self).households@[p].power_generation.wf());
            }
        }
    }

    /// The indices of the agents of the given kind, in ascending order.
    pub fn subagent(agentkind: AgentKind, agents: &AgentList) -> (indices: Vec<BaseUint>)
        requires
            agents.len() <= u32::MAX,
        ensures
            indices@ == indices_of_kind(agents@, agentkind, agents@.len() as int),
    {
        let mut indices: Vec<BaseUint> = Vec::new();
        let mut i: usize = 0;
        while i < agents.len()
            invariant
                i <= agents.len() <= u32::MAX,
                indices@ == indices_of_kind(agents@, agentkind, i as int),
            decreases agents.len() - i,
        {
            if agents[i].kind == agentkind {
                indices.push(i as BaseUint);
            }
            i = i + 1;
        }
        indices
    }

    /// Stamping a step on every agent keeps the model well-formed.
    pub proof fn lemma_same_but_step_keeps_wf(after: &Model, before: &Model, step: Steps)
        requires
            before.wf(),
            after.same_but_step(before, step),
        ensures
            after.wf(),
    {
        assert forall|i: int| 0 <= i < after.agents@.len() implies after.entry_is_valid(i) by {
            assert(before.entry_is_valid(i));
        }
        assert forall|p: int| 0 <= p < after.areas@.len() implies children_of_kind(
            after.agents@,
            (#[trigger] after.areas@[p]).children@,
            AgentKind::Netstation,
        ) by {
            assert(after.areas@[p].children == before.areas@[p].children);
        }
        assert forall|p: int| 0 <= p < after.netstations@.len() implies children_of_kind(
            after.agents@,
            (#[trigger] after.netstations@[p]).children@,
            AgentKind::Household,
        ) by {
            assert(after.netstations@[p].children == before.netstations@[p].children);
        }
        assert forall|p: int| 0 <= p < after.households@.len() implies (
        #[trigger] after.households@[p]).children@.len() == 0 by {
            assert(after.households@[p].children == before.households@[p].children);
        }
        assert forall|p: int| 0 <= p < after.households@.len() implies (
        #[trigger] after.households@[p]).power_generation.wf() by {
            assert(after.households@[p].power_generation
                == before.households@[p].power_generation);
        }
        assert forall|p: int| 0 <= p < after.areas@.len() implies (
        #[trigger] after.areas@[p]).powerstate.wf() by {
            assert(before.areas@[p].powerstate.wf());
        }
        assert forall|p: int| 0 <= p < after.netstations@.len() implies (
        #[trigger] after.netstations@[p]).powerstate.wf() by {
            assert(before.netstations@[p].powerstate.wf());
        }
        assert forall|p: int| 0 <= p < after.households@.len() implies (
        #[trigger] after.households@[p]).powerstate.wf() by {
            assert(before.households@[p].powerstate.wf());
        }
    }
}

/// The indices below `n` at which the table lists an agent of the given kind,
/// in ascending order.
pub open spec fn indices_of_kind(agents: Seq<AgentRef>, kind: AgentKind, n: int) -> Seq<BaseUint>
    decreases n,
{
    if n <= 0 {
        Seq::empty()
    } else if agents[n - 1].kind == kind {
        indices_of_kind(agents, kind, n - 1).push((n - 1) as BaseUint)
    } else {
        indices_of_kind(agents, kind, n - 1)
    }
}

/// What the error for a sum of power figures beyond the range of `Watt` says.
pub open spec fn overflow_error_text() -> Seq<char> {
    "the sum of the power figures of the children leaves the watt range"@
}

/// The error for a sum of power figures that leaves the range of `Watt`: a
/// parameter error about the level of the tree at which the sum was made.
fn overflow_error(level: &str) -> (error: ModelError)
    ensures
        error.is_param_error(overflow_error_text(), level@),
{
    ModelError::ParamError {
        msg: String::from_str("the sum of the power figures of the children leaves the watt range"),
        context: String::from_str(level),
    }
}

} // verus!
