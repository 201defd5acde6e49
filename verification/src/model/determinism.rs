//! A run is determined by the model it starts from and the values it is
//! handed: two runs that start alike and are handed the same take the same
//! course.
//!
//! Two values are alike, here, when their plain fields are equal and their
//! lists hold the same entries in the same order.
use crate::agent::{
    child_figures, child_infection_states, AgentKind, AgentRef, Area, Household, Netstation, Root,
};
use crate::attack::{infection_states, Attack};
use crate::grid::{FreqState, Grid, GridWarning, VoltState};
use crate::model::builder::{hangs_under, lemma_count_kind_of_prefix};
use crate::model::layout::{kinds_of, planned_kinds, planned_units, same_unit, AreaPlan};
use crate::model::run::{StepAction, StepEvent, StepPhase, StepRun};
use crate::model::step::{BoundaryReport, GridInformation};
use crate::model::{Model, ModelParameters};
use crate::util::{mVolt, Steps, Watt};
use vstd::prelude::*;

verus! {

/// Whether the two frequency states are alike.
pub open spec fn alike_freq(a: FreqState, b: FreqState) -> bool {
    a.now == b.now && a.history@ == b.history@ && a.history_len == b.history_len
}

/// Whether the two voltage states are alike.
pub open spec fn alike_volt(a: VoltState, b: VoltState) -> bool {
    a.now == b.now && a.history@ == b.history@ && a.history_len == b.history_len
}

/// Whether the two roots are alike.
pub open spec fn alike_root(a: Root, b: Root) -> bool {
    &&& a.kind == b.kind
    &&& a.index == b.index
    &&& a.step == b.step
    &&& a.children@ == b.children@
    &&& a.powerstate.same_as(b.powerstate)
    &&& a.freq_boundary@ == b.freq_boundary@
    &&& alike_freq(a.freq_state, b.freq_state)
}

/// Whether the two areas are alike.
pub open spec fn alike_area(a: Area, b: Area) -> bool {
    &&& a.kind == b.kind
    &&& a.index == b.index
    &&& a.step == b.step
    &&& a.children@ == b.children@
    &&& a.powerstate.same_as(b.powerstate)
}

/// Whether the two netstations are alike.
pub open spec fn alike_netstation(a: Netstation, b: Netstation) -> bool {
    &&& a.kind == b.kind
    &&& a.index == b.index
    &&& a.step == b.step
    &&& a.children@ == b.children@
    &&& a.powerstate.same_as(b.powerstate)
    &&& a.volt_boundary@ == b.volt_boundary@
    &&& alike_volt(a.volt_state, b.volt_state)
}

/// Whether the two households are alike.
pub open spec fn alike_household(a: Household, b: Household) -> bool {
    &&& a.kind == b.kind
    &&& a.index == b.index
    &&& a.step == b.step
    &&& a.children@ == b.children@
    &&& a.powerstate.same_as(b.powerstate)
    &&& same_unit(a.power_generation, b.power_generation)
}

/// Whether the two attacks are alike.
pub open spec fn alike_attack(a: Attack, b: Attack) -> bool {
    &&& a.infection_start == b.infection_start
    &&& a.infection_stop == b.infection_stop
    &&& a.patch_start == b.patch_start
    &&& a.patch_stop == b.patch_stop
    &&& a.attack_behaviour@ == b.attack_behaviour@
    &&& a.current_attack == b.current_attack
}

/// Whether the two sets of grid parameters are alike.
pub open spec fn alike_grid(a: Grid, b: Grid) -> bool {
    &&& a.energy_storage == b.energy_storage
    &&& a.max_gen_inc_tick == b.max_gen_inc_tick
    &&& a.bulk_consumption == b.bulk_consumption
    &&& a.volt_boundary@ == b.volt_boundary@
    &&& a.freq_boundary@ == b.freq_boundary@
}

/// Whether the two sets of model parameters are alike.
pub open spec fn alike_param(a: ModelParameters, b: ModelParameters) -> bool {
    &&& a.name@ == b.name@
    &&& a.steps == b.steps
    &&& a.enable_output == b.enable_output
    &&& a.stop_on_freq_error == b.stop_on_freq_error
    &&& alike_attack(a.attack, b.attack)
    &&& alike_grid(a.grid, b.grid)
}

/// Whether the two models are alike.
pub open spec fn alike(a: &Model, b: &Model) -> bool {
    &&& alike_param(a.param, b.param)
    &&& a.graph.nodes() == b.graph.nodes()
    &&& a.graph.edges() == b.graph.edges()
    &&& a.agents@ == b.agents@
    &&& a.reserve_power == b.reserve_power
    &&& alike_root(a.root, b.root)
    &&& a.areas@.len() == b.areas@.len()
    &&& forall|p: int| 0 <= p < a.areas@.len() ==> alike_area(#[trigger] a.areas@[p], b.areas@[p])
    &&& a.netstations@.len() == b.netstations@.len()
    &&& forall|p: int|
        0 <= p < a.netstations@.len() ==> alike_netstation(
            #[trigger] a.netstations@[p],
            b.netstations@[p],
        )
    &&& a.households@.len() == b.households@.len()
    &&& forall|p: int|
        0 <= p < a.households@.len() ==> alike_household(
            #[trigger] a.households@[p],
            b.households@[p],
        )
}

/// Whether the two warnings are alike.
pub open spec fn alike_warning(a: GridWarning, b: GridWarning) -> bool {
    &&& a.state == b.state
    &&& a.critical == b.critical
    &&& a.agent_index == b.agent_index
    &&& a.agent_powerstate is Some <==> b.agent_powerstate is Some
    &&& a.agent_powerstate is Some ==> a.agent_powerstate->0.same_as(b.agent_powerstate->0)
    &&& a.freq_state is Some <==> b.freq_state is Some
    &&& a.freq_state is Some ==> alike_freq(a.freq_state->0, b.freq_state->0)
    &&& a.volt_state is Some <==> b.volt_state is Some
    &&& a.volt_state is Some ==> alike_volt(a.volt_state->0, b.volt_state->0)
    &&& a.infectionstatistics == b.infectionstatistics
}

/// Whether the two lists hold warnings that are alike, in the same order.
pub open spec fn alike_warnings(a: Seq<GridWarning>, b: Seq<GridWarning>) -> bool {
    a.len() == b.len() && forall|j: int| 0 <= j < a.len() ==> alike_warning(#[trigger] a[j], b[j])
}

/// Whether the two reports are alike.
pub open spec fn alike_report(a: BoundaryReport, b: BoundaryReport) -> bool {
    &&& a.frequency is Some <==> b.frequency is Some
    &&& a.frequency is Some ==> alike_warning(a.frequency->0, b.frequency->0)
    &&& alike_warnings(a.voltage_errors@, b.voltage_errors@)
    &&& alike_warnings(a.voltage_warnings@, b.voltage_warnings@)
    &&& a.need_to_stop == b.need_to_stop
}

/// Whether the two summaries are alike.
pub open spec fn alike_information(a: GridInformation, b: GridInformation) -> bool {
    &&& a.infection_statistics == b.infection_statistics
    &&& alike_freq(a.freq_state, b.freq_state)
    &&& a.power_state.same_as(b.power_state)
    &&& a.reserve_power == b.reserve_power
}

/// Whether the two events hand in the same values.
pub open spec fn alike_event(a: StepEvent, b: StepEvent) -> bool {
    match a {
        StepEvent::Go => b is Go,
        StepEvent::Rolls(rolls) => b is Rolls && b->Rolls_0@ == rolls@,
        StepEvent::Falsified(figures) => b is Falsified && b->Falsified_0@ == figures@,
        StepEvent::Voltages(volts) => b is Voltages && b->Voltages_0@ == volts@,
    }
}

/// Whether the two actions ask the same of the caller.
pub open spec fn alike_action(a: StepAction, b: StepAction) -> bool {
    match a {
        StepAction::Continue => b is Continue,
        StepAction::DrawRolls => b is DrawRolls,
        StepAction::Falsify(place) => b == StepAction::Falsify(place),
        StepAction::MeasureVoltages => b is MeasureVoltages,
        StepAction::Report(report) => b is Report && alike_report(report, b->Report_0),
        StepAction::Summary(information) => b is Summary && alike_information(
            information,
            b->Summary_0,
        ),
        StepAction::Done => b is Done,
    }
}

impl Model {
    /// Stamping the same step on models that are alike gives models that are
    /// alike.
    pub proof fn lemma_stamped_alike(a1: &Model, a2: &Model, b1: &Model, b2: &Model, step: Steps)
        requires
            alike(b1, b2),
            a1.same_but_step(b1, step),
            a2.same_but_step(b2, step),
        ensures
            alike(a1, a2),
    {
        assert forall|p: int| 0 <= p < a1.areas@.len() implies alike_area(
            #[trigger] a1.areas@[p],
            a2.areas@[p],
        ) by {
            assert(alike_area(b1.areas@[p], b2.areas@[p]));
            assert(a2.areas@[p] == (Area { step, ..b2.areas@[p] }));
        }
        assert forall|p: int| 0 <= p < a1.netstations@.len() implies alike_netstation(
            #[trigger] a1.netstations@[p],
            a2.netstations@[p],
        ) by {
            assert(alike_netstation(b1.netstations@[p], b2.netstations@[p]));
            assert(a2.netstations@[p] == (Netstation { step, ..b2.netstations@[p] }));
        }
        assert forall|p: int| 0 <= p < a1.households@.len() implies alike_household(
            #[trigger] a1.households@[p],
            a2.households@[p],
        ) by {
            assert(alike_household(b1.households@[p], b2.households@[p]));
            assert(a2.households@[p] == (Household { step, ..b2.households@[p] }));
        }
    }

    /// Models that are alike but for their households, and whose households
    /// are alike, are alike.
    pub proof fn lemma_households_alike(a1: &Model, a2: &Model, b1: &Model, b2: &Model)
        requires
            alike(b1, b2),
            a1.same_but_households(b1),
            a2.same_but_households(b2),
            forall|p: int|
                0 <= p < a1.households@.len() ==> alike_household(
                    #[trigger] a1.households@[p],
                    a2.households@[p],
                ),
        ensures
            alike(a1, a2),
    {
        assert forall|p: int| 0 <= p < a1.areas@.len() implies alike_area(
            #[trigger] a1.areas@[p],
            a2.areas@[p],
        ) by {
            assert(alike_area(b1.areas@[p], b2.areas@[p]));
        }
        assert forall|p: int| 0 <= p < a1.netstations@.len() implies alike_netstation(
            #[trigger] a1.netstations@[p],
            a2.netstations@[p],
        ) by {
            assert(alike_netstation(b1.netstations@[p], b2.netstations@[p]));
        }
    }

    /// Clean power figures for the households of models that are alike give
    /// models that are alike.
    pub proof fn lemma_clean_alike(a1: &Model, a2: &Model, b1: &Model, b2: &Model)
        requires
            alike(b1, b2),
            a1.has_clean_power(b1),
            a2.has_clean_power(b2),
        ensures
            alike(a1, a2),
    {
        assert forall|p: int| 0 <= p < a1.households@.len() implies alike_household(
            #[trigger] a1.households@[p],
            a2.households@[p],
        ) by {
            assert(alike_household(b1.households@[p], b2.households@[p]));
            assert(a1.households@[p].is_clean(b1.households@[p]));
            assert(a2.households@[p].is_clean(b2.households@[p]));
        }
        Self::lemma_households_alike(a1, a2, b1, b2);
    }

    /// The epidemic step with the same rolls at the same step gives models that
    /// are alike, for models that are alike. The same attack behaviour is
    /// active in both.
    pub proof fn lemma_epidemic_alike(
        a1: &Model,
        a2: &Model,
        b1: &Model,
        b2: &Model,
        step: Steps,
        rolls: Seq<(bool, bool)>,
    )
        requires
            alike(b1, b2),
            a1.has_taken_epidemic_step(b1, step, rolls),
            a2.has_taken_epidemic_step(b2, step, rolls),
        ensures
            alike(a1, a2),
            b1.active_place(step) == b2.active_place(step),
    {
        assert forall|p: int| 0 <= p < a1.areas@.len() implies alike_area(
            #[trigger] a1.areas@[p],
            a2.areas@[p],
        ) by {
            assert(alike_area(b1.areas@[p], b2.areas@[p]));
        }
        assert forall|p: int| 0 <= p < a1.netstations@.len() implies alike_netstation(
            #[trigger] a1.netstations@[p],
            a2.netstations@[p],
        ) by {
            assert(alike_netstation(b1.netstations@[p], b2.netstations@[p]));
        }
        assert forall|p: int| 0 <= p < a1.households@.len() implies alike_household(
            #[trigger] a1.households@[p],
            a2.households@[p],
        ) by {
            assert(alike_household(b1.households@[p], b2.households@[p]));
            assert(a1.households@[p].same_but_infection(
                b1.households@[p],
                b1.households@[p].power_generation.infection_state.spec_transition(
                    rolls[p].0,
                    rolls[p].1,
                ),
            ));
            assert(a2.households@[p].same_but_infection(
                b2.households@[p],
                b2.households@[p].power_generation.infection_state.spec_transition(
                    rolls[p].0,
                    rolls[p].1,
                ),
            ));
        }
    }

    /// The same falsified figures give models that are alike, for models that
    /// are alike.
    pub proof fn lemma_distorted_alike(
        a1: &Model,
        a2: &Model,
        b1: &Model,
        b2: &Model,
        falsified: Seq<(Watt, Watt)>,
    )
        requires
            alike(b1, b2),
            a1.is_distorted(b1, falsified),
            a2.is_distorted(b2, falsified),
        ensures
            alike(a1, a2),
    {
        assert forall|p: int| 0 <= p < a1.households@.len() implies alike_household(
            #[trigger] a1.households@[p],
            a2.households@[p],
        ) by {
            assert(alike_household(b1.households@[p], b2.households@[p]));
            assert(b1.param.attack.distorts(b1.households@[p]) == b2.param.attack.distorts(
                b2.households@[p],
            ));
            if b1.param.attack.distorts(b1.households@[p]) {
                assert(a1.households@[p].is_falsified(b1.households@[p], falsified[p]));
                assert(a2.households@[p].is_falsified(b2.households@[p], falsified[p]));
            } else {
                assert(a1.households@[p] == b1.households@[p]);
                assert(a2.households@[p] == b2.households@[p]);
            }
        }
        Self::lemma_households_alike(a1, a2, b1, b2);
    }

    /// Models that are alike sum up to the same figures at every agent.
    pub proof fn lemma_aggregates_alike(b1: &Model, b2: &Model)
        requires
            alike(b1, b2),
            b1.tree_wf(),
        ensures
            forall|k: int|
                0 <= k < b1.netstations@.len() ==> #[trigger] b1.netstation_aggregate(k)
                    == b2.netstation_aggregate(k),
            forall|a: int|
                0 <= a < b1.areas@.len() ==> #[trigger] b1.area_aggregate(a) == b2.area_aggregate(
                    a,
                ),
            b1.root_aggregate() == b2.root_aggregate(),
    {
        assert forall|k: int| 0 <= k < b1.netstations@.len() implies #[trigger] b1.netstation_aggregate(
            k,
        ) == b2.netstation_aggregate(k) by {
            let children = b1.netstations@[k].children@;
            assert(alike_netstation(b1.netstations@[k], b2.netstations@[k]));
            b1.lemma_children_in_level(children, AgentKind::Household);
            assert forall|j: int| 0 <= j < children.len() implies child_figures(
                b1.agents@,
                b1.households@,
                children,
            )[j] == child_figures(b2.agents@, b2.households@, children)[j] by {
                let p = b1.agents@[children[j] as int].position as int;
                assert(alike_household(b1.households@[p], b2.households@[p]));
            }
            assert(child_figures(b1.agents@, b1.households@, children) =~= child_figures(
                b2.agents@,
                b2.households@,
                children,
            ));
        }
        assert forall|a: int| 0 <= a < b1.areas@.len() implies #[trigger] b1.area_aggregate(a)
            == b2.area_aggregate(a) by {
            let children = b1.areas@[a].children@;
            assert(alike_area(b1.areas@[a], b2.areas@[a]));
            b1.lemma_children_in_level(children, AgentKind::Netstation);
            let sums1 = Seq::new(
                children.len(),
                |j: int| b1.netstation_aggregate(b1.agents@[children[j] as int].position as int),
            );
            let sums2 = Seq::new(
                children.len(),
                |j: int| b2.netstation_aggregate(b2.agents@[children[j] as int].position as int),
            );
            assert(sums1 =~= sums2);
        }
        let children = b1.root.children@;
        b1.lemma_children_in_level(children, AgentKind::Area);
        let sums1 = Seq::new(
            children.len(),
            |j: int| b1.area_aggregate(b1.agents@[children[j] as int].position as int),
        );
        let sums2 = Seq::new(
            children.len(),
            |j: int| b2.area_aggregate(b2.agents@[children[j] as int].position as int),
        );
        assert(sums1 =~= sums2);
    }

    /// Summing up models that are alike gives models that are alike.
    pub proof fn lemma_summed_alike(a1: &Model, a2: &Model, b1: &Model, b2: &Model)
        requires
            alike(b1, b2),
            b1.tree_wf(),
            a1.is_summed_from(b1),
            a2.is_summed_from(b2),
        ensures
            alike(a1, a2),
    {
        Self::lemma_aggregates_alike(b1, b2);
        assert forall|p: int| 0 <= p < a1.areas@.len() implies alike_area(
            #[trigger] a1.areas@[p],
            a2.areas@[p],
        ) by {
            assert(alike_area(b1.areas@[p], b2.areas@[p]));
            assert(a1.areas@[p].powerstate.totals() == b1.area_aggregate(p));
            assert(a2.areas@[p].powerstate.totals() == b2.area_aggregate(p));
            assert(a2.areas@[p] == (Area { powerstate: a2.areas@[p].powerstate, ..b2.areas@[p] }));
        }
        assert forall|p: int| 0 <= p < a1.netstations@.len() implies alike_netstation(
            #[trigger] a1.netstations@[p],
            a2.netstations@[p],
        ) by {
            assert(alike_netstation(b1.netstations@[p], b2.netstations@[p]));
            assert(a1.netstations@[p].powerstate.totals() == b1.netstation_aggregate(p));
            assert(a2.netstations@[p].powerstate.totals() == b2.netstation_aggregate(p));
            assert(a2.netstations@[p] == (Netstation {
                powerstate: a2.netstations@[p].powerstate,
                ..b2.netstations@[p]
            }));
        }
        assert forall|p: int| 0 <= p < a1.households@.len() implies alike_household(
            #[trigger] a1.households@[p],
            a2.households@[p],
        ) by {
            assert(alike_household(b1.households@[p], b2.households@[p]));
        }
    }

    /// Models that are alike but for parts that are told apart, and alike in
    /// those parts, are alike.
    pub proof fn lemma_parts_alike(a1: &Model, a2: &Model, b1: &Model, b2: &Model)
        requires
            alike(b1, b2),
            a1.param == b1.param,
            a2.param == b2.param,
            a1.graph == b1.graph,
            a2.graph == b2.graph,
            a1.agents == b1.agents,
            a2.agents == b2.agents,
            a1.areas == b1.areas,
            a2.areas == b2.areas,
            a1.households == b1.households,
            a2.households == b2.households,
            a1.reserve_power == a2.reserve_power,
            alike_root(a1.root, a2.root),
            a1.netstations@.len() == b1.netstations@.len(),
            a2.netstations@.len() == b2.netstations@.len(),
            forall|p: int|
                0 <= p < a1.netstations@.len() ==> alike_netstation(
                    #[trigger] a1.netstations@[p],
                    a2.netstations@[p],
                ),
        ensures
            alike(a1, a2),
    {
        assert forall|p: int| 0 <= p < a1.areas@.len() implies alike_area(
            #[trigger] a1.areas@[p],
            a2.areas@[p],
        ) by {
            assert(alike_area(b1.areas@[p], b2.areas@[p]));
        }
        assert forall|p: int| 0 <= p < a1.households@.len() implies alike_household(
            #[trigger] a1.households@[p],
            a2.households@[p],
        ) by {
            assert(alike_household(b1.households@[p], b2.households@[p]));
        }
    }

    /// Compensation in models that are alike gives models that are alike.
    pub proof fn lemma_compensated_alike(
        a1: &Model,
        a2: &Model,
        b1: &Model,
        b2: &Model,
        able1: Watt,
        able2: Watt,
    )
        requires
            alike(b1, b2),
            a1.is_compensated(b1, able1),
            a2.is_compensated(b2, able2),
        ensures
            alike(a1, a2),
            able1 == able2,
    {
        assert forall|p: int| 0 <= p < a1.netstations@.len() implies alike_netstation(
            #[trigger] a1.netstations@[p],
            a2.netstations@[p],
        ) by {
            assert(alike_netstation(b1.netstations@[p], b2.netstations@[p]));
        }
        Self::lemma_parts_alike(a1, a2, b1, b2);
    }

    /// The impact of the mismatch with the same voltages gives models that are
    /// alike, for models that are alike.
    pub proof fn lemma_impact_alike(
        a1: &Model,
        a2: &Model,
        b1: &Model,
        b2: &Model,
        volts: Seq<mVolt>,
    )
        requires
            alike(b1, b2),
            a1.has_felt_mismatch(b1, volts),
            a2.has_felt_mismatch(b2, volts),
        ensures
            alike(a1, a2),
    {
        assert forall|p: int| 0 <= p < a1.netstations@.len() implies alike_netstation(
            #[trigger] a1.netstations@[p],
            a2.netstations@[p],
        ) by {
            assert(alike_netstation(b1.netstations@[p], b2.netstations@[p]));
            assert(a2.netstations@[p] == (Netstation {
                volt_state: a2.netstations@[p].volt_state,
                ..b2.netstations@[p]
            }));
            assert(a1.netstations@[p].volt_state.is_updated(
                b1.netstations@[p].volt_state,
                volts[p],
            ));
            assert(a2.netstations@[p].volt_state.is_updated(
                b2.netstations@[p].volt_state,
                volts[p],
            ));
        }
        Self::lemma_parts_alike(a1, a2, b1, b2);
    }

    /// The voltage monitors of models that are alike warn at the same places.
    pub proof fn lemma_warned_places_alike(b1: &Model, b2: &Model, n: int, critical: bool)
        requires
            alike(b1, b2),
            0 <= n <= b1.netstations@.len(),
        ensures
            b1.warned_places(n, critical) == b2.warned_places(n, critical),
            forall|j: int|
                0 <= j < b1.warned_places(n, critical).len() ==> 0 <= #[trigger] b1.warned_places(
                    n,
                    critical,
                )[j] < n,
        decreases n,
    {
        if n > 0 {
            Self::lemma_warned_places_alike(b1, b2, n - 1, critical);
            assert(alike_netstation(b1.netstations@[n - 1], b2.netstations@[n - 1]));
        }
    }

    /// The voltage warnings of models that are alike are alike.
    pub proof fn lemma_voltage_warnings_alike(
        b1: &Model,
        b2: &Model,
        warnings1: Seq<GridWarning>,
        warnings2: Seq<GridWarning>,
        critical: bool,
    )
        requires
            alike(b1, b2),
            b1.tree_wf(),
            b1.are_voltage_warnings(warnings1, b1.netstations@.len() as int, critical),
            b2.are_voltage_warnings(warnings2, b2.netstations@.len() as int, critical),
        ensures
            alike_warnings(warnings1, warnings2),
    {
        let n = b1.netstations@.len() as int;
        Self::lemma_warned_places_alike(b1, b2, n, critical);
        let places = b1.warned_places(n, critical);
        assert forall|j: int| 0 <= j < warnings1.len() implies alike_warning(
            #[trigger] warnings1[j],
            warnings2[j],
        ) by {
            let k = places[j];
            assert(b1.is_voltage_warning(warnings1[j], k));
            assert(b2.is_voltage_warning(warnings2[j], k));
            assert(alike_netstation(b1.netstations@[k], b2.netstations@[k]));
            let children = b1.netstations@[k].children@;
            b1.lemma_children_in_level(children, AgentKind::Household);
            assert forall|i: int| 0 <= i < children.len() implies child_infection_states(
                b1.agents@,
                b1.households@,
                children,
            )[i] == child_infection_states(b2.agents@, b2.households@, children)[i] by {
                let p = b1.agents@[children[i] as int].position as int;
                assert(alike_household(b1.households@[p], b2.households@[p]));
            }
            assert(child_infection_states(b1.agents@, b1.households@, children)
                =~= child_infection_states(b2.agents@, b2.households@, children));
        }
    }

    /// The boundary checks of models that are alike give models and reports
    /// that are alike.
    pub proof fn lemma_checked_alike(
        a1: &Model,
        a2: &Model,
        b1: &Model,
        b2: &Model,
        report1: BoundaryReport,
        report2: BoundaryReport,
    )
        requires
            alike(b1, b2),
            b1.tree_wf(),
            a1.is_checked(b1, report1),
            a2.is_checked(b2, report2),
        ensures
            alike(a1, a2),
            alike_report(report1, report2),
    {
        assert forall|p: int| 0 <= p < a1.netstations@.len() implies alike_netstation(
            #[trigger] a1.netstations@[p],
            a2.netstations@[p],
        ) by {
            assert(alike_netstation(b1.netstations@[p], b2.netstations@[p]));
            assert(a2.netstations@[p] == (Netstation {
                volt_boundary: a2.netstations@[p].volt_boundary,
                ..b2.netstations@[p]
            }));
        }
        Self::lemma_parts_alike(a1, a2, b1, b2);
        Self::lemma_voltage_warnings_alike(
            b1,
            b2,
            report1.voltage_errors@,
            report2.voltage_errors@,
            true,
        );
        Self::lemma_voltage_warnings_alike(
            b1,
            b2,
            report1.voltage_warnings@,
            report2.voltage_warnings@,
            false,
        );
    }

    /// The summaries of models that are alike are alike.
    pub proof fn lemma_summaries_alike(
        b1: &Model,
        b2: &Model,
        information1: GridInformation,
        information2: GridInformation,
    )
        requires
            alike(b1, b2),
            b1.is_summed_up_by(information1),
            b2.is_summed_up_by(information2),
        ensures
            alike_information(information1, information2),
    {
        assert forall|p: int| 0 <= p < b1.households@.len() implies infection_states(
            b1.households@,
        )[p] == infection_states(b2.households@)[p] by {
            assert(alike_household(b1.households@[p], b2.households@[p]));
        }
        assert(infection_states(b1.households@) =~= infection_states(
            b2.households@,
        ));
    }

    /// A phase is determined by the model it starts from and the values it is
    /// handed: taken from models that are alike, at the same step and with
    /// events that hand in the same values, it leads to models that are alike
    /// and asks the same of the caller.
    pub proof fn lemma_phase_is_determined(
        a1: &Model,
        a2: &Model,
        b1: &Model,
        b2: &Model,
        phase: StepPhase,
        step: Steps,
        event1: StepEvent,
        event2: StepEvent,
        action1: StepAction,
        action2: StepAction,
    )
        requires
            alike(b1, b2),
            b1.tree_wf(),
            alike_event(event1, event2),
            a1.has_taken(b1, phase, step, event1, action1),
            a2.has_taken(b2, phase, step, event2, action2),
            b1.takes(phase, event1),
        ensures
            alike(a1, a2),
            alike_action(action1, action2),
    {
        match phase {
            StepPhase::UpdateStep => {
                Self::lemma_stamped_alike(a1, a2, b1, b2, step);
            },
            StepPhase::NewPowerState => {
                Self::lemma_clean_alike(a1, a2, b1, b2);
            },
            StepPhase::AttackAndPatch => {
                Self::lemma_epidemic_alike(a1, a2, b1, b2, step, event1->Rolls_0@);
            },
            StepPhase::ModifyInfected => {
                Self::lemma_distorted_alike(a1, a2, b1, b2, event1->Falsified_0@);
            },
            StepPhase::PowerFromChildren => {
                Self::lemma_summed_alike(a1, a2, b1, b2);
            },
            StepPhase::Compensation => {
                Self::lemma_compensated_alike(
                    a1,
                    a2,
                    b1,
                    b2,
                    Watt(
                        b1.reserve_power.compensation(b1.root.powerstate.power_error) as i64,
                    ),
                    Watt(
                        b2.reserve_power.compensation(b2.root.powerstate.power_error) as i64,
                    ),
                );
            },
            StepPhase::MismatchImpact => {
                Self::lemma_impact_alike(a1, a2, b1, b2, event1->Voltages_0@);
            },
            StepPhase::BoundaryCheck => {
                Self::lemma_checked_alike(a1, a2, b1, b2, action1->Report_0, action2->Report_0);
            },
            StepPhase::Summary => {
                Self::lemma_summaries_alike(b1, b2, action1->Summary_0, action2->Summary_0);
            },
            StepPhase::Stopped => {},
            StepPhase::Finished => {},
        }
    }
}

/// An agent hangs under one agent only.
pub proof fn lemma_hangs_under_one(agents: Seq<AgentRef>, p: int, q: int, child: int)
    requires
        hangs_under(agents, p, child),
        hangs_under(agents, q, child),
    ensures
        p == q,
{
    if p < q {
        assert(agents[q].kind != agents[p].kind);
    } else if q < p {
        assert(agents[p].kind != agents[q].kind);
    }
}

/// Models that are built from layouts with the same agents and units that are
/// alike, with parameters that are alike, are alike.
pub proof fn lemma_built_alike(
    first: &Model,
    second: &Model,
    layout1: Seq<AreaPlan>,
    layout2: Seq<AreaPlan>,
)
    requires
        first.wf(),
        second.wf(),
        first.is_built_from(layout1),
        second.is_built_from(layout2),
        alike_param(first.param, second.param),
        planned_kinds(layout1) == planned_kinds(layout2),
        planned_units(layout1).len() == planned_units(layout2).len(),
        forall|p: int|
            0 <= p < planned_units(layout1).len() ==> same_unit(
                #[trigger] planned_units(layout1)[p],
                planned_units(layout2)[p],
            ),
    ensures
        alike(first, second),
{
    let n = first.agents@.len() as int;
    assert(kinds_of(first.agents@).len() == kinds_of(second.agents@).len());
    assert forall|i: int| 0 <= i < n implies (#[trigger] first.agents@[i]).kind
        == second.agents@[i].kind by {
        assert(kinds_of(first.agents@)[i] == kinds_of(second.agents@)[i]);
    }
    assert forall|i: int| 0 <= i < n implies #[trigger] first.agents@[i] == second.agents@[i] by {
        lemma_count_kind_of_prefix(first.agents@, second.agents@, i, first.agents@[i].kind);
    }
    assert(first.agents@ =~= second.agents@);
    assert(first.graph.nodes() =~= second.graph.nodes()) by {
        assert forall|i: int| 0 <= i < n implies first.graph.nodes()[i] == second.graph.nodes()[i] by {
            assert(first.graph.nodes()[i] == i);
            assert(second.graph.nodes()[i] == i);
        }
    }
    assert(first.graph.edges() =~= second.graph.edges()) by {
        assert forall|k: int| 0 <= k < first.graph.edges().len() implies first.graph.edges()[k]
            == second.graph.edges()[k] by {
            assert(first.graph.edges()[k].1 == k + 1);
            assert(second.graph.edges()[k].1 == k + 1);
            lemma_hangs_under_one(
                first.agents@,
                first.graph.edges()[k].0 as int,
                second.graph.edges()[k].0 as int,
                k + 1,
            );
        }
    }
    assert forall|p: int| 0 <= p < first.areas@.len() implies alike_area(
        #[trigger] first.areas@[p],
        second.areas@[p],
    ) by {
        let i = first.areas@[p].index as int;
        assert(second.entry_is_valid(i));
        assert(first.areas@[p].is_created(
            first.areas@[p].index,
            first.graph.children_of(first.areas@[p].index),
        ));
        assert(second.areas@[p].is_created(
            second.areas@[p].index,
            second.graph.children_of(second.areas@[p].index),
        ));
    }
    assert forall|p: int| 0 <= p < first.netstations@.len() implies alike_netstation(
        #[trigger] first.netstations@[p],
        second.netstations@[p],
    ) by {
        let i = first.netstations@[p].index as int;
        assert(second.entry_is_valid(i));
        assert(first.netstations@[p].is_created(
            first.netstations@[p].index,
            &first.param.grid,
            first.graph.children_of(first.netstations@[p].index),
        ));
        assert(second.netstations@[p].is_created(
            second.netstations@[p].index,
            &second.param.grid,
            second.graph.children_of(second.netstations@[p].index),
        ));
    }
    assert forall|p: int| 0 <= p < first.households@.len() implies alike_household(
        #[trigger] first.households@[p],
        second.households@[p],
    ) by {
        let i = first.households@[p].index as int;
        assert(second.entry_is_valid(i));
        assert(first.households@[p].is_created(
            first.households@[p].index,
            first.households@[p].power_generation,
            Seq::empty(),
        ));
        assert(second.households@[p].is_created(
            second.households@[p].index,
            second.households@[p].power_generation,
            Seq::empty(),
        ));
        assert(same_unit(first.households@[p].power_generation, planned_units(layout1)[p]));
        assert(same_unit(second.households@[p].power_generation, planned_units(layout2)[p]));
        assert(same_unit(planned_units(layout1)[p], planned_units(layout2)[p]));
    }
}

/// The course of a run: the models and the states of the run from call to
/// call, with the event that each call was handed and the action that it gave.
pub struct Course {
    /// The model before the first call and after every call.
    pub models: Seq<Model>,
    /// The state of the run before the first call and after every call.
    pub runs: Seq<StepRun>,
    /// What each call was handed.
    pub events: Seq<StepEvent>,
    /// What each call gave.
    pub actions: Seq<StepAction>,
}

impl Course {
    /// Whether the course is one that a run can take: every call finds a
    /// model that is fit to take a step and takes the phase that the run stands
    /// at, with an event that hands in what the phase needs.
    pub open spec fn is_taken(self) -> bool {
        &&& self.models.len() == self.events.len() + 1
        &&& self.runs.len() == self.events.len() + 1
        &&& self.actions.len() == self.events.len()
        &&& forall|i: int|
            0 <= i < self.events.len() ==> {
                &&& (#[trigger] self.models[i]).wf()
                &&& self.models[i].takes(self.runs[i].phase, self.events[i])
                &&& self.models[i + 1].has_taken(
                    &self.models[i],
                    self.runs[i].phase,
                    self.runs[i].step,
                    self.events[i],
                    self.actions[i],
                )
                &&& self.runs[i + 1] == self.runs[i].after(self.actions[i])
            }
    }

    /// Whether the two courses are handed the same values call by call.
    pub open spec fn is_handed_the_same(self, other: Course) -> bool {
        &&& self.events.len() == other.events.len()
        &&& forall|i: int|
            0 <= i < self.events.len() ==> alike_event(#[trigger] self.events[i], other.events[i])
    }
}

/// Two runs that start from models that are alike, stand at the same phase and
/// step, and are handed the same values call by call take the same course:
/// after every call their models are alike and their runs stand at the same
/// place, and every call asks the same of the caller. In particular they give
/// the same reports and the same summaries, tick by tick.
pub proof fn lemma_runs_are_determined(first: Course, second: Course, calls: int)
    requires
        first.is_taken(),
        second.is_taken(),
        first.is_handed_the_same(second),
        alike(&first.models[0], &second.models[0]),
        first.runs[0] == second.runs[0],
        0 <= calls <= first.events.len(),
    ensures
        alike(&first.models[calls], &second.models[calls]),
        first.runs[calls] == second.runs[calls],
        forall|i: int|
            0 <= i < calls ==> alike_action(#[trigger] first.actions[i], second.actions[i]),
    decreases calls,
{
    if calls > 0 {
        lemma_runs_are_determined(first, second, calls - 1);
        let i = calls - 1;
        assert(first.models[i].tree_wf());
        assert(second.models[i].tree_wf());
        Model::lemma_phase_is_determined(
            &first.models[i + 1],
            &second.models[i + 1],
            &first.models[i],
            &second.models[i],
            first.runs[i].phase,
            first.runs[i].step,
            first.events[i],
            second.events[i],
            first.actions[i],
            second.actions[i],
        );
        let action1 = first.actions[i];
        let action2 = second.actions[i];
        assert(alike_action(action1, action2));
        assert(first.runs[i].after(action1) == second.runs[i].after(action2));
    }
}

} // verus!
