//! The run of a model: tick after tick, and within each tick phase after phase
//! in a fixed order.
//!
//! Some phases need values that the simulation core does not work out itself:
//! the rolls of the epidemic, the falsified figures of attacked households and
//! the voltages that follow from the power mismatch. The run tells its caller
//! when it needs them and takes them with the next call.
use crate::model::step::{overflow_error_text, BoundaryReport, GridInformation};
use crate::model::Model;
use crate::util::{mVolt, ModelError, Steps, Watt};
use vstd::prelude::*;
use vstd::string::StringExecFns;

verus! {

/// The phases of a run. The first nine make up a tick and are taken in this
/// order; the last two are the ways in which a run ends.
#[derive(Debug, Clone, Copy, PartialEq, Eq, Structural)]
pub enum StepPhase {
    /// Stamp the step on every agent.
    UpdateStep,
    /// Give every household the clean figures of its unit.
    NewPowerState,
    /// Select the active attack and let the epidemic take its step.
    AttackAndPatch,
    /// Put the falsified figures in place at the attacked households.
    ModifyInfected,
    /// Sum the power figures upwards through the tree.
    PowerFromChildren,
    /// Let the reserve take its share of the power error of the root.
    Compensation,
    /// Move the frequency and take the voltages.
    MismatchImpact,
    /// Let the monitors see frequency and voltage.
    BoundaryCheck,
    /// Assemble the summary of the tick.
    Summary,
    /// The run has stopped on a critical frequency condition.
    Stopped,
    /// All steps of the run are taken.
    Finished,
}

/// What the caller hands to the run with a call.
#[derive(Debug)]
pub enum StepEvent {
    /// Nothing: the phase needs no values from outside.
    Go,
    /// The two rolls of every household, in the order of the households:
    /// whether it is patched, and whether it is infected.
    Rolls(Vec<(bool, bool)>),
    /// The falsified figures of every household, in the order of the
    /// households: the generated and the reported power that it shows while it
    /// is attacked.
    Falsified(Vec<(Watt, Watt)>),
    /// The new voltage of every netstation, in the order of the netstations.
    Voltages(Vec<mVolt>),
}

/// What the run asks of its caller after a call.
#[derive(Debug)]
pub enum StepAction {
    /// Call again, with nothing to hand in.
    Continue,
    /// Draw the rolls of the households and hand them in.
    DrawRolls,
    /// Work out the falsified figures of the households and hand them in. The
    /// place of the active attack behaviour in the list is told, if one is
    /// active.
    Falsify(Option<usize>),
    /// Work out the new voltages of the netstations and hand them in.
    MeasureVoltages,
    /// Report what the boundary checks have found, then call again.
    Report(BoundaryReport),
    /// Emit the summary of the tick, then call again.
    Summary(GridInformation),
    /// The run is over: all steps are taken.
    Done,
}

/// Where a run stands.
#[derive(Debug, Clone, Copy, PartialEq, Eq, Structural)]
pub struct StepRun {
    /// The phase that is taken with the next call.
    pub phase: StepPhase,
    /// The step that is being taken.
    pub step: Steps,
    /// The number of steps of the run.
    pub num_steps: Steps,
    /// Whether the boundary checks of the tick that is being taken ask to stop.
    pub need_to_stop: bool,
}

impl StepPhase {
    /// The phase that follows this one within a tick. After the summary, and
    /// at the end of a run, there is none.
    pub open spec fn next_in_tick(self) -> Option<StepPhase> {
        match self {
            StepPhase::UpdateStep => Some(StepPhase::NewPowerState),
            StepPhase::NewPowerState => Some(StepPhase::AttackAndPatch),
            StepPhase::AttackAndPatch => Some(StepPhase::ModifyInfected),
            StepPhase::ModifyInfected => Some(StepPhase::PowerFromChildren),
            StepPhase::PowerFromChildren => Some(StepPhase::Compensation),
            StepPhase::Compensation => Some(StepPhase::MismatchImpact),
            StepPhase::MismatchImpact => Some(StepPhase::BoundaryCheck),
            StepPhase::BoundaryCheck => Some(StepPhase::Summary),
            _ => None,
        }
    }
}

impl StepRun {
    /// The run before its first call: at step 0, and finished already if there
    /// are no steps to take.
    pub open spec fn spec_new(num_steps: Steps) -> StepRun {
        StepRun {
            phase: if num_steps.0 > 0 {
                StepPhase::UpdateStep
            } else {
                StepPhase::Finished
            },
            step: Steps(0),
            num_steps,
            need_to_stop: false,
        }
    }

    /// A run of the given number of steps, before its first call.
    pub fn new(num_steps: Steps) -> (run: StepRun)
        ensures
            run == Self::spec_new(num_steps),
    {
        StepRun {
            phase: if num_steps.0 > 0 {
                StepPhase::UpdateStep
            } else {
                StepPhase::Finished
            },
            step: Steps(0),
            num_steps,
            need_to_stop: false,
        }
    }

    /// The run with the next phase of the tick as its phase.
    pub open spec fn moved_on(self) -> StepRun {
        StepRun {
            phase: match self.phase.next_in_tick() {
                Some(phase) => phase,
                None => self.phase,
            },
            ..self
        }
    }

    /// The run after a phase was taken with the given action as its result:
    /// at the next phase of the tick, with the wish to stop of the boundary
    /// checks taken down, and after the summary at the next step or at its
    /// end.
    pub open spec fn after(self, action: StepAction) -> StepRun {
        match self.phase {
            StepPhase::Finished => self,
            StepPhase::Summary => self.after_summary(),
            StepPhase::BoundaryCheck => (StepRun {
                need_to_stop: action->Report_0.need_to_stop,
                ..self.moved_on()
            }),
            _ => self.moved_on(),
        }
    }

    /// The run after the summary of a tick: stopped if the boundary checks
    /// asked for it, finished if that was the last step, and at the beginning
    /// of the next step otherwise.
    pub open spec fn after_summary(self) -> StepRun {
        if self.need_to_stop {
            StepRun { phase: StepPhase::Stopped, ..self }
        } else if self.step.0 + 1 >= self.num_steps.0 {
            StepRun { phase: StepPhase::Finished, ..self }
        } else {
            StepRun {
                phase: StepPhase::UpdateStep,
                step: Steps((self.step.0 + 1) as i32),
                need_to_stop: false,
                num_steps: self.num_steps,
            }
        }
    }
}

/// The parameter error about what was needed, for a call that hands in something else.
fn order_error(needed: &str) -> (error: ModelError)
    ensures
        error.is_param_error(order_error_text(), needed@),
{
    ModelError::ParamError {
        msg: String::from_str("the phase of the run needs other values than it was handed"),
        context: String::from_str(needed),
    }
}

/// What the error for a call that hands in something else than the phase
/// needs says.
pub open spec fn order_error_text() -> Seq<char> {
    "the phase of the run needs other values than it was handed"@
}

/// What a phase needs to be handed, in words. The phases that need nothing
/// have no words for it.
pub open spec fn needed_text(phase: StepPhase) -> Seq<char> {
    match phase {
        StepPhase::AttackAndPatch => "rolls for every household"@,
        StepPhase::ModifyInfected => "falsified figures for every household"@,
        StepPhase::MismatchImpact => "a voltage for every netstation"@,
        _ => ""@,
    }
}

impl Model {
    /// Whether the event hands in what the phase needs: rolls for every
    /// household for the epidemic, falsified figures for every household for
    /// the distortion, a voltage for every netstation for the impact of the
    /// mismatch. The other phases need nothing and take any event.
    pub open spec fn takes(&self, phase: StepPhase, event: StepEvent) -> bool {
        match phase {
            StepPhase::AttackAndPatch => event is Rolls && event->Rolls_0@.len()
                == self.households@.len(),
            StepPhase::ModifyInfected => event is Falsified && event->Falsified_0@.len()
                == self.households@.len(),
            StepPhase::MismatchImpact => event is Voltages && event->Voltages_0@.len()
                == self.netstations@.len(),
            _ => true,
        }
    }

    /// Whether the phase can be taken with the event: the event hands in what
    /// the phase needs, the falsified figures can be put in place, and the sums
    /// of the power figures are within the range of `Watt`.
    pub open spec fn can_take(&self, phase: StepPhase, event: StepEvent) -> bool {
        &&& self.takes(phase, event)
        &&& phase == StepPhase::ModifyInfected ==> self.param.attack.can_modify(
            self.households@,
            event->Falsified_0@,
        )
        &&& phase == StepPhase::PowerFromChildren ==> self.aggregation_fits()
        &&& phase != StepPhase::Stopped
    }

    /// Whether this model is `before` after the given phase was taken at the
    /// given step with the given event, with the given action as what is asked
    /// of the caller next.
    pub open spec fn has_taken(
        &self,
        before: &Model,
        phase: StepPhase,
        step: Steps,
        event: StepEvent,
        action: StepAction,
    ) -> bool {
        match phase {
            StepPhase::UpdateStep => self.same_but_step(before, step) && action is Continue,
            StepPhase::NewPowerState => self.has_clean_power(before) && action is DrawRolls,
            StepPhase::AttackAndPatch => self.has_taken_epidemic_step(
                before,
                step,
                event->Rolls_0@,
            ) && action == StepAction::Falsify(before.active_place(step)),
            StepPhase::ModifyInfected => self.is_distorted(before, event->Falsified_0@)
                && action is Continue,
            StepPhase::PowerFromChildren => self.is_summed_from(before) && action is Continue,
            StepPhase::Compensation => self.is_compensated(
                before,
                Watt(
                    before.reserve_power.compensation(before.root.powerstate.power_error) as i64,
                ),
            ) && action is MeasureVoltages,
            StepPhase::MismatchImpact => self.has_felt_mismatch(before, event->Voltages_0@)
                && action is Continue,
            StepPhase::BoundaryCheck => action is Report && self.is_checked(
                before,
                action->Report_0,
            ),
            StepPhase::Summary => *self == *before && action is Summary && self.is_summed_up_by(
                action->Summary_0,
            ),
            StepPhase::Stopped => false,
            StepPhase::Finished => *self == *before && action is Done,
        }
    }

    /// Run the model: sets up the run over the number of steps that the
    /// parameters of the model ask for. The run is then taken call by call with
    /// `step`.
    pub fn run(&self) -> (run: StepRun)
        ensures
            run == StepRun::spec_new(self.param.steps),
    {
        StepRun::new(self.param.steps)
    }

    /// Takes the next phase of the run.
    ///
    /// A tick is taken in nine phases, always in the same order: the step is
    /// stamped on every agent, the households take their clean power figures,
    /// the epidemic takes its step, the attacked households take their
    /// falsified figures, the power figures are summed upwards, the reserve
    /// takes its share of the power error, frequency and voltage move with the
    /// mismatch, the monitors check them, and the summary is assembled. After
    /// the summary the run goes on with the next step, or it ends: stopped, if
    /// the boundary checks of the tick asked for it, or finished, if the tick
    /// was the last one.
    ///
    /// A phase that can not be taken leaves the run where it is and gives an
    /// error: a parameter error about what the phase needs for an event that
    /// does not hand it in, a parameter error about the level of the tree for
    /// sums beyond the range of `Watt` there, an infection error
    /// for falsified figures that can not be put in place, and the stop signal
    /// for a run that has stopped. The model is left as it was, but for sums
    /// beyond the range: there the agents before the first one whose sum does
    /// not fit show their sums.
    pub fn step(&mut self, run: &mut StepRun, event: StepEvent) -> (action: Result<
        StepAction,
        ModelError,
    >)
        requires
            old(self).wf(),
            0 <= old(run).step.0 < i32::MAX,
        ensures
            final(self).wf(),
            action is Ok <==> old(self).can_take(old(run).phase, event),
            action is Ok ==> {
                &&& final(self).has_taken(
                    old(self),
                    old(run).phase,
                    old(run).step,
                    event,
                    action->Ok_0,
                )
                &&& *final(run) == old(run).after(action->Ok_0)
            },
            action is Err ==> {
                &&& *final(run) == *old(run)
                &&& old(run).phase != StepPhase::PowerFromChildren ==> *final(self) == *old(self)
                &&& old(run).phase == StepPhase::PowerFromChildren ==> exists|
                    netstations: int,
                    areas: int,
                |
                    final(self).is_summed_until_unfit(old(self), netstations, areas)
                        && action->Err_0.is_param_error(
                        overflow_error_text(),
                        old(self).unfit_level(netstations, areas),
                    )
                &&& !old(self).takes(old(run).phase, event) ==> action->Err_0.is_param_error(
                    order_error_text(),
                    needed_text(old(run).phase),
                )
                &&& match action->Err_0 {
                    ModelError::NeedToStop => old(run).phase == StepPhase::Stopped,
                    ModelError::InfectionError(_) => old(run).phase == StepPhase::ModifyInfected
                        && old(self).takes(old(run).phase, event),
                    ModelError::ParamError { .. } => old(run).phase != StepPhase::Stopped,
                    ModelError::GraphError(_) => false,
                }
            },
            0 <= final(run).step.0 < i32::MAX,
            final(run).num_steps == old(run).num_steps,
    {
        match run.phase {
            StepPhase::UpdateStep => {
                self.update_step(run.step);
                run.phase = StepPhase::NewPowerState;
                Ok(StepAction::Continue)
            },
            StepPhase::NewPowerState => {
                self.new_power_state();
                run.phase = StepPhase::AttackAndPatch;
                Ok(StepAction::DrawRolls)
            },
            StepPhase::AttackAndPatch => {
                match event {
                    StepEvent::Rolls(rolls) => {
                        if rolls.len() != self.households.len() {
                            return Err(order_error("rolls for every household"));
                        }
                        let place = self.attack_and_patch(run.step, &rolls);
                        run.phase = StepPhase::ModifyInfected;
                        Ok(StepAction::Falsify(place))
                    },
                    _ => Err(order_error("rolls for every household")),
                }
            },
            StepPhase::ModifyInfected => {
                match event {
                    StepEvent::Falsified(falsified) => {
                        if falsified.len() != self.households.len() {
                            return Err(order_error("falsified figures for every household"));
                        }
                        match self.modify_infected_devices(&falsified) {
                            Ok(()) => {
                                run.phase = StepPhase::PowerFromChildren;
                                Ok(StepAction::Continue)
                            },
                            Err(error) => Err(error),
                        }
                    },
                    _ => Err(order_error("falsified figures for every household")),
                }
            },
            StepPhase::PowerFromChildren => {
                match self.power_state_from_children() {
                    Ok(()) => {
                        run.phase = StepPhase::Compensation;
                        Ok(StepAction::Continue)
                    },
                    Err(error) => Err(error),
                }
            },
            StepPhase::Compensation => {
                let able = self.grid_frequency_compensation();
                run.phase = StepPhase::MismatchImpact;
                Ok(StepAction::MeasureVoltages)
            },
            StepPhase::MismatchImpact => {
                match event {
                    StepEvent::Voltages(volts) => {
                        if volts.len() != self.netstations.len() {
                            return Err(order_error("a voltage for every netstation"));
                        }
                        self.power_mismatch_impact(&volts);
                        run.phase = StepPhase::BoundaryCheck;
                        Ok(StepAction::Continue)
                    },
                    _ => Err(order_error("a voltage for every netstation")),
                }
            },
            StepPhase::BoundaryCheck => {
                let report = self.boundary_check();
                run.need_to_stop = report.need_to_stop;
                run.phase = StepPhase::Summary;
                Ok(StepAction::Report(report))
            },
            StepPhase::Summary => {
                let information = self.grid_information();
                if run.need_to_stop {
                    run.phase = StepPhase::Stopped;
                } else if run.step.0 + 1 >= run.num_steps.0 {
                    run.phase = StepPhase::Finished;
                } else {
                    run.phase = StepPhase::UpdateStep;
                    run.step = Steps(run.step.0 + 1);
                    run.need_to_stop = false;
                }
                Ok(StepAction::Summary(information))
            },
            StepPhase::Stopped => Err(ModelError::NeedToStop),
            StepPhase::Finished => Ok(StepAction::Done),
        }
    }
}

} // verus!
