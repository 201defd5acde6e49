//! The power generation unit of a household: what it draws and what it
//! generates at each tick of the day.
use crate::grid::states::{InfectionCount, InfectionState};
use crate::util::{BaseInt, ModelError, Steps, Watt, STEPS_PER_DAY};
use vstd::prelude::*;
use vstd::std_specs::convert::FromSpecImpl;
use vstd::string::StringExecFns;

verus! {

/// What the curves of a unit give for one tick of the day.
#[derive(Clone, Copy, Debug, PartialEq, Eq, Structural)]
pub struct ProfilePoint {
    /// Power that the generation curve gives.
    pub generated: Watt,
    /// Power that the consumption curve gives.
    pub used: Watt,
}

/// Contains the power generation information for a household.
///
/// The curves of the unit repeat every day, so the unit holds them as one
/// value per tick of the day.
#[derive(Debug)]
pub struct PowerGeneration {
    /// Current state of infection. Also, the indication of the system if it is
    /// vulnerable or not.
    pub infection_state: InfectionState,
    /// The index of the household associated with the power generation unit.
    pub index: Option<BaseInt>,
    /// Average power consumption
    pub average_power_usage: Watt,
    /// Whether the unit has any generation term. A unit without one only
    /// consumes.
    pub has_generation: bool,
    /// The curves of the unit, one point for each tick of the day.
    pub day_profile: Vec<ProfilePoint>,
}

/// The power that a unit generates at a point of its curves: what the
/// generation curve gives, or nothing for a unit without generation terms.
pub open spec fn generated_at(point: ProfilePoint, has_generation: bool) -> Watt {
    if has_generation {
        point.generated
    } else {
        Watt(0)
    }
}

/// Whether the profile has one point for each tick of the day, and at each of
/// them the power used minus the power generated is within the range of
/// `Watt`.
pub open spec fn profile_is_valid(profile: Seq<ProfilePoint>, has_generation: bool) -> bool {
    &&& profile.len() == STEPS_PER_DAY
    &&& forall|i: int|
        0 <= i < profile.len() ==> i64::MIN <= (#[trigger] profile[i]).used.0 - generated_at(
            profile[i],
            has_generation,
        ).0 <= i64::MAX
}

impl PowerGeneration {
    /// The profile of the unit is valid.
    pub open spec fn wf(self) -> bool {
        profile_is_valid(self.day_profile@, self.has_generation)
    }

    /// The power that the unit generates and uses at the given tick, and the
    /// difference of the two: power used minus power generated. A unit without
    /// generation terms generates nothing. Before the first tick the unit is
    /// idle.
    pub open spec fn spec_calc_power(self, step: Steps) -> (Watt, Watt, Watt) {
        if step.0 < 0 {
            (Watt(0), Watt(0), Watt(0))
        } else {
            let point = self.day_profile@[Steps::spec_slot_of_day(step)];
            let generated = generated_at(point, self.has_generation);
            (generated, point.used, Watt((point.used.0 - generated.0) as i64))
        }
    }

    /// Create a new PV power generation unit with the given curves. It is
    /// vulnerable to infection if so drawn, and immune otherwise.
    pub fn new_pv(
        index: Option<BaseInt>,
        vulnerable: bool,
        average_power_usage: Watt,
        day_profile: Vec<ProfilePoint>,
    ) -> (unit: Result<Self, ModelError>)
        ensures
            unit is Ok <==> profile_is_valid(day_profile@, true),
            unit is Ok ==> {
                &&& unit->Ok_0.wf()
                &&& unit->Ok_0.has_generation
                &&& unit->Ok_0.index == index
                &&& unit->Ok_0.average_power_usage == average_power_usage
                &&& unit->Ok_0.day_profile@ == day_profile@
                &&& unit->Ok_0.infection_state == if vulnerable {
                    InfectionState::Vulnerable
                } else {
                    InfectionState::NotVulnerable
                }
            },
            unit is Err ==> unit->Err_0 is ParamError,
    {
        Self::new(index, vulnerable, true, average_power_usage, day_profile)
    }

    /// Creates a power generation unit for a house that only consumes energy.
    /// Such a unit can not be infected.
    pub fn new_no_pv(
        index: Option<BaseInt>,
        average_power_usage: Watt,
        day_profile: Vec<ProfilePoint>,
    ) -> (unit: Result<Self, ModelError>)
        ensures
            unit is Ok <==> profile_is_valid(day_profile@, false),
            unit is Ok ==> {
                &&& unit->Ok_0.wf()
                &&& !unit->Ok_0.has_generation
                &&& unit->Ok_0.index == index
                &&& unit->Ok_0.average_power_usage == average_power_usage
                &&& unit->Ok_0.day_profile@ == day_profile@
                &&& unit->Ok_0.infection_state == InfectionState::NotVulnerable
            },
            unit is Err ==> unit->Err_0 is ParamError,
    {
        Self::new(index, false, false, average_power_usage, day_profile)
    }

    /// Creates a unit from its curves, after checking them.
    fn new(
        index: Option<BaseInt>,
        vulnerable: bool,
        has_generation: bool,
        average_power_usage: Watt,
        day_profile: Vec<ProfilePoint>,
    ) -> (unit: Result<Self, ModelError>)
        ensures
            unit is Ok <==> profile_is_valid(day_profile@, has_generation),
            unit is Ok ==> {
                &&& unit->Ok_0.wf()
                &&& unit->Ok_0.has_generation == has_generation
                &&& unit->Ok_0.index == index
                &&& unit->Ok_0.average_power_usage == average_power_usage
                &&& unit->Ok_0.day_profile@ == day_profile@
                &&& unit->Ok_0.infection_state == if has_generation && vulnerable {
                    InfectionState::Vulnerable
                } else {
                    InfectionState::NotVulnerable
                }
            },
            unit is Err ==> unit->Err_0 is ParamError,
    {
        if !check_profile(&day_profile, has_generation) {
            return Err(
                ModelError::ParamError {
                    msg: String::from_str(
                        "the daily profile needs one point per tick of the day, each within the watt range",
                    ),
                    context: String::from_str("power generation"),
                },
            );
        }
        let infection_state = if has_generation && vulnerable {
            InfectionState::Vulnerable
        } else {
            InfectionState::NotVulnerable
        };
        Ok(Self { infection_state, index, average_power_usage, has_generation, day_profile })
    }

    /// Calculates the power of the unit at the given tick: generated, used,
    /// and used minus generated.
    pub fn calc_power(&self, step: &Steps) -> (power: (Watt, Watt, Watt))
        requires
            self.wf(),
        ensures
            power == self.spec_calc_power(*step),
            !self.has_generation ==> power.0 == Watt(0) && power.2 == power.1,
            power.2.0 == power.1.0 - power.0.0,
    {
        if step.0 < 0 {
            return (Watt(0), Watt(0), Watt(0));
        }
        let slot: usize = (step.0 % STEPS_PER_DAY) as usize;
        let point = self.day_profile[slot];
        let power_generated = if self.has_generation {
            point.generated
        } else {
            Watt(0)
        };
        let power_used = point.used;
        (power_generated, power_used, Watt(power_used.0 - power_generated.0))
    }
}

/// Whether the profile is valid for a unit with or without generation terms.
pub fn check_profile(profile: &Vec<ProfilePoint>, has_generation: bool) -> (valid: bool)
    ensures
        valid == profile_is_valid(profile@, has_generation),
{
    if profile.len() != STEPS_PER_DAY as usize {
        return false;
    }
    let mut i: usize = 0;
    while i < profile.len()
        invariant
            i <= profile.len(),
            profile.len() == STEPS_PER_DAY,
            forall|k: int|
                0 <= k < i ==> i64::MIN <= (#[trigger] profile@[k]).used.0 - generated_at(
                    profile@[k],
                    has_generation,
                ).0 <= i64::MAX,
        decreases profile.len() - i,
    {
        let point = profile[i];
        let generated: i64 = if has_generation {
            point.generated.0
        } else {
            0
        };
        if point.used.0.checked_sub(generated).is_none() {
            return false;
        }
        i = i + 1;
    }
    true
}

impl From<PowerGeneration> for InfectionCount {
    /// The count of a population of this one unit.
    fn from(value: PowerGeneration) -> (count: Self) {
        InfectionCount::from(value.infection_state)
    }
}

impl FromSpecImpl<PowerGeneration> for InfectionCount {
    open spec fn obeys_from_spec() -> bool {
        true
    }

    open spec fn from_spec(value: PowerGeneration) -> Self {
        InfectionCount::of(value.infection_state)
    }
}

impl Clone for PowerGeneration {
    fn clone(&self) -> (unit: Self)
        ensures
            unit.infection_state == self.infection_state,
            unit.index == self.index,
            unit.average_power_usage == self.average_power_usage,
            unit.has_generation == self.has_generation,
            unit.day_profile@ == self.day_profile@,
    {
        let unit = Self {
            infection_state: self.infection_state,
            index: self.index,
            average_power_usage: self.average_power_usage,
            has_generation: self.has_generation,
            day_profile: self.day_profile.clone(),
        };
        proof {
            assert(unit.day_profile@ =~= self.day_profile@);
        }
        unit
    }
}

} // verus!
