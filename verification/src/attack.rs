//! The schedule of the attacker and the spread of infection and patches among
//! the households.
use crate::agent::Household;
use crate::grid::{InfectionState, PowerState};
use crate::util::{ModelError, Steps, Watt};
use vstd::prelude::*;
use vstd::string::StringExecFns;

verus! {

/// A step in the behaviour of the attacker: a window of ticks in which
/// infected units distort their figures.
#[derive(Copy, Clone, Debug, PartialEq, Eq, Structural)]
pub struct AttackBehaviour {
    /// When does the attack begin? Inclusive.
    pub begin: Steps,
    /// When does the attack end? Inclusive.
    pub end: Steps,
}

impl AttackBehaviour {
    /// Is this behaviour active on this step? Both ends of the window count.
    pub open spec fn spec_is_active(&self, step: Steps) -> bool {
        self.begin.0 <= step.0 <= self.end.0
    }

    /// Is this behaviour active on this step? Both ends of the window count.
    #[verifier::when_used_as_spec(spec_is_active)]
    pub fn is_active(&self, step: Steps) -> (active: bool)
        ensures
            active == self.spec_is_active(step),
    {
        step.0 >= self.begin.0 && step.0 <= self.end.0
    }
}

impl Default for AttackBehaviour {
    fn default() -> (behaviour: Self)
        ensures
            behaviour == (AttackBehaviour { begin: Steps(0), end: Steps(0) }),
    {
        AttackBehaviour { begin: Steps(0), end: Steps(0) }
    }
}

/// Information on the attack and patching behaviour during the model.
#[derive(Debug)]
pub struct Attack {
    /// Starting step of the infection.
    pub infection_start: Steps,
    /// Last step of the infection.
    pub infection_stop: Steps,
    /// Starting step of patching.
    pub patch_start: Steps,
    /// Last step of patching.
    pub patch_stop: Steps,
    /// A list of behaviours that are exhibited by infected units.
    pub attack_behaviour: Vec<AttackBehaviour>,
    /// Out of the list of behaviours, what is the current active one? If one
    /// is active at all.
    pub current_attack: Option<AttackBehaviour>,
}

/// The place of the first behaviour of the list that is active at the given
/// step, if any is.
pub open spec fn first_active(behaviours: Seq<AttackBehaviour>, step: Steps) -> Option<int>
    decreases behaviours.len(),
{
    if behaviours.len() == 0 {
        None
    } else {
        match first_active(behaviours.drop_last(), step) {
            Some(i) => Some(i),
            None => if behaviours.last().spec_is_active(step) {
                Some(behaviours.len() - 1)
            } else {
                None
            },
        }
    }
}

/// `first_active` gives the least place of an active behaviour, and nothing
/// exactly where no behaviour is active.
pub proof fn lemma_first_active(behaviours: Seq<AttackBehaviour>, step: Steps)
    ensures
        match first_active(behaviours, step) {
            Some(i) => {
                &&& 0 <= i < behaviours.len()
                &&& behaviours[i].spec_is_active(step)
                &&& forall|k: int| 0 <= k < i ==> !(#[trigger] behaviours[k]).spec_is_active(step)
            },
            None => forall|k: int|
                0 <= k < behaviours.len() ==> !(#[trigger] behaviours[k]).spec_is_active(step),
        },
    decreases behaviours.len(),
{
    if behaviours.len() > 0 {
        lemma_first_active(behaviours.drop_last(), step);
        assert(forall|k: int|
            0 <= k < behaviours.len() - 1 ==> behaviours[k] == behaviours.drop_last()[k]);
    }
}

/// The infection states of the units of the households, in their order.
pub open spec fn infection_states(households: Seq<Household>) -> Seq<InfectionState> {
    Seq::new(households.len(), |i: int| households[i].power_generation.infection_state)
}

/// The error that a household shows once its figures are replaced by the
/// falsified ones.
pub open spec fn falsified_error(household: Household, falsified: (Watt, Watt)) -> int {
    PowerState::attacked_error(household.powerstate.power_used, falsified.0, falsified.1)
}

/// Whether the falsified figures can be put in place at the household: the
/// error that follows from them, and the net draw that it is taken from, are
/// within the range of `Watt`.
pub open spec fn can_falsify(household: Household, falsified: (Watt, Watt)) -> bool {
    &&& i64::MIN <= household.powerstate.power_used.0 - falsified.0.0 <= i64::MAX
    &&& i64::MIN <= falsified_error(household, falsified) <= i64::MAX
}

impl Attack {
    /// Creates a test version to be used for testing: one behaviour that is
    /// active from step 10 to step 100.
    pub fn test() -> (attack: Self)
        ensures
            attack.attack_behaviour@ == seq![AttackBehaviour { begin: Steps(10), end: Steps(100) }],
            attack.current_attack is None,
            attack.infection_start == Steps(100),
            attack.infection_stop == Steps(1000),
            attack.patch_start == Steps(800),
            attack.patch_stop == Steps(60000),
    {
        let mut attack_behaviour: Vec<AttackBehaviour> = Vec::new();
        attack_behaviour.push(AttackBehaviour { begin: Steps(10), end: Steps(100) });
        proof {
            assert(attack_behaviour@ =~= seq![AttackBehaviour { begin: Steps(10), end: Steps(100) }]);
        }
        Self {
            infection_start: Steps(100),
            infection_stop: Steps(1000),
            patch_start: Steps(800),
            patch_stop: Steps(60000),
            attack_behaviour,
            current_attack: None,
        }
    }

    /// Whether the attack distorts the figures of the household: an attack
    /// behaviour is active and the unit of the household is infected.
    pub open spec fn distorts(&self, household: Household) -> bool {
        self.current_attack is Some && household.power_generation.infection_state
            == InfectionState::Infected
    }

    /// Whether the falsified figures can be put in place at every household
    /// that the attack distorts.
    pub open spec fn can_modify(&self, households: Seq<Household>, falsified: Seq<(Watt, Watt)>) -> bool {
        forall|i: int|
            0 <= i < households.len() && self.distorts(#[trigger] households[i]) ==> can_falsify(
                households[i],
                falsified[i],
            )
    }

    /// Lets every household take its step of the epidemic. The two rolls of a
    /// household are given in the order of the households: whether it is
    /// patched, and whether it is infected. Nothing but the infection states
    /// changes.
    pub fn try_to_patch_and_infect(&self, hh: &mut Vec<Household>, rolls: &Vec<(bool, bool)>)
        requires
            rolls.len() == old(hh).len(),
        ensures
            final(hh).len() == old(hh).len(),
            forall|i: int|
                0 <= i < old(hh).len() ==> (#[trigger] final(hh)@[i]).same_but_infection(
                    old(hh)@[i],
                    old(hh)@[i].power_generation.infection_state.spec_transition(
                        rolls@[i].0,
                        rolls@[i].1,
                    ),
                ),
    {
        let mut i: usize = 0;
        while i < hh.len()
            invariant
                i <= hh.len(),
                hh.len() == old(hh).len(),
                rolls.len() == hh.len(),
                forall|k: int|
                    0 <= k < i ==> (#[trigger] hh@[k]).same_but_infection(
                        old(hh)@[k],
                        old(hh)@[k].power_generation.infection_state.spec_transition(
                            rolls@[k].0,
                            rolls@[k].1,
                        ),
                    ),
                forall|k: int| i <= k < hh.len() ==> hh@[k] == old(hh)@[k],
            decreases hh.len() - i,
        {
            let (will_patch, will_infect) = rolls[i];
            let next = hh[i].power_generation.infection_state.transition(will_patch, will_infect);
            hh[i].power_generation.infection_state = next;
            i = i + 1;
        }
    }

    /// Check if in the list of behaviours an attack is active and if so, set it
    /// in the field of the struct: the first one in the order of the list.
    /// Gives the place of that behaviour in the list.
    pub fn check_current_attack(&mut self, step: Steps) -> (place: Option<usize>)
        ensures
            final(self).attack_behaviour@ == old(self).attack_behaviour@,
            final(self).infection_start == old(self).infection_start,
            final(self).infection_stop == old(self).infection_stop,
            final(self).patch_start == old(self).patch_start,
            final(self).patch_stop == old(self).patch_stop,
            match first_active(old(self).attack_behaviour@, step) {
                Some(i) => place == Some(i as usize) && final(self).current_attack == Some(
                    old(self).attack_behaviour@[i],
                ),
                None => place is None && final(self).current_attack is None,
            },
    {
        let mut i: usize = 0;
        while i < self.attack_behaviour.len()
            invariant
                i <= self.attack_behaviour.len(),
                self.attack_behaviour@ == old(self).attack_behaviour@,
                self.infection_start == old(self).infection_start,
                self.infection_stop == old(self).infection_stop,
                self.patch_start == old(self).patch_start,
                self.patch_stop == old(self).patch_stop,
                first_active(self.attack_behaviour@.take(i as int), step) is None,
            decreases self.attack_behaviour.len() - i,
        {
            let behaviour = self.attack_behaviour[i];
            proof {
                assert(self.attack_behaviour@.take(i + 1).drop_last()
                    =~= self.attack_behaviour@.take(i as int));
                lemma_first_active_prefix(self.attack_behaviour@, step, i + 1);
            }
            if behaviour.is_active(step) {
                self.current_attack = Some(behaviour);
                return Some(i);
            }
            i = i + 1;
        }
        proof {
            assert(self.attack_behaviour@.take(i as int) =~= self.attack_behaviour@);
        }
        self.current_attack = None;
        None
    }

    /// Modify the infected households using the falsified figures: for each
    /// household, in the order of the households, the generated and the
    /// reported power that it shows while it is infected and an attack is
    /// active. The figures of the other households are not looked at. If the
    /// figures can not be put in place at a household, nothing is changed at
    /// all.
    pub fn modify_infected_devices(&self, hh: &mut Vec<Household>, falsified: &Vec<(Watt, Watt)>) -> (done:
        Result<(), ModelError>)
        requires
            falsified.len() == old(hh).len(),
        ensures
            final(hh).len() == old(hh).len(),
            done is Ok <==> self.can_modify(old(hh)@, falsified@),
            done is Ok ==> forall|i: int|
                0 <= i < old(hh).len() ==> if self.distorts(old(hh)@[i]) {
                    (#[trigger] final(hh)@[i]).is_falsified(old(hh)@[i], falsified@[i])
                } else {
                    final(hh)@[i] == old(hh)@[i]
                },
            done is Err ==> done->Err_0 is InfectionError && *final(hh) == *old(hh),
    {
        if self.current_attack.is_none() {
            return Ok(());
        }
        let mut k: usize = 0;
        while k < hh.len()
            invariant
                k <= hh.len(),
                *hh == *old(hh),
                falsified.len() == hh.len(),
                self.current_attack is Some,
                forall|i: int|
                    0 <= i < k && self.distorts(#[trigger] hh@[i]) ==> can_falsify(
                        hh@[i],
                        falsified@[i],
                    ),
            decreases hh.len() - k,
        {
            if hh[k].power_generation.infection_state.is_infected() {
                let used: i64 = hh[k].powerstate.power_used.0;
                let (generated, reported) = falsified[k];
                let fits = match used.checked_sub(generated.0) {
                    Some(net) => reported.0.checked_sub(net).is_some(),
                    None => false,
                };
                if !fits {
                    return Err(
                        ModelError::InfectionError(
                            String::from_str("the falsified power figures leave the watt range"),
                        ),
                    );
                }
            }
            k = k + 1;
        }
        let mut i: usize = 0;
        while i < hh.len()
            invariant
                i <= hh.len(),
                hh.len() == old(hh).len(),
                falsified.len() == hh.len(),
                self.current_attack is Some,
                self.can_modify(old(hh)@, falsified@),
                forall|k: int|
                    0 <= k < i ==> if self.distorts(old(hh)@[k]) {
                        (#[trigger] hh@[k]).is_falsified(old(hh)@[k], falsified@[k])
                    } else {
                        hh@[k] == old(hh)@[k]
                    },
                forall|k: int| i <= k < hh.len() ==> hh@[k] == old(hh)@[k],
            decreases hh.len() - i,
        {
            if hh[i].power_generation.infection_state.is_infected() {
                let (generated, reported) = falsified[i];
                assert(self.distorts(old(hh)@[i as int]));
                hh[i].powerstate.attack(generated, reported);
            }
            i = i + 1;
        }
        Ok(())
    }
}

/// What `first_active` finds in the first `n` behaviours it also finds in the
/// whole list, and what it does not find there is decided by the next one.
pub proof fn lemma_first_active_prefix(behaviours: Seq<AttackBehaviour>, step: Steps, n: int)
    requires
        0 <= n <= behaviours.len(),
    ensures
        first_active(behaviours.take(n), step) is Some ==> first_active(behaviours, step)
            == first_active(behaviours.take(n), step),
    decreases behaviours.len() - n,
{
    if n < behaviours.len() {
        lemma_first_active_prefix(behaviours, step, n + 1);
        assert(behaviours.take(n + 1).drop_last() =~= behaviours.take(n));
    } else {
        assert(behaviours.take(n) =~= behaviours);
    }
}

} // verus!
