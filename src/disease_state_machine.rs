use vstd::prelude::*;

use rand::rngs::StdRng;

use crate::disease::Disease;
use crate::random::{trial, PROBABILITY_SCALE};

verus! {

/// How an infection shows: still before symptoms (since `at_hour`), mild,
/// or severe.
#[derive(Copy, Clone, Debug, PartialEq, Eq, Structural)]
pub enum InfectionSeverity {
    Pre { at_hour: i32 },
    Mild,
    Severe,
}

/// The clinical state of one agent.
#[derive(Copy, Clone, Debug, PartialEq, Eq, Structural)]
pub enum State {
    Susceptible,
    Exposed { at_hour: i32 },
    Infected { symptoms: bool, severity: InfectionSeverity },
    Recovered,
    Deceased,
}

/// The moves the disease can make from one state to the next; a state may
/// also stay as it is.
pub open spec fn may_follow(before: State, after: State) -> bool {
    before == after || match before {
        State::Susceptible => after is Exposed,
        State::Exposed { .. } => after is Infected,
        State::Infected { symptoms, severity } => match after {
            State::Infected { symptoms: s2, severity: v2 } => s2 == symptoms && (
            severity is Pre),
            State::Recovered => true,
            State::Deceased => true,
            _ => false,
        },
        State::Recovered => false,
        State::Deceased => false,
    }
}

/// Once an agent has died its state never changes again: every move the
/// disease can make from `Deceased` leads back to `Deceased`.
pub proof fn lemma_deceased_is_terminal(after: State)
    requires
        may_follow(State::Deceased, after),
    ensures
        after == State::Deceased,
{
}

/// A chain of states in which each follows the one before it stays
/// `Deceased` from the first `Deceased` on.
pub proof fn lemma_deceased_stays_deceased(states: Seq<State>, i: int, j: int)
    requires
        forall|k: int| 0 <= k < states.len() - 1 ==> may_follow(#[trigger] states[k], states[k + 1]),
        0 <= i <= j < states.len(),
        states[i] == State::Deceased,
    ensures
        states[j] == State::Deceased,
    decreases j - i,
{
    if i < j {
        assert(may_follow(states[i], states[i + 1]));
        lemma_deceased_stays_deceased(states, i + 1, j);
    }
}

/// An exposed state whose exposure has lasted `duration` hours at `sim_hr`.
pub open spec fn exposure_elapsed(state: State, sim_hr: i32, duration: i32) -> bool {
    match state {
        State::Exposed { at_hour } => sim_hr - at_hour >= duration,
        _ => false,
    }
}

/// An infected state before symptoms that has lasted `duration` hours at
/// `sim_hr`.
pub open spec fn pre_symptoms_elapsed(state: State, sim_hr: i32, duration: i32) -> bool {
    match state {
        State::Infected { symptoms: true, severity: InfectionSeverity::Pre { at_hour } } => sim_hr
            - at_hour >= duration,
        _ => false,
    }
}

/// The state an infection starts in: before symptoms from `sim_hr` on, or
/// mild without symptoms.
pub open spec fn onset_state(symptoms: bool, sim_hr: i32) -> State {
    if symptoms {
        State::Infected { symptoms: true, severity: InfectionSeverity::Pre { at_hour: sim_hr } }
    } else {
        State::Infected { symptoms: false, severity: InfectionSeverity::Mild }
    }
}

/// An infection with symptoms of the given severity.
pub open spec fn symptomatic_state(severity: InfectionSeverity) -> State {
    State::Infected { symptoms: true, severity }
}

/// The disease as it progresses in one agent.
#[derive(Copy, Clone, Debug, PartialEq, Eq, Structural)]
pub struct DiseaseStateMachine {
    pub state: State,
    pub infection_day: i32,
}

impl DiseaseStateMachine {
    pub open spec fn is_infected_spec(&self) -> bool {
        self.state is Infected
    }

    pub open spec fn is_symptomatic_spec(&self) -> bool {
        self.state matches State::Infected { symptoms: true, .. }
    }

    pub open spec fn is_deceased_spec(&self) -> bool {
        self.state is Deceased
    }

    pub open spec fn is_mild_symptomatic_spec(&self) -> bool {
        self.state matches State::Infected { symptoms: true, severity: InfectionSeverity::Mild }
    }

    pub open spec fn is_infected_severe_spec(&self) -> bool {
        self.state matches State::Infected { severity: InfectionSeverity::Severe, .. }
    }

    pub open spec fn new_spec() -> DiseaseStateMachine {
        DiseaseStateMachine { state: State::Susceptible, infection_day: 0 }
    }

    pub fn new() -> (r: DiseaseStateMachine)
        ensures
            r == DiseaseStateMachine::new_spec(),
    {
        DiseaseStateMachine { state: State::Susceptible, infection_day: 0 }
    }

    pub fn get_infection_day(&self) -> (r: i32)
        ensures
            r == self.infection_day,
    {
        self.infection_day
    }

    /// A susceptible agent becomes exposed at `current_hour`; in any other
    /// state nothing changes.
    pub fn expose(&mut self, current_hour: i32)
        ensures
            old(self).state is Susceptible ==> final(self).state == (State::Exposed {
                at_hour: current_hour,
            }),
            !(old(self).state is Susceptible) ==> final(self).state == old(self).state,
            final(self).infection_day == old(self).infection_day,
            may_follow(old(self).state, final(self).state),
    {
        if let State::Susceptible = self.state {
            self.state = State::Exposed { at_hour: current_hour };
        }
    }

    /// An exposed agent whose exposure lasted `exposed_duration` hours
    /// becomes infected: without symptoms with the asymptomatic fraction of
    /// the disease, else before symptoms from `sim_hr` on. Returns whether
    /// the agent became infected.
    pub fn infect(&mut self, rng: &mut StdRng, sim_hr: i32, disease: &Disease) -> (r: bool)
        requires
            disease.wf(),
        ensures
            final(self).infection_day == old(self).infection_day,
            may_follow(old(self).state, final(self).state),
            r == exposure_elapsed(old(self).state, sim_hr, disease.exposed_duration),
            !r ==> final(self).state == old(self).state,
            r ==> (final(self).state == onset_state(false, sim_hr) || final(self).state
                == onset_state(true, sim_hr)),
            r && disease.percentage_asymptomatic_population == 0 ==> final(self).state
                == onset_state(true, sim_hr),
            r && disease.percentage_asymptomatic_population == PROBABILITY_SCALE ==> final(self).state == onset_state(false, sim_hr),
    {
        if let State::Exposed { at_hour } = self.state {
            if sim_hr as i64 - at_hour as i64 >= disease.exposed_duration as i64 {
                let symptoms = trial(
                    rng,
                    PROBABILITY_SCALE - disease.percentage_asymptomatic_population,
                );
                if symptoms {
                    self.state = State::Infected {
                        symptoms: true,
                        severity: InfectionSeverity::Pre { at_hour: sim_hr },
                    };
                } else {
                    self.state = State::Infected {
                        symptoms: false,
                        severity: InfectionSeverity::Mild,
                    };
                }
                return true;
            }
        }
        false
    }

    /// An agent before symptoms for `pre_symptomatic_duration` hours turns
    /// severe with the severe fraction of the disease, else mild.
    pub fn change_infection_severity(&mut self, sim_hr: i32, rng: &mut StdRng, disease: &Disease)
        requires
            disease.wf(),
        ensures
            final(self).infection_day == old(self).infection_day,
            may_follow(old(self).state, final(self).state),
            pre_symptoms_elapsed(old(self).state, sim_hr, disease.pre_symptomatic_duration) ==> (
            final(self).state == symptomatic_state(InfectionSeverity::Severe) || final(self).state
                == symptomatic_state(InfectionSeverity::Mild)),
            !pre_symptoms_elapsed(old(self).state, sim_hr, disease.pre_symptomatic_duration)
                ==> final(self).state == old(self).state,
    {
        if let State::Infected { symptoms: true, severity: InfectionSeverity::Pre { at_hour } } =
            self.state {
            if sim_hr as i64 - at_hour as i64 >= disease.pre_symptomatic_duration as i64 {
                if trial(rng, disease.percentage_severe_infected_population) {
                    self.state = State::Infected {
                        symptoms: true,
                        severity: InfectionSeverity::Severe,
                    };
                } else {
                    self.state = State::Infected {
                        symptoms: true,
                        severity: InfectionSeverity::Mild,
                    };
                }
            }
        }
    }

    /// A severe case goes to hospital on the days when its transmission
    /// rate, shifted by the agent's `immunity`, reaches the high rate.
    pub fn hospitalize(&self, disease: &Disease, immunity: i32) -> (r: bool)
        ensures
            r == (self.is_infected_severe_spec() && self.is_symptomatic_spec()
                && disease.transmission_rate(shifted_day(self.infection_day, immunity) as int)
                >= disease.high_transmission_rate),
    {
        match self.state {
            State::Infected { symptoms: true, severity: InfectionSeverity::Severe } => {
                disease.to_be_hospitalized(shift_day(self.infection_day, immunity))
            },
            _ => false,
        }
    }

    /// At the end of a day an infected agent recovers once its infection has
    /// outlasted the disease's last day; before that it dies with the death
    /// rate. Returns `(1, 0)` on a death, `(0, 1)` on a recovery and
    /// `(0, 0)` when nothing changed.
    pub fn decease(&mut self, rng: &mut StdRng, disease: &Disease) -> (r: (i32, i32))
        requires
            disease.wf(),
        ensures
            final(self).infection_day == old(self).infection_day,
            may_follow(old(self).state, final(self).state),
            !(old(self).state is Infected) ==> r == (0i32, 0i32) && final(self).state == old(self).state,
            old(self).state is Infected && old(self).infection_day > disease.last_day ==> r == (
            0i32, 1i32) && final(self).state == State::Recovered,
            old(self).state is Infected && old(self).infection_day <= disease.last_day ==> (r == (
            1i32, 0i32) && final(self).state == State::Deceased) || (r == (0i32, 0i32) && final(self).state == old(self).state),
            old(self).state is Infected && old(self).infection_day <= disease.last_day
                && disease.death_rate == 0 ==> r == (0i32, 0i32),
    {
        if let State::Infected { .. } = self.state {
            if self.infection_day > disease.get_disease_last_day() {
                self.state = State::Recovered;
                return (0, 1);
            }
            if disease.to_be_deceased(rng) {
                self.state = State::Deceased;
                return (1, 0);
            }
        }
        (0, 0)
    }

    /// Starts the agent infected, mild and without symptoms.
    pub fn set_mild_asymptomatic(&mut self)
        ensures
            final(self).state == (State::Infected {
                symptoms: false,
                severity: InfectionSeverity::Mild,
            }),
            final(self).infection_day == old(self).infection_day,
    {
        self.state = State::Infected { symptoms: false, severity: InfectionSeverity::Mild };
    }

    /// Starts the agent infected, mild and with symptoms.
    pub fn set_mild_symptomatic(&mut self)
        ensures
            final(self).state == (State::Infected {
                symptoms: true,
                severity: InfectionSeverity::Mild,
            }),
            final(self).infection_day == old(self).infection_day,
    {
        self.state = State::Infected { symptoms: true, severity: InfectionSeverity::Mild };
    }

    /// Starts the agent severely infected.
    pub fn set_severe_infected(&mut self)
        ensures
            final(self).state == (State::Infected {
                symptoms: true,
                severity: InfectionSeverity::Severe,
            }),
            final(self).infection_day == old(self).infection_day,
    {
        self.state = State::Infected { symptoms: true, severity: InfectionSeverity::Severe };
    }

    /// Counts one more day of infection; the count stops at `i32::MAX`.
    pub fn increment_infection_day(&mut self)
        ensures
            final(self).state == old(self).state,
            old(self).infection_day < i32::MAX ==> final(self).infection_day == old(self).infection_day + 1,
            old(self).infection_day == i32::MAX ==> final(self).infection_day == i32::MAX,
    {
        if self.infection_day < i32::MAX {
            self.infection_day = self.infection_day + 1;
        }
    }

    pub fn is_susceptible(&self) -> (r: bool)
        ensures
            r == self.state is Susceptible,
    {
        matches!(self.state, State::Susceptible)
    }

    pub fn is_exposed(&self) -> (r: bool)
        ensures
            r == self.state is Exposed,
    {
        matches!(self.state, State::Exposed { .. })
    }

    pub fn is_infected(&self) -> (r: bool)
        ensures
            r == self.is_infected_spec(),
    {
        matches!(self.state, State::Infected { .. })
    }

    pub fn is_recovered(&self) -> (r: bool)
        ensures
            r == self.state is Recovered,
    {
        matches!(self.state, State::Recovered)
    }

    pub fn is_deceased(&self) -> (r: bool)
        ensures
            r == self.is_deceased_spec(),
    {
        matches!(self.state, State::Deceased)
    }

    pub fn is_symptomatic(&self) -> (r: bool)
        ensures
            r == self.is_symptomatic_spec(),
    {
        matches!(self.state, State::Infected { symptoms: true, .. })
    }

    pub fn is_pre_symptomatic(&self) -> (r: bool)
        ensures
            r == self.state matches State::Infected { severity: InfectionSeverity::Pre { .. }, .. },
    {
        matches!(self.state, State::Infected { severity: InfectionSeverity::Pre { .. }, .. })
    }

    pub fn is_mild_asymptomatic(&self) -> (r: bool)
        ensures
            r == self.state matches State::Infected {
                symptoms: false,
                severity: InfectionSeverity::Mild,
            },
    {
        matches!(self.state, State::Infected { symptoms: false, severity: InfectionSeverity::Mild })
    }

    pub fn is_mild_symptomatic(&self) -> (r: bool)
        ensures
            r == self.is_mild_symptomatic_spec(),
    {
        matches!(self.state, State::Infected { symptoms: true, severity: InfectionSeverity::Mild })
    }

    pub fn is_infected_severe(&self) -> (r: bool)
        ensures
            r == self.is_infected_severe_spec(),
    {
        matches!(self.state, State::Infected { severity: InfectionSeverity::Severe, .. })
    }
}

/// `day` moved by `offset`, held within the range of `i32`.
pub open spec fn shifted_day(day: i32, offset: i32) -> i32 {
    let v = day + offset;
    if v > i32::MAX {
        i32::MAX
    } else if v < i32::MIN {
        i32::MIN
    } else {
        v as i32
    }
}

/// `day` moved by `offset`, held within the range of `i32`.
pub fn shift_day(day: i32, offset: i32) -> (r: i32)
    ensures
        r == shifted_day(day, offset),
{
    let v = day as i64 + offset as i64;
    if v > i32::MAX as i64 {
        i32::MAX
    } else if v < i32::MIN as i64 {
        i32::MIN
    } else {
        v as i32
    }
}

} // verus!
