use vstd::prelude::*;

use rand::rngs::StdRng;

use crate::random::{is_probability, trial, PROBABILITY_SCALE};

verus! {

/// The parameters of a disease. Days count from the start of an infection;
/// rates and fractions are probabilities in parts of `PROBABILITY_SCALE`.
#[derive(Copy, Clone, Debug, PartialEq, Eq, Structural)]
pub struct Disease {
    pub regular_transmission_start_day: i32,
    pub high_transmission_start_day: i32,
    pub last_day: i32,
    pub asymptomatic_last_day: i32,
    pub mild_infected_last_day: i32,
    pub regular_transmission_rate: u32,
    pub high_transmission_rate: u32,
    pub death_rate: u32,
    pub percentage_asymptomatic_population: u32,
    pub percentage_severe_infected_population: u32,
    pub exposed_duration: i32,
    pub pre_symptomatic_duration: i32,
}

impl Disease {
    /// Every rate and fraction is a probability.
    pub open spec fn wf(&self) -> bool {
        &&& is_probability(self.regular_transmission_rate)
        &&& is_probability(self.high_transmission_rate)
        &&& is_probability(self.death_rate)
        &&& is_probability(self.percentage_asymptomatic_population)
        &&& is_probability(self.percentage_severe_infected_population)
    }

    /// The transmission rate on a day of the infection: the regular rate
    /// after the regular start day up to the high start day, the high rate
    /// after that up to the last day, and zero otherwise.
    pub open spec fn transmission_rate(&self, infection_day: int) -> u32 {
        if self.regular_transmission_start_day < infection_day && infection_day
            <= self.high_transmission_start_day {
            self.regular_transmission_rate
        } else if self.high_transmission_start_day < infection_day && infection_day
            <= self.last_day {
            self.high_transmission_rate
        } else {
            0
        }
    }

    pub fn new(
        regular_transmission_start_day: i32,
        high_transmission_start_day: i32,
        last_day: i32,
        asymptomatic_last_day: i32,
        mild_infected_last_day: i32,
        regular_transmission_rate: u32,
        high_transmission_rate: u32,
        death_rate: u32,
        percentage_asymptomatic_population: u32,
        percentage_severe_infected_population: u32,
        exposed_duration: i32,
        pre_symptomatic_duration: i32,
    ) -> (r: Disease)
        ensures
            r == (Disease {
                regular_transmission_start_day,
                high_transmission_start_day,
                last_day,
                asymptomatic_last_day,
                mild_infected_last_day,
                regular_transmission_rate,
                high_transmission_rate,
                death_rate,
                percentage_asymptomatic_population,
                percentage_severe_infected_population,
                exposed_duration,
                pre_symptomatic_duration,
            }),
    {
        Disease {
            regular_transmission_start_day,
            high_transmission_start_day,
            last_day,
            asymptomatic_last_day,
            mild_infected_last_day,
            regular_transmission_rate,
            high_transmission_rate,
            death_rate,
            percentage_asymptomatic_population,
            percentage_severe_infected_population,
            exposed_duration,
            pre_symptomatic_duration,
        }
    }

    pub fn get_current_transmission_rate(&self, infection_day: i32) -> (r: u32)
        ensures
            r == self.transmission_rate(infection_day as int),
    {
        if self.regular_transmission_start_day < infection_day && infection_day
            <= self.high_transmission_start_day {
            self.regular_transmission_rate
        } else if self.high_transmission_start_day < infection_day && infection_day
            <= self.last_day {
            self.high_transmission_rate
        } else {
            0
        }
    }

    /// An agent is taken to hospital once its transmission rate reaches the
    /// high rate.
    pub fn to_be_hospitalized(&self, infection_day: i32) -> (r: bool)
        ensures
            r == (self.transmission_rate(infection_day as int) >= self.high_transmission_rate),
    {
        self.get_current_transmission_rate(infection_day) >= self.high_transmission_rate
    }

    pub fn get_disease_last_day(&self) -> (r: i32)
        ensures
            r == self.last_day,
    {
        self.last_day
    }

    /// A trial with the death rate.
    pub fn to_be_deceased(&self, rng: &mut StdRng) -> (r: bool)
        requires
            self.wf(),
        ensures
            self.death_rate == 0 ==> !r,
            self.death_rate == PROBABILITY_SCALE ==> r,
    {
        trial(rng, self.death_rate)
    }

    pub fn get_percentage_asymptomatic_population(&self) -> (r: u32)
        ensures
            r == self.percentage_asymptomatic_population,
    {
        self.percentage_asymptomatic_population
    }

    pub fn get_percentage_severe_infected_population(&self) -> (r: u32)
        ensures
            r == self.percentage_severe_infected_population,
    {
        self.percentage_severe_infected_population
    }

    pub fn get_exposed_duration(&self) -> (r: i32)
        ensures
            r == self.exposed_duration,
    {
        self.exposed_duration
    }

    pub fn get_pre_symptomatic_duration(&self) -> (r: i32)
        ensures
            r == self.pre_symptomatic_duration,
    {
        self.pre_symptomatic_duration
    }
}

/// Other disease parameters for the agents whose `population_param` takes
/// one of `values`.
pub struct DiseaseOverride {
    pub population_param: String,
    pub values: Vec<String>,
    pub disease: Disease,
}

impl DiseaseOverride {
    pub fn new(population_param: String, values: Vec<String>, disease: Disease) -> (r:
        DiseaseOverride)
        ensures
            r.population_param == population_param,
            r.values == values,
            r.disease == disease,
    {
        DiseaseOverride { population_param, values, disease }
    }
}

} // verus!
