use vstd::prelude::*;

verus! {

/// How many agents start the simulation in each state of the disease.
#[derive(Copy, Clone, Debug, PartialEq, Eq, Structural)]
pub struct StartingInfections {
    pub infected_mild_asymptomatic: u32,
    pub infected_mild_symptomatic: u32,
    pub infected_severe: u32,
    pub exposed: u32,
}

impl StartingInfections {
    pub open spec fn total_infected_spec(&self) -> int {
        self.infected_mild_asymptomatic + self.infected_mild_symptomatic + self.infected_severe
    }

    pub open spec fn total_spec(&self) -> int {
        self.total_infected_spec() + self.exposed
    }

    pub fn new(
        infected_mild_asymptomatic: u32,
        infected_mild_symptomatic: u32,
        infected_severe: u32,
        exposed: u32,
    ) -> (r: StartingInfections)
        ensures
            r.infected_mild_asymptomatic == infected_mild_asymptomatic,
            r.infected_mild_symptomatic == infected_mild_symptomatic,
            r.infected_severe == infected_severe,
            r.exposed == exposed,
    {
        StartingInfections {
            infected_mild_asymptomatic,
            infected_mild_symptomatic,
            infected_severe,
            exposed,
        }
    }

    pub fn get_infected_mild_asymptomatic(&self) -> (r: u32)
        ensures
            r == self.infected_mild_asymptomatic,
    {
        self.infected_mild_asymptomatic
    }

    pub fn get_infected_mild_symptomatic(&self) -> (r: u32)
        ensures
            r == self.infected_mild_symptomatic,
    {
        self.infected_mild_symptomatic
    }

    pub fn get_infected_severe(&self) -> (r: u32)
        ensures
            r == self.infected_severe,
    {
        self.infected_severe
    }

    pub fn get_exposed(&self) -> (r: u32)
        ensures
            r == self.exposed,
    {
        self.exposed
    }

    /// Agents that start out infected, whatever the severity.
    pub fn total_infected(&self) -> (r: u32)
        requires
            self.total_infected_spec() <= u32::MAX,
        ensures
            r == self.total_infected_spec(),
    {
        self.infected_mild_asymptomatic + self.infected_mild_symptomatic + self.infected_severe
    }

    /// Agents that start out infected or exposed.
    pub fn total(&self) -> (r: u32)
        requires
            self.total_spec() <= u32::MAX,
        ensures
            r == self.total_spec(),
    {
        self.total_infected() + self.exposed
    }
}

/// A population made up on the spot: `number_of_agents` agents, of whom
/// `working_percentage` work and `public_transport_percentage` of those
/// travel by public transport (both in parts of `PROBABILITY_SCALE`).
#[derive(Copy, Clone, Debug, PartialEq, Eq, Structural)]
pub struct AutoPopulation {
    pub number_of_agents: i32,
    pub public_transport_percentage: u32,
    pub working_percentage: u32,
}

} // verus!
