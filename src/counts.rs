use vstd::prelude::*;

use crate::config::StartingInfections;

verus! {

/// The number of agents in each state at one hour of the simulation.
#[derive(Copy, Clone, Debug, PartialEq, Eq, Structural)]
pub struct Counts {
    pub hour: u32,
    pub susceptible: u32,
    pub exposed: u32,
    pub infected: u32,
    pub hospitalized: u32,
    pub recovered: u32,
    pub deceased: u32,
}

/// `value` moved by `count`.
pub open spec fn shifted(value: u32, count: i32) -> int {
    value + count
}

/// A count can move by `count` without going below zero or past `u32::MAX`.
pub open spec fn can_shift(value: u32, count: i32) -> bool {
    0 <= shifted(value, count) <= u32::MAX
}

/// Moves `value` by `count`.
fn shift(value: u32, count: i32) -> (r: u32)
    requires
        can_shift(value, count),
    ensures
        r == shifted(value, count),
{
    if count < 0 {
        let magnitude: u32 = if count == i32::MIN {
            2147483648u32
        } else {
            (-count) as u32
        };
        value - magnitude
    } else {
        value + count as u32
    }
}

impl Counts {
    /// The sum of the six tallies.
    pub open spec fn total_spec(&self) -> int {
        self.susceptible + self.exposed + self.infected + self.hospitalized + self.recovered
            + self.deceased
    }

    /// The same tallies, ignoring the hour.
    pub open spec fn same_tallies(&self, other: Counts) -> bool {
        &&& self.susceptible == other.susceptible
        &&& self.exposed == other.exposed
        &&& self.infected == other.infected
        &&& self.hospitalized == other.hospitalized
        &&& self.recovered == other.recovered
        &&& self.deceased == other.deceased
    }

    pub fn new_test(
        hour: u32,
        susceptible: u32,
        exposed: u32,
        infected: u32,
        hospitalized: u32,
        recovered: u32,
        deceased: u32,
    ) -> (r: Counts)
        ensures
            r == (Counts { hour, susceptible, exposed, infected, hospitalized, recovered, deceased }),
    {
        Counts { hour, susceptible, exposed, infected, hospitalized, recovered, deceased }
    }

    pub fn new(susceptible: u32, exposed: u32, infected: u32) -> (r: Counts)
        ensures
            r == (Counts {
                hour: 0,
                susceptible,
                exposed,
                infected,
                hospitalized: 0,
                recovered: 0,
                deceased: 0,
            }),
    {
        Counts {
            hour: 0,
            susceptible,
            exposed,
            infected,
            hospitalized: 0,
            recovered: 0,
            deceased: 0,
        }
    }

    /// The counts at hour zero: the agents not named in `start_infections`
    /// are susceptible.
    pub fn counts_at_start(population: u32, start_infections: &StartingInfections) -> (r: Counts)
        requires
            start_infections.total_spec() <= population,
        ensures
            r == Counts::new_spec(
                (population - start_infections.total_spec()) as u32,
                start_infections.exposed,
                start_infections.total_infected_spec() as u32,
            ),
            r.total_spec() == population,
    {
        let s = population - start_infections.total();
        let e = start_infections.get_exposed();
        let i = start_infections.total_infected();
        Counts::new(s, e, i)
    }

    pub open spec fn new_spec(susceptible: u32, exposed: u32, infected: u32) -> Counts {
        Counts {
            hour: 0,
            susceptible,
            exposed,
            infected,
            hospitalized: 0,
            recovered: 0,
            deceased: 0,
        }
    }

    pub fn susceptible(&self) -> (r: u32)
        ensures
            r == self.susceptible,
    {
        self.susceptible
    }

    pub fn exposed(&self) -> (r: u32)
        ensures
            r == self.exposed,
    {
        self.exposed
    }

    pub fn infected(&self) -> (r: u32)
        ensures
            r == self.infected,
    {
        self.infected
    }

    pub fn hospitalized(&self) -> (r: u32)
        ensures
            r == self.hospitalized,
    {
        self.hospitalized
    }

    pub fn recovered(&self) -> (r: u32)
        ensures
            r == self.recovered,
    {
        self.recovered
    }

    pub fn deceased(&self) -> (r: u32)
        ensures
            r == self.deceased,
    {
        self.deceased
    }

    pub fn hour(&self) -> (r: u32)
        ensures
            r == self.hour,
    {
        self.hour
    }

    pub fn update_susceptible(&mut self, count: i32)
        requires
            can_shift(old(self).susceptible, count),
        ensures
            *final(self) == (Counts {
                susceptible: shifted(old(self).susceptible, count) as u32,
                ..*old(self)
            }),
    {
        self.susceptible = shift(self.susceptible, count);
    }

    pub fn update_exposed(&mut self, count: i32)
        requires
            can_shift(old(self).exposed, count),
        ensures
            *final(self) == (Counts { exposed: shifted(old(self).exposed, count) as u32, ..*old(self) }),
    {
        self.exposed = shift(self.exposed, count);
    }

    pub fn update_infected(&mut self, count: i32)
        requires
            can_shift(old(self).infected, count),
        ensures
            *final(self) == (Counts {
                infected: shifted(old(self).infected, count) as u32,
                ..*old(self)
            }),
    {
        self.infected = shift(self.infected, count);
    }

    pub fn update_recovered(&mut self, count: i32)
        requires
            can_shift(old(self).recovered, count),
        ensures
            *final(self) == (Counts {
                recovered: shifted(old(self).recovered, count) as u32,
                ..*old(self)
            }),
    {
        self.recovered = shift(self.recovered, count);
    }

    pub fn update_deceased(&mut self, count: i32)
        requires
            can_shift(old(self).deceased, count),
        ensures
            *final(self) == (Counts {
                deceased: shifted(old(self).deceased, count) as u32,
                ..*old(self)
            }),
    {
        self.deceased = shift(self.deceased, count);
    }

    pub fn update_hospitalized(&mut self, count: i32)
        requires
            can_shift(old(self).hospitalized, count),
        ensures
            *final(self) == (Counts {
                hospitalized: shifted(old(self).hospitalized, count) as u32,
                ..*old(self)
            }),
    {
        self.hospitalized = shift(self.hospitalized, count);
    }

    pub fn increment_hour(&mut self)
        requires
            old(self).hour < u32::MAX,
        ensures
            *final(self) == (Counts { hour: (old(self).hour + 1) as u32, ..*old(self) }),
    {
        self.hour = self.hour + 1;
    }

    /// Sets every tally to zero and keeps the hour.
    pub fn clear(&mut self)
        ensures
            *final(self) == (Counts {
                hour: old(self).hour,
                susceptible: 0,
                exposed: 0,
                infected: 0,
                hospitalized: 0,
                recovered: 0,
                deceased: 0,
            }),
    {
        self.susceptible = 0;
        self.exposed = 0;
        self.infected = 0;
        self.hospitalized = 0;
        self.recovered = 0;
        self.deceased = 0;
    }

    pub fn total(&self) -> (r: u32)
        requires
            self.total_spec() <= u32::MAX,
        ensures
            r == self.total_spec(),
    {
        self.susceptible + self.exposed + self.infected + self.hospitalized + self.recovered
            + self.deceased
    }
}

} // verus!
