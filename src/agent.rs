use vstd::prelude::*;

use rand::rngs::StdRng;
use uuid::Uuid;

use crate::allocation_map::AgentLocationMap;
use crate::constants::{
    HOSPITAL_STAFF_PERCENTAGE,
    HOURS_IN_A_DAY,
    IMMUNITY_HIGHEST,
    IMMUNITY_LOWEST,
    MAX_SIMULATION_HOUR,
    NON_WORKING_TRAVEL_END_TIME,
    NUMBER_OF_HOURS,
    QUARANTINE_DAYS,
    ROUTINE_END_TIME,
    ROUTINE_START_TIME,
    ROUTINE_TRAVEL_END_TIME,
    ROUTINE_TRAVEL_START_TIME,
    ROUTINE_WORK_END_TIME,
    ROUTINE_WORK_TIME,
    SLEEP_END_TIME,
    SLEEP_START_TIME,
};
use crate::disease::Disease;
use crate::disease_state_machine::{shift_day, shifted_day, DiseaseStateMachine, State};
use crate::geography::{Area, Grid, Point};
use crate::config::StartingInfections;
use crate::random::{choose_one, in_range, is_probability, new_v4, sample, trial, PROBABILITY_SCALE};

verus! {

/// One line of a population file.
pub struct PopulationRecord {
    pub ind: i32,
    pub age: String,
    pub working: bool,
    pub pub_transport: bool,
}

/// What an agent does for a living, which decides its daily routine.
#[derive(Copy, Clone, Debug, PartialEq, Eq, Structural)]
pub enum WorkStatus {
    Normal,
    /// Works on through a lockdown.
    Essential,
    /// Works shifts at the hospital; the current shift began at
    /// `work_start_at`.
    HospitalStaff { work_start_at: i32 },
    /// Does not work.
    NA,
}

/// One simulated person.
#[derive(Copy, Clone, Debug)]
pub struct Citizen {
    pub id: Uuid,
    pub immunity: i32,
    pub home_location: Area,
    pub work_location: Area,
    pub vaccinated: bool,
    pub uses_public_transport: bool,
    pub working: bool,
    pub hospitalized: bool,
    pub transport_location: Point,
    pub state_machine: DiseaseStateMachine,
    pub isolated: bool,
    pub current_area: Area,
    pub work_status: WorkStatus,
    pub work_quarantined: bool,
}

/// The frozen view of an hour: a well-formed occupancy map whose agents
/// are all in `population`.
pub open spec fn snapshot_wf(map: &AgentLocationMap, population: Seq<Citizen>) -> bool {
    &&& map.wf()
    &&& forall|p: Point| #[trigger] map@.dom().contains(p) ==> map@[p] < population.len()
}

/// Where an agent on `cell` may end an hour: on `cell` itself, or on a cell
/// of the grid that is vacant in the snapshot.
pub open spec fn is_destination(map: &AgentLocationMap, cell: Point, r: Point) -> bool {
    r == cell || (map.grid_area.contains_spec(r) && !map@.dom().contains(r))
}

/// A neighbour of `cell` in `area` that can pass the disease on: it is in
/// the snapshot, infected, not in hospital, and its transmission rate is
/// positive.
pub open spec fn is_spreading_neighbor(
    map: &AgentLocationMap,
    population: Seq<Citizen>,
    area: Area,
    cell: Point,
    p: Point,
    disease: Disease,
) -> bool {
    &&& area.contains_spec(p)
    &&& cell.is_adjacent_to(p)
    &&& map@.dom().contains(p)
    &&& population[map@[p] as int].state_machine.state is Infected
    &&& !population[map@[p] as int].hospitalized
    &&& population[map@[p] as int].transmission_rate(disease) > 0
}

impl Citizen {
    /// Its areas are well formed and its immunity is in the configured
    /// range.
    pub open spec fn wf(&self) -> bool {
        &&& self.home_location.wf()
        &&& self.work_location.wf()
        &&& self.current_area.wf()
        &&& IMMUNITY_LOWEST <= self.immunity <= IMMUNITY_HIGHEST
    }

    pub open spec fn can_move_spec(&self) -> bool {
        !(self.state_machine.is_symptomatic_spec() || self.hospitalized
            || self.state_machine.is_deceased_spec() || self.isolated)
    }

    pub open spec fn transmission_rate(&self, disease: Disease) -> u32 {
        disease.transmission_rate(
            shifted_day(self.state_machine.infection_day, self.immunity) as int,
        )
    }

    /// The agent is who it was: identity, places and flags other than those
    /// of the daily routine are kept.
    pub open spec fn same_person(&self, other: Citizen) -> bool {
        &&& self.id == other.id
        &&& self.immunity == other.immunity
        &&& self.home_location == other.home_location
        &&& self.work_location == other.work_location
        &&& self.transport_location == other.transport_location
        &&& self.vaccinated == other.vaccinated
        &&& self.uses_public_transport == other.uses_public_transport
        &&& self.working == other.working
        &&& self.isolated == other.isolated
        &&& (self.work_status is Essential <==> other.work_status is Essential)
    }

    pub fn new(
        home_location: Area,
        work_location: Area,
        transport_location: Point,
        uses_public_transport: bool,
        working: bool,
        work_status: WorkStatus,
        rng: &mut StdRng,
    ) -> (r: Citizen)
        requires
            home_location.wf(),
            work_location.wf(),
        ensures
            r.wf(),
            r.home_location == home_location,
            r.work_location == work_location,
            r.transport_location == transport_location,
            r.uses_public_transport == uses_public_transport,
            r.working == working,
            r.work_status == work_status,
            r.current_area == home_location,
            r.state_machine == DiseaseStateMachine::new_spec(),
            !r.vaccinated && !r.hospitalized && !r.isolated && !r.work_quarantined,
    {
        Citizen::new_with_id(
            new_v4(),
            home_location,
            work_location,
            transport_location,
            uses_public_transport,
            working,
            work_status,
            rng,
        )
    }

    pub fn new_with_id(
        id: Uuid,
        home_location: Area,
        work_location: Area,
        transport_location: Point,
        uses_public_transport: bool,
        working: bool,
        work_status: WorkStatus,
        rng: &mut StdRng,
    ) -> (r: Citizen)
        requires
            home_location.wf(),
            work_location.wf(),
        ensures
            r.wf(),
            r.id == id,
            r.home_location == home_location,
            r.work_location == work_location,
            r.transport_location == transport_location,
            r.uses_public_transport == uses_public_transport,
            r.working == working,
            r.work_status == work_status,
            r.current_area == home_location,
            r.state_machine == DiseaseStateMachine::new_spec(),
            !r.vaccinated && !r.hospitalized && !r.isolated && !r.work_quarantined,
    {
        let disease_randomness_factor = Citizen::generate_disease_randomness_factor(rng);
        Citizen {
            id,
            immunity: disease_randomness_factor,
            home_location,
            work_location,
            transport_location,
            vaccinated: false,
            uses_public_transport,
            working,
            hospitalized: false,
            state_machine: DiseaseStateMachine::new(),
            isolated: false,
            current_area: home_location,
            work_status,
            work_quarantined: false,
        }
    }

    /// An agent read from a population file.
    pub fn from_record(
        record: &PopulationRecord,
        home_location: Area,
        work_location: Area,
        transport_location: Point,
        rng: &mut StdRng,
    ) -> (r: Citizen)
        requires
            home_location.wf(),
            work_location.wf(),
        ensures
            r.wf(),
            r.home_location == home_location,
            r.work_location == work_location,
            r.transport_location == transport_location,
            r.uses_public_transport == record.pub_transport,
            r.working == record.working,
            !record.working ==> r.work_status == WorkStatus::NA,
            record.working ==> r.work_status == WorkStatus::Normal || r.work_status == (
            WorkStatus::HospitalStaff { work_start_at: ROUTINE_WORK_TIME }),
            r.current_area == home_location,
            r.state_machine == DiseaseStateMachine::new_spec(),
            !r.vaccinated && !r.hospitalized && !r.isolated && !r.work_quarantined,
    {
        let work_status = Citizen::derive_work_status(record.working, rng);
        Citizen::new(
            home_location,
            work_location,
            transport_location,
            record.pub_transport,
            record.working,
            work_status,
            rng,
        )
    }

    /// The immunity offset of a new agent.
    fn generate_disease_randomness_factor(rng: &mut StdRng) -> (r: i32)
        ensures
            IMMUNITY_LOWEST <= r <= IMMUNITY_HIGHEST,
    {
        in_range(rng, IMMUNITY_LOWEST, IMMUNITY_HIGHEST)
    }

    /// A working agent works at the hospital with the hospital staff
    /// fraction, else has a normal job; others do not work.
    fn derive_work_status(is_working: bool, rng: &mut StdRng) -> (r: WorkStatus)
        ensures
            !is_working ==> r == WorkStatus::NA,
            is_working ==> r == WorkStatus::Normal || r == (WorkStatus::HospitalStaff {
                work_start_at: ROUTINE_WORK_TIME,
            }),
    {
        if is_working {
            if trial(rng, HOSPITAL_STAFF_PERCENTAGE) {
                return WorkStatus::HospitalStaff { work_start_at: ROUTINE_WORK_TIME };
            }
            return WorkStatus::Normal;
        }
        WorkStatus::NA
    }

    /// How likely this agent is to infect a neighbour now.
    pub fn get_infection_transmission_rate(&self, disease: &Disease) -> (r: u32)
        ensures
            r == self.transmission_rate(*disease),
    {
        disease.get_current_transmission_rate(
            shift_day(self.state_machine.get_infection_day(), self.immunity),
        )
    }

    pub fn set_vaccination(&mut self, vaccinated: bool)
        ensures
            *final(self) == (Citizen { vaccinated, ..*old(self) }),
    {
        self.vaccinated = vaccinated;
    }

    /// Agents with symptoms, in hospital, dead or isolated stay where they
    /// are.
    pub fn can_move(&self) -> (r: bool)
        ensures
            r == self.can_move_spec(),
    {
        !(self.state_machine.is_symptomatic() || self.hospitalized
            || self.state_machine.is_deceased() || self.isolated)
    }

    pub fn set_isolation(&mut self, state: bool)
        ensures
            *final(self) == (Citizen { isolated: state, ..*old(self) }),
    {
        self.isolated = state;
    }

    pub fn is_isolated(&self) -> (r: bool)
        ensures
            r == self.isolated,
    {
        self.isolated
    }

    pub fn is_working(&self) -> (r: bool)
        ensures
            r == self.working,
    {
        self.working
    }

    pub fn get_immunity(&self) -> (r: i32)
        ensures
            r == self.immunity,
    {
        self.immunity
    }

    pub fn is_vaccinated(&self) -> (r: bool)
        ensures
            r == self.vaccinated,
    {
        self.vaccinated
    }

    pub fn is_hospitalized(&self) -> (r: bool)
        ensures
            r == self.hospitalized,
    {
        self.hospitalized
    }

    pub fn is_exposed(&self) -> (r: bool)
        ensures
            r == self.state_machine.state is Exposed,
    {
        self.state_machine.is_exposed()
    }

    pub fn is_mild_asymptomatic(&self) -> (r: bool)
        ensures
            r == self.state_machine.state matches State::Infected {
                symptoms: false,
                severity: crate::disease_state_machine::InfectionSeverity::Mild,
            },
    {
        self.state_machine.is_mild_asymptomatic()
    }

    pub fn is_mild_symptomatic(&self) -> (r: bool)
        ensures
            r == self.state_machine.is_mild_symptomatic_spec(),
    {
        self.state_machine.is_mild_symptomatic()
    }

    pub fn is_infected_severe(&self) -> (r: bool)
        ensures
            r == self.state_machine.is_infected_severe_spec(),
    {
        self.state_machine.is_infected_severe()
    }

    fn is_hospital_staff(&self) -> (r: bool)
        ensures
            r == self.work_status is HospitalStaff,
    {
        match self.work_status {
            WorkStatus::HospitalStaff { .. } => true,
            _ => false,
        }
    }

    pub fn is_essential_worker(&self) -> (r: bool)
        ensures
            r == self.work_status is Essential,
    {
        match self.work_status {
            WorkStatus::Essential => true,
            _ => false,
        }
    }

    /// An agent with a normal job becomes an essential worker with
    /// probability `essential_workers_percentage`.
    pub fn assign_essential_worker(&mut self, essential_workers_percentage: u32, rng: &mut StdRng)
        requires
            is_probability(essential_workers_percentage),
        ensures
            final(self).work_status == old(self).work_status || (old(self).work_status
                is Normal && final(self).work_status is Essential),
            old(self).work_status is Normal && essential_workers_percentage == 0 ==> final(self).work_status is Normal,
            old(self).work_status is Normal && essential_workers_percentage == PROBABILITY_SCALE
                ==> final(self).work_status is Essential,
            *final(self) == (Citizen { work_status: final(self).work_status, ..*old(self) }),
    {
        if let WorkStatus::Normal = self.work_status {
            if trial(rng, essential_workers_percentage) {
                self.work_status = WorkStatus::Essential;
            }
        }
    }
}

/// `q` is a vacant cell of the grid next to `cell` within `area`.
pub open spec fn vacant_neighbor(map: &AgentLocationMap, area: Area, cell: Point, q: Point) -> bool {
    &&& area.contains_spec(q)
    &&& cell.is_adjacent_to(q)
    &&& map.grid_area.contains_spec(q)
    &&& !map@.dom().contains(q)
}

/// Some cell next to `cell` within `area` is a vacant cell of the grid.
pub open spec fn has_vacant_neighbor(map: &AgentLocationMap, area: Area, cell: Point) -> bool {
    exists|q: Point| #[trigger] vacant_neighbor(map, area, cell, q)
}

impl Citizen {
    /// An infected agent not yet in hospital whose severe case is due there.
    pub open spec fn due_for_hospital(&self, disease: Disease) -> bool {
        &&& self.state_machine.is_infected_spec()
        &&& !self.hospitalized
        &&& self.state_machine.is_infected_severe_spec()
        &&& self.state_machine.is_symptomatic_spec()
        &&& disease.transmission_rate(
            shifted_day(self.state_machine.infection_day, self.immunity) as int,
        ) >= disease.high_transmission_rate
    }

    /// A sick worker at work heading home, who may move although it cannot
    /// move otherwise.
    pub open spec fn may_go_home_sick(&self, cell: Point, target_area: Area) -> bool {
        &&& (self.work_status is Normal || self.work_status is Essential)
        &&& self.work_location.contains_spec(cell)
        &&& target_area == self.home_location
        &&& (self.state_machine.is_mild_symptomatic_spec()
            || self.state_machine.is_infected_severe_spec())
    }

    /// A step to a vacant cell around the agent within its current area, or
    /// no step when there is none or the agent cannot move. An agent found
    /// outside its current area looks around a random cell of that area.
    fn move_agent_from(&self, map: &AgentLocationMap, cell: Point, rng: &mut StdRng) -> (r: Point)
        requires
            self.wf(),
            map.wf(),
            map.grid_area.contains_spec(cell),
        ensures
            is_destination(map, cell, r),
            r != cell ==> self.can_move_spec() && self.current_area.contains_spec(r),
            r != cell && self.current_area.contains_spec(cell) ==> cell.is_adjacent_to(r),
            self.can_move_spec() && self.current_area.contains_spec(cell) && has_vacant_neighbor(
                map,
                self.current_area,
                cell,
            ) ==> r != cell,
    {
        if !self.can_move() {
            return cell;
        }
        proof {
            map.lemma_view();
        }
        let mut current_location = cell;
        if !self.current_area.contains(&cell) {
            current_location = self.current_area.get_random_point(rng);
        }
        let neighbours = self.current_area.get_neighbors_of(current_location);
        let mut vacant: Vec<Point> = Vec::new();
        let mut i: usize = 0;
        while i < neighbours.len()
            invariant
                i <= neighbours@.len(),
                map.wf(),
                forall|q: Point|
                    neighbours@.contains(q) <==> (self.current_area.contains_spec(q)
                        && current_location.is_adjacent_to(q)),
                forall|k: int|
                    0 <= k < vacant@.len() ==> {
                        &&& map.grid_area.contains_spec(#[trigger] vacant@[k])
                        &&& !map@.dom().contains(vacant@[k])
                        &&& neighbours@.contains(vacant@[k])
                    },
                forall|k: int|
                    0 <= k < i && map.grid_area.contains_spec(#[trigger] neighbours@[k])
                        && !map@.dom().contains(neighbours@[k]) ==> vacant@.contains(neighbours@[k]),
            decreases neighbours@.len() - i,
        {
            let p = neighbours[i];
            let ghost before = vacant@;
            if map.is_point_in_grid(&p) && map.is_cell_vacant(&p) {
                vacant.push(p);
                proof {
                    assert forall|k: int|
                        0 <= k < i + 1 && map.grid_area.contains_spec(#[trigger] neighbours@[k])
                            && !map@.dom().contains(neighbours@[k]) implies vacant@.contains(
                        neighbours@[k],
                    ) by {
                        if k < i {
                            let j = choose|j: int| 0 <= j < before.len() && before[j] == neighbours@[k];
                            assert(vacant@[j] == neighbours@[k]);
                        } else {
                            assert(vacant@[vacant@.len() - 1] == neighbours@[k]);
                        }
                    }
                }
            }
            i = i + 1;
        }
        proof {
            if self.current_area.contains_spec(cell) && has_vacant_neighbor(map, self.current_area, cell) {
                let q = choose|q: Point| vacant_neighbor(map, self.current_area, cell, q);
                assert(neighbours@.contains(q));
                let k = choose|k: int| 0 <= k < neighbours@.len() && neighbours@[k] == q;
                assert(vacant@.contains(neighbours@[k]));
                assert(vacant@.len() > 0);
            }
        }
        let new_cell = match choose_one(rng, &vacant) {
            Some(p) => p,
            None => cell,
        };
        map.resolve_move(cell, new_cell)
    }

    /// Heads for a random cell of `target_area`. An agent that cannot move
    /// stays, except a sick worker going home from work; an agent without
    /// work wanders around instead.
    fn goto_area(&self, target_area: Area, map: &AgentLocationMap, cell: Point, rng: &mut StdRng) -> (r: Point)
        requires
            self.wf(),
            target_area.wf(),
            map.wf(),
            map.grid_area.contains_spec(cell),
        ensures
            is_destination(map, cell, r),
            r != cell ==> self.can_move_spec() || self.may_go_home_sick(cell, target_area),
            self.working ==> r == cell || target_area.contains_spec(r),
            !self.working ==> r == cell || self.current_area.contains_spec(r),
    {
        let mut override_movement = false;
        match self.work_status {
            WorkStatus::Normal | WorkStatus::Essential => {
                if self.work_location.contains(&cell) && target_area == self.home_location && (
                self.state_machine.is_mild_symptomatic() || self.state_machine.is_infected_severe()) {
                    override_movement = true;
                }
            },
            _ => {},
        }
        if !self.can_move() && !override_movement {
            return cell;
        }
        if self.working {
            let mut new_cell: Point = target_area.get_random_point(rng);
            if !map.is_cell_vacant(&new_cell) {
                new_cell = cell;
            }
            return map.resolve_move(cell, new_cell);
        }
        self.move_agent_from(map, cell, rng)
    }

    /// A susceptible agent that is neither quarantined at work nor
    /// vaccinated runs one trial per spreading neighbour, at that neighbour's
    /// transmission rate, and is exposed at `sim_hr` on the first success.
    fn update_exposure(
        &mut self,
        cell: Point,
        map: &AgentLocationMap,
        population: &Vec<Citizen>,
        sim_hr: i32,
        rng: &mut StdRng,
        disease: &Disease,
    )
        requires
            old(self).wf(),
            disease.wf(),
            snapshot_wf(map, population@),
            map.grid_area.contains_spec(cell),
        ensures
            *final(self) == (Citizen { state_machine: final(self).state_machine, ..*old(self) }),
            final(self).state_machine.infection_day == old(self).state_machine.infection_day,
            final(self).state_machine.state == old(self).state_machine.state || ({
                &&& old(self).state_machine.state is Susceptible
                &&& !old(self).work_quarantined
                &&& !old(self).vaccinated
                &&& final(self).state_machine.state == (State::Exposed { at_hour: sim_hr })
                &&& exists|p: Point|
                    is_spreading_neighbor(
                        map,
                        population@,
                        old(self).current_area,
                        cell,
                        p,
                        *disease,
                    )
            }),
    {
        if self.state_machine.is_susceptible() && !self.work_quarantined && !self.vaccinated {
            proof {
                map.lemma_view();
            }
            let neighbours = self.current_area.get_neighbors_of(cell);
            let ghost area = self.current_area;
            let mut i: usize = 0;
            while i < neighbours.len()
                invariant
                    i <= neighbours@.len(),
                    *self == *old(self),
                    area == old(self).current_area,
                    old(self).state_machine.state is Susceptible,
                    !old(self).work_quarantined,
                    !old(self).vaccinated,
                    disease.wf(),
                    snapshot_wf(map, population@),
                    forall|q: Point|
                        #[trigger] neighbours@.contains(q) <==> (area.contains_spec(q)
                            && cell.is_adjacent_to(q)),
                decreases neighbours@.len() - i,
            {
                let p = neighbours[i];
                assert(neighbours@.contains(p));
                if map.is_point_in_grid(&p) {
                    if let Some(a) = map.get_agent_for(&p) {
                        let neighbor = &population[a];
                        if neighbor.state_machine.is_infected() && !neighbor.hospitalized {
                            let rate = neighbor.get_infection_transmission_rate(disease);
                            if trial(rng, rate) {
                                assert(is_spreading_neighbor(
                                    map,
                                    population@,
                                    area,
                                    cell,
                                    p,
                                    *disease,
                                ));
                                self.state_machine.expose(sim_hr);
                                return ;
                            }
                        }
                    }
                }
                i = i + 1;
            }
        }
    }

    fn update_infection(&mut self, sim_hr: i32, rng: &mut StdRng, disease: &Disease)
        requires
            disease.wf(),
        ensures
            *final(self) == (Citizen { state_machine: final(self).state_machine, ..*old(self) }),
            final(self).state_machine.infection_day == old(self).state_machine.infection_day,
            crate::disease_state_machine::may_follow(
                old(self).state_machine.state,
                final(self).state_machine.state,
            ),
    {
        if self.state_machine.is_exposed() {
            self.state_machine.infect(rng, sim_hr, disease);
        }
    }

    fn update_infection_severity(&mut self, sim_hr: i32, rng: &mut StdRng, disease: &Disease)
        requires
            disease.wf(),
        ensures
            *final(self) == (Citizen { state_machine: final(self).state_machine, ..*old(self) }),
            final(self).state_machine.infection_day == old(self).state_machine.infection_day,
            crate::disease_state_machine::may_follow(
                old(self).state_machine.state,
                final(self).state_machine.state,
            ),
    {
        if self.state_machine.is_pre_symptomatic() {
            self.state_machine.change_infection_severity(sim_hr, rng, disease);
        }
    }

    /// Exposure, then the onset of infection, then the turn of symptoms.
    fn update_infection_dynamics(
        &mut self,
        cell: Point,
        map: &AgentLocationMap,
        population: &Vec<Citizen>,
        sim_hr: i32,
        rng: &mut StdRng,
        disease: &Disease,
    )
        requires
            old(self).wf(),
            disease.wf(),
            snapshot_wf(map, population@),
            map.grid_area.contains_spec(cell),
        ensures
            *final(self) == (Citizen { state_machine: final(self).state_machine, ..*old(self) }),
            final(self).state_machine.infection_day == old(self).state_machine.infection_day,
            old(self).state_machine.state is Deceased ==> final(self).state_machine == old(
                self).state_machine,
            old(self).state_machine.state is Recovered ==> final(self).state_machine.state
                is Recovered,
    {
        self.update_exposure(cell, map, population, sim_hr, rng, disease);
        self.update_infection(sim_hr, rng, disease);
        self.update_infection_severity(sim_hr, rng, disease);
    }

    fn update_infection_day(&mut self)
        ensures
            *final(self) == (Citizen { state_machine: final(self).state_machine, ..*old(self) }),
            final(self).state_machine.state == old(self).state_machine.state,
            !old(self).state_machine.is_infected_spec() ==> *final(self) == *old(self),
            old(self).state_machine.is_infected_spec() && old(self).state_machine.infection_day
                < i32::MAX ==> final(self).state_machine.infection_day == old(
                self).state_machine.infection_day + 1,
    {
        if self.state_machine.is_infected() {
            self.state_machine.increment_infection_day();
        }
    }

    /// A severe case due for hospital takes the first vacant hospital cell;
    /// it stays where it is when the hospital is full.
    fn hospitalize(&mut self, cell: Point, hospital: &Area, map: &AgentLocationMap, disease: &Disease) -> (r: Point)
        requires
            old(self).wf(),
            hospital.wf(),
            map.wf(),
            map.grid_area.contains_spec(cell),
        ensures
            is_destination(map, cell, r),
            *final(self) == (Citizen { hospitalized: final(self).hospitalized, ..*old(self) }),
            final(self).hospitalized != old(self).hospitalized ==> final(self).hospitalized
                && hospital.contains_spec(r),
            r != cell ==> old(self).state_machine.is_infected_spec(),
            !old(self).due_for_hospital(*disease) ==> *final(self) == *old(self) && r == cell,
            final(self).hospitalized != old(self).hospitalized ==> old(self).due_for_hospital(
                *disease,
            ),
            old(self).due_for_hospital(*disease) && !final(self).hospitalized ==> r == cell
                && forall|p: Point|
                hospital.contains_spec(p) && map.grid_area.contains_spec(p)
                    ==> #[trigger] map@.dom().contains(p),
    {
        let mut new_cell = cell;
        if self.state_machine.is_infected() && !self.hospitalized {
            if self.state_machine.hospitalize(disease, self.immunity) {
                let (is_hospitalized, new_location) = map.goto_hospital(hospital, cell);
                new_cell = new_location;
                if is_hospitalized {
                    self.hospitalized = true;
                }
            }
        }
        new_cell
    }

    /// At the end of the day an infected agent may die or recover; either
    /// way it leaves hospital and goes home.
    fn deceased(&mut self, map: &AgentLocationMap, cell: Point, rng: &mut StdRng, disease: &Disease) -> (r: Point)
        requires
            old(self).wf(),
            disease.wf(),
            map.wf(),
            map.grid_area.contains_spec(cell),
        ensures
            final(self).wf(),
            is_destination(map, cell, r),
            *final(self) == (Citizen {
                state_machine: final(self).state_machine,
                hospitalized: final(self).hospitalized,
                current_area: final(self).current_area,
                ..*old(self)
            }),
            final(self).state_machine.infection_day == old(self).state_machine.infection_day,
            crate::disease_state_machine::may_follow(
                old(self).state_machine.state,
                final(self).state_machine.state,
            ),
            r != cell ==> old(self).state_machine.is_infected_spec(),
            final(self).state_machine.state == old(self).state_machine.state ==> *final(self)
                == *old(self) && r == cell,
            !old(self).state_machine.is_infected_spec() ==> *final(self) == *old(self) && r == cell,
            final(self).state_machine.state != old(self).state_machine.state ==> {
                &&& !final(self).hospitalized
                &&& final(self).current_area == old(self).home_location
                &&& (r == cell || old(self).home_location.contains_spec(r))
            },
            old(self).state_machine.is_infected_spec() && old(self).state_machine.infection_day
                > disease.last_day ==> final(self).state_machine.state == State::Recovered,
    {
        let mut new_cell = cell;
        if self.state_machine.is_infected() {
            let result = self.state_machine.decease(rng, disease);
            if result.0 != 0 || result.1 != 0 {
                let home = self.home_location.get_random_point(rng);
                new_cell = map.resolve_move(cell, home);
                self.current_area = self.home_location;
                self.hospitalized = false;
            }
        }
        new_cell
    }
}

/// Hours a hospital worker spends on shift, and then off.
pub open spec fn shift_hours() -> int {
    HOURS_IN_A_DAY * QUARANTINE_DAYS
}

/// Where an agent goes in an hour `hour_of_day` of the day outside the
/// fixed hours of its routine, by the kind of work it does. `o` is the agent
/// before the hour, `f` after it, and `r` the cell it asks for.
pub open spec fn movement_rules(
    o: Citizen,
    f: Citizen,
    cell: Point,
    hour_of_day: i32,
    simulation_hr: i32,
    grid: Grid,
    map: &AgentLocationMap,
    r: Point,
) -> bool {
    let h = hour_of_day;
    let travel = h == ROUTINE_TRAVEL_START_TIME || h == ROUTINE_TRAVEL_END_TIME;
    &&& (o.work_status is Normal || o.work_status is Essential) ==> {
        &&& f.work_status == o.work_status
        &&& travel && o.uses_public_transport ==> f.current_area == grid.transport_area
        &&& travel && !o.uses_public_transport ==> f.current_area == o.current_area && (r == cell
            || o.current_area.contains_spec(r))
        &&& h == ROUTINE_WORK_TIME ==> f.current_area == o.work_location && (o.working
            && o.can_move_spec() ==> r == cell || o.work_location.contains_spec(r))
        &&& h == ROUTINE_WORK_END_TIME ==> f.current_area == o.home_location && (o.working
            && o.can_move_spec() ==> r == cell || o.home_location.contains_spec(r))
        &&& !travel && h != ROUTINE_WORK_TIME && h != ROUTINE_WORK_END_TIME ==> {
            &&& f.current_area == o.current_area
            &&& r == cell || o.current_area.contains_spec(r)
            &&& o.can_move_spec() && o.current_area.contains_spec(cell) && has_vacant_neighbor(
                map,
                o.current_area,
                cell,
            ) ==> r != cell
        }
    }
    &&& o.work_status is NA ==> {
        &&& f.work_status is NA
        &&& h == ROUTINE_WORK_TIME ==> f.current_area == grid.housing_area
        &&& h == NON_WORKING_TRAVEL_END_TIME ==> f.current_area == o.home_location
        &&& h != ROUTINE_WORK_TIME && h != NON_WORKING_TRAVEL_END_TIME ==> {
            &&& f.current_area == o.current_area
            &&& r == cell || o.current_area.contains_spec(r)
            &&& o.can_move_spec() && o.current_area.contains_spec(cell) && has_vacant_neighbor(
                map,
                o.current_area,
                cell,
            ) ==> r != cell
        }
    }
    &&& o.work_status matches WorkStatus::HospitalStaff { work_start_at } ==> {
        &&& f.work_status is HospitalStaff
        &&& simulation_hr - work_start_at == shift_hours() ==> {
            &&& r == cell
            &&& f.work_quarantined
            &&& f.current_area == o.current_area
            &&& f.work_status == o.work_status
            &&& f.state_machine == o.state_machine
        }
        &&& simulation_hr - work_start_at == 2 * shift_hours() ==> {
            &&& f.work_status == (WorkStatus::HospitalStaff {
                work_start_at: (simulation_hr + shift_hours()) as i32,
            })
            &&& f.current_area == o.home_location
            &&& f.state_machine == o.state_machine
            &&& o.working ==> r == cell || o.home_location.contains_spec(r)
        }
    }
}

/// The outcome of an agent's hour `simulation_hour`: `o` is the agent
/// before, `f` after, and `r` the cell it asks for, which is its own `cell`
/// or a cell of the grid vacant in the snapshot `map`. The agent stays who it
/// is and a dead agent does not change at all. At night the agent stays put
/// and is at home, unless it works at the hospital; at the start of the day
/// an infection advances a day and only an agent due for hospital is taken
/// there; at the end of the day only an infected agent changes, and one that
/// dies or recovers leaves hospital for home; at the other hours it follows
/// `movement_rules`.
pub open spec fn hour_taken(
    o: Citizen,
    f: Citizen,
    cell: Point,
    simulation_hour: i32,
    grid: Grid,
    map: &AgentLocationMap,
    disease: Disease,
    r: Point,
) -> bool {
    let h = simulation_hour % NUMBER_OF_HOURS;
    &&& f.wf()
    &&& is_destination(map, cell, r)
    &&& f.same_person(o)
    &&& o.state_machine.state is Deceased ==> r == cell && f.state_machine == o.state_machine
        && f.hospitalized == o.hospitalized
    &&& o.state_machine.state is Recovered ==> f.state_machine.state is Recovered
    &&& SLEEP_START_TIME <= h <= SLEEP_END_TIME ==> {
        &&& r == cell
        &&& f.state_machine == o.state_machine
        &&& f.hospitalized == o.hospitalized
        &&& !(o.work_status is HospitalStaff) ==> f.current_area == o.home_location
        &&& o.work_status is HospitalStaff ==> f.current_area == o.current_area
    }
    &&& h == ROUTINE_START_TIME ==> {
        &&& f.state_machine.state == o.state_machine.state
        &&& o.state_machine.is_infected_spec() && o.state_machine.infection_day < i32::MAX
            ==> f.state_machine.infection_day == o.state_machine.infection_day + 1
        &&& !o.state_machine.is_infected_spec() ==> f == o && r == cell
        &&& f.hospitalized != o.hospitalized ==> f.hospitalized && grid.hospital_area.contains_spec(
            r,
        )
    }
    &&& h == ROUTINE_END_TIME ==> {
        &&& !o.state_machine.is_infected_spec() ==> f == o && r == cell
        &&& f.state_machine.state != o.state_machine.state ==> !f.hospitalized && f.current_area
            == o.home_location
        &&& o.state_machine.is_infected_spec() && o.state_machine.infection_day > disease.last_day
            ==> f.state_machine.state == State::Recovered
    }
    &&& h != ROUTINE_START_TIME && !(SLEEP_START_TIME <= h <= SLEEP_END_TIME) && h
        != ROUTINE_END_TIME ==> movement_rules(o, f, cell, h as i32, simulation_hour, grid, map, r)
}

impl Citizen {
    /// What an agent does in an hour of the day outside the fixed hours of
    /// the routine, by the kind of work it does; every branch but a hospital
    /// worker's shift change ends with the agent's disease moving on.
    fn perform_movements(
        &mut self,
        cell: Point,
        hour_of_day: i32,
        simulation_hr: i32,
        grid: &Grid,
        map: &AgentLocationMap,
        population: &Vec<Citizen>,
        rng: &mut StdRng,
        disease: &Disease,
    ) -> (r: Point)
        requires
            old(self).wf(),
            grid.wf(),
            disease.wf(),
            snapshot_wf(map, population@),
            map.grid_area.contains_spec(cell),
            0 <= simulation_hr <= MAX_SIMULATION_HOUR,
        ensures
            final(self).wf(),
            is_destination(map, cell, r),
            final(self).same_person(*old(self)),
            final(self).hospitalized == old(self).hospitalized,
            old(self).state_machine.state is Deceased ==> r == cell && final(self).state_machine
                == old(self).state_machine,
            old(self).state_machine.state is Recovered ==> final(self).state_machine.state
                is Recovered,
            movement_rules(*old(self), *final(self), cell, hour_of_day, simulation_hr, *grid, map, r),
    {
        let mut new_cell = cell;
        match self.work_status {
            WorkStatus::Normal | WorkStatus::Essential => {
                if hour_of_day == ROUTINE_TRAVEL_START_TIME || hour_of_day
                    == ROUTINE_TRAVEL_END_TIME {
                    if self.uses_public_transport {
                        new_cell = self.goto_area(grid.transport_area, map, cell, rng);
                        self.current_area = grid.transport_area;
                    } else {
                        new_cell = self.move_agent_from(map, cell, rng);
                    }
                } else if hour_of_day == ROUTINE_WORK_TIME {
                    new_cell = self.goto_area(self.work_location, map, cell, rng);
                    self.current_area = self.work_location;
                } else if hour_of_day == ROUTINE_WORK_END_TIME {
                    new_cell = self.goto_area(self.home_location, map, cell, rng);
                    self.current_area = self.home_location;
                } else {
                    new_cell = self.move_agent_from(map, cell, rng);
                }
                self.update_infection_dynamics(new_cell, map, population, simulation_hr, rng, disease);
            },
            WorkStatus::HospitalStaff { work_start_at } => {
                let on_shift = simulation_hr as i64 - work_start_at as i64;
                let shift_length = (HOURS_IN_A_DAY * QUARANTINE_DAYS) as i64;
                if on_shift == shift_length {
                    self.work_quarantined = true;
                    return new_cell;
                }
                if on_shift == shift_length * 2 {
                    new_cell = self.goto_area(self.home_location, map, cell, rng);
                    self.current_area = self.home_location;
                    self.work_status = WorkStatus::HospitalStaff {
                        work_start_at: simulation_hr + HOURS_IN_A_DAY * QUARANTINE_DAYS,
                    };
                    return new_cell;
                }
                if hour_of_day == ROUTINE_WORK_TIME {
                    if self.current_area != grid.hospital_area && work_start_at <= simulation_hr {
                        new_cell = self.goto_area(grid.hospital_area, map, cell, rng);
                        self.current_area = grid.hospital_area;
                        self.work_status = WorkStatus::HospitalStaff { work_start_at: simulation_hr };
                    }
                    self.work_quarantined = false;
                } else if hour_of_day == ROUTINE_WORK_END_TIME {
                    self.work_quarantined = true;
                } else {
                    if !self.work_quarantined && self.can_move() {
                        new_cell = self.move_agent_from(map, cell, rng);
                    }
                }
                self.update_infection_dynamics(new_cell, map, population, simulation_hr, rng, disease);
            },
            WorkStatus::NA => {
                if hour_of_day == ROUTINE_WORK_TIME {
                    new_cell = self.goto_area(grid.housing_area, map, cell, rng);
                    self.current_area = grid.housing_area;
                } else if hour_of_day == NON_WORKING_TRAVEL_END_TIME {
                    new_cell = self.goto_area(self.home_location, map, cell, rng);
                    self.current_area = self.home_location;
                } else {
                    new_cell = self.move_agent_from(map, cell, rng);
                }
                self.update_infection_dynamics(new_cell, map, population, simulation_hr, rng, disease);
            },
        }
        new_cell
    }

    /// The agent's hour, by the hour of the day: at the start of the day its
    /// infection advances a day and it may go to hospital; at night it is
    /// at home, unless it works at the hospital; at the end of the day it may
    /// die or recover; at other hours it goes about its routine. Returns the
    /// cell it wants to end the hour on.
    fn routine(
        &mut self,
        cell: Point,
        simulation_hour: i32,
        grid: &Grid,
        map: &AgentLocationMap,
        population: &Vec<Citizen>,
        rng: &mut StdRng,
        disease: &Disease,
    ) -> (r: Point)
        requires
            old(self).wf(),
            grid.wf(),
            disease.wf(),
            snapshot_wf(map, population@),
            map.grid_area.contains_spec(cell),
            0 <= simulation_hour <= MAX_SIMULATION_HOUR,
        ensures
            hour_taken(
                *old(self),
                *final(self),
                cell,
                simulation_hour,
                *grid,
                map,
                *disease,
                r,
            ),
    {
        let mut new_cell = cell;
        let current_hour = simulation_hour % NUMBER_OF_HOURS;
        if current_hour == ROUTINE_START_TIME {
            self.update_infection_day();
            new_cell = self.hospitalize(cell, &grid.hospital_area, map, disease);
        } else if SLEEP_START_TIME <= current_hour && current_hour <= SLEEP_END_TIME {
            if !self.is_hospital_staff() {
                self.current_area = self.home_location;
            }
        } else if current_hour == ROUTINE_END_TIME {
            new_cell = self.deceased(map, cell, rng, disease);
        } else {
            new_cell = self.perform_movements(
                cell,
                current_hour,
                simulation_hour,
                grid,
                map,
                population,
                rng,
                disease,
            );
        }
        new_cell
    }

    /// Runs the agent's hour against the frozen snapshot `map` of the grid
    /// and `population` of the agents, and returns the cell it wants to end
    /// the hour on: its own `cell`, or a cell of the grid that is vacant in
    /// the snapshot. A dead agent stays dead and does not move.
    pub fn perform_operation(
        &mut self,
        cell: Point,
        simulation_hour: i32,
        grid: &Grid,
        map: &AgentLocationMap,
        population: &Vec<Citizen>,
        rng: &mut StdRng,
        disease: &Disease,
    ) -> (r: Point)
        requires
            old(self).wf(),
            grid.wf(),
            disease.wf(),
            snapshot_wf(map, population@),
            map.grid_area.contains_spec(cell),
            0 <= simulation_hour <= MAX_SIMULATION_HOUR,
        ensures
            hour_taken(
                *old(self),
                *final(self),
                cell,
                simulation_hour,
                *grid,
                map,
                *disease,
                r,
            ),
    {
        self.routine(cell, simulation_hour, grid, map, population, rng, disease)
    }
}

/// The state the `k`-th agent picked for a starting infection starts in:
/// first the exposed, then the mild cases without symptoms, then the mild
/// cases with symptoms, then the severe cases.
pub open spec fn starting_state(si: StartingInfections, k: int) -> State {
    if k < si.exposed {
        State::Exposed { at_hour: 0 }
    } else if k < si.exposed + si.infected_mild_asymptomatic {
        State::Infected {
            symptoms: false,
            severity: crate::disease_state_machine::InfectionSeverity::Mild,
        }
    } else if k < si.exposed + si.infected_mild_asymptomatic + si.infected_mild_symptomatic {
        State::Infected {
            symptoms: true,
            severity: crate::disease_state_machine::InfectionSeverity::Mild,
        }
    } else {
        State::Infected {
            symptoms: true,
            severity: crate::disease_state_machine::InfectionSeverity::Severe,
        }
    }
}

/// `c` with its disease in state `s`.
pub open spec fn with_state(c: Citizen, s: State) -> Citizen {
    Citizen { state_machine: DiseaseStateMachine { state: s, ..c.state_machine }, ..c }
}

/// `after` is `before` with the agents at the distinct positions `chosen`
/// started in the states of `si`, in order, and the others left alone.
pub open spec fn infections_started(
    before: Seq<Citizen>,
    after: Seq<Citizen>,
    si: StartingInfections,
    chosen: Seq<usize>,
) -> bool {
    &&& after.len() == before.len()
    &&& before.len() <= usize::MAX
    &&& chosen.len() == si.total_spec()
    &&& chosen.no_duplicates()
    &&& forall|k: int| 0 <= k < chosen.len() ==> #[trigger] chosen[k] < before.len()
    &&& forall|k: int|
        0 <= k < chosen.len() ==> after[#[trigger] chosen[k] as int] == with_state(
            before[chosen[k] as int],
            starting_state(si, k),
        )
    &&& forall|i: int|
        0 <= i < before.len() && !chosen.contains(i as usize) ==> #[trigger] after[i] == before[i]
}

/// Starting infections change nothing but the agents' disease.
pub proof fn lemma_infections_keep_agents(
    before: Seq<Citizen>,
    after: Seq<Citizen>,
    si: StartingInfections,
    chosen: Seq<usize>,
)
    requires
        infections_started(before, after, si, chosen),
    ensures
        forall|i: int|
            0 <= i < before.len() ==> #[trigger] after[i] == (Citizen {
                state_machine: after[i].state_machine,
                ..before[i]
            }),
{
    assert forall|i: int| 0 <= i < before.len() implies #[trigger] after[i] == (Citizen {
        state_machine: after[i].state_machine,
        ..before[i]
    }) by {
        if chosen.contains(i as usize) {
            let k = choose|k: int| 0 <= k < chosen.len() && chosen[k] == i as usize;
            assert(chosen[k] as int == i);
            assert(after[chosen[k] as int] == with_state(
                before[chosen[k] as int],
                starting_state(si, k),
            ));
        } else {
            assert(after[i] == before[i]);
        }
    }
}

/// Starts the infections of `start_infections` in agents picked at random,
/// each agent at most once.
pub fn set_starting_infections(
    agent_list: &mut Vec<Citizen>,
    start_infections: &StartingInfections,
    rng: &mut StdRng,
)
    requires
        start_infections.total_spec() <= old(agent_list)@.len(),
        forall|i: int|
            0 <= i < old(agent_list)@.len() ==> (#[trigger] old(agent_list)@[i]).state_machine.state
                is Susceptible,
    ensures
        exists|chosen: Seq<usize>|
            infections_started(old(agent_list)@, final(agent_list)@, *start_infections, chosen),
{
    let n = agent_list.len();
    assert(start_infections.total_spec() <= n);
    let exposed = start_infections.exposed as usize;
    let asymptomatic = exposed + start_infections.infected_mild_asymptomatic as usize;
    let symptomatic = asymptomatic + start_infections.infected_mild_symptomatic as usize;
    let total = symptomatic + start_infections.infected_severe as usize;
    let to_infect = sample(rng, agent_list.len(), total);
    let ghost before = agent_list@;
    let mut k: usize = 0;
    while k < total
        invariant
            k <= total == to_infect@.len() == start_infections.total_spec(),
            exposed == start_infections.exposed,
            asymptomatic == start_infections.exposed + start_infections.infected_mild_asymptomatic,
            symptomatic == asymptomatic + start_infections.infected_mild_symptomatic,
            to_infect@.no_duplicates(),
            forall|j: int| 0 <= j < to_infect@.len() ==> #[trigger] to_infect@[j] < before.len(),
            agent_list@.len() == before.len(),
            forall|i: int|
                0 <= i < before.len() ==> (#[trigger] before[i]).state_machine.state is Susceptible,
            forall|j: int|
                0 <= j < k ==> agent_list@[#[trigger] to_infect@[j] as int] == with_state(
                    before[to_infect@[j] as int],
                    starting_state(*start_infections, j),
                ),
            forall|i: int|
                0 <= i < before.len() && !to_infect@.take(k as int).contains(i as usize)
                    ==> #[trigger] agent_list@[i] == before[i],
        decreases total - k,
    {
        let idx = to_infect[k];
        let mut citizen = agent_list[idx];
        assert(!to_infect@.take(k as int).contains(idx)) by {
            if to_infect@.take(k as int).contains(idx) {
                let j = choose|j: int| 0 <= j < k && to_infect@.take(k as int)[j] == idx;
                assert(to_infect@[j] == to_infect@[k as int]);
            }
        }
        assert(citizen == before[idx as int]);
        if k < exposed {
            citizen.state_machine.expose(0);
        } else if k < asymptomatic {
            citizen.state_machine.set_mild_asymptomatic();
        } else if k < symptomatic {
            citizen.state_machine.set_mild_symptomatic();
        } else {
            citizen.state_machine.set_severe_infected();
        }
        assert(citizen == with_state(before[idx as int], starting_state(*start_infections, k as int)));
        let ghost prev = agent_list@;
        agent_list.set(idx, citizen);
        proof {
            assert forall|j: int| 0 <= j < k + 1 implies agent_list@[#[trigger] to_infect@[j] as int]
                == with_state(before[to_infect@[j] as int], starting_state(*start_infections, j)) by {
                if j < k {
                    assert(to_infect@[j] != idx);
                }
            }
            assert forall|i: int|
                0 <= i < before.len() && !to_infect@.take(k + 1).contains(i as usize)
                    implies #[trigger] agent_list@[i] == before[i] by {
                assert(to_infect@.take(k + 1) =~= to_infect@.take(k as int).push(idx));
                assert(to_infect@.take(k + 1)[k as int] == idx);
                assert(i != idx);
                if to_infect@.take(k as int).contains(i as usize) {
                    let j = choose|j: int| 0 <= j < k && to_infect@.take(k as int)[j] == i as usize;
                    assert(to_infect@.take(k + 1)[j] == i as usize);
                }
            }
        }
        k = k + 1;
    }
    assert(to_infect@.take(k as int) =~= to_infect@);
    assert(infections_started(before, agent_list@, *start_infections, to_infect@));
}

/// Agent `i` of a population made by `citizen_factory`, before any
/// infection: it lives in house `i` (round robin), works in office `i`
/// (round robin) when it works and at home otherwise, and travels from
/// transport cell `i` when it uses public transport, else from a cell of its
/// home.
pub open spec fn made_by_factory(
    c: Citizen,
    i: int,
    home_locations: Seq<Area>,
    work_locations: Seq<Area>,
    public_transport_locations: Seq<Point>,
) -> bool {
    &&& c.wf()
    &&& c.state_machine == DiseaseStateMachine::new_spec()
    &&& c.home_location == home_locations[i % (home_locations.len() as int)]
    &&& c.current_area == c.home_location
    &&& c.working ==> c.work_location == work_locations[i % (work_locations.len() as int)]
    &&& !c.working ==> c.work_location == c.home_location && c.work_status == WorkStatus::NA
    &&& c.uses_public_transport ==> c.working && i < public_transport_locations.len()
        && c.transport_location == public_transport_locations[i]
    &&& !c.uses_public_transport ==> c.home_location.contains_spec(c.transport_location)
    &&& !c.vaccinated && !c.hospitalized && !c.isolated && !c.work_quarantined
}

/// `agents` are the agents `fresh` made by `citizen_factory` from
/// `houses`, `offices` and the transport cells `transport`, which lie in
/// `transport_area`, with the infections of `si` started at `chosen`.
pub open spec fn made_population(
    fresh: Seq<Citizen>,
    chosen: Seq<usize>,
    transport: Seq<Point>,
    agents: Seq<Citizen>,
    si: StartingInfections,
    houses: Seq<Area>,
    offices: Seq<Area>,
    transport_area: Area,
) -> bool {
    &&& infections_started(fresh, agents, si, chosen)
    &&& forall|k: int| 0 <= k < transport.len() ==> transport_area.contains_spec(#[trigger] transport[k])
    &&& forall|i: int|
        0 <= i < fresh.len() ==> made_by_factory(#[trigger] fresh[i], i, houses, offices, transport)
}

/// Makes `number_of_agents` agents spread round robin over the houses and
/// offices given; each works with probability `working_percentage`, and a
/// worker uses public transport with probability
/// `percentage_public_transport` while transport cells last. Then starts the
/// infections of `starting_infections` in agents picked at random.
pub fn citizen_factory(
    number_of_agents: i32,
    home_locations: &Vec<Area>,
    work_locations: &Vec<Area>,
    public_transport_locations: &Vec<Point>,
    percentage_public_transport: u32,
    working_percentage: u32,
    rng: &mut StdRng,
    starting_infections: &StartingInfections,
) -> (r: Vec<Citizen>)
    requires
        number_of_agents >= 0,
        home_locations@.len() > 0,
        work_locations@.len() > 0,
        forall|i: int| 0 <= i < home_locations@.len() ==> (#[trigger] home_locations@[i]).wf(),
        forall|i: int| 0 <= i < work_locations@.len() ==> (#[trigger] work_locations@[i]).wf(),
        is_probability(percentage_public_transport),
        is_probability(working_percentage),
        starting_infections.total_spec() <= number_of_agents,
    ensures
        r@.len() == number_of_agents,
        exists|fresh: Seq<Citizen>, chosen: Seq<usize>|
            {
                &&& infections_started(fresh, r@, *starting_infections, chosen)
                &&& forall|i: int|
                    0 <= i < fresh.len() ==> made_by_factory(
                        #[trigger] fresh[i],
                        i,
                        home_locations@,
                        work_locations@,
                        public_transport_locations@,
                    )
            },
{
    let mut agent_list: Vec<Citizen> = Vec::new();
    let n = number_of_agents as usize;
    let total_home_locations = home_locations.len();
    let total_work_locations = work_locations.len();
    let mut i: usize = 0;
    while i < n
        invariant
            i <= n == number_of_agents,
            total_home_locations == home_locations@.len() > 0,
            total_work_locations == work_locations@.len() > 0,
            forall|k: int| 0 <= k < home_locations@.len() ==> (#[trigger] home_locations@[k]).wf(),
            forall|k: int| 0 <= k < work_locations@.len() ==> (#[trigger] work_locations@[k]).wf(),
            is_probability(percentage_public_transport),
            is_probability(working_percentage),
            agent_list@.len() == i,
            forall|k: int|
                0 <= k < i ==> made_by_factory(
                    #[trigger] agent_list@[k],
                    k,
                    home_locations@,
                    work_locations@,
                    public_transport_locations@,
                ),
        decreases n - i,
    {
        let is_a_working_citizen = trial(rng, working_percentage);
        let home_location = home_locations[i % total_home_locations];
        let work_location = work_locations[i % total_work_locations];
        let uses_public_transport = trial(rng, percentage_public_transport)
            && is_a_working_citizen && i < public_transport_locations.len();
        let public_transport_location: Point = if uses_public_transport {
            public_transport_locations[i]
        } else {
            home_location.get_random_point(rng)
        };
        let work_location = if is_a_working_citizen {
            work_location
        } else {
            home_location
        };
        let work_status = Citizen::derive_work_status(is_a_working_citizen, rng);
        let agent = Citizen::new(
            home_location,
            work_location,
            public_transport_location,
            uses_public_transport,
            is_a_working_citizen,
            work_status,
            rng,
        );
        agent_list.push(agent);
        i = i + 1;
    }
    let ghost fresh = agent_list@;
    proof {
        assert forall|k: int| 0 <= k < agent_list@.len() implies (
        #[trigger] agent_list@[k]).state_machine.state is Susceptible by {
            assert(made_by_factory(
                agent_list@[k],
                k,
                home_locations@,
                work_locations@,
                public_transport_locations@,
            ));
        }
    }
    set_starting_infections(&mut agent_list, starting_infections, rng);
    proof {
        let chosen = choose|chosen: Seq<usize>|
            infections_started(fresh, agent_list@, *starting_infections, chosen);
        assert(infections_started(fresh, agent_list@, *starting_infections, chosen));
    }
    agent_list
}

} // verus!
