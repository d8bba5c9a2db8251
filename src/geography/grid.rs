use vstd::prelude::*;

use rand::rngs::StdRng;

use crate::agent::{
    citizen_factory,
    infections_started,
    made_by_factory,
    made_population,
    set_starting_infections,
    Citizen,
    PopulationRecord,
};
use crate::disease_state_machine::DiseaseStateMachine;
use crate::allocation_map::AgentLocationMap;
use crate::config::{AutoPopulation, StartingInfections};
use crate::constants::{HOME_SIZE, OFFICE_SIZE};
use crate::random::{is_probability, PROBABILITY_SCALE};
use vstd::arithmetic::div_mod::lemma_mod_pos_bound;
use crate::geography::area::{area_factory, Area};
use crate::geography::point::{Point, COORDINATE_LIMIT};
use crate::agent::lemma_infections_keep_agents;

verus! {

/// The layout of the simulated town: a band of houses, one of public
/// transport, one of offices and a hospital, side by side, with the houses
/// and offices cut into buildings.
pub struct Grid {
    pub grid_size: i32,
    pub housing_area: Area,
    pub work_area: Area,
    pub transport_area: Area,
    pub hospital_area: Area,
    pub houses: Vec<Area>,
    pub offices: Vec<Area>,
    /// The number of agents living in each house, by the house's position
    /// in `houses`.
    pub houses_occupancy: Vec<u32>,
    /// The number of agents working in each office, by the office's position
    /// in `offices`.
    pub offices_occupancy: Vec<u32>,
}

/// Why a population could not be made.
#[derive(Copy, Clone, Debug, PartialEq, Eq, Structural)]
pub enum PopulationError {
    /// The number of agents asked for is negative.
    NegativePopulation,
    /// More agents are to start infected than there are agents.
    TooManyStartingInfections,
    /// The town has no house or no office.
    NoBuildings,
    /// The transport area has fewer cells than the agents that travel.
    NotEnoughTransportLocations,
    /// The town is too large to be held in memory.
    GridTooLarge,
    /// A house has more occupants than cells.
    HouseFull,
}

/// The square from `(0, 0)` to the far corner of a town of side `size`.
pub open spec fn town_area(size: i32) -> Area {
    Area { start_offset: Point { x: 0, y: 0 }, end_offset: Point { x: size, y: size } }
}

/// `c` is the agent made of `record`, living in `home` and working in
/// `office`, before any infection.
pub open spec fn read_from_record(c: Citizen, record: PopulationRecord, home: Area, office: Area) -> bool {
    &&& c.wf()
    &&& c.home_location == home
    &&& c.work_location == office
    &&& c.current_area == home
    &&& c.working == record.working
    &&& c.uses_public_transport == record.pub_transport
    &&& home.contains_spec(c.transport_location)
    &&& c.state_machine == DiseaseStateMachine::new_spec()
}

/// How many agents of a population of `n` get a transport cell: the
/// population times the public transport and working fractions, each raised
/// by a tenth, rounded up.
pub open spec fn travellers_for(n: int, public_transport: int, working: int) -> int {
    (n * (public_transport + 100_000) * (working + 100_000) + 999_999_999_999)
        / 1_000_000_000_000
}

/// How many working agents of `s` work in `office`.
pub open spec fn agents_working_at(s: Seq<Citizen>, office: Area) -> nat
    decreases s.len(),
{
    if s.len() == 0 {
        0
    } else {
        agents_working_at(s.drop_last(), office) + if s.last().working && s.last().work_location
            == office {
            1nat
        } else {
            0nat
        }
    }
}

/// `h` is the first position of `a` in `areas`.
pub open spec fn first_house(areas: Seq<Area>, a: Area, h: int) -> bool {
    0 <= h < areas.len() && areas[h] == a && forall|j: int| 0 <= j < h ==> areas[j] != a
}

/// `n` zeros.
fn zeros(n: usize) -> (r: Vec<u32>)
    ensures
        r@ == Seq::new(n as nat, |i: int| 0u32),
{
    let mut r: Vec<u32> = Vec::new();
    let mut i: usize = 0;
    while i < n
        invariant
            i <= n,
            r@ == Seq::new(i as nat, |k: int| 0u32),
        decreases n - i,
    {
        r.push(0);
        i = i + 1;
        assert(r@ =~= Seq::new(i as nat, |k: int| 0u32));
    }
    r
}

/// The position of the first area of `areas` equal to `a`.
fn position_of(areas: &Vec<Area>, a: &Area) -> (r: Option<usize>)
    ensures
        r matches Some(i) ==> i < areas@.len() && areas@[i as int] == *a && forall|j: int|
            0 <= j < i ==> areas@[j] != *a,
        r is None ==> forall|j: int| 0 <= j < areas@.len() ==> areas@[j] != *a,
{
    let mut i: usize = 0;
    while i < areas.len()
        invariant
            i <= areas@.len(),
            forall|j: int| 0 <= j < i ==> areas@[j] != *a,
        decreases areas@.len() - i,
    {
        if areas[i] == *a {
            return Some(i);
        }
        i = i + 1;
    }
    None
}

/// A town of side `size` can be held in memory.
pub open spec fn town_fits(size: i32) -> bool {
    0 <= size <= COORDINATE_LIMIT && (size + 1) * (size + 1) <= usize::MAX
}

/// How many agents of `s` live in `home`.
pub open spec fn agents_with_home(s: Seq<Citizen>, home: Area) -> nat
    decreases s.len(),
{
    if s.len() == 0 {
        0
    } else {
        agents_with_home(s.drop_last(), home) + if s.last().home_location == home {
            1nat
        } else {
            0nat
        }
    }
}

/// Two areas are the same or share no cell.
pub open spec fn same_or_apart(a: Area, b: Area) -> bool {
    a == b || a.end_offset.x < b.start_offset.x || b.end_offset.x < a.start_offset.x
        || a.end_offset.y < b.start_offset.y || b.end_offset.y < a.start_offset.y
}

/// The homes of agents `i` and `j` are the same house or share no cell.
pub open spec fn overlap_or_equal(agents: Seq<Citizen>, size: i32, i: int, j: int) -> bool {
    same_or_apart(agents[i].home_location, agents[j].home_location)
}

/// Every home lies in the town of side `size`, two homes are the same house
/// or share no cell, and no house has more agents than cells.
pub open spec fn houses_fit(agents: Seq<Citizen>, size: i32) -> bool {
    &&& forall|i: int|
        0 <= i < agents.len() ==> town_area(size).contains_spec(
            (#[trigger] agents[i]).home_location.start_offset,
        ) && town_area(size).contains_spec(agents[i].home_location.end_offset)
    &&& forall|i: int, j: int|
        0 <= i < agents.len() && 0 <= j < agents.len() ==> #[trigger] overlap_or_equal(
            agents,
            size,
            i,
            j,
        )
    &&& forall|i: int|
        0 <= i < agents.len() ==> agents_with_home(agents, (#[trigger] agents[i]).home_location)
            <= agents[i].home_location.cell_count()
}

/// How many of agents `0..n`, spread round robin over `houses`, live in
/// `home`.
pub open spec fn round_robin_count(houses: Seq<Area>, n: int, home: Area) -> nat
    decreases n,
{
    if n <= 0 {
        0
    } else {
        round_robin_count(houses, n - 1, home) + if houses[(n - 1) % (houses.len() as int)]
            == home {
            1nat
        } else {
            0nat
        }
    }
}

/// `n` agents spread round robin over `houses` fit in a town of side
/// `size`: every house lies in the town, two houses are the same or share
/// no cell, and no house gets more agents than cells.
pub open spec fn round_robin_fits(houses: Seq<Area>, n: int, size: i32) -> bool {
    &&& houses.len() > 0
    &&& forall|i: int|
        0 <= i < houses.len() ==> town_area(size).contains_spec((#[trigger] houses[i]).start_offset)
            && town_area(size).contains_spec(houses[i].end_offset)
    &&& forall|i: int, j: int|
        0 <= i < houses.len() && 0 <= j < houses.len() ==> same_or_apart(
            #[trigger] houses[i],
            #[trigger] houses[j],
        )
    &&& forall|i: int|
        0 <= i < houses.len() ==> round_robin_count(houses, n, #[trigger] houses[i])
            <= houses[i].cell_count()
}

proof fn lemma_count_round_robin(agents: Seq<Citizen>, houses: Seq<Area>, n: int, home: Area)
    requires
        houses.len() > 0,
        0 <= n <= agents.len(),
        forall|i: int|
            0 <= i < agents.len() ==> (#[trigger] agents[i]).home_location == houses[i % (
            houses.len() as int)],
    ensures
        agents_with_home(agents.take(n), home) == round_robin_count(houses, n, home),
    decreases n,
{
    if n > 0 {
        lemma_count_round_robin(agents, houses, n - 1, home);
        assert(agents.take(n).drop_last() =~= agents.take(n - 1));
        assert(agents.take(n).last() == agents[n - 1]);
    }
}

/// Agents spread round robin over houses that fit, fit.
pub proof fn lemma_round_robin_fits(agents: Seq<Citizen>, houses: Seq<Area>, size: i32)
    requires
        round_robin_fits(houses, agents.len() as int, size),
        forall|i: int|
            0 <= i < agents.len() ==> (#[trigger] agents[i]).home_location == houses[i % (
            houses.len() as int)],
    ensures
        houses_fit(agents, size),
{
    let nh = houses.len() as int;
    assert forall|i: int| 0 <= i < agents.len() implies 0 <= #[trigger] (i % nh) < nh by {
        lemma_mod_pos_bound(i, nh);
    }
    assert forall|i: int|
        0 <= i < agents.len() implies agents_with_home(agents, (#[trigger] agents[i]).home_location)
        <= agents[i].home_location.cell_count() by {
        lemma_count_round_robin(agents, houses, agents.len() as int, agents[i].home_location);
        assert(agents.take(agents.len() as int) =~= agents);
        assert(0 <= i % nh < nh);
        assert(agents[i].home_location == houses[i % nh]);
    }
    assert forall|i: int, j: int|
        0 <= i < agents.len() && 0 <= j < agents.len() implies #[trigger] overlap_or_equal(
        agents,
        size,
        i,
        j,
    ) by {
        assert(0 <= i % nh < nh);
        assert(0 <= j % nh < nh);
        assert(same_or_apart(houses[i % nh], houses[j % nh]));
    }
    assert forall|i: int| 0 <= i < agents.len() implies town_area(size).contains_spec(
        (#[trigger] agents[i]).home_location.start_offset,
    ) && town_area(size).contains_spec(agents[i].home_location.end_offset) by {
        assert(0 <= i % nh < nh);
        assert(agents[i].home_location == houses[i % nh]);
    }
}

/// Smallest side of a town that leaves room for every band.
pub const MIN_GRID_SIZE: i32 = 10;

impl Grid {
    /// Every area of the town is well formed.
    pub open spec fn wf(&self) -> bool {
        &&& self.housing_area.wf()
        &&& self.work_area.wf()
        &&& self.transport_area.wf()
        &&& self.hospital_area.wf()
        &&& forall|i: int| 0 <= i < self.houses@.len() ==> (#[trigger] self.houses@[i]).wf()
        &&& forall|i: int| 0 <= i < self.offices@.len() ==> (#[trigger] self.offices@[i]).wf()
    }

    /// Makes `auto_pop.number_of_agents` agents spread over the houses and
    /// offices of the town (see `citizen_factory`), with transport cells
    /// drawn from the transport area, and puts each agent on its own cell of
    /// its house, drawn at random among those still free. Returns the cells
    /// and the agents, in the same order.
    pub fn generate_population(
        &self,
        auto_pop: &AutoPopulation,
        start_infections: &StartingInfections,
        rng: &mut StdRng,
    ) -> (r: Result<(Vec<Point>, Vec<Citizen>), PopulationError>)
        requires
            self.wf(),
            is_probability(auto_pop.public_transport_percentage),
            is_probability(auto_pop.working_percentage),
        ensures
            auto_pop.number_of_agents < 0 ==> r == Err::<(Vec<Point>, Vec<Citizen>), PopulationError>(
                PopulationError::NegativePopulation,
            ),
            auto_pop.number_of_agents >= 0 && start_infections.total_spec() > auto_pop.number_of_agents
                ==> r == Err::<(Vec<Point>, Vec<Citizen>), PopulationError>(
                PopulationError::TooManyStartingInfections,
            ),
            auto_pop.number_of_agents >= 0 && start_infections.total_spec()
                <= auto_pop.number_of_agents && (self.houses@.len() == 0 || self.offices@.len()
                == 0) ==> r == Err::<(Vec<Point>, Vec<Citizen>), PopulationError>(
                PopulationError::NoBuildings,
            ),
            ({
                let n = auto_pop.number_of_agents as int;
                let ready = n >= 0 && start_infections.total_spec() <= n && self.houses@.len() > 0
                    && self.offices@.len() > 0;
                let transport_cells = self.transport_area.cell_count();
                let travellers = travellers_for(
                    n,
                    auto_pop.public_transport_percentage as int,
                    auto_pop.working_percentage as int,
                );
                &&& (r == Err::<(Vec<Point>, Vec<Citizen>), PopulationError>(
                    PopulationError::GridTooLarge,
                )) == (ready && (transport_cells > usize::MAX || (travellers <= transport_cells
                    && !town_fits(self.grid_size))))
                &&& (r == Err::<(Vec<Point>, Vec<Citizen>), PopulationError>(
                    PopulationError::NotEnoughTransportLocations,
                )) == (ready && transport_cells <= usize::MAX && travellers > transport_cells)
                &&& ready && transport_cells <= usize::MAX && travellers <= transport_cells
                    && town_fits(self.grid_size) && round_robin_fits(self.houses@, n, self.grid_size)
                    ==> r is Ok
                &&& r == Err::<(Vec<Point>, Vec<Citizen>), PopulationError>(
                    PopulationError::HouseFull,
                ) ==> !round_robin_fits(self.houses@, n, self.grid_size)
            }),
            r matches Ok(v) ==> {
                let (locations, agents) = v;
                &&& agents@.len() == auto_pop.number_of_agents
                &&& locations@.len() == agents@.len()
                &&& locations@.no_duplicates()
                &&& forall|i: int|
                    0 <= i < agents@.len() ==> (#[trigger] agents@[i]).home_location.contains_spec(
                        locations@[i],
                    ) && town_area(self.grid_size).contains_spec(locations@[i])
                &&& exists|fresh: Seq<Citizen>, chosen: Seq<usize>, transport: Seq<Point>|
                    #[trigger] made_population(
                        fresh,
                        chosen,
                        transport,
                        agents@,
                        *start_infections,
                        self.houses@,
                        self.offices@,
                        self.transport_area,
                    )
            },
    {
        if auto_pop.number_of_agents < 0 {
            return Err(PopulationError::NegativePopulation);
        }
        let n = auto_pop.number_of_agents;
        let total = start_infections.exposed as u64 + start_infections.infected_mild_asymptomatic as u64
            + start_infections.infected_mild_symptomatic as u64
            + start_infections.infected_severe as u64;
        if total > n as u64 {
            return Err(PopulationError::TooManyStartingInfections);
        }
        if self.houses.len() == 0 || self.offices.len() == 0 {
            return Err(PopulationError::NoBuildings);
        }
        let pt = auto_pop.public_transport_percentage as u128;
        let working = auto_pop.working_percentage as u128;
        assert((n as u128) * (pt + 100_000) <= 0x8000_0000u128 * 1_100_000 && (n as u128) * (pt
            + 100_000) * (working + 100_000) <= 0x8000_0000u128 * 1_100_000 * 1_100_000)
            by (nonlinear_arith)
            requires
                0 <= n <= 0x8000_0000,
                pt <= 1_000_000,
                working <= 1_000_000,
        ;
        let travellers: u128 = ((n as u128) * (pt + 100_000) * (working + 100_000)
            + 999_999_999_999) / 1_000_000_000_000;
        let tw = (self.transport_area.end_offset.x as i64 - self.transport_area.start_offset.x as i64
            + 1) as u64;
        let th = (self.transport_area.end_offset.y as i64 - self.transport_area.start_offset.y as i64
            + 1) as u64;
        assert(tw * th <= 2_000_000_001 * 2_000_000_001) by (nonlinear_arith)
            requires
                tw <= 2_000_000_001,
                th <= 2_000_000_001,
        ;
        assert(self.transport_area.cell_count() == tw * th);
        if tw * th > usize::MAX as u64 {
            return Err(PopulationError::GridTooLarge);
        }
        if travellers > (tw * th) as u128 {
            return Err(PopulationError::NotEnoughTransportLocations);
        }
        let transport_locations = match self.transport_area.random_points(travellers as usize, rng) {
            None => {
                return Err(PopulationError::NotEnoughTransportLocations);
            },
            Some(v) => v,
        };
        let agents = citizen_factory(
            n,
            &self.houses,
            &self.offices,
            &transport_locations,
            auto_pop.public_transport_percentage,
            auto_pop.working_percentage,
            rng,
            start_infections,
        );
        let ghost (fresh, chosen) = choose|fresh: Seq<Citizen>, chosen: Seq<usize>|
            {
                &&& infections_started(fresh, agents@, *start_infections, chosen)
                &&& forall|i: int|
                    0 <= i < fresh.len() ==> made_by_factory(
                        #[trigger] fresh[i],
                        i,
                        self.houses@,
                        self.offices@,
                        transport_locations@,
                    )
            };
        proof {
            lemma_infections_keep_agents(fresh, agents@, *start_infections, chosen);
            assert forall|k: int| 0 <= k < agents@.len() implies (
            #[trigger] agents@[k]).home_location == self.houses@[k % (
            self.houses@.len() as int)] by {
                assert(made_by_factory(
                    fresh[k],
                    k,
                    self.houses@,
                    self.offices@,
                    transport_locations@,
                ));
            }
            if round_robin_fits(self.houses@, n as int, self.grid_size) {
                lemma_round_robin_fits(agents@, self.houses@, self.grid_size);
            }
        }
        proof {
            assert forall|k: int| 0 <= k < agents@.len() implies (
            #[trigger] agents@[k]).home_location.wf() by {
                assert(made_by_factory(
                    fresh[k],
                    k,
                    self.houses@,
                    self.offices@,
                    transport_locations@,
                ));
                assert(agents@[k].home_location == fresh[k].home_location);
            }
            assert forall|k: int|
                0 <= k < transport_locations@.len() implies self.transport_area.contains_spec(
                #[trigger] transport_locations@[k],
            ) by {}
            assert(made_population(
                fresh,
                chosen,
                transport_locations@,
                agents@,
                *start_infections,
                self.houses@,
                self.offices@,
                self.transport_area,
            ));
        }
        let locations = match self.set_start_locations_and_occupancies(&agents, rng) {
            Ok(v) => v,
            Err(e) => {
                return Err(e);
            },
        };
        Ok((locations, agents))
    }

    /// Makes one agent of each population record, spread round robin over
    /// the houses and offices, puts each on its own cell of its house (see
    /// `set_start_locations_and_occupancies`) and then starts the infections
    /// of `starting_infections` in agents picked at random. Returns the cells
    /// and the agents, in the order of the records.
    pub fn read_population(
        &self,
        records: &Vec<PopulationRecord>,
        starting_infections: &StartingInfections,
        rng: &mut StdRng,
    ) -> (r: Result<(Vec<Point>, Vec<Citizen>), PopulationError>)
        requires
            self.wf(),
        ensures
            self.houses@.len() == 0 || self.offices@.len() == 0 ==> r == Err::<
                (Vec<Point>, Vec<Citizen>),
                PopulationError,
            >(PopulationError::NoBuildings),
            self.houses@.len() > 0 && self.offices@.len() > 0 && records@.len() > (HOME_SIZE
                * HOME_SIZE) * self.houses@.len() ==> r == Err::<
                (Vec<Point>, Vec<Citizen>),
                PopulationError,
            >(PopulationError::HouseFull),
            ({
                let ready = self.houses@.len() > 0 && self.offices@.len() > 0 && records@.len() <= (
                HOME_SIZE * HOME_SIZE) * self.houses@.len();
                &&& (r == Err::<(Vec<Point>, Vec<Citizen>), PopulationError>(
                    PopulationError::TooManyStartingInfections,
                )) == (ready && starting_infections.total_spec() > records@.len())
                &&& (r == Err::<(Vec<Point>, Vec<Citizen>), PopulationError>(
                    PopulationError::GridTooLarge,
                )) == (ready && starting_infections.total_spec() <= records@.len() && !town_fits(
                    self.grid_size,
                ))
                &&& ready && starting_infections.total_spec() <= records@.len() && town_fits(
                    self.grid_size,
                ) && round_robin_fits(self.houses@, records@.len() as int, self.grid_size)
                    ==> r is Ok
            }),
            r matches Ok(v) ==> {
                let (locations, agents) = v;
                &&& agents@.len() == records@.len()
                &&& locations@.len() == agents@.len()
                &&& locations@.no_duplicates()
                &&& forall|i: int|
                    0 <= i < agents@.len() ==> (#[trigger] agents@[i]).home_location.contains_spec(
                        locations@[i],
                    ) && town_area(self.grid_size).contains_spec(locations@[i])
                &&& exists|fresh: Seq<Citizen>, chosen: Seq<usize>|
                    {
                        &&& infections_started(fresh, agents@, *starting_infections, chosen)
                        &&& forall|i: int|
                            0 <= i < fresh.len() ==> read_from_record(
                                #[trigger] fresh[i],
                                records@[i],
                                self.houses@[i % (self.houses@.len() as int)],
                                self.offices@[i % (self.offices@.len() as int)],
                            )
                    }
            },
    {
        if self.houses.len() == 0 || self.offices.len() == 0 {
            return Err(PopulationError::NoBuildings);
        }
        let house_capacity = (HOME_SIZE * HOME_SIZE) as u128;
        assert(self.houses@.len() * 16 <= 0xffff_ffff_ffff_ffff * 16) by (nonlinear_arith)
            requires
                self.houses@.len() <= 0xffff_ffff_ffff_ffff,
        ;
        if records.len() as u128 > house_capacity * self.houses.len() as u128 {
            return Err(PopulationError::HouseFull);
        }
        let mut citizens: Vec<Citizen> = Vec::new();
        let mut i: usize = 0;
        while i < records.len()
            invariant
                i <= records@.len(),
                self.wf(),
                self.houses@.len() > 0,
                self.offices@.len() > 0,
                citizens@.len() == i,
                forall|k: int|
                    0 <= k < i ==> read_from_record(
                        #[trigger] citizens@[k],
                        records@[k],
                        self.houses@[k % (self.houses@.len() as int)],
                        self.offices@[k % (self.offices@.len() as int)],
                    ),
            decreases records@.len() - i,
        {
            let home = self.houses[i % self.houses.len()];
            let office = self.offices[i % self.offices.len()];
            let transport = home.get_random_point(rng);
            let citizen = Citizen::from_record(&records[i], home, office, transport, rng);
            citizens.push(citizen);
            i = i + 1;
        }
        if starting_infections.exposed as u64 + starting_infections.infected_mild_asymptomatic as u64
            + starting_infections.infected_mild_symptomatic as u64
            + starting_infections.infected_severe as u64 > citizens.len() as u64 {
            return Err(PopulationError::TooManyStartingInfections);
        }
        proof {
            assert forall|k: int| 0 <= k < citizens@.len() implies (
            #[trigger] citizens@[k]).home_location == self.houses@[k % (
            self.houses@.len() as int)] by {
                assert(read_from_record(
                    citizens@[k],
                    records@[k],
                    self.houses@[k % (self.houses@.len() as int)],
                    self.offices@[k % (self.offices@.len() as int)],
                ));
            }
            if round_robin_fits(self.houses@, records@.len() as int, self.grid_size) {
                lemma_round_robin_fits(citizens@, self.houses@, self.grid_size);
            }
            assert forall|k: int| 0 <= k < citizens@.len() implies (
            #[trigger] citizens@[k]).home_location.wf() by {
                assert(read_from_record(
                    citizens@[k],
                    records@[k],
                    self.houses@[k % (self.houses@.len() as int)],
                    self.offices@[k % (self.offices@.len() as int)],
                ));
            }
        }
        let locations = match self.set_start_locations_and_occupancies(&citizens, rng) {
            Ok(v) => v,
            Err(e) => {
                return Err(e);
            },
        };
        let ghost fresh = citizens@;
        set_starting_infections(&mut citizens, starting_infections, rng);
        proof {
            let chosen = choose|chosen: Seq<usize>|
                infections_started(fresh, citizens@, *starting_infections, chosen);
            crate::agent::lemma_infections_keep_agents(fresh, citizens@, *starting_infections, chosen);
            assert forall|k: int| 0 <= k < citizens@.len() implies (
            #[trigger] citizens@[k]).home_location.contains_spec(locations@[k]) by {
                assert(citizens@[k].home_location == fresh[k].home_location);
            }
        }
        Ok((locations, citizens))
    }

    /// Puts the agents of each house on distinct cells of that house, drawn
    /// at random, house by house in the order in which the houses first
    /// appear, and returns the cells in the order of the agents. Fails when a
    /// house has more agents than cells, or when two houses overlap and a
    /// cell is drawn twice.
    pub fn set_start_locations_and_occupancies(
        &self,
        agents: &Vec<Citizen>,
        rng: &mut StdRng,
    ) -> (r: Result<Vec<Point>, PopulationError>)
        requires
            forall|k: int| 0 <= k < agents@.len() ==> (#[trigger] agents@[k]).home_location.wf(),
        ensures
            r matches Ok(locations) ==> {
                &&& locations@.len() == agents@.len()
                &&& locations@.no_duplicates()
                &&& forall|i: int|
                    0 <= i < agents@.len() ==> (#[trigger] agents@[i]).home_location.contains_spec(
                        locations@[i],
                    ) && town_area(self.grid_size).contains_spec(locations@[i])
            },
            r matches Err(e) ==> e == PopulationError::GridTooLarge || e == PopulationError::HouseFull,
            r == Err::<Vec<Point>, PopulationError>(PopulationError::GridTooLarge) <==> !town_fits(
                self.grid_size,
            ),
            town_fits(self.grid_size) && houses_fit(agents@, self.grid_size) ==> r is Ok,
    {
        if self.grid_size < 0 || self.grid_size > COORDINATE_LIMIT {
            return Err(PopulationError::GridTooLarge);
        }
        let side = self.grid_size as u64 + 1;
        assert(side * side <= 0x4000_0000_0000_0000) by (nonlinear_arith)
            requires
                side <= 0x8000_0000,
        ;
        if side * side > usize::MAX as u64 {
            assert((self.grid_size + 1) * (self.grid_size + 1) == side * side);
            return Err(PopulationError::GridTooLarge);
        }
        let town = Area::new(Point::new(0, 0), Point::new(self.grid_size, self.grid_size));
        assert(town.width() * town.height() == side * side);
        assert(town_fits(self.grid_size));
        let ghost good = houses_fit(agents@, self.grid_size);
        let n = agents.len();
        let mut map = AgentLocationMap::new(town);
        proof {
            map.lemma_view();
        }
        let mut locations: Vec<Point> = Vec::new();
        let mut done: Vec<bool> = Vec::new();
        let mut j: usize = 0;
        while j < n
            invariant
                j <= n == agents@.len(),
                locations@.len() == j,
                done@.len() == j,
                forall|k: int| 0 <= k < j ==> !(#[trigger] done@[k]),
            decreases n - j,
        {
            locations.push(agents[j].home_location.start_offset);
            done.push(false);
            j = j + 1;
        }
        let ghost mut processed: Set<Area> = Set::empty();
        let mut i: usize = 0;
        while i < n
            invariant
                i <= n == agents@.len() == locations@.len() == done@.len(),
                good == houses_fit(agents@, self.grid_size),
                town_fits(self.grid_size),
                forall|k: int| 0 <= k < agents@.len() ==> (#[trigger] agents@[k]).home_location.wf(),
                map.wf(),
                map.grid_area == town,
                town == town_area(self.grid_size),
                forall|k: int|
                    0 <= k < n ==> (#[trigger] done@[k] <==> processed.contains(
                        agents@[k].home_location,
                    )),
                forall|k: int| 0 <= k < i ==> #[trigger] done@[k],
                forall|p: Point| #[trigger]
                    map@.dom().contains(p) ==> map@[p] < n && done@[map@[p] as int]
                        && agents@[map@[p] as int].home_location.contains_spec(p)
                        && locations@[map@[p] as int] == p,
                forall|k: int|
                    0 <= k < n && #[trigger] done@[k] ==> map@.dom().contains(locations@[k])
                        && map@[locations@[k]] == k,
                forall|k: int|
                    0 <= k < n && #[trigger] done@[k] ==> agents@[k].home_location.contains_spec(
                        locations@[k],
                    ) && town.contains_spec(locations@[k]),
            decreases n - i,
        {
            if !done[i] {
                let home = agents[i].home_location;
                let ghost h = home;
                assert(!processed.contains(h));
                let mut members: Vec<usize> = Vec::new();
                let mut m: usize = 0;
                while m < n
                    invariant
                        m <= n == agents@.len(),
                        members@.len() == agents_with_home(agents@.take(m as int), home),
                        members@.len() <= m,
                        forall|a: int| 0 <= a < members@.len() ==> #[trigger] members@[a] < m,
                        forall|a: int|
                            0 <= a < members@.len() ==> agents@[#[trigger] members@[a] as int].home_location
                                == home,
                        forall|k: int|
                            0 <= k < m && agents@[k].home_location == home ==> #[trigger] members@.contains(
                                k as usize,
                            ),
                        forall|a: int, b: int|
                            0 <= a < b < members@.len() ==> #[trigger] members@[a] < #[trigger] members@[b],
                    decreases n - m,
                {
                    let ghost before = members@;
                    if agents[m].home_location == home {
                        members.push(m);
                    }
                    proof {
                        assert(agents@.take(m + 1).drop_last() =~= agents@.take(m as int));
                        assert(agents@.take(m + 1).last() == agents@[m as int]);
                        assert forall|k: int|
                            0 <= k < m + 1 && agents@[k].home_location == home implies #[trigger] members@.contains(
                            k as usize,
                        ) by {
                            if k < m {
                                assert(before.contains(k as usize));
                                let a = choose|a: int| 0 <= a < before.len() && before[a] == k as usize;
                                assert(members@[a] == k as usize);
                            } else {
                                assert(members@[members@.len() - 1] == k as usize);
                            }
                        }
                    }
                    m = m + 1;
                }
                assert(agents@.take(n as int) =~= agents@);
                proof {
                    if good {
                        assert(agents_with_home(agents@, agents@[i as int].home_location)
                            <= agents@[i as int].home_location.cell_count());
                    }
                }
                let hw = (home.end_offset.x as i64 - home.start_offset.x as i64 + 1) as u64;
                let hh = (home.end_offset.y as i64 - home.start_offset.y as i64 + 1) as u64;
                assert(hw * hh <= 2_000_000_001 * 2_000_000_001) by (nonlinear_arith)
                    requires
                        hw <= 2_000_000_001,
                        hh <= 2_000_000_001,
                ;
                if hw * hh > usize::MAX as u64 {
                    proof {
                        if good {
                            assert(town.contains_spec(home.start_offset));
                            assert(town.contains_spec(home.end_offset));
                            assert(hw * hh <= town.width() * town.height()) by (nonlinear_arith)
                                requires
                                    0 < hw <= town.width(),
                                    0 < hh <= town.height(),
                            ;
                        }
                    }
                    return Err(PopulationError::HouseFull);
                }
                assert(home.cell_count() == hw * hh);
                let points = match home.random_points(members.len(), rng) {
                    None => {
                        return Err(PopulationError::HouseFull);
                    },
                    Some(v) => v,
                };
                let ghost done_before = done@;
                let ghost locations_before = locations@;
                let mut a: usize = 0;
                while a < members.len()
                    invariant
                        a <= members@.len() == points@.len(),
                        n == agents@.len() == locations@.len() == done@.len(),
                        good == houses_fit(agents@, self.grid_size),
                        town_fits(self.grid_size),
                        h == home,
                        i < n,
                        agents@[i as int].home_location == home,
                        !processed.contains(home),
                        points@.no_duplicates(),
                        forall|b: int| 0 <= b < points@.len() ==> home.contains_spec(#[trigger] points@[b]),
                        forall|b: int| 0 <= b < members@.len() ==> #[trigger] members@[b] < n,
                        forall|b: int|
                            0 <= b < members@.len() ==> agents@[#[trigger] members@[b] as int].home_location
                                == home,
                        forall|k: int|
                            0 <= k < n && agents@[k].home_location == home ==> #[trigger] members@.contains(
                                k as usize,
                            ),
                        forall|x: int, y: int|
                            0 <= x < y < members@.len() ==> #[trigger] members@[x] < #[trigger] members@[y],
                        forall|k: int| 0 <= k < agents@.len() ==> (#[trigger] agents@[k]).home_location.wf(),
                        map.wf(),
                        map.grid_area == town,
                        town == town_area(self.grid_size),
                        forall|k: int|
                            0 <= k < n ==> (#[trigger] done@[k] <==> (processed.contains(
                                agents@[k].home_location,
                            ) || exists|b: int| 0 <= b < a && members@[b] == k)),
                        forall|k: int| 0 <= k < i ==> #[trigger] done@[k],
                        forall|b: int| 0 <= b < a ==> locations@[#[trigger] members@[b] as int] == points@[b],
                        forall|p: Point| #[trigger]
                            map@.dom().contains(p) ==> map@[p] < n && done@[map@[p] as int]
                                && agents@[map@[p] as int].home_location.contains_spec(p)
                                && locations@[map@[p] as int] == p,
                        forall|k: int|
                            0 <= k < n && #[trigger] done@[k] ==> map@.dom().contains(locations@[k])
                                && map@[locations@[k]] == k,
                        forall|k: int|
                            0 <= k < n && #[trigger] done@[k] ==> agents@[k].home_location.contains_spec(
                                locations@[k],
                            ) && town.contains_spec(locations@[k]),
                    decreases members@.len() - a,
                {
                    let p = points[a];
                    let k = members[a];
                    proof {
                        map.lemma_view();
                        if good && map@.dom().contains(p) {
                            let other = map@[p];
                            assert(done@[other as int]);
                            assert(agents@[other as int].home_location.contains_spec(p));
                            assert(home.contains_spec(p));
                            assert(overlap_or_equal(agents@, self.grid_size, other as int, i as int));
                            assert(agents@[other as int].home_location == home);
                            let b = choose|b: int| 0 <= b < a && members@[b] == other;
                            assert(locations@[other as int] == points@[b]);
                            assert(points@[b] == p);
                        }
                        if good {
                            assert(town.contains_spec(p));
                        }
                    }
                    if !map.is_point_in_grid(&p) || !map.is_cell_vacant(&p) {
                        return Err(PopulationError::HouseFull);
                    }
                    proof {
                        if done@[k as int] {
                            assert(!processed.contains(agents@[k as int].home_location));
                            let b = choose|b: int| 0 <= b < a && members@[b] == k;
                            assert(members@[b] < members@[a as int]);
                        }
                    }
                    let ghost map_before = map@;
                    map.place_agent(p, k);
                    locations.set(k, p);
                    done.set(k, true);
                    proof {
                        assert forall|x: int|
                            0 <= x < n implies (#[trigger] done@[x] <==> (processed.contains(
                            agents@[x].home_location,
                        ) || exists|b: int| 0 <= b < a + 1 && members@[b] == x)) by {
                            if x == k {
                                assert(members@[a as int] == x);
                            }
                        }
                        assert forall|b: int| 0 <= b < a + 1 implies locations@[#[trigger] members@[b] as int]
                            == points@[b] by {
                            if b < a {
                                assert(members@[b] < members@[a as int]);
                            }
                        }
                    }
                    a = a + 1;
                }
                proof {
                    processed = processed.insert(home);
                    assert forall|x: int|
                        0 <= x < n implies (#[trigger] done@[x] <==> processed.contains(
                        agents@[x].home_location,
                    )) by {
                        if agents@[x].home_location == home {
                            assert(members@.contains(x as usize));
                            let b = choose|b: int| 0 <= b < members@.len() && members@[b] == x as usize;
                        }
                    }
                }
            }
            i = i + 1;
        }
        proof {
            assert forall|x: int, y: int|
                0 <= x < locations@.len() && 0 <= y < locations@.len() && x != y implies locations@[x]
                != locations@[y] by {
                assert(done@[x] && done@[y]);
            }
            assert forall|x: int| 0 <= x < agents@.len() implies (
            #[trigger] agents@[x]).home_location.contains_spec(locations@[x]) && town_area(
                self.grid_size,
            ).contains_spec(locations@[x]) by {
                assert(done@[x]);
            }
        }
        Ok(locations)
    }

    /// The number of agents living in each house, by the house's position.
    pub fn group_home_locations_by_occupancy(&self, agents: &Vec<Citizen>) -> (r: Vec<u32>)
        requires
            agents@.len() <= u32::MAX,
        ensures
            r@.len() == self.houses@.len(),
            forall|h: int|
                0 <= h < r@.len() ==> #[trigger] r@[h] == agents_with_home(agents@, self.houses@[h]),
    {
        let mut r: Vec<u32> = Vec::new();
        let mut h: usize = 0;
        while h < self.houses.len()
            invariant
                h <= self.houses@.len(),
                agents@.len() <= u32::MAX,
                r@.len() == h,
                forall|k: int|
                    0 <= k < h ==> #[trigger] r@[k] == agents_with_home(agents@, self.houses@[k]),
            decreases self.houses@.len() - h,
        {
            let house = self.houses[h];
            let mut count: u32 = 0;
            let mut i: usize = 0;
            while i < agents.len()
                invariant
                    i <= agents@.len() <= u32::MAX,
                    count == agents_with_home(agents@.take(i as int), house),
                    count <= i,
                decreases agents@.len() - i,
            {
                if agents[i].home_location == house {
                    count = count + 1;
                }
                assert(agents@.take(i + 1).drop_last() =~= agents@.take(i as int));
                i = i + 1;
            }
            assert(agents@.take(i as int) =~= agents@);
            r.push(count);
            h = h + 1;
        }
        r
    }

    /// The number of working agents in each office, by the office's
    /// position.
    pub fn group_office_locations_by_occupancy(&self, citizens: &Vec<Citizen>) -> (r: Vec<u32>)
        requires
            citizens@.len() <= u32::MAX,
        ensures
            r@.len() == self.offices@.len(),
            forall|h: int|
                0 <= h < r@.len() ==> #[trigger] r@[h] == agents_working_at(
                    citizens@,
                    self.offices@[h],
                ),
    {
        let mut r: Vec<u32> = Vec::new();
        let mut h: usize = 0;
        while h < self.offices.len()
            invariant
                h <= self.offices@.len(),
                citizens@.len() <= u32::MAX,
                r@.len() == h,
                forall|k: int|
                    0 <= k < h ==> #[trigger] r@[k] == agents_working_at(citizens@, self.offices@[k]),
            decreases self.offices@.len() - h,
        {
            let office = self.offices[h];
            let mut count: u32 = 0;
            let mut i: usize = 0;
            while i < citizens.len()
                invariant
                    i <= citizens@.len() <= u32::MAX,
                    count == agents_working_at(citizens@.take(i as int), office),
                    count <= i,
                decreases citizens@.len() - i,
            {
                if citizens[i].is_working() && citizens[i].work_location == office {
                    count = count + 1;
                }
                assert(citizens@.take(i + 1).drop_last() =~= citizens@.take(i as int));
                i = i + 1;
            }
            assert(citizens@.take(i as int) =~= citizens@);
            r.push(count);
            h = h + 1;
        }
        r
    }

    /// Records how many agents live in each house and work in each office.
    pub fn set_occupancies(&mut self, agents: &Vec<Citizen>)
        requires
            agents@.len() <= u32::MAX,
        ensures
            final(self).houses_occupancy@.len() == old(self).houses@.len(),
            final(self).offices_occupancy@.len() == old(self).offices@.len(),
            forall|h: int|
                0 <= h < old(self).houses@.len() ==> #[trigger] final(self).houses_occupancy@[h]
                    == agents_with_home(agents@, old(self).houses@[h]),
            forall|h: int|
                0 <= h < old(self).offices@.len() ==> #[trigger] final(self).offices_occupancy@[h]
                    == agents_working_at(agents@, old(self).offices@[h]),
            final(self).houses == old(self).houses,
            final(self).offices == old(self).offices,
            final(self).grid_size == old(self).grid_size,
            final(self).housing_area == old(self).housing_area,
            final(self).work_area == old(self).work_area,
            final(self).transport_area == old(self).transport_area,
            final(self).hospital_area == old(self).hospital_area,
    {
        self.houses_occupancy = self.group_home_locations_by_occupancy(agents);
        self.offices_occupancy = self.group_office_locations_by_occupancy(agents);
    }

    /// The first house with room for one more occupant, if any.
    pub fn choose_house_with_free_space(&self) -> (r: Option<Area>)
        requires
            self.houses_occupancy@.len() == self.houses@.len(),
        ensures
            r matches Some(a) ==> exists|h: int|
                0 <= h < self.houses@.len() && self.houses@[h] == a && #[trigger] self.houses_occupancy@[h]
                    < HOME_SIZE * HOME_SIZE,
            r is None ==> forall|h: int|
                0 <= h < self.houses@.len() ==> #[trigger] self.houses_occupancy@[h] >= HOME_SIZE
                    * HOME_SIZE,
    {
        let capacity = (HOME_SIZE * HOME_SIZE) as u32;
        let mut h: usize = 0;
        while h < self.houses.len()
            invariant
                h <= self.houses@.len() == self.houses_occupancy@.len(),
                capacity == HOME_SIZE * HOME_SIZE,
                forall|k: int| 0 <= k < h ==> #[trigger] self.houses_occupancy@[k] >= capacity,
            decreases self.houses@.len() - h,
        {
            if self.houses_occupancy[h] < capacity {
                return Some(self.houses[h]);
            }
            h = h + 1;
        }
        None
    }

    /// The first office with room for one more worker, if any.
    pub fn choose_office_with_free_space(&self) -> (r: Option<Area>)
        requires
            self.offices_occupancy@.len() == self.offices@.len(),
        ensures
            r matches Some(a) ==> exists|h: int|
                0 <= h < self.offices@.len() && self.offices@[h] == a && #[trigger] self.offices_occupancy@[h]
                    < OFFICE_SIZE * OFFICE_SIZE,
            r is None ==> forall|h: int|
                0 <= h < self.offices@.len() ==> #[trigger] self.offices_occupancy@[h] >= OFFICE_SIZE
                    * OFFICE_SIZE,
    {
        let capacity = (OFFICE_SIZE * OFFICE_SIZE) as u32;
        let mut h: usize = 0;
        while h < self.offices.len()
            invariant
                h <= self.offices@.len() == self.offices_occupancy@.len(),
                capacity == OFFICE_SIZE * OFFICE_SIZE,
                forall|k: int| 0 <= k < h ==> #[trigger] self.offices_occupancy@[k] >= capacity,
            decreases self.offices@.len() - h,
        {
            if self.offices_occupancy[h] < capacity {
                return Some(self.offices[h]);
            }
            h = h + 1;
        }
        None
    }

    /// Counts one more occupant in `house`; returns whether it is a house
    /// of the town.
    pub fn add_house_occupant(&mut self, house: &Area) -> (r: bool)
        requires
            old(self).houses_occupancy@.len() == old(self).houses@.len(),
            forall|h: int|
                0 <= h < old(self).houses@.len() && old(self).houses@[h] == *house
                    ==> #[trigger] old(self).houses_occupancy@[h] < u32::MAX,
        ensures
            final(self).houses == old(self).houses,
            final(self).offices_occupancy == old(self).offices_occupancy,
            final(self).houses_occupancy@.len() == old(self).houses_occupancy@.len(),
            r == exists|h: int| 0 <= h < old(self).houses@.len() && old(self).houses@[h] == *house,
            forall|h: int|
                0 <= h < old(self).houses@.len() ==> #[trigger] final(self).houses_occupancy@[h]
                    == old(self).houses_occupancy@[h] + if (r && first_house(old(self).houses@, *house, h)) {
                    1int
                } else {
                    0int
                },
    {
        match position_of(&self.houses, house) {
            None => false,
            Some(h) => {
                let v = self.houses_occupancy[h];
                self.houses_occupancy.set(h, v + 1);
                true
            },
        }
    }

    /// Counts one occupant less in `house`; returns whether it is a house
    /// of the town.
    pub fn remove_house_occupant(&mut self, house: &Area) -> (r: bool)
        requires
            old(self).houses_occupancy@.len() == old(self).houses@.len(),
            forall|h: int|
                0 <= h < old(self).houses@.len() && old(self).houses@[h] == *house
                    ==> #[trigger] old(self).houses_occupancy@[h] > 0,
        ensures
            final(self).houses == old(self).houses,
            final(self).offices_occupancy == old(self).offices_occupancy,
            final(self).houses_occupancy@.len() == old(self).houses_occupancy@.len(),
            r == exists|h: int| 0 <= h < old(self).houses@.len() && old(self).houses@[h] == *house,
            forall|h: int|
                0 <= h < old(self).houses@.len() ==> #[trigger] final(self).houses_occupancy@[h]
                    == old(self).houses_occupancy@[h] - if (r && first_house(old(self).houses@, *house, h)) {
                    1int
                } else {
                    0int
                },
    {
        match position_of(&self.houses, house) {
            None => false,
            Some(h) => {
                let v = self.houses_occupancy[h];
                self.houses_occupancy.set(h, v - 1);
                true
            },
        }
    }

    /// Counts one more worker in `office`; returns whether it is an office
    /// of the town.
    pub fn add_office_occupant(&mut self, office: &Area) -> (r: bool)
        requires
            old(self).offices_occupancy@.len() == old(self).offices@.len(),
            forall|h: int|
                0 <= h < old(self).offices@.len() && old(self).offices@[h] == *office
                    ==> #[trigger] old(self).offices_occupancy@[h] < u32::MAX,
        ensures
            final(self).offices == old(self).offices,
            final(self).houses_occupancy == old(self).houses_occupancy,
            final(self).offices_occupancy@.len() == old(self).offices_occupancy@.len(),
            r == exists|h: int| 0 <= h < old(self).offices@.len() && old(self).offices@[h] == *office,
            forall|h: int|
                0 <= h < old(self).offices@.len() ==> #[trigger] final(self).offices_occupancy@[h]
                    == old(self).offices_occupancy@[h] + if (r && first_house(old(self).offices@, *office, h)) {
                    1int
                } else {
                    0int
                },
    {
        match position_of(&self.offices, office) {
            None => false,
            Some(h) => {
                let v = self.offices_occupancy[h];
                self.offices_occupancy.set(h, v + 1);
                true
            },
        }
    }

    /// Counts one worker less in `office`; returns whether it is an office
    /// of the town.
    pub fn remove_office_occupant(&mut self, office: &Area) -> (r: bool)
        requires
            old(self).offices_occupancy@.len() == old(self).offices@.len(),
            forall|h: int|
                0 <= h < old(self).offices@.len() && old(self).offices@[h] == *office
                    ==> #[trigger] old(self).offices_occupancy@[h] > 0,
        ensures
            final(self).offices == old(self).offices,
            final(self).houses_occupancy == old(self).houses_occupancy,
            final(self).offices_occupancy@.len() == old(self).offices_occupancy@.len(),
            r == exists|h: int| 0 <= h < old(self).offices@.len() && old(self).offices@[h] == *office,
            forall|h: int|
                0 <= h < old(self).offices@.len() ==> #[trigger] final(self).offices_occupancy@[h]
                    == old(self).offices_occupancy@[h] - if (r && first_house(old(self).offices@, *office, h)) {
                    1int
                } else {
                    0int
                },
    {
        match position_of(&self.offices, office) {
            None => false,
            Some(h) => {
                let v = self.offices_occupancy[h];
                self.offices_occupancy.set(h, v - 1);
                true
            },
        }
    }

    /// Grows the hospital to reach the far corner of a town of side
    /// `grid_size`.
    pub fn increase_hospital_size(&mut self, grid_size: i32)
        ensures
            final(self).hospital_area == Area::new_spec(
                old(self).hospital_area.start_offset,
                Point { x: grid_size, y: grid_size },
            ),
            final(self).grid_size == old(self).grid_size,
            final(self).housing_area == old(self).housing_area,
            final(self).work_area == old(self).work_area,
            final(self).transport_area == old(self).transport_area,
            final(self).houses == old(self).houses,
            final(self).offices == old(self).offices,
    {
        let start_offset = self.hospital_area.start_offset;
        let end_offset = Point::new(grid_size, grid_size);
        self.hospital_area = Area::new(start_offset, end_offset);
    }

    /// Shrinks the hospital to as many rows as it needs for the beds and
    /// staff of `number_of_agents` agents, when it has room for them;
    /// otherwise leaves it as it is.
    pub fn resize_hospital(
        &mut self,
        number_of_agents: usize,
        hospital_staff_percentage: u32,
        hospital_beds_percentage: u32,
    )
        requires
            old(self).hospital_area.wf(),
            old(self).hospital_area.start_offset.x < old(self).hospital_area.end_offset.x,
            old(self).hospital_area.cell_count() <= usize::MAX,
            is_probability(hospital_staff_percentage),
            is_probability(hospital_beds_percentage),
        ensures
            final(self).grid_size == old(self).grid_size,
            final(self).housing_area == old(self).housing_area,
            final(self).work_area == old(self).work_area,
            final(self).transport_area == old(self).transport_area,
            final(self).houses == old(self).houses,
            final(self).offices == old(self).offices,
            ({
                let beds = hospital_places(
                    number_of_agents as int,
                    hospital_staff_percentage as int,
                    hospital_beds_percentage as int,
                );
                let rows = beds / (old(self).hospital_area.end_offset.x
                    - old(self).hospital_area.start_offset.x);
                let fits = beds <= old(self).hospital_area.cell_count() && rows <= COORDINATE_LIMIT;
                &&& !fits ==> final(self).hospital_area == old(self).hospital_area
                &&& fits ==> final(self).hospital_area
                    == Area::new_spec(
                    old(self).hospital_area.start_offset,
                    Point {
                        x: old(self).hospital_area.end_offset.x,
                        y: rows as i32,
                    },
                )
            }),
    {
        let n = number_of_agents as u128;
        let fraction = hospital_staff_percentage as u128 + hospital_beds_percentage as u128;
        assert(n * fraction <= 0xffff_ffff_ffff_ffffu128 * 2_000_000) by (nonlinear_arith)
            requires
                n <= 0xffff_ffff_ffff_ffffu128,
                fraction <= 2_000_000,
        ;
        let places = n * fraction;
        let hospital_bed_count = (places + (PROBABILITY_SCALE as u128 - 1)) / PROBABILITY_SCALE as u128;
        let cells = self.hospital_area.get_number_of_cells();
        let columns = (self.hospital_area.end_offset.x - self.hospital_area.start_offset.x) as u128;
        let rows = hospital_bed_count / columns;
        if hospital_bed_count <= cells as u128 && rows <= COORDINATE_LIMIT as u128 {
            self.hospital_area = Area::new(
                self.hospital_area.start_offset,
                Point::new(self.hospital_area.end_offset.x, rows as i32),
            );
        }
    }
}

/// Hospital places for `number_of_agents` agents: the staff and bed
/// fractions of them together, rounded up.
pub open spec fn hospital_places(number_of_agents: int, staff: int, beds: int) -> int {
    (number_of_agents * (staff + beds) + PROBABILITY_SCALE - 1) / PROBABILITY_SCALE as int
}

/// Lays out a town of side `grid_size`: houses on the first four tenths of
/// the width, transport on the next tenth, offices on the next two tenths
/// and the hospital on the tenth after that, each spanning the full height.
pub fn define_geography(grid_size: i32) -> (r: Grid)
    requires
        MIN_GRID_SIZE <= grid_size <= COORDINATE_LIMIT,
    ensures
        r.wf(),
        r.grid_size == grid_size,
        r.housing_area == Area::new_spec(
            Point { x: 0, y: 0 },
            Point { x: (grid_size * 4 / 10 - 1) as i32, y: grid_size },
        ),
        r.transport_area == Area::new_spec(
            Point { x: (grid_size * 4 / 10) as i32, y: 0 },
            Point { x: (grid_size * 5 / 10 - 1) as i32, y: grid_size },
        ),
        r.work_area == Area::new_spec(
            Point { x: (grid_size * 5 / 10) as i32, y: 0 },
            Point { x: (grid_size * 7 / 10 - 1) as i32, y: grid_size },
        ),
        r.hospital_area == Area::new_spec(
            Point { x: (grid_size * 7 / 10) as i32, y: 0 },
            Point { x: (grid_size * 8 / 10 - 1) as i32, y: grid_size },
        ),
        r.houses_occupancy@ == Seq::new(r.houses@.len(), |i: int| 0u32),
        r.offices_occupancy@ == Seq::new(r.offices@.len(), |i: int| 0u32),
{
    let g = grid_size as i64;
    let housing_end = (g * 4 / 10 - 1) as i32;
    let transport_end = (g * 5 / 10 - 1) as i32;
    let work_end = (g * 7 / 10 - 1) as i32;
    let hospital_end = (g * 8 / 10 - 1) as i32;
    let housing_area = Area::new(Point::new(0, 0), Point::new(housing_end, grid_size));
    let transport_area = Area::new(
        Point::new(housing_end + 1, 0),
        Point::new(transport_end, grid_size),
    );
    let work_area = Area::new(Point::new(transport_end + 1, 0), Point::new(work_end, grid_size));
    let hospital_area = Area::new(
        Point::new(work_end + 1, 0),
        Point::new(hospital_end, grid_size),
    );
    let houses = area_factory(housing_area.start_offset, housing_area.end_offset, HOME_SIZE);
    let offices = area_factory(work_area.start_offset, work_area.end_offset, OFFICE_SIZE);
    let houses_occupancy = zeros(houses.len());
    let offices_occupancy = zeros(offices.len());
    Grid {
        grid_size,
        housing_area,
        work_area,
        transport_area,
        hospital_area,
        houses,
        offices,
        houses_occupancy,
        offices_occupancy,
    }
}

} // verus!
