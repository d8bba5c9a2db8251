use vstd::prelude::*;

use rand::rngs::StdRng;

use crate::agent::{hour_taken, snapshot_wf, Citizen};
use crate::allocation_map::{index_of, lemma_index_of, AgentLocationMap};
use crate::constants::MAX_SIMULATION_HOUR;
use crate::counts::Counts;
use crate::disease::Disease;
use crate::disease_state_machine::State;
use crate::geography::grid::town_area;
use crate::geography::{Area, Grid, Point};
use crate::interventions::{hospital_can_grow, AppliedInterventions, Interventions};

verus! {

/// Some cell of `m` holds agent `i`.
pub open spec fn holds_agent(m: Map<Point, usize>, i: int) -> bool {
    exists|p: Point| m.dom().contains(p) && m[p] == i
}

/// Every agent of a population of `n` stands on some cell of `m`.
pub open spec fn holds_all(m: Map<Point, usize>, n: int) -> bool {
    forall|i: int| 0 <= i < n ==> #[trigger] holds_agent(m, i)
}

/// The tally an agent adds to: 0 susceptible, 1 exposed, 2 infected, 3 in
/// hospital, 4 recovered, 5 deceased.
pub open spec fn category_of(c: Citizen) -> int {
    match c.state_machine.state {
        State::Susceptible => 0,
        State::Exposed { .. } => 1,
        State::Infected { .. } => if c.hospitalized {
            3
        } else {
            2
        },
        State::Recovered => 4,
        State::Deceased => 5,
    }
}

/// How many agents of `s` fall in tally `k`.
pub open spec fn number_in(s: Seq<Citizen>, k: int) -> nat
    decreases s.len(),
{
    if s.len() == 0 {
        0
    } else {
        number_in(s.drop_last(), k) + if category_of(s.last()) == k {
            1nat
        } else {
            0nat
        }
    }
}

/// The counts of a population at an hour.
pub open spec fn tally(s: Seq<Citizen>, hour: u32) -> Counts {
    Counts {
        hour,
        susceptible: number_in(s, 0) as u32,
        exposed: number_in(s, 1) as u32,
        infected: number_in(s, 2) as u32,
        hospitalized: number_in(s, 3) as u32,
        recovered: number_in(s, 4) as u32,
        deceased: number_in(s, 5) as u32,
    }
}

/// Every agent falls in exactly one tally, so the six tallies of a
/// population add up to its size.
pub proof fn lemma_tallies_cover_population(s: Seq<Citizen>)
    ensures
        number_in(s, 0) + number_in(s, 1) + number_in(s, 2) + number_in(s, 3) + number_in(s, 4)
            + number_in(s, 5) == s.len(),
    decreases s.len(),
{
    if s.len() > 0 {
        lemma_tallies_cover_population(s.drop_last());
    }
}

/// The counts of a population add up to its size: none is lost and none is
/// counted twice, dead agents included.
pub proof fn lemma_counts_conserve_population(s: Seq<Citizen>, hour: u32)
    requires
        s.len() <= u32::MAX,
    ensures
        tally(s, hour).total_spec() == s.len(),
{
    lemma_tallies_cover_population(s);
}

/// Adds an agent to the tally it falls in.
pub fn update_counts(counts_at_hr: &mut Counts, citizen: &Citizen)
    requires
        old(counts_at_hr).total_spec() < u32::MAX,
    ensures
        final(counts_at_hr).hour == old(counts_at_hr).hour,
        final(counts_at_hr).total_spec() == old(counts_at_hr).total_spec() + 1,
        final(counts_at_hr).susceptible == old(counts_at_hr).susceptible + if category_of(*citizen) == 0 { 1int } else { 0int },
        final(counts_at_hr).exposed == old(counts_at_hr).exposed + if category_of(*citizen) == 1 { 1int } else { 0int },
        final(counts_at_hr).infected == old(counts_at_hr).infected + if category_of(*citizen) == 2 { 1int } else { 0int },
        final(counts_at_hr).hospitalized == old(counts_at_hr).hospitalized + if category_of(*citizen) == 3 { 1int } else { 0int },
        final(counts_at_hr).recovered == old(counts_at_hr).recovered + if category_of(*citizen) == 4 { 1int } else { 0int },
        final(counts_at_hr).deceased == old(counts_at_hr).deceased + if category_of(*citizen) == 5 { 1int } else { 0int },
{
    match citizen.state_machine.state {
        State::Susceptible => counts_at_hr.update_susceptible(1),
        State::Exposed { .. } => counts_at_hr.update_exposed(1),
        State::Infected { .. } => {
            if citizen.is_hospitalized() {
                counts_at_hr.update_hospitalized(1);
            } else {
                counts_at_hr.update_infected(1);
            }
        },
        State::Recovered => counts_at_hr.update_recovered(1),
        State::Deceased => counts_at_hr.update_deceased(1),
    }
}

/// The counts of `citizens` at `hour`, by a full scan.
pub fn count_population(citizens: &Vec<Citizen>, hour: u32) -> (r: Counts)
    requires
        citizens@.len() <= u32::MAX,
    ensures
        r == tally(citizens@, hour),
        r.total_spec() == citizens@.len(),
{
    let mut counts = Counts::new_test(hour, 0, 0, 0, 0, 0, 0);
    let mut i: usize = 0;
    while i < citizens.len()
        invariant
            i <= citizens@.len() <= u32::MAX,
            counts == tally(citizens@.take(i as int), hour),
            counts.total_spec() == i,
        decreases citizens@.len() - i,
    {
        let ghost before = counts;
        update_counts(&mut counts, &citizens[i]);
        proof {
            let t0 = citizens@.take(i as int);
            let t1 = citizens@.take(i + 1);
            assert(t1.drop_last() =~= t0);
            assert(t1.last() == citizens@[i as int]);
            lemma_tallies_cover_population(t1);
            lemma_tallies_cover_population(t0);
            assert(counts == tally(t1, hour));
        }
        i = i + 1;
    }
    assert(citizens@.take(i as int) =~= citizens@);
    counts
}

/// Nothing is left to spread in `row`.
pub open spec fn stops(row: Counts) -> bool {
    row.exposed == 0 && row.infected == 0 && row.hospitalized == 0
}

/// There is nothing left to spread: nobody is exposed, infected or in
/// hospital.
pub fn stop_simulation(row: &Counts) -> (r: bool)
    ensures
        r == stops(*row),
{
    row.exposed == 0 && row.infected == 0 && row.hospitalized == 0
}

/// Some cell of `rm` before row-major position `k` holds agent `v`.
pub open spec fn drawn_before(rm: AgentLocationMap, k: int, v: usize) -> bool {
    exists|p: Point| rm@.dom().contains(p) && index_of(rm.grid_area, p) < k && rm@[p] == v
}

proof fn lemma_index_injective(area: Area, p: Point, q: Point)
    requires
        area.wf(),
        area.contains_spec(p),
        area.contains_spec(q),
        index_of(area, p) == index_of(area, q),
    ensures
        p == q,
{
    lemma_index_of(area, p);
    lemma_index_of(area, q);
}

/// Two populations whose agents fall in the same tallies, one by one, have
/// the same counts.
proof fn lemma_same_categories(s1: Seq<Citizen>, s2: Seq<Citizen>, k: int)
    requires
        s1.len() == s2.len(),
        forall|i: int| 0 <= i < s1.len() ==> category_of(#[trigger] s1[i]) == category_of(s2[i]),
    ensures
        number_in(s1, k) == number_in(s2, k),
    decreases s1.len(),
{
    if s1.len() > 0 {
        lemma_same_categories(s1.drop_last(), s2.drop_last(), k);
        assert(category_of(s1[s1.len() - 1]) == category_of(s2[s2.len() - 1]));
    }
}

/// A copy of a population.
fn copy_population(citizens: &Vec<Citizen>) -> (r: Vec<Citizen>)
    ensures
        r@ == citizens@,
{
    let mut r: Vec<Citizen> = Vec::new();
    let mut i: usize = 0;
    while i < citizens.len()
        invariant
            i <= citizens@.len(),
            r@ == citizens@.take(i as int),
        decreases citizens@.len() - i,
    {
        r.push(citizens[i]);
        assert(citizens@.take(i + 1) =~= citizens@.take(i as int).push(citizens@[i as int]));
        i = i + 1;
    }
    assert(citizens@.take(i as int) =~= citizens@);
    r
}

/// Agent `i`, which stood on `cell` and asked for `dest`, is on `dest` in
/// `m`; or it is back on `cell` because `dest` was taken first.
pub open spec fn placed_after_hour(m: Map<Point, usize>, cell: Point, i: usize, dest: Point) -> bool {
    (m.dom().contains(dest) && m[dest] == i) || (m.dom().contains(cell) && m[cell] == i
        && m.dom().contains(dest))
}

/// Every agent of `before`, on its cell `p` of the grid, took hour
/// `simulation_hour` against the frozen `before` (see `hour_taken`), asked
/// for the cell `dest[i]`, and stands in `after` where `placed_after_hour`
/// says.
pub open spec fn agents_took_hour(
    before: Epidemiology,
    after: Epidemiology,
    simulation_hour: i32,
    dest: Seq<Point>,
) -> bool {
    &&& dest.len() == before.citizens@.len()
    &&& forall|p: Point|
        #[trigger] before.agent_location_map@.dom().contains(p) ==> {
            let i = before.agent_location_map@[p];
            &&& hour_taken(
                before.citizens@[i as int],
                after.citizens@[i as int],
                p,
                simulation_hour,
                before.grid,
                &before.agent_location_map,
                before.disease,
                dest[i as int],
            )
            &&& placed_after_hour(after.agent_location_map@, p, i, dest[i as int])
        }
}

/// Why a simulation could not be set up.
#[derive(Copy, Clone, Debug, PartialEq, Eq, Structural)]
pub enum SetupError {
    /// The town is too large to be held in memory.
    GridTooLarge,
    /// There are more agents than the counts can hold.
    TooManyAgents,
    /// The numbers of agents and of starting cells differ.
    LocationCountMismatch,
    /// An agent would start outside the town.
    LocationOutsideGrid,
    /// Two agents would start on the same cell.
    LocationTaken,
}

/// A simulation of `n` agents can start on the cells `home_locations` of a
/// town of side `grid_size`: there are not too many agents, one distinct
/// cell of the town for each, and the town fits in memory.
pub open spec fn setup_possible(grid_size: i32, n: nat, home_locations: Seq<Point>) -> bool {
    &&& n <= u32::MAX
    &&& n == home_locations.len()
    &&& (grid_size + 1) * (grid_size + 1) <= usize::MAX
    &&& forall|i: int|
        0 <= i < home_locations.len() ==> town_area(grid_size).contains_spec(
            #[trigger] home_locations[i],
        )
    &&& home_locations.no_duplicates()
}

/// A whole simulation: the town, the disease, the agents (named by their
/// index) and the cells they stand on, the counts of the current hour and
/// the interventions.
pub struct Epidemiology {
    pub grid: Grid,
    pub disease: Disease,
    pub citizens: Vec<Citizen>,
    pub agent_location_map: AgentLocationMap,
    pub counts_at_hr: Counts,
    pub interventions: Interventions,
}

impl Epidemiology {
    pub open spec fn wf(&self) -> bool {
        &&& self.grid.wf()
        &&& hospital_can_grow(self.grid)
        &&& self.disease.wf()
        &&& self.interventions.wf()
        &&& self.citizens@.len() <= u32::MAX
        &&& forall|i: int| 0 <= i < self.citizens@.len() ==> (#[trigger] self.citizens@[i]).wf()
        &&& snapshot_wf(&self.agent_location_map, self.citizens@)
        &&& holds_all(self.agent_location_map@, self.citizens@.len() as int)
        &&& self.counts_at_hr == tally(self.citizens@, self.counts_at_hr.hour)
    }

    /// Sets a simulation up with agent `i` of `citizens` on cell `i` of
    /// `home_locations`, in a square grid from `(0, 0)` to the side of the
    /// town.
    pub fn new(
        grid: Grid,
        disease: Disease,
        citizens: Vec<Citizen>,
        home_locations: &Vec<Point>,
        interventions: Interventions,
    ) -> (r: Result<Epidemiology, SetupError>)
        requires
            grid.wf(),
            hospital_can_grow(grid),
            disease.wf(),
            interventions.wf(),
            forall|i: int| 0 <= i < citizens@.len() ==> (#[trigger] citizens@[i]).wf(),
        ensures
            r matches Ok(e) ==> {
                &&& e.wf()
                &&& e.citizens@ == citizens@
                &&& e.grid == grid
                &&& e.disease == disease
                &&& e.interventions == interventions
                &&& e.counts_at_hr.hour == 0
                &&& forall|i: int|
                    0 <= i < citizens@.len() ==> e.agent_location_map@[#[trigger] home_locations@[i]]
                        == i
            },
            citizens@.len() > u32::MAX ==> r is Err && r->Err_0 == SetupError::TooManyAgents,
            r is Err && r->Err_0 == SetupError::TooManyAgents ==> citizens@.len() > u32::MAX,
            r == Err::<Epidemiology, SetupError>(SetupError::LocationCountMismatch) ==> citizens@.len()
                != home_locations@.len(),
            r is Ok <==> setup_possible(grid.grid_size, citizens@.len(), home_locations@),
    {
        if citizens.len() > 0xffff_ffffusize {
            return Err(SetupError::TooManyAgents);
        }
        if citizens.len() != home_locations.len() {
            return Err(SetupError::LocationCountMismatch);
        }
        let side = grid.grid_size as u64 + 1;
        assert(side * side <= 0x4000_0000_0000_0000) by (nonlinear_arith)
            requires
                side <= 0x8000_0000,
        ;
        if side * side > usize::MAX as u64 {
            assert((grid.grid_size + 1) * (grid.grid_size + 1) == side * side);
            return Err(SetupError::GridTooLarge);
        }
        let grid_area = Area::new(Point::new(0, 0), Point::new(grid.grid_size, grid.grid_size));
        assert(grid_area.width() * grid_area.height() == side * side);
        let mut map = AgentLocationMap::new(grid_area);
        let mut i: usize = 0;
        while i < home_locations.len()
            invariant
                i <= home_locations@.len() == citizens@.len(),
                citizens@.len() <= u32::MAX,
                map.wf(),
                map.grid_area == grid_area,
                forall|p: Point| #[trigger] map@.dom().contains(p) ==> map@[p] < i,
                forall|k: int|
                    0 <= k < i ==> map@.dom().contains(#[trigger] home_locations@[k]) && map@[home_locations@[k]]
                        == k,
                forall|p: Point| #[trigger] map@.dom().contains(p) ==> home_locations@[map@[p] as int] == p,
                grid_area == town_area(grid.grid_size),
                forall|k: int| 0 <= k < i ==> grid_area.contains_spec(#[trigger] home_locations@[k]),
            decreases home_locations@.len() - i,
        {
            let cell = home_locations[i];
            if !map.is_point_in_grid(&cell) {
                assert(!setup_possible(grid.grid_size, citizens@.len(), home_locations@)) by {
                    assert(!town_area(grid.grid_size).contains_spec(home_locations@[i as int]));
                }
                return Err(SetupError::LocationOutsideGrid);
            }
            if !map.is_cell_vacant(&cell) {
                assert(!setup_possible(grid.grid_size, citizens@.len(), home_locations@)) by {
                    let j = map@[cell];
                    assert(home_locations@[j as int] == cell);
                    assert(j < i);
                    assert(home_locations@[j as int] == home_locations@[i as int]);
                }
                return Err(SetupError::LocationTaken);
            }
            let ghost before = map@;
            map.place_agent(cell, i);
            proof {
                assert forall|k: int| 0 <= k < i + 1 implies map@.dom().contains(
                    #[trigger] home_locations@[k],
                ) && map@[home_locations@[k]] == k by {
                    if k < i {
                        assert(before.dom().contains(home_locations@[k]));
                        assert(home_locations@[k] != cell);
                    }
                }
            }
            i = i + 1;
        }
        proof {
            assert forall|a: int, b: int|
                0 <= a < home_locations@.len() && 0 <= b < home_locations@.len() && a != b implies home_locations@[a]
                != home_locations@[b] by {
                assert(map@[home_locations@[a]] == a);
                assert(map@[home_locations@[b]] == b);
            }
            assert forall|k: int| 0 <= k < citizens@.len() implies #[trigger] holds_agent(map@, k) by {
                assert(map@.dom().contains(home_locations@[k]) && map@[home_locations@[k]] == k);
            }
        }
        let counts_at_hr = count_population(&citizens, 0);
        Ok(
            Epidemiology {
                grid,
                disease,
                citizens,
                agent_location_map: map,
                counts_at_hr,
                interventions,
            },
        )
    }
}

impl Epidemiology {
    /// In a well-formed simulation, which every hour keeps, each occupied
    /// cell is a cell of the grid holding one agent of the population, no
    /// agent stands on two cells, and every agent stands on some cell.
    pub proof fn lemma_one_agent_per_cell(&self)
        requires
            self.wf(),
        ensures
            crate::allocation_map::is_injective(self.agent_location_map@),
            forall|p: Point| #[trigger]
                self.agent_location_map@.dom().contains(p) ==> self.agent_location_map.grid_area.contains_spec(p)
                    && self.agent_location_map@[p] < self.citizens@.len(),
            holds_all(self.agent_location_map@, self.citizens@.len() as int),
    {
        self.agent_location_map.lemma_view();
    }

    /// One hour for every agent. Each agent on the grid runs its hour
    /// against a frozen copy of the agents and of the grid, so that the
    /// order of the agents does not matter, and is put on the cell it asked
    /// for in a new grid when that cell is still free there, else back on its
    /// own cell. Then the counts are taken afresh for `simulation_hour`.
    pub fn simulate(&mut self, simulation_hour: i32, rng: &mut StdRng)
        requires
            old(self).wf(),
            0 <= simulation_hour <= MAX_SIMULATION_HOUR,
        ensures
            final(self).wf(),
            final(self).citizens@.len() == old(self).citizens@.len(),
            final(self).grid == old(self).grid,
            final(self).disease == old(self).disease,
            final(self).interventions == old(self).interventions,
            final(self).agent_location_map.grid_area == old(self).agent_location_map.grid_area,
            final(self).counts_at_hr == tally(final(self).citizens@, simulation_hour as u32),
            exists|dest: Seq<Point>| #[trigger]
                agents_took_hour(*old(self), *final(self), simulation_hour, dest),
            forall|i: int|
                0 <= i < old(self).citizens@.len() ==> (#[trigger] final(self).citizens@[i]).same_person(
                    old(self).citizens@[i],
                ),
            forall|i: int|
                0 <= i < old(self).citizens@.len() && old(self).citizens@[i].state_machine.state
                    is Deceased ==> (#[trigger] final(self).citizens@[i]).state_machine.state
                    is Deceased,
    {
        let read_population = copy_population(&self.citizens);
        let ghost rm = self.agent_location_map;
        let ghost n = self.citizens@.len();
        let ghost area = rm.grid_area;
        proof {
            rm.lemma_view();
        }
        let n_cells = self.agent_location_map.number_of_cells();
        let mut write_map = AgentLocationMap::new(self.agent_location_map.grid_area);
        let ghost mut dest: Seq<Point> = Seq::new(n, |i: int| Point { x: 0, y: 0 });
        let mut k: usize = 0;
        while k < n_cells
            invariant
                dest.len() == n,
                forall|p: Point|
                    #[trigger] rm@.dom().contains(p) && index_of(area, p) < k ==> {
                        let i = rm@[p];
                        &&& hour_taken(
                            read_population@[i as int],
                            self.citizens@[i as int],
                            p,
                            simulation_hour,
                            self.grid,
                            &rm,
                            self.disease,
                            dest[i as int],
                        )
                        &&& placed_after_hour(write_map@, p, i, dest[i as int])
                    },
                k <= n_cells == rm.size(),
                self.agent_location_map == rm,
                self.grid == old(self).grid,
                self.disease == old(self).disease,
                self.interventions == old(self).interventions,
                self.grid.wf(),
                self.disease.wf(),
                0 <= simulation_hour <= MAX_SIMULATION_HOUR,
                rm.wf(),
                area == rm.grid_area,
                area.wf(),
                crate::allocation_map::is_injective(rm@),
                forall|p: Point| #[trigger] rm@.dom().contains(p) ==> area.contains_spec(p),
                snapshot_wf(&rm, read_population@),
                holds_all(rm@, n as int),
                read_population@ == old(self).citizens@,
                read_population@.len() == n,
                self.citizens@.len() == n,
                n <= u32::MAX,
                forall|i: int| 0 <= i < n ==> (#[trigger] self.citizens@[i]).wf(),
                forall|i: int| 0 <= i < n ==> (#[trigger] read_population@[i]).wf(),
                forall|i: int|
                    0 <= i < n ==> (#[trigger] self.citizens@[i]).same_person(read_population@[i]),
                forall|i: int|
                    0 <= i < n && read_population@[i].state_machine.state is Deceased ==> (
                    #[trigger] self.citizens@[i]).state_machine.state is Deceased,
                write_map.wf(),
                write_map.grid_area == area,
                forall|q: Point|
                    #[trigger] write_map@.dom().contains(q) ==> !rm@.dom().contains(q)
                        || index_of(area, q) < k,
                forall|q: Point|
                    #[trigger] write_map@.dom().contains(q) ==> drawn_before(rm, k as int, write_map@[q]),
                forall|p: Point|
                    rm@.dom().contains(p) && index_of(area, p) < k ==> holds_agent(
                        write_map@,
                        #[trigger] rm@[p] as int,
                    ),
            decreases n_cells - k,
        {
            let cell = self.agent_location_map.cell_at(k);
            let ghost wm0 = write_map@;
            match self.agent_location_map.get_agent_for(&cell) {
                None => {
                    proof {
                        assert forall|q: Point| #[trigger] write_map@.dom().contains(q) implies drawn_before(
                            rm,
                            k + 1,
                            write_map@[q],
                        ) by {
                            let p = choose|p: Point|
                                rm@.dom().contains(p) && index_of(area, p) < k && rm@[p]
                                    == write_map@[q];
                        }
                        assert forall|p: Point|
                            rm@.dom().contains(p) && index_of(area, p) < k + 1 implies holds_agent(
                            write_map@,
                            #[trigger] rm@[p] as int,
                        ) by {
                            if index_of(area, p) == k {
                                lemma_index_injective(area, p, cell);
                            }
                        }
                    }
                },
                Some(a) => {
                    assert(rm@.dom().contains(cell) && rm@[cell] == a);
                    assert(a < n);
                    let mut current_agent = read_population[a];
                    assert(current_agent.wf());
                    assert(snapshot_wf(&self.agent_location_map, read_population@));
                    let point = current_agent.perform_operation(
                        cell,
                        simulation_hour,
                        &self.grid,
                        &self.agent_location_map,
                        &read_population,
                        rng,
                        &self.disease,
                    );
                    let new_location = if write_map.is_cell_vacant(&point) {
                        point
                    } else {
                        cell
                    };
                    proof {
                        assert forall|q: Point| #[trigger] write_map@.dom().contains(q) implies write_map@[q]
                            != a by {
                            let p = choose|p: Point|
                                rm@.dom().contains(p) && index_of(area, p) < k && rm@[p]
                                    == write_map@[q];
                            if write_map@[q] == a {
                                assert(rm@[p] == rm@[cell]);
                            }
                        }
                    }
                    let ghost wc = self.citizens@;
                    let ghost old_dest = dest;
                    write_map.place_agent(new_location, a);
                    self.citizens.set(a, current_agent);
                    proof {
                        dest = dest.update(a as int, point);
                        assert forall|p: Point|
                            #[trigger] rm@.dom().contains(p) && index_of(area, p) < k + 1 implies {
                            let i = rm@[p];
                            &&& hour_taken(
                                read_population@[i as int],
                                self.citizens@[i as int],
                                p,
                                simulation_hour,
                                self.grid,
                                &rm,
                                self.disease,
                                dest[i as int],
                            )
                            &&& placed_after_hour(write_map@, p, i, dest[i as int])
                        } by {
                            if index_of(area, p) == k {
                                lemma_index_injective(area, p, cell);
                            } else {
                                assert(p != cell);
                                assert(rm@[p] != rm@[cell]);
                                assert(self.citizens@[rm@[p] as int] == wc[rm@[p] as int]);
                                assert(dest[rm@[p] as int] == old_dest[rm@[p] as int]);
                                assert(placed_after_hour(wm0, p, rm@[p], old_dest[rm@[p] as int]));
                                assert(new_location != p || !wm0.dom().contains(p));
                            }
                        }
                        assert forall|q: Point| #[trigger] write_map@.dom().contains(q) implies drawn_before(
                            rm,
                            k + 1,
                            write_map@[q],
                        ) by {
                            if q == new_location {
                                assert(rm@.dom().contains(cell) && index_of(area, cell) < k + 1
                                    && rm@[cell] == write_map@[q]);
                            } else {
                                assert(wm0.dom().contains(q));
                                let p = choose|p: Point|
                                    rm@.dom().contains(p) && index_of(area, p) < k && rm@[p]
                                        == wm0[q];
                            }
                        }
                        assert forall|p: Point|
                            rm@.dom().contains(p) && index_of(area, p) < k + 1 implies holds_agent(
                            write_map@,
                            #[trigger] rm@[p] as int,
                        ) by {
                            if index_of(area, p) == k {
                                lemma_index_injective(area, p, cell);
                                assert(write_map@.dom().contains(new_location)
                                    && write_map@[new_location] == rm@[p]);
                            } else {
                                assert(holds_agent(wm0, rm@[p] as int));
                                let q = choose|q: Point| wm0.dom().contains(q) && wm0[q] == rm@[p];
                                assert(write_map@.dom().contains(q) && write_map@[q] == rm@[p]);
                            }
                        }
                    }
                },
            }
            k = k + 1;
        }
        proof {
            assert forall|i: int| 0 <= i < n implies #[trigger] holds_agent(write_map@, i) by {
                assert(holds_agent(rm@, i));
                let p = choose|p: Point| rm@.dom().contains(p) && rm@[p] == i;
                lemma_index_of(area, p);
            }
            assert forall|q: Point| #[trigger] write_map@.dom().contains(q) implies write_map@[q]
                < n by {
                let p = choose|p: Point|
                    rm@.dom().contains(p) && index_of(area, p) < k && rm@[p] == write_map@[q];
            }
        }
        proof {
            assert forall|p: Point| #[trigger] rm@.dom().contains(p) implies index_of(area, p) < k by {
                lemma_index_of(area, p);
            }
        }
        self.agent_location_map = write_map;
        self.counts_at_hr = count_population(&self.citizens, simulation_hour as u32);
        assert(agents_took_hour(*old(self), *self, simulation_hour, dest));
    }

    /// One hour of the simulation: the agents' hour, then the interventions
    /// on the counts it left. Interventions change only who is vaccinated
    /// or isolated and the hospital, so the counts stand.
    pub fn simulate_hour(&mut self, simulation_hour: i32, rng: &mut StdRng) -> (r: AppliedInterventions)
        requires
            old(self).wf(),
            0 <= simulation_hour <= MAX_SIMULATION_HOUR,
        ensures
            final(self).wf(),
            final(self).citizens@.len() == old(self).citizens@.len(),
            final(self).counts_at_hr.hour == simulation_hour,
            final(self).counts_at_hr.total_spec() == final(self).citizens@.len(),
            forall|i: int|
                0 <= i < old(self).citizens@.len() && old(self).citizens@[i].state_machine.state
                    is Deceased ==> (#[trigger] final(self).citizens@[i]).state_machine.state
                    is Deceased,
    {
        self.simulate(simulation_hour, rng);
        let counts = self.counts_at_hr;
        let ghost before = self.citizens@;
        let applied = self.interventions.process_interventions(
            &counts,
            &mut self.citizens,
            &mut self.grid,
            rng,
        );
        proof {
            assert forall|i: int| 0 <= i < before.len() implies category_of(
                #[trigger] self.citizens@[i],
            ) == category_of(before[i]) by {
                assert(self.citizens@[i].state_machine == before[i].state_machine);
                assert(self.citizens@[i].hospitalized == before[i].hospitalized);
            }
            assert forall|i: int| 0 <= i < before.len() implies (#[trigger] self.citizens@[i]).wf() by {
                assert(before[i].wf());
            }
            lemma_same_categories(self.citizens@, before, 0);
            lemma_same_categories(self.citizens@, before, 1);
            lemma_same_categories(self.citizens@, before, 2);
            lemma_same_categories(self.citizens@, before, 3);
            lemma_same_categories(self.citizens@, before, 4);
            lemma_same_categories(self.citizens@, before, 5);
            lemma_counts_conserve_population(self.citizens@, simulation_hour as u32);
        }
        applied
    }

    /// Runs the hours from 1 up to, not including, `hours`, and stops early
    /// once nothing is left to spread. Returns the counts of each hour run.
    pub fn run(&mut self, hours: i32, rng: &mut StdRng) -> (r: Vec<Counts>)
        requires
            old(self).wf(),
            hours <= MAX_SIMULATION_HOUR,
        ensures
            final(self).wf(),
            final(self).citizens@.len() == old(self).citizens@.len(),
            forall|h: int|
                0 <= h < r@.len() ==> (#[trigger] r@[h]).total_spec() == old(self).citizens@.len()
                    && r@[h].hour == h + 1,
            hours <= 1 ==> r@.len() == 0,
            hours > 1 ==> r@.len() >= 1 && (r@.len() == hours - 1 || stops(r@.last())),
            forall|h: int| 0 <= h < r@.len() - 1 ==> !stops(#[trigger] r@[h]),
            r@.len() > 0 ==> final(self).counts_at_hr == r@.last(),
            *final(self) == *old(self) <== r@.len() == 0,
            forall|i: int|
                0 <= i < old(self).citizens@.len() && old(self).citizens@[i].state_machine.state
                    is Deceased ==> (#[trigger] final(self).citizens@[i]).state_machine.state
                    is Deceased,
    {
        let mut history: Vec<Counts> = Vec::new();
        let mut simulation_hour: i32 = 1;
        let ghost mut stopped = false;
        while simulation_hour < hours
            invariant_except_break
                history@.len() == simulation_hour - 1,
                forall|h: int| 0 <= h < history@.len() ==> !stops(#[trigger] history@[h]),
            invariant
                history@.len() > 0 ==> self.counts_at_hr == history@.last(),
                history@.len() == 0 ==> *self == *old(self),
                stopped ==> history@.len() == simulation_hour && stops(history@.last())
                    && simulation_hour < hours,
                !stopped ==> history@.len() == simulation_hour - 1,
                hours >= 1 ==> simulation_hour <= hours,
                hours < 1 ==> history@.len() == 0,
                forall|h: int| 0 <= h < history@.len() - 1 ==> !stops(#[trigger] history@[h]),
                1 <= simulation_hour,
                hours <= MAX_SIMULATION_HOUR,
                self.wf(),
                self.citizens@.len() == old(self).citizens@.len(),
                forall|h: int|
                    0 <= h < history@.len() ==> (#[trigger] history@[h]).total_spec() == old(
                        self).citizens@.len() && history@[h].hour == h + 1,
                forall|i: int|
                    0 <= i < old(self).citizens@.len() && old(self).citizens@[i].state_machine.state
                        is Deceased ==> (#[trigger] self.citizens@[i]).state_machine.state
                        is Deceased,
            ensures
                stopped || simulation_hour >= hours,
            decreases hours - simulation_hour,
        {
            self.simulate_hour(simulation_hour, rng);
            history.push(self.counts_at_hr);
            if stop_simulation(&self.counts_at_hr) {
                proof {
                    stopped = true;
                }
                break;
            }
            simulation_hour = simulation_hour + 1;
        }
        history
    }
}

} // verus!
