use epirust::agent::{citizen_factory, set_starting_infections, Citizen, PopulationRecord, WorkStatus};
use epirust::allocation_map::AgentLocationMap;
use epirust::config::{AutoPopulation, StartingInfections};
use epirust::disease::Disease;
use epirust::geography::area::Area;
use epirust::geography::grid::define_geography;
use epirust::geography::point::Point;
use rand::rngs::StdRng;
use rand::SeedableRng;

fn before_each(rng: &mut StdRng) -> Vec<Citizen> {
    let home_locations = vec![
        Area::new(Point::new(0, 0), Point::new(2, 2)),
        Area::new(Point::new(3, 0), Point::new(4, 2)),
    ];
    let work_locations = vec![
        Area::new(Point::new(5, 0), Point::new(6, 2)),
        Area::new(Point::new(7, 0), Point::new(8, 2)),
    ];
    let public_transport_location =
        vec![Point::new(5, 0), Point::new(5, 1), Point::new(5, 2), Point::new(5, 3)];
    let start_infections = StartingInfections::new(0, 0, 0, 1);
    citizen_factory(
        4,
        &home_locations,
        &work_locations,
        &public_transport_location,
        500_000,
        500_000,
        rng,
        &start_infections,
    )
}

#[test]
fn generate_citizen() {
    let mut rng = StdRng::seed_from_u64(21);
    let citizen_list = before_each(&mut rng);
    let expected_home_locations = vec![
        Area::new(Point::new(0, 0), Point::new(2, 2)),
        Area::new(Point::new(3, 0), Point::new(4, 2)),
    ];

    assert_eq!(citizen_list.len(), 4);
    assert_eq!(citizen_list.iter().filter(|c| c.is_exposed()).count(), 1);

    for citizen in &citizen_list {
        assert!(expected_home_locations.contains(&citizen.home_location));
    }
    assert_eq!(citizen_list[0].home_location, expected_home_locations[0]);
    assert_eq!(citizen_list[1].home_location, expected_home_locations[1]);
    assert_eq!(citizen_list[2].home_location, expected_home_locations[0]);
}

#[test]
fn should_set_starting_infections() {
    let home_location = Area::new(Point::new(0, 0), Point::new(10, 10));
    let work_location = Area::new(Point::new(11, 0), Point::new(20, 20));
    let mut citizens = Vec::new();
    let mut rng = StdRng::seed_from_u64(22);
    for _i in 0..20 {
        let citizen = Citizen::new(
            home_location,
            work_location,
            Point::new(2, 2),
            false,
            true,
            WorkStatus::Normal,
            &mut rng,
        );
        citizens.push(citizen);
    }

    let start_infections = StartingInfections::new(2, 3, 4, 5);

    set_starting_infections(&mut citizens, &start_infections, &mut rng);

    let actual_exposed = citizens.iter().filter(|citizen| citizen.is_exposed()).count();
    let actual_mild_asymp = citizens.iter().filter(|citizen| citizen.is_mild_asymptomatic()).count();
    let actual_mild_symp = citizens.iter().filter(|citizen| citizen.is_mild_symptomatic()).count();
    let actual_severe = citizens.iter().filter(|citizen| citizen.is_infected_severe()).count();
    let actual_susceptible =
        citizens.iter().filter(|citizen| citizen.state_machine.is_susceptible()).count();

    assert_eq!(2, actual_mild_asymp);
    assert_eq!(3, actual_mild_symp);
    assert_eq!(4, actual_severe);
    assert_eq!(5, actual_exposed);
    assert_eq!(6, actual_susceptible);
}

#[test]
fn should_generate_population() {
    let mut rng = StdRng::seed_from_u64(23);
    let grid = define_geography(100);
    let housing_area = grid.housing_area;
    let transport_area = grid.transport_area;
    let work_area = grid.work_area;

    let pop = AutoPopulation {
        number_of_agents: 10,
        public_transport_percentage: 200_000,
        working_percentage: 200_000,
    };
    let start_infections = StartingInfections::new(0, 0, 0, 1);
    let (home_locations, agent_list) =
        grid.generate_population(&pop, &start_infections, &mut rng).unwrap();

    assert_eq!(home_locations.len(), 10);
    assert_eq!(agent_list.len(), 10);

    for (i, agent) in agent_list.iter().enumerate() {
        assert!(housing_area.contains(&agent.home_location.start_offset));
        assert!(agent.home_location.contains(&home_locations[i]));
        assert!(
            work_area.contains(&agent.work_location.end_offset)
                || housing_area.contains(&agent.home_location.start_offset)
        );
        assert!(
            transport_area.contains(&agent.transport_location)
                || housing_area.contains(&agent.transport_location)
        )
    }
}

#[test]
fn too_many_starting_infections_are_refused() {
    let mut rng = StdRng::seed_from_u64(24);
    let grid = define_geography(100);
    let pop = AutoPopulation {
        number_of_agents: 3,
        public_transport_percentage: 200_000,
        working_percentage: 200_000,
    };
    let start_infections = StartingInfections::new(1, 1, 1, 1);
    let result = grid.generate_population(&pop, &start_infections, &mut rng);
    assert_eq!(
        result.err(),
        Some(epirust::geography::grid::PopulationError::TooManyStartingInfections)
    );
}

/// A 3x3 home in which every cell but the corner (2, 2) is taken.
fn crowded_home(rng: &mut StdRng) -> (AgentLocationMap, Vec<Citizen>, Area) {
    let home = Area::new(Point::new(0, 0), Point::new(2, 2));
    let mut map = AgentLocationMap::new(home);
    let mut population = Vec::new();
    let mut index = 0;
    for y in 0..3 {
        for x in 0..3 {
            if x == 2 && y == 2 {
                continue;
            }
            let citizen =
                Citizen::new(home, home, Point::new(x, y), false, false, WorkStatus::NA, rng);
            population.push(citizen);
            map.place_agent(Point::new(x, y), index);
            index += 1;
        }
    }
    (map, population, home)
}

#[test]
fn random_movement_never_picks_an_occupied_neighbor() {
    let mut rng = StdRng::seed_from_u64(25);
    let (map, population, _home) = crowded_home(&mut rng);
    let grid = define_geography(10);
    let disease = Disease::new(10, 16, 22, 22, 22, 50_000, 500_000, 0, 0, 1_000_000, 0, 0);
    let centre = Point::new(1, 1);
    let agent_index = map.get_agent_for(&centre).unwrap();
    let mut moved = false;
    for hour in [9, 10, 11, 12, 13, 14, 33, 34, 35] {
        let mut agent = population[agent_index];
        let destination =
            agent.perform_operation(centre, hour, &grid, &map, &population, &mut rng, &disease);
        assert!(destination == centre || destination == Point::new(2, 2));
        if destination == Point::new(2, 2) {
            moved = true;
        }
    }
    assert!(moved);
}

#[test]
fn isolated_agent_stays_in_place() {
    let mut rng = StdRng::seed_from_u64(26);
    let (map, population, _home) = crowded_home(&mut rng);
    let grid = define_geography(10);
    let disease = Disease::new(10, 16, 22, 22, 22, 50_000, 500_000, 0, 0, 1_000_000, 0, 0);
    let centre = Point::new(1, 1);
    let agent_index = map.get_agent_for(&centre).unwrap();
    let mut agent = population[agent_index];
    agent.set_isolation(true);
    assert!(!agent.can_move());
    let destination =
        agent.perform_operation(centre, 10, &grid, &map, &population, &mut rng, &disease);
    assert_eq!(destination, centre);
}

#[test]
fn infected_neighbor_with_certain_transmission_exposes_agent() {
    let mut rng = StdRng::seed_from_u64(27);
    let (map, mut population, _home) = crowded_home(&mut rng);
    let grid = define_geography(10);
    // Transmission is certain from the first day of infection.
    let disease = Disease::new(-5, 16, 22, 22, 22, 1_000_000, 1_000_000, 0, 0, 1_000_000, 100, 100);
    let infected = map.get_agent_for(&Point::new(0, 0)).unwrap();
    population[infected].state_machine.set_mild_asymptomatic();
    for c in population.iter_mut() {
        c.set_isolation(true);
    }
    let centre = Point::new(1, 1);
    let agent_index = map.get_agent_for(&centre).unwrap();
    let mut agent = population[agent_index];
    agent.perform_operation(centre, 10, &grid, &map, &population, &mut rng, &disease);
    assert!(agent.is_exposed());
}

#[test]
fn transmission_rate_follows_immunity() {
    let mut rng = StdRng::seed_from_u64(28);
    let home = Area::new(Point::new(0, 0), Point::new(2, 2));
    let mut citizen = Citizen::new(home, home, Point::new(0, 0), false, false, WorkStatus::NA, &mut rng);
    let disease = Disease::new(10, 16, 22, 22, 22, 50_000, 500_000, 0, 0, 1_000_000, 0, 0);
    citizen.state_machine.set_mild_symptomatic();
    citizen.state_machine.infection_day = 12;
    let expected = disease.get_current_transmission_rate(12 + citizen.get_immunity());
    assert_eq!(citizen.get_infection_transmission_rate(&disease), expected);
    assert!(citizen.get_immunity() >= -2 && citizen.get_immunity() <= 2);
}

#[test]
fn assign_essential_worker_only_changes_normal_workers() {
    let mut rng = StdRng::seed_from_u64(29);
    let home = Area::new(Point::new(0, 0), Point::new(2, 2));
    let mut normal = Citizen::new(home, home, Point::new(0, 0), false, true, WorkStatus::Normal, &mut rng);
    let mut idle = Citizen::new(home, home, Point::new(0, 0), false, false, WorkStatus::NA, &mut rng);
    normal.assign_essential_worker(1_000_000, &mut rng);
    idle.assign_essential_worker(1_000_000, &mut rng);
    assert!(normal.is_essential_worker());
    assert!(!idle.is_essential_worker());
}

#[test]
fn population_read_from_records_fills_houses_round_robin() {
    let mut rng = StdRng::seed_from_u64(30);
    let grid = define_geography(100);
    let mut records = Vec::new();
    for i in 0..12 {
        records.push(PopulationRecord {
            ind: i,
            age: String::from("20"),
            working: i % 2 == 0,
            pub_transport: i % 3 == 0,
        });
    }
    let start = StartingInfections::new(1, 0, 0, 2);
    let (locations, agents) = grid.read_population(&records, &start, &mut rng).unwrap();
    assert_eq!(agents.len(), 12);
    assert_eq!(locations.len(), 12);
    for (i, agent) in agents.iter().enumerate() {
        assert_eq!(agent.home_location, grid.houses[i % grid.houses.len()]);
        assert_eq!(agent.work_location, grid.offices[i % grid.offices.len()]);
        assert_eq!(agent.is_working(), records[i].working);
        assert_eq!(agent.uses_public_transport, records[i].pub_transport);
        assert!(agent.home_location.contains(&locations[i]));
    }
    assert_eq!(agents.iter().filter(|c| c.is_exposed()).count(), 2);
    assert_eq!(agents.iter().filter(|c| c.is_mild_asymptomatic()).count(), 1);
}

#[test]
fn at_night_agents_stay_put_and_are_home() {
    let mut rng = StdRng::seed_from_u64(40);
    let (map, population, home) = crowded_home(&mut rng);
    let grid = define_geography(10);
    let disease = Disease::new(10, 16, 22, 22, 22, 50_000, 500_000, 0, 0, 1_000_000, 0, 0);
    let centre = Point::new(1, 1);
    let agent_index = map.get_agent_for(&centre).unwrap();
    let mut agent = population[agent_index];
    agent.current_area = grid.housing_area;
    let destination = agent.perform_operation(centre, 27, &grid, &map, &population, &mut rng, &disease);
    assert_eq!(destination, centre);
    assert_eq!(agent.current_area, home);
}

#[test]
fn infection_day_advances_at_the_start_of_the_day() {
    let mut rng = StdRng::seed_from_u64(41);
    let (map, population, _home) = crowded_home(&mut rng);
    let grid = define_geography(10);
    let disease = Disease::new(10, 16, 22, 22, 22, 50_000, 500_000, 0, 0, 1_000_000, 0, 0);
    let centre = Point::new(1, 1);
    let agent_index = map.get_agent_for(&centre).unwrap();
    let mut agent = population[agent_index];
    agent.state_machine.set_mild_symptomatic();
    agent.perform_operation(centre, 48, &grid, &map, &population, &mut rng, &disease);
    assert_eq!(agent.state_machine.get_infection_day(), 1);
}

#[test]
fn occupancy_tallies_count_homes_and_workers() {
    let mut rng = StdRng::seed_from_u64(42);
    let mut grid = define_geography(100);
    assert!(grid.houses_occupancy.iter().all(|c| *c == 0));
    let pop = AutoPopulation {
        number_of_agents: 30,
        public_transport_percentage: 200_000,
        working_percentage: 500_000,
    };
    let start_infections = StartingInfections::new(0, 0, 0, 1);
    let (_locations, agents) = grid.generate_population(&pop, &start_infections, &mut rng).unwrap();
    grid.set_occupancies(&agents);
    assert_eq!(grid.houses_occupancy.iter().sum::<u32>(), 30);
    assert_eq!(grid.houses_occupancy[0], 1);
    let workers = agents.iter().filter(|c| c.is_working()).count() as u32;
    assert_eq!(grid.offices_occupancy.iter().sum::<u32>(), workers);
    let first = grid.houses[0];
    assert!(grid.add_house_occupant(&first));
    assert_eq!(grid.houses_occupancy[0], 2);
    assert!(grid.remove_house_occupant(&first));
    assert_eq!(grid.houses_occupancy[0], 1);
    assert_eq!(grid.choose_house_with_free_space(), Some(first));
    assert!(!grid.add_office_occupant(&Area::new(Point::new(-5, -5), Point::new(-4, -4))));
}

#[test]
fn overcrowded_house_is_refused() {
    let mut rng = StdRng::seed_from_u64(43);
    let grid = define_geography(10);
    let home = Area::new(Point::new(0, 0), Point::new(0, 1));
    let mut agents = Vec::new();
    for _ in 0..3 {
        agents.push(Citizen::new(home, home, Point::new(0, 0), false, false, WorkStatus::NA, &mut rng));
    }
    let result = grid.set_start_locations_and_occupancies(&agents, &mut rng);
    assert_eq!(result, Err(epirust::geography::grid::PopulationError::HouseFull));
    agents.pop();
    let locations = grid.set_start_locations_and_occupancies(&agents, &mut rng).unwrap();
    assert_eq!(locations.len(), 2);
    assert_ne!(locations[0], locations[1]);
}
