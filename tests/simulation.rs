use epirust::agent::{Citizen, WorkStatus};
use epirust::allocation_map::AgentLocationMap;
use epirust::config::{AutoPopulation, StartingInfections};
use epirust::counts::Counts;
use epirust::disease::Disease;
use epirust::epidemiology_simulation::{count_population, stop_simulation, Epidemiology, SetupError};
use epirust::geography::area::Area;
use epirust::geography::grid::define_geography;
use epirust::geography::point::Point;
use epirust::interventions::{
    InterventionConfig, Interventions, LockdownConfig, VaccinateConfig, BuildNewHospitalConfig,
};
use rand::rngs::StdRng;
use rand::SeedableRng;
use std::collections::HashSet;

fn small_pox() -> Disease {
    Disease::new(10, 16, 22, 22, 22, 50_000, 500_000, 200_000, 0, 1_000_000, 0, 0)
}

fn simulation(rng: &mut StdRng, configs: &Vec<InterventionConfig>) -> Epidemiology {
    let grid = define_geography(60);
    let pop = AutoPopulation {
        number_of_agents: 200,
        public_transport_percentage: 200_000,
        working_percentage: 700_000,
    };
    let start = StartingInfections::new(5, 5, 5, 5);
    let (locations, citizens) = grid.generate_population(&pop, &start, rng).unwrap();
    let interventions = Interventions::init_interventions(configs);
    Epidemiology::new(grid, small_pox(), citizens, &locations, interventions).unwrap()
}

fn occupied_cells(map: &AgentLocationMap) -> Vec<(Point, usize)> {
    let mut cells = Vec::new();
    for i in 0..map.number_of_cells() {
        let p = map.cell_at(i);
        if let Some(a) = map.get_agent_for(&p) {
            cells.push((p, a));
        }
    }
    cells
}

#[test]
fn counts_add_up_to_the_population_every_hour() {
    let mut rng = StdRng::seed_from_u64(31);
    let mut epidemiology = simulation(&mut rng, &vec![]);
    assert_eq!(epidemiology.counts_at_hr.total(), 200);
    let history = epidemiology.run(200, &mut rng);
    assert!(!history.is_empty());
    for (h, counts) in history.iter().enumerate() {
        assert_eq!(counts.total(), 200);
        assert_eq!(counts.hour(), h as u32 + 1);
    }
}

#[test]
fn every_agent_keeps_exactly_one_cell() {
    let mut rng = StdRng::seed_from_u64(32);
    let mut epidemiology = simulation(&mut rng, &vec![]);
    for hour in 1..60 {
        epidemiology.simulate_hour(hour, &mut rng);
        let cells = occupied_cells(&epidemiology.agent_location_map);
        assert_eq!(cells.len(), 200);
        let agents: HashSet<usize> = cells.iter().map(|c| c.1).collect();
        assert_eq!(agents.len(), 200);
    }
}

#[test]
fn deceased_agents_stay_deceased() {
    let mut rng = StdRng::seed_from_u64(33);
    let mut epidemiology = simulation(&mut rng, &vec![]);
    epidemiology.citizens[0].state_machine.set_severe_infected();
    let mut dead: Vec<usize> = Vec::new();
    for hour in 1..150 {
        epidemiology.simulate_hour(hour, &mut rng);
        for d in &dead {
            assert!(epidemiology.citizens[*d].state_machine.is_deceased());
        }
        for (i, c) in epidemiology.citizens.iter().enumerate() {
            if c.state_machine.is_deceased() && !dead.contains(&i) {
                dead.push(i);
            }
        }
    }
}

#[test]
fn counting_sorts_agents_by_state() {
    let mut rng = StdRng::seed_from_u64(34);
    let home = Area::new(Point::new(0, 0), Point::new(2, 2));
    let mut citizens = Vec::new();
    for _ in 0..6 {
        citizens.push(Citizen::new(home, home, Point::new(0, 0), false, false, WorkStatus::NA, &mut rng));
    }
    citizens[1].state_machine.expose(0);
    citizens[2].state_machine.set_mild_symptomatic();
    citizens[3].state_machine.set_severe_infected();
    citizens[3].hospitalized = true;
    citizens[4].state_machine.set_mild_asymptomatic();
    citizens[4].state_machine.infection_day = 40;
    let disease = small_pox();
    citizens[4].state_machine.decease(&mut rng, &disease);
    let counts = count_population(&citizens, 9);
    assert_eq!(counts, Counts::new_test(9, 2, 1, 1, 1, 1, 0));
}

#[test]
fn simulation_stops_when_nothing_spreads() {
    assert!(stop_simulation(&Counts::new_test(4, 10, 0, 0, 0, 3, 1)));
    assert!(!stop_simulation(&Counts::new_test(4, 10, 1, 0, 0, 3, 1)));
    assert!(!stop_simulation(&Counts::new_test(4, 10, 0, 0, 2, 3, 1)));
}

#[test]
fn setup_refuses_two_agents_on_one_cell() {
    let mut rng = StdRng::seed_from_u64(35);
    let grid = define_geography(10);
    let home = Area::new(Point::new(0, 0), Point::new(2, 2));
    let citizens = vec![
        Citizen::new(home, home, Point::new(0, 0), false, false, WorkStatus::NA, &mut rng),
        Citizen::new(home, home, Point::new(0, 0), false, false, WorkStatus::NA, &mut rng),
    ];
    let interventions = Interventions::init_interventions(&vec![]);
    let result = Epidemiology::new(
        grid,
        small_pox(),
        citizens,
        &vec![Point::new(1, 1), Point::new(1, 1)],
        interventions,
    );
    assert_eq!(result.err(), Some(SetupError::LocationTaken));
}

#[test]
fn lockdown_isolates_all_but_essential_workers_in_the_same_hour() {
    let mut rng = StdRng::seed_from_u64(36);
    let configs = vec![InterventionConfig::Lockdown(LockdownConfig {
        at_number_of_infections: 0,
        essential_workers_population: 300_000,
        lock_down_period: 21,
    })];
    let mut epidemiology = simulation(&mut rng, &configs);
    let interventions = epidemiology.interventions;
    interventions.assign_essential_workers(&mut epidemiology.citizens, &mut rng);
    let essential = epidemiology.citizens.iter().filter(|c| c.is_essential_worker()).count();
    assert!(essential > 0);
    let applied = epidemiology.simulate_hour(1, &mut rng);
    assert!(applied.locked_down);
    for c in &epidemiology.citizens {
        if c.is_essential_worker() {
            assert!(!c.is_isolated());
        } else {
            assert!(c.is_isolated());
        }
    }
}

#[test]
fn lockdown_ends_after_its_period() {
    let mut rng = StdRng::seed_from_u64(37);
    let configs = vec![InterventionConfig::Lockdown(LockdownConfig {
        at_number_of_infections: 0,
        essential_workers_population: 0,
        lock_down_period: 1,
    })];
    let mut epidemiology = simulation(&mut rng, &configs);
    assert!(epidemiology.simulate_hour(1, &mut rng).locked_down);
    for hour in 2..25 {
        let applied = epidemiology.simulate_hour(hour, &mut rng);
        assert!(!applied.unlocked);
    }
    let applied = epidemiology.simulate_hour(25, &mut rng);
    assert!(applied.unlocked);
    assert!(epidemiology.citizens.iter().all(|c| !c.is_isolated()));
}

#[test]
fn vaccination_only_reaches_the_susceptible() {
    let mut rng = StdRng::seed_from_u64(38);
    let configs = vec![InterventionConfig::Vaccinate(VaccinateConfig { at_hour: 2, percent: 1_000_000 })];
    let mut epidemiology = simulation(&mut rng, &configs);
    assert!(!epidemiology.simulate_hour(1, &mut rng).vaccinated);
    assert!(epidemiology.simulate_hour(2, &mut rng).vaccinated);
    for c in &epidemiology.citizens {
        assert_eq!(c.is_vaccinated(), c.state_machine.is_susceptible());
    }
}

#[test]
fn hospital_grows_once_the_threshold_is_crossed() {
    let mut rng = StdRng::seed_from_u64(39);
    let configs = vec![InterventionConfig::BuildNewHospital(BuildNewHospitalConfig {
        spread_rate_threshold: 0,
    })];
    let mut epidemiology = simulation(&mut rng, &configs);
    let before = epidemiology.grid.hospital_area;
    assert!(epidemiology.simulate_hour(1, &mut rng).hospital_expanded);
    assert_eq!(epidemiology.grid.hospital_area.start_offset, before.start_offset);
    assert_eq!(epidemiology.grid.hospital_area.end_offset, Point::new(60, 60));
    assert!(!epidemiology.simulate_hour(2, &mut rng).hospital_expanded);
}

#[test]
fn run_stops_once_nothing_spreads() {
    let mut rng = StdRng::seed_from_u64(44);
    let mut epidemiology = simulation(&mut rng, &vec![]);
    let history = epidemiology.run(5000, &mut rng);
    let last = history.last().unwrap();
    assert!(history.len() == 4999 || stop_simulation(last));
    for counts in &history[..history.len() - 1] {
        assert!(!stop_simulation(counts));
    }
    assert_eq!(epidemiology.counts_at_hr, *last);
    assert!(epidemiology.run(1, &mut rng).is_empty());
}

#[test]
fn setup_refuses_a_cell_outside_the_town() {
    let mut rng = StdRng::seed_from_u64(45);
    let grid = define_geography(10);
    let home = Area::new(Point::new(0, 0), Point::new(2, 2));
    let citizens =
        vec![Citizen::new(home, home, Point::new(0, 0), false, false, WorkStatus::NA, &mut rng)];
    let interventions = Interventions::init_interventions(&vec![]);
    let result = Epidemiology::new(grid, small_pox(), citizens, &vec![Point::new(11, 1)], interventions);
    assert_eq!(result.err(), Some(SetupError::LocationOutsideGrid));
}
