use epirust::disease::Disease;
use epirust::disease_state_machine::{DiseaseStateMachine, InfectionSeverity, State};
use epirust::random::PROBABILITY_SCALE;
use rand::rngs::StdRng;
use rand::SeedableRng;

fn small_pox() -> Disease {
    Disease::new(10, 16, 22, 22, 22, 50_000, 500_000, 200_000, 0, 1_000_000, 0, 0)
}

fn as_fraction(rate: u32) -> f64 {
    rate as f64 / PROBABILITY_SCALE as f64
}

#[test]
fn get_current_transmission_rate() {
    let disease = small_pox();
    let infection_rate = disease.get_current_transmission_rate(12);
    assert_eq!(as_fraction(infection_rate), 0.05);

    let infection_rate = disease.get_current_transmission_rate(22);
    assert_eq!(as_fraction(infection_rate), 0.5);
}

#[test]
fn transmission_rate_is_zero_outside_the_infectious_window() {
    let disease = small_pox();
    assert_eq!(as_fraction(disease.get_current_transmission_rate(23)), 0.0);
    assert_eq!(disease.get_current_transmission_rate(10), 0);
    assert_eq!(disease.get_current_transmission_rate(11), 50_000);
    assert_eq!(disease.get_current_transmission_rate(16), 50_000);
    assert_eq!(disease.get_current_transmission_rate(17), 500_000);
}

#[test]
fn to_be_quarantined() {
    let disease = small_pox();
    let actual = disease.to_be_hospitalized(12);
    assert_eq!(actual, false);

    let actual = disease.to_be_hospitalized(22);
    assert_eq!(actual, true);
}

#[test]
fn disease_getters() {
    let disease = Disease::new(1, 2, 3, 4, 5, 6, 7, 8, 9, 10, 11, 12);
    assert_eq!(disease.get_disease_last_day(), 3);
    assert_eq!(disease.get_percentage_asymptomatic_population(), 9);
    assert_eq!(disease.get_percentage_severe_infected_population(), 10);
    assert_eq!(disease.get_exposed_duration(), 11);
    assert_eq!(disease.get_pre_symptomatic_duration(), 12);
}

#[test]
fn no_death_without_a_death_rate() {
    let disease = Disease::new(10, 16, 22, 22, 22, 50_000, 500_000, 0, 0, 1_000_000, 0, 0);
    let mut rng = StdRng::seed_from_u64(1);
    for _ in 0..100 {
        assert!(!disease.to_be_deceased(&mut rng));
    }
}

#[test]
fn exposed_agent_becomes_infected_after_the_exposed_duration() {
    let disease = Disease::new(10, 16, 22, 22, 22, 50_000, 500_000, 0, 0, 1_000_000, 5, 3);
    let mut rng = StdRng::seed_from_u64(2);
    let mut machine = DiseaseStateMachine::new();
    machine.expose(10);
    assert_eq!(machine.state, State::Exposed { at_hour: 10 });
    assert!(!machine.infect(&mut rng, 14, &disease));
    assert!(machine.is_exposed());
    assert!(machine.infect(&mut rng, 15, &disease));
    assert_eq!(
        machine.state,
        State::Infected { symptoms: true, severity: InfectionSeverity::Pre { at_hour: 15 } }
    );
    machine.change_infection_severity(17, &mut rng, &disease);
    assert!(machine.is_pre_symptomatic());
    machine.change_infection_severity(18, &mut rng, &disease);
    assert!(machine.is_infected_severe());
    assert!(machine.is_symptomatic());
}

#[test]
fn fully_asymptomatic_disease_gives_mild_cases_without_symptoms() {
    let disease = Disease::new(10, 16, 22, 22, 22, 50_000, 500_000, 0, 1_000_000, 0, 0, 0);
    let mut rng = StdRng::seed_from_u64(4);
    let mut machine = DiseaseStateMachine::new();
    machine.expose(0);
    assert!(machine.infect(&mut rng, 0, &disease));
    assert!(machine.is_mild_asymptomatic());
    assert!(!machine.is_symptomatic());
}

#[test]
fn expose_only_moves_susceptible_agents() {
    let mut machine = DiseaseStateMachine::new();
    machine.set_mild_symptomatic();
    machine.expose(3);
    assert!(machine.is_mild_symptomatic());
}

#[test]
fn recovery_after_the_last_day() {
    let disease = small_pox();
    let mut rng = StdRng::seed_from_u64(5);
    let mut machine = DiseaseStateMachine::new();
    machine.set_mild_asymptomatic();
    machine.infection_day = 23;
    assert_eq!(machine.decease(&mut rng, &disease), (0, 1));
    assert!(machine.is_recovered());
}

#[test]
fn certain_death_before_the_last_day() {
    let disease = Disease::new(10, 16, 22, 22, 22, 50_000, 500_000, 1_000_000, 0, 1_000_000, 0, 0);
    let mut rng = StdRng::seed_from_u64(6);
    let mut machine = DiseaseStateMachine::new();
    machine.set_severe_infected();
    machine.infection_day = 12;
    assert_eq!(machine.decease(&mut rng, &disease), (1, 0));
    assert!(machine.is_deceased());
}

#[test]
fn deceased_is_terminal() {
    let disease = Disease::new(10, 16, 22, 22, 22, 50_000, 500_000, 1_000_000, 0, 1_000_000, 0, 0);
    let mut rng = StdRng::seed_from_u64(7);
    let mut machine = DiseaseStateMachine::new();
    machine.set_severe_infected();
    assert_eq!(machine.decease(&mut rng, &disease), (1, 0));
    machine.expose(4);
    assert!(!machine.infect(&mut rng, 100, &disease));
    machine.change_infection_severity(100, &mut rng, &disease);
    machine.increment_infection_day();
    assert_eq!(machine.decease(&mut rng, &disease), (0, 0));
    assert!(machine.is_deceased());
}

#[test]
fn severe_cases_go_to_hospital_in_the_high_window() {
    let disease = small_pox();
    let mut machine = DiseaseStateMachine::new();
    machine.set_severe_infected();
    machine.infection_day = 18;
    assert!(machine.hospitalize(&disease, 0));
    assert!(!machine.hospitalize(&disease, -3));
    machine.set_mild_symptomatic();
    assert!(!machine.hospitalize(&disease, 0));
}
