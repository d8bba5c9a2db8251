use epirust::config::StartingInfections;
use epirust::counts::Counts;

#[test]
fn it_works() {
    let result = 2 + 2;
    assert_eq!(result, 4);
}

#[test]
fn should_create_counts() {
    let counts = Counts::new(100, 1, 2);
    assert_eq!(counts.susceptible, 100);
    assert_eq!(counts.exposed, 1);
    assert_eq!(counts.infected, 2);
    assert_eq!(counts.hospitalized, 0);
    assert_eq!(counts.recovered, 0);
    assert_eq!(counts.deceased, 0);
    assert_eq!(counts.hour, 0);
}

#[test]
fn should_update_susceptible() {
    let mut counts = Counts::new(100, 1, 2);
    counts.update_susceptible(5);
    assert_eq!(counts.susceptible, 105);
    assert_eq!(counts.exposed, 1);
    assert_eq!(counts.infected, 2);
    assert_eq!(counts.hospitalized, 0);
    assert_eq!(counts.recovered, 0);
    assert_eq!(counts.deceased, 0);
    assert_eq!(counts.hour, 0);
}

#[test]
fn should_update_exposed() {
    let mut counts = Counts::new(100, 1, 0);
    counts.update_exposed(5);
    assert_eq!(counts.susceptible, 100);
    assert_eq!(counts.exposed, 6);
    assert_eq!(counts.infected, 0);
    assert_eq!(counts.hospitalized, 0);
    assert_eq!(counts.recovered, 0);
    assert_eq!(counts.deceased, 0);
    assert_eq!(counts.hour, 0);
}

#[test]
fn should_update_infected() {
    let mut counts = Counts::new(100, 1, 0);
    counts.update_infected(5);
    assert_eq!(counts.susceptible, 100);
    assert_eq!(counts.exposed, 1);
    assert_eq!(counts.infected, 5);
    assert_eq!(counts.hospitalized, 0);
    assert_eq!(counts.recovered, 0);
    assert_eq!(counts.deceased, 0);
    assert_eq!(counts.hour, 0);
}

#[test]
fn should_update_recovered() {
    let mut counts = Counts::new(100, 1, 0);
    counts.update_recovered(5);
    assert_eq!(counts.susceptible, 100);
    assert_eq!(counts.exposed, 1);
    assert_eq!(counts.infected, 0);
    assert_eq!(counts.hospitalized, 0);
    assert_eq!(counts.recovered, 5);
    assert_eq!(counts.deceased, 0);
    assert_eq!(counts.hour, 0);
}

#[test]
fn should_update_deceased() {
    let mut counts = Counts::new(100, 1, 0);
    counts.update_deceased(5);
    assert_eq!(counts.susceptible, 100);
    assert_eq!(counts.exposed, 1);
    assert_eq!(counts.infected, 0);
    assert_eq!(counts.hospitalized, 0);
    assert_eq!(counts.recovered, 0);
    assert_eq!(counts.deceased, 5);
    assert_eq!(counts.hour, 0);
}

#[test]
fn should_update_quarantined() {
    let mut counts = Counts::new(100, 1, 0);
    counts.update_hospitalized(5);
    assert_eq!(counts.susceptible, 100);
    assert_eq!(counts.exposed, 1);
    assert_eq!(counts.infected, 0);
    assert_eq!(counts.hospitalized, 5);
    assert_eq!(counts.recovered, 0);
    assert_eq!(counts.deceased, 0);
    assert_eq!(counts.hour, 0);
}

#[test]
fn should_increment_hour() {
    let mut counts = Counts::new(100, 1, 0);
    counts.increment_hour();
    assert_eq!(counts.susceptible, 100);
    assert_eq!(counts.exposed, 1);
    assert_eq!(counts.infected, 0);
    assert_eq!(counts.hospitalized, 0);
    assert_eq!(counts.recovered, 0);
    assert_eq!(counts.deceased, 0);
    assert_eq!(counts.hour, 1);
}

#[test]
fn negative_updates_decrease_counts() {
    let mut counts = Counts::new_test(3, 10, 4, 6, 2, 1, 1);
    counts.update_susceptible(-10);
    counts.update_infected(-1);
    assert_eq!(counts.susceptible, 0);
    assert_eq!(counts.infected, 5);
    assert_eq!(counts.total(), 13);
    assert_eq!(counts.hour(), 3);
}

#[test]
fn clear_keeps_the_hour() {
    let mut counts = Counts::new_test(7, 1, 2, 3, 4, 5, 6);
    assert_eq!(counts.total(), 21);
    counts.clear();
    assert_eq!(counts, Counts::new_test(7, 0, 0, 0, 0, 0, 0));
}

#[test]
fn counts_at_start_make_the_rest_susceptible() {
    let start = StartingInfections::new(2, 3, 4, 5);
    let counts = Counts::counts_at_start(20, &start);
    assert_eq!(counts.susceptible(), 6);
    assert_eq!(counts.exposed(), 5);
    assert_eq!(counts.infected(), 9);
    assert_eq!(counts.total(), 20);
}
