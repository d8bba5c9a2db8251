pub mod agent;
pub mod allocation_map;
pub mod config;
pub mod constants;
pub mod counts;
pub mod disease;
pub mod disease_state_machine;
pub mod epidemiology_simulation;
pub mod geography;
pub mod interventions;
pub mod random;
