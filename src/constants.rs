use vstd::prelude::*;

verus! {

/// Hours in a simulated day.
pub const NUMBER_OF_HOURS: i32 = 24;

pub const HOURS_IN_A_DAY: i32 = 24;

/// The hour of the day at which infections advance by a day and the sick
/// are taken to hospital.
pub const ROUTINE_START_TIME: i32 = 0;

pub const SLEEP_START_TIME: i32 = 1;

pub const SLEEP_END_TIME: i32 = 6;

pub const ROUTINE_TRAVEL_START_TIME: i32 = 7;

pub const ROUTINE_WORK_TIME: i32 = 8;

/// The hour at which agents without work go back home.
pub const NON_WORKING_TRAVEL_END_TIME: i32 = 15;

pub const ROUTINE_TRAVEL_END_TIME: i32 = 16;

pub const ROUTINE_WORK_END_TIME: i32 = 17;

/// The hour of the day at which deaths and recoveries happen.
pub const ROUTINE_END_TIME: i32 = 23;

/// Days a hospital worker stays on shift, and then off.
pub const QUARANTINE_DAYS: i32 = 14;

/// Side of a house, in cells.
pub const HOME_SIZE: i32 = 4;

/// Side of an office, in cells.
pub const OFFICE_SIZE: i32 = 10;

/// Bounds of the immunity offset drawn for each agent.
pub const IMMUNITY_LOWEST: i32 = -2;

pub const IMMUNITY_HIGHEST: i32 = 2;

/// Fraction of working agents that work at the hospital, in parts of
/// `PROBABILITY_SCALE`.
pub const HOSPITAL_STAFF_PERCENTAGE: u32 = 2_000;

/// Latest hour a simulation may reach.
pub const MAX_SIMULATION_HOUR: i32 = 1_000_000_000;

} // verus!
