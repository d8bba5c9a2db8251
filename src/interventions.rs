use vstd::prelude::*;

use rand::rngs::StdRng;

use crate::agent::Citizen;
use crate::constants::HOURS_IN_A_DAY;
use crate::counts::Counts;
use crate::geography::{Area, Grid, Point};
use crate::geography::point::COORDINATE_LIMIT;
use crate::random::{is_probability, trial, PROBABILITY_SCALE};

verus! {

/// Vaccinate the susceptible at hour `at_hour`, each with probability
/// `percent`.
#[derive(Copy, Clone, Debug, PartialEq, Eq, Structural)]
pub struct VaccinateConfig {
    pub at_hour: u32,
    pub percent: u32,
}

/// Lock the town down once `at_number_of_infections` agents are infected,
/// for `lock_down_period` days; `essential_workers_population` of the
/// agents with a normal job keep working.
#[derive(Copy, Clone, Debug, PartialEq, Eq, Structural)]
pub struct LockdownConfig {
    pub at_number_of_infections: u32,
    pub essential_workers_population: u32,
    pub lock_down_period: u32,
}

/// Grow the hospital once `spread_rate_threshold` agents are in hospital.
#[derive(Copy, Clone, Debug, PartialEq, Eq, Structural)]
pub struct BuildNewHospitalConfig {
    pub spread_rate_threshold: u32,
}

#[derive(Copy, Clone, Debug, PartialEq, Eq, Structural)]
pub enum InterventionConfig {
    Vaccinate(VaccinateConfig),
    Lockdown(LockdownConfig),
    BuildNewHospital(BuildNewHospitalConfig),
}

/// What the interventions did in an hour.
#[derive(Copy, Clone, Debug, PartialEq, Eq, Structural)]
pub struct AppliedInterventions {
    pub vaccinated: bool,
    pub locked_down: bool,
    pub unlocked: bool,
    pub hospital_expanded: bool,
}

#[derive(Copy, Clone, Debug, PartialEq, Eq, Structural)]
pub struct VaccinateIntervention {
    pub config: VaccinateConfig,
}

impl VaccinateIntervention {
    /// The vaccination probability when the counts are of the scheduled
    /// hour.
    pub fn get_vaccination_percentage(&self, counts: &Counts) -> (r: Option<u32>)
        ensures
            r == if counts.hour == self.config.at_hour {
                Some(self.config.percent)
            } else {
                None::<u32>
            },
    {
        if counts.hour == self.config.at_hour {
            Some(self.config.percent)
        } else {
            None
        }
    }
}

#[derive(Copy, Clone, Debug, PartialEq, Eq, Structural)]
pub struct LockdownIntervention {
    pub config: LockdownConfig,
    pub is_locked_down: bool,
    pub locked_at: u32,
}

impl LockdownIntervention {
    /// The hour at which a lockdown begun at `locked_at` ends.
    pub open spec fn unlock_hour(&self) -> int {
        self.locked_at + self.config.lock_down_period * HOURS_IN_A_DAY
    }

    pub fn new(config: LockdownConfig) -> (r: LockdownIntervention)
        ensures
            r == (LockdownIntervention { config, is_locked_down: false, locked_at: 0 }),
    {
        LockdownIntervention { config, is_locked_down: false, locked_at: 0 }
    }

    /// The town is open and enough agents are infected.
    pub fn should_apply(&self, counts: &Counts) -> (r: bool)
        ensures
            r == (!self.is_locked_down && counts.infected >= self.config.at_number_of_infections),
    {
        !self.is_locked_down && counts.infected >= self.config.at_number_of_infections
    }

    /// The town is locked down and the lockdown has run its course.
    pub fn should_unlock(&self, counts: &Counts) -> (r: bool)
        ensures
            r == (self.is_locked_down && counts.hour >= self.unlock_hour()),
    {
        let day = HOURS_IN_A_DAY as u64;
        assert(day == 24);
        assert(self.config.lock_down_period as u64 * day <= 0xffff_ffff * 24) by (nonlinear_arith)
            requires
                day == 24,
                self.config.lock_down_period <= 0xffff_ffff,
        ;
        self.is_locked_down && counts.hour as u64 >= self.locked_at as u64
            + self.config.lock_down_period as u64 * day
    }

    pub fn apply(&mut self, hour: u32)
        ensures
            *final(self) == (LockdownIntervention {
                is_locked_down: true,
                locked_at: hour,
                ..*old(self)
            }),
    {
        self.is_locked_down = true;
        self.locked_at = hour;
    }

    pub fn unapply(&mut self)
        ensures
            *final(self) == (LockdownIntervention { is_locked_down: false, ..*old(self) }),
    {
        self.is_locked_down = false;
    }

    pub fn get_essential_workers_percentage(&self) -> (r: u32)
        ensures
            r == self.config.essential_workers_population,
    {
        self.config.essential_workers_population
    }
}

#[derive(Copy, Clone, Debug, PartialEq, Eq, Structural)]
pub struct BuildNewHospital {
    pub config: BuildNewHospitalConfig,
    pub new_hospital_built: bool,
}

impl BuildNewHospital {
    /// The hospital was not grown yet and enough agents are in hospital.
    pub fn should_apply(&self, counts: &Counts) -> (r: bool)
        ensures
            r == (!self.new_hospital_built && counts.hospitalized
                >= self.config.spread_rate_threshold),
    {
        !self.new_hospital_built && counts.hospitalized >= self.config.spread_rate_threshold
    }

    pub fn apply(&mut self)
        ensures
            *final(self) == (BuildNewHospital { new_hospital_built: true, ..*old(self) }),
    {
        self.new_hospital_built = true;
    }
}

/// Isolates every agent that is not an essential worker; nothing else
/// changes.
pub fn lock_city(citizens: &mut Vec<Citizen>)
    ensures
        final(citizens)@.len() == old(citizens)@.len(),
        forall|i: int|
            0 <= i < old(citizens)@.len() ==> #[trigger] final(citizens)@[i] == if old(citizens)@[i].work_status is Essential {
                old(citizens)@[i]
            } else {
                Citizen { isolated: true, ..old(citizens)@[i] }
            },
{
    let mut i: usize = 0;
    while i < citizens.len()
        invariant
            i <= citizens@.len(),
            citizens@.len() == old(citizens)@.len(),
            forall|k: int| i <= k < citizens@.len() ==> #[trigger] citizens@[k] == old(citizens)@[k],
            forall|k: int|
                0 <= k < i ==> #[trigger] citizens@[k] == if old(citizens)@[k].work_status
                    is Essential {
                    old(citizens)@[k]
                } else {
                    Citizen { isolated: true, ..old(citizens)@[k] }
                },
        decreases citizens@.len() - i,
    {
        if !citizens[i].is_essential_worker() {
            let mut agent = citizens[i];
            agent.set_isolation(true);
            citizens.set(i, agent);
        }
        i = i + 1;
    }
}

/// Ends the isolation of every isolated agent; nothing else changes.
pub fn unlock_city(citizens: &mut Vec<Citizen>)
    ensures
        final(citizens)@.len() == old(citizens)@.len(),
        forall|i: int|
            0 <= i < old(citizens)@.len() ==> #[trigger] final(citizens)@[i] == (Citizen {
                isolated: false,
                ..old(citizens)@[i]
            }),
{
    let mut i: usize = 0;
    while i < citizens.len()
        invariant
            i <= citizens@.len(),
            citizens@.len() == old(citizens)@.len(),
            forall|k: int| i <= k < citizens@.len() ==> #[trigger] citizens@[k] == old(citizens)@[k],
            forall|k: int|
                0 <= k < i ==> #[trigger] citizens@[k] == (Citizen {
                    isolated: false,
                    ..old(citizens)@[k]
                }),
        decreases citizens@.len() - i,
    {
        if citizens[i].is_isolated() {
            let mut agent = citizens[i];
            agent.set_isolation(false);
            citizens.set(i, agent);
        }
        i = i + 1;
    }
}

/// Vaccinates each susceptible agent with probability
/// `vaccination_percentage`, in a trial of its own; nothing else changes.
pub fn vaccinate(vaccination_percentage: u32, citizens: &mut Vec<Citizen>, rng: &mut StdRng)
    requires
        is_probability(vaccination_percentage),
    ensures
        final(citizens)@.len() == old(citizens)@.len(),
        forall|i: int|
            0 <= i < old(citizens)@.len() ==> {
                &&& #[trigger] final(citizens)@[i] == (Citizen {
                    vaccinated: final(citizens)@[i].vaccinated,
                    ..old(citizens)@[i]
                })
                &&& final(citizens)@[i].vaccinated != old(citizens)@[i].vaccinated ==> old(citizens)@[i].state_machine.state is Susceptible && final(citizens)@[i].vaccinated
                &&& vaccination_percentage == 0 ==> final(citizens)@[i] == old(citizens)@[i]
                &&& vaccination_percentage == PROBABILITY_SCALE && old(
                    citizens)@[i].state_machine.state is Susceptible ==> final(citizens)@[i].vaccinated
            },
{
    let mut i: usize = 0;
    while i < citizens.len()
        invariant
            is_probability(vaccination_percentage),
            i <= citizens@.len(),
            citizens@.len() == old(citizens)@.len(),
            forall|k: int| i <= k < citizens@.len() ==> #[trigger] citizens@[k] == old(citizens)@[k],
            forall|k: int|
                0 <= k < i ==> {
                    &&& #[trigger] citizens@[k] == (Citizen {
                        vaccinated: citizens@[k].vaccinated,
                        ..old(citizens)@[k]
                    })
                    &&& citizens@[k].vaccinated != old(citizens)@[k].vaccinated ==> old(citizens)@[k].state_machine.state is Susceptible && citizens@[k].vaccinated
                    &&& vaccination_percentage == 0 ==> citizens@[k] == old(citizens)@[k]
                    &&& vaccination_percentage == PROBABILITY_SCALE && old(
                        citizens)@[k].state_machine.state is Susceptible ==> citizens@[k].vaccinated
                },
        decreases citizens@.len() - i,
    {
        if citizens[i].state_machine.is_susceptible() && trial(rng, vaccination_percentage) {
            let mut agent = citizens[i];
            agent.set_vaccination(true);
            citizens.set(i, agent);
        }
        i = i + 1;
    }
}

/// The interventions configured for a simulation, each with its own state.
#[derive(Copy, Clone, Debug, PartialEq, Eq, Structural)]
pub struct Interventions {
    pub vaccinate: Option<VaccinateIntervention>,
    pub lockdown: Option<LockdownIntervention>,
    pub build_new_hospital: Option<BuildNewHospital>,
}

/// The hospital of `grid` can grow to the far corner of the town.
pub open spec fn hospital_can_grow(grid: Grid) -> bool {
    &&& 0 <= grid.grid_size <= COORDINATE_LIMIT
    &&& grid.hospital_area.start_offset.x <= grid.grid_size
    &&& grid.hospital_area.start_offset.y <= grid.grid_size
}

impl Interventions {
    /// Every configured probability is a probability.
    pub open spec fn wf(&self) -> bool {
        &&& (self.vaccinate matches Some(v) ==> is_probability(v.config.percent))
        &&& (self.lockdown matches Some(l) ==> is_probability(
            l.config.essential_workers_population,
        ))
    }

    /// A lockdown starts at the hour of `counts`.
    pub open spec fn lockdown_starts(&self, counts: Counts) -> bool {
        self.lockdown matches Some(l) && !l.is_locked_down && counts.infected
            >= l.config.at_number_of_infections
    }

    /// A lockdown ends at the hour of `counts`: one that has run its course,
    /// or one of zero days that has just started.
    pub open spec fn lockdown_ends(&self, counts: Counts) -> bool {
        self.lockdown matches Some(l) && ((self.lockdown_starts(counts)
            && l.config.lock_down_period == 0) || (l.is_locked_down && counts.hour
            >= l.unlock_hour()))
    }

    /// The hospital grows at the hour of `counts`.
    pub open spec fn hospital_grows(&self, counts: Counts) -> bool {
        self.build_new_hospital matches Some(b) && !b.new_hospital_built && counts.hospitalized
            >= b.config.spread_rate_threshold
    }

    /// The first configuration of each kind of intervention in `configs`.
    pub fn init_interventions(configs: &Vec<InterventionConfig>) -> (r: Interventions)
        requires
            forall|i: int|
                0 <= i < configs@.len() ==> match #[trigger] configs@[i] {
                    InterventionConfig::Vaccinate(v) => is_probability(v.percent),
                    InterventionConfig::Lockdown(l) => is_probability(
                        l.essential_workers_population,
                    ),
                    InterventionConfig::BuildNewHospital(_) => true,
                },
        ensures
            r.wf(),
            r.lockdown matches Some(l) ==> !l.is_locked_down,
            r.build_new_hospital matches Some(b) ==> !b.new_hospital_built,
            r.vaccinate is None <==> forall|i: int|
                0 <= i < configs@.len() ==> !(#[trigger] configs@[i] is Vaccinate),
            r.lockdown is None <==> forall|i: int|
                0 <= i < configs@.len() ==> !(#[trigger] configs@[i] is Lockdown),
            r.build_new_hospital is None <==> forall|i: int|
                0 <= i < configs@.len() ==> !(#[trigger] configs@[i] is BuildNewHospital),
    {
        let mut r = Interventions { vaccinate: None, lockdown: None, build_new_hospital: None };
        let mut i: usize = 0;
        while i < configs.len()
            invariant
                i <= configs@.len(),
                forall|k: int|
                    0 <= k < configs@.len() ==> match #[trigger] configs@[k] {
                        InterventionConfig::Vaccinate(v) => is_probability(v.percent),
                        InterventionConfig::Lockdown(l) => is_probability(
                            l.essential_workers_population,
                        ),
                        InterventionConfig::BuildNewHospital(_) => true,
                    },
                r.wf(),
                r.lockdown matches Some(l) ==> !l.is_locked_down,
                r.build_new_hospital matches Some(b) ==> !b.new_hospital_built,
                r.vaccinate is None <==> forall|k: int|
                    0 <= k < i ==> !(#[trigger] configs@[k] is Vaccinate),
                r.lockdown is None <==> forall|k: int|
                    0 <= k < i ==> !(#[trigger] configs@[k] is Lockdown),
                r.build_new_hospital is None <==> forall|k: int|
                    0 <= k < i ==> !(#[trigger] configs@[k] is BuildNewHospital),
            decreases configs@.len() - i,
        {
            match configs[i] {
                InterventionConfig::Vaccinate(config) => {
                    if r.vaccinate.is_none() {
                        r.vaccinate = Some(VaccinateIntervention { config });
                    }
                },
                InterventionConfig::Lockdown(config) => {
                    if r.lockdown.is_none() {
                        r.lockdown = Some(LockdownIntervention::new(config));
                    }
                },
                InterventionConfig::BuildNewHospital(config) => {
                    if r.build_new_hospital.is_none() {
                        r.build_new_hospital = Some(
                            BuildNewHospital { config, new_hospital_built: false },
                        );
                    }
                },
            }
            i = i + 1;
        }
        r
    }

    /// With a lockdown configured, makes each agent with a normal job an
    /// essential worker with the configured probability.
    pub fn assign_essential_workers(&self, citizens: &mut Vec<Citizen>, rng: &mut StdRng)
        requires
            self.wf(),
        ensures
            final(citizens)@.len() == old(citizens)@.len(),
            forall|i: int|
                0 <= i < old(citizens)@.len() ==> {
                    &&& #[trigger] final(citizens)@[i] == (Citizen {
                        work_status: final(citizens)@[i].work_status,
                        ..old(citizens)@[i]
                    })
                    &&& (final(citizens)@[i].work_status == old(citizens)@[i].work_status || (old(
                        citizens)@[i].work_status is Normal && final(citizens)@[i].work_status
                        is Essential))
                },
            self.lockdown is None ==> final(citizens)@ == old(citizens)@,
            forall|i: int|
                0 <= i < old(citizens)@.len() && (self.lockdown matches Some(l)
                    && l.config.essential_workers_population == PROBABILITY_SCALE) && old(
                    citizens)@[i].work_status is Normal ==> (#[trigger] final(
                    citizens)@[i]).work_status is Essential,
    {
        if let Some(lockdown) = self.lockdown {
            let percentage = lockdown.get_essential_workers_percentage();
            assert(percentage == lockdown.config.essential_workers_population);
            let mut i: usize = 0;
            while i < citizens.len()
                invariant
                    is_probability(percentage),
                    i <= citizens@.len(),
                    citizens@.len() == old(citizens)@.len(),
                    forall|k: int|
                        i <= k < citizens@.len() ==> #[trigger] citizens@[k] == old(citizens)@[k],
                    forall|k: int|
                        0 <= k < i ==> {
                            &&& #[trigger] citizens@[k] == (Citizen {
                                work_status: citizens@[k].work_status,
                                ..old(citizens)@[k]
                            })
                            &&& (citizens@[k].work_status == old(citizens)@[k].work_status || (old(
                                citizens)@[k].work_status is Normal && citizens@[k].work_status
                                is Essential))
                            &&& percentage == PROBABILITY_SCALE && old(citizens)@[k].work_status
                                is Normal ==> citizens@[k].work_status is Essential
                        },
                decreases citizens@.len() - i,
            {
                let mut agent = citizens[i];
                agent.assign_essential_worker(percentage, rng);
                citizens.set(i, agent);
                i = i + 1;
            }
        }
    }

    /// Runs the interventions on the counts of an hour, in order: the
    /// vaccination, the lockdown and its end, and the hospital. Returns what
    /// was done.
    pub fn process_interventions(
        &mut self,
        counts: &Counts,
        citizens: &mut Vec<Citizen>,
        grid: &mut Grid,
        rng: &mut StdRng,
    ) -> (r: AppliedInterventions)
        requires
            old(self).wf(),
            old(grid).wf(),
            hospital_can_grow(*old(grid)),
        ensures
            final(self).wf(),
            final(grid).wf(),
            hospital_can_grow(*final(grid)),
            final(citizens)@.len() == old(citizens)@.len(),
            forall|i: int|
                0 <= i < old(citizens)@.len() ==> #[trigger] final(citizens)@[i] == (Citizen {
                    vaccinated: final(citizens)@[i].vaccinated,
                    isolated: final(citizens)@[i].isolated,
                    ..old(citizens)@[i]
                }),
            forall|i: int|
                0 <= i < old(citizens)@.len() && #[trigger] final(citizens)@[i].vaccinated != old(
                    citizens)@[i].vaccinated ==> old(citizens)@[i].state_machine.state
                    is Susceptible && final(citizens)@[i].vaccinated,
            old(self).lockdown_starts(*counts) && !old(self).lockdown_ends(*counts) ==> forall|
                i: int,
            |
                0 <= i < old(citizens)@.len() ==> if old(citizens)@[i].work_status is Essential {
                    #[trigger] final(citizens)@[i].isolated == old(citizens)@[i].isolated
                } else {
                    final(citizens)@[i].isolated
                },
            old(self).lockdown_ends(*counts) ==> forall|i: int|
                0 <= i < old(citizens)@.len() ==> !(#[trigger] final(citizens)@[i].isolated),
            !old(self).lockdown_starts(*counts) && !old(self).lockdown_ends(*counts) ==> forall|
                i: int,
            |
                0 <= i < old(citizens)@.len() ==> #[trigger] final(citizens)@[i].isolated == old(
                    citizens)@[i].isolated,
            old(self).hospital_grows(*counts) ==> final(grid).hospital_area == Area::new_spec(
                old(grid).hospital_area.start_offset,
                Point { x: old(grid).grid_size, y: old(grid).grid_size },
            ),
            !old(self).hospital_grows(*counts) ==> final(grid).hospital_area == old(
                grid).hospital_area,
            r.vaccinated == (old(self).vaccinate matches Some(v) && counts.hour
                == v.config.at_hour),
            r.locked_down == old(self).lockdown_starts(*counts),
            r.unlocked == old(self).lockdown_ends(*counts),
            r.hospital_expanded == old(self).hospital_grows(*counts),
            final(self).vaccinate == old(self).vaccinate,
            old(self).lockdown is None ==> final(self).lockdown is None,
            old(self).lockdown matches Some(l) ==> final(self).lockdown == Some(
                LockdownIntervention {
                    config: l.config,
                    is_locked_down: (old(self).lockdown_starts(*counts) || l.is_locked_down)
                        && !old(self).lockdown_ends(*counts),
                    locked_at: if old(self).lockdown_starts(*counts) {
                        counts.hour
                    } else {
                        l.locked_at
                    },
                },
            ),
            old(self).build_new_hospital is None ==> final(self).build_new_hospital is None,
            old(self).build_new_hospital matches Some(b) ==> final(self).build_new_hospital
                == Some(
                BuildNewHospital {
                    config: b.config,
                    new_hospital_built: b.new_hospital_built || old(self).hospital_grows(*counts),
                },
            ),
    {
        let mut events = AppliedInterventions {
            vaccinated: false,
            locked_down: false,
            unlocked: false,
            hospital_expanded: false,
        };
        let ghost c0 = citizens@;
        if let Some(v) = self.vaccinate {
            if let Some(percent) = v.get_vaccination_percentage(counts) {
                vaccinate(percent, citizens, rng);
                events.vaccinated = true;
            }
        }
        let ghost c1 = citizens@;
        if let Some(mut lockdown) = self.lockdown {
            if lockdown.should_apply(counts) {
                lockdown.apply(counts.hour);
                lock_city(citizens);
                events.locked_down = true;
            }
            let ghost c2 = citizens@;
            if lockdown.should_unlock(counts) {
                unlock_city(citizens);
                lockdown.unapply();
                events.unlocked = true;
            }
            self.lockdown = Some(lockdown);
            assert(forall|i: int| 0 <= i < c2.len() ==> #[trigger] c2[i].vaccinated == c1[i].vaccinated);
        }
        if let Some(mut hospital) = self.build_new_hospital {
            if hospital.should_apply(counts) {
                grid.increase_hospital_size(grid.grid_size);
                hospital.apply();
                self.build_new_hospital = Some(hospital);
                events.hospital_expanded = true;
            }
        }
        events
    }
}

} // verus!
