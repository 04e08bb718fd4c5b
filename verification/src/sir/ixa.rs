use crate::base::{Parameters, SIRModel};
use crate::sir::baseline::{InfectionStatus, PersonId};
use crate::sir::event::{lemma_outcome, Outcome, Phase, Snapshot, Winner};
use crate::sir::partition::Partitions;
use crate::sir::population::Population;
use crate::sir::random::seeded_rng;
use crate::stats::{ModelStats, Tally};
use rand::rngs::SmallRng;
use vstd::prelude::*;

verus! {

/// The status of an individual as the framework-style engine reports it.
#[derive(Clone, Copy, PartialEq, Eq, Debug, Structural)]
pub enum InfectionStatusValue {
    Susceptible,
    Infectious,
    Recovered,
}

impl InfectionStatusValue {
    pub open spec fn spec_of(status: InfectionStatus) -> InfectionStatusValue {
        match status {
            InfectionStatus::Susceptible => InfectionStatusValue::Susceptible,
            InfectionStatus::Infectious => InfectionStatusValue::Infectious,
            InfectionStatus::Recovered => InfectionStatusValue::Recovered,
        }
    }

    pub open spec fn spec_status(self) -> InfectionStatus {
        match self {
            InfectionStatusValue::Susceptible => InfectionStatus::Susceptible,
            InfectionStatusValue::Infectious => InfectionStatus::Infectious,
            InfectionStatusValue::Recovered => InfectionStatus::Recovered,
        }
    }

    /// The reported value of a compartment.
    #[verifier::when_used_as_spec(spec_of)]
    pub fn of(status: InfectionStatus) -> (value: InfectionStatusValue)
        ensures
            value == Self::spec_of(status),
    {
        match status {
            InfectionStatus::Susceptible => InfectionStatusValue::Susceptible,
            InfectionStatus::Infectious => InfectionStatusValue::Infectious,
            InfectionStatus::Recovered => InfectionStatusValue::Recovered,
        }
    }

    /// The compartment that a reported value stands for.
    #[verifier::when_used_as_spec(spec_status)]
    pub fn status(self) -> (status: InfectionStatus)
        ensures
            status == self.spec_status(),
    {
        match self {
            InfectionStatusValue::Susceptible => InfectionStatus::Susceptible,
            InfectionStatusValue::Infectious => InfectionStatus::Infectious,
            InfectionStatusValue::Recovered => InfectionStatus::Recovered,
        }
    }
}

/// The framework-style engine. It follows prevalence besides incidence, does
/// not count the individuals infected at setup, and draws its candidate at
/// the start of every turn, whoever won the race.
pub struct Model {
    parameters: Parameters,
    rng: SmallRng,
    population: Population,
    stats: ModelStats,
}

impl Model {
    /// The population and the counters.
    pub closed spec fn snapshot(&self) -> Snapshot {
        Snapshot { people: self.population@, tally: self.stats@ }
    }

    /// The configuration that the engine was made with.
    pub closed spec fn params(&self) -> Parameters {
        self.parameters
    }

    /// The run is well formed (see [`Snapshot::wf`]) and follows prevalence,
    /// which is therefore the size of the infectious partition.
    pub open spec fn wf(&self) -> bool {
        &&& self.snapshot().wf()
        &&& self.snapshot().tally.prevalence is Some
    }

    /// An engine with an empty population and nothing counted, its generator
    /// started from the seed in `params`.
    pub fn new(params: Parameters) -> (model: Model)
        ensures
            model.params() == params,
            model.snapshot() == (Snapshot {
                people: Partitions::empty(),
                tally: Tally { cum_incidence: 0, prevalence: Some(0nat) },
            }),
            model.wf(),
    {
        Model {
            rng: seeded_rng(params.seed),
            population: Population::new(),
            stats: ModelStats::new(0),
            parameters: params,
        }
    }

    pub fn id(&self) -> (name: &'static str)
        ensures
            name@ == "ixa"@,
    {
        "ixa"
    }

    pub fn get_params(&self) -> (parameters: &Parameters)
        ensures
            *parameters == self.params(),
    {
        &self.parameters
    }

    pub fn get_stats(&self) -> (stats: &ModelStats)
        ensures
            stats@ == self.snapshot().tally,
    {
        &self.stats
    }

    pub fn get_population(&self) -> (population: &Population)
        ensures
            population@ == self.snapshot().people,
    {
        &self.population
    }

    /// The engine's own generator, lent to the driver: the run stays as it is,
    /// and the engine keeps the generator as the driver leaves it.
    pub fn rng(&mut self) -> (rng: &mut SmallRng)
        ensures
            *rng == old(self).generator() && final(self).generator() == *final(rng),
            final(self).snapshot() == old(self).snapshot() && final(self).params() == old(self).params(),
    {
        &mut self.rng
    }

    /// The size of the infectious partition.
    pub fn infectious_people(&self) -> (n: usize)
        ensures
            n == self.snapshot().people.infectious.len(),
    {
        self.population.count(InfectionStatus::Infectious)
    }

    /// Whether the event loop goes on, given whether the clock has reached
    /// the horizon.
    pub fn phase(&self, horizon_reached: bool) -> (phase: Phase)
        ensures
            phase == self.snapshot().phase(horizon_reached),
    {
        if self.infectious_people() == 0 || horizon_reached {
            Phase::Terminated
        } else {
            Phase::Running
        }
    }

    /// Draws an individual of the given status, or nobody where there is
    /// none. Without such an individual nothing is drawn.
    pub fn sample_person(&mut self, value: InfectionStatusValue) -> (person: Option<PersonId>)
        requires
            old(self).wf(),
        ensures
            final(self).snapshot() == old(self).snapshot(),
            final(self).params() == old(self).params(),
            person.is_some() == (old(self).snapshot().people.members(value.status()).len() > 0),
            person matches Some(p) ==> {
                &&& old(self).snapshot().people.members(value.status()).contains(p@)
                &&& p@ < old(self).snapshot().people.population()
                &&& old(self).snapshot().people.statuses[p@ as int] == value.status()
            },
    {
        let status = value.status();
        if self.population.count(status) == 0 {
            None
        } else {
            Some(self.population.sample_uniform_member(&mut self.rng, status))
        }
    }

    /// Infects `person` if susceptible, and counts the infection. For anybody
    /// else the call changes nothing.
    pub fn infect_person(&mut self, person: PersonId) -> (outcome: Outcome)
        requires
            old(self).wf(),
            person@ < old(self).snapshot().people.population(),
        ensures
            outcome == old(self).snapshot().attempt(person),
            final(self).snapshot() == old(self).snapshot().after(outcome),
            outcome matches Outcome::Wasted(_) ==> final(self).snapshot() == old(self).snapshot(),
            outcome.elapsed() == Some(Winner::Infection),
            final(self).params() == old(self).params(),
            final(self).wf(),
            final(self).snapshot().follows(old(self).snapshot()),
    {
        match self.population.get_status(person) {
            InfectionStatus::Susceptible => {
                proof {
                    lemma_outcome(self.snapshot(), Outcome::Infected(person));
                }
                self.population.transition(person, InfectionStatus::Infectious);
                self.stats.record_infection();
                Outcome::Infected(person)
            },
            _ => {
                proof {
                    lemma_outcome(self.snapshot(), Outcome::Wasted(person));
                }
                Outcome::Wasted(person)
            },
        }
    }

    /// Lets an infectious individual recover: the prevalence goes down by
    /// one, the cumulative incidence stays.
    pub fn recover_person(&mut self, person: PersonId)
        requires
            old(self).wf(),
            person@ < old(self).snapshot().people.population(),
            old(self).snapshot().people.statuses[person@ as int] == InfectionStatus::Infectious,
        ensures
            final(self).snapshot() == old(self).snapshot().after(Outcome::Recovered(person)),
            final(self).params() == old(self).params(),
            final(self).wf(),
            final(self).snapshot().follows(old(self).snapshot()),
    {
        proof {
            lemma_outcome(self.snapshot(), Outcome::Recovered(person));
        }
        self.population.transition(person, InfectionStatus::Recovered);
        self.stats.record_recovery();
    }

    /// One turn of the event loop, given which waiting time was the shorter.
    ///
    /// With nobody infectious the turn is idle: nothing is drawn. Otherwise a
    /// candidate is drawn from the whole population first, whoever won. Where
    /// infection won, the candidate is infected if susceptible. Where recovery
    /// won, an infectious individual is drawn and recovers.
    pub fn next_event(&mut self, winner: Winner) -> (outcome: Outcome)
        requires
            old(self).wf(),
        ensures
            old(self).snapshot().admits(winner, outcome),
            final(self).snapshot() == old(self).snapshot().after(outcome),
            final(self).params() == old(self).params(),
            final(self).wf(),
            final(self).snapshot().follows(old(self).snapshot()),
    {
        if self.infectious_people() == 0 {
            proof {
                lemma_outcome(self.snapshot(), Outcome::Idle);
            }
            return Outcome::Idle;
        }
        let candidate = self.population.sample_uniform_from_population(&mut self.rng);
        match winner {
            Winner::Infection => self.infect_person(candidate),
            Winner::Recovery => {
                match self.sample_person(InfectionStatusValue::Infectious) {
                    Some(person) => {
                        self.recover_person(person);
                        Outcome::Recovered(person)
                    },
                    None => Outcome::Idle,
                }
            },
        }
    }

    /// Sets the run up: `population` susceptible individuals, of whom
    /// `initial_infections`, drawn without replacement, are made infectious.
    /// The counters start from there: nothing counted, and a prevalence of
    /// `initial_infections`.
    pub fn setup(&mut self)
        requires
            old(self).wf(),
            old(self).snapshot().people == Partitions::empty(),
            old(self).params().initial_infections <= old(self).params().population,
        ensures
            final(self).params() == old(self).params(),
            final(self).wf(),
            final(self).snapshot().follows(old(self).snapshot()),
            final(self).snapshot().people.population() == final(self).params().population,
            final(self).snapshot().people.infectious.len() == final(self).params().initial_infections,
            final(self).snapshot().people.recovered.len() == 0,
            final(self).snapshot().people.susceptible.len() == final(self).params().population
                - final(self).params().initial_infections,
            final(self).snapshot().tally == old(self).snapshot().tally.seeded(
                final(self).params().initial_infections as nat,
            ),
    {
        let ghost start = self.snapshot();
        let ghost parameters = self.params();
        let size = self.parameters.population;
        let mut added: usize = 0;
        while added < size
            invariant
                added <= size,
                self.population.wf(),
                self.params() == parameters,
                self.snapshot().people.population() == added,
                self.snapshot().people.susceptible.len() == added,
                self.snapshot().people.infectious.len() == 0,
                self.snapshot().people.recovered.len() == 0,
            decreases size - added,
        {
            self.population.add_person(InfectionStatus::Susceptible);
            added = added + 1;
        }
        let seeds = self.parameters.initial_infections;
        let mut seeded: usize = 0;
        while seeded < seeds
            invariant
                seeded <= seeds <= size,
                self.population.wf(),
                self.params() == parameters,
                self.snapshot().people.population() == size,
                self.snapshot().people.susceptible.len() == size - seeded,
                self.snapshot().people.infectious.len() == seeded,
                self.snapshot().people.recovered.len() == 0,
            decreases seeds - seeded,
        {
            let person = self.population.sample_uniform_member(
                &mut self.rng,
                InfectionStatus::Susceptible,
            );
            self.population.transition(person, InfectionStatus::Infectious);
            seeded = seeded + 1;
        }
        self.stats = ModelStats::new(seeds);
        proof {
            assert(self.snapshot().people.follows(start.people));
        }
    }
}

impl SIRModel for Model {
    open spec fn snapshot(&self) -> Snapshot {
        Model::snapshot(self)
    }

    open spec fn params(&self) -> Parameters {
        Model::params(self)
    }

    open spec fn name(&self) -> Seq<char> {
        "ixa"@
    }

    open spec fn wf(&self) -> bool {
        Model::wf(self)
    }

    proof fn lemma_wf(&self) {
    }

    fn id(&self) -> (name: &'static str) {
        Model::id(self)
    }

    fn get_stats(&self) -> (stats: &ModelStats) {
        Model::get_stats(self)
    }

    fn get_params(&self) -> (parameters: &Parameters) {
        Model::get_params(self)
    }

    fn get_population(&self) -> (population: &Population) {
        Model::get_population(self)
    }

    fn rng(&mut self) -> (rng: &mut SmallRng) {
        Model::rng(self)
    }

    open spec fn generator(&self) -> SmallRng {
        Model::generator(self)
    }

    fn infectious_people(&self) -> (n: usize) {
        Model::infectious_people(self)
    }

    fn phase(&self, horizon_reached: bool) -> (phase: Phase) {
        Model::phase(self, horizon_reached)
    }

    fn setup(&mut self) {
        Model::setup(self)
    }

    fn next_event(&mut self, winner: Winner) -> (outcome: Outcome) {
        Model::next_event(self, winner)
    }
}

impl Model {
    /// The generator that the engine draws from.
    pub closed spec fn generator(&self) -> SmallRng {
        self.rng
    }
}

} // verus!
