use crate::base::{Parameters, SIRModel};
use crate::sir::event::{lemma_outcome, Outcome, Phase, Snapshot, Winner};
use crate::sir::partition::{lemma_member_status, Partitions};
use crate::sir::population::Population;
use crate::sir::random::{seeded_rng, uniform_index};
use crate::stats::{ModelStats, Tally};
use rand::rngs::SmallRng;
use vstd::prelude::*;

verus! {

/// The three compartments. An individual only ever moves forward:
/// from `Susceptible` to `Infectious`, from `Infectious` to `Recovered`.
#[derive(Clone, Copy, Debug, PartialEq, Eq, Structural)]
pub enum InfectionStatus {
    Susceptible,
    Infectious,
    Recovered,
}

impl InfectionStatus {
    /// How far along the course of the disease a status lies.
    pub open spec fn stage(self) -> nat {
        match self {
            InfectionStatus::Susceptible => 0,
            InfectionStatus::Infectious => 1,
            InfectionStatus::Recovered => 2,
        }
    }
}

/// An individual: its dense, zero-based index in the population, given out
/// when the individual is added and never reused.
#[derive(Clone, Copy, Debug, PartialEq, Eq, Hash, Structural)]
pub struct PersonId {
    id: usize,
}

impl View for PersonId {
    type V = usize;

    closed spec fn view(&self) -> usize {
        self.id
    }
}

impl PersonId {
    pub(crate) fn new(id: usize) -> (person: PersonId)
        ensures
            person@ == id,
    {
        PersonId { id }
    }

    pub fn index(&self) -> (id: usize)
        ensures
            id == self@,
    {
        self.id
    }

    /// An identifier is its index and nothing more.
    pub proof fn lemma_same_index(self, other: PersonId)
        requires
            self@ == other@,
        ensures
            self == other,
    {
    }
}

/// The hand-rolled engine: a population, its generator and an incidence-only
/// statistics collector. It decides every turn of the event loop; whoever
/// drives it keeps the clock and draws the two waiting times.
pub struct Context {
    parameters: Parameters,
    rng: SmallRng,
    population: Population,
    stats: ModelStats,
}

impl Context {
    /// The population and the counters.
    pub closed spec fn snapshot(&self) -> Snapshot {
        Snapshot { people: self.population@, tally: self.stats@ }
    }

    /// The configuration that the engine was made with.
    pub closed spec fn params(&self) -> Parameters {
        self.parameters
    }

    /// The run is well formed (see [`Snapshot::wf`]) and follows incidence
    /// only.
    pub open spec fn wf(&self) -> bool {
        &&& self.snapshot().wf()
        &&& self.snapshot().tally.prevalence is None
    }

    /// An engine with an empty population and nothing counted, its generator
    /// started from the seed in `parameters`.
    pub fn new(parameters: Parameters) -> (context: Context)
        ensures
            context.params() == parameters,
            context.snapshot() == (Snapshot {
                people: Partitions::empty(),
                tally: Tally { cum_incidence: 0, prevalence: None },
            }),
            context.wf(),
    {
        Context {
            rng: seeded_rng(parameters.seed),
            population: Population::new(),
            stats: ModelStats::incidence_only(),
            parameters,
        }
    }

    pub fn id(&self) -> (name: &'static str)
        ensures
            name@ == "baseline"@,
    {
        "baseline"
    }

    pub fn get_params(&self) -> (parameters: &Parameters)
        ensures
            *parameters == self.params(),
    {
        &self.parameters
    }

    pub fn get_stats(&self) -> (stats: &ModelStats)
        ensures
            stats@ == self.snapshot().tally,
    {
        &self.stats
    }

    pub fn get_population(&self) -> (population: &Population)
        ensures
            population@ == self.snapshot().people,
    {
        &self.population
    }

    /// The engine's own generator, lent to the driver: the run stays as it is,
    /// and the engine keeps the generator as the driver leaves it.
    pub fn rng(&mut self) -> (rng: &mut SmallRng)
        ensures
            *rng == old(self).generator() && final(self).generator() == *final(rng),
            final(self).snapshot() == old(self).snapshot() && final(self).params() == old(self).params(),
    {
        &mut self.rng
    }

    /// The size of the infectious partition.
    pub fn infectious_people(&self) -> (n: usize)
        ensures
            n == self.snapshot().people.infectious.len(),
    {
        self.population.count(InfectionStatus::Infectious)
    }

    /// Whether the event loop goes on, given whether the clock has reached
    /// the horizon.
    pub fn phase(&self, horizon_reached: bool) -> (phase: Phase)
        ensures
            phase == self.snapshot().phase(horizon_reached),
    {
        if self.infectious_people() == 0 || horizon_reached {
            Phase::Terminated
        } else {
            Phase::Running
        }
    }

    /// Makes a susceptible individual infectious and counts the infection.
    pub fn infect_person(&mut self, person: PersonId)
        requires
            old(self).wf(),
            person@ < old(self).snapshot().people.population(),
            old(self).snapshot().people.statuses[person@ as int] == InfectionStatus::Susceptible,
        ensures
            final(self).snapshot() == old(self).snapshot().after(Outcome::Infected(person)),
            final(self).params() == old(self).params(),
            final(self).wf(),
            final(self).snapshot().follows(old(self).snapshot()),
    {
        proof {
            lemma_outcome(self.snapshot(), Outcome::Infected(person));
        }
        self.population.transition(person, InfectionStatus::Infectious);
        self.stats.record_infection();
    }

    /// Infects the susceptible individual at position `index` of its
    /// partition: the step by which the initial infections are seeded.
    pub fn seed_infection(&mut self, index: usize) -> (person: PersonId)
        requires
            old(self).wf(),
            index < old(self).snapshot().people.susceptible.len(),
        ensures
            person@ == old(self).snapshot().people.susceptible[index as int],
            final(self).snapshot() == old(self).snapshot().after(Outcome::Infected(person)),
            final(self).params() == old(self).params(),
            final(self).wf(),
            final(self).snapshot().follows(old(self).snapshot()),
    {
        let person = self.population.member_at(InfectionStatus::Susceptible, index).unwrap();
        proof {
            let part = self.snapshot().people.susceptible;
            assert(part.contains(part[index as int]));
            lemma_member_status(self.snapshot().people, InfectionStatus::Susceptible, person@);
        }
        self.infect_person(person);
        person
    }

    /// Lets an infectious individual recover. The cumulative incidence stays.
    pub fn recover_person(&mut self, person: PersonId)
        requires
            old(self).wf(),
            person@ < old(self).snapshot().people.population(),
            old(self).snapshot().people.statuses[person@ as int] == InfectionStatus::Infectious,
        ensures
            final(self).snapshot() == old(self).snapshot().after(Outcome::Recovered(person)),
            final(self).params() == old(self).params(),
            final(self).wf(),
            final(self).snapshot().follows(old(self).snapshot()),
    {
        proof {
            lemma_outcome(self.snapshot(), Outcome::Recovered(person));
        }
        self.population.transition(person, InfectionStatus::Recovered);
        self.stats.record_recovery();
    }

    /// The infection branch of a turn, for a candidate drawn from the whole
    /// population. A susceptible candidate becomes infectious and is counted;
    /// for any other the draw is wasted and the run stays exactly as it was.
    pub fn infect_candidate(&mut self, candidate: PersonId) -> (outcome: Outcome)
        requires
            old(self).wf(),
            candidate@ < old(self).snapshot().people.population(),
        ensures
            outcome == old(self).snapshot().attempt(candidate),
            final(self).snapshot() == old(self).snapshot().after(outcome),
            outcome matches Outcome::Wasted(_) ==> final(self).snapshot() == old(self).snapshot(),
            outcome.elapsed() == Some(Winner::Infection),
            final(self).params() == old(self).params(),
            final(self).wf(),
            final(self).snapshot().follows(old(self).snapshot()),
    {
        match self.population.get_status(candidate) {
            InfectionStatus::Susceptible => {
                self.infect_person(candidate);
                Outcome::Infected(candidate)
            },
            _ => {
                proof {
                    lemma_outcome(self.snapshot(), Outcome::Wasted(candidate));
                }
                Outcome::Wasted(candidate)
            },
        }
    }

    /// The recovery branch of a turn, for a position drawn in the infectious
    /// partition: the individual there recovers.
    pub fn recover_member(&mut self, index: usize) -> (outcome: Outcome)
        requires
            old(self).wf(),
            index < old(self).snapshot().people.infectious.len(),
        ensures
            outcome matches Outcome::Recovered(person) && person@ == old(
                self,
            ).snapshot().people.infectious[index as int],
            final(self).snapshot() == old(self).snapshot().after(outcome),
            final(self).params() == old(self).params(),
            final(self).wf(),
            final(self).snapshot().follows(old(self).snapshot()),
    {
        let person = self.population.member_at(InfectionStatus::Infectious, index).unwrap();
        proof {
            let part = self.snapshot().people.infectious;
            assert(part.contains(part[index as int]));
            lemma_member_status(self.snapshot().people, InfectionStatus::Infectious, person@);
        }
        self.recover_person(person);
        Outcome::Recovered(person)
    }

    /// One turn of the event loop, given which waiting time was the shorter.
    ///
    /// With nobody infectious the turn is idle: nothing is drawn. Where
    /// infection won, a candidate is drawn from the whole population and
    /// infected if susceptible. Otherwise a position is drawn in the
    /// infectious partition and the individual there recovers.
    pub fn next_event(&mut self, winner: Winner) -> (outcome: Outcome)
        requires
            old(self).wf(),
        ensures
            old(self).snapshot().admits(winner, outcome),
            final(self).snapshot() == old(self).snapshot().after(outcome),
            final(self).params() == old(self).params(),
            final(self).wf(),
            final(self).snapshot().follows(old(self).snapshot()),
    {
        let n_infectious = self.infectious_people();
        if n_infectious == 0 {
            proof {
                lemma_outcome(self.snapshot(), Outcome::Idle);
            }
            return Outcome::Idle;
        }
        match winner {
            Winner::Infection => {
                let candidate = self.population.sample_uniform_from_population(&mut self.rng);
                self.infect_candidate(candidate)
            },
            Winner::Recovery => {
                let index = uniform_index(&mut self.rng, n_infectious);
                proof {
                    let part = self.snapshot().people.infectious;
                    assert(part.contains(part[index as int]));
                }
                self.recover_member(index)
            },
        }
    }

    /// Sets the run up: `population` susceptible individuals, of whom
    /// `initial_infections`, drawn without replacement, are made infectious
    /// and counted.
    pub fn setup(&mut self)
        requires
            old(self).wf(),
            old(self).snapshot().people == Partitions::empty(),
            old(self).params().initial_infections <= old(self).params().population,
        ensures
            final(self).params() == old(self).params(),
            final(self).wf(),
            final(self).snapshot().follows(old(self).snapshot()),
            final(self).snapshot().people.population() == final(self).params().population,
            final(self).snapshot().people.infectious.len() == final(self).params().initial_infections,
            final(self).snapshot().people.recovered.len() == 0,
            final(self).snapshot().people.susceptible.len() == final(self).params().population
                - final(self).params().initial_infections,
            final(self).snapshot().tally == old(self).snapshot().tally.seeded(
                final(self).params().initial_infections as nat,
            ),
    {
        let ghost start = self.snapshot();
        let ghost parameters = self.params();
        let size = self.parameters.population;
        let mut added: usize = 0;
        while added < size
            invariant
                added <= size,
                self.wf(),
                self.params() == parameters,
                self.snapshot().tally == start.tally,
                self.snapshot().people.population() == added,
                self.snapshot().people.susceptible.len() == added,
                self.snapshot().people.infectious.len() == 0,
                self.snapshot().people.recovered.len() == 0,
            decreases size - added,
        {
            self.population.add_person(InfectionStatus::Susceptible);
            added = added + 1;
        }
        let seeds = self.parameters.initial_infections;
        let mut seeded: usize = 0;
        while seeded < seeds
            invariant
                seeded <= seeds <= size,
                self.wf(),
                self.params() == parameters,
                self.snapshot().tally == start.tally.seeded(seeded as nat),
                self.snapshot().people.population() == size,
                self.snapshot().people.susceptible.len() == size - seeded,
                self.snapshot().people.infectious.len() == seeded,
                self.snapshot().people.recovered.len() == 0,
            decreases seeds - seeded,
        {
            let n_susceptible = self.population.count(InfectionStatus::Susceptible);
            let index = uniform_index(&mut self.rng, n_susceptible);
            self.seed_infection(index);
            seeded = seeded + 1;
        }
        proof {
            assert(self.snapshot().people.follows(start.people));
        }
    }
}

impl SIRModel for Context {
    open spec fn snapshot(&self) -> Snapshot {
        Context::snapshot(self)
    }

    open spec fn params(&self) -> Parameters {
        Context::params(self)
    }

    open spec fn name(&self) -> Seq<char> {
        "baseline"@
    }

    open spec fn wf(&self) -> bool {
        Context::wf(self)
    }

    proof fn lemma_wf(&self) {
    }

    fn id(&self) -> (name: &'static str) {
        Context::id(self)
    }

    fn get_stats(&self) -> (stats: &ModelStats) {
        Context::get_stats(self)
    }

    fn get_params(&self) -> (parameters: &Parameters) {
        Context::get_params(self)
    }

    fn get_population(&self) -> (population: &Population) {
        Context::get_population(self)
    }

    fn rng(&mut self) -> (rng: &mut SmallRng) {
        Context::rng(self)
    }

    open spec fn generator(&self) -> SmallRng {
        Context::generator(self)
    }

    fn infectious_people(&self) -> (n: usize) {
        Context::infectious_people(self)
    }

    fn phase(&self, horizon_reached: bool) -> (phase: Phase) {
        Context::phase(self, horizon_reached)
    }

    fn setup(&mut self) {
        Context::setup(self)
    }

    fn next_event(&mut self, winner: Winner) -> (outcome: Outcome) {
        Context::next_event(self, winner)
    }
}

impl Context {
    /// The generator that the engine draws from.
    pub closed spec fn generator(&self) -> SmallRng {
        self.rng
    }
}

} // verus!
