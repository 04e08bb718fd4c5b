use crate::sir::event::{Outcome, Phase, Snapshot, Winner};
use crate::sir::partition::Partitions;
use crate::sir::population::Population;
use crate::stats::ModelStats;
use rand::rngs::SmallRng;
use vstd::prelude::*;

verus! {

/// The integral part of a run's configuration: what the kernel itself reads.
/// Rates and the time horizon belong to whoever keeps the clock.
#[derive(Clone, Copy, Debug)]
pub struct Parameters {
    pub population: usize,
    pub initial_infections: usize,
    pub seed: u64,
    pub enable_stats: bool,
    pub disable_queries: bool,
}

impl Parameters {
    /// A population can be seeded when it is not empty and holds at least as
    /// many individuals as are to be infected at the start, at least one.
    pub open spec fn valid(&self) -> bool {
        0 < self.initial_infections <= self.population
    }

    pub fn is_valid(&self) -> (ok: bool)
        ensures
            ok == self.valid(),
    {
        0 < self.initial_infections && self.initial_infections <= self.population
    }
}

impl Default for Parameters {
    fn default() -> (parameters: Self)
        ensures
            parameters == (Parameters {
                population: 1000,
                initial_infections: 5,
                seed: 12345,
                enable_stats: false,
                disable_queries: true,
            }),
    {
        Parameters {
            population: 1000,
            initial_infections: 5,
            seed: 12345,
            enable_stats: false,
            disable_queries: true,
        }
    }
}

/// What every engine offers to the driver of a run. The driver keeps the
/// clock: it asks for the phase, draws the two waiting times from the
/// engine's generator, says which was the shorter, and moves the clock by
/// what the outcome tells it.
pub trait SIRModel {
    /// The population and the counters.
    spec fn snapshot(&self) -> Snapshot;

    /// The configuration that the engine was made with.
    spec fn params(&self) -> Parameters;

    /// The generator that the engine draws from.
    spec fn generator(&self) -> SmallRng;

    /// The characters of the engine's name.
    spec fn name(&self) -> Seq<char>;

    /// The engine's invariant, which implies that of the run.
    spec fn wf(&self) -> bool;

    /// A well-formed engine holds a well-formed run.
    proof fn lemma_wf(&self)
        requires
            self.wf(),
        ensures
            self.snapshot().wf(),
    ;

    /// A short, stable name of the engine.
    fn id(&self) -> (name: &'static str)
        ensures
            name@ == self.name(),
    ;

    fn get_stats(&self) -> (stats: &ModelStats)
        ensures
            stats@ == self.snapshot().tally,
    ;

    fn get_params(&self) -> (parameters: &Parameters)
        ensures
            *parameters == self.params(),
    ;

    fn get_population(&self) -> (population: &Population)
        ensures
            population@ == self.snapshot().people,
    ;

    /// The engine's own generator, for the draws that the driver makes
    /// itself: what comes back is the generator as the engine holds it, and
    /// the engine keeps it as the driver leaves it. Handing it out changes
    /// nothing in the run.
    fn rng(&mut self) -> (rng: &mut SmallRng)
        ensures
            *rng == old(self).generator(),
            final(self).generator() == *final(rng),
            final(self).snapshot() == old(self).snapshot(),
            final(self).params() == old(self).params(),
            old(self).wf() ==> final(self).wf(),
    ;

    /// The size of the infectious partition, from which the driver works out
    /// the two aggregate rates.
    fn infectious_people(&self) -> (n: usize)
        ensures
            n == self.snapshot().people.infectious.len(),
    ;

    /// Whether the event loop goes on, given whether the clock has reached
    /// the horizon.
    fn phase(&self, horizon_reached: bool) -> (phase: Phase)
        ensures
            phase == self.snapshot().phase(horizon_reached),
    ;

    /// Sets the run up: `population` susceptible individuals, of whom
    /// `initial_infections`, drawn without replacement, are made infectious.
    fn setup(&mut self)
        requires
            old(self).wf(),
            old(self).snapshot().people == Partitions::empty(),
            old(self).params().initial_infections <= old(self).params().population,
        ensures
            final(self).params() == old(self).params(),
            final(self).wf(),
            final(self).snapshot().follows(old(self).snapshot()),
            final(self).snapshot().people.population() == final(self).params().population,
            final(self).snapshot().people.infectious.len() == final(self).params().initial_infections,
            final(self).snapshot().people.recovered.len() == 0,
            final(self).snapshot().people.susceptible.len() == final(self).params().population
                - final(self).params().initial_infections,
            final(self).snapshot().tally == old(self).snapshot().tally.seeded(
                final(self).params().initial_infections as nat,
            ),
    ;

    /// One turn of the event loop, given which waiting time was the shorter.
    fn next_event(&mut self, winner: Winner) -> (outcome: Outcome)
        requires
            old(self).wf(),
        ensures
            old(self).snapshot().admits(winner, outcome),
            final(self).snapshot() == old(self).snapshot().after(outcome),
            final(self).params() == old(self).params(),
            final(self).wf(),
            final(self).snapshot().follows(old(self).snapshot()),
    ;
}

} // verus!
