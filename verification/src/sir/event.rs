use crate::sir::baseline::{InfectionStatus, PersonId};
use crate::sir::partition::{
    lemma_follows_transitive, lemma_member_status, lemma_moved, Partitions,
};
use crate::stats::Tally;
use vstd::prelude::*;

verus! {

/// Which of the two competing waiting times was the shorter. A tie goes to
/// `Recovery`.
#[derive(Clone, Copy, Debug, PartialEq, Eq, Structural)]
pub enum Winner {
    Infection,
    Recovery,
}

/// Whether the event loop goes on.
#[derive(Clone, Copy, Debug, PartialEq, Eq, Structural)]
pub enum Phase {
    Running,
    Terminated,
}

/// What one turn of the event loop did.
#[derive(Clone, Copy, Debug, PartialEq, Eq, Structural)]
pub enum Outcome {
    /// A susceptible individual became infectious.
    Infected(PersonId),
    /// Infection won the race, but the individual drawn was not susceptible:
    /// nothing changed.
    Wasted(PersonId),
    /// An infectious individual recovered.
    Recovered(PersonId),
    /// Nobody was infectious: nothing was drawn and nothing changed.
    Idle,
}

impl Outcome {
    /// The waiting time by which the clock moves for this outcome, if it
    /// moves at all.
    pub open spec fn spec_elapsed(self) -> Option<Winner> {
        match self {
            Outcome::Infected(_) => Some(Winner::Infection),
            Outcome::Wasted(_) => Some(Winner::Infection),
            Outcome::Recovered(_) => Some(Winner::Recovery),
            Outcome::Idle => None,
        }
    }

    /// The status that an individual took on, where one did.
    pub open spec fn spec_new_status(self) -> Option<InfectionStatus> {
        match self {
            Outcome::Infected(_) => Some(InfectionStatus::Infectious),
            Outcome::Recovered(_) => Some(InfectionStatus::Recovered),
            Outcome::Wasted(_) => None,
            Outcome::Idle => None,
        }
    }

    /// The individual that was drawn in the turn, where one was.
    pub open spec fn person(self) -> Option<PersonId> {
        match self {
            Outcome::Infected(person) => Some(person),
            Outcome::Wasted(person) => Some(person),
            Outcome::Recovered(person) => Some(person),
            Outcome::Idle => None,
        }
    }

    /// An outcome commits when it changes somebody's status.
    pub open spec fn commits(self) -> bool {
        self.spec_new_status().is_some()
    }

    /// The waiting time by which the clock moves: that of the infection for
    /// an infection and for a wasted draw alike, that of the recovery for a
    /// recovery, none for an idle turn.
    #[verifier::when_used_as_spec(spec_elapsed)]
    pub fn elapsed(self) -> (waited: Option<Winner>)
        ensures
            waited == self.spec_elapsed(),
    {
        match self {
            Outcome::Infected(_) => Some(Winner::Infection),
            Outcome::Wasted(_) => Some(Winner::Infection),
            Outcome::Recovered(_) => Some(Winner::Recovery),
            Outcome::Idle => None,
        }
    }

    /// The status to send to the event report: that of a committed
    /// transition where reporting is switched on, nothing otherwise.
    pub fn report(self, enable_stats: bool) -> (status: Option<InfectionStatus>)
        ensures
            status == if enable_stats {
                self.spec_new_status()
            } else {
                None::<InfectionStatus>
            },
    {
        if enable_stats {
            self.new_status()
        } else {
            None
        }
    }

    /// The status that an individual took on, where one did.
    #[verifier::when_used_as_spec(spec_new_status)]
    pub fn new_status(self) -> (status: Option<InfectionStatus>)
        ensures
            status == self.spec_new_status(),
    {
        match self {
            Outcome::Infected(_) => Some(InfectionStatus::Infectious),
            Outcome::Recovered(_) => Some(InfectionStatus::Recovered),
            Outcome::Wasted(_) => None,
            Outcome::Idle => None,
        }
    }
}

/// A run as the contracts see it: the population and the counters.
pub struct Snapshot {
    pub people: Partitions,
    pub tally: Tally,
}

impl Snapshot {
    /// The partitions are exact, no more infections have been counted than
    /// individuals have left the susceptible partition, and the prevalence,
    /// where it is followed, is the size of the infectious partition.
    pub open spec fn wf(self) -> bool {
        &&& self.people.wf()
        &&& self.tally.cum_incidence <= self.people.infectious.len() + self.people.recovered.len()
        &&& self.tally.prevalence matches Some(count) ==> count == self.people.infectious.len()
    }

    /// The phase of the event loop: it has terminated once nobody is
    /// infectious or the clock has reached the horizon.
    pub open spec fn phase(self, horizon_reached: bool) -> Phase {
        if self.people.infectious.len() == 0 || horizon_reached {
            Phase::Terminated
        } else {
            Phase::Running
        }
    }

    /// What comes of an infection that falls on `candidate`, an individual
    /// drawn from the whole population.
    pub open spec fn attempt(self, candidate: PersonId) -> Outcome {
        if self.people.statuses[candidate@ as int] == InfectionStatus::Susceptible {
            Outcome::Infected(candidate)
        } else {
            Outcome::Wasted(candidate)
        }
    }

    /// The outcomes that a turn can have, given who won the race: they differ
    /// in the individual that was drawn. Infection falls on anybody in the
    /// population and takes only where it meets a susceptible individual;
    /// recovery falls on somebody infectious.
    pub open spec fn admits(self, winner: Winner, outcome: Outcome) -> bool {
        if self.people.infectious.len() == 0 {
            outcome == Outcome::Idle
        } else {
            match (winner, outcome) {
                (Winner::Infection, Outcome::Infected(person)) => {
                    &&& person@ < self.people.population()
                    &&& self.people.statuses[person@ as int] == InfectionStatus::Susceptible
                },
                (Winner::Infection, Outcome::Wasted(person)) => {
                    &&& person@ < self.people.population()
                    &&& self.people.statuses[person@ as int] != InfectionStatus::Susceptible
                },
                (Winner::Recovery, Outcome::Recovered(person)) => self.people.infectious.contains(
                    person@,
                ),
                _ => false,
            }
        }
    }

    /// The outcome speaks of an individual of this population whose status
    /// is what the outcome says it was.
    pub open spec fn fits(self, outcome: Outcome) -> bool {
        match outcome {
            Outcome::Infected(person) => {
                &&& person@ < self.people.population()
                &&& self.people.statuses[person@ as int] == InfectionStatus::Susceptible
            },
            Outcome::Wasted(person) => {
                &&& person@ < self.people.population()
                &&& self.people.statuses[person@ as int] != InfectionStatus::Susceptible
            },
            Outcome::Recovered(person) => {
                &&& person@ < self.people.population()
                &&& self.people.statuses[person@ as int] == InfectionStatus::Infectious
            },
            Outcome::Idle => true,
        }
    }

    /// The run after a turn with the given outcome.
    pub open spec fn after(self, outcome: Outcome) -> Snapshot {
        match outcome {
            Outcome::Infected(person) => Snapshot {
                people: self.people.moved(person@, InfectionStatus::Infectious),
                tally: self.tally.infected(),
            },
            Outcome::Recovered(person) => Snapshot {
                people: self.people.moved(person@, InfectionStatus::Recovered),
                tally: self.tally.recovered(),
            },
            Outcome::Wasted(_) => self,
            Outcome::Idle => self,
        }
    }

    /// Every outcome of the sequence fits the run that it meets when the
    /// outcomes are taken one after another.
    pub open spec fn plays(self, outcomes: Seq<Outcome>) -> bool
        decreases outcomes.len(),
    {
        if outcomes.len() == 0 {
            true
        } else {
            &&& self.plays(outcomes.drop_last())
            &&& self.replay(outcomes.drop_last()).fits(outcomes.last())
        }
    }

    /// The run after the turns with the given outcomes, one after another.
    pub open spec fn replay(self, outcomes: Seq<Outcome>) -> Snapshot
        decreases outcomes.len(),
    {
        if outcomes.len() == 0 {
            self
        } else {
            self.replay(outcomes.drop_last()).after(outcomes.last())
        }
    }

    /// `self` can have come about from `earlier`: nobody has gone back to a
    /// previous status, and the cumulative incidence has not fallen.
    pub open spec fn follows(self, earlier: Snapshot) -> bool {
        &&& self.people.follows(earlier.people)
        &&& self.tally.cum_incidence >= earlier.tally.cum_incidence
    }
}

/// An outcome that fits the run keeps it well formed and moves it forward
/// only. It uses up one of the transitions that remain where it commits, and
/// changes nothing at all where it does not.
pub proof fn lemma_outcome(run: Snapshot, outcome: Outcome)
    requires
        run.wf(),
        run.fits(outcome),
    ensures
        run.after(outcome).wf(),
        run.after(outcome).follows(run),
        outcome.commits() ==> run.after(outcome).people.remaining() == run.people.remaining() - 1,
        !outcome.commits() ==> run.after(outcome) == run,
{
    match outcome {
        Outcome::Infected(person) => {
            lemma_moved(run.people, person@, InfectionStatus::Infectious);
        },
        Outcome::Recovered(person) => {
            lemma_moved(run.people, person@, InfectionStatus::Recovered);
        },
        Outcome::Wasted(_) => {},
        Outcome::Idle => {},
    }
}

/// Every outcome that a turn can have fits the run, so a turn keeps the run
/// well formed and moves it forward only. A wasted draw leaves the population
/// and the counters as they were, though the clock moves by the waiting time
/// of the infection.
pub proof fn lemma_turn(run: Snapshot, winner: Winner, outcome: Outcome)
    requires
        run.wf(),
        run.admits(winner, outcome),
    ensures
        run.fits(outcome),
        run.after(outcome).wf(),
        run.after(outcome).follows(run),
        outcome.commits() ==> run.after(outcome).people.remaining() == run.people.remaining() - 1,
        outcome matches Outcome::Wasted(_) ==> run.after(outcome) == run && outcome.elapsed()
            == Some(Winner::Infection),
{
    if let Outcome::Recovered(person) = outcome {
        lemma_member_status(run.people, InfectionStatus::Infectious, person@);
    }
    lemma_outcome(run, outcome);
}

/// How many outcomes of a sequence commit.
pub open spec fn commits_among(outcomes: Seq<Outcome>) -> nat
    decreases outcomes.len(),
{
    if outcomes.len() == 0 {
        0
    } else {
        commits_among(outcomes.drop_last()) + if outcomes.last().commits() {
            1nat
        } else {
            0nat
        }
    }
}

/// Whatever turns a well-formed run goes through, in whatever number: its
/// partitions stay exact, nobody goes back to a previous status, so that
/// nobody leaves `Recovered`, the cumulative incidence does not fall, and the
/// turns that commit are no more than the transitions that remained at the
/// start. A loop over such turns can therefore commit only finitely often.
pub proof fn lemma_sequence_of_turns(run: Snapshot, outcomes: Seq<Outcome>)
    requires
        run.wf(),
        run.plays(outcomes),
    ensures
        run.replay(outcomes).wf(),
        run.replay(outcomes).follows(run),
        run.replay(outcomes).people.remaining() + commits_among(outcomes)
            == run.people.remaining(),
        commits_among(outcomes) <= 2 * run.people.population(),
        run.replay(outcomes).people.population() == run.people.population(),
    decreases outcomes.len(),
{
    if outcomes.len() > 0 {
        let before = run.replay(outcomes.drop_last());
        lemma_sequence_of_turns(run, outcomes.drop_last());
        lemma_outcome(before, outcomes.last());
        lemma_run_follows_transitive(run, before, before.after(outcomes.last()));
    }
}

/// The one freedom in a turn is the individual that is drawn: two turns of
/// the same run, with the same winner and the same individual drawn, have
/// the same outcome and leave the same run behind.
pub proof fn lemma_turn_determined_by_draw(
    run: Snapshot,
    winner: Winner,
    first: Outcome,
    second: Outcome,
)
    requires
        run.admits(winner, first),
        run.admits(winner, second),
        first.person() == second.person(),
    ensures
        first == second,
        run.after(first) == run.after(second),
{
}

/// At most twice as many turns commit as the population has individuals: the
/// transitions that remain are never more than that, and each commit uses up
/// one.
pub proof fn lemma_remaining_bounded(run: Snapshot)
    requires
        run.wf(),
    ensures
        run.people.remaining() <= 2 * run.people.population(),
{
}

/// A run follows itself.
pub proof fn lemma_run_follows_reflexive(run: Snapshot)
    ensures
        run.follows(run),
{
}

/// Whatever follows a successor of a run follows that run. So over any
/// sequence of operations nobody leaves `Recovered` and the cumulative
/// incidence does not fall.
pub proof fn lemma_run_follows_transitive(first: Snapshot, second: Snapshot, third: Snapshot)
    requires
        second.follows(first),
        third.follows(second),
    ensures
        third.follows(first),
{
    lemma_follows_transitive(first.people, second.people, third.people);
}

/// The cumulative incidence of a run is never below that of a run it follows.
pub proof fn lemma_incidence_monotonic(earlier: Snapshot, later: Snapshot)
    requires
        later.follows(earlier),
    ensures
        later.tally.cum_incidence >= earlier.tally.cum_incidence,
{
}

/// The event loop has terminated exactly when nobody is infectious or the
/// clock has reached the horizon.
pub proof fn lemma_terminated(run: Snapshot, horizon_reached: bool)
    ensures
        run.phase(horizon_reached) == Phase::Terminated <==> (run.people.infectious.len() == 0
            || horizon_reached),
{
}

} // verus!
