use crate::sir::baseline::{InfectionStatus, PersonId};
use crate::sir::indexed::{members, set_get_index, set_insert, set_len, set_new, set_swap_remove};
use crate::sir::partition::{lemma_member_status, lemma_moved, lemma_with_person, Partitions};
use crate::sir::random::uniform_index;
use indexmap::IndexSet;
use rand::rngs::SmallRng;
use vstd::prelude::*;

verus! {

/// A closed population: the status of each individual, and one index set per
/// status, so that a member of any status is found by position, and moved, in
/// constant time.
pub struct Population {
    lookup: Vec<InfectionStatus>,
    susceptible: IndexSet<usize>,
    infectious: IndexSet<usize>,
    recovered: IndexSet<usize>,
}

impl View for Population {
    type V = Partitions;

    closed spec fn view(&self) -> Partitions {
        Partitions {
            statuses: self.lookup@,
            susceptible: members(self.susceptible),
            infectious: members(self.infectious),
            recovered: members(self.recovered),
        }
    }
}

impl Population {
    /// The partitions are exact (see [`Partitions::wf`]).
    pub open spec fn wf(&self) -> bool {
        self@.wf()
    }

    pub fn new() -> (population: Population)
        ensures
            population@ == Partitions::empty(),
            population.wf(),
    {
        let population = Population {
            lookup: Vec::new(),
            susceptible: set_new(),
            infectious: set_new(),
            recovered: set_new(),
        };
        assert(population@.statuses =~= Seq::empty());
        population
    }

    /// The number of individuals.
    pub fn len(&self) -> (n: usize)
        ensures
            n == self@.population(),
    {
        self.lookup.len()
    }

    /// Appends an individual of the given status and returns its identifier,
    /// which is the size that the population had.
    pub fn add_person(&mut self, status: InfectionStatus) -> (person: PersonId)
        requires
            old(self).wf(),
            old(self)@.population() < usize::MAX,
        ensures
            final(self)@ == old(self)@.with_person(status),
            person@ == old(self)@.population(),
            final(self).wf(),
            final(self)@.follows(old(self)@),
    {
        proof {
            lemma_with_person(self@, status);
            let part = self@.members(status);
            let id = self@.statuses.len() as usize;
            if part.contains(id) {
                lemma_member_status(self@, status, id);
            }
        }
        let id = self.lookup.len();
        self.lookup.push(status);
        match status {
            InfectionStatus::Susceptible => {
                set_insert(&mut self.susceptible, id);
            },
            InfectionStatus::Infectious => {
                set_insert(&mut self.infectious, id);
            },
            InfectionStatus::Recovered => {
                set_insert(&mut self.recovered, id);
            },
        }
        PersonId::new(id)
    }

    /// The status of an individual of this population.
    pub fn get_status(&self, person: PersonId) -> (status: InfectionStatus)
        requires
            person@ < self@.population(),
        ensures
            status == self@.statuses[person@ as int],
    {
        self.lookup[person.index()]
    }

    /// The status of `person`, or nothing for an identifier that this
    /// population has not given out.
    pub fn status_of(&self, person: PersonId) -> (status: Option<InfectionStatus>)
        ensures
            status == if person@ < self@.population() {
                Some(self@.statuses[person@ as int])
            } else {
                None::<InfectionStatus>
            },
    {
        if person.index() < self.lookup.len() {
            Some(self.lookup[person.index()])
        } else {
            None
        }
    }

    /// The number of individuals of one status.
    pub fn count(&self, status: InfectionStatus) -> (n: usize)
        ensures
            n == self@.members(status).len(),
    {
        match status {
            InfectionStatus::Susceptible => set_len(&self.susceptible),
            InfectionStatus::Infectious => set_len(&self.infectious),
            InfectionStatus::Recovered => set_len(&self.recovered),
        }
    }

    /// The individual at position `index` among those of one status, or
    /// nothing where there are not that many.
    pub fn member_at(&self, status: InfectionStatus, index: usize) -> (person: Option<PersonId>)
        ensures
            person.is_some() == (index < self@.members(status).len()),
            person matches Some(p) ==> p@ == self@.members(status)[index as int],
    {
        let found = match status {
            InfectionStatus::Susceptible => set_get_index(&self.susceptible, index),
            InfectionStatus::Infectious => set_get_index(&self.infectious, index),
            InfectionStatus::Recovered => set_get_index(&self.recovered, index),
        };
        match found {
            Some(id) => Some(PersonId::new(id)),
            None => None,
        }
    }

    /// Moves `person` on to `new_status`: out of the partition it stands in,
    /// by a swap removal, and to the end of the next. Only the two legal
    /// transitions are accepted.
    pub fn transition(&mut self, person: PersonId, new_status: InfectionStatus)
        requires
            old(self).wf(),
            old(self)@.legal(person@, new_status),
        ensures
            final(self)@ == old(self)@.moved(person@, new_status),
            final(self).wf(),
            final(self)@.follows(old(self)@),
            final(self)@.remaining() == old(self)@.remaining() - 1,
    {
        proof {
            lemma_moved(self@, person@, new_status);
            let target = self@.members(new_status);
            if target.contains(person@) {
                lemma_member_status(self@, new_status, person@);
            }
        }
        let id = person.index();
        match new_status {
            InfectionStatus::Susceptible => {},
            InfectionStatus::Infectious => {
                set_swap_remove(&mut self.susceptible, id);
                set_insert(&mut self.infectious, id);
            },
            InfectionStatus::Recovered => {
                set_swap_remove(&mut self.infectious, id);
                set_insert(&mut self.recovered, id);
            },
        }
        self.lookup[id] = new_status;
    }

    /// Draws a member of one status, every position being as likely as any
    /// other. There has to be such a member.
    pub fn sample_uniform_member(&self, rng: &mut SmallRng, status: InfectionStatus) -> (person:
        PersonId)
        requires
            self.wf(),
            self@.members(status).len() > 0,
        ensures
            self@.members(status).contains(person@),
            person@ < self@.population(),
            self@.statuses[person@ as int] == status,
    {
        let index = uniform_index(rng, self.count(status));
        let found = self.member_at(status, index);
        proof {
            let part = self@.members(status);
            assert(part.contains(part[index as int]));
            lemma_member_status(self@, status, part[index as int]);
        }
        found.unwrap()
    }

    /// Draws an individual from the whole population, whatever its status.
    /// The population must not be empty.
    pub fn sample_uniform_from_population(&self, rng: &mut SmallRng) -> (person: PersonId)
        requires
            self@.population() > 0,
        ensures
            person@ < self@.population(),
    {
        PersonId::new(uniform_index(rng, self.lookup.len()))
    }
}

} // verus!
