use crate::sir::baseline::InfectionStatus;
use crate::sir::indexed::swap_removed;
use vstd::prelude::*;

verus! {

/// The state of a population as the contracts see it: the status of every
/// individual, and for each status the individuals that have it, in the order
/// in which positions are drawn from.
pub struct Partitions {
    pub statuses: Seq<InfectionStatus>,
    pub susceptible: Seq<usize>,
    pub infectious: Seq<usize>,
    pub recovered: Seq<usize>,
}

impl Partitions {
    pub open spec fn empty() -> Partitions {
        Partitions {
            statuses: Seq::empty(),
            susceptible: Seq::empty(),
            infectious: Seq::empty(),
            recovered: Seq::empty(),
        }
    }

    pub open spec fn population(self) -> nat {
        self.statuses.len()
    }

    /// The individuals of one status.
    pub open spec fn members(self, status: InfectionStatus) -> Seq<usize> {
        match status {
            InfectionStatus::Susceptible => self.susceptible,
            InfectionStatus::Infectious => self.infectious,
            InfectionStatus::Recovered => self.recovered,
        }
    }

    /// The partition of `status` lists, without repetition, exactly the
    /// individuals whose status it is.
    pub open spec fn lists(self, status: InfectionStatus) -> bool {
        let part = self.members(status);
        &&& part.no_duplicates()
        &&& forall|k: int|
            0 <= k < part.len() ==> (#[trigger] part[k]) < self.statuses.len()
                && self.statuses[part[k] as int] == status
        &&& forall|p: int|
            0 <= p < self.statuses.len() && #[trigger] self.statuses[p] == status
                ==> part.contains(p as usize)
    }

    /// Every individual stands in the one partition that matches its status,
    /// the partitions together hold as many as the population counts, and
    /// every index fits the machine.
    pub open spec fn wf(self) -> bool {
        &&& self.lists(InfectionStatus::Susceptible)
        &&& self.lists(InfectionStatus::Infectious)
        &&& self.lists(InfectionStatus::Recovered)
        &&& self.susceptible.len() + self.infectious.len() + self.recovered.len()
            == self.statuses.len()
        &&& self.statuses.len() <= usize::MAX
    }

    /// The population with one more individual of the given status.
    pub open spec fn with_person(self, status: InfectionStatus) -> Partitions {
        let id = self.statuses.len() as usize;
        match status {
            InfectionStatus::Susceptible => Partitions {
                statuses: self.statuses.push(status),
                susceptible: self.susceptible.push(id),
                ..self
            },
            InfectionStatus::Infectious => Partitions {
                statuses: self.statuses.push(status),
                infectious: self.infectious.push(id),
                ..self
            },
            InfectionStatus::Recovered => Partitions {
                statuses: self.statuses.push(status),
                recovered: self.recovered.push(id),
                ..self
            },
        }
    }

    /// The two transitions there are: a susceptible individual becomes
    /// infectious, an infectious one recovers.
    pub open spec fn legal(self, id: usize, to: InfectionStatus) -> bool {
        &&& id < self.statuses.len()
        &&& to.stage() == self.statuses[id as int].stage() + 1
    }

    /// The population after individual `id` has moved to status `to`: it
    /// leaves its partition by a swap removal and goes to the end of the next.
    pub open spec fn moved(self, id: usize, to: InfectionStatus) -> Partitions {
        match to {
            InfectionStatus::Susceptible => self,
            InfectionStatus::Infectious => Partitions {
                statuses: self.statuses.update(id as int, to),
                susceptible: swap_removed(self.susceptible, id),
                infectious: self.infectious.push(id),
                recovered: self.recovered,
            },
            InfectionStatus::Recovered => Partitions {
                statuses: self.statuses.update(id as int, to),
                susceptible: self.susceptible,
                infectious: swap_removed(self.infectious, id),
                recovered: self.recovered.push(id),
            },
        }
    }

    /// `self` can have come about from `earlier`: nobody has left the
    /// population and nobody has gone back to a previous status.
    pub open spec fn follows(self, earlier: Partitions) -> bool {
        &&& earlier.statuses.len() <= self.statuses.len()
        &&& forall|p: int|
            0 <= p < earlier.statuses.len() ==> (#[trigger] earlier.statuses[p]).stage()
                <= self.statuses[p].stage()
    }

    /// The number of transitions that the population can still make: two for
    /// each susceptible individual, one for each infectious one.
    pub open spec fn remaining(self) -> nat {
        2 * self.susceptible.len() + self.infectious.len()
    }
}

/// A value that a duplicate-free sequence lacks can be appended: the result
/// has no duplicates and holds that value besides the old ones.
pub proof fn lemma_push_fresh(items: Seq<usize>, value: usize)
    requires
        items.no_duplicates(),
        !items.contains(value),
    ensures
        items.push(value).no_duplicates(),
        forall|x: usize| #[trigger]
            items.push(value).contains(x) <==> items.contains(x) || x == value,
{
    let pushed = items.push(value);
    assert forall|i: int, j: int| 0 <= i < pushed.len() && 0 <= j < pushed.len() && i != j
        implies pushed[i] != pushed[j] by {
        if i < items.len() {
            assert(items.contains(items[i]));
        }
        if j < items.len() {
            assert(items.contains(items[j]));
        }
    }
    assert forall|x: usize| #[trigger]
        pushed.contains(x) <==> items.contains(x) || x == value by {
        if items.contains(x) {
            let k = choose|k: int| 0 <= k < items.len() && items[k] == x;
            assert(pushed[k] == x);
        }
        if x == value {
            assert(pushed[items.len() as int] == x);
        }
        if pushed.contains(x) {
            let k = choose|k: int| 0 <= k < pushed.len() && pushed[k] == x;
            if k < items.len() {
                assert(items[k] == x);
            }
        }
    }
}

/// A swap removal from a duplicate-free sequence takes out the one value
/// asked for and nothing else, and leaves no duplicates.
pub proof fn lemma_swap_removed(items: Seq<usize>, value: usize)
    requires
        items.no_duplicates(),
        items.contains(value),
    ensures
        swap_removed(items, value).no_duplicates(),
        swap_removed(items, value).len() == items.len() - 1,
        forall|x: usize| #[trigger]
            swap_removed(items, value).contains(x) <==> items.contains(x) && x != value,
{
    let at = items.index_of(value);
    let last = items.len() - 1;
    let rest = swap_removed(items, value);
    assert(0 <= at < items.len() && items[at] == value);
    assert forall|i: int| 0 <= i < rest.len() implies #[trigger] rest[i] == (if i == at {
        items[last]
    } else {
        items[i]
    }) by {}
    assert forall|i: int, j: int| 0 <= i < rest.len() && 0 <= j < rest.len() && i != j
        implies rest[i] != rest[j] by {}
    assert forall|x: usize| #[trigger] rest.contains(x) <==> items.contains(x) && x != value by {
        if rest.contains(x) {
            let k = choose|k: int| 0 <= k < rest.len() && rest[k] == x;
            if k == at {
                assert(items[last] == x);
            } else {
                assert(items[k] == x);
            }
        }
        if items.contains(x) && x != value {
            let k = choose|k: int| 0 <= k < items.len() && items[k] == x;
            if k == last {
                assert(rest[at] == x);
            } else {
                assert(rest[k] == x);
            }
        }
    }
}

/// Adding an individual keeps the partitions exact.
pub proof fn lemma_with_person(people: Partitions, status: InfectionStatus)
    requires
        people.wf(),
        people.statuses.len() < usize::MAX,
    ensures
        people.with_person(status).wf(),
        people.with_person(status).follows(people),
        people.with_person(status).statuses.len() == people.statuses.len() + 1,
{
    let after = people.with_person(status);
    let id = people.statuses.len() as usize;
    let part = people.members(status);
    assert(!part.contains(id)) by {
        if part.contains(id) {
            let k = choose|k: int| 0 <= k < part.len() && part[k] == id;
            assert(part[k] < people.statuses.len());
        }
    }
    lemma_push_fresh(part, id);
    assert(after.members(status) == part.push(id));
    assert forall|other: InfectionStatus| #[trigger] after.lists(other) by {
        let old_part = people.members(other);
        let new_part = after.members(other);
        assert(people.lists(other));
        assert forall|k: int| 0 <= k < new_part.len() implies (#[trigger] new_part[k])
            < after.statuses.len() && after.statuses[new_part[k] as int] == other by {
            if k < old_part.len() {
                assert(new_part[k] == old_part[k]);
            }
        }
        assert forall|p: int|
            0 <= p < after.statuses.len() && #[trigger] after.statuses[p] == other
                implies new_part.contains(p as usize) by {
            if p < people.statuses.len() {
                assert(people.statuses[p] == other);
                assert(old_part.contains(p as usize));
            }
        }
    }
}

/// A legal transition keeps the partitions exact, moves nobody backwards and
/// uses up one of the transitions that remain.
pub proof fn lemma_moved(people: Partitions, id: usize, to: InfectionStatus)
    requires
        people.wf(),
        people.legal(id, to),
    ensures
        people.moved(id, to).wf(),
        people.moved(id, to).follows(people),
        people.moved(id, to).statuses == people.statuses.update(id as int, to),
        people.moved(id, to).remaining() == people.remaining() - 1,
        people.members(people.statuses[id as int]).contains(id),
{
    let from = people.statuses[id as int];
    let after = people.moved(id, to);
    let source = people.members(from);
    let target = people.members(to);
    assert(people.lists(from));
    assert(people.lists(to));
    assert(source.contains(id));
    assert(!target.contains(id)) by {
        if target.contains(id) {
            let k = choose|k: int| 0 <= k < target.len() && target[k] == id;
            assert(people.statuses[target[k] as int] == to);
        }
    }
    lemma_swap_removed(source, id);
    lemma_push_fresh(target, id);
    assert(after.members(from) == swap_removed(source, id));
    assert(after.members(to) == target.push(id));
    assert forall|other: InfectionStatus| #[trigger] after.lists(other) by {
        let old_part = people.members(other);
        let new_part = after.members(other);
        assert(people.lists(other));
        assert forall|k: int| 0 <= k < new_part.len() implies (#[trigger] new_part[k])
            < after.statuses.len() && after.statuses[new_part[k] as int] == other by {
            let x = new_part[k];
            assert(new_part.contains(x));
            if other == to {
                if x != id {
                    assert(old_part.contains(x));
                    let j = choose|j: int| 0 <= j < old_part.len() && old_part[j] == x;
                    assert(people.statuses[old_part[j] as int] == other);
                }
            } else {
                assert(old_part.contains(x));
                let j = choose|j: int| 0 <= j < old_part.len() && old_part[j] == x;
                assert(people.statuses[old_part[j] as int] == other);
                assert(x != id);
            }
        }
        assert forall|p: int|
            0 <= p < after.statuses.len() && #[trigger] after.statuses[p] == other
                implies new_part.contains(p as usize) by {
            if p != id {
                assert(people.statuses[p] == other);
                assert(old_part.contains(p as usize));
            }
        }
    }
}

/// A population follows itself.
pub proof fn lemma_follows_reflexive(people: Partitions)
    ensures
        people.follows(people),
{
}

/// Whatever follows a successor of a population follows that population: no
/// sequence of operations undoes a step.
pub proof fn lemma_follows_transitive(first: Partitions, second: Partitions, third: Partitions)
    requires
        second.follows(first),
        third.follows(second),
    ensures
        third.follows(first),
{
    assert forall|p: int| 0 <= p < first.statuses.len() implies (#[trigger] first.statuses[p]).stage()
        <= third.statuses[p].stage() by {
        assert(first.statuses[p].stage() <= second.statuses[p].stage());
        assert(second.statuses[p].stage() <= third.statuses[p].stage());
    }
}

/// Recovered is absorbing: who has recovered is recovered in every population
/// that follows.
pub proof fn lemma_recovered_is_absorbing(earlier: Partitions, later: Partitions, id: usize)
    requires
        later.follows(earlier),
        id < earlier.statuses.len(),
        earlier.statuses[id as int] == InfectionStatus::Recovered,
    ensures
        id < later.statuses.len(),
        later.statuses[id as int] == InfectionStatus::Recovered,
{
    assert(earlier.statuses[id as int].stage() <= later.statuses[id as int].stage());
}

/// No transition leaves `Recovered`.
pub proof fn lemma_no_way_out_of_recovered(people: Partitions, id: usize, to: InfectionStatus)
    requires
        people.legal(id, to),
    ensures
        people.statuses[id as int] != InfectionStatus::Recovered,
{
}

/// The partitions of a well-formed population are pairwise disjoint, and their
/// sizes add up to the size of the population.
pub proof fn lemma_partitions_disjoint_and_exhaustive(people: Partitions, id: usize)
    requires
        people.wf(),
    ensures
        !(people.susceptible.contains(id) && people.infectious.contains(id)),
        !(people.susceptible.contains(id) && people.recovered.contains(id)),
        !(people.infectious.contains(id) && people.recovered.contains(id)),
        id < people.population() ==> people.members(people.statuses[id as int]).contains(id),
        people.susceptible.len() + people.infectious.len() + people.recovered.len()
            == people.population(),
{
    if people.susceptible.contains(id) {
        lemma_member_status(people, InfectionStatus::Susceptible, id);
    }
    if people.infectious.contains(id) {
        lemma_member_status(people, InfectionStatus::Infectious, id);
    }
    if people.recovered.contains(id) {
        lemma_member_status(people, InfectionStatus::Recovered, id);
    }
    if id < people.population() {
        let status = people.statuses[id as int];
        assert(people.lists(status));
    }
}

/// Who stands in a partition has the status of that partition.
pub proof fn lemma_member_status(people: Partitions, status: InfectionStatus, id: usize)
    requires
        people.wf(),
        people.members(status).contains(id),
    ensures
        id < people.population(),
        people.statuses[id as int] == status,
{
    let part = people.members(status);
    assert(people.lists(status));
    let k = choose|k: int| 0 <= k < part.len() && part[k] == id;
    assert(part[k] < people.statuses.len());
}

} // verus!
