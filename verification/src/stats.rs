use vstd::prelude::*;

verus! {

/// What a statistics collector has counted so far.
///
/// `prevalence` is `None` for a collector that follows cumulative incidence
/// only, and `Some(count)` for one that also follows the number of currently
/// infectious individuals.
pub struct Tally {
    pub cum_incidence: nat,
    pub prevalence: Option<nat>,
}

impl Tally {
    /// The tally after one more infection.
    pub open spec fn infected(self) -> Tally {
        Tally {
            cum_incidence: self.cum_incidence + 1,
            prevalence: match self.prevalence {
                Some(count) => Some(count + 1),
                None => None,
            },
        }
    }

    /// The tally once `seeds` individuals have been infected at setup: a
    /// collector that follows incidence only counts them as infections, one
    /// that follows prevalence starts from them.
    pub open spec fn seeded(self, seeds: nat) -> Tally {
        match self.prevalence {
            Some(count) => Tally { cum_incidence: self.cum_incidence, prevalence: Some(count + seeds) },
            None => Tally { cum_incidence: self.cum_incidence + seeds, prevalence: None },
        }
    }

    /// The tally after one more recovery. Cumulative incidence never moves on
    /// a recovery.
    pub open spec fn recovered(self) -> Tally {
        Tally {
            cum_incidence: self.cum_incidence,
            prevalence: match self.prevalence {
                Some(count) => Some((count - 1) as nat),
                None => None,
            },
        }
    }
}

/// Counters of one run: cumulative incidence, and optionally prevalence.
pub struct ModelStats {
    cum_incidence: usize,
    prevalence: Option<usize>,
}

impl View for ModelStats {
    type V = Tally;

    closed spec fn view(&self) -> Tally {
        Tally {
            cum_incidence: self.cum_incidence as nat,
            prevalence: match self.prevalence {
                Some(count) => Some(count as nat),
                None => None,
            },
        }
    }
}

impl ModelStats {
    /// A collector that follows incidence and prevalence, the latter starting
    /// at `initial_infections`.
    pub fn new(initial_infections: usize) -> (stats: Self)
        ensures
            stats@ == (Tally { cum_incidence: 0, prevalence: Some(initial_infections as nat) }),
    {
        Self { cum_incidence: 0, prevalence: Some(initial_infections) }
    }

    /// A collector that follows cumulative incidence only.
    pub fn incidence_only() -> (stats: Self)
        ensures
            stats@ == (Tally { cum_incidence: 0, prevalence: None }),
    {
        Self { cum_incidence: 0, prevalence: None }
    }

    /// Sets the prevalence to `value`; from here on the collector follows it.
    pub fn set_prevalence(&mut self, value: usize)
        ensures
            final(self)@ == (Tally {
                cum_incidence: old(self)@.cum_incidence,
                prevalence: Some(value as nat),
            }),
    {
        self.prevalence = Some(value);
    }

    /// Counts one recovery: prevalence, where followed, goes down by one.
    pub fn record_recovery(&mut self)
        requires
            old(self)@.prevalence != Some(0nat),
        ensures
            final(self)@ == old(self)@.recovered(),
    {
        match self.prevalence {
            Some(count) => {
                self.prevalence = Some(count - 1);
            },
            None => {},
        }
    }

    /// Counts one infection: cumulative incidence goes up by exactly one, and
    /// so does prevalence where it is followed.
    pub fn record_infection(&mut self)
        requires
            old(self)@.cum_incidence < usize::MAX,
            old(self)@.prevalence matches Some(count) ==> count < usize::MAX,
        ensures
            final(self)@ == old(self)@.infected(),
    {
        self.cum_incidence = self.cum_incidence + 1;
        match self.prevalence {
            Some(count) => {
                self.prevalence = Some(count + 1);
            },
            None => {},
        }
    }

    pub fn get_cum_incidence(&self) -> (count: usize)
        ensures
            count == self@.cum_incidence,
    {
        self.cum_incidence
    }

    /// The prevalence where it is followed, and zero where it is not.
    pub fn get_prevalence(&self) -> (count: usize)
        ensures
            count == match self@.prevalence {
                Some(count) => count,
                None => 0,
            },
    {
        match self.prevalence {
            Some(count) => count,
            None => 0,
        }
    }

    pub fn follows_prevalence(&self) -> (followed: bool)
        ensures
            followed == self@.prevalence.is_some(),
    {
        self.prevalence.is_some()
    }
}

/// An infection followed by a recovery leaves the prevalence where it was and
/// the cumulative incidence one higher.
pub proof fn lemma_infection_then_recovery(tally: Tally)
    ensures
        tally.infected().recovered() == (Tally {
            cum_incidence: tally.cum_incidence + 1,
            prevalence: tally.prevalence,
        }),
{
}

/// Neither an infection nor a recovery lowers the cumulative incidence.
pub proof fn lemma_incidence_never_falls(tally: Tally)
    ensures
        tally.infected().cum_incidence >= tally.cum_incidence,
        tally.recovered().cum_incidence >= tally.cum_incidence,
{
}

} // verus!
