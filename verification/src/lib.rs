pub mod base;
pub mod sir;
pub mod stats;

use crate::base::{Parameters, SIRModel};
use crate::sir::baseline::Context;
use crate::sir::event::{Outcome, Phase, Snapshot, Winner};
use crate::sir::ixa::Model;
use crate::sir::partition::Partitions;
use crate::sir::population::Population;
use crate::stats::{ModelStats, Tally};
use rand::rngs::SmallRng;
use vstd::prelude::*;

verus! {

/// The engines that a run can be made with.
#[derive(Copy, Clone, Debug, PartialEq, Eq, Structural)]
pub enum ModelKind {
    Baseline,
    Ixa,
    IxaNoQueries,
}

/// An engine of either make, behind the one interface that a driver uses.
pub enum Engine {
    Baseline(Context),
    Ixa(Model),
}

impl ModelKind {
    /// Every kind, in the order in which they run by default.
    pub fn all() -> (kinds: Vec<Self>)
        ensures
            kinds@ == seq![ModelKind::Baseline, ModelKind::Ixa, ModelKind::IxaNoQueries],
    {
        let mut kinds = Vec::new();
        kinds.push(ModelKind::Baseline);
        kinds.push(ModelKind::Ixa);
        kinds.push(ModelKind::IxaNoQueries);
        kinds
    }

    /// The kinds to run: the one asked for, or all of them.
    pub fn selection(model: Option<ModelKind>) -> (kinds: Vec<ModelKind>)
        ensures
            kinds@ == match model {
                Some(kind) => seq![kind],
                None => seq![ModelKind::Baseline, ModelKind::Ixa, ModelKind::IxaNoQueries],
            },
    {
        match model {
            Some(kind) => {
                let mut kinds = Vec::new();
                kinds.push(kind);
                kinds
            },
            None => ModelKind::all(),
        }
    }

    /// The configuration that an engine of this kind is made with: the one
    /// given, but for `IxaNoQueries`, which switches queries off.
    pub open spec fn configured(self, params: Parameters) -> Parameters {
        match self {
            ModelKind::IxaNoQueries => Parameters { disable_queries: true, ..params },
            _ => params,
        }
    }

    /// Makes an engine of this kind, not yet set up. Only the baseline kind
    /// gives the hand-rolled engine, which follows incidence only; the other
    /// two give the framework-style engine, which follows prevalence too.
    pub fn into_model(self, params: Parameters) -> (model: Engine)
        ensures
            model is Baseline <==> self == ModelKind::Baseline,
            model.params() == self.configured(params),
            model.snapshot() == (Snapshot {
                people: Partitions::empty(),
                tally: Tally {
                    cum_incidence: 0,
                    prevalence: if self == ModelKind::Baseline {
                        None
                    } else {
                        Some(0nat)
                    },
                },
            }),
            model.wf(),
    {
        match self {
            ModelKind::Baseline => Engine::Baseline(Context::new(params)),
            ModelKind::Ixa => Engine::Ixa(Model::new(params)),
            ModelKind::IxaNoQueries => Engine::Ixa(
                Model::new(Parameters { disable_queries: true, ..params }),
            ),
        }
    }
}

impl SIRModel for Engine {
    open spec fn snapshot(&self) -> Snapshot {
        match self {
            Engine::Baseline(context) => context.snapshot(),
            Engine::Ixa(model) => model.snapshot(),
        }
    }

    open spec fn params(&self) -> Parameters {
        match self {
            Engine::Baseline(context) => context.params(),
            Engine::Ixa(model) => model.params(),
        }
    }

    open spec fn name(&self) -> Seq<char> {
        match self {
            Engine::Baseline(_) => "baseline"@,
            Engine::Ixa(_) => "ixa"@,
        }
    }

    open spec fn wf(&self) -> bool {
        match self {
            Engine::Baseline(context) => context.wf(),
            Engine::Ixa(model) => model.wf(),
        }
    }

    proof fn lemma_wf(&self) {
    }

    fn id(&self) -> (name: &'static str) {
        match self {
            Engine::Baseline(context) => context.id(),
            Engine::Ixa(model) => model.id(),
        }
    }

    fn get_stats(&self) -> (stats: &ModelStats) {
        match self {
            Engine::Baseline(context) => context.get_stats(),
            Engine::Ixa(model) => model.get_stats(),
        }
    }

    fn get_params(&self) -> (parameters: &Parameters) {
        match self {
            Engine::Baseline(context) => context.get_params(),
            Engine::Ixa(model) => model.get_params(),
        }
    }

    fn get_population(&self) -> (population: &Population) {
        match self {
            Engine::Baseline(context) => context.get_population(),
            Engine::Ixa(model) => model.get_population(),
        }
    }

    fn rng(&mut self) -> (rng: &mut SmallRng) {
        match self {
            Engine::Baseline(context) => context.rng(),
            Engine::Ixa(model) => model.rng(),
        }
    }

    open spec fn generator(&self) -> SmallRng {
        match self {
            Engine::Baseline(context) => context.generator(),
            Engine::Ixa(model) => model.generator(),
        }
    }

    fn infectious_people(&self) -> (n: usize) {
        match self {
            Engine::Baseline(context) => context.infectious_people(),
            Engine::Ixa(model) => model.infectious_people(),
        }
    }

    fn phase(&self, horizon_reached: bool) -> (phase: Phase) {
        match self {
            Engine::Baseline(context) => context.phase(horizon_reached),
            Engine::Ixa(model) => model.phase(horizon_reached),
        }
    }

    fn setup(&mut self)
        ensures
            (*final(self)) is Baseline <==> (*old(self)) is Baseline,
    {
        match self {
            Engine::Baseline(context) => context.setup(),
            Engine::Ixa(model) => model.setup(),
        }
    }

    fn next_event(&mut self, winner: Winner) -> (outcome: Outcome)
        ensures
            (*final(self)) is Baseline <==> (*old(self)) is Baseline,
    {
        match self {
            Engine::Baseline(context) => context.next_event(winner),
            Engine::Ixa(model) => model.next_event(winner),
        }
    }
}

/// Whether an epidemic took off: more than half of the population was
/// infected in the course of the run.
pub fn attack_rate_reached(cum_incidence: usize, population: usize) -> (reached: bool)
    ensures
        reached == (cum_incidence > population / 2),
{
    cum_incidence > population / 2
}

} // verus!
