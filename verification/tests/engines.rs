use rand::Rng;
use rand_distr::Exp;
use sir_bench::base::{Parameters, SIRModel};
use sir_bench::sir::baseline::{Context, InfectionStatus};
use sir_bench::sir::event::{Outcome, Phase, Winner};
use sir_bench::sir::ixa::{InfectionStatusValue, Model};
use sir_bench::{attack_rate_reached, Engine, ModelKind};

struct Rates {
    r0: f64,
    infectious_period: f64,
    max_time: f64,
}

struct Log {
    time: f64,
    events: Vec<(f64, Outcome)>,
}

fn drive<M: SIRModel>(model: &mut M, rates: &Rates) -> Log {
    let mut log = Log { time: 0.0, events: Vec::new() };
    let infection_rate = rates.r0 / rates.infectious_period;
    while model.phase(log.time >= rates.max_time) == Phase::Running {
        let n = model.infectious_people() as f64;
        let infection_time: f64 = model.rng().sample(Exp::new(infection_rate * n).unwrap());
        let recovery_time: f64 = model.rng().sample(Exp::new(n / rates.infectious_period).unwrap());
        let winner = if infection_time < recovery_time {
            Winner::Infection
        } else {
            Winner::Recovery
        };
        let outcome = model.next_event(winner);
        match outcome.elapsed() {
            Some(Winner::Infection) => log.time += infection_time,
            Some(Winner::Recovery) => log.time += recovery_time,
            None => {}
        }
        log.events.push((log.time, outcome));
    }
    log
}

fn relative_error(value: f64, expected: f64) -> f64 {
    (value - expected).abs() / value.abs().max(expected.abs())
}

fn parameters(population: usize, initial_infections: usize, seed: u64) -> Parameters {
    Parameters { population, initial_infections, seed, enable_stats: true, disable_queries: false }
}

#[test]
fn baseline_run_model() {
    let params = parameters(100_000, 5, 8675308);
    let mut context = Context::new(params);
    context.setup();
    drive(&mut context, &Rates { r0: 1.5, infectious_period: 3.0, max_time: 200.0 });

    // Final size relation is ~58%
    let incidence = context.get_stats().get_cum_incidence() as f64;
    let expected = context.get_params().population as f64 * 0.58;
    assert!(relative_error(incidence, expected) <= 0.02, "incidence {}", incidence);
}

#[test]
fn infected_counts() {
    let mut model = Model::new(Parameters::default());
    model.setup();
    assert_eq!(model.infectious_people(), 5);
    let p = model.sample_person(InfectionStatusValue::Susceptible).unwrap();
    model.infect_person(p);
    assert_eq!(model.infectious_people(), 6);
    assert_eq!(model.get_stats().get_cum_incidence(), 1);
    model.recover_person(p);
    assert_eq!(model.infectious_people(), 5);
    assert_eq!(model.get_stats().get_cum_incidence(), 1);
}

#[test]
fn default_parameters() {
    let params = Parameters::default();
    assert_eq!(params.population, 1000);
    assert_eq!(params.initial_infections, 5);
    assert_eq!(params.seed, 12345);
    assert!(!params.enable_stats);
    assert!(params.disable_queries);
    assert!(params.is_valid());
}

#[test]
fn parameters_validity() {
    assert!(parameters(10, 10, 0).is_valid());
    assert!(parameters(10, 1, 0).is_valid());
    assert!(!parameters(10, 0, 0).is_valid());
    assert!(!parameters(10, 11, 0).is_valid());
    assert!(!parameters(0, 0, 0).is_valid());
}

#[test]
fn baseline_setup_counts_its_seeds() {
    let mut context = Context::new(parameters(40, 7, 99));
    assert_eq!(context.get_population().len(), 0);
    context.setup();
    let population = context.get_population();
    assert_eq!(population.len(), 40);
    assert_eq!(population.count(InfectionStatus::Susceptible), 33);
    assert_eq!(population.count(InfectionStatus::Infectious), 7);
    assert_eq!(population.count(InfectionStatus::Recovered), 0);
    assert_eq!(context.infectious_people(), 7);
    assert_eq!(context.get_stats().get_cum_incidence(), 7);
    assert!(!context.get_stats().follows_prevalence());
    assert_eq!(context.id(), "baseline");
}

#[test]
fn model_setup_starts_from_its_seeds() {
    let mut model = Model::new(parameters(40, 7, 99));
    model.setup();
    let population = model.get_population();
    assert_eq!(population.len(), 40);
    assert_eq!(population.count(InfectionStatus::Susceptible), 33);
    assert_eq!(population.count(InfectionStatus::Infectious), 7);
    assert_eq!(population.count(InfectionStatus::Recovered), 0);
    assert_eq!(model.get_stats().get_cum_incidence(), 0);
    assert_eq!(model.get_stats().get_prevalence(), 7);
    assert_eq!(model.id(), "ixa");
}

#[test]
fn setup_can_infect_everybody_or_nobody() {
    let mut context = Context::new(parameters(6, 6, 1));
    context.setup();
    assert_eq!(context.get_population().count(InfectionStatus::Susceptible), 0);
    assert_eq!(context.infectious_people(), 6);

    let mut context = Context::new(parameters(6, 0, 1));
    context.setup();
    assert_eq!(context.infectious_people(), 0);
    assert_eq!(context.phase(false), Phase::Terminated);
    assert_eq!(context.next_event(Winner::Infection), Outcome::Idle);
    assert_eq!(context.next_event(Winner::Recovery), Outcome::Idle);
    assert_eq!(Outcome::Idle.elapsed(), None);
    assert_eq!(Outcome::Idle.new_status(), None);
    assert_eq!(context.get_stats().get_cum_incidence(), 0);
    assert_eq!(context.get_population().count(InfectionStatus::Susceptible), 6);
}

#[test]
fn phase_follows_the_infectious_count_and_the_horizon() {
    let mut context = Context::new(parameters(5, 1, 4));
    assert_eq!(context.phase(false), Phase::Terminated);
    context.setup();
    assert_eq!(context.phase(false), Phase::Running);
    assert_eq!(context.phase(true), Phase::Terminated);
    let outcome = context.next_event(Winner::Recovery);
    assert!(matches!(outcome, Outcome::Recovered(_)));
    assert_eq!(context.phase(false), Phase::Terminated);
}

#[test]
fn wasted_draw_changes_nothing_but_moves_the_clock() {
    let mut context = Context::new(parameters(12, 4, 21));
    context.setup();
    let target = context.get_population().member_at(InfectionStatus::Infectious, 2).unwrap();
    let before_s = context.get_population().count(InfectionStatus::Susceptible);
    let outcome = context.infect_candidate(target);
    assert_eq!(outcome, Outcome::Wasted(target));
    assert_eq!(outcome.elapsed(), Some(Winner::Infection));
    assert_eq!(outcome.new_status(), None);
    assert_eq!(outcome.report(true), None);
    assert_eq!(context.get_stats().get_cum_incidence(), 4);
    assert_eq!(context.get_population().count(InfectionStatus::Susceptible), before_s);
    assert_eq!(context.infectious_people(), 4);
    assert_eq!(context.get_population().get_status(target), InfectionStatus::Infectious);

    context.recover_person(target);
    let outcome = context.infect_candidate(target);
    assert_eq!(outcome, Outcome::Wasted(target));
    assert_eq!(context.get_population().get_status(target), InfectionStatus::Recovered);
    assert_eq!(context.get_stats().get_cum_incidence(), 4);
}

#[test]
fn infecting_a_susceptible_candidate_commits() {
    let mut context = Context::new(parameters(12, 4, 21));
    context.setup();
    let target = context.get_population().member_at(InfectionStatus::Susceptible, 0).unwrap();
    let outcome = context.infect_candidate(target);
    assert_eq!(outcome, Outcome::Infected(target));
    assert_eq!(outcome.elapsed(), Some(Winner::Infection));
    assert_eq!(outcome.new_status(), Some(InfectionStatus::Infectious));
    assert_eq!(outcome.report(true), Some(InfectionStatus::Infectious));
    assert_eq!(outcome.report(false), None);
    assert_eq!(context.get_stats().get_cum_incidence(), 5);
    assert_eq!(context.infectious_people(), 5);
    assert_eq!(context.get_population().get_status(target), InfectionStatus::Infectious);
}

#[test]
fn recover_member_takes_the_position_drawn() {
    let mut context = Context::new(parameters(12, 4, 21));
    context.setup();
    let third = context.get_population().member_at(InfectionStatus::Infectious, 2).unwrap();
    let last = context.get_population().member_at(InfectionStatus::Infectious, 3).unwrap();
    let outcome = context.recover_member(2);
    assert_eq!(outcome, Outcome::Recovered(third));
    assert_eq!(outcome.elapsed(), Some(Winner::Recovery));
    assert_eq!(outcome.report(true), Some(InfectionStatus::Recovered));
    assert_eq!(context.infectious_people(), 3);
    assert_eq!(context.get_population().member_at(InfectionStatus::Infectious, 2), Some(last));
    assert_eq!(context.get_population().member_at(InfectionStatus::Recovered, 0), Some(third));
    assert_eq!(context.get_stats().get_cum_incidence(), 4);
}

#[test]
fn seed_infection_takes_the_position_drawn() {
    let mut context = Context::new(parameters(5, 0, 8));
    context.setup();
    let person = context.seed_infection(1);
    assert_eq!(person.index(), 1);
    assert_eq!(context.get_population().member_at(InfectionStatus::Susceptible, 1).unwrap().index(), 4);
    assert_eq!(context.get_population().get_status(person), InfectionStatus::Infectious);
    assert_eq!(context.get_stats().get_cum_incidence(), 1);
}

#[test]
fn model_follows_prevalence() {
    let mut model = Model::new(parameters(30, 3, 5));
    model.setup();
    for _ in 0..200 {
        let winner = if model.infectious_people() % 2 == 0 {
            Winner::Infection
        } else {
            Winner::Recovery
        };
        model.next_event(winner);
        assert_eq!(model.get_stats().get_prevalence(), model.infectious_people());
        let population = model.get_population();
        assert_eq!(
            model.get_stats().get_cum_incidence() + 3,
            population.count(InfectionStatus::Infectious)
                + population.count(InfectionStatus::Recovered)
        );
    }
}

#[test]
fn model_sample_person_finds_nobody_in_an_empty_partition() {
    let mut model = Model::new(parameters(4, 4, 5));
    model.setup();
    assert_eq!(model.sample_person(InfectionStatusValue::Susceptible), None);
    assert_eq!(model.sample_person(InfectionStatusValue::Recovered), None);
    let person = model.sample_person(InfectionStatusValue::Infectious).unwrap();
    assert_eq!(model.get_population().get_status(person), InfectionStatus::Infectious);
}

#[test]
fn status_values_convert_both_ways() {
    let all = [
        (InfectionStatus::Susceptible, InfectionStatusValue::Susceptible),
        (InfectionStatus::Infectious, InfectionStatusValue::Infectious),
        (InfectionStatus::Recovered, InfectionStatusValue::Recovered),
    ];
    for (status, value) in all {
        assert_eq!(InfectionStatusValue::of(status), value);
        assert_eq!(value.status(), status);
    }
}

#[test]
fn recovered_is_absorbing_and_incidence_monotonic() {
    for kind in ModelKind::all() {
        let mut engine = kind.into_model(parameters(200, 5, 77));
        engine.setup();
        let mut recovered = vec![false; 200];
        let mut last_incidence = engine.get_stats().get_cum_incidence();
        let mut time = 0.0;
        let rates = Rates { r0: 2.0, infectious_period: 3.0, max_time: 50.0 };
        while engine.phase(time >= rates.max_time) == Phase::Running {
            let n = engine.infectious_people() as f64;
            let a: f64 = engine.rng().sample(Exp::new(rates.r0 / rates.infectious_period * n).unwrap());
            let b: f64 = engine.rng().sample(Exp::new(n / rates.infectious_period).unwrap());
            let outcome = engine.next_event(if a < b { Winner::Infection } else { Winner::Recovery });
            time += if a < b { a } else { b };
            if let Outcome::Recovered(person) = outcome {
                assert!(!recovered[person.index()]);
                recovered[person.index()] = true;
            }
            if let Outcome::Infected(person) = outcome {
                assert!(!recovered[person.index()]);
            }
            assert!(engine.get_stats().get_cum_incidence() >= last_incidence);
            last_incidence = engine.get_stats().get_cum_incidence();
        }
        assert!(time >= rates.max_time || engine.infectious_people() == 0);
    }
}

#[test]
fn same_seed_gives_the_same_run() {
    for kind in ModelKind::all() {
        let rates = Rates { r0: 1.5, infectious_period: 3.0, max_time: 200.0 };
        let mut first = kind.into_model(parameters(2_000, 5, 424242));
        first.setup();
        let first_log = drive(&mut first, &rates);
        let mut second = kind.into_model(parameters(2_000, 5, 424242));
        second.setup();
        let second_log = drive(&mut second, &rates);
        assert_eq!(first_log.events, second_log.events);
        assert_eq!(first_log.time, second_log.time);
        assert_eq!(
            first.get_stats().get_cum_incidence(),
            second.get_stats().get_cum_incidence()
        );
        assert_eq!(first.get_stats().get_prevalence(), second.get_stats().get_prevalence());
        assert!(!first_log.events.is_empty());
    }
}

#[test]
fn no_transmission_means_recoveries_only() {
    let mut context = Context::new(parameters(10, 1, 2024));
    context.setup();
    let log = drive(&mut context, &Rates { r0: 0.0, infectious_period: 1.0, max_time: 1.0e12 });
    assert_eq!(log.events.len(), 1);
    assert!(matches!(log.events[0].1, Outcome::Recovered(_)));
    assert_eq!(context.get_stats().get_cum_incidence(), 1);
    assert_eq!(context.infectious_people(), 0);
    assert_eq!(context.get_population().count(InfectionStatus::Recovered), 1);
    assert_eq!(context.get_population().count(InfectionStatus::Susceptible), 9);
}

#[test]
fn the_loop_may_overshoot_the_horizon_by_one_event() {
    let mut context = Context::new(parameters(1_000, 10, 31337));
    context.setup();
    let log = drive(&mut context, &Rates { r0: 1.5, infectious_period: 3.0, max_time: 2.0 });
    assert!(log.time >= 2.0 || context.infectious_people() == 0);
    let n = log.events.len();
    if n >= 2 && context.infectious_people() > 0 {
        assert!(log.events[n - 2].0 < 2.0);
    }
}

#[test]
fn kinds_and_engines() {
    assert_eq!(ModelKind::all(), vec![ModelKind::Baseline, ModelKind::Ixa, ModelKind::IxaNoQueries]);
    assert_eq!(ModelKind::selection(None), ModelKind::all());
    assert_eq!(ModelKind::selection(Some(ModelKind::Ixa)), vec![ModelKind::Ixa]);

    let params = parameters(10, 2, 5);
    let baseline = ModelKind::Baseline.into_model(params);
    assert!(matches!(baseline, Engine::Baseline(_)));
    assert_eq!(baseline.id(), "baseline");
    assert!(!baseline.get_params().disable_queries);
    assert!(!baseline.get_stats().follows_prevalence());

    let ixa = ModelKind::Ixa.into_model(params);
    assert!(matches!(ixa, Engine::Ixa(_)));
    assert_eq!(ixa.id(), "ixa");
    assert!(!ixa.get_params().disable_queries);
    assert!(ixa.get_stats().follows_prevalence());

    let plain = ModelKind::IxaNoQueries.into_model(params);
    assert!(matches!(plain, Engine::Ixa(_)));
    assert_eq!(plain.id(), "ixa");
    assert!(plain.get_params().disable_queries);
    assert_eq!(plain.get_params().population, 10);
    assert_eq!(plain.get_params().initial_infections, 2);
    assert_eq!(plain.get_params().seed, 5);
}

#[test]
fn attack_rate_is_more_than_half() {
    assert!(attack_rate_reached(501, 1000));
    assert!(!attack_rate_reached(500, 1000));
    assert!(attack_rate_reached(3, 5));
    assert!(!attack_rate_reached(2, 5));
    assert!(!attack_rate_reached(0, 0));
    assert!(attack_rate_reached(1, 0));
}

#[test]
fn ixa_run_model() {
    let params = Parameters::default();
    let population = params.population;
    let mut model = Model::new(params);
    model.setup();
    drive(&mut model, &Rates { r0: 1.5, infectious_period: 3.0, max_time: 100.0 });

    // Final size relation is ~58%
    let incidence = model.get_stats().get_cum_incidence() as f64;
    let expected = population as f64 * 0.58;
    assert!(relative_error(incidence, expected) <= 0.02, "incidence {}", incidence);
}

#[test]
fn engines_keep_their_partitions_exact_through_a_run() {
    for kind in ModelKind::all() {
        let mut engine = kind.into_model(parameters(300, 4, 9));
        engine.setup();
        let mut time = 0.0;
        let mut commits = 0usize;
        while engine.phase(time >= 40.0) == Phase::Running {
            let n = engine.infectious_people() as f64;
            let a: f64 = engine.rng().sample(Exp::new(0.7 * n).unwrap());
            let b: f64 = engine.rng().sample(Exp::new(n / 3.0).unwrap());
            let outcome = engine.next_event(if a < b { Winner::Infection } else { Winner::Recovery });
            time += a.min(b);
            if outcome.new_status().is_some() {
                commits += 1;
            }
            let population = engine.get_population();
            let s = population.count(InfectionStatus::Susceptible);
            let i = population.count(InfectionStatus::Infectious);
            let r = population.count(InfectionStatus::Recovered);
            assert_eq!(s + i + r, 300);
            assert_eq!(population.len(), 300);
            assert_eq!(2 * s + i + commits, 2 * 296 + 4);
        }
        assert!(commits <= 600);
    }
}
