use sir_bench::stats::ModelStats;

#[test]
fn test_model_stats() {
    let mut stats = ModelStats::new(5);
    assert_eq!(stats.get_cum_incidence(), 0);
    assert_eq!(stats.get_prevalence(), 5);

    stats.record_infection();
    assert_eq!(stats.get_cum_incidence(), 1);
    assert_eq!(stats.get_prevalence(), 6);

    stats.record_recovery();
    assert_eq!(stats.get_cum_incidence(), 1);
    assert_eq!(stats.get_prevalence(), 5);
}

#[test]
fn incidence_only_stats_leave_prevalence_alone() {
    let mut stats = ModelStats::incidence_only();
    assert!(!stats.follows_prevalence());
    assert_eq!(stats.get_cum_incidence(), 0);
    assert_eq!(stats.get_prevalence(), 0);

    stats.record_infection();
    stats.record_infection();
    assert_eq!(stats.get_cum_incidence(), 2);
    assert_eq!(stats.get_prevalence(), 0);

    stats.record_recovery();
    assert_eq!(stats.get_cum_incidence(), 2);
    assert_eq!(stats.get_prevalence(), 0);
    assert!(!stats.follows_prevalence());
}

#[test]
fn set_prevalence_switches_following_on() {
    let mut stats = ModelStats::incidence_only();
    stats.record_infection();
    stats.set_prevalence(7);
    assert!(stats.follows_prevalence());
    assert_eq!(stats.get_prevalence(), 7);
    assert_eq!(stats.get_cum_incidence(), 1);

    stats.record_recovery();
    assert_eq!(stats.get_prevalence(), 6);
    assert_eq!(stats.get_cum_incidence(), 1);
}

#[test]
fn new_stats_start_from_the_initial_infections() {
    let stats = ModelStats::new(0);
    assert!(stats.follows_prevalence());
    assert_eq!(stats.get_prevalence(), 0);
    let stats = ModelStats::new(usize::MAX);
    assert_eq!(stats.get_prevalence(), usize::MAX);
    assert_eq!(stats.get_cum_incidence(), 0);
}

#[test]
fn incidence_never_falls() {
    let mut stats = ModelStats::new(3);
    let mut last = stats.get_cum_incidence();
    for turn in 0..20 {
        if turn % 3 == 0 {
            stats.record_recovery();
            stats.record_infection();
        } else {
            stats.record_infection();
        }
        assert!(stats.get_cum_incidence() >= last);
        last = stats.get_cum_incidence();
    }
    assert_eq!(last, 20);
    assert_eq!(stats.get_prevalence(), 3 + 20 - 7);
}
