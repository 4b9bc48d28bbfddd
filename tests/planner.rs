use risinglight::catalog::RootCatalog;
use risinglight::planner::{Config, Optimizer, PushdownLoop, RoundOutcome, RuleSet, PUSHDOWN_ROUND_CAP};

#[test]
fn default_config_disables_options() {
    let config = Config::default();
    assert!(!config.enable_range_filter_scan);
    assert!(!config.table_is_sorted_by_primary_key);
}

#[test]
fn range_filter_rules_follow_the_config() {
    let plain = Optimizer::new(RootCatalog::new(), Config::default());
    assert_eq!(plain.pushdown_rules(), vec![RuleSet::Pushdown]);
    let config = Config { enable_range_filter_scan: true, table_is_sorted_by_primary_key: false };
    let ranged = Optimizer::new(RootCatalog::new(), config);
    assert_eq!(ranged.pushdown_rules(), vec![RuleSet::Pushdown, RuleSet::RangeFilterScan]);
    assert_eq!(ranged.join_rules(), vec![RuleSet::JoinReorder]);
}

#[test]
fn rounds_stop_at_first_plateau() {
    // improving for three rounds, then a plateau: four rounds in all
    let mut rounds = PushdownLoop::new(PUSHDOWN_ROUND_CAP);
    let mut run = 0;
    let mut outcome = RoundOutcome::Continue;
    while !rounds.is_finished() {
        outcome = rounds.record_round(run < 3);
        run += 1;
    }
    assert_eq!(run, 4);
    assert_eq!(rounds.rounds, 4);
    assert_eq!(outcome, RoundOutcome::Stop { keep_latest: false });
}

#[test]
fn rounds_stop_at_the_cap() {
    let mut rounds = PushdownLoop::new(PUSHDOWN_ROUND_CAP);
    let mut run = 0;
    let mut outcome = RoundOutcome::Continue;
    while !rounds.is_finished() {
        outcome = rounds.record_round(true);
        run += 1;
    }
    assert_eq!(run, 10);
    assert_eq!(outcome, RoundOutcome::Stop { keep_latest: true });
}

#[test]
fn zero_cap_runs_no_round() {
    assert!(PushdownLoop::new(0).is_finished());
    assert!(!PushdownLoop::new(1).is_finished());
}
