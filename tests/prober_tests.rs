use ham::dashboard::{dashboard_poll, DashAction, Key, RunState};
use ham::probe::{outcome_score, ProbeOutcome, ProbeStyle};
use ham::prober::{Prober, ProberAction, ProberPhase};
use ham::table::StatusTable;

fn strings(v: &[&str]) -> Vec<String> {
    v.iter().map(|s| s.to_string()).collect()
}

fn probe_always_10() -> u8 {
    outcome_score(ProbeStyle::Connection, ProbeOutcome::Success)
}

fn probe_always_timeout_score_2() -> u8 {
    outcome_score(ProbeStyle::Connection, ProbeOutcome::Timeout)
}

fn run_one_cycle(prober: &mut Prober, table: &mut StatusTable, probes: &[fn() -> u8]) {
    let mut action = prober.check_run(true);
    while let ProberAction::RunProbe(i) = action {
        let score = probes[i]();
        action = prober.probe_done(table, score);
    }
    assert_eq!(action, ProberAction::Sleep);
}

#[test]
fn one_cycle_end_to_end() {
    let names = strings(&["X", "Y"]);
    let details = strings(&["always up", "always silent"]);
    let mut table = StatusTable::initialize(&names, &details);
    let mut prober = Prober::new(names, details);
    run_one_cycle(&mut prober, &mut table, &[probe_always_10, probe_always_timeout_score_2]);
    let rows = table.snapshot();
    assert_eq!(rows.len(), 2);
    assert_eq!((rows[0].name.as_str(), rows[0].score), ("X", 10));
    assert_eq!(rows[0].status(), "Good");
    assert_eq!((rows[1].name.as_str(), rows[1].score), ("Y", 2));
    assert_eq!(rows[1].status(), "Blocked/Failed");
}

#[test]
fn cycle_runs_probes_in_catalog_order() {
    let names = strings(&["A", "B", "C"]);
    let details = strings(&["a", "b", "c"]);
    let mut table = StatusTable::initialize(&names, &details);
    let mut prober = Prober::new(names, details);
    assert_eq!(prober.check_run(true), ProberAction::RunProbe(0));
    assert_eq!(prober.probe_done(&mut table, 10), ProberAction::RunProbe(1));
    let mid = table.snapshot();
    assert_eq!(mid[0].score, 10);
    assert!(mid[1].pending && mid[2].pending);
    assert_eq!(prober.probe_done(&mut table, 5), ProberAction::RunProbe(2));
    assert_eq!(prober.probe_done(&mut table, 0), ProberAction::Sleep);
    assert_eq!(prober.phase(), ProberPhase::Sleeping);
    prober.woke();
    assert_eq!(prober.phase(), ProberPhase::AtTop);
    let rows = table.snapshot();
    assert_eq!([rows[0].score, rows[1].score, rows[2].score], [10, 5, 0]);
}

#[test]
fn prober_clamps_raw_scores() {
    let names = strings(&["A"]);
    let details = strings(&["a"]);
    let mut table = StatusTable::initialize(&names, &details);
    let mut prober = Prober::new(names, details);
    prober.check_run(true);
    prober.probe_done(&mut table, 200);
    assert_eq!(table.snapshot()[0].score, 10);
}

#[test]
fn empty_catalog_only_sleeps() {
    let mut prober = Prober::new(Vec::new(), Vec::new());
    assert_eq!(prober.catalog_len(), 0);
    assert_eq!(prober.check_run(true), ProberAction::Sleep);
}

#[test]
fn stopped_flag_ends_both_loops() {
    let names = strings(&["A"]);
    let details = strings(&["a"]);
    let mut prober = Prober::new(names, details);
    let mut run = RunState::new();
    assert!(run.is_running());
    assert_eq!(dashboard_poll(&mut run, None), DashAction::Redraw);
    run.stop();
    assert!(!run.is_running());
    assert_eq!(prober.check_run(run.is_running()), ProberAction::Exit);
    assert_eq!(prober.phase(), ProberPhase::Exited);
    assert_eq!(dashboard_poll(&mut run, None), DashAction::Quit);
    assert_eq!(dashboard_poll(&mut run, Some(Key::Other)), DashAction::Quit);
}
