use nexus_actor::restart_statistics::RestartStatistics;
use nexus_actor::strategy_one_for_one::{Directive, OneForOneStrategy, SupervisorAction};

#[test]
fn restart_statistics_count_the_window() {
    let mut rs = RestartStatistics::new();
    rs.fail(100);
    rs.fail(600);
    rs.fail(1100);
    assert_eq!(rs.failure_count(), 3);
    assert_eq!(rs.number_of_failures(1100, 1000), 2);
    assert_eq!(rs.number_of_failures(1100, 10000), 3);
    assert_eq!(rs.number_of_failures(1100, 1), 1);
    rs.reset();
    assert_eq!(rs.failure_count(), 0);
}

#[test]
fn restart_allowed_within_the_limit() {
    let strategy = OneForOneStrategy::new(2, 1000, Directive::Restart);
    let mut rs = RestartStatistics::new();
    assert_eq!(strategy.handle_failure(&mut rs, 0), SupervisorAction::RestartChild);
    assert_eq!(strategy.handle_failure(&mut rs, 10), SupervisorAction::RestartChild);
    assert_eq!(rs.failure_count(), 2);
}

#[test]
fn third_failure_within_the_window_stops_the_child() {
    let strategy = OneForOneStrategy::new(2, 1000, Directive::Restart);
    let mut rs = RestartStatistics::new();
    assert_eq!(strategy.handle_failure(&mut rs, 0), SupervisorAction::RestartChild);
    assert_eq!(strategy.handle_failure(&mut rs, 10), SupervisorAction::RestartChild);
    assert_eq!(strategy.handle_failure(&mut rs, 20), SupervisorAction::StopChild);
    assert_eq!(rs.failure_count(), 0);
}

#[test]
fn old_failures_age_out_of_the_window() {
    let strategy = OneForOneStrategy::new(2, 1000, Directive::Restart);
    let mut rs = RestartStatistics::new();
    assert_eq!(strategy.handle_failure(&mut rs, 0), SupervisorAction::RestartChild);
    assert_eq!(strategy.handle_failure(&mut rs, 10), SupervisorAction::RestartChild);
    assert_eq!(strategy.handle_failure(&mut rs, 5000), SupervisorAction::RestartChild);
}

#[test]
fn zero_retries_never_restarts() {
    let strategy = OneForOneStrategy::new(0, 1000, Directive::Restart);
    let mut rs = RestartStatistics::new();
    assert_eq!(strategy.handle_failure(&mut rs, 0), SupervisorAction::StopChild);
    assert_eq!(rs.failure_count(), 0);
}

#[test]
fn non_restart_deciders_map_directly() {
    let mut rs = RestartStatistics::new();
    let resume = OneForOneStrategy::new(3, 1000, Directive::Resume);
    assert_eq!(resume.handle_failure(&mut rs, 0), SupervisorAction::ResumeChild);
    let stop = OneForOneStrategy::new(3, 1000, Directive::Stop);
    assert_eq!(stop.handle_failure(&mut rs, 0), SupervisorAction::StopChild);
    let escalate = OneForOneStrategy::new(3, 1000, Directive::Escalate);
    assert_eq!(escalate.handle_failure(&mut rs, 0), SupervisorAction::Escalate);
    assert_eq!(rs.failure_count(), 0);
}
