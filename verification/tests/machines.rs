//! Scenario tests for the session and orchestrator state machines and the
//! outcome classification and aggregation.

use zaplib_ci::orchestrator::Orchestrator;
use zaplib_ci::orchestrator::OrchestratorAction;
use zaplib_ci::orchestrator::OrchestratorEvent;
use zaplib_ci::orchestrator::OrchestratorPhase;
use zaplib_ci::outcome::SessionOutcome;
use zaplib_ci::outcome::all_passed;
use zaplib_ci::outcome::classify_script_result;
use zaplib_ci::session::SessionAction;
use zaplib_ci::session::SessionEvent;
use zaplib_ci::session::SessionPhase;
use zaplib_ci::session::SessionRunner;

#[test]
fn classify_success_sentinel_passes() {
    let outcome = classify_script_result(Some("SUCCESS".to_string()));
    assert_eq!(outcome, SessionOutcome::Passed);
}

#[test]
fn classify_other_string_is_run_failure_with_that_reason() {
    let outcome = classify_script_result(Some("TypeError: x is undefined".to_string()));
    assert_eq!(
        outcome,
        SessionOutcome::RunFailed { reason: "TypeError: x is undefined".to_string() }
    );
}

#[test]
fn classify_non_string_value_substitutes_fixed_reason() {
    let outcome = classify_script_result(None);
    assert_eq!(
        outcome,
        SessionOutcome::RunFailed {
            reason: "--zaplib_ci: no string was returned--".to_string()
        }
    );
}

#[test]
fn session_passes_and_reports_in_farm_mode() {
    let mut runner = SessionRunner::new(true);
    assert_eq!(runner.step(SessionEvent::Start), vec![SessionAction::OpenSession]);
    assert_eq!(runner.step(SessionEvent::SessionOpened), vec![SessionAction::Navigate]);
    assert_eq!(runner.step(SessionEvent::Navigated), vec![SessionAction::RunPollScript]);
    let actions = runner.step(SessionEvent::ScriptResolved {
        value: Some("SUCCESS".to_string()),
    });
    assert_eq!(actions, vec![SessionAction::ReportStatus { passed: true }]);
    assert_eq!(runner.step(SessionEvent::StatusReported), vec![SessionAction::ReleaseSession]);
    let actions = runner.step(SessionEvent::SessionReleased);
    assert!(actions.is_empty());
    assert_eq!(runner.phase, SessionPhase::Finished);
    assert_eq!(runner.outcome, Some(SessionOutcome::Passed));
}

#[test]
fn session_passes_without_reporting_in_local_mode() {
    let mut runner = SessionRunner::new(false);
    runner.step(SessionEvent::Start);
    runner.step(SessionEvent::SessionOpened);
    runner.step(SessionEvent::Navigated);
    let actions = runner.step(SessionEvent::ScriptResolved {
        value: Some("SUCCESS".to_string()),
    });
    assert_eq!(actions, vec![SessionAction::ReleaseSession]);
    runner.step(SessionEvent::SessionReleased);
    assert_eq!(runner.outcome, Some(SessionOutcome::Passed));
}

#[test]
fn run_failure_is_logged_before_the_farm_report() {
    let mut runner = SessionRunner::new(true);
    runner.step(SessionEvent::Start);
    runner.step(SessionEvent::SessionOpened);
    runner.step(SessionEvent::Navigated);
    let actions = runner.step(SessionEvent::ScriptResolved {
        value: Some("assertion failed at line 3".to_string()),
    });
    assert_eq!(
        actions,
        vec![
            SessionAction::LogRunFailure { reason: "assertion failed at line 3".to_string() },
            SessionAction::ReportStatus { passed: false },
        ]
    );
    assert_eq!(
        runner.outcome,
        Some(SessionOutcome::RunFailed { reason: "assertion failed at line 3".to_string() })
    );
}

#[test]
fn connection_failure_never_becomes_run_failure_and_never_reports() {
    let mut runner = SessionRunner::new(true);
    runner.step(SessionEvent::Start);
    let actions = runner.step(SessionEvent::SessionOpenFailed {
        reason: "connection refused".to_string(),
    });
    assert_eq!(
        actions,
        vec![SessionAction::LogConnectionFailure { reason: "connection refused".to_string() }]
    );
    assert_eq!(
        runner.outcome,
        Some(SessionOutcome::ConnectionFailed { reason: "connection refused".to_string() })
    );
    // terminal: no release, no report, nothing further
    assert_eq!(runner.phase, SessionPhase::Finished);
}

#[test]
fn report_failure_is_logged_and_keeps_the_outcome() {
    let mut runner = SessionRunner::new(true);
    runner.step(SessionEvent::Start);
    runner.step(SessionEvent::SessionOpened);
    runner.step(SessionEvent::Navigated);
    runner.step(SessionEvent::ScriptResolved { value: Some("SUCCESS".to_string()) });
    let actions = runner.step(SessionEvent::StatusReportFailed {
        reason: "farm unreachable".to_string(),
    });
    assert_eq!(
        actions,
        vec![
            SessionAction::LogReportFailure { reason: "farm unreachable".to_string() },
            SessionAction::ReleaseSession,
        ]
    );
    assert_eq!(runner.outcome, Some(SessionOutcome::Passed));
}

#[test]
fn release_failure_is_logged_and_keeps_the_outcome() {
    let mut runner = SessionRunner::new(false);
    runner.step(SessionEvent::Start);
    runner.step(SessionEvent::SessionOpened);
    runner.step(SessionEvent::Navigated);
    runner.step(SessionEvent::ScriptResolved { value: Some("SUCCESS".to_string()) });
    let actions = runner.step(SessionEvent::SessionReleaseFailed {
        reason: "window already gone".to_string(),
    });
    assert_eq!(
        actions,
        vec![SessionAction::LogReleaseFailure { reason: "window already gone".to_string() }]
    );
    assert_eq!(runner.outcome, Some(SessionOutcome::Passed));
    assert_eq!(runner.phase, SessionPhase::Finished);
}

#[test]
fn navigation_failure_is_a_run_failure_without_a_report() {
    let mut runner = SessionRunner::new(true);
    runner.step(SessionEvent::Start);
    runner.step(SessionEvent::SessionOpened);
    let actions = runner.step(SessionEvent::NavigationFailed {
        reason: "certificate rejected".to_string(),
    });
    assert_eq!(actions, vec![SessionAction::ReleaseSession]);
    assert_eq!(
        runner.outcome,
        Some(SessionOutcome::RunFailed { reason: "certificate rejected".to_string() })
    );
}

#[test]
fn aggregate_succeeds_only_when_every_outcome_passed() {
    assert!(all_passed(&vec![]));
    assert!(all_passed(&vec![SessionOutcome::Passed, SessionOutcome::Passed]));
    assert!(!all_passed(&vec![
        SessionOutcome::Passed,
        SessionOutcome::RunFailed { reason: "x".to_string() },
        SessionOutcome::Passed,
    ]));
    assert!(!all_passed(&vec![SessionOutcome::ConnectionFailed { reason: "y".to_string() }]));
}

#[test]
fn orchestrator_launches_sessions_only_after_bind() {
    let mut orch = Orchestrator::new(1);
    let actions = orch.step(OrchestratorEvent::Start);
    assert_eq!(actions, vec![OrchestratorAction::StartServer]);
    // nothing launched yet: the only action so far is the server start
    let actions = orch.step(OrchestratorEvent::ServerBound);
    assert_eq!(actions, vec![OrchestratorAction::LaunchSessions]);
}

#[test]
fn orchestrator_bind_failure_is_fatal_without_launch_or_stop() {
    let mut orch = Orchestrator::new(3);
    orch.step(OrchestratorEvent::Start);
    let actions = orch.step(OrchestratorEvent::ServerBindFailed {
        reason: "port in use".to_string(),
    });
    assert_eq!(
        actions,
        vec![
            OrchestratorAction::LogBindFailure { reason: "port in use".to_string() },
            OrchestratorAction::ExitFailure,
        ]
    );
    assert_eq!(orch.phase, OrchestratorPhase::Finished);
}

#[test]
fn five_sessions_with_two_failures_fail_the_run_and_log_both() {
    let mut orch = Orchestrator::new(5);
    orch.step(OrchestratorEvent::Start);
    orch.step(OrchestratorEvent::ServerBound);
    let outcomes = vec![
        ("a".to_string(), SessionOutcome::Passed),
        ("b".to_string(), SessionOutcome::RunFailed { reason: "r1".to_string() }),
        ("c".to_string(), SessionOutcome::Passed),
        ("d".to_string(), SessionOutcome::RunFailed { reason: "r2".to_string() }),
        ("e".to_string(), SessionOutcome::Passed),
    ];
    let mut all_actions = Vec::new();
    for (name, outcome) in outcomes {
        all_actions.extend(orch.step(OrchestratorEvent::SessionCompleted { name, outcome }));
    }
    // every session reached the collector; both failures were logged
    let failure_logs: Vec<&OrchestratorAction> = all_actions
        .iter()
        .filter(|a| matches!(a, OrchestratorAction::LogSessionFailure { .. }))
        .collect();
    assert_eq!(failure_logs.len(), 2);
    assert_eq!(
        failure_logs[0],
        &OrchestratorAction::LogSessionFailure {
            name: "b".to_string(),
            outcome: SessionOutcome::RunFailed { reason: "r1".to_string() },
        }
    );
    // the stop is requested exactly once, after the fifth completion
    let stops: Vec<&OrchestratorAction> = all_actions
        .iter()
        .filter(|a| matches!(a, OrchestratorAction::StopServer))
        .collect();
    assert_eq!(stops.len(), 1);
    assert_eq!(all_actions.last(), Some(&OrchestratorAction::StopServer));
    // the verdict comes only after the stop is confirmed, and it is a failure
    let actions = orch.step(OrchestratorEvent::ServerStopped);
    assert_eq!(actions, vec![OrchestratorAction::ExitFailure]);
    assert_eq!(orch.phase, OrchestratorPhase::Finished);
}

#[test]
fn all_sessions_passing_exit_success_after_stop() {
    let mut orch = Orchestrator::new(2);
    orch.step(OrchestratorEvent::Start);
    orch.step(OrchestratorEvent::ServerBound);
    let first = orch.step(OrchestratorEvent::SessionCompleted {
        name: "a".to_string(),
        outcome: SessionOutcome::Passed,
    });
    assert!(first.is_empty());
    let second = orch.step(OrchestratorEvent::SessionCompleted {
        name: "b".to_string(),
        outcome: SessionOutcome::Passed,
    });
    assert_eq!(second, vec![OrchestratorAction::StopServer]);
    let actions = orch.step(OrchestratorEvent::ServerStopped);
    assert_eq!(actions, vec![OrchestratorAction::ExitSuccess]);
}
