//! The per-session lifecycle state machine: connect, navigate to the served
//! suite page, run the readiness-polling script, classify the result, report
//! to the farm service when asked to, and release the session.
//!
//! The machine decides; the caller performs. Each `step` consumes one event
//! (what the outside world reported back) and returns the ordered list of
//! actions the caller must perform next.

use vstd::prelude::*;

use crate::outcome::OutcomeView;
use crate::outcome::SessionOutcome;
use crate::outcome::classify_script_result;
use crate::outcome::spec_classify;
use crate::outcome::spec_value_view;

verus! {

/// Where in its lifecycle one session currently stands.
#[derive(Clone, Copy, PartialEq, Eq, Structural, Debug)]
pub enum SessionPhase {
    Idle,
    Opening,
    Navigating,
    RunningSuite,
    Reporting,
    Releasing,
    Finished,
}

/// What the outside world reports back to the machine, one event per
/// performed action.
pub enum SessionEvent {
    Start,
    SessionOpened,
    SessionOpenFailed { reason: String },
    Navigated,
    NavigationFailed { reason: String },
    ScriptResolved { value: Option<String> },
    ScriptFailed { reason: String },
    StatusReported,
    StatusReportFailed { reason: String },
    SessionReleased,
    SessionReleaseFailed { reason: String },
}

/// What the caller must perform next, in order.
#[derive(Debug, PartialEq, Eq)]
pub enum SessionAction {
    OpenSession,
    Navigate,
    RunPollScript,
    LogConnectionFailure { reason: String },
    LogRunFailure { reason: String },
    LogReportFailure { reason: String },
    LogReleaseFailure { reason: String },
    ReportStatus { passed: bool },
    ReleaseSession,
}

/// Drives one remote browser session to exactly one terminal outcome.
pub struct SessionRunner {
    pub report_to_farm: bool,
    pub phase: SessionPhase,
    pub outcome: Option<SessionOutcome>,
}

/// Mathematical models: strings as character sequences.
pub enum EventView {
    Start,
    SessionOpened,
    SessionOpenFailed { reason: Seq<char> },
    Navigated,
    NavigationFailed { reason: Seq<char> },
    ScriptResolved { value: Option<Seq<char>> },
    ScriptFailed { reason: Seq<char> },
    StatusReported,
    StatusReportFailed { reason: Seq<char> },
    SessionReleased,
    SessionReleaseFailed { reason: Seq<char> },
}

pub enum ActionView {
    OpenSession,
    Navigate,
    RunPollScript,
    LogConnectionFailure { reason: Seq<char> },
    LogRunFailure { reason: Seq<char> },
    LogReportFailure { reason: Seq<char> },
    LogReleaseFailure { reason: Seq<char> },
    ReportStatus { passed: bool },
    ReleaseSession,
}

#[verifier::ext_equal]
pub struct RunnerView {
    pub report_to_farm: bool,
    pub phase: SessionPhase,
    pub outcome: Option<OutcomeView>,
}

impl View for SessionEvent {
    type V = EventView;

    open spec fn view(&self) -> EventView {
        match self {
            SessionEvent::Start => EventView::Start,
            SessionEvent::SessionOpened => EventView::SessionOpened,
            SessionEvent::SessionOpenFailed { reason } => (EventView::SessionOpenFailed {
                reason: reason@,
            }),
            SessionEvent::Navigated => EventView::Navigated,
            SessionEvent::NavigationFailed { reason } => (EventView::NavigationFailed {
                reason: reason@,
            }),
            SessionEvent::ScriptResolved { value } => (EventView::ScriptResolved {
                value: spec_value_view(*value),
            }),
            SessionEvent::ScriptFailed { reason } => (EventView::ScriptFailed { reason: reason@ }),
            SessionEvent::StatusReported => EventView::StatusReported,
            SessionEvent::StatusReportFailed { reason } => (EventView::StatusReportFailed {
                reason: reason@,
            }),
            SessionEvent::SessionReleased => EventView::SessionReleased,
            SessionEvent::SessionReleaseFailed { reason } => (EventView::SessionReleaseFailed {
                reason: reason@,
            }),
        }
    }
}

impl View for SessionAction {
    type V = ActionView;

    open spec fn view(&self) -> ActionView {
        match self {
            SessionAction::OpenSession => ActionView::OpenSession,
            SessionAction::Navigate => ActionView::Navigate,
            SessionAction::RunPollScript => ActionView::RunPollScript,
            SessionAction::LogConnectionFailure { reason } => (ActionView::LogConnectionFailure {
                reason: reason@,
            }),
            SessionAction::LogRunFailure { reason } => (ActionView::LogRunFailure {
                reason: reason@,
            }),
            SessionAction::LogReportFailure { reason } => (ActionView::LogReportFailure {
                reason: reason@,
            }),
            SessionAction::LogReleaseFailure { reason } => (ActionView::LogReleaseFailure {
                reason: reason@,
            }),
            SessionAction::ReportStatus { passed } => (ActionView::ReportStatus {
                passed: *passed,
            }),
            SessionAction::ReleaseSession => ActionView::ReleaseSession,
        }
    }
}

impl View for SessionRunner {
    type V = RunnerView;

    open spec fn view(&self) -> RunnerView {
        RunnerView {
            report_to_farm: self.report_to_farm,
            phase: self.phase,
            outcome: match self.outcome {
                Some(o) => Some(o@),
                None => None,
            },
        }
    }
}

pub open spec fn spec_actions_view(actions: Seq<SessionAction>) -> Seq<ActionView> {
    actions.map_values(|a: SessionAction| a@)
}

/// Which events are acceptable in which phase. A `Finished` machine accepts
/// no further event: exactly one terminal outcome is produced per session.
pub open spec fn spec_event_fits(s: RunnerView, e: EventView) -> bool {
    match e {
        EventView::Start => s.phase is Idle,
        EventView::SessionOpened => s.phase is Opening,
        EventView::SessionOpenFailed { .. } => s.phase is Opening,
        EventView::Navigated => s.phase is Navigating,
        EventView::NavigationFailed { .. } => s.phase is Navigating,
        EventView::ScriptResolved { .. } => s.phase is RunningSuite,
        EventView::ScriptFailed { .. } => s.phase is RunningSuite,
        EventView::StatusReported => s.phase is Reporting,
        EventView::StatusReportFailed { .. } => s.phase is Reporting,
        EventView::SessionReleased => s.phase is Releasing,
        EventView::SessionReleaseFailed { .. } => s.phase is Releasing,
    }
}

/// The full transition relation, as a function: next state and the ordered
/// actions the caller must perform.
///
/// Policy encoded here:
/// - a connection failure terminates the session with `ConnectionFailed`,
///   is logged locally, and never reaches the farm-reporting protocol (no
///   session identity exists to report against), nor a release;
/// - navigation and script-transport failures become `RunFailed` and skip
///   reporting (the original diagnostic is the failure itself);
/// - a classified run failure is logged locally *before* the farm report is
///   attempted, so a failing report cannot suppress the diagnostic;
/// - a failed farm report or a failed release is logged and never changes the
///   already-determined outcome.
pub open spec fn spec_step(s: RunnerView, e: EventView) -> (RunnerView, Seq<ActionView>) {
    match e {
        EventView::Start => (
            RunnerView { phase: SessionPhase::Opening, ..s },
            seq![ActionView::OpenSession],
        ),
        EventView::SessionOpened => (
            RunnerView { phase: SessionPhase::Navigating, ..s },
            seq![ActionView::Navigate],
        ),
        EventView::SessionOpenFailed { reason } => (
            RunnerView {
                phase: SessionPhase::Finished,
                outcome: Some(OutcomeView::ConnectionFailed { reason }),
                ..s
            },
            seq![ActionView::LogConnectionFailure { reason }],
        ),
        EventView::Navigated => (
            RunnerView { phase: SessionPhase::RunningSuite, ..s },
            seq![ActionView::RunPollScript],
        ),
        EventView::NavigationFailed { reason } => (
            RunnerView {
                phase: SessionPhase::Releasing,
                outcome: Some(OutcomeView::RunFailed { reason }),
                ..s
            },
            seq![ActionView::ReleaseSession],
        ),
        EventView::ScriptResolved { value } => spec_step_classified(s, spec_classify(value)),
        EventView::ScriptFailed { reason } => (
            RunnerView {
                phase: SessionPhase::Releasing,
                outcome: Some(OutcomeView::RunFailed { reason }),
                ..s
            },
            seq![ActionView::ReleaseSession],
        ),
        EventView::StatusReported => (
            RunnerView { phase: SessionPhase::Releasing, ..s },
            seq![ActionView::ReleaseSession],
        ),
        EventView::StatusReportFailed { reason } => (
            RunnerView { phase: SessionPhase::Releasing, ..s },
            seq![ActionView::LogReportFailure { reason }, ActionView::ReleaseSession],
        ),
        EventView::SessionReleased => (
            RunnerView { phase: SessionPhase::Finished, ..s },
            Seq::empty(),
        ),
        EventView::SessionReleaseFailed { reason } => (
            RunnerView { phase: SessionPhase::Finished, ..s },
            seq![ActionView::LogReleaseFailure { reason }],
        ),
    }
}

/// What follows once the script resolution value has been classified.
pub open spec fn spec_step_classified(s: RunnerView, classified: OutcomeView) -> (
    RunnerView,
    Seq<ActionView>,
) {
    match classified {
        OutcomeView::Passed => if s.report_to_farm {
            (
                RunnerView {
                    phase: SessionPhase::Reporting,
                    outcome: Some(OutcomeView::Passed),
                    ..s
                },
                seq![ActionView::ReportStatus { passed: true }],
            )
        } else {
            (
                RunnerView {
                    phase: SessionPhase::Releasing,
                    outcome: Some(OutcomeView::Passed),
                    ..s
                },
                seq![ActionView::ReleaseSession],
            )
        },
        OutcomeView::RunFailed { reason } => if s.report_to_farm {
            (
                RunnerView {
                    phase: SessionPhase::Reporting,
                    outcome: Some(OutcomeView::RunFailed { reason }),
                    ..s
                },
                seq![
                    ActionView::LogRunFailure { reason },
                    ActionView::ReportStatus { passed: false },
                ],
            )
        } else {
            (
                RunnerView {
                    phase: SessionPhase::Releasing,
                    outcome: Some(OutcomeView::RunFailed { reason }),
                    ..s
                },
                seq![ActionView::ReleaseSession],
            )
        },
        // classification never yields a connection failure; this arm is
        // unreachable
        OutcomeView::ConnectionFailed { .. } => (s, Seq::empty()),
    }
}

impl SessionRunner {
    /// A fresh machine for one browser configuration; `report_to_farm` says
    /// whether the classified status must be reported back to the farm
    /// service over the session itself.
    pub fn new(report_to_farm: bool) -> (r: SessionRunner)
        ensures
            r@ == (RunnerView {
                report_to_farm,
                phase: SessionPhase::Idle,
                outcome: None,
            }),
    {
        SessionRunner { report_to_farm, phase: SessionPhase::Idle, outcome: None }
    }

    /// Consume one event and return the ordered actions the caller must
    /// perform next. The machine follows `spec_step` exactly.
    pub fn step(&mut self, event: SessionEvent) -> (actions: Vec<SessionAction>)
        requires
            spec_event_fits(old(self)@, event@),
        ensures
            final(self)@ == spec_step(old(self)@, event@).0,
            spec_actions_view(actions@) == spec_step(old(self)@, event@).1,
    {
        let mut actions: Vec<SessionAction> = Vec::new();
        match event {
            SessionEvent::Start => {
                self.phase = SessionPhase::Opening;
                actions.push(SessionAction::OpenSession);
            },
            SessionEvent::SessionOpened => {
                self.phase = SessionPhase::Navigating;
                actions.push(SessionAction::Navigate);
            },
            SessionEvent::SessionOpenFailed { reason } => {
                self.phase = SessionPhase::Finished;
                self.outcome = Some(SessionOutcome::ConnectionFailed { reason: reason.clone() });
                actions.push(SessionAction::LogConnectionFailure { reason });
            },
            SessionEvent::Navigated => {
                self.phase = SessionPhase::RunningSuite;
                actions.push(SessionAction::RunPollScript);
            },
            SessionEvent::NavigationFailed { reason } => {
                self.phase = SessionPhase::Releasing;
                self.outcome = Some(SessionOutcome::RunFailed { reason });
                actions.push(SessionAction::ReleaseSession);
            },
            SessionEvent::ScriptResolved { value } => {
                let classified = classify_script_result(value);
                match classified {
                    SessionOutcome::Passed => {
                        self.outcome = Some(SessionOutcome::Passed);
                        if self.report_to_farm {
                            self.phase = SessionPhase::Reporting;
                            actions.push(SessionAction::ReportStatus { passed: true });
                        } else {
                            self.phase = SessionPhase::Releasing;
                            actions.push(SessionAction::ReleaseSession);
                        }
                    },
                    SessionOutcome::RunFailed { reason } => {
                        if self.report_to_farm {
                            self.phase = SessionPhase::Reporting;
                            self.outcome = Some(SessionOutcome::RunFailed {
                                reason: reason.clone(),
                            });
                            actions.push(SessionAction::LogRunFailure { reason });
                            actions.push(SessionAction::ReportStatus { passed: false });
                        } else {
                            self.phase = SessionPhase::Releasing;
                            self.outcome = Some(SessionOutcome::RunFailed { reason });
                            actions.push(SessionAction::ReleaseSession);
                        }
                    },
                    SessionOutcome::ConnectionFailed { .. } => {
                        // classification never yields a connection failure
                        assert(false);
                    },
                }
            },
            SessionEvent::ScriptFailed { reason } => {
                self.phase = SessionPhase::Releasing;
                self.outcome = Some(SessionOutcome::RunFailed { reason });
                actions.push(SessionAction::ReleaseSession);
            },
            SessionEvent::StatusReported => {
                self.phase = SessionPhase::Releasing;
                actions.push(SessionAction::ReleaseSession);
            },
            SessionEvent::StatusReportFailed { reason } => {
                self.phase = SessionPhase::Releasing;
                actions.push(SessionAction::LogReportFailure { reason });
                actions.push(SessionAction::ReleaseSession);
            },
            SessionEvent::SessionReleased => {
                self.phase = SessionPhase::Finished;
            },
            SessionEvent::SessionReleaseFailed { reason } => {
                self.phase = SessionPhase::Finished;
                actions.push(SessionAction::LogReleaseFailure { reason });
            },
        }
        proof {
            assert(spec_actions_view(actions@) =~= spec_step(old(self)@, event@).1);
        }
        actions
    }
}

/// The state after consuming a whole sequence of events.
pub open spec fn spec_run_state(s: RunnerView, events: Seq<EventView>) -> RunnerView
    decreases events.len(),
{
    if events.len() == 0 {
        s
    } else {
        spec_run_state(spec_step(s, events[0]).0, events.drop_first())
    }
}

/// Every action emitted while consuming a sequence of events, in order.
pub open spec fn spec_run_actions(s: RunnerView, events: Seq<EventView>) -> Seq<ActionView>
    decreases events.len(),
{
    if events.len() == 0 {
        Seq::empty()
    } else {
        spec_step(s, events[0]).1 + spec_run_actions(spec_step(s, events[0]).0, events.drop_first())
    }
}

/// Each event of the sequence fits the phase at which it arrives.
pub open spec fn spec_valid_events(s: RunnerView, events: Seq<EventView>) -> bool
    decreases events.len(),
{
    events.len() == 0 || (spec_event_fits(s, events[0]) && spec_valid_events(
        spec_step(s, events[0]).0,
        events.drop_first(),
    ))
}

/// A failing farm report is always preceded — immediately — by the local
/// failure log entry, in any run whatsoever: the diagnostic is emitted
/// before the report call can be attempted, so a throwing report cannot
/// suppress it.
pub proof fn lemma_failure_logged_before_report(s: RunnerView, events: Seq<EventView>)
    ensures
        forall|i: int|
            0 <= i < spec_run_actions(s, events).len() && (#[trigger] spec_run_actions(s, events)[i])
                == (ActionView::ReportStatus { passed: false }) ==> 1 <= i && spec_run_actions(
                s,
                events,
            )[i - 1] is LogRunFailure,
    decreases events.len(),
{
    if events.len() > 0 {
        let head = spec_step(s, events[0]).1;
        let s1 = spec_step(s, events[0]).0;
        let rest = spec_run_actions(s1, events.drop_first());
        let acts = spec_run_actions(s, events);
        lemma_failure_logged_before_report(s1, events.drop_first());
        assert forall|i: int|
            0 <= i < acts.len() && (#[trigger] acts[i]) == (ActionView::ReportStatus {
                passed: false,
            }) implies 1 <= i && acts[i - 1] is LogRunFailure by {
            if i < head.len() {
                assert(acts[i] == head[i]);
                assert(1 <= i && head[i - 1] is LogRunFailure);
                assert(acts[i - 1] == head[i - 1]);
            } else {
                assert(acts[i] == rest[i - head.len()]);
                assert(1 <= i - head.len() && rest[i - head.len() - 1] is LogRunFailure);
                assert(acts[i - 1] == rest[i - head.len() - 1]);
            }
        }
    }
}

/// From the reporting step on, the machine carries a decided outcome: every
/// session that winds down — and every finished one — has exactly one
/// terminal outcome.
pub open spec fn spec_outcome_decided(s: RunnerView) -> bool {
    (s.phase is Reporting || s.phase is Releasing || s.phase is Finished) ==> s.outcome is Some
}

/// `spec_outcome_decided` is an invariant of every run: a machine that
/// reaches `Finished` holds its terminal outcome.
pub proof fn lemma_terminal_outcome_decided(s: RunnerView, events: Seq<EventView>)
    requires
        spec_valid_events(s, events),
        spec_outcome_decided(s),
    ensures
        spec_outcome_decided(spec_run_state(s, events)),
    decreases events.len(),
{
    if events.len() > 0 {
        lemma_terminal_outcome_decided(spec_step(s, events[0]).0, events.drop_first());
    }
}

/// Once the outcome is decided and it is not a connection failure, it stays
/// decided and never becomes one: later report or release failures are
/// logged only.
pub proof fn lemma_outcome_stable(s: RunnerView, events: Seq<EventView>)
    requires
        spec_valid_events(s, events),
        s.outcome matches Some(o) && !(o is ConnectionFailed),
        !(s.phase is Idle),
        !(s.phase is Opening),
    ensures
        spec_run_state(s, events).outcome matches Some(o) && !(o is ConnectionFailed),
    decreases events.len(),
{
    if events.len() > 0 {
        lemma_outcome_stable(spec_step(s, events[0]).0, events.drop_first());
    }
}

/// A session that ends in `ConnectionFailed` never produced a farm report:
/// no session identity ever existed to report against.
pub proof fn lemma_connection_failure_never_reported(s: RunnerView, events: Seq<EventView>)
    requires
        spec_valid_events(s, events),
        spec_run_state(s, events).outcome matches Some(o) && o is ConnectionFailed,
    ensures
        forall|i: int|
            0 <= i < spec_run_actions(s, events).len() ==> !(#[trigger] spec_run_actions(
                s,
                events,
            )[i] matches ActionView::ReportStatus { .. }),
    decreases events.len(),
{
    if events.len() > 0 {
        let head = spec_step(s, events[0]).1;
        let s1 = spec_step(s, events[0]).0;
        let acts = spec_run_actions(s, events);
        let rest = spec_run_actions(s1, events.drop_first());
        if events[0] matches EventView::ScriptResolved { value } {
            // this is the only step that can emit a report, and it decides a
            // non-connection outcome, which then stays: the run cannot end in
            // `ConnectionFailed`, contradicting the premise.
            lemma_outcome_stable(s1, events.drop_first());
            assert(false);
        } else {
            lemma_connection_failure_never_reported(s1, events.drop_first());
            assert forall|i: int|
                0 <= i < acts.len() implies !(#[trigger] acts[i] matches ActionView::ReportStatus {
                .. }) by {
                if i < head.len() {
                    assert(acts[i] == head[i]);
                } else {
                    assert(acts[i] == rest[i - head.len()]);
                }
            }
        }
    }
}

} // verus!
