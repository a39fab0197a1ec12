//! The run-level state machine: start the asset server, wait for its handle
//! to be published, launch one session per configuration, collect every
//! terminal outcome without abandoning any sibling, stop the server exactly
//! once, and only then decide the process outcome.

use vstd::prelude::*;

use crate::outcome::OutcomeView;
use crate::outcome::SessionOutcome;

verus! {

/// Where in the run the orchestrator currently stands.
#[derive(Clone, Copy, PartialEq, Eq, Structural, Debug)]
pub enum OrchestratorPhase {
    Idle,
    StartingServer,
    RunningSessions,
    StoppingServer,
    Finished,
}

/// What the outside world reports back to the orchestrator.
pub enum OrchestratorEvent {
    Start,
    ServerBound,
    ServerBindFailed { reason: String },
    SessionCompleted { name: String, outcome: SessionOutcome },
    ServerStopped,
}

/// What the caller must perform next, in order.
#[derive(Debug, PartialEq, Eq)]
pub enum OrchestratorAction {
    StartServer,
    LaunchSessions,
    LogBindFailure { reason: String },
    LogSessionFailure { name: String, outcome: SessionOutcome },
    StopServer,
    ExitSuccess,
    ExitFailure,
}

/// Coordinates one whole run over a fixed number of sessions.
pub struct Orchestrator {
    pub phase: OrchestratorPhase,
    pub expected_sessions: usize,
    pub completed_sessions: usize,
    pub any_failure: bool,
}

pub enum OrchestratorEventView {
    Start,
    ServerBound,
    ServerBindFailed { reason: Seq<char> },
    SessionCompleted { name: Seq<char>, outcome: OutcomeView },
    ServerStopped,
}

pub enum OrchestratorActionView {
    StartServer,
    LaunchSessions,
    LogBindFailure { reason: Seq<char> },
    LogSessionFailure { name: Seq<char>, outcome: OutcomeView },
    StopServer,
    ExitSuccess,
    ExitFailure,
}

#[verifier::ext_equal]
pub struct OrchestratorView {
    pub phase: OrchestratorPhase,
    pub expected_sessions: nat,
    pub completed_sessions: nat,
    pub any_failure: bool,
}

impl View for OrchestratorEvent {
    type V = OrchestratorEventView;

    open spec fn view(&self) -> OrchestratorEventView {
        match self {
            OrchestratorEvent::Start => OrchestratorEventView::Start,
            OrchestratorEvent::ServerBound => OrchestratorEventView::ServerBound,
            OrchestratorEvent::ServerBindFailed { reason } => (
            OrchestratorEventView::ServerBindFailed { reason: reason@ }),
            OrchestratorEvent::SessionCompleted { name, outcome } => (
            OrchestratorEventView::SessionCompleted { name: name@, outcome: outcome@ }),
            OrchestratorEvent::ServerStopped => OrchestratorEventView::ServerStopped,
        }
    }
}

impl View for OrchestratorAction {
    type V = OrchestratorActionView;

    open spec fn view(&self) -> OrchestratorActionView {
        match self {
            OrchestratorAction::StartServer => OrchestratorActionView::StartServer,
            OrchestratorAction::LaunchSessions => OrchestratorActionView::LaunchSessions,
            OrchestratorAction::LogBindFailure { reason } => (
            OrchestratorActionView::LogBindFailure { reason: reason@ }),
            OrchestratorAction::LogSessionFailure { name, outcome } => (
            OrchestratorActionView::LogSessionFailure { name: name@, outcome: outcome@ }),
            OrchestratorAction::StopServer => OrchestratorActionView::StopServer,
            OrchestratorAction::ExitSuccess => OrchestratorActionView::ExitSuccess,
            OrchestratorAction::ExitFailure => OrchestratorActionView::ExitFailure,
        }
    }
}

impl View for Orchestrator {
    type V = OrchestratorView;

    open spec fn view(&self) -> OrchestratorView {
        OrchestratorView {
            phase: self.phase,
            expected_sessions: self.expected_sessions as nat,
            completed_sessions: self.completed_sessions as nat,
            any_failure: self.any_failure,
        }
    }
}

pub open spec fn spec_orch_actions_view(actions: Seq<OrchestratorAction>) -> Seq<
    OrchestratorActionView,
> {
    actions.map_values(|a: OrchestratorAction| a@)
}

/// Internal consistency: never more completions than sessions launched, and
/// completions still outstanding exactly while sessions are running.
pub open spec fn spec_orch_wf(s: OrchestratorView) -> bool {
    &&& s.expected_sessions >= 1
    &&& s.completed_sessions <= s.expected_sessions
    &&& (s.phase is RunningSessions ==> s.completed_sessions < s.expected_sessions)
    &&& ((s.phase is Idle || s.phase is StartingServer) ==> s.completed_sessions == 0)
}

/// Which events are acceptable in which phase. A `Finished` orchestrator
/// accepts no further event.
pub open spec fn spec_orch_event_fits(s: OrchestratorView, e: OrchestratorEventView) -> bool {
    match e {
        OrchestratorEventView::Start => s.phase is Idle,
        OrchestratorEventView::ServerBound => s.phase is StartingServer,
        OrchestratorEventView::ServerBindFailed { .. } => s.phase is StartingServer,
        OrchestratorEventView::SessionCompleted { .. } => s.phase is RunningSessions,
        OrchestratorEventView::ServerStopped => s.phase is StoppingServer,
    }
}

/// The full transition relation. Policy encoded here:
/// - sessions are launched only after the server's handle-publish event
///   (`ServerBound`): no navigation can be requested against an unbound
///   listener;
/// - a bind failure is fatal: it is logged and the run exits as a failure
///   with no session ever launched and no stop ever requested;
/// - every non-`Passed` outcome is logged with its configuration name as it
///   completes, and a single failing session never cancels its siblings: the
///   machine keeps collecting until every launched session has completed;
/// - `StopServer` is requested exactly once, only once every session has
///   reached a terminal outcome;
/// - the exit action comes only after the stop has been confirmed, and is
///   `ExitSuccess` exactly when no outcome was a failure.
pub open spec fn spec_orch_step(s: OrchestratorView, e: OrchestratorEventView) -> (
    OrchestratorView,
    Seq<OrchestratorActionView>,
) {
    match e {
        OrchestratorEventView::Start => (
            OrchestratorView { phase: OrchestratorPhase::StartingServer, ..s },
            seq![OrchestratorActionView::StartServer],
        ),
        OrchestratorEventView::ServerBound => (
            OrchestratorView { phase: OrchestratorPhase::RunningSessions, ..s },
            seq![OrchestratorActionView::LaunchSessions],
        ),
        OrchestratorEventView::ServerBindFailed { reason } => (
            OrchestratorView { phase: OrchestratorPhase::Finished, any_failure: true, ..s },
            seq![
                OrchestratorActionView::LogBindFailure { reason },
                OrchestratorActionView::ExitFailure,
            ],
        ),
        OrchestratorEventView::SessionCompleted { name, outcome } => {
            let completed = s.completed_sessions + 1;
            let failed = s.any_failure || !(outcome is Passed);
            let logs: Seq<OrchestratorActionView> = if outcome is Passed {
                Seq::empty()
            } else {
                seq![OrchestratorActionView::LogSessionFailure { name, outcome }]
            };
            if completed == s.expected_sessions {
                (
                    OrchestratorView {
                        phase: OrchestratorPhase::StoppingServer,
                        completed_sessions: completed,
                        any_failure: failed,
                        ..s
                    },
                    logs + seq![OrchestratorActionView::StopServer],
                )
            } else {
                (
                    OrchestratorView {
                        phase: OrchestratorPhase::RunningSessions,
                        completed_sessions: completed,
                        any_failure: failed,
                        ..s
                    },
                    logs,
                )
            }
        },
        OrchestratorEventView::ServerStopped => (
            OrchestratorView { phase: OrchestratorPhase::Finished, ..s },
            if s.any_failure {
                seq![OrchestratorActionView::ExitFailure]
            } else {
                seq![OrchestratorActionView::ExitSuccess]
            },
        ),
    }
}

impl Orchestrator {
    /// A fresh orchestrator for a run over `expected_sessions` browser
    /// configurations (the matrix is never empty: local mode has one
    /// synthetic configuration).
    pub fn new(expected_sessions: usize) -> (r: Orchestrator)
        requires
            expected_sessions >= 1,
        ensures
            r@ == (OrchestratorView {
                phase: OrchestratorPhase::Idle,
                expected_sessions: expected_sessions as nat,
                completed_sessions: 0,
                any_failure: false,
            }),
            spec_orch_wf(r@),
    {
        Orchestrator {
            phase: OrchestratorPhase::Idle,
            expected_sessions,
            completed_sessions: 0,
            any_failure: false,
        }
    }

    /// Consume one event and return the ordered actions the caller must
    /// perform next. The machine follows `spec_orch_step` exactly.
    pub fn step(&mut self, event: OrchestratorEvent) -> (actions: Vec<OrchestratorAction>)
        requires
            spec_orch_wf(old(self)@),
            spec_orch_event_fits(old(self)@, event@),
        ensures
            final(self)@ == spec_orch_step(old(self)@, event@).0,
            spec_orch_actions_view(actions@) == spec_orch_step(old(self)@, event@).1,
            spec_orch_wf(final(self)@),
    {
        let mut actions: Vec<OrchestratorAction> = Vec::new();
        match event {
            OrchestratorEvent::Start => {
                self.phase = OrchestratorPhase::StartingServer;
                actions.push(OrchestratorAction::StartServer);
            },
            OrchestratorEvent::ServerBound => {
                self.phase = OrchestratorPhase::RunningSessions;
                actions.push(OrchestratorAction::LaunchSessions);
            },
            OrchestratorEvent::ServerBindFailed { reason } => {
                self.phase = OrchestratorPhase::Finished;
                self.any_failure = true;
                actions.push(OrchestratorAction::LogBindFailure { reason });
                actions.push(OrchestratorAction::ExitFailure);
            },
            OrchestratorEvent::SessionCompleted { name, outcome } => {
                self.completed_sessions = self.completed_sessions + 1;
                if !outcome.is_passed() {
                    self.any_failure = true;
                    actions.push(OrchestratorAction::LogSessionFailure { name, outcome });
                }
                if self.completed_sessions == self.expected_sessions {
                    self.phase = OrchestratorPhase::StoppingServer;
                    actions.push(OrchestratorAction::StopServer);
                }
            },
            OrchestratorEvent::ServerStopped => {
                self.phase = OrchestratorPhase::Finished;
                if self.any_failure {
                    actions.push(OrchestratorAction::ExitFailure);
                } else {
                    actions.push(OrchestratorAction::ExitSuccess);
                }
            },
        }
        proof {
            assert(spec_orch_actions_view(actions@) =~= spec_orch_step(old(self)@, event@).1);
        }
        actions
    }
}

/// The state after consuming a whole sequence of events.
pub open spec fn spec_orch_run_state(s: OrchestratorView, events: Seq<OrchestratorEventView>) -> OrchestratorView
    decreases events.len(),
{
    if events.len() == 0 {
        s
    } else {
        spec_orch_run_state(spec_orch_step(s, events[0]).0, events.drop_first())
    }
}

/// Every action emitted while consuming a sequence of events, in order.
pub open spec fn spec_orch_run_actions(s: OrchestratorView, events: Seq<OrchestratorEventView>) -> Seq<OrchestratorActionView>
    decreases events.len(),
{
    if events.len() == 0 {
        Seq::empty()
    } else {
        spec_orch_step(s, events[0]).1 + spec_orch_run_actions(
            spec_orch_step(s, events[0]).0,
            events.drop_first(),
        )
    }
}

/// Each event of the sequence fits the phase at which it arrives.
pub open spec fn spec_orch_valid_events(s: OrchestratorView, events: Seq<OrchestratorEventView>) -> bool
    decreases events.len(),
{
    events.len() == 0 || (spec_orch_event_fits(s, events[0]) && spec_orch_valid_events(
        spec_orch_step(s, events[0]).0,
        events.drop_first(),
    ))
}

/// Every session-completion event of the sequence carried a `Passed` outcome.
pub open spec fn spec_events_all_passed(events: Seq<OrchestratorEventView>) -> bool
    decreases events.len(),
{
    events.len() == 0 || ((match events[0] {
        OrchestratorEventView::SessionCompleted { outcome, .. } => outcome is Passed,
        _ => true,
    }) && spec_events_all_passed(events.drop_first()))
}

/// Some event of the sequence reported a bind failure.
pub open spec fn spec_events_bind_failed(events: Seq<OrchestratorEventView>) -> bool
    decreases events.len(),
{
    events.len() > 0 && (events[0] is ServerBindFailed || spec_events_bind_failed(
        events.drop_first(),
    ))
}

/// How many session completions a sequence of events delivers.
pub open spec fn spec_completed_count(events: Seq<OrchestratorEventView>) -> nat
    decreases events.len(),
{
    if events.len() == 0 {
        0
    } else {
        (if events[0] is SessionCompleted {
            1 as nat
        } else {
            0 as nat
        }) + spec_completed_count(events.drop_first())
    }
}

/// Internal consistency is an invariant of every run.
pub proof fn lemma_wf_preserved(s: OrchestratorView, events: Seq<OrchestratorEventView>)
    requires
        spec_orch_valid_events(s, events),
        spec_orch_wf(s),
    ensures
        spec_orch_wf(spec_orch_run_state(s, events)),
    decreases events.len(),
{
    if events.len() > 0 {
        lemma_wf_preserved(spec_orch_step(s, events[0]).0, events.drop_first());
    }
}

/// Once the stop has been requested the session pool is closed: no further
/// completion is ever delivered.
pub proof fn lemma_no_completion_when_stopping(s: OrchestratorView, events: Seq<OrchestratorEventView>)
    requires
        spec_orch_valid_events(s, events),
        s.phase is StoppingServer || s.phase is Finished,
    ensures
        spec_completed_count(events) == 0,
    decreases events.len(),
{
    if events.len() > 0 {
        lemma_no_completion_when_stopping(spec_orch_step(s, events[0]).0, events.drop_first());
    }
}

/// No session is abandoned: the stop is requested only once the number of
/// delivered completions makes up the whole pool that was still owed.
pub proof fn lemma_stop_only_after_every_completion(s: OrchestratorView, events: Seq<OrchestratorEventView>)
    requires
        spec_orch_valid_events(s, events),
        spec_orch_wf(s),
        exists|i: int|
            0 <= i < spec_orch_run_actions(s, events).len() && (#[trigger] spec_orch_run_actions(
                s,
                events,
            )[i] is StopServer),
    ensures
        s.completed_sessions + spec_completed_count(events) == s.expected_sessions,
    decreases events.len(),
{
    let acts = spec_orch_run_actions(s, events);
    let i = choose|i: int| 0 <= i < acts.len() && (#[trigger] acts[i] is StopServer);
    if events.len() == 0 {
    } else {
        let head = spec_orch_step(s, events[0]).1;
        let s1 = spec_orch_step(s, events[0]).0;
        let tail = events.drop_first();
        let rest = spec_orch_run_actions(s1, tail);
        assert(spec_orch_valid_events(s1, tail));
        if i < head.len() {
            assert(head[i] == acts[i]);
            // only a final completion emits the stop; afterwards none remain
            assert(events[0] is SessionCompleted);
            assert(s1.phase is StoppingServer);
            lemma_no_completion_when_stopping(s1, tail);
        } else {
            assert(acts[i] == rest[i - head.len()]);
            if s1.phase is StoppingServer || s1.phase is Finished {
                // the stop cannot be requested again once the run winds down
                lemma_no_stop_when_stopping(s1, tail);
                assert(false);
            } else {
                lemma_stop_only_after_every_completion(s1, tail);
            }
        }
    }
}

/// Once the sessions are launched — or the run is already winding down — no
/// further launch is ever requested.
pub proof fn lemma_no_relaunch(s: OrchestratorView, events: Seq<OrchestratorEventView>)
    requires
        spec_orch_valid_events(s, events),
        !(s.phase is Idle),
        !(s.phase is StartingServer),
    ensures
        forall|i: int|
            0 <= i < spec_orch_run_actions(s, events).len() ==> !(#[trigger] spec_orch_run_actions(
                s,
                events,
            )[i] is LaunchSessions),
    decreases events.len(),
{
    if events.len() > 0 {
        let head = spec_orch_step(s, events[0]).1;
        let s1 = spec_orch_step(s, events[0]).0;
        let acts = spec_orch_run_actions(s, events);
        let rest = spec_orch_run_actions(s1, events.drop_first());
        lemma_no_relaunch(s1, events.drop_first());
        assert forall|i: int| 0 <= i < acts.len() implies !(#[trigger] acts[i] is LaunchSessions) by {
            if i < head.len() {
                assert(acts[i] == head[i]);
            } else {
                assert(acts[i] == rest[i - head.len()]);
            }
        }
    }
}

/// No session is launched before the server's handle-publish event: in any
/// run from a fresh orchestrator, a `LaunchSessions` action can only be the
/// immediate response to `ServerBound`, comes after `StartServer`, and is
/// never repeated.
pub proof fn lemma_launch_only_after_bind(s: OrchestratorView, events: Seq<OrchestratorEventView>)
    requires
        spec_orch_valid_events(s, events),
        s.phase is Idle,
    ensures
        forall|i: int|
            0 <= i < spec_orch_run_actions(s, events).len() && (#[trigger] spec_orch_run_actions(
                s,
                events,
            )[i] is LaunchSessions) ==> i == 1 && spec_orch_run_actions(s, events)[0]
                is StartServer && events.len() >= 2 && events[0] is Start && events[1]
                is ServerBound,
{
    let acts = spec_orch_run_actions(s, events);
    if events.len() > 0 {
        let s1 = spec_orch_step(s, events[0]).0;
        let tail = events.drop_first();
        let rest1 = spec_orch_run_actions(s1, tail);
        assert(spec_orch_valid_events(s1, tail));
        if tail.len() > 0 {
            let s2 = spec_orch_step(s1, tail[0]).0;
            let tail2 = tail.drop_first();
            let rest2 = spec_orch_run_actions(s2, tail2);
            assert(spec_orch_valid_events(s2, tail2));
            assert(!(s2.phase is Idle) && !(s2.phase is StartingServer));
            lemma_no_relaunch(s2, tail2);
            assert forall|i: int|
                0 <= i < acts.len() && (#[trigger] acts[i] is LaunchSessions) implies i == 1
                && acts[0] is StartServer && events.len() >= 2 && events[0] is Start && events[1]
                is ServerBound by {
                assert(events[1] == tail[0]);
                assert(acts == seq![OrchestratorActionView::StartServer] + (spec_orch_step(
                    s1,
                    tail[0],
                ).1 + rest2));
                if i >= 1 + spec_orch_step(s1, tail[0]).1.len() {
                    assert(acts[i] == rest2[i - 1 - spec_orch_step(s1, tail[0]).1.len()]);
                }
            }
        }
    }
}

/// The server stop is requested at most once per run, from any state.
pub proof fn lemma_stop_requested_at_most_once(s: OrchestratorView, events: Seq<OrchestratorEventView>)
    requires
        spec_orch_valid_events(s, events),
    ensures
        forall|i: int, j: int|
            0 <= i < j < spec_orch_run_actions(s, events).len() ==> !((#[trigger] spec_orch_run_actions(
                s,
                events,
            )[i] is StopServer) && (#[trigger] spec_orch_run_actions(s, events)[j] is StopServer)),
    decreases events.len(),
{
    if events.len() > 0 {
        let head = spec_orch_step(s, events[0]).1;
        let s1 = spec_orch_step(s, events[0]).0;
        let acts = spec_orch_run_actions(s, events);
        let rest = spec_orch_run_actions(s1, events.drop_first());
        lemma_stop_requested_at_most_once(s1, events.drop_first());
        if s1.phase is StoppingServer || s1.phase is Finished {
            lemma_no_stop_when_stopping(s1, events.drop_first());
        }
        assert forall|i: int, j: int|
            0 <= i < j < acts.len() implies !((#[trigger] acts[i] is StopServer) && (
        #[trigger] acts[j] is StopServer)) by {
            if j < head.len() {
                assert(acts[i] == head[i]);
                assert(acts[j] == head[j]);
            } else if i >= head.len() {
                assert(acts[i] == rest[i - head.len()]);
                assert(acts[j] == rest[j - head.len()]);
            } else {
                assert(acts[i] == head[i]);
                assert(acts[j] == rest[j - head.len()]);
            }
        }
    }
}

/// Once the stop has been requested, it is never requested again.
pub proof fn lemma_no_stop_when_stopping(s: OrchestratorView, events: Seq<OrchestratorEventView>)
    requires
        spec_orch_valid_events(s, events),
        s.phase is StoppingServer || s.phase is Finished,
    ensures
        forall|i: int|
            0 <= i < spec_orch_run_actions(s, events).len() ==> !(#[trigger] spec_orch_run_actions(
                s,
                events,
            )[i] is StopServer),
    decreases events.len(),
{
    if events.len() > 0 {
        let head = spec_orch_step(s, events[0]).1;
        let s1 = spec_orch_step(s, events[0]).0;
        let acts = spec_orch_run_actions(s, events);
        let rest = spec_orch_run_actions(s1, events.drop_first());
        lemma_no_stop_when_stopping(s1, events.drop_first());
        assert forall|i: int| 0 <= i < acts.len() implies !(#[trigger] acts[i] is StopServer) by {
            if i < head.len() {
                assert(acts[i] == head[i]);
            } else {
                assert(acts[i] == rest[i - head.len()]);
            }
        }
    }
}

/// The recorded failure flag says exactly whether anything has gone wrong:
/// a bind failure, or any completed session whose outcome was not `Passed`.
pub proof fn lemma_failure_flag_characterized(s: OrchestratorView, events: Seq<OrchestratorEventView>)
    requires
        spec_orch_valid_events(s, events),
    ensures
        spec_orch_run_state(s, events).any_failure == (s.any_failure || !spec_events_all_passed(
            events,
        ) || spec_events_bind_failed(events)),
    decreases events.len(),
{
    if events.len() > 0 {
        lemma_failure_flag_characterized(spec_orch_step(s, events[0]).0, events.drop_first());
    }
}

/// The run's verdict is honest: `ExitSuccess` is emitted only when every
/// completed session passed and the server bound; `ExitFailure` only when
/// the bind failed or some session did not pass.
pub proof fn lemma_exit_reflects_outcomes(s: OrchestratorView, events: Seq<OrchestratorEventView>)
    requires
        spec_orch_valid_events(s, events),
        !s.any_failure,
    ensures
        forall|i: int|
            0 <= i < spec_orch_run_actions(s, events).len() && (#[trigger] spec_orch_run_actions(
                s,
                events,
            )[i] is ExitSuccess) ==> spec_events_all_passed(events) && !spec_events_bind_failed(
                events,
            ),
        forall|i: int|
            0 <= i < spec_orch_run_actions(s, events).len() && (#[trigger] spec_orch_run_actions(
                s,
                events,
            )[i] is ExitFailure) ==> !spec_events_all_passed(events) || spec_events_bind_failed(
                events,
            ),
    decreases events.len(),
{
    if events.len() > 0 {
        let head = spec_orch_step(s, events[0]).1;
        let s1 = spec_orch_step(s, events[0]).0;
        let acts = spec_orch_run_actions(s, events);
        let tail = events.drop_first();
        let rest = spec_orch_run_actions(s1, tail);
        assert(spec_events_all_passed(events) <==> ((match events[0] {
            OrchestratorEventView::SessionCompleted { outcome, .. } => outcome is Passed,
            _ => true,
        }) && spec_events_all_passed(tail)));
        assert(spec_events_bind_failed(events) <==> (events[0] is ServerBindFailed
            || spec_events_bind_failed(tail)));
        assert(spec_orch_valid_events(s1, tail));
        if s1.phase is Finished && tail.len() > 0 {
            assert(spec_orch_event_fits(s1, tail[0]));
            assert(false);
        }
        if !s1.any_failure {
            lemma_exit_reflects_outcomes(s1, tail);
        } else {
            lemma_failed_never_exits_success(s1, tail);
        }
        assert forall|i: int|
            0 <= i < acts.len() && (#[trigger] acts[i] is ExitSuccess) implies spec_events_all_passed(
            events,
        ) && !spec_events_bind_failed(events) by {
            if i < head.len() {
                assert(acts[i] == head[i]);
            } else {
                assert(acts[i] == rest[i - head.len()]);
            }
        }
        assert forall|i: int|
            0 <= i < acts.len() && (#[trigger] acts[i] is ExitFailure) implies !spec_events_all_passed(
            events,
        ) || spec_events_bind_failed(events) by {
            if i < head.len() {
                assert(acts[i] == head[i]);
            } else {
                assert(acts[i] == rest[i - head.len()]);
            }
        }
    }
}

/// Once a failure is recorded, the run can never end with `ExitSuccess`.
pub proof fn lemma_failed_never_exits_success(s: OrchestratorView, events: Seq<OrchestratorEventView>)
    requires
        spec_orch_valid_events(s, events),
        s.any_failure,
    ensures
        forall|i: int|
            0 <= i < spec_orch_run_actions(s, events).len() ==> !(#[trigger] spec_orch_run_actions(
                s,
                events,
            )[i] is ExitSuccess),
    decreases events.len(),
{
    if events.len() > 0 {
        let head = spec_orch_step(s, events[0]).1;
        let s1 = spec_orch_step(s, events[0]).0;
        let acts = spec_orch_run_actions(s, events);
        let rest = spec_orch_run_actions(s1, events.drop_first());
        lemma_failed_never_exits_success(s1, events.drop_first());
        assert forall|i: int| 0 <= i < acts.len() implies !(#[trigger] acts[i] is ExitSuccess) by {
            if i < head.len() {
                assert(acts[i] == head[i]);
            } else {
                assert(acts[i] == rest[i - head.len()]);
            }
        }
    }
}

} // verus!
