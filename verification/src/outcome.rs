//! Terminal results of a single remote browser session, their classification
//! from the in-page suite's resolution value, and the aggregate reduction.

use vstd::prelude::*;
use vstd::string::StringExecFns;

verus! {

/// The terminal result of driving one remote browser session.
///
/// `ConnectionFailed` arises before any session object exists (the remote
/// service could not be reached); `RunFailed` arises after a session exists
/// but the in-browser suite reported an error, or the polling protocol failed
/// or returned a non-success value.
#[derive(Debug, PartialEq, Eq)]
pub enum SessionOutcome {
    Passed,
    ConnectionFailed { reason: String },
    RunFailed { reason: String },
}

/// Mathematical model of a `SessionOutcome`: reasons as character sequences.
pub enum OutcomeView {
    Passed,
    ConnectionFailed { reason: Seq<char> },
    RunFailed { reason: Seq<char> },
}

impl View for SessionOutcome {
    type V = OutcomeView;

    open spec fn view(&self) -> OutcomeView {
        match self {
            SessionOutcome::Passed => OutcomeView::Passed,
            SessionOutcome::ConnectionFailed { reason } => (OutcomeView::ConnectionFailed {
                reason: reason@,
            }),
            SessionOutcome::RunFailed { reason } => (OutcomeView::RunFailed { reason: reason@ }),
        }
    }
}

impl SessionOutcome {
    /// Whether this outcome counts as a success in the aggregate reduction.
    pub open spec fn spec_is_passed(&self) -> bool {
        self@ is Passed
    }

    pub fn is_passed(&self) -> (r: bool)
        ensures
            r == self.spec_is_passed(),
    {
        match self {
            SessionOutcome::Passed => true,
            _ => false,
        }
    }
}

/// The in-page suite resolves the injected script with this literal on success.
pub open spec fn spec_success_sentinel() -> Seq<char> {
    "SUCCESS"@
}

/// Substituted reason when the script resolution value was not a string.
pub open spec fn spec_missing_result_reason() -> Seq<char> {
    "--zaplib_ci: no string was returned--"@
}

/// What classification must produce for a given script resolution value
/// (`None` models a non-string resolution value).
pub open spec fn spec_classify(value: Option<Seq<char>>) -> OutcomeView {
    match value {
        Some(s) => if s == spec_success_sentinel() {
            OutcomeView::Passed
        } else {
            OutcomeView::RunFailed { reason: s }
        },
        None => OutcomeView::RunFailed { reason: spec_missing_result_reason() },
    }
}

pub open spec fn spec_value_view(value: Option<String>) -> Option<Seq<char>> {
    match value {
        Some(s) => Some(s@),
        None => None,
    }
}

/// Classify the resolution value of the injected readiness-polling script:
/// the literal success sentinel means the suite passed; any other string is a
/// run failure carrying that string as its reason; a non-string resolution
/// value (`None`) is a run failure with a fixed substituted reason.
pub fn classify_script_result(value: Option<String>) -> (outcome: SessionOutcome)
    ensures
        outcome@ == spec_classify(spec_value_view(value)),
{
    match value {
        Some(s) => {
            if s == String::from_str("SUCCESS") {
                SessionOutcome::Passed
            } else {
                SessionOutcome::RunFailed { reason: s }
            }
        },
        None => SessionOutcome::RunFailed {
            reason: String::from_str("--zaplib_ci: no string was returned--"),
        },
    }
}

/// Overall success holds exactly when every session outcome is `Passed`.
pub open spec fn spec_all_passed(outcomes: Seq<OutcomeView>) -> bool {
    forall|i: int| 0 <= i < outcomes.len() ==> (#[trigger] outcomes[i]) is Passed
}

pub open spec fn spec_outcomes_view(outcomes: Seq<SessionOutcome>) -> Seq<OutcomeView> {
    outcomes.map_values(|o: SessionOutcome| o@)
}

/// The aggregate reduction: the whole run succeeds iff every per-session
/// outcome is `Passed`.
pub fn all_passed(outcomes: &Vec<SessionOutcome>) -> (r: bool)
    ensures
        r == spec_all_passed(spec_outcomes_view(outcomes@)),
{
    let ghost views = spec_outcomes_view(outcomes@);
    let mut i: usize = 0;
    while i < outcomes.len()
        invariant
            0 <= i <= outcomes.len(),
            views == spec_outcomes_view(outcomes@),
            views.len() == outcomes@.len(),
            forall|j: int| 0 <= j < i ==> (#[trigger] views[j]) is Passed,
        decreases outcomes.len() - i,
    {
        if !outcomes[i].is_passed() {
            assert(!(views[i as int] is Passed));
            return false;
        }
        i += 1;
    }
    true
}

} // verus!
