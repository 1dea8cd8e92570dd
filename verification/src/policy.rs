//! The timeout and diagnostics policy: tells a timeout from any other
//! failure of a render session, attributes it to a readiness branch, and
//! applies the disposition that the caller chose.

use crate::readiness::{Branch, ReadinessEngine};
use crate::report::{Artifacts, Diagnostics, ProbeResult, TimeoutReport};
use crate::session::{SessionState, Step};
use crate::text::{contains, occurs_at, str_contains};
use vstd::prelude::*;

verus! {

/// Failure message of a readiness wait that reached its deadline.
pub const READINESS_TIMEOUT: &'static str = "wait_until_ready timeout";

/// Failure message of a wait for images and fonts that reached its deadline.
pub const SETTLE_TIMEOUT: &'static str = "images/fonts timeout";

/// What a caller wants done with a page that does not settle in time.
#[derive(Clone, Copy, Debug, PartialEq, Eq)]
pub enum OnTimeout {
    /// Degrade into a best-effort result and complete normally.
    Continue,
    /// Emit the timeout report and signal the timeout.
    Report,
    /// Fail with the timeout's reason.
    Fail,
}

/// Where the failure of a render session is sent.
#[derive(Clone, Copy, Debug, PartialEq, Eq)]
pub enum FailureRoute {
    /// A timeout: capture diagnostics and report, with the branch blamed.
    Diagnose(Branch),
    /// Any other failure: fatal, once a headful retry is out of the question.
    Fatal,
}

/// What a render session does about a step that failed.
#[derive(Clone, Copy, Debug, PartialEq, Eq)]
pub enum StepFailure {
    /// Go on with the next step: the step was optional.
    Continue,
    /// Stop, capture diagnostics and report a timeout, with the branch blamed.
    Diagnose(Branch),
    /// Stop and fail with the step's error.
    Fail,
}

/// How one probe ends.
#[derive(Clone, Debug, PartialEq, Eq)]
pub enum Outcome {
    /// The page was obtained.
    Page(ProbeResult),
    /// The page did not settle in time and the caller asked for the report.
    TimedOut(TimeoutReport),
    /// The probe failed, with this message.
    Failed(String),
}

/// Whether a failure message reads like a timeout.
pub open spec fn timeout_like(message: Seq<char>) -> bool {
    contains(message, "timeout"@) || contains(message, "EventNeverCame"@)
}

/// The readiness branch that a timeout is attributed to, going by its
/// message: network idleness or the ready state where the message names it,
/// and the heuristic otherwise.
pub open spec fn blamed_branch(message: Seq<char>) -> Branch {
    if contains(message, "network idle"@) {
        Branch::NetworkIdle
    } else if contains(message, "readyState"@) {
        Branch::ReadyState
    } else {
        Branch::Heuristic
    }
}

/// Where a failure with this message is sent.
pub open spec fn route_of(message: Seq<char>) -> FailureRoute {
    if timeout_like(message) {
        FailureRoute::Diagnose(blamed_branch(message))
    } else {
        FailureRoute::Fatal
    }
}

/// What a session does about the failure of `step` with this message. An
/// optional step is passed over. Before the page is navigated to, a failure
/// is never a timeout of the page and fails the session. From navigation on,
/// a failure is sent where its message routes it.
pub open spec fn step_failure(step: Step, message: Seq<char>) -> StepFailure {
    if !step.indispensable() {
        StepFailure::Continue
    } else if step.state() == SessionState::Launching || step.state()
        == SessionState::Configuring {
        StepFailure::Fail
    } else {
        match route_of(message) {
            FailureRoute::Diagnose(branch) => StepFailure::Diagnose(branch),
            FailureRoute::Fatal => StepFailure::Fail,
        }
    }
}

/// The failure message of a selector wait that reached its deadline.
pub open spec fn selector_timeout(selector: Seq<char>) -> Seq<char> {
    "selector '"@ + selector + "' not found before timeout"@
}

/// The failure message of a readiness wait that timed out: the selector's
/// where a branch had been chosen and the selector was what the wait was
/// still waiting for, and the general one otherwise.
pub open spec fn readiness_timeout(engine: ReadinessEngine, selector: Option<Seq<char>>) -> Seq<
    char,
> {
    match selector {
        Some(text) if engine.branch is Some => selector_timeout(text),
        _ => READINESS_TIMEOUT@,
    }
}

/// What becomes of a timeout under each disposition: under `Report` the
/// report itself, under `Continue` the best-effort result made from it, and
/// under `Fail` a failure with the report's reason.
pub open spec fn disposed(
    on_timeout: OnTimeout,
    input_url: String,
    report: TimeoutReport,
    run_dir: String,
) -> Outcome {
    match on_timeout {
        OnTimeout::Report => Outcome::TimedOut(report),
        OnTimeout::Continue => Outcome::Page(ProbeResult::of_timeout(input_url, report, run_dir)),
        OnTimeout::Fail => Outcome::Failed(report.reason),
    }
}

/// Reads from a timeout's message the readiness branch to attribute it to.
pub fn blame(message: &str) -> (r: Branch)
    ensures
        r == blamed_branch(message@),
{
    if str_contains(message, "network idle") {
        Branch::NetworkIdle
    } else if str_contains(message, "readyState") {
        Branch::ReadyState
    } else {
        Branch::Heuristic
    }
}

/// Decides where the failure of a render session is sent.
pub fn route_failure(message: &str) -> (r: FailureRoute)
    ensures
        r == route_of(message@),
{
    if str_contains(message, "timeout") || str_contains(message, "EventNeverCame") {
        FailureRoute::Diagnose(blame(message))
    } else {
        FailureRoute::Fatal
    }
}

/// Decides what a session does about a step that failed.
pub fn on_step_failure(step: Step, message: &str) -> (r: StepFailure)
    ensures
        r == step_failure(step, message@),
{
    if !step.is_indispensable() {
        return StepFailure::Continue;
    }
    match step.stage() {
        SessionState::Launching => StepFailure::Fail,
        SessionState::Configuring => StepFailure::Fail,
        _ => match route_failure(message) {
            FailureRoute::Diagnose(branch) => StepFailure::Diagnose(branch),
            FailureRoute::Fatal => StepFailure::Fail,
        },
    }
}

/// Builds the failure message of a selector wait that reached its deadline.
pub fn selector_timeout_message(selector: &str) -> (r: String)
    ensures
        r@ == selector_timeout(selector@),
{
    let mut r = String::from_str("selector '");
    r.append(selector);
    r.append("' not found before timeout");
    r
}

/// Builds the failure message of a readiness wait that timed out, from the
/// engine as the wait left it and the selector that was awaited, if any.
pub fn readiness_timeout_message(engine: &ReadinessEngine, selector: Option<&str>) -> (r: String)
    ensures
        r@ == readiness_timeout(
            *engine,
            match selector {
                Some(text) => Some(text@),
                None => None,
            },
        ),
{
    match selector {
        Some(text) => {
            if engine.branch.is_some() {
                selector_timeout_message(text)
            } else {
                String::from_str(READINESS_TIMEOUT)
            }
        },
        None => String::from_str(READINESS_TIMEOUT),
    }
}

impl TimeoutReport {
    /// The report of a timeout: what is given, with the blamed branch read
    /// from the reason.
    pub open spec fn of(
        reason: String,
        url: String,
        deadline_ms: u64,
        elapsed_ms: u64,
        diagnostics: Diagnostics,
        artifacts: Artifacts,
    ) -> TimeoutReport {
        TimeoutReport {
            reason,
            url,
            deadline_ms,
            elapsed_ms,
            wait_branch: blamed_branch(reason@),
            diagnostics,
            artifacts,
        }
    }

    /// Builds the report of a timeout.
    pub fn new(
        reason: String,
        url: String,
        deadline_ms: u64,
        elapsed_ms: u64,
        diagnostics: Diagnostics,
        artifacts: Artifacts,
    ) -> (r: TimeoutReport)
        ensures
            r == TimeoutReport::of(reason, url, deadline_ms, elapsed_ms, diagnostics, artifacts),
    {
        let wait_branch = blame(reason.as_str());
        TimeoutReport { reason, url, deadline_ms, elapsed_ms, wait_branch, diagnostics, artifacts }
    }
}

impl Outcome {
    /// The exit status that goes with an outcome: zero for a page, two for a
    /// reported timeout, one for a failure.
    pub open spec fn status(self) -> u8 {
        match self {
            Outcome::Page(_) => 0,
            Outcome::TimedOut(_) => 2,
            Outcome::Failed(_) => 1,
        }
    }

    /// The exit status that goes with this outcome.
    pub fn exit_status(&self) -> (r: u8)
        ensures
            r == self.status(),
    {
        match self {
            Outcome::Page(_) => 0,
            Outcome::TimedOut(_) => 2,
            Outcome::Failed(_) => 1,
        }
    }
}

/// Applies the caller's disposition to a timeout.
pub fn dispose(on_timeout: OnTimeout, input_url: String, report: TimeoutReport, run_dir: String)
    -> (r: Outcome)
    ensures
        r == disposed(on_timeout, input_url, report, run_dir),
{
    match on_timeout {
        OnTimeout::Report => Outcome::TimedOut(report),
        OnTimeout::Continue => Outcome::Page(ProbeResult::from_timeout(input_url, report, run_dir)),
        OnTimeout::Fail => Outcome::Failed(report.reason),
    }
}

/// The messages with which the readiness waits report a reached deadline all
/// read like timeouts, so each is sent to diagnostics and none is fatal.
pub proof fn wait_timeouts_are_diagnosed(selector: Seq<char>)
    ensures
        route_of(READINESS_TIMEOUT@) is Diagnose,
        route_of(SETTLE_TIMEOUT@) is Diagnose,
        route_of(selector_timeout(selector)) is Diagnose,
{
    reveal_strlit("timeout");
    reveal_strlit("wait_until_ready timeout");
    reveal_strlit("images/fonts timeout");
    reveal_strlit("' not found before timeout");
    assert(occurs_at(READINESS_TIMEOUT@, "timeout"@, 17)) by {
        assert(READINESS_TIMEOUT@.subrange(17, 24) =~= "timeout"@);
    }
    assert(occurs_at(SETTLE_TIMEOUT@, "timeout"@, 13)) by {
        assert(SETTLE_TIMEOUT@.subrange(13, 20) =~= "timeout"@);
    }
    let message = selector_timeout(selector);
    let at = message.len() - 7;
    assert(occurs_at(message, "timeout"@, at)) by {
        assert(message.subrange(at, at + 7) =~= "timeout"@);
    }
}

/// A readiness wait that reaches its deadline never fails a session
/// outright: whatever selector was awaited, its failure is diagnosed.
pub proof fn readiness_timeout_is_diagnosed(engine: ReadinessEngine, selector: Option<Seq<char>>)
    ensures
        step_failure(Step::AwaitReadiness, readiness_timeout(engine, selector)) is Diagnose,
{
    match selector {
        Some(text) => {
            wait_timeouts_are_diagnosed(text);
        },
        None => {
            wait_timeouts_are_diagnosed(Seq::empty());
        },
    }
}

/// From navigation to capture, the failure of any step but the three
/// optional captures is classified by its message alone: one that reads like
/// a timeout is diagnosed, with the branch that the message blames, and any
/// other fails the session. This holds of navigation, of the readiness wait,
/// of the interstitial check, of the HTML capture and of the wait for images
/// and fonts.
pub proof fn page_failures_are_routed_by_message(step: Step, message: Seq<char>)
    requires
        step.state() == SessionState::Navigating || step.state()
            == SessionState::AwaitingReadiness || step == Step::AssessAntiBot || step
            == Step::CaptureHtml || step == Step::SettleImagesFonts,
    ensures
        timeout_like(message) ==> step_failure(step, message) == StepFailure::Diagnose(
            blamed_branch(message),
        ),
        !timeout_like(message) ==> step_failure(step, message) == StepFailure::Fail,
{
}

/// A wait for images and fonts that reaches its deadline before printing is
/// diagnosed as a timeout.
pub proof fn settle_timeout_is_diagnosed()
    ensures
        step_failure(Step::SettleImagesFonts, SETTLE_TIMEOUT@) is Diagnose,
{
    wait_timeouts_are_diagnosed(Seq::empty());
}

/// Each disposition ends with the exit status that is its own: normal
/// completion for `Continue`, the timeout status for `Report`, and failure
/// for `Fail`.
pub proof fn dispositions_have_distinct_exits(
    on_timeout: OnTimeout,
    input_url: String,
    report: TimeoutReport,
    run_dir: String,
)
    ensures
        disposed(on_timeout, input_url, report, run_dir).status() == (match on_timeout {
            OnTimeout::Continue => 0u8,
            OnTimeout::Report => 2u8,
            OnTimeout::Fail => 1u8,
        }),
{
}

} // verus!
