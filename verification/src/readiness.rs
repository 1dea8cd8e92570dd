//! The readiness engine: decides when a rendered page has settled.
//!
//! The engine is a state machine. Its caller owns the clock and the tab: it
//! hands the engine one event at a time (a wake-up, or the reading of the
//! probe that the engine asked for) together with the current time in
//! milliseconds, and carries out the request that the engine answers with.
//! Each polling round checks the deadline, then the ready state, then network
//! idleness, then the DOM heuristic; the first strategy that holds names the
//! branch. A requested selector is awaited afterwards as a further gate.

use crate::gates::{GateOutcome, GatePhase, GateRequest, SelectorGate, SettleGate};
use crate::signals::{Reading, ReadyState, Signals};
use crate::text::{chars_eq, chars_of, fold_ascii, fold_chars, str_eq};
use vstd::prelude::*;

verus! {

/// Pause between two polling rounds, in milliseconds.
pub const POLL_INTERVAL_MS: u64 = 200;

/// How long the DOM heuristic must hold before it counts, in milliseconds.
pub const HEURISTIC_CONFIRM_MS: u64 = 600;

/// Longest wait for images and fonts once the DOM heuristic counts, in
/// milliseconds.
pub const SETTLE_LIMIT_MS: u64 = 800;

/// Which ready state the caller asks for.
#[derive(Clone, Copy, Debug, PartialEq, Eq)]
pub enum WaitReady {
    /// Only a complete document is ready.
    Complete,
    /// An interactive document is ready too.
    Interactive,
    /// Readiness waiting is switched off.
    Disabled,
}

impl WaitReady {
    /// The setting that a text names: `none` in any letter case switches
    /// waiting off, `interactive` accepts an interactive document, and
    /// everything else asks for a complete one.
    pub open spec fn named(s: Seq<char>) -> WaitReady {
        if fold_ascii(s) == "none"@ {
            WaitReady::Disabled
        } else if s == "interactive"@ {
            WaitReady::Interactive
        } else {
            WaitReady::Complete
        }
    }

    /// Reads the setting from its text.
    pub fn from_text(s: &str) -> (r: WaitReady)
        ensures
            r == WaitReady::named(s@),
    {
        let chars = chars_of(s);
        let folded = fold_chars(chars.as_slice());
        let none = chars_of("none");
        if chars_eq(folded.as_slice(), none.as_slice()) {
            WaitReady::Disabled
        } else if str_eq(s, "interactive") {
            WaitReady::Interactive
        } else {
            WaitReady::Complete
        }
    }

    /// Whether a document in `state` meets this setting.
    pub open spec fn accepts(self, state: ReadyState) -> bool {
        match self {
            WaitReady::Interactive => state != ReadyState::Loading,
            _ => state == ReadyState::Complete,
        }
    }
}

/// The strategy by which a page was declared settled.
#[derive(Clone, Copy, Debug, PartialEq, Eq)]
pub enum Branch {
    ReadyState,
    NetworkIdle,
    Heuristic,
    Selector,
    /// Readiness waiting was switched off.
    NoWait,
}

impl Branch {
    /// The name under which a branch is reported.
    pub open spec fn label(self) -> Seq<char> {
        match self {
            Branch::ReadyState => "ready_state"@,
            Branch::NetworkIdle => "network_idle"@,
            Branch::Heuristic => "heuristic"@,
            Branch::Selector => "selector"@,
            Branch::NoWait => "none"@,
        }
    }

    /// The name under which this branch is reported.
    pub fn name(self) -> (r: &'static str)
        ensures
            r@ == self.label(),
    {
        match self {
            Branch::ReadyState => "ready_state",
            Branch::NetworkIdle => "network_idle",
            Branch::Heuristic => "heuristic",
            Branch::Selector => "selector",
            Branch::NoWait => "none",
        }
    }
}

/// What the engine is asked to wait for. Times are milliseconds on the
/// caller's clock; `deadline_ms` is a point on that clock.
#[derive(Clone, Copy, Debug, PartialEq, Eq)]
pub struct ReadinessConfig {
    pub wait_ready: WaitReady,
    /// How long the network must stay quiet.
    pub network_idle_ms: u64,
    /// Most pending requests that still count as quiet.
    pub idle_threshold: u64,
    /// Least visible text length for the DOM heuristic.
    pub heuristic_min_chars: u64,
    pub deadline_ms: u64,
    /// Whether a selector must be present before the page counts as ready.
    pub await_selector: bool,
}

/// How the engine's wait ended.
#[derive(Clone, Copy, Debug, PartialEq, Eq)]
pub enum ReadinessResult {
    /// The page settled by this branch.
    Ready(Branch),
    /// The deadline came first; the last value seen from every probe.
    TimedOut(Signals),
}

/// What the engine asks of its caller.
#[derive(Clone, Copy, Debug, PartialEq, Eq)]
pub enum Request {
    ProbeReadyState,
    ProbeNetwork,
    ProbeDom,
    ProbeImagesFonts,
    ProbeSelector,
    /// Pause for this long, then hand back `Reading::Wake`.
    Sleep { ms: u64 },
    /// The wait is over.
    Finished(ReadinessResult),
}

/// Where the engine stands.
#[derive(Clone, Copy, Debug, PartialEq, Eq)]
pub enum Phase {
    /// Between polling rounds: waiting to be woken.
    Resting,
    /// Waiting for the ready-state reading of this round.
    AwaitReadyState,
    /// Waiting for the network reading of this round.
    AwaitNetwork,
    /// Waiting for the DOM reading of this round.
    AwaitDom,
    /// The DOM heuristic counted; waiting for images and fonts.
    Settling(SettleGate),
    /// A branch was chosen; waiting for the selector.
    Selecting(SelectorGate),
    /// Over, with this result.
    Done(ReadinessResult),
}

/// The readiness engine's state.
#[derive(Clone, Copy, Debug, PartialEq, Eq)]
pub struct ReadinessEngine {
    pub cfg: ReadinessConfig,
    pub phase: Phase,
    /// Resource count seen in the previous round; -1 before the first.
    pub last_resources: i64,
    /// Since when the network has been quiet without a break.
    pub idle_since: Option<u64>,
    /// Since when the DOM heuristic has held without a break.
    pub heuristic_since: Option<u64>,
    /// The branch chosen, once one has been chosen.
    pub branch: Option<Branch>,
    /// When the latest polling round began.
    pub round_started: u64,
    /// The last value seen from every probe.
    pub last: Signals,
}

/// Time from `since` to `now`, zero where the clock seems to have run back.
pub open spec fn elapsed(since: u64, now: u64) -> u64 {
    if now >= since {
        (now - since) as u64
    } else {
        0
    }
}

/// The earlier of the overall deadline and `SETTLE_LIMIT_MS` after `now`.
pub open spec fn settle_deadline(deadline: u64, now: u64) -> u64 {
    if now + SETTLE_LIMIT_MS <= deadline {
        (now + SETTLE_LIMIT_MS) as u64
    } else {
        deadline
    }
}

impl ReadinessEngine {
    /// The engine before its first event.
    pub open spec fn initial(cfg: ReadinessConfig) -> ReadinessEngine {
        ReadinessEngine {
            cfg,
            phase: Phase::Resting,
            last_resources: -1i64,
            idle_since: None,
            heuristic_since: None,
            branch: None,
            round_started: 0,
            last: Signals::unobserved(),
        }
    }

    /// The chosen branch agrees with the configuration and the clock: it is
    /// `NoWait` exactly when waiting is switched off, it is never `Selector`,
    /// and any other branch was found in a round begun before the deadline.
    pub open spec fn branch_sound(self) -> bool {
        &&& self.branch matches Some(branch)
        &&& branch == Branch::NoWait <==> self.cfg.wait_ready == WaitReady::Disabled
        &&& branch != Branch::Selector
        &&& branch != Branch::NoWait ==> self.round_started < self.cfg.deadline_ms
    }

    /// The branch that a passed selector wait reports: the one chosen before
    /// it, or `Selector` where the wait was entered without one.
    pub open spec fn reported_branch(self) -> Branch {
        match self.branch {
            Some(branch) => branch,
            None => Branch::Selector,
        }
    }

    /// The engine is in a state that its own transitions can reach.
    pub open spec fn wf(self) -> bool {
        match self.phase {
            Phase::Resting => true,
            Phase::AwaitReadyState | Phase::AwaitNetwork | Phase::AwaitDom => {
                &&& self.cfg.wait_ready != WaitReady::Disabled
                &&& self.round_started < self.cfg.deadline_ms
            },
            Phase::Settling(gate) => {
                &&& self.cfg.wait_ready != WaitReady::Disabled
                &&& self.round_started < self.cfg.deadline_ms
                &&& gate.until <= self.cfg.deadline_ms
                &&& !(gate.phase is Done)
            },
            Phase::Selecting(gate) => {
                &&& self.cfg.await_selector
                &&& gate.until == self.cfg.deadline_ms
                &&& !(gate.phase is Done)
                &&& self.branch_sound()
            },
            Phase::Done(ReadinessResult::Ready(branch)) => {
                &&& self.branch == Some(branch)
                &&& self.branch_sound()
            },
            Phase::Done(ReadinessResult::TimedOut(_)) => true,
        }
    }

    /// The request that the engine is waiting on.
    pub open spec fn outstanding(self) -> Request {
        match self.phase {
            Phase::Resting => Request::Sleep { ms: POLL_INTERVAL_MS },
            Phase::AwaitReadyState => Request::ProbeReadyState,
            Phase::AwaitNetwork => Request::ProbeNetwork,
            Phase::AwaitDom => Request::ProbeDom,
            Phase::Settling(gate) => match crate::gates::outstanding(
                gate.phase,
                crate::gates::SETTLE_INTERVAL_MS,
            ) {
                GateRequest::Probe => Request::ProbeImagesFonts,
                GateRequest::Sleep { ms } => Request::Sleep { ms },
                GateRequest::Finished(_) => Request::Finished(
                    ReadinessResult::Ready(Branch::Heuristic),
                ),
            },
            Phase::Selecting(gate) => match crate::gates::outstanding(
                gate.phase,
                crate::gates::SELECTOR_INTERVAL_MS,
            ) {
                GateRequest::Probe => Request::ProbeSelector,
                GateRequest::Sleep { ms } => Request::Sleep { ms },
                GateRequest::Finished(_) => Request::Finished(
                    ReadinessResult::Ready(self.reported_branch()),
                ),
            },
            Phase::Done(result) => Request::Finished(result),
        }
    }

    /// Ends the wait with `result`.
    pub open spec fn finish(self, result: ReadinessResult) -> (ReadinessEngine, Request) {
        (ReadinessEngine { phase: Phase::Done(result), ..self }, Request::Finished(result))
    }

    /// Feeds one event to the selector gate. Passing it ends the wait
    /// as ready by the chosen branch; its expiry ends the wait as timed out.
    pub open spec fn select(self, gate: SelectorGate, now: u64, reading: Reading) -> (
        ReadinessEngine,
        Request,
    ) {
        let seen = if gate.phase == GatePhase::Probing && reading is Selector {
            self.last.record(reading)
        } else {
            self.last
        };
        let engine = ReadinessEngine { last: seen, ..self };
        let (gate, request) = gate.next(now, reading);
        match request {
            GateRequest::Probe => (
                ReadinessEngine { phase: Phase::Selecting(gate), ..engine },
                Request::ProbeSelector,
            ),
            GateRequest::Sleep { ms } => (
                ReadinessEngine { phase: Phase::Selecting(gate), ..engine },
                Request::Sleep { ms },
            ),
            GateRequest::Finished(GateOutcome::Passed) => engine.finish(
                ReadinessResult::Ready(engine.reported_branch()),
            ),
            GateRequest::Finished(GateOutcome::Expired) => engine.finish(
                ReadinessResult::TimedOut(engine.last),
            ),
        }
    }

    /// A strategy has held at time `now`: records `branch`, then either ends
    /// the wait as ready or, where a selector is awaited, opens the selector
    /// gate, which runs up to the overall deadline.
    pub open spec fn chosen(self, now: u64, branch: Branch) -> (ReadinessEngine, Request) {
        let engine = ReadinessEngine { branch: Some(branch), ..self };
        if self.cfg.await_selector {
            engine.select(
                SelectorGate { until: self.cfg.deadline_ms, phase: GatePhase::Resting },
                now,
                Reading::Wake,
            )
        } else {
            engine.finish(ReadinessResult::Ready(branch))
        }
    }

    /// Feeds one event to the wait for images and fonts. However that wait
    /// ends, the heuristic branch is chosen.
    pub open spec fn settle(self, gate: SettleGate, now: u64, reading: Reading) -> (
        ReadinessEngine,
        Request,
    ) {
        let seen = if gate.phase == GatePhase::Probing && reading is ImagesFonts {
            self.last.record(reading)
        } else {
            self.last
        };
        let engine = ReadinessEngine { last: seen, ..self };
        let (gate, request) = gate.next(now, reading);
        match request {
            GateRequest::Probe => (
                ReadinessEngine { phase: Phase::Settling(gate), ..engine },
                Request::ProbeImagesFonts,
            ),
            GateRequest::Sleep { ms } => (
                ReadinessEngine { phase: Phase::Settling(gate), ..engine },
                Request::Sleep { ms },
            ),
            GateRequest::Finished(_) => engine.chosen(now, Branch::Heuristic),
        }
    }

    /// Begins a polling round at time `now`. With waiting switched off the
    /// `NoWait` branch is chosen at once, whatever the time. Otherwise the
    /// wait times out once the deadline is reached, and else the round starts
    /// with the ready-state probe.
    pub open spec fn begin_round(self, now: u64) -> (ReadinessEngine, Request) {
        if self.cfg.wait_ready == WaitReady::Disabled {
            self.chosen(now, Branch::NoWait)
        } else if now >= self.cfg.deadline_ms {
            self.finish(ReadinessResult::TimedOut(self.last))
        } else {
            (
                ReadinessEngine { phase: Phase::AwaitReadyState, round_started: now, ..self },
                Request::ProbeReadyState,
            )
        }
    }

    /// Takes the ready-state reading of a round: an accepted state chooses the
    /// ready-state branch, any other moves on to the network probe.
    pub open spec fn on_ready_state(self, now: u64, state: ReadyState) -> (
        ReadinessEngine,
        Request,
    ) {
        let engine = ReadinessEngine {
            last: self.last.record(Reading::ReadyState(state)),
            ..self
        };
        if self.cfg.wait_ready.accepts(state) {
            engine.chosen(now, Branch::ReadyState)
        } else {
            (ReadinessEngine { phase: Phase::AwaitNetwork, ..engine }, Request::ProbeNetwork)
        }
    }

    /// Whether a network reading is quiet: no more pending requests than the
    /// threshold, and the same resource count as in the previous round.
    pub open spec fn quiet(self, pending: i64, resources: i64) -> bool {
        pending <= self.cfg.idle_threshold && resources == self.last_resources
    }

    /// Takes the network reading of a round. A quiet reading keeps or starts
    /// the quiet period, any other ends it. A quiet period that has lasted
    /// `network_idle_ms` chooses the network-idle branch; otherwise the round
    /// moves on to the DOM probe.
    pub open spec fn on_network(self, now: u64, pending: i64, resources: i64) -> (
        ReadinessEngine,
        Request,
    ) {
        let quiet = self.quiet(pending, resources);
        let since = if quiet {
            match self.idle_since {
                Some(t) => Some(t),
                None => Some(now),
            }
        } else {
            None
        };
        let engine = ReadinessEngine {
            last: self.last.record(Reading::Network { pending, resources }),
            last_resources: resources,
            idle_since: since,
            ..self
        };
        if since is Some && elapsed(since->0, now) >= self.cfg.network_idle_ms {
            engine.chosen(now, Branch::NetworkIdle)
        } else {
            (ReadinessEngine { phase: Phase::AwaitDom, ..engine }, Request::ProbeDom)
        }
    }

    /// Whether a DOM reading looks like content: enough visible text and a
    /// primary content container.
    pub open spec fn rich(self, text_len: u64, has_container: bool) -> bool {
        text_len >= self.cfg.heuristic_min_chars && has_container
    }

    /// Takes the DOM reading of a round. A rich reading keeps or starts the
    /// rich period, any other ends it. A rich period that has lasted
    /// `HEURISTIC_CONFIRM_MS` opens the wait for images and fonts, bounded by
    /// `settle_deadline`; otherwise the round is over and the engine rests
    /// for `POLL_INTERVAL_MS`.
    pub open spec fn on_dom(self, now: u64, text_len: u64, has_container: bool) -> (
        ReadinessEngine,
        Request,
    ) {
        let rich = self.rich(text_len, has_container);
        let since = if rich {
            match self.heuristic_since {
                Some(t) => Some(t),
                None => Some(now),
            }
        } else {
            None
        };
        let engine = ReadinessEngine {
            last: self.last.record(Reading::Dom { text_len, has_container }),
            heuristic_since: since,
            ..self
        };
        if since is Some && elapsed(since->0, now) >= HEURISTIC_CONFIRM_MS {
            engine.settle(
                SettleGate {
                    until: settle_deadline(self.cfg.deadline_ms, now),
                    phase: GatePhase::Resting,
                },
                now,
                Reading::Wake,
            )
        } else {
            (
                ReadinessEngine { phase: Phase::Resting, ..engine },
                Request::Sleep { ms: POLL_INTERVAL_MS },
            )
        }
    }

    /// The engine and the request that follow from one event at time `now`.
    /// An event that does not answer the outstanding request leaves the
    /// engine as it is and repeats that request.
    pub open spec fn next(self, now: u64, reading: Reading) -> (ReadinessEngine, Request) {
        match self.phase {
            Phase::Resting => match reading {
                Reading::Wake => self.begin_round(now),
                _ => (self, self.outstanding()),
            },
            Phase::AwaitReadyState => match reading {
                Reading::ReadyState(state) => self.on_ready_state(now, state),
                _ => (self, self.outstanding()),
            },
            Phase::AwaitNetwork => match reading {
                Reading::Network { pending, resources } => self.on_network(now, pending, resources),
                _ => (self, self.outstanding()),
            },
            Phase::AwaitDom => match reading {
                Reading::Dom { text_len, has_container } => self.on_dom(
                    now,
                    text_len,
                    has_container,
                ),
                _ => (self, self.outstanding()),
            },
            Phase::Settling(gate) => self.settle(gate, now, reading),
            Phase::Selecting(gate) => self.select(gate, now, reading),
            Phase::Done(result) => (self, Request::Finished(result)),
        }
    }
}

impl ReadinessEngine {
    /// An engine that waits as `cfg` asks. Start it with `Reading::Wake`.
    pub fn new(cfg: ReadinessConfig) -> (r: ReadinessEngine)
        ensures
            r == ReadinessEngine::initial(cfg),
            r.wf(),
    {
        ReadinessEngine {
            cfg,
            phase: Phase::Resting,
            last_resources: -1,
            idle_since: None,
            heuristic_since: None,
            branch: None,
            round_started: 0,
            last: Signals::new(),
        }
    }

    /// The request that the engine is waiting on.
    pub fn request(&self) -> (r: Request)
        ensures
            r == self.outstanding(),
    {
        match self.phase {
            Phase::Resting => Request::Sleep { ms: POLL_INTERVAL_MS },
            Phase::AwaitReadyState => Request::ProbeReadyState,
            Phase::AwaitNetwork => Request::ProbeNetwork,
            Phase::AwaitDom => Request::ProbeDom,
            Phase::Settling(gate) => match gate.phase {
                GatePhase::Resting => Request::Sleep { ms: crate::gates::SETTLE_INTERVAL_MS },
                GatePhase::Probing => Request::ProbeImagesFonts,
                GatePhase::Done(_) => Request::Finished(ReadinessResult::Ready(Branch::Heuristic)),
            },
            Phase::Selecting(gate) => match gate.phase {
                GatePhase::Resting => Request::Sleep { ms: crate::gates::SELECTOR_INTERVAL_MS },
                GatePhase::Probing => Request::ProbeSelector,
                GatePhase::Done(_) => Request::Finished(ReadinessResult::Ready(self.chosen_branch())),
            },
            Phase::Done(result) => Request::Finished(result),
        }
    }

    /// Advances the engine by one event at time `now` and returns what to do
    /// next. Once the answer is `Finished`, every later answer repeats it.
    pub fn step(&mut self, now: u64, reading: Reading) -> (r: Request)
        ensures
            (*final(self), r) == old(self).next(now, reading),
            old(self).wf() ==> final(self).wf(),
    {
        proof {
            if self.wf() {
                next_keeps_wf(*self, now, reading);
            }
        }
        match self.phase {
            Phase::Resting => match reading {
                Reading::Wake => self.do_begin_round(now),
                _ => self.request(),
            },
            Phase::AwaitReadyState => match reading {
                Reading::ReadyState(state) => self.do_ready_state(now, state),
                _ => self.request(),
            },
            Phase::AwaitNetwork => match reading {
                Reading::Network { pending, resources } => self.do_network(now, pending, resources),
                _ => self.request(),
            },
            Phase::AwaitDom => match reading {
                Reading::Dom { text_len, has_container } => self.do_dom(
                    now,
                    text_len,
                    has_container,
                ),
                _ => self.request(),
            },
            Phase::Settling(gate) => self.do_settle(gate, now, reading),
            Phase::Selecting(gate) => self.do_select(gate, now, reading),
            Phase::Done(result) => Request::Finished(result),
        }
    }

    fn chosen_branch(&self) -> (r: Branch)
        ensures
            r == self.reported_branch(),
    {
        match self.branch {
            Some(branch) => branch,
            None => Branch::Selector,
        }
    }

    fn do_finish(&mut self, result: ReadinessResult) -> (r: Request)
        ensures
            (*final(self), r) == old(self).finish(result),
    {
        self.phase = Phase::Done(result);
        Request::Finished(result)
    }

    fn do_select(&mut self, gate: SelectorGate, now: u64, reading: Reading) -> (r: Request)
        ensures
            (*final(self), r) == old(self).select(gate, now, reading),
    {
        let mut gate = gate;
        match (gate.phase, reading) {
            (GatePhase::Probing, Reading::Selector { present }) => {
                self.last.observe(reading);
            },
            _ => {},
        }
        match gate.step(now, reading) {
            GateRequest::Probe => {
                self.phase = Phase::Selecting(gate);
                Request::ProbeSelector
            },
            GateRequest::Sleep { ms } => {
                self.phase = Phase::Selecting(gate);
                Request::Sleep { ms }
            },
            GateRequest::Finished(GateOutcome::Passed) => {
                let branch = self.chosen_branch();
                self.do_finish(ReadinessResult::Ready(branch))
            },
            GateRequest::Finished(GateOutcome::Expired) => {
                let last = self.last;
                self.do_finish(ReadinessResult::TimedOut(last))
            },
        }
    }

    fn do_chosen(&mut self, now: u64, branch: Branch) -> (r: Request)
        ensures
            (*final(self), r) == old(self).chosen(now, branch),
    {
        self.branch = Some(branch);
        if self.cfg.await_selector {
            let gate = SelectorGate::new(self.cfg.deadline_ms);
            self.do_select(gate, now, Reading::Wake)
        } else {
            self.do_finish(ReadinessResult::Ready(branch))
        }
    }

    fn do_settle(&mut self, gate: SettleGate, now: u64, reading: Reading) -> (r: Request)
        ensures
            (*final(self), r) == old(self).settle(gate, now, reading),
    {
        let mut gate = gate;
        match (gate.phase, reading) {
            (GatePhase::Probing, Reading::ImagesFonts { incomplete, fonts_loaded }) => {
                self.last.observe(reading);
            },
            _ => {},
        }
        match gate.step(now, reading) {
            GateRequest::Probe => {
                self.phase = Phase::Settling(gate);
                Request::ProbeImagesFonts
            },
            GateRequest::Sleep { ms } => {
                self.phase = Phase::Settling(gate);
                Request::Sleep { ms }
            },
            GateRequest::Finished(_) => self.do_chosen(now, Branch::Heuristic),
        }
    }

    fn do_begin_round(&mut self, now: u64) -> (r: Request)
        ensures
            (*final(self), r) == old(self).begin_round(now),
    {
        match self.cfg.wait_ready {
            WaitReady::Disabled => self.do_chosen(now, Branch::NoWait),
            _ => {
                if now >= self.cfg.deadline_ms {
                    let last = self.last;
                    self.do_finish(ReadinessResult::TimedOut(last))
                } else {
                    self.phase = Phase::AwaitReadyState;
                    self.round_started = now;
                    Request::ProbeReadyState
                }
            },
        }
    }

    fn do_ready_state(&mut self, now: u64, state: ReadyState) -> (r: Request)
        ensures
            (*final(self), r) == old(self).on_ready_state(now, state),
    {
        self.last.observe(Reading::ReadyState(state));
        let accepted = match (self.cfg.wait_ready, state) {
            (WaitReady::Interactive, ReadyState::Loading) => false,
            (WaitReady::Interactive, _) => true,
            (_, ReadyState::Complete) => true,
            _ => false,
        };
        if accepted {
            self.do_chosen(now, Branch::ReadyState)
        } else {
            self.phase = Phase::AwaitNetwork;
            Request::ProbeNetwork
        }
    }

    fn do_network(&mut self, now: u64, pending: i64, resources: i64) -> (r: Request)
        ensures
            (*final(self), r) == old(self).on_network(now, pending, resources),
    {
        let quiet = (pending <= 0 || pending as u64 <= self.cfg.idle_threshold) && resources
            == self.last_resources;
        self.last.observe(Reading::Network { pending, resources });
        self.last_resources = resources;
        if quiet {
            let since: u64 = match self.idle_since {
                Some(t) => t,
                None => now,
            };
            self.idle_since = Some(since);
            let waited: u64 = if now >= since {
                now - since
            } else {
                0
            };
            if waited >= self.cfg.network_idle_ms {
                return self.do_chosen(now, Branch::NetworkIdle);
            }
        } else {
            self.idle_since = None;
        }
        self.phase = Phase::AwaitDom;
        Request::ProbeDom
    }

    fn do_dom(&mut self, now: u64, text_len: u64, has_container: bool) -> (r: Request)
        ensures
            (*final(self), r) == old(self).on_dom(now, text_len, has_container),
    {
        let rich = text_len >= self.cfg.heuristic_min_chars && has_container;
        self.last.observe(Reading::Dom { text_len, has_container });
        if rich {
            let since: u64 = match self.heuristic_since {
                Some(t) => t,
                None => now,
            };
            self.heuristic_since = Some(since);
            let held: u64 = if now >= since {
                now - since
            } else {
                0
            };
            if held >= HEURISTIC_CONFIRM_MS {
                let deadline = self.cfg.deadline_ms;
                let until: u64 = if deadline >= SETTLE_LIMIT_MS && now <= deadline
                    - SETTLE_LIMIT_MS {
                    now + SETTLE_LIMIT_MS
                } else {
                    deadline
                };
                let gate = SettleGate::new(until);
                return self.do_settle(gate, now, Reading::Wake);
            }
        } else {
            self.heuristic_since = None;
        }
        self.phase = Phase::Resting;
        Request::Sleep { ms: POLL_INTERVAL_MS }
    }
}

/// Every transition takes a well-formed engine to a well-formed engine.
pub proof fn next_keeps_wf(engine: ReadinessEngine, now: u64, reading: Reading)
    requires
        engine.wf(),
    ensures
        engine.next(now, reading).0.wf(),
{
}

/// What the engine answers is what it then waits on: after every transition
/// of a well-formed engine `outstanding` gives the request just returned.
pub proof fn answer_is_outstanding(engine: ReadinessEngine, now: u64, reading: Reading)
    requires
        engine.wf(),
    ensures
        engine.next(now, reading).1 == engine.next(now, reading).0.outstanding(),
{
}

/// The wait is bounded by the deadline plus one polling interval: the engine
/// never asks for a pause longer than `POLL_INTERVAL_MS`, it asks for a probe
/// after a wake-up only while the deadline lies ahead, and an engine woken
/// from a pause at or after its deadline ends the wait with that very event.
pub proof fn wait_is_bounded(engine: ReadinessEngine, now: u64, reading: Reading)
    requires
        engine.wf(),
    ensures
        engine.next(now, reading).1 matches Request::Sleep { ms } ==> ms <= POLL_INTERVAL_MS,
        engine.outstanding() is Sleep && reading == Reading::Wake && now
            >= engine.cfg.deadline_ms ==> engine.next(now, reading).1 is Finished,
        engine.outstanding() is Sleep && reading == Reading::Wake && !(engine.next(
            now,
            reading,
        ).1 is Finished) ==> now < engine.cfg.deadline_ms,
{
}

/// A page is reported ready by a polling strategy only if the round that
/// found it began before the deadline. The one branch that can be reported
/// later is `NoWait`, which stands for waiting switched off and for nothing
/// else; `Selector` never names the branch.
pub proof fn ready_only_before_deadline(engine: ReadinessEngine, now: u64, reading: Reading)
    requires
        engine.wf(),
    ensures
        engine.next(now, reading).1 matches Request::Finished(ReadinessResult::Ready(branch)) ==> {
            &&& branch != Branch::Selector
            &&& branch == Branch::NoWait <==> engine.cfg.wait_ready == WaitReady::Disabled
            &&& branch != Branch::NoWait ==> engine.next(now, reading).0.round_started
                < engine.cfg.deadline_ms
        },
{
    next_keeps_wf(engine, now, reading);
}

/// The engine does not give up early: a wait that is still running ends as
/// timed out only through an event at or after the deadline, and the result
/// then carries the last value seen from every probe.
pub proof fn times_out_only_at_deadline(engine: ReadinessEngine, now: u64, reading: Reading)
    requires
        engine.wf(),
        !(engine.phase is Done),
    ensures
        engine.next(now, reading).1 matches Request::Finished(ReadinessResult::TimedOut(seen)) ==> {
            &&& now >= engine.cfg.deadline_ms
            &&& seen == engine.next(now, reading).0.last
        },
{
}

/// With readiness waiting switched off, a resting engine that is woken
/// chooses `NoWait` whatever the time and whatever the probes last showed.
/// Unless a selector is awaited too, that wake-up ends the wait as ready.
pub proof fn disabled_wait_is_ready_at_once(engine: ReadinessEngine, now: u64)
    requires
        engine.phase == Phase::Resting,
        engine.cfg.wait_ready == WaitReady::Disabled,
    ensures
        engine.next(now, Reading::Wake).0.branch == Some(Branch::NoWait),
        !engine.cfg.await_selector ==> engine.next(now, Reading::Wake).1 == Request::Finished(
            ReadinessResult::Ready(Branch::NoWait),
        ),
{
}

} // verus!
