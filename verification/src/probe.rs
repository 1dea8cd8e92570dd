//! One probe from beginning to end: the plain fetch, the decision whether a
//! browser is needed, the render session and its single headful retry, and
//! the outcome.
//!
//! `Probe` is a state machine. Its caller carries out each command (a fetch,
//! a render session) and hands back what happened as an event; the probe
//! answers with the next command until it answers with the outcome.

use crate::fetch::FetchOutcome;
use crate::policy::{dispose, disposed, OnTimeout, Outcome};
use crate::report::{ProbeResult, RenderSuccess, TimeoutReport};
use vstd::prelude::*;

verus! {

/// Context under which the failure of a render session is reported.
pub const RENDER_FAILED: &'static str = "headless-chrome render failed";

/// Where a probe stands.
#[derive(Clone, Copy, Debug, PartialEq, Eq)]
pub enum Stage {
    /// The plain fetch is under way.
    Fetching,
    /// A render session is under way; `retry` marks the headful retry.
    Rendering { retry: bool },
    /// The outcome has been given.
    Done,
}

/// What happened to the command that a probe gave.
#[derive(Clone, Debug, PartialEq, Eq)]
pub enum Event {
    /// The plain fetch failed in transport.
    FetchFailed,
    /// The plain fetch returned a response.
    Fetched(FetchOutcome),
    /// The render session failed, with this message.
    RenderFailed(String),
    /// The render session obtained the page.
    Rendered(RenderSuccess),
    /// The render session ran into a timeout and captured what it could.
    RenderTimedOut(TimeoutReport),
}

/// What a probe asks of its caller.
#[derive(Clone, Debug, PartialEq, Eq)]
pub enum Command {
    /// Fetch the page with a plain HTTP GET.
    Fetch,
    /// Run a render session, with a visible window if `headful`.
    Render { headful: bool },
    /// The probe is over, with this outcome.
    Finish(Outcome),
    /// The outcome has been given before; there is nothing left to do.
    Nothing,
}

/// One probe.
#[derive(Clone, Debug, PartialEq, Eq)]
pub struct Probe {
    pub input_url: String,
    pub run_dir: String,
    /// Where the body of the plain fetch is kept.
    pub fetched_html_path: String,
    /// Render without trying a plain fetch first.
    pub force_render: bool,
    /// Run the browser with a visible window.
    pub headful: bool,
    /// After a failed headless session, try once more with a visible window.
    pub headful_fallback: bool,
    pub on_timeout: OnTimeout,
    pub stage: Stage,
}

impl Probe {
    /// The command that a probe in this stage is waiting on.
    pub open spec fn outstanding(self) -> Command {
        match self.stage {
            Stage::Fetching => Command::Fetch,
            Stage::Rendering { retry } => Command::Render { headful: self.headful || retry },
            Stage::Done => Command::Nothing,
        }
    }

    /// Ends the probe with `outcome`.
    pub open spec fn finish(self, outcome: Outcome) -> (Probe, Command) {
        (Probe { stage: Stage::Done, ..self }, Command::Finish(outcome))
    }

    /// Turns to the browser: the first render session, in the configured
    /// mode.
    pub open spec fn render(self) -> (Probe, Command) {
        (
            Probe { stage: Stage::Rendering { retry: false }, ..self },
            Command::Render { headful: self.headful },
        )
    }

    /// Whether a failed session is tried again: only the first, headless
    /// session, and only where the fallback is switched on.
    pub open spec fn retries(self) -> bool {
        self.stage == (Stage::Rendering { retry: false }) && self.headful_fallback && !self.headful
    }

    /// The probe and the command that follow from an event.
    ///
    /// A fetched page that can be used as it is ends the probe; any other
    /// fetch result turns to the browser. A session that obtained the page
    /// ends the probe with its result, one that timed out with what the
    /// disposition makes of the report. A failed session is retried headful
    /// where `retries` holds and otherwise ends the probe as failed. An event
    /// that does not answer the outstanding command changes nothing and
    /// repeats that command.
    pub open spec fn next(self, event: Event) -> (Probe, Command) {
        match (self.stage, event) {
            (Stage::Fetching, Event::Fetched(fetch)) => if fetch.renderable() {
                self.finish(
                    Outcome::Page(
                        ProbeResult::of_fetch(
                            self.input_url,
                            fetch,
                            self.fetched_html_path,
                            self.run_dir,
                        ),
                    ),
                )
            } else {
                self.render()
            },
            (Stage::Fetching, Event::FetchFailed) => self.render(),
            (Stage::Rendering { retry }, Event::Rendered(render)) => self.finish(
                Outcome::Page(ProbeResult::of_render(self.input_url, render, self.run_dir)),
            ),
            (Stage::Rendering { retry }, Event::RenderTimedOut(report)) => self.finish(
                disposed(self.on_timeout, self.input_url, report, self.run_dir),
            ),
            (Stage::Rendering { retry }, Event::RenderFailed(message)) => if self.retries() {
                (
                    Probe { stage: Stage::Rendering { retry: true }, ..self },
                    Command::Render { headful: true },
                )
            } else {
                self.finish(Outcome::Failed(message))
            },
            _ => (self, self.outstanding()),
        }
    }

    /// The probe at its start and its first command: a render session where
    /// rendering is forced, and the plain fetch otherwise.
    pub open spec fn begun(
        input_url: String,
        run_dir: String,
        fetched_html_path: String,
        force_render: bool,
        headful: bool,
        headful_fallback: bool,
        on_timeout: OnTimeout,
    ) -> (Probe, Command) {
        let probe = Probe {
            input_url,
            run_dir,
            fetched_html_path,
            force_render,
            headful,
            headful_fallback,
            on_timeout,
            stage: if force_render {
                Stage::Rendering { retry: false }
            } else {
                Stage::Fetching
            },
        };
        (probe, probe.outstanding())
    }

    /// Starts a probe and returns it with its first command.
    pub fn begin(
        input_url: String,
        run_dir: String,
        fetched_html_path: String,
        force_render: bool,
        headful: bool,
        headful_fallback: bool,
        on_timeout: OnTimeout,
    ) -> (r: (Probe, Command))
        ensures
            r == Probe::begun(
                input_url,
                run_dir,
                fetched_html_path,
                force_render,
                headful,
                headful_fallback,
                on_timeout,
            ),
    {
        let stage = if force_render {
            Stage::Rendering { retry: false }
        } else {
            Stage::Fetching
        };
        let probe = Probe {
            input_url,
            run_dir,
            fetched_html_path,
            force_render,
            headful,
            headful_fallback,
            on_timeout,
            stage,
        };
        let command = probe.command();
        (probe, command)
    }

    /// The command that the probe is waiting on.
    pub fn command(&self) -> (r: Command)
        ensures
            r == self.outstanding(),
    {
        match self.stage {
            Stage::Fetching => Command::Fetch,
            Stage::Rendering { retry } => Command::Render { headful: self.headful || retry },
            Stage::Done => Command::Nothing,
        }
    }

    /// Advances the probe by one event and returns the next command.
    pub fn step(&mut self, event: Event) -> (r: Command)
        ensures
            (*final(self), r) == old(self).next(event),
    {
        match self.stage {
            Stage::Fetching => match event {
                Event::Fetched(fetch) => {
                    if fetch.looks_renderable() {
                        self.stage = Stage::Done;
                        Command::Finish(
                            Outcome::Page(
                                ProbeResult::from_fetch(
                                    self.input_url.clone(),
                                    fetch,
                                    self.fetched_html_path.clone(),
                                    self.run_dir.clone(),
                                ),
                            ),
                        )
                    } else {
                        self.stage = Stage::Rendering { retry: false };
                        Command::Render { headful: self.headful }
                    }
                },
                Event::FetchFailed => {
                    self.stage = Stage::Rendering { retry: false };
                    Command::Render { headful: self.headful }
                },
                _ => Command::Fetch,
            },
            Stage::Rendering { retry } => match event {
                Event::Rendered(render) => {
                    self.stage = Stage::Done;
                    Command::Finish(
                        Outcome::Page(
                            ProbeResult::from_render(
                                self.input_url.clone(),
                                render,
                                self.run_dir.clone(),
                            ),
                        ),
                    )
                },
                Event::RenderTimedOut(report) => {
                    self.stage = Stage::Done;
                    Command::Finish(
                        dispose(
                            self.on_timeout,
                            self.input_url.clone(),
                            report,
                            self.run_dir.clone(),
                        ),
                    )
                },
                Event::RenderFailed(message) => {
                    if !retry && self.headful_fallback && !self.headful {
                        self.stage = Stage::Rendering { retry: true };
                        Command::Render { headful: true }
                    } else {
                        self.stage = Stage::Done;
                        Command::Finish(Outcome::Failed(message))
                    }
                },
                _ => Command::Render { headful: self.headful || retry },
            },
            Stage::Done => Command::Nothing,
        }
    }
}

/// A fetched page that can be used as it is ends the probe at once, without
/// a browser: the result says that the page needs no JavaScript and that no
/// page was rendered.
pub proof fn renderable_fetch_skips_browser(probe: Probe, fetch: FetchOutcome)
    requires
        probe.stage == Stage::Fetching,
        fetch.renderable(),
    ensures
        probe.next(Event::Fetched(fetch)).0.stage == Stage::Done,
        probe.next(Event::Fetched(fetch)).1 matches Command::Finish(Outcome::Page(result)) && {
            &&& !result.requires_javascript
            &&& result.pages_crawled == 0
            &&& result.screenshot_path is None
            &&& result.pdf_path is None
        },
{
}

/// A fetch that failed, or that returned a page which cannot be used as it
/// is, turns the probe to the browser in the configured mode.
pub proof fn deficient_fetch_turns_to_browser(probe: Probe, event: Event)
    requires
        probe.stage == Stage::Fetching,
        event == Event::FetchFailed || (event matches Event::Fetched(fetch) && !fetch.renderable()),
    ensures
        probe.next(event).1 == (Command::Render { headful: probe.headful }),
        probe.next(event).0.stage == (Stage::Rendering { retry: false }),
{
}

/// A headless session that fails with the fallback switched on is followed
/// by exactly one more session, which is headful; if that one fails too, the
/// probe ends as failed with its message. Without the fallback, or with a
/// session that was headful to begin with, the first failure ends the probe.
pub proof fn failed_session_retries_once(probe: Probe, first: String, second: String)
    requires
        probe.stage == (Stage::Rendering { retry: false }),
    ensures
        probe.headful_fallback && !probe.headful ==> {
            let (retrying, command) = probe.next(Event::RenderFailed(first));
            &&& command == (Command::Render { headful: true })
            &&& retrying.stage == (Stage::Rendering { retry: true })
            &&& retrying.next(Event::RenderFailed(second)).1 == Command::Finish(
                Outcome::Failed(second),
            )
        },
        !(probe.headful_fallback && !probe.headful) ==> probe.next(Event::RenderFailed(first)).1
            == Command::Finish(Outcome::Failed(first)),
{
}

/// A probe gives one outcome: the command that carries it leaves the probe
/// done, and a probe that is done answers every event with `Nothing`.
pub proof fn outcome_is_given_once(probe: Probe, event: Event, later: Event)
    ensures
        probe.next(event).1 is Finish ==> probe.next(event).0.stage == Stage::Done,
        probe.stage == Stage::Done ==> probe.next(later) == (probe, Command::Nothing),
{
}

/// A page that a render session obtained, and a timeout under any
/// disposition, end the probe; the result of a rendered or degraded page
/// says that the page needs JavaScript and that one page was rendered.
pub proof fn session_end_ends_probe(probe: Probe, event: Event)
    requires
        probe.stage is Rendering,
        event is Rendered || event is RenderTimedOut,
    ensures
        probe.next(event).1 is Finish,
        probe.next(event).1 matches Command::Finish(Outcome::Page(result)) ==> {
            &&& result.requires_javascript
            &&& result.pages_crawled == 1
        },
{
}

} // verus!
