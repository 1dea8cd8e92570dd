//! A model of the caller that drives the readiness engine, and the bound on
//! how long a wait lasts under it.
//!
//! The model caller does exactly as it is asked: it pauses for as long as
//! the engine says and then wakes it, and it answers each probe request at
//! once with what the page shows at that moment. Against such a caller the
//! engine ends every wait less than one polling interval after the deadline.

use crate::readiness::{ReadinessConfig, ReadinessEngine, Request, POLL_INTERVAL_MS};
use crate::signals::{Reading, Signals};
use vstd::prelude::*;

verus! {

/// The reading that answers `request` on a page that shows `shown`.
pub open spec fn reading_of(request: Request, shown: Signals) -> Reading {
    match request {
        Request::ProbeReadyState => Reading::ReadyState(shown.ready_state),
        Request::ProbeNetwork => Reading::Network {
            pending: shown.pending,
            resources: shown.resources,
        },
        Request::ProbeDom => Reading::Dom {
            text_len: shown.text_len,
            has_container: shown.has_container,
        },
        Request::ProbeImagesFonts => Reading::ImagesFonts {
            incomplete: shown.images_incomplete,
            fonts_loaded: shown.fonts_loaded,
        },
        Request::ProbeSelector => Reading::Selector { present: shown.selector_present },
        Request::Sleep { ms } => Reading::Wake,
        Request::Finished(_) => Reading::Wake,
    }
}

/// The time at which `request`, made at `now`, is answered: a pause lasts as
/// long as asked, up to the end of the clock's range, and a probe takes no
/// time.
pub open spec fn time_after(request: Request, now: u64) -> u64 {
    match request {
        Request::Sleep { ms } => if now + ms <= u64::MAX {
            (now + ms) as u64
        } else {
            u64::MAX
        },
        _ => now,
    }
}

/// Where a wait stands after the model caller has answered up to `steps`
/// requests, beginning with `request` made at `now`: the engine, its latest
/// request, and the time of the latest event. `page` tells what the page
/// shows at each time. A wait that is over stays as it is.
pub open spec fn run(
    engine: ReadinessEngine,
    request: Request,
    now: u64,
    page: spec_fn(u64) -> Signals,
    steps: nat,
) -> (ReadinessEngine, Request, u64)
    decreases steps,
{
    if steps == 0 || request is Finished {
        (engine, request, now)
    } else {
        let at = time_after(request, now);
        let (engine, request) = engine.next(at, reading_of(request, page(at)));
        run(engine, request, at, page, (steps - 1) as nat)
    }
}

/// A whole wait: a new engine that is woken at `start` and then driven by
/// the model caller for up to `steps` events.
pub open spec fn wait(cfg: ReadinessConfig, start: u64, page: spec_fn(u64) -> Signals, steps: nat)
    -> (ReadinessEngine, Request, u64) {
    run(ReadinessEngine::initial(cfg), Request::Sleep { ms: 0 }, start, page, steps)
}

/// Number of events within which a wait that starts at `start` is over.
pub open spec fn enough_steps(cfg: ReadinessConfig, start: u64) -> nat {
    if start < cfg.deadline_ms {
        (6 * (cfg.deadline_ms - start) + 6) as nat
    } else {
        1
    }
}

/// Bound on the events that the model caller still has to answer before the
/// wait is over: each probe of a round counts once, and every millisecond
/// left until the deadline pays for the probes of the rounds still to come.
spec fn potential(request: Request, now: u64, deadline: u64) -> int {
    match request {
        Request::Finished(_) => 0,
        Request::Sleep { ms } => 6 * (deadline - now),
        Request::ProbeSelector => 6 * (deadline - now) + 1,
        Request::ProbeImagesFonts => 6 * (deadline - now) + 2,
        Request::ProbeDom => 6 * (deadline - now) + 3,
        Request::ProbeNetwork => 6 * (deadline - now) + 4,
        Request::ProbeReadyState => 6 * (deadline - now) + 5,
    }
}

/// What holds between two events of a wait under the model caller: the
/// engine is well formed and waits on `request`, and while the wait is not
/// over the deadline lies ahead.
spec fn on_course(engine: ReadinessEngine, request: Request, now: u64) -> bool {
    &&& engine.wf()
    &&& request == engine.outstanding()
    &&& !(request is Finished) ==> now < engine.cfg.deadline_ms
}

/// One event of the model caller keeps the wait on course, ends no later
/// than one polling interval after the deadline, and uses up potential.
proof fn lemma_step(engine: ReadinessEngine, request: Request, now: u64, shown: Signals)
    requires
        on_course(engine, request, now),
        !(request is Finished),
    ensures
        ({
            let at = time_after(request, now);
            let (next_engine, next_request) = engine.next(at, reading_of(request, shown));
            &&& on_course(next_engine, next_request, at)
            &&& next_engine.cfg == engine.cfg
            &&& at < engine.cfg.deadline_ms + POLL_INTERVAL_MS
            &&& potential(next_request, at, engine.cfg.deadline_ms) < potential(
                request,
                now,
                engine.cfg.deadline_ms,
            )
        }),
{
}

/// A wait that is on course ends no later than one polling interval after
/// the deadline, and within as many events as its potential.
proof fn lemma_run(
    engine: ReadinessEngine,
    request: Request,
    now: u64,
    page: spec_fn(u64) -> Signals,
    steps: nat,
)
    requires
        on_course(engine, request, now),
        now < engine.cfg.deadline_ms + POLL_INTERVAL_MS,
    ensures
        run(engine, request, now, page, steps).2 < engine.cfg.deadline_ms + POLL_INTERVAL_MS,
        steps >= potential(request, now, engine.cfg.deadline_ms) ==> run(
            engine,
            request,
            now,
            page,
            steps,
        ).1 is Finished,
    decreases steps,
{
    if steps == 0 || request is Finished {
    } else {
        let at = time_after(request, now);
        lemma_step(engine, request, now, page(at));
        let (next_engine, next_request) = engine.next(at, reading_of(request, page(at)));
        lemma_run(next_engine, next_request, at, page, (steps - 1) as nat);
    }
}

/// Against a caller that does as it is asked, a wait is over less than one
/// polling interval after its deadline: no event of the wait comes later
/// than that, unless the wait only starts later, in which case its first
/// event ends it. And the wait does end: after `enough_steps` events the
/// engine has given its result.
pub proof fn wait_ends_within_one_interval(
    cfg: ReadinessConfig,
    start: u64,
    page: spec_fn(u64) -> Signals,
    steps: nat,
)
    ensures
        wait(cfg, start, page, steps).2 < cfg.deadline_ms + POLL_INTERVAL_MS || wait(
            cfg,
            start,
            page,
            steps,
        ).2 == start,
        steps >= enough_steps(cfg, start) ==> wait(cfg, start, page, steps).1 is Finished,
{
    let engine = ReadinessEngine::initial(cfg);
    if steps > 0 {
        let (first_engine, first_request) = engine.next(start, Reading::Wake);
        assert(first_engine.cfg == cfg);
        if first_request is Finished {
            assert(run(first_engine, first_request, start, page, (steps - 1) as nat) == (
                first_engine,
                first_request,
                start,
            ));
        } else {
            assert(on_course(first_engine, first_request, start));
            lemma_run(first_engine, first_request, start, page, (steps - 1) as nat);
        }
    }
}

} // verus!
