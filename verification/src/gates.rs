//! The two bounded waits that follow a page's primary readiness: the wait for
//! images and fonts, and the wait for a requested selector. Each is a state
//! machine that is told the time and what a probe returned, and answers with
//! what to do next; its caller runs the probes and the pauses.

use crate::signals::Reading;
use vstd::prelude::*;

verus! {

/// Pause between two polls of images and fonts, in milliseconds.
pub const SETTLE_INTERVAL_MS: u64 = 200;

/// Pause between two polls of a selector, in milliseconds.
pub const SELECTOR_INTERVAL_MS: u64 = 150;

/// How a bounded wait ended.
#[derive(Clone, Copy, Debug, PartialEq, Eq)]
pub enum GateOutcome {
    /// The awaited condition held at a poll.
    Passed,
    /// The deadline was reached first.
    Expired,
}

/// What a gate asks of its caller.
#[derive(Clone, Copy, Debug, PartialEq, Eq)]
pub enum GateRequest {
    /// Run this gate's probe and hand the reading back.
    Probe,
    /// Pause for this long, then hand back `Reading::Wake`.
    Sleep { ms: u64 },
    /// The wait is over.
    Finished(GateOutcome),
}

/// Where a gate stands.
#[derive(Clone, Copy, Debug, PartialEq, Eq)]
pub enum GatePhase {
    /// Waiting to be woken: at the start, and after each pause.
    Resting,
    /// Waiting for the probe's reading.
    Probing,
    /// Over, with this outcome.
    Done(GateOutcome),
}

/// The wait for images and fonts to finish loading, up to a deadline.
#[derive(Clone, Copy, Debug, PartialEq, Eq)]
pub struct SettleGate {
    /// Time in milliseconds at which the wait gives up.
    pub until: u64,
    pub phase: GatePhase,
}

/// The wait for a selector to be present, up to a deadline.
#[derive(Clone, Copy, Debug, PartialEq, Eq)]
pub struct SelectorGate {
    /// Time in milliseconds at which the wait gives up.
    pub until: u64,
    pub phase: GatePhase,
}

/// The request that a gate in `phase` is waiting on, with `interval` as the
/// length of its pauses.
pub open spec fn outstanding(phase: GatePhase, interval: u64) -> GateRequest {
    match phase {
        GatePhase::Resting => GateRequest::Sleep { ms: interval },
        GatePhase::Probing => GateRequest::Probe,
        GatePhase::Done(outcome) => GateRequest::Finished(outcome),
    }
}

/// One transition of a gate. `passes` tells whether `reading` is this gate's
/// own probe reading, and if so whether it meets the awaited condition.
///
/// A woken gate gives up once `now` has reached `until`, and otherwise asks
/// for its probe. A probing gate that gets its reading either passes or
/// pauses for `interval`. Any other event leaves its state as it is and
/// repeats the outstanding request.
pub open spec fn gate_next(
    until: u64,
    phase: GatePhase,
    interval: u64,
    now: u64,
    reading: Reading,
    passes: Option<bool>,
) -> (GatePhase, GateRequest) {
    match phase {
        GatePhase::Resting => if reading == Reading::Wake {
            if now >= until {
                (GatePhase::Done(GateOutcome::Expired), GateRequest::Finished(GateOutcome::Expired))
            } else {
                (GatePhase::Probing, GateRequest::Probe)
            }
        } else {
            (phase, outstanding(phase, interval))
        },
        GatePhase::Probing => match passes {
            Some(true) => (
                GatePhase::Done(GateOutcome::Passed),
                GateRequest::Finished(GateOutcome::Passed),
            ),
            Some(false) => (GatePhase::Resting, GateRequest::Sleep { ms: interval }),
            None => (phase, outstanding(phase, interval)),
        },
        GatePhase::Done(outcome) => (phase, GateRequest::Finished(outcome)),
    }
}

/// Whether an image and font reading shows that both have settled: no image
/// is still loading and the fonts are loaded. `None` for any other event.
pub open spec fn settled(reading: Reading) -> Option<bool> {
    match reading {
        Reading::ImagesFonts { incomplete, fonts_loaded } => Some(incomplete == 0 && fonts_loaded),
        _ => None,
    }
}

/// Whether a selector reading shows the element present. `None` for any
/// other event.
pub open spec fn selected(reading: Reading) -> Option<bool> {
    match reading {
        Reading::Selector { present } => Some(present),
        _ => None,
    }
}

fn is_wake(reading: Reading) -> (r: bool)
    ensures
        r == (reading == Reading::Wake),
{
    match reading {
        Reading::Wake => true,
        _ => false,
    }
}

fn advance(until: u64, phase: GatePhase, interval: u64, now: u64, reading: Reading, passes: Option<
    bool,
>) -> (r: (GatePhase, GateRequest))
    ensures
        r == gate_next(until, phase, interval, now, reading, passes),
{
    match phase {
        GatePhase::Resting => {
            if is_wake(reading) {
                if now >= until {
                    (
                        GatePhase::Done(GateOutcome::Expired),
                        GateRequest::Finished(GateOutcome::Expired),
                    )
                } else {
                    (GatePhase::Probing, GateRequest::Probe)
                }
            } else {
                (phase, GateRequest::Sleep { ms: interval })
            }
        },
        GatePhase::Probing => match passes {
            Some(true) => (
                GatePhase::Done(GateOutcome::Passed),
                GateRequest::Finished(GateOutcome::Passed),
            ),
            Some(false) => (GatePhase::Resting, GateRequest::Sleep { ms: interval }),
            None => (phase, GateRequest::Probe),
        },
        GatePhase::Done(outcome) => (phase, GateRequest::Finished(outcome)),
    }
}

impl SettleGate {
    /// This gate and the request that follow from an event at time `now`.
    pub open spec fn next(self, now: u64, reading: Reading) -> (SettleGate, GateRequest) {
        let (phase, request) = gate_next(
            self.until,
            self.phase,
            SETTLE_INTERVAL_MS,
            now,
            reading,
            settled(reading),
        );
        (SettleGate { until: self.until, phase }, request)
    }

    /// A gate that gives up at `until` and waits to be woken.
    pub fn new(until: u64) -> (r: SettleGate)
        ensures
            r == (SettleGate { until, phase: GatePhase::Resting }),
    {
        SettleGate { until, phase: GatePhase::Resting }
    }

    /// Advances this gate by one event and returns what to do next.
    pub fn step(&mut self, now: u64, reading: Reading) -> (r: GateRequest)
        ensures
            (*final(self), r) == old(self).next(now, reading),
    {
        let passes: Option<bool> = match reading {
            Reading::ImagesFonts { incomplete, fonts_loaded } => Some(incomplete == 0 && fonts_loaded),
            _ => None,
        };
        let (phase, request) = advance(
            self.until,
            self.phase,
            SETTLE_INTERVAL_MS,
            now,
            reading,
            passes,
        );
        self.phase = phase;
        request
    }
}

impl SelectorGate {
    /// This gate and the request that follow from an event at time `now`.
    pub open spec fn next(self, now: u64, reading: Reading) -> (SelectorGate, GateRequest) {
        let (phase, request) = gate_next(
            self.until,
            self.phase,
            SELECTOR_INTERVAL_MS,
            now,
            reading,
            selected(reading),
        );
        (SelectorGate { until: self.until, phase }, request)
    }

    /// A gate that gives up at `until` and waits to be woken.
    pub fn new(until: u64) -> (r: SelectorGate)
        ensures
            r == (SelectorGate { until, phase: GatePhase::Resting }),
    {
        SelectorGate { until, phase: GatePhase::Resting }
    }

    /// Advances this gate by one event and returns what to do next.
    pub fn step(&mut self, now: u64, reading: Reading) -> (r: GateRequest)
        ensures
            (*final(self), r) == old(self).next(now, reading),
    {
        let passes: Option<bool> = match reading {
            Reading::Selector { present } => Some(present),
            _ => None,
        };
        let (phase, request) = advance(
            self.until,
            self.phase,
            SELECTOR_INTERVAL_MS,
            now,
            reading,
            passes,
        );
        self.phase = phase;
        request
    }
}

/// A gate woken at or after its deadline is over at once, and a gate never
/// asks for a pause longer than its polling interval: woken on time, it ends
/// no later than one interval past its deadline.
pub proof fn gate_is_bounded(
    until: u64,
    phase: GatePhase,
    interval: u64,
    now: u64,
    reading: Reading,
    passes: Option<bool>,
)
    ensures
        (phase == GatePhase::Resting && reading == Reading::Wake && now >= until) ==> gate_next(
            until,
            phase,
            interval,
            now,
            reading,
            passes,
        ).1 == GateRequest::Finished(GateOutcome::Expired),
        gate_next(until, phase, interval, now, reading, passes).1 matches GateRequest::Sleep { ms }
            ==> ms == interval,
        gate_next(until, phase, interval, now, reading, passes).1 == GateRequest::Probe
            && phase == GatePhase::Resting ==> now < until,
{
}

} // verus!
