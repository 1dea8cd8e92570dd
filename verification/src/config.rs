//! What a caller asks of one probe: the request itself and the settings that
//! a caller writes as text.

use crate::readiness::{ReadinessConfig, WaitReady};
use crate::decimal::{parse_u32, parsed_u32};
use crate::text::{chars_of, first_index, fold_ascii, fold_chars};
use vstd::prelude::*;
use vstd::slice::slice_subrange;

verus! {

/// Viewport width used where no valid size is given.
pub const DEFAULT_WIDTH: u32 = 1366;

/// Viewport height used where no valid size is given.
pub const DEFAULT_HEIGHT: u32 = 768;

/// Languages announced where the caller names no locale.
pub const DEFAULT_LOCALE: &'static str = "en-US,en;q=0.9";

/// Platform announced with the user agent.
pub const PLATFORM: &'static str = "Windows";

/// The viewport that a size text asks for. A size is written as a width, the
/// letter `x` in either case, and a height, both decimal numbers that fit 32
/// bits. Any other text stands for the default viewport.
pub open spec fn window_size(s: Seq<char>) -> (u32, u32) {
    let t = fold_ascii(s);
    let at = first_index(t, 'x', 0);
    if at < t.len() {
        match (parsed_u32(t.take(at)), parsed_u32(t.skip(at + 1))) {
            (Some(width), Some(height)) => (width, height),
            _ => (DEFAULT_WIDTH, DEFAULT_HEIGHT),
        }
    } else {
        (DEFAULT_WIDTH, DEFAULT_HEIGHT)
    }
}

/// Reads a viewport size from its text.
pub fn parse_window_size(s: &str) -> (r: (u32, u32))
    ensures
        r == window_size(s@),
{
    let chars = chars_of(s);
    let folded = fold_chars(chars.as_slice());
    let t = folded.as_slice();
    let mut at: usize = 0;
    while at < t.len() && t[at] != 'x'
        invariant
            at <= t.len(),
            first_index(t@, 'x', 0) == first_index(t@, 'x', at as int),
        decreases t.len() - at,
    {
        at += 1;
    }
    if at < t.len() {
        let left = slice_subrange(t, 0, at);
        let right = slice_subrange(t, at + 1, t.len());
        match (parse_u32(left), parse_u32(right)) {
            (Some(width), Some(height)) => (width, height),
            _ => (DEFAULT_WIDTH, DEFAULT_HEIGHT),
        }
    } else {
        (DEFAULT_WIDTH, DEFAULT_HEIGHT)
    }
}

/// The languages to announce: the caller's locale, or `DEFAULT_LOCALE`.
pub fn locale_or_default(locale: Option<&str>) -> (r: String)
    ensures
        r@ == (match locale {
            Some(value) => value@,
            None => DEFAULT_LOCALE@,
        }),
{
    match locale {
        Some(value) => String::from_str(value),
        None => String::from_str(DEFAULT_LOCALE),
    }
}

/// One probe as the caller asks for it.
#[derive(Clone, Debug, PartialEq, Eq)]
pub struct ProbeRequest {
    /// The page to probe.
    pub url: String,
    /// Time allowed for the page to load and settle, in milliseconds.
    pub max_wait_ms: u64,
    /// Whether to render in a browser without trying a plain fetch first.
    pub force_render: bool,
    pub wait_ready: WaitReady,
    /// How long the network must stay quiet, in milliseconds.
    pub network_idle_ms: u64,
    /// Most pending requests that still count as quiet.
    pub idle_threshold: u64,
    /// Least visible text length for the DOM heuristic.
    pub heuristic_min_chars: u64,
    /// A CSS selector that must be present before the page counts as ready.
    pub wait_selector: Option<String>,
    /// Regular expression of URLs left out of the pending-request count.
    pub idle_ignore: Option<String>,
}

impl ProbeRequest {
    /// The point on the caller's clock at which a wait that starts at
    /// `started_ms` runs out; it stops at the end of the clock's range.
    pub open spec fn deadline(&self, started_ms: u64) -> u64 {
        if started_ms + self.max_wait_ms <= u64::MAX {
            (started_ms + self.max_wait_ms) as u64
        } else {
            u64::MAX
        }
    }

    /// The readiness settings for a wait that starts at `started_ms`.
    pub open spec fn readiness_from(&self, started_ms: u64) -> ReadinessConfig {
        ReadinessConfig {
            wait_ready: self.wait_ready,
            network_idle_ms: self.network_idle_ms,
            idle_threshold: self.idle_threshold,
            heuristic_min_chars: self.heuristic_min_chars,
            deadline_ms: self.deadline(started_ms),
            await_selector: self.wait_selector is Some,
        }
    }

    /// Derives the readiness settings for a wait that starts at `started_ms`
    /// on the caller's clock.
    pub fn readiness(&self, started_ms: u64) -> (r: ReadinessConfig)
        ensures
            r == self.readiness_from(started_ms),
    {
        let deadline_ms: u64 = if self.max_wait_ms <= u64::MAX - started_ms {
            started_ms + self.max_wait_ms
        } else {
            u64::MAX
        };
        ReadinessConfig {
            wait_ready: self.wait_ready,
            network_idle_ms: self.network_idle_ms,
            idle_threshold: self.idle_threshold,
            heuristic_min_chars: self.heuristic_min_chars,
            deadline_ms,
            await_selector: self.wait_selector.is_some(),
        }
    }
}

} // verus!
