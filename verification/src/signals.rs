//! Signal probes: the typed values that the readiness machinery reads from a
//! live tab, the script expressions that produce them, and the defaults that
//! apply when an expression yields nothing usable.

use crate::text::str_eq;
use vstd::prelude::*;

verus! {

/// Expression for the document's ready state.
pub const READY_STATE_EXPR: &'static str = "document.readyState";

/// Expression for the pending-request counter; zero while the counter is not
/// installed.
pub const PENDING_REQUESTS_EXPR: &'static str = "window.__ankabot ? window.__ankabot.pending : 0";

/// Expression for the number of completed resource-timing entries.
pub const RESOURCE_COUNT_EXPR: &'static str = "performance.getEntriesByType('resource').length";

/// Expression for the heuristic DOM probe: `t` is the visible text length and
/// `h` tells whether a primary content container is present.
pub const DOM_HEURISTIC_EXPR: &'static str =
    "(() => { const t = document.body ? document.body.innerText.length : 0; const h = !!document.querySelector('main,article,#app,#root'); return {t:t, h:h}; })()";

/// Expression for the number of images that have not finished loading.
pub const IMAGES_INCOMPLETE_EXPR: &'static str =
    "Array.from(document.images).filter(i=>!i.complete).length";

/// Expression for whether web fonts have finished loading.
pub const FONTS_LOADED_EXPR: &'static str =
    "document.fonts ? document.fonts.status === 'loaded' : true";

/// Expression for the leading visible body text that the interstitial check
/// reads.
pub const BODY_TEXT_EXPR: &'static str =
    "document.body ? document.body.innerText.slice(0, 4096) : ''";

/// Expression for the visible text length of the document body.
pub const DOM_TEXT_LENGTH_EXPR: &'static str =
    "document.body ? document.body.innerText.length : 0";

/// Expression for the number of images in the document.
pub const IMAGES_TOTAL_EXPR: &'static str = "document.images.length";

/// The loading stage that a document reports.
#[derive(Clone, Copy, Debug, PartialEq, Eq)]
pub enum ReadyState {
    Loading,
    Interactive,
    Complete,
}

impl ReadyState {
    /// The stage that a reported text names. Anything but the two advanced
    /// stages, an empty text included, counts as still loading.
    pub open spec fn named(s: Seq<char>) -> ReadyState {
        if s == "complete"@ {
            ReadyState::Complete
        } else if s == "interactive"@ {
            ReadyState::Interactive
        } else {
            ReadyState::Loading
        }
    }

    /// Reads the stage from the text that the ready-state probe returned,
    /// `None` standing for a probe that returned no text.
    pub fn from_probe(value: Option<&str>) -> (r: ReadyState)
        ensures
            r == (match value {
                Some(s) => ReadyState::named(s@),
                None => ReadyState::Loading,
            }),
    {
        match value {
            Some(s) => {
                if str_eq(s, "complete") {
                    ReadyState::Complete
                } else if str_eq(s, "interactive") {
                    ReadyState::Interactive
                } else {
                    ReadyState::Loading
                }
            },
            None => ReadyState::Loading,
        }
    }
}

/// One event handed to a readiness state machine: either the passing of time
/// or the value that a probe returned.
#[derive(Clone, Copy, Debug, PartialEq, Eq)]
pub enum Reading {
    /// The requested pause is over, or the machine is being started.
    Wake,
    /// Result of the ready-state probe.
    ReadyState(ReadyState),
    /// Result of the network-activity probe.
    Network { pending: i64, resources: i64 },
    /// Result of the heuristic DOM probe.
    Dom { text_len: u64, has_container: bool },
    /// Result of the image and font probe.
    ImagesFonts { incomplete: i64, fonts_loaded: bool },
    /// Result of the selector probe.
    Selector { present: bool },
}

impl Reading {
    /// A network reading from raw probe values; a missing value counts as zero.
    pub fn network(pending: Option<i64>, resources: Option<i64>) -> (r: Reading)
        ensures
            r == (Reading::Network {
                pending: match pending {
                    Some(p) => p,
                    None => 0,
                },
                resources: match resources {
                    Some(c) => c,
                    None => 0,
                },
            }),
    {
        let p: i64 = match pending {
            Some(p) => p,
            None => 0,
        };
        let c: i64 = match resources {
            Some(c) => c,
            None => 0,
        };
        Reading::Network { pending: p, resources: c }
    }

    /// A DOM reading from raw probe values; a missing length counts as zero
    /// and a missing container flag as absent.
    pub fn dom(text_len: Option<u64>, has_container: Option<bool>) -> (r: Reading)
        ensures
            r == (Reading::Dom {
                text_len: match text_len {
                    Some(t) => t,
                    None => 0,
                },
                has_container: match has_container {
                    Some(h) => h,
                    None => false,
                },
            }),
    {
        let t: u64 = match text_len {
            Some(t) => t,
            None => 0,
        };
        let h: bool = match has_container {
            Some(h) => h,
            None => false,
        };
        Reading::Dom { text_len: t, has_container: h }
    }

    /// An image and font reading from raw probe values; a missing count is
    /// zero and a missing font status counts as loaded.
    pub fn images_fonts(incomplete: Option<i64>, fonts_loaded: Option<bool>) -> (r: Reading)
        ensures
            r == (Reading::ImagesFonts {
                incomplete: match incomplete {
                    Some(n) => n,
                    None => 0,
                },
                fonts_loaded: match fonts_loaded {
                    Some(f) => f,
                    None => true,
                },
            }),
    {
        let n: i64 = match incomplete {
            Some(n) => n,
            None => 0,
        };
        let f: bool = match fonts_loaded {
            Some(f) => f,
            None => true,
        };
        Reading::ImagesFonts { incomplete: n, fonts_loaded: f }
    }
}

/// The last value seen from every probe.
#[derive(Clone, Copy, Debug, PartialEq, Eq)]
pub struct Signals {
    pub ready_state: ReadyState,
    pub pending: i64,
    pub resources: i64,
    pub text_len: u64,
    pub has_container: bool,
    pub images_incomplete: i64,
    pub fonts_loaded: bool,
    pub selector_present: bool,
}

impl Signals {
    /// The signals before any probe has run.
    pub open spec fn unobserved() -> Signals {
        Signals {
            ready_state: ReadyState::Loading,
            pending: 0,
            resources: 0,
            text_len: 0,
            has_container: false,
            images_incomplete: 0,
            fonts_loaded: true,
            selector_present: false,
        }
    }

    /// The signals after `reading` has been seen; `Wake` changes nothing.
    pub open spec fn record(self, reading: Reading) -> Signals {
        match reading {
            Reading::Wake => self,
            Reading::ReadyState(state) => Signals { ready_state: state, ..self },
            Reading::Network { pending, resources } => Signals { pending, resources, ..self },
            Reading::Dom { text_len, has_container } => Signals { text_len, has_container, ..self },
            Reading::ImagesFonts { incomplete, fonts_loaded } => Signals {
                images_incomplete: incomplete,
                fonts_loaded,
                ..self
            },
            Reading::Selector { present } => Signals { selector_present: present, ..self },
        }
    }

    /// Creates the signals that hold before any probe has run.
    pub fn new() -> (r: Signals)
        ensures
            r == Signals::unobserved(),
    {
        Signals {
            ready_state: ReadyState::Loading,
            pending: 0,
            resources: 0,
            text_len: 0,
            has_container: false,
            images_incomplete: 0,
            fonts_loaded: true,
            selector_present: false,
        }
    }

    /// Stores the value of `reading` over the one seen before.
    pub fn observe(&mut self, reading: Reading)
        ensures
            *final(self) == old(self).record(reading),
    {
        match reading {
            Reading::Wake => {},
            Reading::ReadyState(state) => {
                self.ready_state = state;
            },
            Reading::Network { pending, resources } => {
                self.pending = pending;
                self.resources = resources;
            },
            Reading::Dom { text_len, has_container } => {
                self.text_len = text_len;
                self.has_container = has_container;
            },
            Reading::ImagesFonts { incomplete, fonts_loaded } => {
                self.images_incomplete = incomplete;
                self.fonts_loaded = fonts_loaded;
            },
            Reading::Selector { present } => {
                self.selector_present = present;
            },
        }
    }
}

} // verus!
