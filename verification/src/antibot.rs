//! The anti-bot heuristic: looks for the wording of a bot-verification
//! interstitial in the leading visible text of a page.

use crate::text::{chars_of, contains_chars, contains_folded, fold_chars};
use vstd::prelude::*;

verus! {

/// Whether a text holds, in any letter case, one of the phrases that mark a
/// bot-verification interstitial.
pub open spec fn is_challenge_text(text: Seq<char>) -> bool {
    ||| contains_folded(text, "checking your browser"@)
    ||| contains_folded(text, "verifying you are human"@)
    ||| contains_folded(text, "press and hold"@)
}

/// What the heuristic found.
#[derive(Clone, Debug, PartialEq, Eq)]
pub struct AntiBotVerdict {
    /// The page shows a bot-verification interstitial.
    pub js_challenge: bool,
    /// A web application firewall stands in front of the page.
    pub waf_detected: bool,
    /// The vendor of the protection, where known.
    pub vendor: Option<String>,
}

/// Tests whether a text holds one of the interstitial phrases.
pub fn detect_challenge(text: &str) -> (r: bool)
    ensures
        r == is_challenge_text(text@),
{
    let chars = chars_of(text);
    let folded = fold_chars(chars.as_slice());
    let checking = chars_of("checking your browser");
    let verifying = chars_of("verifying you are human");
    let press = chars_of("press and hold");
    contains_chars(folded.as_slice(), checking.as_slice()) || contains_chars(
        folded.as_slice(),
        verifying.as_slice(),
    ) || contains_chars(folded.as_slice(), press.as_slice())
}

/// Judges a page by its leading body text; `None` stands for a probe that
/// ran and returned no value. Both flags rest on the one signal there is, and
/// no vendor is named.
pub fn assess(body_text: Option<&str>) -> (v: AntiBotVerdict)
    ensures
        v.js_challenge == (match body_text {
            Some(text) => is_challenge_text(text@),
            None => false,
        }),
        v.waf_detected == v.js_challenge,
        v.vendor is None,
{
    let challenge = match body_text {
        Some(text) => detect_challenge(text),
        None => false,
    };
    AntiBotVerdict { js_challenge: challenge, waf_detected: challenge, vendor: None }
}

} // verus!
