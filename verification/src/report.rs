//! The records that one probe ends in: the result of a page that was
//! obtained, and the report of a page that did not settle in time.

use crate::antibot::AntiBotVerdict;
use crate::fetch::FetchOutcome;
use crate::readiness::Branch;
use crate::text::str_eq;
use vstd::prelude::*;

verus! {

/// The status that a timeout report carries.
pub const TIMEOUT_STATUS: &'static str = "timeout";

/// What a render session that reached readiness brought back.
#[derive(Clone, Debug, PartialEq, Eq)]
pub struct RenderSuccess {
    pub final_url: String,
    /// The HTTP status, where the session learned it.
    pub status: Option<u16>,
    pub redirected: bool,
    pub html_path: String,
    pub elapsed_ms: u64,
    pub screenshot_path: Option<String>,
    pub pdf_path: Option<String>,
    pub waf_detected: bool,
    pub anti_bot_vendor: Option<String>,
    pub js_challenge: bool,
    pub wait_branch: Branch,
}

/// The signal snapshot taken after a timeout.
#[derive(Clone, Copy, Debug, PartialEq, Eq)]
pub struct Diagnostics {
    pub dom_text_chars: u64,
    pub images_total: u64,
    pub images_incomplete: u64,
    pub pending_requests: u64,
}

/// Where the artifacts captured after a timeout lie.
#[derive(Clone, Debug, PartialEq, Eq)]
pub struct Artifacts {
    pub html: String,
    pub screenshot: String,
    pub pdf: Option<String>,
}

/// The record of a page that did not settle in time.
#[derive(Clone, Debug, PartialEq, Eq)]
pub struct TimeoutReport {
    pub reason: String,
    pub url: String,
    pub deadline_ms: u64,
    pub elapsed_ms: u64,
    /// The readiness branch that the failure is attributed to.
    pub wait_branch: Branch,
    pub diagnostics: Diagnostics,
    pub artifacts: Artifacts,
}

/// The record of a page that was obtained.
#[derive(Clone, Debug, PartialEq, Eq)]
pub struct ProbeResult {
    pub input_url: String,
    pub final_url: String,
    /// The HTTP status; zero where it is not known.
    pub http_status: u16,
    pub redirected: bool,
    pub requires_javascript: bool,
    pub waf_detected: bool,
    pub anti_bot_vendor: Option<String>,
    pub js_challenge_page: bool,
    pub screenshot_path: Option<String>,
    pub pdf_path: Option<String>,
    pub html_path: String,
    pub elapsed_ms: u64,
    /// How many pages a browser rendered: zero or one.
    pub pages_crawled: u32,
    pub wait_branch: Branch,
    pub run_dir: String,
}

impl Diagnostics {
    /// A snapshot from raw probe values; a value that could not be read
    /// counts as zero.
    pub fn from_probes(
        dom_text_chars: Option<u64>,
        images_total: Option<u64>,
        images_incomplete: Option<u64>,
        pending_requests: Option<u64>,
    ) -> (r: Diagnostics)
        ensures
            r == (Diagnostics {
                dom_text_chars: dom_text_chars.unwrap_or(0),
                images_total: images_total.unwrap_or(0),
                images_incomplete: images_incomplete.unwrap_or(0),
                pending_requests: pending_requests.unwrap_or(0),
            }),
    {
        Diagnostics {
            dom_text_chars: dom_text_chars.unwrap_or(0),
            images_total: images_total.unwrap_or(0),
            images_incomplete: images_incomplete.unwrap_or(0),
            pending_requests: pending_requests.unwrap_or(0),
        }
    }
}

impl RenderSuccess {
    /// Puts together what a session brought back. The page counts as
    /// redirected when its final URL differs from the requested one; the
    /// session does not learn an HTTP status.
    pub fn assemble(
        requested_url: &str,
        final_url: String,
        html_path: String,
        elapsed_ms: u64,
        screenshot_path: Option<String>,
        pdf_path: Option<String>,
        verdict: AntiBotVerdict,
        wait_branch: Branch,
    ) -> (r: RenderSuccess)
        ensures
            r == (RenderSuccess {
                final_url,
                status: None,
                redirected: final_url@ != requested_url@,
                html_path,
                elapsed_ms,
                screenshot_path,
                pdf_path,
                waf_detected: verdict.waf_detected,
                anti_bot_vendor: verdict.vendor,
                js_challenge: verdict.js_challenge,
                wait_branch,
            }),
    {
        let redirected = !str_eq(final_url.as_str(), requested_url);
        RenderSuccess {
            final_url,
            status: None,
            redirected,
            html_path,
            elapsed_ms,
            screenshot_path,
            pdf_path,
            waf_detected: verdict.waf_detected,
            anti_bot_vendor: verdict.vendor,
            js_challenge: verdict.js_challenge,
            wait_branch,
        }
    }
}

impl ProbeResult {
    /// The result of a page that the plain fetch obtained: no browser ran, so
    /// the page needs no JavaScript and no page was rendered.
    pub open spec fn of_fetch(
        input_url: String,
        fetch: FetchOutcome,
        html_path: String,
        run_dir: String,
    ) -> ProbeResult {
        ProbeResult {
            input_url,
            final_url: fetch.final_url,
            http_status: fetch.status,
            redirected: fetch.redirected,
            requires_javascript: false,
            waf_detected: fetch.waf_detected,
            anti_bot_vendor: fetch.anti_bot_vendor,
            js_challenge_page: false,
            screenshot_path: None,
            pdf_path: None,
            html_path,
            elapsed_ms: fetch.elapsed_ms,
            pages_crawled: 0,
            wait_branch: Branch::ReadyState,
            run_dir,
        }
    }

    /// The result of a page that a render session obtained.
    pub open spec fn of_render(input_url: String, render: RenderSuccess, run_dir: String)
        -> ProbeResult {
        ProbeResult {
            input_url,
            final_url: render.final_url,
            http_status: match render.status {
                Some(status) => status,
                None => 0,
            },
            redirected: render.redirected,
            requires_javascript: true,
            waf_detected: render.waf_detected,
            anti_bot_vendor: render.anti_bot_vendor,
            js_challenge_page: render.js_challenge,
            screenshot_path: render.screenshot_path,
            pdf_path: render.pdf_path,
            html_path: render.html_path,
            elapsed_ms: render.elapsed_ms,
            pages_crawled: 1,
            wait_branch: render.wait_branch,
            run_dir,
        }
    }

    /// The best-effort result that a timeout degrades into: whatever was
    /// captured, with an unknown status and no protection flagged.
    pub open spec fn of_timeout(input_url: String, report: TimeoutReport, run_dir: String)
        -> ProbeResult {
        ProbeResult {
            input_url,
            final_url: report.url,
            http_status: 0,
            redirected: false,
            requires_javascript: true,
            waf_detected: false,
            anti_bot_vendor: None,
            js_challenge_page: false,
            screenshot_path: Some(report.artifacts.screenshot),
            pdf_path: report.artifacts.pdf,
            html_path: report.artifacts.html,
            elapsed_ms: report.elapsed_ms,
            pages_crawled: 1,
            wait_branch: report.wait_branch,
            run_dir,
        }
    }

    /// Builds the result of a page that the plain fetch obtained.
    pub fn from_fetch(input_url: String, fetch: FetchOutcome, html_path: String, run_dir: String)
        -> (r: ProbeResult)
        ensures
            r == ProbeResult::of_fetch(input_url, fetch, html_path, run_dir),
    {
        ProbeResult {
            input_url,
            final_url: fetch.final_url,
            http_status: fetch.status,
            redirected: fetch.redirected,
            requires_javascript: false,
            waf_detected: fetch.waf_detected,
            anti_bot_vendor: fetch.anti_bot_vendor,
            js_challenge_page: false,
            screenshot_path: None,
            pdf_path: None,
            html_path,
            elapsed_ms: fetch.elapsed_ms,
            pages_crawled: 0,
            wait_branch: Branch::ReadyState,
            run_dir,
        }
    }

    /// Builds the result of a page that a render session obtained.
    pub fn from_render(input_url: String, render: RenderSuccess, run_dir: String) -> (r:
        ProbeResult)
        ensures
            r == ProbeResult::of_render(input_url, render, run_dir),
    {
        let http_status: u16 = match render.status {
            Some(status) => status,
            None => 0,
        };
        ProbeResult {
            input_url,
            final_url: render.final_url,
            http_status,
            redirected: render.redirected,
            requires_javascript: true,
            waf_detected: render.waf_detected,
            anti_bot_vendor: render.anti_bot_vendor,
            js_challenge_page: render.js_challenge,
            screenshot_path: render.screenshot_path,
            pdf_path: render.pdf_path,
            html_path: render.html_path,
            elapsed_ms: render.elapsed_ms,
            pages_crawled: 1,
            wait_branch: render.wait_branch,
            run_dir,
        }
    }

    /// Builds the best-effort result that a timeout degrades into.
    pub fn from_timeout(input_url: String, report: TimeoutReport, run_dir: String) -> (r:
        ProbeResult)
        ensures
            r == ProbeResult::of_timeout(input_url, report, run_dir),
    {
        ProbeResult {
            input_url,
            final_url: report.url,
            http_status: 0,
            redirected: false,
            requires_javascript: true,
            waf_detected: false,
            anti_bot_vendor: None,
            js_challenge_page: false,
            screenshot_path: Some(report.artifacts.screenshot),
            pdf_path: report.artifacts.pdf,
            html_path: report.artifacts.html,
            elapsed_ms: report.elapsed_ms,
            pages_crawled: 1,
            wait_branch: report.wait_branch,
            run_dir,
        }
    }
}

} // verus!
