use ankabot::antibot::{assess, detect_challenge, AntiBotVerdict};
use ankabot::fetch::{classify, FetchOutcome};
use ankabot::policy::{
    blame, dispose, on_step_failure, readiness_timeout_message, route_failure,
    selector_timeout_message, FailureRoute, OnTimeout, Outcome, StepFailure, READINESS_TIMEOUT,
    SETTLE_TIMEOUT,
};
use ankabot::session::Step;
use ankabot::probe::{Command, Event, Probe, Stage, RENDER_FAILED};
use ankabot::readiness::{
    Branch, ReadinessConfig, ReadinessEngine, ReadinessResult, Request, WaitReady,
};
use ankabot::report::{
    Artifacts, Diagnostics, ProbeResult, RenderSuccess, TimeoutReport, TIMEOUT_STATUS,
};
use ankabot::signals::Reading;

fn static_page() -> String {
    let mut html = String::from("<!doctype html><html><body><h1>Static</h1>");
    for i in 0..5 {
        html.push_str(&format!("<a href=\"/page/{}\">page {}</a>", i, i));
    }
    while html.len() < 2048 - 14 {
        html.push_str(" ");
    }
    html.push_str("</body></html>");
    html
}

fn fetched(body: &str) -> FetchOutcome {
    classify("https://example.com/", "https://example.com/".to_string(), 200, body, 31)
}

fn some_report(reason: &str) -> TimeoutReport {
    TimeoutReport::new(
        reason.to_string(),
        "https://example.com/".to_string(),
        1,
        250,
        Diagnostics::from_probes(None, None, None, None),
        Artifacts {
            html: "out/debug/t/dom.html".to_string(),
            screenshot: "out/debug/t/snap.png".to_string(),
            pdf: Some("out/debug/t/example.com.pdf".to_string()),
        },
    )
}

fn some_render() -> RenderSuccess {
    RenderSuccess::assemble(
        "https://example.com/",
        "https://example.com/app".to_string(),
        "run/dom.html".to_string(),
        900,
        Some("run/snap.png".to_string()),
        Some("run/page.pdf".to_string()),
        assess(Some("Welcome")),
        Branch::NetworkIdle,
    )
}

fn begin(force_render: bool, headful: bool, fallback: bool, on_timeout: OnTimeout) -> (Probe, Command) {
    Probe::begin(
        "https://example.com/".to_string(),
        "run".to_string(),
        "run/http_raw.html".to_string(),
        force_render,
        headful,
        fallback,
        on_timeout,
    )
}

#[test]
fn interstitial_phrases_are_found_in_any_letter_case() {
    assert!(detect_challenge("Checking your browser before accessing example.com"));
    assert!(detect_challenge("Please wait... VERIFYING YOU ARE HUMAN. This may take a moment"));
    assert!(detect_challenge("Press and Hold the button"));
    assert!(detect_challenge("\"checking your browser\""));
    assert!(!detect_challenge(""));
    assert!(!detect_challenge("Welcome to our shop"));
    assert!(!detect_challenge("checking  your browser"));
    assert!(!detect_challenge("verifying you are\nhuman"));
    assert!(!detect_challenge("press and hol"));
}

#[test]
fn page_verifying_you_are_human_is_flagged() {
    let mut text = "x".repeat(4000);
    text.push_str(" verifying you are human ");
    assert!(text.chars().count() <= 4096);
    let verdict = assess(Some(&text));
    assert_eq!(
        verdict,
        AntiBotVerdict { js_challenge: true, waf_detected: true, vendor: None }
    );

    let result = ProbeResult::from_render(
        "https://example.com/".to_string(),
        RenderSuccess::assemble(
            "https://example.com/",
            "https://example.com/".to_string(),
            "run/dom.html".to_string(),
            10,
            None,
            None,
            verdict,
            Branch::ReadyState,
        ),
        "run".to_string(),
    );
    assert!(result.js_challenge_page);
    assert!(result.waf_detected);
    assert_eq!(result.anti_bot_vendor, None);
}

#[test]
fn ordinary_or_unreadable_page_is_not_flagged() {
    let clear = AntiBotVerdict { js_challenge: false, waf_detected: false, vendor: None };
    assert_eq!(assess(Some("Hello, world")), clear);
    assert_eq!(assess(Some("")), clear);
    assert_eq!(assess(None), clear);
}

#[test]
fn timeouts_are_told_from_other_failures() {
    assert_eq!(route_failure("wait_until_ready timeout"), FailureRoute::Diagnose(Branch::Heuristic));
    assert_eq!(route_failure("images/fonts timeout"), FailureRoute::Diagnose(Branch::Heuristic));
    assert_eq!(
        route_failure("selector '#app' not found before timeout"),
        FailureRoute::Diagnose(Branch::Heuristic)
    );
    assert_eq!(route_failure("EventNeverCame"), FailureRoute::Diagnose(Branch::Heuristic));
    assert_eq!(
        route_failure("network idle timeout"),
        FailureRoute::Diagnose(Branch::NetworkIdle)
    );
    assert_eq!(
        route_failure("readyState timeout"),
        FailureRoute::Diagnose(Branch::ReadyState)
    );
    assert_eq!(
        route_failure("timeout: readyState after network idle"),
        FailureRoute::Diagnose(Branch::NetworkIdle)
    );
    assert_eq!(route_failure("Timeout"), FailureRoute::Fatal);
    assert_eq!(route_failure("The event waited for never came"), FailureRoute::Fatal);
    assert_eq!(route_failure("network idle"), FailureRoute::Fatal);
    assert_eq!(route_failure("could not launch browser"), FailureRoute::Fatal);
    assert_eq!(route_failure(""), FailureRoute::Fatal);
}

#[test]
fn failed_step_is_passed_over_diagnosed_or_fatal() {
    // The three optional captures and the close never stop a session,
    // whatever the message.
    for step in [Step::ExportCookies, Step::CaptureScreenshot, Step::PrintPdf, Step::Close] {
        assert_eq!(on_step_failure(step, "images/fonts timeout"), StepFailure::Continue);
        assert_eq!(on_step_failure(step, "disk full"), StepFailure::Continue);
    }
    // Before navigation even a timeout-like message is fatal.
    for step in [Step::Launch, Step::SetUserAgent, Step::ImportCookies] {
        assert_eq!(on_step_failure(step, "launch timeout"), StepFailure::Fail);
        assert_eq!(on_step_failure(step, "no such file"), StepFailure::Fail);
    }
    // From navigation on, the message decides.
    for step in [
        Step::Navigate,
        Step::AwaitNavigation,
        Step::BringToFront,
        Step::EmulateFocus,
        Step::AwaitReadiness,
        Step::AssessAntiBot,
        Step::CaptureHtml,
        Step::SettleImagesFonts,
    ] {
        assert_eq!(
            on_step_failure(step, "wait_until_ready timeout"),
            StepFailure::Diagnose(Branch::Heuristic)
        );
        assert_eq!(
            on_step_failure(step, "network idle timeout"),
            StepFailure::Diagnose(Branch::NetworkIdle)
        );
        assert_eq!(
            on_step_failure(step, "readyState EventNeverCame"),
            StepFailure::Diagnose(Branch::ReadyState)
        );
        assert_eq!(on_step_failure(step, "net::ERR_NAME_NOT_RESOLVED"), StepFailure::Fail);
        assert_eq!(on_step_failure(step, ""), StepFailure::Fail);
    }
}

#[test]
fn failed_interstitial_read_is_classified_by_its_message() {
    assert_eq!(
        on_step_failure(Step::AssessAntiBot, "evaluate timeout"),
        StepFailure::Diagnose(Branch::Heuristic)
    );
    assert_eq!(
        on_step_failure(Step::AssessAntiBot, "Target closed"),
        StepFailure::Fail
    );
}

#[test]
fn image_and_font_wait_past_its_deadline_is_diagnosed() {
    assert_eq!(
        on_step_failure(Step::SettleImagesFonts, SETTLE_TIMEOUT),
        StepFailure::Diagnose(Branch::Heuristic)
    );
    assert_eq!(
        on_step_failure(Step::SettleImagesFonts, "connection lost"),
        StepFailure::Fail
    );
}

#[test]
fn timeout_is_attributed_by_its_message() {
    assert_eq!(blame("network idle"), Branch::NetworkIdle);
    assert_eq!(blame("readyState"), Branch::ReadyState);
    assert_eq!(blame("readystate"), Branch::Heuristic);
    assert_eq!(blame("Network Idle"), Branch::Heuristic);
    assert_eq!(blame(""), Branch::Heuristic);
    assert_eq!(
        route_failure("selector '.readyState' not found before timeout"),
        FailureRoute::Diagnose(Branch::ReadyState)
    );
}

#[test]
fn wait_timeout_messages() {
    assert_eq!(READINESS_TIMEOUT, "wait_until_ready timeout");
    assert_eq!(SETTLE_TIMEOUT, "images/fonts timeout");
    assert_eq!(
        selector_timeout_message("#app > main"),
        "selector '#app > main' not found before timeout"
    );
    assert_eq!(selector_timeout_message(""), "selector '' not found before timeout");
    for message in [
        READINESS_TIMEOUT.to_string(),
        SETTLE_TIMEOUT.to_string(),
        selector_timeout_message("a[href]"),
    ] {
        assert!(matches!(route_failure(&message), FailureRoute::Diagnose(_)));
    }
}

#[test]
fn readiness_timeout_names_what_was_awaited() {
    let cfg = ReadinessConfig {
        wait_ready: WaitReady::Complete,
        network_idle_ms: 1000,
        idle_threshold: 0,
        heuristic_min_chars: 1500,
        deadline_ms: 100,
        await_selector: true,
    };
    // Timed out before any branch was chosen.
    let mut engine = ReadinessEngine::new(cfg);
    engine.step(100, Reading::Wake);
    assert_eq!(readiness_timeout_message(&engine, Some("#app")), "wait_until_ready timeout");
    assert_eq!(readiness_timeout_message(&engine, None), "wait_until_ready timeout");

    // Timed out while waiting for the selector.
    let mut engine = ReadinessEngine::new(cfg);
    engine.step(0, Reading::Wake);
    engine.step(0, Reading::ReadyState(ankabot::signals::ReadyState::Complete));
    engine.step(0, Reading::Selector { present: false });
    assert!(matches!(
        engine.step(100, Reading::Wake),
        Request::Finished(ReadinessResult::TimedOut(_))
    ));
    assert_eq!(
        readiness_timeout_message(&engine, Some("#app")),
        "selector '#app' not found before timeout"
    );
}

#[test]
fn diagnostics_default_to_zero() {
    assert_eq!(
        Diagnostics::from_probes(Some(1200), Some(8), Some(3), Some(2)),
        Diagnostics { dom_text_chars: 1200, images_total: 8, images_incomplete: 3, pending_requests: 2 }
    );
    assert_eq!(
        Diagnostics::from_probes(None, Some(8), None, None),
        Diagnostics { dom_text_chars: 0, images_total: 8, images_incomplete: 0, pending_requests: 0 }
    );
}

#[test]
fn timeout_report_blames_a_branch() {
    assert_eq!(TIMEOUT_STATUS, "timeout");
    let report = some_report("wait_until_ready timeout");
    assert_eq!(
        report,
        TimeoutReport {
            reason: "wait_until_ready timeout".to_string(),
            url: "https://example.com/".to_string(),
            deadline_ms: 1,
            elapsed_ms: 250,
            wait_branch: Branch::Heuristic,
            diagnostics: Diagnostics {
                dom_text_chars: 0,
                images_total: 0,
                images_incomplete: 0,
                pending_requests: 0,
            },
            artifacts: Artifacts {
                html: "out/debug/t/dom.html".to_string(),
                screenshot: "out/debug/t/snap.png".to_string(),
                pdf: Some("out/debug/t/example.com.pdf".to_string()),
            },
        }
    );
    assert_eq!(some_report("network idle timeout").wait_branch, Branch::NetworkIdle);
    assert_eq!(some_report("readyState timeout").wait_branch, Branch::ReadyState);
}

#[test]
fn report_disposition_emits_the_report() {
    let report = some_report("wait_until_ready timeout");
    let outcome = dispose(OnTimeout::Report, "https://in/".to_string(), report.clone(), "run".to_string());
    assert_eq!(outcome, Outcome::TimedOut(report));
    assert_eq!(outcome.exit_status(), 2);
}

#[test]
fn continue_disposition_degrades_into_a_result() {
    let report = some_report("wait_until_ready timeout");
    let outcome = dispose(OnTimeout::Continue, "https://in/".to_string(), report, "run".to_string());
    assert_eq!(
        outcome,
        Outcome::Page(ProbeResult {
            input_url: "https://in/".to_string(),
            final_url: "https://example.com/".to_string(),
            http_status: 0,
            redirected: false,
            requires_javascript: true,
            waf_detected: false,
            anti_bot_vendor: None,
            js_challenge_page: false,
            screenshot_path: Some("out/debug/t/snap.png".to_string()),
            pdf_path: Some("out/debug/t/example.com.pdf".to_string()),
            html_path: "out/debug/t/dom.html".to_string(),
            elapsed_ms: 250,
            pages_crawled: 1,
            wait_branch: Branch::Heuristic,
            run_dir: "run".to_string(),
        })
    );
    assert_eq!(outcome.exit_status(), 0);
}

#[test]
fn fail_disposition_surfaces_the_reason() {
    let report = some_report("images/fonts timeout");
    let outcome = dispose(OnTimeout::Fail, "https://in/".to_string(), report, "run".to_string());
    assert_eq!(outcome, Outcome::Failed("images/fonts timeout".to_string()));
    assert_eq!(outcome.exit_status(), 1);
}

#[test]
fn render_success_is_assembled_from_the_session() {
    let render = some_render();
    assert_eq!(
        render,
        RenderSuccess {
            final_url: "https://example.com/app".to_string(),
            status: None,
            redirected: true,
            html_path: "run/dom.html".to_string(),
            elapsed_ms: 900,
            screenshot_path: Some("run/snap.png".to_string()),
            pdf_path: Some("run/page.pdf".to_string()),
            waf_detected: false,
            anti_bot_vendor: None,
            js_challenge: false,
            wait_branch: Branch::NetworkIdle,
        }
    );
    let same = RenderSuccess::assemble(
        "https://example.com/",
        "https://example.com/".to_string(),
        String::new(),
        0,
        None,
        None,
        assess(None),
        Branch::NoWait,
    );
    assert!(!same.redirected);
}

#[test]
fn rendered_result_has_status_zero_when_unknown() {
    let result = ProbeResult::from_render("https://in/".to_string(), some_render(), "run".to_string());
    assert_eq!(
        result,
        ProbeResult {
            input_url: "https://in/".to_string(),
            final_url: "https://example.com/app".to_string(),
            http_status: 0,
            redirected: true,
            requires_javascript: true,
            waf_detected: false,
            anti_bot_vendor: None,
            js_challenge_page: false,
            screenshot_path: Some("run/snap.png".to_string()),
            pdf_path: Some("run/page.pdf".to_string()),
            html_path: "run/dom.html".to_string(),
            elapsed_ms: 900,
            pages_crawled: 1,
            wait_branch: Branch::NetworkIdle,
            run_dir: "run".to_string(),
        }
    );
    let mut known = some_render();
    known.status = Some(203);
    let result = ProbeResult::from_render("https://in/".to_string(), known, "run".to_string());
    assert_eq!(result.http_status, 203);
}

#[test]
fn static_page_is_delivered_without_a_browser() {
    let page = static_page();
    assert_eq!(page.len(), 2048);
    let (mut probe, first) = begin(false, false, true, OnTimeout::Report);
    assert_eq!(first, Command::Fetch);
    assert_eq!(probe.stage, Stage::Fetching);
    let command = probe.step(Event::Fetched(fetched(&page)));
    assert_eq!(
        command,
        Command::Finish(Outcome::Page(ProbeResult {
            input_url: "https://example.com/".to_string(),
            final_url: "https://example.com/".to_string(),
            http_status: 200,
            redirected: false,
            requires_javascript: false,
            waf_detected: false,
            anti_bot_vendor: None,
            js_challenge_page: false,
            screenshot_path: None,
            pdf_path: None,
            html_path: "run/http_raw.html".to_string(),
            elapsed_ms: 31,
            pages_crawled: 0,
            wait_branch: Branch::ReadyState,
            run_dir: "run".to_string(),
        }))
    );
    assert_eq!(probe.stage, Stage::Done);
    assert_eq!(probe.step(Event::FetchFailed), Command::Nothing);
    assert_eq!(probe.step(Event::Rendered(some_render())), Command::Nothing);
}

#[test]
fn loading_shell_is_rendered_and_the_branch_recorded() {
    let shell = "<html><body>Loading...</body></html>    ";
    assert_eq!(shell.len(), 40);
    let (mut probe, _) = begin(false, false, false, OnTimeout::Report);
    assert_eq!(
        probe.step(Event::Fetched(fetched(shell))),
        Command::Render { headful: false }
    );
    assert_eq!(probe.stage, Stage::Rendering { retry: false });
    match probe.step(Event::Rendered(some_render())) {
        Command::Finish(Outcome::Page(result)) => {
            assert!(result.requires_javascript);
            assert_eq!(result.pages_crawled, 1);
            assert_eq!(result.wait_branch, Branch::NetworkIdle);
            assert_eq!(result.wait_branch.name(), "network_idle");
        }
        other => panic!("unexpected command {:?}", other),
    }
    assert_eq!(probe.stage, Stage::Done);
}

#[test]
fn failed_fetch_turns_to_the_browser() {
    let (mut probe, _) = begin(false, true, false, OnTimeout::Report);
    assert_eq!(probe.step(Event::FetchFailed), Command::Render { headful: true });
}

#[test]
fn forced_render_skips_the_fetch() {
    let (mut probe, first) = begin(true, false, false, OnTimeout::Report);
    assert_eq!(first, Command::Render { headful: false });
    assert_eq!(probe.stage, Stage::Rendering { retry: false });
    // A fetch result is not what the probe is waiting for.
    assert_eq!(
        probe.step(Event::Fetched(fetched(&static_page()))),
        Command::Render { headful: false }
    );
    assert_eq!(probe.stage, Stage::Rendering { retry: false });
}

#[test]
fn one_millisecond_budget_ends_in_a_reported_timeout() {
    let started = 40;
    let mut engine = ReadinessEngine::new(ReadinessConfig {
        wait_ready: WaitReady::Complete,
        network_idle_ms: 1000,
        idle_threshold: 0,
        heuristic_min_chars: 1500,
        deadline_ms: started + 1,
        await_selector: false,
    });
    let request = engine.step(started + 120, Reading::Wake);
    assert!(matches!(request, Request::Finished(ReadinessResult::TimedOut(_))));
    assert!(matches!(route_failure(READINESS_TIMEOUT), FailureRoute::Diagnose(_)));

    let report = TimeoutReport::new(
        READINESS_TIMEOUT.to_string(),
        "https://example.com/".to_string(),
        1,
        120,
        Diagnostics::from_probes(None, None, None, None),
        Artifacts { html: "d/dom.html".to_string(), screenshot: "d/snap.png".to_string(), pdf: None },
    );
    let (mut probe, _) = begin(true, false, false, OnTimeout::Report);
    match probe.step(Event::RenderTimedOut(report)) {
        Command::Finish(outcome) => {
            assert_eq!(outcome.exit_status(), 2);
            match outcome {
                Outcome::TimedOut(report) => {
                    assert_eq!(report.deadline_ms, 1);
                    assert_eq!(report.diagnostics.pending_requests, 0);
                    assert_eq!(report.diagnostics.dom_text_chars, 0);
                    assert_eq!(report.reason, "wait_until_ready timeout");
                }
                other => panic!("unexpected outcome {:?}", other),
            }
        }
        other => panic!("unexpected command {:?}", other),
    }
}

#[test]
fn timeout_follows_the_chosen_disposition() {
    for (on_timeout, status) in [(OnTimeout::Continue, 0), (OnTimeout::Report, 2), (OnTimeout::Fail, 1)] {
        let (mut probe, _) = begin(true, false, true, on_timeout);
        match probe.step(Event::RenderTimedOut(some_report("wait_until_ready timeout"))) {
            Command::Finish(outcome) => assert_eq!(outcome.exit_status(), status),
            other => panic!("unexpected command {:?}", other),
        }
        assert_eq!(probe.stage, Stage::Done);
    }
}

#[test]
fn headless_failure_is_retried_once_headful() {
    assert_eq!(RENDER_FAILED, "headless-chrome render failed");
    let (mut probe, first) = begin(true, false, true, OnTimeout::Report);
    assert_eq!(first, Command::Render { headful: false });
    assert_eq!(
        probe.step(Event::RenderFailed("could not launch".to_string())),
        Command::Render { headful: true }
    );
    assert_eq!(probe.stage, Stage::Rendering { retry: true });
    assert_eq!(probe.command(), Command::Render { headful: true });
    assert_eq!(
        probe.step(Event::RenderFailed("still could not launch".to_string())),
        Command::Finish(Outcome::Failed("still could not launch".to_string()))
    );
    assert_eq!(probe.stage, Stage::Done);
    assert_eq!(
        probe.step(Event::RenderFailed("again".to_string())),
        Command::Nothing
    );
}

#[test]
fn headful_retry_may_succeed() {
    let (mut probe, _) = begin(true, false, true, OnTimeout::Report);
    probe.step(Event::RenderFailed("no display".to_string()));
    match probe.step(Event::Rendered(some_render())) {
        Command::Finish(Outcome::Page(result)) => assert!(result.requires_javascript),
        other => panic!("unexpected command {:?}", other),
    }
}

#[test]
fn failure_without_fallback_is_final() {
    let (mut probe, _) = begin(true, false, false, OnTimeout::Report);
    assert_eq!(
        probe.step(Event::RenderFailed("boom".to_string())),
        Command::Finish(Outcome::Failed("boom".to_string()))
    );
    // A session that was headful to begin with is not retried either.
    let (mut probe, _) = begin(true, true, true, OnTimeout::Report);
    assert_eq!(
        probe.step(Event::RenderFailed("boom".to_string())),
        Command::Finish(Outcome::Failed("boom".to_string()))
    );
}
