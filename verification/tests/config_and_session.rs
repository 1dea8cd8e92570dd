use ankabot::config::{
    locale_or_default, parse_window_size, ProbeRequest, DEFAULT_HEIGHT, DEFAULT_LOCALE,
    DEFAULT_WIDTH, PLATFORM,
};
use ankabot::readiness::{ReadinessConfig, WaitReady};
use ankabot::session::{
    for_attempt, geolocation_fields, launch_args, plan, retry_headful, SessionConfig,
    SessionState, Step,
};

fn base_session() -> SessionConfig {
    SessionConfig {
        headful: false,
        headful_fallback: false,
        width: 1366,
        height: 768,
        mobile: false,
        proxy: None,
        extensions: None,
        virtual_time: true,
        max_wait_ms: 12_000,
        locale: None,
        timezone: None,
        geolocation: None,
        import_cookies: false,
        export_cookies: false,
        pdf: true,
    }
}

fn texts(items: &[&str]) -> Vec<String> {
    items.iter().map(|s| s.to_string()).collect()
}

#[test]
fn window_size_is_width_x_height() {
    assert_eq!(parse_window_size("1366x768"), (1366, 768));
    assert_eq!(parse_window_size("800X600"), (800, 600));
    assert_eq!(parse_window_size("1x1"), (1, 1));
    assert_eq!(parse_window_size("0x0"), (0, 0));
    assert_eq!(parse_window_size("+800x+600"), (800, 600));
    assert_eq!(parse_window_size("0800x0600"), (800, 600));
    assert_eq!(parse_window_size("4294967295x4294967295"), (u32::MAX, u32::MAX));
}

#[test]
fn any_other_window_text_gives_the_default_viewport() {
    assert_eq!((DEFAULT_WIDTH, DEFAULT_HEIGHT), (1366, 768));
    for text in [
        "", "x", "800", "800x", "x600", "800x600x32", "800 x 600", "800*600", "axb", "-800x600",
        "800x-600", "4294967296x600", "800x4294967296", "800×600", "800xx600",
    ] {
        assert_eq!(parse_window_size(text), (1366, 768), "{:?}", text);
    }
}

#[test]
fn locale_falls_back_to_the_default_languages() {
    assert_eq!(DEFAULT_LOCALE, "en-US,en;q=0.9");
    assert_eq!(PLATFORM, "Windows");
    assert_eq!(locale_or_default(None), "en-US,en;q=0.9");
    assert_eq!(locale_or_default(Some("ar-AE")), "ar-AE");
    assert_eq!(locale_or_default(Some("")), "");
}

#[test]
fn readiness_settings_come_from_the_request() {
    let request = ProbeRequest {
        url: "https://example.com".to_string(),
        max_wait_ms: 12_000,
        force_render: false,
        wait_ready: WaitReady::Interactive,
        network_idle_ms: 1000,
        idle_threshold: 2,
        heuristic_min_chars: 1500,
        wait_selector: Some("#app".to_string()),
        idle_ignore: None,
    };
    assert_eq!(
        request.readiness(500),
        ReadinessConfig {
            wait_ready: WaitReady::Interactive,
            network_idle_ms: 1000,
            idle_threshold: 2,
            heuristic_min_chars: 1500,
            deadline_ms: 12_500,
            await_selector: true,
        }
    );
    let mut request = request;
    request.wait_selector = None;
    request.max_wait_ms = u64::MAX;
    let cfg = request.readiness(1);
    assert_eq!(cfg.deadline_ms, u64::MAX);
    assert!(!cfg.await_selector);
    request.max_wait_ms = 1;
    assert_eq!(request.readiness(u64::MAX - 1).deadline_ms, u64::MAX);
    assert_eq!(request.readiness(u64::MAX).deadline_ms, u64::MAX);
}

#[test]
fn launch_arguments_of_a_plain_headless_session() {
    assert_eq!(
        launch_args(&base_session()),
        texts(&[
            "--disable-gpu",
            "--disable-dev-shm-usage",
            "--no-first-run",
            "--no-default-browser-check",
            "--hide-scrollbars",
            "--disable-blink-features=AutomationControlled",
            "--disable-background-timer-throttling",
            "--disable-renderer-backgrounding",
            "--disable-backgrounding-occluded-windows",
            "--window-size=1366,768",
            "--headless=new",
            "--virtual-time-budget=12000",
        ])
    );
}

#[test]
fn launch_arguments_follow_the_configuration() {
    let mut cfg = base_session();
    cfg.headful = true;
    cfg.width = 390;
    cfg.height = 844;
    cfg.proxy = Some("socks5://127.0.0.1:9050".to_string());
    cfg.extensions = Some("/ext/a,/ext/b".to_string());
    cfg.virtual_time = false;
    let args = launch_args(&cfg);
    assert_eq!(
        &args[9..],
        &texts(&[
            "--window-size=390,844",
            "--proxy-server=socks5://127.0.0.1:9050",
            "--load-extension=/ext/a,/ext/b",
            "--disable-extensions-except=/ext/a,/ext/b",
        ])[..]
    );
    assert_eq!(args.len(), 13);
    assert!(!args.contains(&"--headless=new".to_string()));

    let mut cfg = base_session();
    cfg.max_wait_ms = 0;
    assert_eq!(launch_args(&cfg)[11], "--virtual-time-budget=0");
    cfg.max_wait_ms = u64::MAX;
    assert_eq!(launch_args(&cfg)[11], "--virtual-time-budget=18446744073709551615");
}

#[test]
fn position_text_is_taken_apart_at_commas() {
    assert_eq!(
        geolocation_fields("25.2,55.3"),
        Some(("25.2".to_string(), "55.3".to_string(), None))
    );
    assert_eq!(
        geolocation_fields("25.2,55.3,10"),
        Some(("25.2".to_string(), "55.3".to_string(), Some("10".to_string())))
    );
    assert_eq!(
        geolocation_fields("1,2,3,4"),
        Some(("1".to_string(), "2".to_string(), Some("3".to_string())))
    );
    assert_eq!(
        geolocation_fields(" 1 , x ,"),
        Some((" 1 ".to_string(), " x ".to_string(), Some(String::new())))
    );
    assert_eq!(geolocation_fields(","), Some((String::new(), String::new(), None)));
    assert_eq!(geolocation_fields("25.2"), None);
    assert_eq!(geolocation_fields(""), None);
}

#[test]
fn plan_of_a_plain_session() {
    assert_eq!(
        plan(&base_session()),
        vec![
            Step::Launch,
            Step::EnableLifecycleEvents,
            Step::OverrideDeviceMetrics,
            Step::InstallInstrumentor,
            Step::InstallStealth,
            Step::SetUserAgent,
            Step::Navigate,
            Step::AwaitNavigation,
            Step::BringToFront,
            Step::EmulateFocus,
            Step::AwaitReadiness,
            Step::AssessAntiBot,
            Step::CaptureHtml,
            Step::CaptureScreenshot,
            Step::SettleImagesFonts,
            Step::PrintPdf,
            Step::Close,
        ]
    );
}

#[test]
fn plan_of_a_fully_configured_session() {
    let mut cfg = base_session();
    cfg.timezone = Some("Asia/Dubai".to_string());
    cfg.locale = Some("ar-AE".to_string());
    cfg.geolocation = Some("25.2,55.3".to_string());
    cfg.import_cookies = true;
    cfg.export_cookies = true;
    cfg.pdf = false;
    assert_eq!(
        plan(&cfg),
        vec![
            Step::Launch,
            Step::EnableLifecycleEvents,
            Step::OverrideDeviceMetrics,
            Step::InstallInstrumentor,
            Step::InstallStealth,
            Step::SetUserAgent,
            Step::OverrideTimezone,
            Step::OverrideLocale,
            Step::OverrideGeolocation,
            Step::ImportCookies,
            Step::Navigate,
            Step::AwaitNavigation,
            Step::BringToFront,
            Step::EmulateFocus,
            Step::AwaitReadiness,
            Step::ExportCookies,
            Step::AssessAntiBot,
            Step::CaptureHtml,
            Step::CaptureScreenshot,
            Step::Close,
        ]
    );
}

#[test]
fn position_without_two_fields_is_not_overridden() {
    let mut cfg = base_session();
    cfg.geolocation = Some("25.2".to_string());
    assert!(!plan(&cfg).contains(&Step::OverrideGeolocation));
    cfg.geolocation = Some("25.2,55.3,5".to_string());
    assert!(plan(&cfg).contains(&Step::OverrideGeolocation));
}

#[test]
fn plan_never_steps_back_in_the_lifecycle() {
    let rank = |state: SessionState| match state {
        SessionState::Launching => 0,
        SessionState::Configuring => 1,
        SessionState::Navigating => 2,
        SessionState::AwaitingReadiness => 3,
        SessionState::CapturingArtifacts => 4,
        SessionState::Closed => 5,
        SessionState::Failed => 6,
    };
    for bits in 0..64u32 {
        let mut cfg = base_session();
        cfg.timezone = if bits & 1 != 0 { Some("UTC".to_string()) } else { None };
        cfg.locale = if bits & 2 != 0 { Some("en".to_string()) } else { None };
        cfg.geolocation = if bits & 4 != 0 { Some("1,2".to_string()) } else { None };
        cfg.import_cookies = bits & 8 != 0;
        cfg.export_cookies = bits & 16 != 0;
        cfg.pdf = bits & 32 != 0;
        let steps = plan(&cfg);
        assert_eq!(steps[0], Step::Launch);
        assert_eq!(steps[steps.len() - 1], Step::Close);
        let mut state = SessionState::Launching;
        for step in &steps {
            assert!(rank(step.stage()) >= rank(state));
            state = state.advance(*step, true);
        }
        assert_eq!(state, SessionState::Closed);
        assert_eq!(steps.iter().filter(|s| **s == Step::AwaitReadiness).count(), 1);
        assert_eq!(steps.iter().filter(|s| **s == Step::CaptureHtml).count(), 1);
    }
}

#[test]
fn steps_belong_to_their_states() {
    assert_eq!(Step::Launch.stage(), SessionState::Launching);
    for step in [
        Step::EnableLifecycleEvents,
        Step::OverrideDeviceMetrics,
        Step::InstallInstrumentor,
        Step::InstallStealth,
        Step::SetUserAgent,
        Step::OverrideTimezone,
        Step::OverrideLocale,
        Step::OverrideGeolocation,
        Step::ImportCookies,
    ] {
        assert_eq!(step.stage(), SessionState::Configuring);
    }
    for step in [Step::Navigate, Step::AwaitNavigation, Step::BringToFront, Step::EmulateFocus] {
        assert_eq!(step.stage(), SessionState::Navigating);
    }
    assert_eq!(Step::AwaitReadiness.stage(), SessionState::AwaitingReadiness);
    for step in [
        Step::ExportCookies,
        Step::AssessAntiBot,
        Step::CaptureHtml,
        Step::CaptureScreenshot,
        Step::SettleImagesFonts,
        Step::PrintPdf,
    ] {
        assert_eq!(step.stage(), SessionState::CapturingArtifacts);
    }
    assert_eq!(Step::Close.stage(), SessionState::Closed);
}

#[test]
fn only_optional_captures_may_fail_without_failing_the_session() {
    for step in [Step::ExportCookies, Step::CaptureScreenshot, Step::PrintPdf, Step::Close] {
        assert!(!step.is_indispensable());
    }
    for step in [
        Step::Launch,
        Step::EnableLifecycleEvents,
        Step::OverrideDeviceMetrics,
        Step::InstallInstrumentor,
        Step::InstallStealth,
        Step::SetUserAgent,
        Step::OverrideTimezone,
        Step::OverrideLocale,
        Step::OverrideGeolocation,
        Step::ImportCookies,
        Step::Navigate,
        Step::AwaitNavigation,
        Step::BringToFront,
        Step::EmulateFocus,
        Step::AwaitReadiness,
        Step::AssessAntiBot,
        Step::CaptureHtml,
        Step::SettleImagesFonts,
    ] {
        assert!(step.is_indispensable());
    }
}

#[test]
fn failure_of_an_indispensable_step_fails_the_session() {
    assert_eq!(
        SessionState::Launching.advance(Step::Launch, false),
        SessionState::Failed
    );
    assert_eq!(
        SessionState::Launching.advance(Step::Launch, true),
        SessionState::Launching
    );
    assert_eq!(
        SessionState::Launching.advance(Step::EnableLifecycleEvents, true),
        SessionState::Configuring
    );
    assert_eq!(
        SessionState::Navigating.advance(Step::AwaitReadiness, false),
        SessionState::Failed
    );
    assert_eq!(
        SessionState::CapturingArtifacts.advance(Step::CaptureScreenshot, false),
        SessionState::CapturingArtifacts
    );
    assert_eq!(
        SessionState::CapturingArtifacts.advance(Step::CaptureHtml, false),
        SessionState::Failed
    );
    assert_eq!(
        SessionState::AwaitingReadiness.advance(Step::AssessAntiBot, false),
        SessionState::Failed
    );
    assert_eq!(
        SessionState::CapturingArtifacts.advance(Step::SettleImagesFonts, false),
        SessionState::Failed
    );
    assert_eq!(
        SessionState::CapturingArtifacts.advance(Step::PrintPdf, false),
        SessionState::CapturingArtifacts
    );
    assert_eq!(
        SessionState::CapturingArtifacts.advance(Step::Close, false),
        SessionState::Closed
    );
    assert_eq!(SessionState::Failed.advance(Step::Close, true), SessionState::Failed);
    assert_eq!(SessionState::Closed.advance(Step::Launch, false), SessionState::Closed);
}

#[test]
fn headful_retry_changes_nothing_but_the_mode() {
    let mut cfg = base_session();
    cfg.headful_fallback = true;
    cfg.proxy = Some("http://proxy:8080".to_string());
    cfg.extensions = Some("/ext".to_string());
    cfg.locale = Some("fr-FR".to_string());
    cfg.timezone = Some("Europe/Paris".to_string());
    cfg.geolocation = Some("48.8,2.3".to_string());
    cfg.import_cookies = true;
    cfg.export_cookies = true;
    cfg.mobile = true;
    let retry = retry_headful(&cfg);
    assert!(retry.headful);
    let mut expected = cfg.clone();
    expected.headful = true;
    assert_eq!(retry, expected);
    assert_eq!(retry_headful(&retry), retry);
    assert_eq!(for_attempt(&cfg, true), retry);
    assert_eq!(for_attempt(&cfg, false), cfg);
    assert_eq!(for_attempt(&retry, false), cfg);
    assert!(!launch_args(&retry).contains(&"--headless=new".to_string()));
    assert!(launch_args(&cfg).contains(&"--headless=new".to_string()));
}
