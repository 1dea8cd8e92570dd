//! The render session: how one browser tab is launched and configured, and
//! the steps that a session runs through from launch to close.
//!
//! The library decides what is done and in which order; its caller talks to
//! the browser and carries each step out.

use crate::decimal::{decimal, push_decimal};
use crate::text::{split, split_fields};
use vstd::prelude::*;

verus! {

/// How one browser tab is launched and set up. The value is never changed
/// once made: a retry works on a copy.
#[derive(Clone, Debug, PartialEq, Eq)]
pub struct SessionConfig {
    /// Run the browser with a visible window.
    pub headful: bool,
    /// After a failed headless session, try once more with a visible window.
    pub headful_fallback: bool,
    pub width: u32,
    pub height: u32,
    /// Emulate a mobile device.
    pub mobile: bool,
    pub proxy: Option<String>,
    /// Extension directories, separated by commas.
    pub extensions: Option<String>,
    /// Give the browser a virtual time budget of `max_wait_ms`.
    pub virtual_time: bool,
    pub max_wait_ms: u64,
    pub locale: Option<String>,
    pub timezone: Option<String>,
    /// Position as `latitude,longitude` or `latitude,longitude,accuracy`.
    pub geolocation: Option<String>,
    /// Load a cookie list into the session before navigating.
    pub import_cookies: bool,
    /// Save the session's cookies once the page is ready.
    pub export_cookies: bool,
    /// Print the page to PDF.
    pub pdf: bool,
}

/// The states of a render session.
#[derive(Clone, Copy, Debug, PartialEq, Eq)]
pub enum SessionState {
    Launching,
    Configuring,
    Navigating,
    AwaitingReadiness,
    CapturingArtifacts,
    Closed,
    /// Reached from any other state when a step fails.
    Failed,
}

/// One step of a render session.
#[derive(Clone, Copy, Debug, PartialEq, Eq)]
pub enum Step {
    /// Start the browser with the launch arguments and open a tab.
    Launch,
    EnableLifecycleEvents,
    OverrideDeviceMetrics,
    /// Install the network-activity instrumentor in every new document.
    InstallInstrumentor,
    /// Install the stealth script in every new document.
    InstallStealth,
    SetUserAgent,
    OverrideTimezone,
    OverrideLocale,
    OverrideGeolocation,
    ImportCookies,
    Navigate,
    AwaitNavigation,
    BringToFront,
    EmulateFocus,
    /// Run the readiness engine.
    AwaitReadiness,
    ExportCookies,
    /// Read the leading body text and look for a bot-check interstitial.
    AssessAntiBot,
    CaptureHtml,
    CaptureScreenshot,
    /// Wait for images and fonts before printing.
    SettleImagesFonts,
    PrintPdf,
    /// Tear down the tab and the browser.
    Close,
}

impl Step {
    /// The state in which a session carries out this step.
    pub open spec fn state(self) -> SessionState {
        match self {
            Step::Launch => SessionState::Launching,
            Step::EnableLifecycleEvents
            | Step::OverrideDeviceMetrics
            | Step::InstallInstrumentor
            | Step::InstallStealth
            | Step::SetUserAgent
            | Step::OverrideTimezone
            | Step::OverrideLocale
            | Step::OverrideGeolocation
            | Step::ImportCookies => SessionState::Configuring,
            Step::Navigate | Step::AwaitNavigation | Step::BringToFront | Step::EmulateFocus =>
                SessionState::Navigating,
            Step::AwaitReadiness => SessionState::AwaitingReadiness,
            Step::ExportCookies
            | Step::AssessAntiBot
            | Step::CaptureHtml
            | Step::CaptureScreenshot
            | Step::SettleImagesFonts
            | Step::PrintPdf => SessionState::CapturingArtifacts,
            Step::Close => SessionState::Closed,
        }
    }

    /// The state in which a session carries out this step.
    pub fn stage(self) -> (r: SessionState)
        ensures
            r == self.state(),
    {
        match self {
            Step::Launch => SessionState::Launching,
            Step::EnableLifecycleEvents
            | Step::OverrideDeviceMetrics
            | Step::InstallInstrumentor
            | Step::InstallStealth
            | Step::SetUserAgent
            | Step::OverrideTimezone
            | Step::OverrideLocale
            | Step::OverrideGeolocation
            | Step::ImportCookies => SessionState::Configuring,
            Step::Navigate | Step::AwaitNavigation | Step::BringToFront | Step::EmulateFocus =>
                SessionState::Navigating,
            Step::AwaitReadiness => SessionState::AwaitingReadiness,
            Step::ExportCookies
            | Step::AssessAntiBot
            | Step::CaptureHtml
            | Step::CaptureScreenshot
            | Step::SettleImagesFonts
            | Step::PrintPdf => SessionState::CapturingArtifacts,
            Step::Close => SessionState::Closed,
        }
    }

    /// Whether a session that fails at this step has failed as a whole. Three
    /// captures are optional: the export of cookies, the screenshot and the
    /// print to PDF. Closing never fails a session. Every other step is
    /// indispensable, the interstitial check and the wait for images and
    /// fonts among them: a read of the page that fails, and a wait that runs
    /// past its deadline, fail the session.
    pub open spec fn indispensable(self) -> bool {
        &&& self != Step::ExportCookies
        &&& self != Step::CaptureScreenshot
        &&& self != Step::PrintPdf
        &&& self != Step::Close
    }

    /// Tests whether a failure of this step fails the session.
    pub fn is_indispensable(self) -> (r: bool)
        ensures
            r == self.indispensable(),
    {
        match self {
            Step::ExportCookies | Step::CaptureScreenshot | Step::PrintPdf | Step::Close => false,
            _ => true,
        }
    }
}

impl SessionState {
    /// Position of a state in the order in which a session passes through
    /// its states.
    pub open spec fn rank(self) -> nat {
        match self {
            SessionState::Launching => 0,
            SessionState::Configuring => 1,
            SessionState::Navigating => 2,
            SessionState::AwaitingReadiness => 3,
            SessionState::CapturingArtifacts => 4,
            SessionState::Closed => 5,
            SessionState::Failed => 6,
        }
    }

    /// The state after a step that belongs to `step`'s state has been tried
    /// in this state: `Failed` where an indispensable step did not succeed,
    /// and otherwise the state of `step`. A session that is closed or has
    /// failed stays as it is.
    pub open spec fn after(self, step: Step, succeeded: bool) -> SessionState {
        match self {
            SessionState::Closed | SessionState::Failed => self,
            _ => if !succeeded && step.indispensable() {
                SessionState::Failed
            } else {
                step.state()
            },
        }
    }

    /// Advances the state over one step that was tried.
    pub fn advance(self, step: Step, succeeded: bool) -> (r: SessionState)
        ensures
            r == self.after(step, succeeded),
    {
        match self {
            SessionState::Closed => self,
            SessionState::Failed => self,
            _ => {
                if !succeeded && step.is_indispensable() {
                    SessionState::Failed
                } else {
                    step.stage()
                }
            },
        }
    }
}

/// The launch arguments that every session has.
pub open spec fn fixed_args() -> Seq<Seq<char>> {
    seq![
        "--disable-gpu"@,
        "--disable-dev-shm-usage"@,
        "--no-first-run"@,
        "--no-default-browser-check"@,
        "--hide-scrollbars"@,
        "--disable-blink-features=AutomationControlled"@,
        "--disable-background-timer-throttling"@,
        "--disable-renderer-backgrounding"@,
        "--disable-backgrounding-occluded-windows"@,
    ]
}

/// The launch argument that sets the window size.
pub open spec fn window_arg(width: u32, height: u32) -> Seq<char> {
    "--window-size="@ + decimal(width as nat) + ","@ + decimal(height as nat)
}

/// The launch arguments that depend on the configuration, in order: headless
/// mode, proxy, extensions, virtual time budget.
pub open spec fn optional_args(cfg: SessionConfig) -> Seq<Seq<char>> {
    (if cfg.headful {
        seq![]
    } else {
        seq!["--headless=new"@]
    }) + (match cfg.proxy {
        Some(proxy) => seq!["--proxy-server="@ + proxy@],
        None => seq![],
    }) + (match cfg.extensions {
        Some(dirs) => seq!["--load-extension="@ + dirs@, "--disable-extensions-except="@ + dirs@],
        None => seq![],
    }) + (if cfg.virtual_time {
        seq!["--virtual-time-budget="@ + decimal(cfg.max_wait_ms as nat)]
    } else {
        seq![]
    })
}

/// The browser's launch arguments for a configuration.
pub open spec fn launch_args_for(cfg: SessionConfig) -> Seq<Seq<char>> {
    fixed_args().push(window_arg(cfg.width, cfg.height)) + optional_args(cfg)
}

fn push_arg(args: &mut Vec<String>, arg: String)
    ensures
        final(args).deep_view() == old(args).deep_view().push(arg@),
{
    args.push(arg);
    assert(args.deep_view() =~= old(args).deep_view().push(arg@));
}

fn push_literal(args: &mut Vec<String>, arg: &str)
    ensures
        final(args).deep_view() == old(args).deep_view().push(arg@),
{
    push_arg(args, String::from_str(arg));
}

/// Builds the browser's launch arguments.
pub fn launch_args(cfg: &SessionConfig) -> (args: Vec<String>)
    ensures
        args.deep_view() == launch_args_for(*cfg),
{
    let mut args: Vec<String> = Vec::new();
    assert(args.deep_view() =~= Seq::<Seq<char>>::empty());
    push_literal(&mut args, "--disable-gpu");
    push_literal(&mut args, "--disable-dev-shm-usage");
    push_literal(&mut args, "--no-first-run");
    push_literal(&mut args, "--no-default-browser-check");
    push_literal(&mut args, "--hide-scrollbars");
    push_literal(&mut args, "--disable-blink-features=AutomationControlled");
    push_literal(&mut args, "--disable-background-timer-throttling");
    push_literal(&mut args, "--disable-renderer-backgrounding");
    push_literal(&mut args, "--disable-backgrounding-occluded-windows");
    assert(args.deep_view() =~= fixed_args());

    let mut window = String::from_str("--window-size=");
    push_decimal(&mut window, cfg.width as u64);
    window.append(",");
    push_decimal(&mut window, cfg.height as u64);
    push_arg(&mut args, window);
    let ghost base = args.deep_view();
    assert(base == fixed_args().push(window_arg(cfg.width, cfg.height)));

    if !cfg.headful {
        push_literal(&mut args, "--headless=new");
    }
    let ghost with_mode = args.deep_view();
    match &cfg.proxy {
        Some(proxy) => {
            let mut arg = String::from_str("--proxy-server=");
            arg.append(proxy.as_str());
            push_arg(&mut args, arg);
        },
        None => {},
    }
    let ghost with_proxy = args.deep_view();
    match &cfg.extensions {
        Some(dirs) => {
            let mut load = String::from_str("--load-extension=");
            load.append(dirs.as_str());
            push_arg(&mut args, load);
            let mut except = String::from_str("--disable-extensions-except=");
            except.append(dirs.as_str());
            push_arg(&mut args, except);
        },
        None => {},
    }
    let ghost with_extensions = args.deep_view();
    if cfg.virtual_time {
        let mut arg = String::from_str("--virtual-time-budget=");
        push_decimal(&mut arg, cfg.max_wait_ms);
        push_arg(&mut args, arg);
    }
    assert(args.deep_view() =~= base + optional_args(*cfg));
    args
}

/// The fields of a position text, where it has at least a latitude and a
/// longitude: those two, and the accuracy where a third field is given.
/// Further fields are ignored.
pub open spec fn position_fields(geolocation: Seq<char>) -> Option<
    (Seq<char>, Seq<char>, Option<Seq<char>>),
> {
    let fields = split(geolocation, ',');
    if fields.len() >= 2 {
        Some(
            (
                fields[0],
                fields[1],
                if fields.len() > 2 {
                    Some(fields[2])
                } else {
                    None
                },
            ),
        )
    } else {
        None
    }
}

/// Takes a position text apart into latitude, longitude and accuracy. The
/// fields are returned as written; reading them as numbers is the caller's
/// part.
pub fn geolocation_fields(geolocation: &str) -> (r: Option<(String, String, Option<String>)>)
    ensures
        match (r, position_fields(geolocation@)) {
            (Some((lat, lon, acc)), Some((lat_text, lon_text, acc_text))) => {
                &&& lat@ == lat_text
                &&& lon@ == lon_text
                &&& match (acc, acc_text) {
                    (Some(a), Some(a_text)) => a@ == a_text,
                    (None, None) => true,
                    _ => false,
                }
            },
            (None, None) => true,
            _ => false,
        },
{
    let mut fields = split_fields(geolocation, ',');
    let ghost all = fields.deep_view();
    if fields.len() < 2 {
        return None;
    }
    let n = fields.len();
    assert(all.len() == n);
    assert(fields@[0]@ == all[0]);
    assert(fields@[1]@ == all[1]);
    if n > 2 {
        assert(fields@[2]@ == all[2]);
        let acc = fields[2].clone();
        let lon = fields[1].clone();
        let lat = fields[0].clone();
        Some((lat, lon, Some(acc)))
    } else {
        let lon = fields[1].clone();
        let lat = fields[0].clone();
        Some((lat, lon, None))
    }
}

/// The configuring steps of a session, in order. Time zone, locale and
/// position are overridden where the configuration names them (a position
/// only where its text has a latitude and a longitude), and cookies are
/// imported where asked.
pub open spec fn configure_steps(cfg: SessionConfig) -> Seq<Step> {
    seq![
        Step::EnableLifecycleEvents,
        Step::OverrideDeviceMetrics,
        Step::InstallInstrumentor,
        Step::InstallStealth,
        Step::SetUserAgent,
    ] + (if cfg.timezone is Some {
        seq![Step::OverrideTimezone]
    } else {
        seq![]
    }) + (if cfg.locale is Some {
        seq![Step::OverrideLocale]
    } else {
        seq![]
    }) + (if cfg.geolocation is Some && position_fields(cfg.geolocation->0@) is Some {
        seq![Step::OverrideGeolocation]
    } else {
        seq![]
    }) + (if cfg.import_cookies {
        seq![Step::ImportCookies]
    } else {
        seq![]
    })
}

/// The navigating steps of a session, in order.
pub open spec fn navigate_steps() -> Seq<Step> {
    seq![Step::Navigate, Step::AwaitNavigation, Step::BringToFront, Step::EmulateFocus]
}

/// The capturing steps of a session, in order: cookies where asked, the
/// interstitial check, HTML, screenshot, and where a PDF is asked for, the
/// wait for images and fonts followed by the print.
pub open spec fn capture_steps(cfg: SessionConfig) -> Seq<Step> {
    (if cfg.export_cookies {
        seq![Step::ExportCookies]
    } else {
        seq![]
    }) + seq![Step::AssessAntiBot, Step::CaptureHtml, Step::CaptureScreenshot] + (if cfg.pdf {
        seq![Step::SettleImagesFonts, Step::PrintPdf]
    } else {
        seq![]
    })
}

/// All steps of a session, from launch to close.
pub open spec fn session_steps(cfg: SessionConfig) -> Seq<Step> {
    seq![Step::Launch] + configure_steps(cfg) + navigate_steps() + seq![Step::AwaitReadiness]
        + capture_steps(cfg) + seq![Step::Close]
}

/// Lists the steps of a session, from launch to close.
pub fn plan(cfg: &SessionConfig) -> (steps: Vec<Step>)
    ensures
        steps@ == session_steps(*cfg),
{
    let mut steps: Vec<Step> = Vec::new();
    steps.push(Step::Launch);
    assert(steps@ =~= seq![Step::Launch]);
    push_configure_steps(&mut steps, cfg);
    push_navigate_steps(&mut steps);
    steps.push(Step::AwaitReadiness);
    assert(steps@ =~= seq![Step::Launch] + configure_steps(*cfg) + navigate_steps()
        + seq![Step::AwaitReadiness]);
    push_capture_steps(&mut steps, cfg);
    steps.push(Step::Close);
    assert(steps@ =~= session_steps(*cfg));
    steps
}

fn push_when(steps: &mut Vec<Step>, wanted: bool, step: Step)
    ensures
        final(steps)@ == old(steps)@ + (if wanted {
            seq![step]
        } else {
            seq![]
        }),
{
    if wanted {
        steps.push(step);
    }
    assert(steps@ =~= old(steps)@ + (if wanted {
        seq![step]
    } else {
        seq![]
    }));
}

fn push_configure_steps(steps: &mut Vec<Step>, cfg: &SessionConfig)
    ensures
        final(steps)@ == old(steps)@ + configure_steps(*cfg),
{
    let positioned = match &cfg.geolocation {
        Some(text) => geolocation_fields(text.as_str()).is_some(),
        None => false,
    };
    steps.push(Step::EnableLifecycleEvents);
    steps.push(Step::OverrideDeviceMetrics);
    steps.push(Step::InstallInstrumentor);
    steps.push(Step::InstallStealth);
    steps.push(Step::SetUserAgent);
    let ghost fixed = seq![
        Step::EnableLifecycleEvents,
        Step::OverrideDeviceMetrics,
        Step::InstallInstrumentor,
        Step::InstallStealth,
        Step::SetUserAgent,
    ];
    assert(steps@ =~= old(steps)@ + fixed);
    push_when(steps, cfg.timezone.is_some(), Step::OverrideTimezone);
    push_when(steps, cfg.locale.is_some(), Step::OverrideLocale);
    push_when(steps, positioned, Step::OverrideGeolocation);
    push_when(steps, cfg.import_cookies, Step::ImportCookies);
    assert(steps@ =~= old(steps)@ + configure_steps(*cfg));
}

fn push_navigate_steps(steps: &mut Vec<Step>)
    ensures
        final(steps)@ == old(steps)@ + navigate_steps(),
{
    steps.push(Step::Navigate);
    steps.push(Step::AwaitNavigation);
    steps.push(Step::BringToFront);
    steps.push(Step::EmulateFocus);
    assert(steps@ =~= old(steps)@ + navigate_steps());
}

fn push_capture_steps(steps: &mut Vec<Step>, cfg: &SessionConfig)
    ensures
        final(steps)@ == old(steps)@ + capture_steps(*cfg),
{
    push_when(steps, cfg.export_cookies, Step::ExportCookies);
    steps.push(Step::AssessAntiBot);
    steps.push(Step::CaptureHtml);
    steps.push(Step::CaptureScreenshot);
    push_when(steps, cfg.pdf, Step::SettleImagesFonts);
    push_when(steps, cfg.pdf, Step::PrintPdf);
    assert(steps@ =~= old(steps)@ + capture_steps(*cfg));
}

/// The configuration of one attempt at a session: the same as `cfg` in
/// everything but `headful`, which is as the attempt asks.
pub open spec fn attempt(cfg: SessionConfig, headful: bool) -> SessionConfig {
    SessionConfig { headful, ..cfg }
}

/// The configuration of the retry after a failed headless session: the same
/// in everything but `headful`, which is set.
pub open spec fn headful_retry(cfg: SessionConfig) -> SessionConfig {
    attempt(cfg, true)
}

/// Copies a configuration for the headful retry.
pub fn retry_headful(cfg: &SessionConfig) -> (r: SessionConfig)
    ensures
        r == headful_retry(*cfg),
{
    for_attempt(cfg, true)
}

/// Copies a configuration for one attempt at a session, headless or headful.
pub fn for_attempt(cfg: &SessionConfig, headful: bool) -> (r: SessionConfig)
    ensures
        r == attempt(*cfg, headful),
{
    SessionConfig {
        headful,
        headful_fallback: cfg.headful_fallback,
        width: cfg.width,
        height: cfg.height,
        mobile: cfg.mobile,
        proxy: cfg.proxy.clone(),
        extensions: cfg.extensions.clone(),
        virtual_time: cfg.virtual_time,
        max_wait_ms: cfg.max_wait_ms,
        locale: cfg.locale.clone(),
        timezone: cfg.timezone.clone(),
        geolocation: cfg.geolocation.clone(),
        import_cookies: cfg.import_cookies,
        export_cookies: cfg.export_cookies,
        pdf: cfg.pdf,
    }
}

/// A session's steps follow its lifecycle: they begin with the launch, end
/// with the close, and never step back to an earlier state.
pub proof fn steps_follow_lifecycle(cfg: SessionConfig)
    ensures
        session_steps(cfg).first() == Step::Launch,
        session_steps(cfg).last() == Step::Close,
        forall|i: int, j: int|
            0 <= i <= j < session_steps(cfg).len() ==> (#[trigger] session_steps(cfg)[i]).state().rank()
                <= (#[trigger] session_steps(cfg)[j]).state().rank(),
{
    let steps = session_steps(cfg);
    let configure = configure_steps(cfg);
    let capture = capture_steps(cfg);
    assert forall|k: int| 0 <= k < configure.len() implies (#[trigger] configure[k]).state()
        == SessionState::Configuring by {}
    assert forall|k: int| 0 <= k < capture.len() implies (#[trigger] capture[k]).state()
        == SessionState::CapturingArtifacts by {}
    let a = 1 + configure.len();
    let b = a + 4;
    let c = b + 1;
    let d = c + capture.len();
    assert(steps.len() == d + 1);
    assert forall|k: int| 0 <= k < steps.len() implies (#[trigger] steps[k]).state().rank() == (if k
        < 1 {
        0nat
    } else if k < a {
        1nat
    } else if k < b {
        2nat
    } else if k < c {
        3nat
    } else if k < d {
        4nat
    } else {
        5nat
    }) by {
        if 1 <= k < a {
            assert(steps[k] == configure[k - 1]);
        } else if a <= k < b {
            assert(steps[k] == navigate_steps()[k - a]);
        } else if c <= k < d {
            assert(steps[k] == capture[k - c]);
        }
    }
}

/// A session installs each of its scripts exactly once, and before it
/// navigates: the instrumentor is the fourth step and the stealth script the
/// fifth, neither occurs anywhere else, and every navigating step comes
/// later.
pub proof fn scripts_are_installed_once_before_navigation(cfg: SessionConfig)
    ensures
        session_steps(cfg).len() > 4,
        forall|k: int|
            0 <= k < session_steps(cfg).len() ==> (#[trigger] session_steps(cfg)[k]
                == Step::InstallInstrumentor <==> k == 3),
        forall|k: int|
            0 <= k < session_steps(cfg).len() ==> (#[trigger] session_steps(cfg)[k]
                == Step::InstallStealth <==> k == 4),
        forall|k: int|
            0 <= k < session_steps(cfg).len() && (#[trigger] session_steps(cfg)[k]).state()
                == SessionState::Navigating ==> k > 4,
{
    let steps = session_steps(cfg);
    let configure = configure_steps(cfg);
    let capture = capture_steps(cfg);
    let a = 1 + configure.len();
    let b = a + 4;
    let c = b + 1;
    let d = c + capture.len();
    assert(steps.len() == d + 1);
    assert(configure.len() >= 5);
    assert forall|k: int| 0 <= k < configure.len() implies (#[trigger] configure[k]
        == Step::InstallInstrumentor <==> k == 2) && (configure[k] == Step::InstallStealth <==> k
        == 3) && configure[k].state() == SessionState::Configuring by {}
    assert forall|k: int| 0 <= k < capture.len() implies (#[trigger] capture[k]).state()
        == SessionState::CapturingArtifacts by {}
    assert forall|k: int| 0 <= k < steps.len() implies (#[trigger] steps[k]
        == Step::InstallInstrumentor <==> k == 3) && (steps[k] == Step::InstallStealth <==> k == 4)
        && (steps[k].state() == SessionState::Navigating ==> k > 4) by {
        if 1 <= k < a {
            assert(steps[k] == configure[k - 1]);
        } else if a <= k < b {
            assert(steps[k] == navigate_steps()[k - a]);
        } else if c <= k < d {
            assert(steps[k] == capture[k - c]);
        }
    }
}

} // verus!
