use ankabot::scripts::{
    build_instrument_js, build_stealth_js, instrument_js_with, INSTRUMENT_GUARD, INSTRUMENT_HEAD,
    INSTRUMENT_TAIL, MATCH_NOTHING, STEALTH_HEAD, STEALTH_MID, STEALTH_TAIL,
};
use ankabot::signals::PENDING_REQUESTS_EXPR;

#[test]
fn instrumentor_is_built_around_the_quoted_pattern() {
    let js = instrument_js_with("\"ads\"");
    assert_eq!(
        js,
        format!("{}{}\"ads\"{}", INSTRUMENT_GUARD, INSTRUMENT_HEAD, INSTRUMENT_TAIL)
    );
    assert!(js.contains("  const IGNORE = new RegExp(\"ads\");\n"));
}

#[test]
fn instrumentor_quotes_and_escapes_the_pattern() {
    let js = build_instrument_js("\\.png$|\"x\"");
    assert!(js.contains("new RegExp(\"\\\\.png$|\\\"x\\\"\");"));
    assert!(!js.contains("new RegExp(\\.png$"));
    assert_eq!(js, instrument_js_with("\"\\\\.png$|\\\"x\\\"\""));

    let js = build_instrument_js("analytics");
    assert!(js.contains("new RegExp(\"analytics\");"));

    let js = build_instrument_js("a\nb");
    assert!(js.contains("new RegExp(\"a\\nb\");"));
}

#[test]
fn instrumentor_without_pattern_excludes_nothing() {
    assert_eq!(MATCH_NOTHING, "(?!)");
    let js = build_instrument_js("");
    assert!(js.contains("new RegExp(\"(?!)\");"));
    assert!(!js.contains("new RegExp(\"\")"));
    assert_eq!(js, build_instrument_js("(?!)"));
}

#[test]
fn instrumentor_installs_once_per_document() {
    for pattern in ["", "x", "\\.css$"] {
        let js = build_instrument_js(pattern);
        assert!(js.starts_with(
            "(() => {\n  if (window.__ankabot) return;\n  window.__ankabot = { pending: 0 };\n"
        ));
        assert!(js.starts_with(INSTRUMENT_GUARD));
        assert_eq!(js.matches("window.__ankabot = {").count(), 1);
        let guard = js.find("if (window.__ankabot) return;").unwrap();
        let first_patch = js.find("window.fetch = function").unwrap();
        let counter = js.find("window.__ankabot = { pending: 0 }").unwrap();
        assert!(guard < counter);
        assert!(counter < first_patch);
        assert!(js.ends_with("})();\n"));
    }
}

#[test]
fn instrumentor_counts_up_on_send_and_down_on_completion() {
    let js = build_instrument_js("");
    assert_eq!(js.matches("window.__ankabot.pending++").count(), 2);
    assert_eq!(js.matches("window.__ankabot.pending--").count(), 2);
    assert_eq!(js.matches("if (!IGNORE.test(").count(), 4);
    assert!(js.contains(".finally(()=>{ if (!IGNORE.test(url)) window.__ankabot.pending--; })"));
    assert!(js.contains("this.addEventListener('loadend', ()=>{"));
    assert!(js.contains("}, { once:true });"));
}

#[test]
fn pending_counter_reads_zero_before_installation() {
    assert_eq!(
        PENDING_REQUESTS_EXPR,
        "window.__ankabot ? window.__ankabot.pending : 0"
    );
}

#[test]
fn stealth_script_reports_the_window_size() {
    let js = build_stealth_js(1366, 768);
    assert_eq!(
        js,
        format!("{}1366{}768{}", STEALTH_HEAD, STEALTH_MID, STEALTH_TAIL)
    );
    assert!(js.starts_with("\n(() => {\n  Object.defineProperty(navigator, 'webdriver'"));
    assert!(js.contains("  getD('outerWidth', 1366);\n  getD('outerHeight', 768);\n})();\n"));
    let js = build_stealth_js(0, u32::MAX);
    assert!(js.contains("getD('outerWidth', 0);"));
    assert!(js.contains("getD('outerHeight', 4294967295);"));
}
