use ankabot::cookies::{
    export_cookies, import_params, CookieParam, CookieRecord, SessionCookie,
};
use ankabot::paths::{
    debug_pdf_name, debug_pdf_name_with, run_dir_name, run_dir_name_with, CONSOLE_LOG_FILE,
    DEFAULT_OUT_ROOT, DOM_FILE, FALLBACK_HOST, FETCHED_FILE, NETWORK_LOG_FILE, PDF_FILE,
    PROFILE_DIR, PROFILE_HOME, RESULT_FILE, SCREENSHOT_FILE, TIMESTAMP_FORMAT,
};

fn session_cookie(name: &str, domain: &str, expires: f64) -> SessionCookie {
    SessionCookie {
        name: name.to_string(),
        value: format!("value-of-{}", name),
        domain: domain.to_string(),
        path: "/".to_string(),
        secure: name.len() % 2 == 0,
        http_only: name.len() % 3 == 0,
        expires: expires.to_bits(),
    }
}

type Identity = (String, Option<String>, Option<String>, Option<bool>, Option<bool>, Option<u64>);

fn identities_of_params(params: &[CookieParam]) -> Vec<Identity> {
    let mut ids: Vec<Identity> = params
        .iter()
        .map(|p| (p.name.clone(), p.domain.clone(), p.path.clone(), p.secure, p.http_only, p.expires))
        .collect();
    ids.sort();
    ids
}

fn identities_of_session(cookies: &[SessionCookie]) -> Vec<Identity> {
    let mut ids: Vec<Identity> = cookies
        .iter()
        .map(|c| {
            (
                c.name.clone(),
                Some(c.domain.clone()),
                Some(c.path.clone()),
                Some(c.secure),
                Some(c.http_only),
                Some(c.expires),
            )
        })
        .collect();
    ids.sort();
    ids
}

#[test]
fn exported_record_keeps_every_field() {
    let cookie = session_cookie("sid", ".example.com", 1_900_000_000.5);
    assert_eq!(
        CookieRecord::from_session(cookie.clone()),
        CookieRecord {
            name: "sid".to_string(),
            value: "value-of-sid".to_string(),
            domain: ".example.com".to_string(),
            path: "/".to_string(),
            secure: false,
            http_only: true,
            expires: Some(1_900_000_000.5f64.to_bits()),
        }
    );
    let session_only = session_cookie("s", "example.com", -1.0);
    assert_eq!(
        CookieRecord::from_session(session_only).expires.map(f64::from_bits),
        Some(-1.0)
    );
}

#[test]
fn import_parameter_sets_domain_path_and_flags() {
    let record = CookieRecord {
        name: "theme".to_string(),
        value: "dark".to_string(),
        domain: "example.com".to_string(),
        path: "/app".to_string(),
        secure: true,
        http_only: false,
        expires: None,
    };
    assert_eq!(
        record.to_param(),
        CookieParam {
            name: "theme".to_string(),
            value: "dark".to_string(),
            domain: Some("example.com".to_string()),
            path: Some("/app".to_string()),
            secure: Some(true),
            http_only: Some(false),
            expires: None,
        }
    );
}

#[test]
fn lists_are_converted_in_order() {
    let cookies = vec![
        session_cookie("a", "one.example", 1.0),
        session_cookie("bb", "two.example", 2.25),
        session_cookie("ccc", "three.example", 3.5),
    ];
    let records = export_cookies(cookies.clone());
    assert_eq!(records.len(), 3);
    for (record, cookie) in records.iter().zip(cookies.iter()) {
        assert_eq!(*record, CookieRecord::from_session(cookie.clone()));
    }
    let params = import_params(&records);
    assert_eq!(params.len(), 3);
    for (param, record) in params.iter().zip(records.iter()) {
        assert_eq!(*param, record.to_param());
    }
    assert_eq!(export_cookies(Vec::new()), Vec::<CookieRecord>::new());
    assert_eq!(import_params(&Vec::new()), Vec::<CookieParam>::new());
}

#[test]
fn export_then_import_reproduces_the_same_cookie_set() {
    let cookies = vec![
        session_cookie("sid", ".example.com", 1_900_000_000.0),
        session_cookie("csrf", "example.com", 1_800_000_000.123),
        session_cookie("sid", "other.example", -1.0),
        session_cookie("sid", ".example.com", 1_900_000_000.0),
    ];
    let params = import_params(&export_cookies(cookies.clone()));
    assert_eq!(identities_of_params(&params), identities_of_session(&cookies));

    let mut shuffled = cookies.clone();
    shuffled.reverse();
    shuffled.swap(0, 2);
    let shuffled_params = import_params(&export_cookies(shuffled));
    assert_eq!(identities_of_params(&shuffled_params), identities_of_session(&cookies));
}

#[test]
fn file_names_of_a_run() {
    assert_eq!(DEFAULT_OUT_ROOT, "out");
    assert_eq!(TIMESTAMP_FORMAT, "%Y%m%d-%H%M%S");
    assert_eq!(FALLBACK_HOST, "page");
    assert_eq!(PDF_FILE, "page.pdf");
    assert_eq!(SCREENSHOT_FILE, "snap.png");
    assert_eq!(DOM_FILE, "dom.html");
    assert_eq!(FETCHED_FILE, "http_raw.html");
    assert_eq!(CONSOLE_LOG_FILE, "console.log");
    assert_eq!(NETWORK_LOG_FILE, "network.txt");
    assert_eq!(RESULT_FILE, "result.json");
    assert_eq!(PROFILE_HOME, ".ankabot");
    assert_eq!(PROFILE_DIR, "profiles");
}

#[test]
fn run_directory_is_named_after_host_and_time() {
    assert_eq!(
        run_dir_name_with(Some("example.com"), "20240131-235959"),
        "example.com-20240131-235959"
    );
    assert_eq!(run_dir_name_with(None, "20240131-235959"), "page-20240131-235959");
    assert_eq!(run_dir_name_with(Some(""), ""), "-");
    assert_eq!(
        run_dir_name("https://example.com/a/b?c=d", "20240131-235959"),
        "example.com-20240131-235959"
    );
}

#[test]
fn host_is_what_the_url_parser_finds() {
    assert_eq!(
        run_dir_name("https://User:pw@WWW.Example.COM:8443/path", "t"),
        "www.example.com-t"
    );
    assert_eq!(run_dir_name("http://127.0.0.1:8080/", "t"), "127.0.0.1-t");
    assert_eq!(run_dir_name("http://[::1]/", "t"), "[::1]-t");
    assert_eq!(run_dir_name("https://bücher.example/", "t"), "xn--bcher-kva.example-t");
}

#[test]
fn url_without_host_falls_back_to_page() {
    assert_eq!(run_dir_name("not a url", "t"), "page-t");
    assert_eq!(run_dir_name("", "t"), "page-t");
    assert_eq!(run_dir_name("example.com/path", "t"), "page-t");
    assert_eq!(run_dir_name("mailto:someone@example.com", "t"), "page-t");
    assert_eq!(run_dir_name("data:text/plain,hello", "t"), "page-t");
}

#[test]
fn debug_pdf_is_named_after_the_host() {
    assert_eq!(debug_pdf_name_with(Some("example.com")), "example.com.pdf");
    assert_eq!(debug_pdf_name_with(None), "page.pdf");
    assert_eq!(debug_pdf_name("https://Example.com/x"), "example.com.pdf");
    assert_eq!(debug_pdf_name("::"), "page.pdf");
}
