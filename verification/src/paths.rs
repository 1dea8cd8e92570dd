//! Names of the places where one run keeps its files. The names are plain
//! text; joining them into paths and creating directories is the caller's
//! part.

use vstd::prelude::*;

verus! {

/// Root of the run directories where the caller names none.
pub const DEFAULT_OUT_ROOT: &'static str = "out";

/// Pattern of the time stamp in a directory name, in `strftime` notation.
pub const TIMESTAMP_FORMAT: &'static str = "%Y%m%d-%H%M%S";

/// Stands for the host in a name where the URL has none.
pub const FALLBACK_HOST: &'static str = "page";

/// File of the printed page in a run directory.
pub const PDF_FILE: &'static str = "page.pdf";

/// File of the screenshot in a run directory.
pub const SCREENSHOT_FILE: &'static str = "snap.png";

/// File of the rendered DOM in a run directory.
pub const DOM_FILE: &'static str = "dom.html";

/// File of the plainly fetched body in a run directory.
pub const FETCHED_FILE: &'static str = "http_raw.html";

/// File of the console log in a run directory.
pub const CONSOLE_LOG_FILE: &'static str = "console.log";

/// File of the network log in a run directory.
pub const NETWORK_LOG_FILE: &'static str = "network.txt";

/// File of the result record in a run directory.
pub const RESULT_FILE: &'static str = "result.json";

/// Directory under the home directory that holds the browser profiles.
pub const PROFILE_HOME: &'static str = ".ankabot";

/// Directory under `PROFILE_HOME` with one directory per named profile.
pub const PROFILE_DIR: &'static str = "profiles";

/// The host that the `url` crate finds in a text: the host string of the
/// parsed URL, and `None` where the text does not parse as an absolute URL
/// or the URL has no host.
pub uninterp spec fn url_host(url: Seq<char>) -> Option<Seq<char>>;

/// The view of an optional text.
pub open spec fn text_of(value: Option<String>) -> Option<Seq<char>> {
    match value {
        Some(text) => Some(text@),
        None => None,
    }
}

/// Parses a URL with `url::Url::parse` and reads its host with
/// `url::Url::host_str`. The contract only gives the result its name: it is
/// a function of the text alone.
#[verifier::external_body]
fn host_of(url: &str) -> (r: Option<String>)
    ensures
        text_of(r) == url_host(url@),
{
    match url::Url::parse(url) {
        Ok(parsed) => parsed.host_str().map(String::from),
        Err(_) => None,
    }
}

/// The label that stands for a page's host in names.
pub open spec fn host_label_for(host: Option<Seq<char>>) -> Seq<char> {
    match host {
        Some(text) => text,
        None => FALLBACK_HOST@,
    }
}

/// The name of a run directory: the host label, a hyphen, the time stamp.
pub open spec fn run_dir_name_for(host: Option<Seq<char>>, timestamp: Seq<char>) -> Seq<char> {
    host_label_for(host) + "-"@ + timestamp
}

/// The name of the PDF captured after a timeout: the host label with the
/// extension `.pdf`.
pub open spec fn debug_pdf_name_for(host: Option<Seq<char>>) -> Seq<char> {
    host_label_for(host) + ".pdf"@
}

/// Names the run directory of a page with the given host, `None` standing
/// for a page without one.
pub fn run_dir_name_with(host: Option<&str>, timestamp: &str) -> (r: String)
    ensures
        r@ == run_dir_name_for(
            match host {
                Some(text) => Some(text@),
                None => None,
            },
            timestamp@,
        ),
{
    let mut r = match host {
        Some(text) => String::from_str(text),
        None => String::from_str(FALLBACK_HOST),
    };
    r.append("-");
    r.append(timestamp);
    r
}

/// Names the PDF captured after a timeout for a page with the given host,
/// `None` standing for a page without one.
pub fn debug_pdf_name_with(host: Option<&str>) -> (r: String)
    ensures
        r@ == debug_pdf_name_for(
            match host {
                Some(text) => Some(text@),
                None => None,
            },
        ),
{
    let mut r = match host {
        Some(text) => String::from_str(text),
        None => String::from_str(FALLBACK_HOST),
    };
    r.append(".pdf");
    r
}

/// Names the run directory for a URL and a time stamp.
pub fn run_dir_name(url: &str, timestamp: &str) -> (r: String)
    ensures
        r@ == run_dir_name_for(url_host(url@), timestamp@),
{
    match host_of(url) {
        Some(host) => run_dir_name_with(Some(host.as_str()), timestamp),
        None => run_dir_name_with(None, timestamp),
    }
}

/// Names the PDF captured after a timeout for a URL.
pub fn debug_pdf_name(url: &str) -> (r: String)
    ensures
        r@ == debug_pdf_name_for(url_host(url@)),
{
    match host_of(url) {
        Some(host) => debug_pdf_name_with(Some(host.as_str())),
        None => debug_pdf_name_with(None),
    }
}

} // verus!
