//! The fetch strategy selector: classifies the response of a plain HTTP GET
//! as usable as it is or as needing a browser to render it.
//!
//! The classification is a heuristic on the body text. It errs towards the
//! browser: a response that cannot be had at all needs rendering too.

use crate::text::{
    blank, chars_of, contains, contains_chars, contains_folded, count_matches, fold_chars,
    is_blank, is_white_space, lemma_count_is_contains, lemma_marker_is_not_blank, match_count,
    str_contains_folded, str_eq,
};
use vstd::prelude::*;
use vstd::utf8::encode_utf8;

verus! {

/// Least body length, in bytes, of a page that can be used as fetched.
pub const MIN_BODY_BYTES: usize = 512;

/// Most redirects that the plain fetch follows.
pub const MAX_REDIRECTS: usize = 8;

/// Overall time allowed for the plain fetch, in seconds.
pub const FETCH_TIMEOUT_SECS: u64 = 10;

/// Whether a response with this content type carries HTML. A response that
/// declares no readable content type is taken to be HTML; a declared one is
/// HTML when it mentions `text/html` in any letter case.
pub open spec fn is_html(content_type: Option<Seq<char>>) -> bool {
    match content_type {
        Some(value) => contains_folded(value, "text/html"@),
        None => true,
    }
}

/// Length of a text in bytes, as UTF-8.
pub open spec fn byte_len(body: Seq<char>) -> nat {
    encode_utf8(body).len()
}

/// Whether a body opens a `<body` element, in any letter case.
pub open spec fn has_body_marker(body: Seq<char>) -> bool {
    contains_folded(body, "<body"@)
}

/// Number of hyperlink openings `<a ` in a body.
pub open spec fn link_count(body: Seq<char>) -> nat {
    match_count(body, "<a "@)
}

/// A body looks empty when it is blank, shorter than `MIN_BODY_BYTES`, or
/// without a body marker.
pub open spec fn looks_empty(body: Seq<char>) -> bool {
    is_blank(body) || byte_len(body) < MIN_BODY_BYTES || !has_body_marker(body)
}

/// A body can be used as fetched when it does not look empty and holds at
/// least one hyperlink.
pub open spec fn looks_renderable(body: Seq<char>) -> bool {
    !looks_empty(body) && link_count(body) > 0
}

/// What the plain HTTP fetch found.
#[derive(Clone, Debug, PartialEq, Eq)]
pub struct FetchOutcome {
    /// The URL after redirects.
    pub final_url: String,
    pub status: u16,
    /// Whether the final URL differs from the requested one.
    pub redirected: bool,
    pub links_found: usize,
    pub looks_empty: bool,
    pub elapsed_ms: u64,
    pub waf_detected: bool,
    pub anti_bot_vendor: Option<String>,
}

impl FetchOutcome {
    /// Whether the fetched body can be used as it is.
    pub open spec fn renderable(&self) -> bool {
        !self.looks_empty && self.links_found > 0
    }

    /// Tests whether the fetched body can be used as it is.
    pub fn looks_renderable(&self) -> (r: bool)
        ensures
            r == self.renderable(),
    {
        !self.looks_empty && self.links_found > 0
    }
}

/// Tests whether a response carries HTML, going by its content type;
/// `None` stands for a header that is absent or not readable as text.
pub fn is_html_content_type(content_type: Option<&str>) -> (r: bool)
    ensures
        r == is_html(
            match content_type {
                Some(value) => Some(value@),
                None => None,
            },
        ),
{
    match content_type {
        Some(value) => str_contains_folded(value, "text/html"),
        None => true,
    }
}

/// Classifies a response. `body` is the response text, or the empty text
/// where the response does not carry HTML.
pub fn classify(
    requested_url: &str,
    final_url: String,
    status: u16,
    body: &str,
    elapsed_ms: u64,
) -> (r: FetchOutcome)
    ensures
        r.final_url@ == final_url@,
        r.status == status,
        r.redirected == (final_url@ != requested_url@),
        r.links_found == link_count(body@),
        r.looks_empty == looks_empty(body@),
        r.renderable() == looks_renderable(body@),
        r.elapsed_ms == elapsed_ms,
        !r.waf_detected,
        r.anti_bot_vendor is None,
{
    let redirected = !str_eq(final_url.as_str(), requested_url);
    let chars = chars_of(body);
    let link = chars_of("<a ");
    let marker = chars_of("<body");
    let links_found = count_matches(chars.as_slice(), link.as_slice());
    let folded = fold_chars(chars.as_slice());
    let bytes = body.as_bytes();
    let looks_empty = blank(chars.as_slice()) || bytes.len() < MIN_BODY_BYTES || !contains_chars(
        folded.as_slice(),
        marker.as_slice(),
    );
    FetchOutcome {
        final_url,
        status,
        redirected,
        links_found,
        looks_empty,
        elapsed_ms,
        waf_detected: false,
        anti_bot_vendor: None,
    }
}

/// Whether the page must be rendered in a browser, given what the plain
/// fetch returned; `None` stands for a fetch that failed.
pub open spec fn needs_render_for(fetch: Option<FetchOutcome>) -> bool {
    match fetch {
        Some(outcome) => !outcome.renderable(),
        None => true,
    }
}

/// Decides whether the page must be rendered in a browser; `None` stands for
/// a fetch that failed.
pub fn needs_render(fetch: Option<&FetchOutcome>) -> (r: bool)
    ensures
        r == needs_render_for(
            match fetch {
                Some(outcome) => Some(*outcome),
                None => None,
            },
        ),
{
    match fetch {
        Some(outcome) => !outcome.looks_renderable(),
        None => true,
    }
}

/// A body of at least `MIN_BODY_BYTES` bytes that contains a body marker and
/// a hyperlink opening can be used as fetched.
pub proof fn substantial_body_is_renderable(body: Seq<char>)
    requires
        byte_len(body) >= MIN_BODY_BYTES,
        has_body_marker(body),
        contains(body, "<a "@),
    ensures
        looks_renderable(body),
{
    reveal_strlit("<a ");
    reveal_strlit("<body");
    lemma_count_is_contains(body, "<a "@);
    lemma_marker_is_not_blank(body, "<body"@);
}

/// A body that fails any one of the checks cannot be used as fetched.
pub proof fn deficient_body_is_not_renderable(body: Seq<char>)
    requires
        is_blank(body) || byte_len(body) < MIN_BODY_BYTES || !has_body_marker(body) || !contains(
            body,
            "<a "@,
        ),
    ensures
        !looks_renderable(body),
{
    reveal_strlit("<a ");
    lemma_count_is_contains(body, "<a "@);
}

/// A failed fetch needs rendering, and a fetched page needs rendering exactly
/// when its body cannot be used as fetched.
pub proof fn needs_render_unless_renderable(fetch: Option<FetchOutcome>)
    ensures
        fetch is None ==> needs_render_for(fetch),
        fetch matches Some(outcome) ==> needs_render_for(fetch) == !outcome.renderable(),
{
}

} // verus!
