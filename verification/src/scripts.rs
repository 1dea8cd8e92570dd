//! The scripts that a render session installs in every new document: the
//! network-activity instrumentor, which keeps a count of pending requests in
//! the page, and the stealth script, which masks signs of automation.

use crate::decimal::{decimal, push_decimal};
use vstd::prelude::*;

verus! {

/// Opening of the instrumentor: the guard that makes a second installation in
/// the same document return before it touches anything, followed by the
/// creation of the counter.
pub const INSTRUMENT_GUARD: &'static str = "(() => {
  if (window.__ankabot) return;
  window.__ankabot = { pending: 0 };
";

/// The instrumentor up to the quoted exclusion pattern.
pub const INSTRUMENT_HEAD: &'static str = "  const IGNORE = new RegExp(";

/// The instrumentor after the quoted exclusion pattern: the patches of
/// `fetch` and `XMLHttpRequest` that count a request up when it is sent and
/// down when it completes or fails, unless its URL matches the pattern.
pub const INSTRUMENT_TAIL: &'static str = ");
  const ofetch = window.fetch;
  if (ofetch) {
    window.fetch = function(res, init) {
      const url = (typeof res === 'string') ? res : (res && res.url) || '';
      if (!IGNORE.test(url)) window.__ankabot.pending++;
      return ofetch.apply(this, arguments)
        .finally(()=>{ if (!IGNORE.test(url)) window.__ankabot.pending--; });
    }
  }
  const oopen = XMLHttpRequest.prototype.open;
  XMLHttpRequest.prototype.open = function(m,u){
    this.__ankabotURL = u || '';
    return oopen.apply(this, arguments);
  };
  const osend = XMLHttpRequest.prototype.send;
  XMLHttpRequest.prototype.send = function(){
    if (!IGNORE.test(this.__ankabotURL||'')) window.__ankabot.pending++;
    this.addEventListener('loadend', ()=>{
      if (!IGNORE.test(this.__ankabotURL||'')) window.__ankabot.pending--;
    }, { once:true });
    return osend.apply(this, arguments);
  };
})();
";

/// A pattern that matches no URL, so that nothing is excluded from the count.
pub const MATCH_NOTHING: &'static str = "(?!)";

/// The stealth script up to the window width.
pub const STEALTH_HEAD: &'static str = "
(() => {
  Object.defineProperty(navigator, 'webdriver', { get: () => undefined });
  Object.defineProperty(document, 'hidden', { get: () => false });
  Object.defineProperty(document, 'visibilityState', { get: () => 'visible' });
  window.chrome = window.chrome || { runtime: {} };
  Object.defineProperty(navigator, 'languages', { get: () => ['en-AE','en','ar-AE'] });
  Object.defineProperty(navigator, 'plugins', { get: () => [1,2,3] });
  const origQuery = window.navigator.permissions && window.navigator.permissions.query;
  if (origQuery) {
    window.navigator.permissions.query = (p) =>
      p && p.name === 'notifications'
        ? Promise.resolve({ state: Notification.permission })
        : origQuery(p);
  }
  const getD = (k, v) => Object.defineProperty(window, k, { get: () => v });
  getD('outerWidth', ";

/// The stealth script between the window width and the window height.
pub const STEALTH_MID: &'static str = ");
  getD('outerHeight', ";

/// The stealth script after the window height.
pub const STEALTH_TAIL: &'static str = ");
})();
";

/// The text that `format!("{:?}", s)` produces for a string slice `s`: the
/// slice as a double-quoted literal with its special characters escaped.
pub uninterp spec fn debug_quoted(s: Seq<char>) -> Seq<char>;

/// Quotes a string slice through std's `Debug` formatting of `str`. The
/// contract only gives the result its name: it is a function of the slice's
/// text alone.
#[verifier::external_body]
fn debug_quote(s: &str) -> (r: String)
    ensures
        r@ == debug_quoted(s@),
{
    format!("{:?}", s)
}

/// The pattern that the instrumentor compiles: the caller's, or one that
/// matches nothing where the caller gave none.
pub open spec fn effective_pattern(ignore: Seq<char>) -> Seq<char> {
    if ignore.len() == 0 {
        MATCH_NOTHING@
    } else {
        ignore
    }
}

/// The instrumentor script around an exclusion pattern that is already
/// quoted as a script string literal.
pub open spec fn instrument_script(quoted: Seq<char>) -> Seq<char> {
    INSTRUMENT_GUARD@ + INSTRUMENT_HEAD@ + quoted + INSTRUMENT_TAIL@
}

/// The stealth script for a window of the given size.
pub open spec fn stealth_script(width: u32, height: u32) -> Seq<char> {
    STEALTH_HEAD@ + decimal(width as nat) + STEALTH_MID@ + decimal(height as nat) + STEALTH_TAIL@
}

/// Builds the instrumentor script around a pattern that is already quoted as
/// a script string literal.
pub fn instrument_js_with(quoted: &str) -> (js: String)
    ensures
        js@ == instrument_script(quoted@),
{
    let mut js = String::from_str(INSTRUMENT_GUARD);
    js.append(INSTRUMENT_HEAD);
    js.append(quoted);
    js.append(INSTRUMENT_TAIL);
    js
}

/// Builds the instrumentor script. URLs that match the regular expression
/// `ignore` are left out of the pending-request count; an empty `ignore`
/// leaves out nothing.
pub fn build_instrument_js(ignore: &str) -> (js: String)
    ensures
        js@ == instrument_script(debug_quoted(effective_pattern(ignore@))),
{
    let quoted = if ignore.is_empty() {
        debug_quote(MATCH_NOTHING)
    } else {
        debug_quote(ignore)
    };
    instrument_js_with(quoted.as_str())
}

/// Builds the stealth script, which reports `width` and `height` as the
/// outer size of the window.
pub fn build_stealth_js(width: u32, height: u32) -> (js: String)
    ensures
        js@ == stealth_script(width, height),
{
    let mut js = String::from_str(STEALTH_HEAD);
    push_decimal(&mut js, width as u64);
    js.append(STEALTH_MID);
    push_decimal(&mut js, height as u64);
    js.append(STEALTH_TAIL);
    js
}

/// Whatever the exclusion pattern, the instrumentor opens with the install
/// guard: nothing precedes the test that ends a repeated installation.
pub proof fn instrumentor_opens_with_guard(quoted: Seq<char>)
    ensures
        instrument_script(quoted).subrange(0, INSTRUMENT_GUARD@.len() as int) == INSTRUMENT_GUARD@,
{
    assert(instrument_script(quoted).subrange(0, INSTRUMENT_GUARD@.len() as int)
        =~= INSTRUMENT_GUARD@);
}

} // verus!
