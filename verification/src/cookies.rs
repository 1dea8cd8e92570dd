//! Cookies as they pass between a cookie file and a browser session.
//!
//! An expiry is a point in time in epoch seconds and may have a fraction. It
//! is held here as the bit pattern of its IEEE 754 double, which keeps every
//! value exactly as it was read.

use vstd::prelude::*;

verus! {

/// A cookie as a cookie file holds it.
#[derive(Clone, Debug, PartialEq, Eq)]
pub struct CookieRecord {
    pub name: String,
    pub value: String,
    pub domain: String,
    pub path: String,
    pub secure: bool,
    pub http_only: bool,
    /// Bit pattern of the expiry, where the record has one.
    pub expires: Option<u64>,
}

/// A cookie as a browser session reports it.
#[derive(Clone, Debug, PartialEq, Eq)]
pub struct SessionCookie {
    pub name: String,
    pub value: String,
    pub domain: String,
    pub path: String,
    pub secure: bool,
    pub http_only: bool,
    /// Bit pattern of the expiry.
    pub expires: u64,
}

/// A cookie as a browser session is asked to set it. A field that is `None`
/// is left to the browser.
#[derive(Clone, Debug, PartialEq, Eq)]
pub struct CookieParam {
    pub name: String,
    pub value: String,
    pub domain: Option<String>,
    pub path: Option<String>,
    pub secure: Option<bool>,
    pub http_only: Option<bool>,
    /// Bit pattern of the expiry, where one is set.
    pub expires: Option<u64>,
}

/// What tells one cookie from another across an export and an import.
pub struct CookieIdentity {
    pub name: Seq<char>,
    pub domain: Option<Seq<char>>,
    pub path: Option<Seq<char>>,
    pub secure: Option<bool>,
    pub http_only: Option<bool>,
    pub expires: Option<u64>,
}

impl SessionCookie {
    /// The identity of a reported cookie.
    pub open spec fn identity(self) -> CookieIdentity {
        CookieIdentity {
            name: self.name@,
            domain: Some(self.domain@),
            path: Some(self.path@),
            secure: Some(self.secure),
            http_only: Some(self.http_only),
            expires: Some(self.expires),
        }
    }
}

impl CookieRecord {
    /// The identity of a recorded cookie.
    pub open spec fn identity(self) -> CookieIdentity {
        CookieIdentity {
            name: self.name@,
            domain: Some(self.domain@),
            path: Some(self.path@),
            secure: Some(self.secure),
            http_only: Some(self.http_only),
            expires: self.expires,
        }
    }

    /// The record of a reported cookie: every field as reported.
    pub open spec fn exported(cookie: SessionCookie) -> CookieRecord {
        CookieRecord {
            name: cookie.name,
            value: cookie.value,
            domain: cookie.domain,
            path: cookie.path,
            secure: cookie.secure,
            http_only: cookie.http_only,
            expires: Some(cookie.expires),
        }
    }

    /// Records a cookie that a session reported.
    pub fn from_session(cookie: SessionCookie) -> (r: CookieRecord)
        ensures
            r == CookieRecord::exported(cookie),
    {
        CookieRecord {
            name: cookie.name,
            value: cookie.value,
            domain: cookie.domain,
            path: cookie.path,
            secure: cookie.secure,
            http_only: cookie.http_only,
            expires: Some(cookie.expires),
        }
    }

    /// The parameter that sets this cookie: domain, path and both flags are
    /// given, and the expiry where the record has one.
    pub open spec fn imported(self) -> CookieParam {
        CookieParam {
            name: self.name,
            value: self.value,
            domain: Some(self.domain),
            path: Some(self.path),
            secure: Some(self.secure),
            http_only: Some(self.http_only),
            expires: self.expires,
        }
    }

    /// Builds the parameter that sets this cookie in a session.
    pub fn to_param(&self) -> (r: CookieParam)
        ensures
            r == self.imported(),
    {
        CookieParam {
            name: self.name.clone(),
            value: self.value.clone(),
            domain: Some(self.domain.clone()),
            path: Some(self.path.clone()),
            secure: Some(self.secure),
            http_only: Some(self.http_only),
            expires: self.expires,
        }
    }
}

impl CookieParam {
    /// The identity of a cookie to set.
    pub open spec fn identity(self) -> CookieIdentity {
        CookieIdentity {
            name: self.name@,
            domain: match self.domain {
                Some(domain) => Some(domain@),
                None => None,
            },
            path: match self.path {
                Some(path) => Some(path@),
                None => None,
            },
            secure: self.secure,
            http_only: self.http_only,
            expires: self.expires,
        }
    }
}

/// The records of a list of reported cookies, in order.
pub open spec fn exported_all(cookies: Seq<SessionCookie>) -> Seq<CookieRecord> {
    cookies.map_values(|cookie: SessionCookie| CookieRecord::exported(cookie))
}

/// The parameters that set a list of recorded cookies, in order.
pub open spec fn imported_all(records: Seq<CookieRecord>) -> Seq<CookieParam> {
    records.map_values(|record: CookieRecord| record.imported())
}

/// Records the cookies that a session reported, in order.
pub fn export_cookies(cookies: Vec<SessionCookie>) -> (records: Vec<CookieRecord>)
    ensures
        records@ == exported_all(cookies@),
{
    let ghost all = cookies@;
    let mut cookies = cookies;
    let mut reversed: Vec<CookieRecord> = Vec::new();
    while cookies.len() > 0
        invariant
            cookies@.len() + reversed@.len() == all.len(),
            cookies@ == all.take(cookies@.len() as int),
            forall|k: int|
                0 <= k < reversed@.len() ==> reversed@[k] == CookieRecord::exported(
                    all[all.len() - 1 - k],
                ),
        decreases cookies.len(),
    {
        let ghost before = cookies@;
        match cookies.pop() {
            Some(cookie) => {
                assert(cookie == all[before.len() - 1]);
                reversed.push(CookieRecord::from_session(cookie));
                assert(cookies@ =~= all.take(cookies@.len() as int));
            },
            None => {},
        }
    }
    let mut records: Vec<CookieRecord> = Vec::new();
    while reversed.len() > 0
        invariant
            reversed@.len() + records@.len() == all.len(),
            forall|k: int|
                0 <= k < reversed@.len() ==> reversed@[k] == CookieRecord::exported(
                    all[all.len() - 1 - k],
                ),
            forall|k: int| 0 <= k < records@.len() ==> records@[k] == CookieRecord::exported(all[k]),
        decreases reversed.len(),
    {
        match reversed.pop() {
            Some(record) => {
                records.push(record);
            },
            None => {},
        }
    }
    assert(records@ =~= exported_all(all));
    records
}

/// Builds the parameters that set a list of recorded cookies, in order.
pub fn import_params(records: &Vec<CookieRecord>) -> (params: Vec<CookieParam>)
    ensures
        params@ == imported_all(records@),
{
    let mut params: Vec<CookieParam> = Vec::new();
    let mut i: usize = 0;
    while i < records.len()
        invariant
            i <= records.len(),
            params@.len() == i,
            forall|k: int| 0 <= k < i ==> params@[k] == records@[k].imported(),
        decreases records.len() - i,
    {
        params.push(records[i].to_param());
        i += 1;
    }
    assert(params@ =~= imported_all(records@));
    params
}

/// The identities of a list of reported cookies.
pub open spec fn session_identities(cookies: Seq<SessionCookie>) -> Seq<CookieIdentity> {
    cookies.map_values(|cookie: SessionCookie| cookie.identity())
}

/// The identities of a list of cookies to set.
pub open spec fn param_identities(params: Seq<CookieParam>) -> Seq<CookieIdentity> {
    params.map_values(|param: CookieParam| param.identity())
}

/// Cookies that are exported and imported again keep their identities: the
/// parameters name the same cookies as the session reported, one for one,
/// and so the same collection of cookies whatever the order.
pub proof fn export_then_import_keeps_identities(cookies: Seq<SessionCookie>)
    ensures
        param_identities(imported_all(exported_all(cookies))) == session_identities(cookies),
        param_identities(imported_all(exported_all(cookies))).to_multiset() == session_identities(
            cookies,
        ).to_multiset(),
{
    assert(param_identities(imported_all(exported_all(cookies))) =~= session_identities(cookies));
}

} // verus!
