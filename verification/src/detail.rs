//! The detail panel: the headers and the cookies of one transaction.

use crate::app::App;
use crate::har::{Cookie, Entry, Har, Header, QueryString};
use crate::text::{eq_ignore_ascii_case, same_ignoring_ascii_case};
use vstd::prelude::*;

verus! {

/// A name with its value, as the detail panel lists them.
pub type Pair = (Seq<char>, Seq<char>);

/// A record of the document that is a name with a value.
pub trait NameValue {
    /// The name and the value of the record.
    spec fn pair(&self) -> Pair;

    /// Copies the name and the value out of the record.
    fn to_pair(&self) -> (pair: (String, String))
        ensures
            pair.deep_view() == self.pair(),
    ;
}

impl NameValue for Header {
    open spec fn pair(&self) -> Pair {
        (self.name@, self.value@)
    }

    fn to_pair(&self) -> (pair: (String, String)) {
        (self.name.clone(), self.value.clone())
    }
}

impl NameValue for Cookie {
    open spec fn pair(&self) -> Pair {
        (self.name@, self.value@)
    }

    fn to_pair(&self) -> (pair: (String, String)) {
        (self.name.clone(), self.value.clone())
    }
}

impl NameValue for QueryString {
    open spec fn pair(&self) -> Pair {
        (self.name@, self.value@)
    }

    fn to_pair(&self) -> (pair: (String, String)) {
        (self.name.clone(), self.value.clone())
    }
}

/// The names and values of `records`, in their order.
pub open spec fn pairs_of<T: NameValue>(records: Seq<T>) -> Seq<Pair> {
    Seq::new(records.len(), |i: int| records[i].pair())
}

/// Copies the names and values out of `records`, keeping their order.
pub fn to_pairs<T: NameValue>(records: &Vec<T>) -> (pairs: Vec<(String, String)>)
    ensures
        pairs.deep_view() == pairs_of(records@),
        pairs.len() == records.len(),
{
    let mut pairs: Vec<(String, String)> = Vec::new();
    let mut done: usize = 0;
    while done < records.len()
        invariant
            done <= records.len(),
            pairs.len() == done,
            forall|i: int| 0 <= i < done ==> (#[trigger] pairs[i]).deep_view() == records[i].pair(),
        decreases records.len() - done,
    {
        pairs.push(records[done].to_pair());
        done = done + 1;
    }
    assert(pairs.deep_view() =~= pairs_of(records@));
    pairs
}

/// The name of the header that carries the referrer policy.
pub open spec fn referrer_policy_name() -> Seq<char> {
    "Referrer-Policy"@
}

/// Whether `header` is named `name`, the case of ASCII letters ignored.
pub open spec fn is_named(header: Header, name: Seq<char>) -> bool {
    same_ignoring_ascii_case(header.name@, name)
}

/// The value of the first of `headers` that is named `name`, the case of
/// ASCII letters ignored; `None` where no header has that name.
pub open spec fn first_value(headers: Seq<Header>, name: Seq<char>) -> Option<Seq<char>>
    decreases headers.len(),
{
    if headers.len() == 0 {
        None
    } else if is_named(headers[0], name) {
        Some(headers[0].value@)
    } else {
        first_value(headers.drop_first(), name)
    }
}

/// Looks `name` up in `headers`, ignoring the case of ASCII letters, and
/// returns the value of the first header of that name.
pub fn find_header(headers: &Vec<Header>, name: &str) -> (value: Option<String>)
    ensures
        value.deep_view() == first_value(headers@, name@),
{
    let mut at: usize = 0;
    assert(headers@.skip(0) =~= headers@);
    while at < headers.len()
        invariant
            at <= headers.len(),
            first_value(headers@, name@) == first_value(headers@.skip(at as int), name@),
        decreases headers.len() - at,
    {
        let ghost rest = headers@.skip(at as int);
        assert(rest[0] == headers@[at as int]);
        assert(rest.drop_first() =~= headers@.skip(at + 1));
        if eq_ignore_ascii_case(headers[at].name.as_str(), name) {
            return Some(headers[at].value.clone());
        }
        at = at + 1;
    }
    None
}

/// The headers of one transaction, as the detail panel shows them.
#[derive(Debug, Clone)]
pub struct HeaderInfo {
    pub status: i64,
    pub method: String,
    pub http_version: String,
    pub url: String,
    pub query_params: Vec<(String, String)>,
    pub referrer_policy: Option<String>,
    pub req_headers: Vec<(String, String)>,
    pub resp_headers: Vec<(String, String)>,
}

/// The mathematical value of a [`HeaderInfo`].
pub ghost struct HeaderInfoView {
    pub status: i64,
    pub method: Seq<char>,
    pub http_version: Seq<char>,
    pub url: Seq<char>,
    pub query_params: Seq<Pair>,
    pub referrer_policy: Option<Seq<char>>,
    pub req_headers: Seq<Pair>,
    pub resp_headers: Seq<Pair>,
}

impl DeepView for HeaderInfo {
    type V = HeaderInfoView;

    open spec fn deep_view(&self) -> HeaderInfoView {
        HeaderInfoView {
            status: self.status,
            method: self.method@,
            http_version: self.http_version@,
            url: self.url@,
            query_params: self.query_params.deep_view(),
            referrer_policy: self.referrer_policy.deep_view(),
            req_headers: self.req_headers.deep_view(),
            resp_headers: self.resp_headers.deep_view(),
        }
    }
}

/// The cookies of one transaction, as the detail panel shows them.
#[derive(Debug, Clone)]
pub struct CookieInfo {
    pub req_cookies: Vec<(String, String)>,
    pub resp_cookies: Vec<(String, String)>,
}

/// The mathematical value of a [`CookieInfo`].
pub ghost struct CookieInfoView {
    pub req_cookies: Seq<Pair>,
    pub resp_cookies: Seq<Pair>,
}

impl DeepView for CookieInfo {
    type V = CookieInfoView;

    open spec fn deep_view(&self) -> CookieInfoView {
        CookieInfoView {
            req_cookies: self.req_cookies.deep_view(),
            resp_cookies: self.resp_cookies.deep_view(),
        }
    }
}

/// The header details of `entry`: the request line, the referrer policy
/// that the request carries, and the query parameters and headers in the
/// order of the document.
pub open spec fn header_info_of(entry: Entry) -> HeaderInfoView {
    HeaderInfoView {
        status: entry.response.status,
        method: entry.request.method@,
        http_version: entry.request.http_version@,
        url: entry.request.url@,
        query_params: pairs_of(entry.request.query_string@),
        referrer_policy: first_value(entry.request.headers@, referrer_policy_name()),
        req_headers: pairs_of(entry.request.headers@),
        resp_headers: pairs_of(entry.response.headers@),
    }
}

/// The cookie details of `entry`, in the order of the document.
pub open spec fn cookie_info_of(entry: Entry) -> CookieInfoView {
    CookieInfoView {
        req_cookies: pairs_of(entry.request.cookies@),
        resp_cookies: pairs_of(entry.response.cookies@),
    }
}

impl Har {
    /// The header details of the transaction at `index`, absent where the
    /// document has no transaction there.
    pub open spec fn header_info_at(&self, index: int) -> Option<HeaderInfoView> {
        if 0 <= index < self.log.entries.len() {
            Some(header_info_of(self.log.entries[index]))
        } else {
            None
        }
    }

    /// The cookie details of the transaction at `index`, absent where the
    /// document has no transaction there.
    pub open spec fn cookie_info_at(&self, index: int) -> Option<CookieInfoView> {
        if 0 <= index < self.log.entries.len() {
            Some(cookie_info_of(self.log.entries[index]))
        } else {
            None
        }
    }

    /// Projects the transaction at `index` into its header details. An index
    /// past the end of the document gives `None`: there is nothing to show.
    pub fn to_header_info(&self, index: usize) -> (info: Option<HeaderInfo>)
        ensures
            info.deep_view() == self.header_info_at(index as int),
    {
        if index < self.log.entries.len() {
            let entry = &self.log.entries[index];
            Some(
                HeaderInfo {
                    status: entry.response.status,
                    method: entry.request.method.clone(),
                    http_version: entry.request.http_version.clone(),
                    url: entry.request.url.clone(),
                    referrer_policy: find_header(&entry.request.headers, "Referrer-Policy"),
                    query_params: to_pairs(&entry.request.query_string),
                    req_headers: to_pairs(&entry.request.headers),
                    resp_headers: to_pairs(&entry.response.headers),
                },
            )
        } else {
            None
        }
    }

    /// Projects the transaction at `index` into its cookie details. An index
    /// past the end of the document gives `None`: there is nothing to show.
    pub fn to_cookie_info(har: &Har, index: usize) -> (info: Option<CookieInfo>)
        ensures
            info.deep_view() == har.cookie_info_at(index as int),
    {
        if index < har.log.entries.len() {
            let entry = &har.log.entries[index];
            Some(
                CookieInfo {
                    req_cookies: to_pairs(&entry.request.cookies),
                    resp_cookies: to_pairs(&entry.response.cookies),
                },
            )
        } else {
            None
        }
    }
}

impl App {
    /// The header details of the selected transaction: `None` while the
    /// document is empty, and never otherwise.
    pub fn selected_header_info(&self) -> (info: Option<HeaderInfo>)
        ensures
            info.deep_view() == self.document().header_info_at(self@.index as int),
            info is Some <==> self@.entries > 0,
    {
        let index = self.get_index();
        self.har().to_header_info(index)
    }

    /// The cookie details of the selected transaction: `None` while the
    /// document is empty, and never otherwise.
    pub fn selected_cookie_info(&self) -> (info: Option<CookieInfo>)
        ensures
            info.deep_view() == self.document().cookie_info_at(self@.index as int),
            info is Some <==> self@.entries > 0,
    {
        let index = self.get_index();
        Har::to_cookie_info(self.har(), index)
    }
}

} // verus!
