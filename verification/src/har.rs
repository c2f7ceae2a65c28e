//! The parsed archive: an ordered list of recorded request/response pairs.
//!
//! Values of these types are built once, when the archive is decoded, and are
//! only read afterwards.

use vstd::prelude::*;

verus! {

/// A whole archive.
#[derive(Default, Debug, Clone, PartialEq)]
pub struct Har {
    pub log: Log,
}

/// The log of an archive: who wrote it, and the recorded transactions in the
/// order in which they were recorded.
#[derive(Default, Debug, Clone, PartialEq)]
pub struct Log {
    pub version: Option<String>,
    pub creator: Option<Creator>,
    pub browser: Option<Browser>,
    pub pages: Option<Vec<Page>>,
    pub entries: Vec<Entry>,
}

#[derive(Default, Debug, Clone, PartialEq)]
pub struct Creator {
    pub name: Option<String>,
    pub version: Option<String>,
}

#[derive(Default, Debug, Clone, PartialEq)]
pub struct Browser {
    pub name: String,
    pub version: String,
}

#[derive(Default, Debug, Clone, PartialEq)]
pub struct Page {
    pub id: String,
    pub page_timings: PageTimings,
    pub started_date_time: String,
    pub title: String,
}

#[derive(Default, Debug, Clone, PartialEq)]
pub struct PageTimings {
    pub on_content_load: i64,
    pub on_load: i64,
}

/// One recorded transaction: a request and the response to it.
#[derive(Default, Debug, Clone, PartialEq)]
pub struct Entry {
    pub started_date_time: String,
    pub request: Request,
    pub response: Response,
    pub cache: Cache,
    pub security_state: Option<String>,
    pub pageref: Option<String>,
    pub server_ipaddress: Option<String>,
    pub connection: Option<String>,
}

#[derive(Default, Debug, Clone, PartialEq)]
pub struct Request {
    pub body_size: i64,
    pub method: String,
    pub url: String,
    pub http_version: String,
    pub headers: Vec<Header>,
    pub cookies: Vec<Cookie>,
    pub query_string: Vec<QueryString>,
    pub headers_size: i64,
    pub post_data: Option<PostData>,
}

#[derive(Default, Debug, Clone, PartialEq)]
pub struct Header {
    pub name: String,
    pub value: String,
}

#[derive(Default, Debug, Clone, PartialEq)]
pub struct Cookie {
    pub name: String,
    pub value: String,
}

#[derive(Default, Debug, Clone, PartialEq)]
pub struct QueryString {
    pub name: String,
    pub value: String,
}

#[derive(Default, Debug, Clone, PartialEq)]
pub struct PostData {
    pub mime_type: String,
    pub params: Option<Vec<Param>>,
    pub text: String,
}

#[derive(Default, Debug, Clone, PartialEq)]
pub struct Param {
    pub name: String,
    pub value: String,
}

#[derive(Default, Debug, Clone, PartialEq)]
pub struct Response {
    pub status: i64,
    pub status_text: String,
    pub http_version: String,
    pub headers: Vec<Header>,
    pub cookies: Vec<Cookie>,
    pub content: Content,
    pub redirect_url: String,
    pub headers_size: i64,
    pub body_size: i64,
}

#[derive(Default, Debug, Clone, PartialEq)]
pub struct Header2 {
    pub name: String,
    pub value: String,
}

#[derive(Default, Debug, Clone, PartialEq)]
pub struct Content {
    pub mime_type: Option<String>,
    pub size: Option<i64>,
    pub text: Option<String>,
    pub encoding: Option<String>,
}

#[derive(Default, Debug, Clone, PartialEq)]
pub struct Cache {}

} // verus!
