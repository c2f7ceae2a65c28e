use harview::app::App;
use harview::detail::{find_header, to_pairs};
use harview::har::{Cookie, Entry, Har, Header, Log, QueryString, Request, Response};

fn header(name: &str, value: &str) -> Header {
    Header { name: name.to_string(), value: value.to_string() }
}

fn cookie(name: &str, value: &str) -> Cookie {
    Cookie { name: name.to_string(), value: value.to_string() }
}

fn pair(name: &str, value: &str) -> (String, String) {
    (name.to_string(), value.to_string())
}

fn sample_entry() -> Entry {
    Entry {
        request: Request {
            method: "POST".to_string(),
            url: "https://example.com/login?next=%2Fhome&lang=en".to_string(),
            http_version: "HTTP/2".to_string(),
            headers: vec![
                header("Host", "example.com"),
                header("referrer-policy", "no-referrer"),
                header("Accept", "*/*"),
                header("Referrer-Policy", "origin"),
            ],
            cookies: vec![cookie("sid", "abc"), cookie("theme", "dark")],
            query_string: vec![
                QueryString { name: "next".to_string(), value: "/home".to_string() },
                QueryString { name: "lang".to_string(), value: "en".to_string() },
            ],
            ..Request::default()
        },
        response: Response {
            status: 302,
            headers: vec![header("Location", "/home"), header("Set-Cookie", "sid=def")],
            cookies: vec![cookie("sid", "def")],
            ..Response::default()
        },
        ..Entry::default()
    }
}

fn sample_document() -> Har {
    Har { log: Log { entries: vec![Entry::default(), sample_entry()], ..Log::default() } }
}

#[test]
fn header_details_of_a_transaction() {
    let info = sample_document().to_header_info(1).unwrap();
    assert_eq!(info.status, 302);
    assert_eq!(info.method, "POST");
    assert_eq!(info.http_version, "HTTP/2");
    assert_eq!(info.url, "https://example.com/login?next=%2Fhome&lang=en");
    assert_eq!(info.query_params, vec![pair("next", "/home"), pair("lang", "en")]);
    assert_eq!(info.referrer_policy, Some("no-referrer".to_string()));
    assert_eq!(
        info.req_headers,
        vec![
            pair("Host", "example.com"),
            pair("referrer-policy", "no-referrer"),
            pair("Accept", "*/*"),
            pair("Referrer-Policy", "origin"),
        ]
    );
    assert_eq!(info.resp_headers, vec![pair("Location", "/home"), pair("Set-Cookie", "sid=def")]);
}

#[test]
fn header_details_of_a_bare_transaction() {
    let info = sample_document().to_header_info(0).unwrap();
    assert_eq!(info.status, 0);
    assert_eq!(info.method, "");
    assert_eq!(info.url, "");
    assert_eq!(info.referrer_policy, None);
    assert!(info.query_params.is_empty());
    assert!(info.req_headers.is_empty());
    assert!(info.resp_headers.is_empty());
}

#[test]
fn cookie_details_of_a_transaction() {
    let har = sample_document();
    let info = Har::to_cookie_info(&har, 1).unwrap();
    assert_eq!(info.req_cookies, vec![pair("sid", "abc"), pair("theme", "dark")]);
    assert_eq!(info.resp_cookies, vec![pair("sid", "def")]);

    let bare = Har::to_cookie_info(&har, 0).unwrap();
    assert!(bare.req_cookies.is_empty());
    assert!(bare.resp_cookies.is_empty());
}

#[test]
fn details_past_the_end_are_absent() {
    let har = sample_document();
    assert!(har.to_header_info(2).is_none());
    assert!(har.to_header_info(usize::MAX).is_none());
    assert!(Har::to_cookie_info(&har, 2).is_none());
    assert!(Har::to_cookie_info(&har, usize::MAX).is_none());

    let empty = Har::default();
    assert!(empty.to_header_info(0).is_none());
    assert!(Har::to_cookie_info(&empty, 0).is_none());
}

#[test]
fn header_lookup_ignores_ascii_case_and_takes_the_first() {
    let headers = vec![
        header("Content-Type", "text/html"),
        header("REFERRER-POLICY", "same-origin"),
        header("Referrer-Policy", "origin"),
    ];
    assert_eq!(find_header(&headers, "Referrer-Policy"), Some("same-origin".to_string()));
    assert_eq!(find_header(&headers, "content-type"), Some("text/html".to_string()));
    assert_eq!(find_header(&headers, "Referrer"), None);
    assert_eq!(find_header(&headers, "Referrer-Policy "), None);
    assert_eq!(find_header(&Vec::new(), "Referrer-Policy"), None);
}

#[test]
fn pairs_keep_order_and_duplicates() {
    let headers = vec![header("a", "1"), header("b", "2"), header("a", "3")];
    assert_eq!(to_pairs(&headers), vec![pair("a", "1"), pair("b", "2"), pair("a", "3")]);
    let none: Vec<Cookie> = Vec::new();
    assert!(to_pairs(&none).is_empty());
}

#[test]
fn details_of_the_selected_transaction() {
    let mut app = App::init(sample_document());
    assert_eq!(app.selected_header_info().unwrap().method, "");
    assert!(app.selected_cookie_info().unwrap().req_cookies.is_empty());
    app.update_index(1);
    let headers = app.selected_header_info().unwrap();
    assert_eq!(headers.method, "POST");
    assert_eq!(headers.status, 302);
    let cookies = app.selected_cookie_info().unwrap();
    assert_eq!(cookies.resp_cookies, vec![pair("sid", "def")]);
    app.update_index(1);
    assert_eq!(app.selected_header_info().unwrap().method, "POST");
}

#[test]
fn empty_document_has_no_selected_details() {
    let mut app = App::init(Har::default());
    assert!(app.selected_header_info().is_none());
    assert!(app.selected_cookie_info().is_none());
    app.update_index_last();
    assert!(app.selected_header_info().is_none());
    assert!(app.selected_cookie_info().is_none());
}
