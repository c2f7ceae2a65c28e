use harview::har::{Content, Entry, Har, Log, Request, Response};
use harview::locator::UrlParts;
use harview::summary::table_item;

fn transaction(method: &str, url: &str, status: i64, mime: Option<&str>, size: Option<i64>) -> Entry {
    Entry {
        request: Request {
            method: method.to_string(),
            url: url.to_string(),
            ..Request::default()
        },
        response: Response {
            status,
            content: Content {
                mime_type: mime.map(|m| m.to_string()),
                size,
                ..Content::default()
            },
            ..Response::default()
        },
        ..Entry::default()
    }
}

fn document(entries: Vec<Entry>) -> Har {
    Har { log: Log { entries, ..Log::default() } }
}

#[test]
fn summary_row_of_a_plain_request() {
    let har = document(vec![transaction(
        "GET",
        "https://example.com/foo/bar.json?x=1#top",
        200,
        Some("application/json"),
        Some(1500),
    )]);
    let items = har.to_table_items();
    assert_eq!(items.len(), 1);
    assert_eq!(items[0].status, 200);
    assert_eq!(items[0].method, "GET");
    assert_eq!(items[0].domain, "example.com");
    assert_eq!(items[0].file_name, "/foo/bar.json");
    assert_eq!(items[0].mime_type, "application/json");
    assert_eq!(items[0].size, Some(1500));
}

#[test]
fn summary_rows_keep_the_order_of_the_document() {
    let har = document(vec![
        transaction("GET", "https://a.example/1", 200, None, None),
        transaction("POST", "https://b.example/2", 404, None, None),
        transaction("PUT", "https://c.example/3", 0, None, None),
    ]);
    let items = har.to_table_items();
    assert_eq!(items.len(), 3);
    let statuses: Vec<u16> = items.iter().map(|item| item.status).collect();
    assert_eq!(statuses, vec![200, 404, 0]);
    let methods: Vec<&str> = items.iter().map(|item| item.method.as_str()).collect();
    assert_eq!(methods, vec!["GET", "POST", "PUT"]);
    let domains: Vec<&str> = items.iter().map(|item| item.domain.as_str()).collect();
    assert_eq!(domains, vec!["a.example", "b.example", "c.example"]);
    let paths: Vec<&str> = items.iter().map(|item| item.file_name.as_str()).collect();
    assert_eq!(paths, vec!["/1", "/2", "/3"]);
}

#[test]
fn empty_document_has_no_rows() {
    assert!(document(vec![]).to_table_items().is_empty());
}

#[test]
fn unparsable_url_leaves_domain_and_path_empty() {
    let har = document(vec![
        transaction("GET", "https://first.example/a", 200, Some("text/html"), Some(10)),
        transaction("POST", "not a url", 500, Some("text/plain"), Some(20)),
        transaction("GET", "https://last.example/z", 301, None, None),
    ]);
    let items = har.to_table_items();
    assert_eq!(items.len(), 3);

    assert_eq!(items[1].domain, "");
    assert_eq!(items[1].file_name, "");
    assert_eq!(items[1].status, 500);
    assert_eq!(items[1].method, "POST");
    assert_eq!(items[1].mime_type, "text/plain");
    assert_eq!(items[1].size, Some(20));

    assert_eq!(items[0].domain, "first.example");
    assert_eq!(items[0].file_name, "/a");
    assert_eq!(items[2].domain, "last.example");
    assert_eq!(items[2].file_name, "/z");
}

#[test]
fn empty_url_is_unparsable() {
    let items = document(vec![transaction("GET", "", 200, None, None)]).to_table_items();
    assert_eq!(items[0].domain, "");
    assert_eq!(items[0].file_name, "");
}

#[test]
fn address_host_is_no_domain() {
    let har = document(vec![transaction("GET", "https://127.0.0.1:8080/index.html", 200, None, None)]);
    let items = har.to_table_items();
    assert_eq!(items[0].domain, "");
    assert_eq!(items[0].file_name, "/index.html");
}

#[test]
fn url_without_host_keeps_its_path() {
    let har = document(vec![transaction("GET", "mailto:rms@example.net", 200, None, None)]);
    let items = har.to_table_items();
    assert_eq!(items[0].domain, "");
    assert_eq!(items[0].file_name, "rms@example.net");
}

#[test]
fn domain_is_lowercased_and_root_path_is_a_slash() {
    let har = document(vec![transaction("GET", "HTTPS://EXAMPLE.com", 200, None, None)]);
    let items = har.to_table_items();
    assert_eq!(items[0].domain, "example.com");
    assert_eq!(items[0].file_name, "/");
}

#[test]
fn missing_content_type_and_size() {
    let har = document(vec![transaction("GET", "https://example.com/", 204, None, None)]);
    let items = har.to_table_items();
    assert_eq!(items[0].mime_type, "");
    assert_eq!(items[0].size, None);
}

#[test]
fn status_is_cut_to_sixteen_bits() {
    let har = document(vec![
        transaction("GET", "https://example.com/", 65535, None, None),
        transaction("GET", "https://example.com/", 65536 + 404, None, None),
        transaction("GET", "https://example.com/", -1, None, None),
    ]);
    let items = har.to_table_items();
    assert_eq!(items[0].status, 65535);
    assert_eq!(items[1].status, 404);
    assert_eq!(items[2].status, 65535);
}

#[test]
fn projecting_twice_gives_the_same_rows() {
    let har = document(vec![
        transaction("GET", "https://example.com/a?b", 200, Some("text/css"), Some(1)),
        transaction("GET", "::::", 0, None, None),
        transaction("HEAD", "http://[::1]/x", 302, Some("nonsense"), Some(-5)),
    ]);
    let first = har.to_table_items();
    let second = har.to_table_items();
    assert_eq!(first.len(), second.len());
    for (a, b) in first.iter().zip(second.iter()) {
        assert_eq!(a.status, b.status);
        assert_eq!(a.method, b.method);
        assert_eq!(a.domain, b.domain);
        assert_eq!(a.file_name, b.file_name);
        assert_eq!(a.mime_type, b.mime_type);
        assert_eq!(a.size, b.size);
    }
    assert_eq!(har.log.entries.len(), 3);
}

#[test]
fn row_from_given_url_parts() {
    let entry = transaction("GET", "ignored", 418, Some("text/html"), Some(7));
    let item = table_item(
        &entry,
        Some(UrlParts { domain: Some("example.org".to_string()), path: "/tea".to_string() }),
    );
    assert_eq!(item.status, 418);
    assert_eq!(item.method, "GET");
    assert_eq!(item.domain, "example.org");
    assert_eq!(item.file_name, "/tea");
    assert_eq!(item.mime_type, "text/html");
    assert_eq!(item.size, Some(7));

    let item = table_item(&entry, Some(UrlParts { domain: None, path: "/tea".to_string() }));
    assert_eq!(item.domain, "");
    assert_eq!(item.file_name, "/tea");

    let item = table_item(&entry, None);
    assert_eq!(item.domain, "");
    assert_eq!(item.file_name, "");
    assert_eq!(item.status, 418);
}
