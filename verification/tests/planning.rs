use cors_relay::headers::Header;
use cors_relay::query::{lookup, query_of};
use cors_relay::relay::{bare_response, plan, plan_parsed, target_url, Outbound, Request, Response, Step};

fn request(method: &str, uri: &str, headers: Vec<Header>) -> Request {
    Request { method: method.to_string(), uri: uri.to_string(), headers }
}

fn header(name: &str, value: &[u8]) -> Header {
    Header { name: name.to_string(), value: value.to_vec() }
}

fn pair(name: &str, value: &str) -> (String, String) {
    (name.to_string(), value.to_string())
}

fn refusal() -> Step {
    Step::Reply(Response { status: 400, headers: vec![], body: vec![] })
}

fn forward(method: &str, url: &str, headers: Vec<Header>) -> Step {
    Step::Forward(Outbound { method: method.to_string(), url: url.to_string(), headers })
}

#[test]
fn request_without_query_is_refused() {
    assert_eq!(plan(request("GET", "/", vec![])), refusal());
    assert_eq!(plan(request("POST", "/some/path", vec![header("accept", b"*/*")])), refusal());
    assert_eq!(plan(request("GET", "", vec![])), refusal());
}

#[test]
fn request_without_host_parameter_is_refused() {
    assert_eq!(plan(request("GET", "/foo?x=1", vec![])), refusal());
    assert_eq!(plan(request("GET", "/?", vec![])), refusal());
    assert_eq!(plan(request("GET", "/?&&", vec![])), refusal());
    assert_eq!(plan(request("GET", "/?hostname=example.com", vec![])), refusal());
}

#[test]
fn host_parameter_name_is_matched_exactly() {
    assert_eq!(plan(request("GET", "/?Host=example.com", vec![])), refusal());
    assert_eq!(plan(request("GET", "/?HOST=example.com", vec![])), refusal());
}

#[test]
fn refusal_has_no_header_and_no_body() {
    match plan(request("GET", "/foo?x=1", vec![header("origin", b"https://app.example")])) {
        Step::Reply(response) => {
            assert_eq!(response.status, 400);
            assert!(response.headers.is_empty());
            assert!(response.body.is_empty());
        }
        Step::Forward(outbound) => panic!("forwarded to {}", outbound.url),
    }
}

#[test]
fn target_keeps_the_whole_query_string() {
    assert_eq!(
        plan(request("GET", "/foo?host=example.com&x=1", vec![])),
        forward("GET", "https://example.com/foo?host=example.com&x=1", vec![])
    );
}

#[test]
fn root_request_with_host_and_flag() {
    assert_eq!(
        plan(request("GET", "/?host=httpbin.org&get=1", vec![])),
        forward("GET", "https://httpbin.org/?host=httpbin.org&get=1", vec![])
    );
}

#[test]
fn method_and_headers_are_passed_through() {
    let headers = vec![
        header("Host", b"127.0.0.1:3000"),
        header("cookie", b"a=b"),
        header("authorization", b"Bearer SECRET-REDACTED"),
        header("content-type", b"application/json"),
        header("x-binary", &[0xff, 0x00, 0x80]),
        header("cookie", b"c=d"),
    ];
    let again = vec![
        header("Host", b"127.0.0.1:3000"),
        header("cookie", b"a=b"),
        header("authorization", b"Bearer SECRET-REDACTED"),
        header("content-type", b"application/json"),
        header("x-binary", &[0xff, 0x00, 0x80]),
        header("cookie", b"c=d"),
    ];
    assert_eq!(
        plan(request("DELETE", "/items/7?host=api.example.org", headers)),
        forward("DELETE", "https://api.example.org/items/7?host=api.example.org", again)
    );
    assert_eq!(
        plan(request("PROPFIND", "/?host=dav.example.org", vec![])),
        forward("PROPFIND", "https://dav.example.org/?host=dav.example.org", vec![])
    );
}

#[test]
fn host_value_is_percent_decoded() {
    assert_eq!(
        plan(request("GET", "/?host=ex%61mple.com", vec![])),
        forward("GET", "https://example.com/?host=ex%61mple.com", vec![])
    );
    assert_eq!(
        plan(request("GET", "/?h%6Fst=example.com", vec![])),
        forward("GET", "https://example.com/?h%6Fst=example.com", vec![])
    );
    assert_eq!(
        plan(request("GET", "/?host=a+b", vec![])),
        forward("GET", "https://a b/?host=a+b", vec![])
    );
}

#[test]
fn last_host_parameter_counts() {
    assert_eq!(
        plan(request("GET", "/?host=first.example&host=second.example", vec![])),
        forward("GET", "https://second.example/?host=first.example&host=second.example", vec![])
    );
}

#[test]
fn host_without_value_is_an_empty_host() {
    assert_eq!(plan(request("GET", "/p?host", vec![])), forward("GET", "https:///p?host", vec![]));
    assert_eq!(plan(request("GET", "/p?host=", vec![])), forward("GET", "https:///p?host=", vec![]));
}

#[test]
fn host_is_taken_as_given() {
    assert_eq!(
        plan(request("GET", "/?host=not a host/../x", vec![])),
        forward("GET", "https://not a host/../x/?host=not a host/../x", vec![])
    );
}

#[test]
fn query_starts_at_the_first_question_mark() {
    assert_eq!(query_of("/foo?x=1"), Some("x=1"));
    assert_eq!(query_of("/foo?a?b"), Some("a?b"));
    assert_eq!(query_of("?"), Some(""));
    assert_eq!(query_of("/foo?"), Some(""));
    assert_eq!(query_of("/foo"), None);
    assert_eq!(query_of(""), None);
    assert_eq!(query_of("/caf\u{e9}/\u{1f600}?k=\u{e9}"), Some("k=\u{e9}"));
    assert_eq!(
        plan(request("GET", "/a?host=x.example?y", vec![])),
        forward("GET", "https://x.example?y/a?host=x.example?y", vec![])
    );
}

#[test]
fn lookup_takes_the_last_pair_of_a_name() {
    let pairs = vec![pair("a", "1"), pair("host", "x"), pair("a", "2"), pair("host", "y"), pair("b", "")];
    assert_eq!(lookup(&pairs, "host"), Some("y".to_string()));
    assert_eq!(lookup(&pairs, "a"), Some("2".to_string()));
    assert_eq!(lookup(&pairs, "b"), Some(String::new()));
    assert_eq!(lookup(&pairs, "c"), None);
    assert_eq!(lookup(&pairs, "HOST"), None);
    assert_eq!(lookup(&vec![], "host"), None);
}

#[test]
fn plan_parsed_goes_by_the_pairs_given() {
    let pairs = vec![pair("host", "example.com"), pair("x", "1")];
    assert_eq!(
        plan_parsed(request("GET", "/foo?host=example.com&x=1", vec![]), &pairs),
        forward("GET", "https://example.com/foo?host=example.com&x=1", vec![])
    );
    assert_eq!(plan_parsed(request("GET", "/foo?host=example.com", vec![]), &vec![pair("x", "1")]), refusal());
    assert_eq!(plan_parsed(request("GET", "/foo", vec![]), &vec![]), refusal());
}

#[test]
fn target_url_is_scheme_host_and_target() {
    assert_eq!(target_url("example.com", "/foo?x=1"), "https://example.com/foo?x=1");
    assert_eq!(target_url("", ""), "https://");
    assert_eq!(target_url("h", "*"), "https://h*");
}

#[test]
fn bare_response_has_only_a_status() {
    assert_eq!(bare_response(400), Response { status: 400, headers: vec![], body: vec![] });
    assert_eq!(bare_response(502), Response { status: 502, headers: vec![], body: vec![] });
}
