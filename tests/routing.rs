use piping_server::headers::HeaderList;
use piping_server::piping_server::{
    decide, handle_request, help_url, Decision, Method, RequestInfo, Response,
};

fn headers(pairs: &[(&str, &str)]) -> HeaderList {
    let mut h = HeaderList::new();
    for (n, v) in pairs {
        h.push(n, v.to_string());
    }
    h
}

fn request(method: Method, path: &str, query: Option<&str>, pairs: &[(&str, &str)]) -> RequestInfo {
    RequestInfo {
        method,
        path: path.to_string(),
        query: query.map(|q| q.to_string()),
        headers: headers(pairs),
    }
}

fn respond(d: Decision) -> Response {
    match d {
        Decision::Respond(r) => r,
        Decision::Receive => panic!("expected a response, got Receive"),
        Decision::Send => panic!("expected a response, got Send"),
    }
}

fn header<'a>(r: &'a Response, name: &str) -> Option<&'a str> {
    r.headers
        .entries
        .iter()
        .find(|(n, _)| n.eq_ignore_ascii_case(name))
        .map(|(_, v)| v.as_str())
}

fn body(r: &Response) -> &str {
    r.body.as_deref().unwrap_or("")
}

#[test]
fn get_on_plain_path_receives() {
    let d = decide(&request(Method::Get, "/mypath", None, &[]), false, "");
    assert!(matches!(d, Decision::Receive));
}

#[test]
fn post_and_put_on_plain_path_send() {
    let d = decide(&request(Method::Post, "/mypath", None, &[]), false, "");
    assert!(matches!(d, Decision::Send));
    let d = decide(&request(Method::Put, "/mypath", Some("n=1"), &[]), false, "");
    assert!(matches!(d, Decision::Send));
}

#[test]
fn reserved_path_post_is_rejected() {
    let r = respond(decide(&request(Method::Post, "/version", None, &[]), false, ""));
    assert_eq!(r.status, 400);
    assert_eq!(header(&r, "Access-Control-Allow-Origin"), Some("*"));
    assert_eq!(header(&r, "Content-Type"), Some("text/plain"));
    assert_eq!(
        body(&r),
        "[ERROR] Cannot send to the reserved path '/version'. (e.g. '/mypath123')\n"
    );
}

#[test]
fn preflight_with_private_network_access() {
    let r = respond(decide(
        &request(
            Method::Options,
            "/mypath",
            None,
            &[("access-control-request-private-network", "true")],
        ),
        false,
        "",
    ));
    assert_eq!(r.status, 200);
    assert_eq!(header(&r, "Access-Control-Allow-Private-Network"), Some("true"));
    assert_eq!(
        header(&r, "Access-Control-Allow-Methods"),
        Some("GET, HEAD, POST, PUT, OPTIONS")
    );
    assert_eq!(header(&r, "Access-Control-Max-Age"), Some("86400"));
    assert_eq!(header(&r, "Access-Control-Allow-Origin"), Some("*"));
    assert_eq!(
        header(&r, "Access-Control-Allow-Headers"),
        Some("Content-Type, Content-Disposition, X-Piping")
    );
    assert_eq!(header(&r, "Content-Length"), Some("0"));
    assert!(r.body.is_none());
}

#[test]
fn preflight_without_private_network_access() {
    let r = respond(decide(&request(Method::Options, "/mypath", None, &[]), false, ""));
    assert_eq!(r.status, 200);
    assert_eq!(header(&r, "Access-Control-Allow-Private-Network"), None);
    assert_eq!(r.headers.entries.len(), 6);
}

#[test]
fn n_zero_is_rejected() {
    let r = respond(decide(&request(Method::Get, "/mypath", Some("n=0"), &[]), false, ""));
    assert_eq!(r.status, 400);
    assert!(body(&r).contains("n should > 0"));
    let r = respond(decide(&request(Method::Post, "/mypath", Some("n=0"), &[]), false, ""));
    assert_eq!(r.status, 400);
    assert_eq!(body(&r), "[ERROR] n should > 0, but n = 0.\n");
}

#[test]
fn n_not_a_number_is_rejected() {
    let r = respond(decide(&request(Method::Get, "/mypath", Some("n=abc"), &[]), false, ""));
    assert_eq!(r.status, 400);
    assert!(body(&r).contains("Invalid \"n\""));
    let r = respond(decide(&request(Method::Put, "/mypath", Some("n=-1"), &[]), false, ""));
    assert_eq!(r.status, 400);
    assert!(body(&r).contains("Invalid \"n\""));
}

#[test]
fn n_above_one_is_rejected() {
    let r = respond(decide(&request(Method::Get, "/mypath", Some("n=2"), &[]), false, ""));
    assert_eq!(r.status, 400);
    assert!(body(&r).contains("not supported yet"));
    let r = respond(decide(
        &request(Method::Post, "/mypath", Some("n=99999999999"), &[]),
        false,
        "",
    ));
    assert!(body(&r).contains("Invalid \"n\""));
}

#[test]
fn n_one_with_plus_and_last_value_wins() {
    let d = decide(&request(Method::Get, "/mypath", Some("n=%2B1"), &[]), false, "");
    assert!(matches!(d, Decision::Receive));
    let d = decide(&request(Method::Get, "/mypath", Some("n=2&n=1"), &[]), false, "");
    assert!(matches!(d, Decision::Receive));
    let r = respond(decide(&request(Method::Get, "/mypath", Some("n=1&n=2"), &[]), false, ""));
    assert_eq!(r.status, 400);
}

#[test]
fn service_worker_registration_is_rejected() {
    let r = respond(decide(
        &request(Method::Get, "/mypath", None, &[("service-worker", "script")]),
        false,
        "",
    ));
    assert_eq!(r.status, 400);
    assert_eq!(body(&r), "[ERROR] Service Worker registration is rejected.\n");
    let d = decide(
        &request(Method::Get, "/mypath", None, &[("service-worker", "other")]),
        false,
        "",
    );
    assert!(matches!(d, Decision::Receive));
}

#[test]
fn content_range_is_rejected() {
    let r = respond(decide(
        &request(Method::Post, "/mypath", None, &[("content-range", "bytes 2-6/100")]),
        false,
        "",
    ));
    assert_eq!(r.status, 400);
    assert_eq!(body(&r), "[ERROR] Content-Range is not supported for now in POST\n");
    let r = respond(decide(
        &request(Method::Put, "/mypath", None, &[("content-range", "bytes 2-6/100")]),
        false,
        "",
    ));
    assert_eq!(body(&r), "[ERROR] Content-Range is not supported for now in PUT\n");
}

#[test]
fn unsupported_method_gets_405() {
    let r = respond(decide(
        &request(Method::Other("DELETE".to_string()), "/mypath", None, &[]),
        false,
        "",
    ));
    assert_eq!(r.status, 405);
    assert_eq!(header(&r, "Access-Control-Allow-Origin"), Some("*"));
    assert_eq!(body(&r), "[ERROR] Unsupported method: DELETE.\n");
    let r = respond(decide(&request(Method::Head, "/mypath", None, &[]), false, ""));
    assert_eq!(r.status, 405);
}

#[test]
fn reserved_pages() {
    let r = respond(decide(&request(Method::Get, "/", None, &[]), false, ""));
    assert_eq!(r.status, 200);
    assert_eq!(header(&r, "Content-Type"), Some("text/html"));
    assert!(body(&r).contains("href=\"noscript\""));
    let r = respond(decide(&request(Method::Get, "/version", None, &[]), false, ""));
    assert_eq!(body(&r), "0.1.0 (Rust)\n");
    assert_eq!(header(&r, "Content-Type"), Some("text/plain"));
    let r = respond(decide(&request(Method::Get, "/favicon.ico", None, &[]), false, ""));
    assert_eq!(r.status, 204);
    assert!(r.body.is_none());
    assert!(r.headers.entries.is_empty());
    let r = respond(decide(&request(Method::Get, "/robots.txt", None, &[]), false, ""));
    assert_eq!(r.status, 404);
    assert_eq!(header(&r, "Content-Length"), Some("0"));
}

#[test]
fn head_on_reserved_paths_matches_get() {
    for path in ["/", "/noscript", "/version", "/help", "/favicon.ico", "/robots.txt"] {
        let g = respond(handle_request(
            &request(Method::Get, path, None, &[("host", "example.com")]),
            false,
        ));
        let h = respond(handle_request(
            &request(Method::Head, path, None, &[("host", "example.com")]),
            false,
        ));
        assert_eq!(g.status, h.status, "{path}");
        assert_eq!(g.headers.entries.len(), h.headers.entries.len(), "{path}");
        for (a, b) in g.headers.entries.iter().zip(h.headers.entries.iter()) {
            assert_eq!(a.0, b.0);
            if a.0 != "Content-Security-Policy" {
                assert_eq!(a.1, b.1);
            }
        }
    }
}

#[test]
fn no_script_page_carries_its_nonce() {
    let r = respond(decide(
        &request(Method::Get, "/noscript", Some("path=abc&mode=text"), &[]),
        false,
        "NONCE123",
    ));
    assert_eq!(r.status, 200);
    assert_eq!(
        header(&r, "Content-Security-Policy"),
        Some("default-src 'none'; style-src 'nonce-NONCE123'")
    );
    assert!(body(&r).contains("<style nonce=\"NONCE123\">"));
    assert!(body(&r).contains("action=\"abc\""));
    assert!(body(&r).contains("<textarea"));
}

#[test]
fn fresh_nonce_is_base64_of_sixteen_bytes() {
    let r = respond(handle_request(&request(Method::Get, "/noscript", None, &[]), false));
    assert_eq!(r.status, 200);
    let csp = header(&r, "Content-Security-Policy").unwrap().to_string();
    let nonce = csp
        .strip_prefix("default-src 'none'; style-src 'nonce-")
        .unwrap()
        .strip_suffix('\'')
        .unwrap();
    assert_eq!(nonce.len(), 24);
    assert!(nonce.ends_with("=="));
    assert!(body(&r).contains(&format!("<style nonce=\"{nonce}\">")));
}

#[test]
fn help_uses_host_and_scheme() {
    assert_eq!(
        help_url(false, Some("example.com".to_string()), None),
        "http://example.com/mypath"
    );
    assert_eq!(
        help_url(true, Some("example.com:8443".to_string()), None),
        "https://example.com:8443/mypath"
    );
    assert_eq!(
        help_url(false, Some("example.com".to_string()), Some("https".to_string())),
        "https://example.com/mypath"
    );
    assert_eq!(help_url(false, None, None), "http://hostname/mypath");
    assert_eq!(
        help_url(false, Some("bad host".to_string()), None),
        "http://hostname/mypath"
    );
    let r = respond(decide(
        &request(Method::Get, "/help", None, &[("host", "example.com")]),
        false,
        "",
    ));
    assert!(body(&r).contains("curl -T myfile http://example.com/mypath\n"));
}

#[test]
fn method_names() {
    assert!(matches!(Method::from_name("GET"), Method::Get));
    assert!(matches!(Method::from_name("HEAD"), Method::Head));
    assert!(matches!(Method::from_name("POST"), Method::Post));
    assert!(matches!(Method::from_name("PUT"), Method::Put));
    assert!(matches!(Method::from_name("OPTIONS"), Method::Options));
    match Method::from_name("PATCH") {
        Method::Other(s) => assert_eq!(s, "PATCH"),
        _ => panic!("expected another method"),
    }
    assert_eq!(Method::from_name("get").name(), "get");
    assert!(matches!(Method::from_name("get"), Method::Other(_)));
}
