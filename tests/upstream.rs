use ifsc_proxy::upstream::{
    api_request, entry_request, landing_request, relay_response, session_header_list,
    signal_request, Header, UpstreamReply,
};

fn pairs(hs: &[Header]) -> Vec<(String, String)> {
    hs.iter().map(|h| (h.name.clone(), h.value.clone())).collect()
}

fn expected_headers(token: &str) -> Vec<(String, String)> {
    vec![
        ("X-Csrf-Token".to_string(), token.to_string()),
        ("Accept".to_string(), "application/json".to_string()),
        ("Referer".to_string(), "https://ifsc.results.info/".to_string()),
        ("Sec-Fetch-Site".to_string(), "same-origin".to_string()),
        ("Sec-Fetch-Mode".to_string(), "cors".to_string()),
    ]
}

#[test]
fn landing_request_is_bare() {
    let q = landing_request();
    assert_eq!(q.url, "https://ifsc.results.info");
    assert!(q.headers.is_empty());
}

#[test]
fn priming_requests() {
    let s = signal_request("tok");
    assert_eq!(s.url, "https://ifsc.results.info/appsignal");
    assert_eq!(pairs(&s.headers), expected_headers("tok"));
    let e = entry_request("tok");
    assert_eq!(e.url, "https://ifsc.results.info/entrypoint");
    assert_eq!(pairs(&e.headers), expected_headers("tok"));
}

#[test]
fn session_headers_carry_token() {
    assert_eq!(pairs(&session_header_list("abc123")), expected_headers("abc123"));
}

#[test]
fn api_path_is_appended_verbatim() {
    assert_eq!(api_request("t", "events").url, "https://ifsc.results.info/api/events");
    assert_eq!(api_request("t", "").url, "https://ifsc.results.info/api/");
    assert_eq!(
        api_request("t", "events/1/result?x=a%20b&y=/").url,
        "https://ifsc.results.info/api/events/1/result?x=a%20b&y=/"
    );
    assert_eq!(pairs(&api_request("t", "events").headers), expected_headers("t"));
}

#[test]
fn relay_keeps_status_type_and_body() {
    let reply = UpstreamReply {
        status: 200,
        content_type: Some("text/html; charset=utf-8".to_string()),
        body: "<p>x</p>".to_string(),
    };
    let r = relay_response(reply);
    assert_eq!(r.status, 200);
    assert_eq!(r.content_type, "text/html; charset=utf-8");
    assert_eq!(r.body, "<p>x</p>");
}

#[test]
fn relay_passes_error_statuses() {
    for status in [404u16, 500, 503] {
        let reply = UpstreamReply {
            status,
            content_type: Some("application/json".to_string()),
            body: "{\"error\":\"no\"}".to_string(),
        };
        let r = relay_response(reply);
        assert_eq!(r.status, status);
        assert_eq!(r.body, "{\"error\":\"no\"}");
    }
}

#[test]
fn relay_defaults_content_type() {
    let reply = UpstreamReply { status: 201, content_type: None, body: String::new() };
    let r = relay_response(reply);
    assert_eq!(r.status, 201);
    assert_eq!(r.content_type, "application/json");
    assert_eq!(r.body, "");
}
