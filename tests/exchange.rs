use ifsc_proxy::exchange::{Action, Event, Exchange};
use ifsc_proxy::upstream::{RelayResponse, UpstreamReply};
use ifsc_proxy::ProxyError;

fn reply(status: u16, content_type: Option<&str>, body: &str) -> Event {
    Event::Received(UpstreamReply {
        status,
        content_type: content_type.map(|c| c.to_string()),
        body: body.to_string(),
    })
}

/// Drives an exchange with canned upstream outcomes, one per request sent,
/// and records every URL requested.
fn drive(path: &str, mut outcomes: Vec<Event>) -> (Vec<String>, Result<RelayResponse, ProxyError>) {
    let (mut x, mut action) = Exchange::start(path.to_string());
    let mut sent = Vec::new();
    outcomes.reverse();
    loop {
        match action {
            Action::Send(q) => {
                sent.push(q.url.clone());
                let event = outcomes.pop().expect("more requests than outcomes");
                let (y, a) = x.advance(event);
                x = y;
                action = a;
            }
            Action::Respond(r) => return (sent, Ok(r)),
            Action::Fail(e) => return (sent, Err(e)),
        }
    }
}

#[test]
fn full_exchange_relays_answer() {
    let (sent, out) = drive(
        "events",
        vec![
            reply(200, Some("text/html"), "<meta name=\"csrf-token\" content=\"abc123\">"),
            reply(200, None, ""),
            reply(200, None, ""),
            reply(200, Some("application/json"), "{\"ok\":true}"),
        ],
    );
    assert_eq!(
        sent,
        vec![
            "https://ifsc.results.info",
            "https://ifsc.results.info/appsignal",
            "https://ifsc.results.info/entrypoint",
            "https://ifsc.results.info/api/events",
        ]
    );
    let r = out.unwrap();
    assert_eq!(r.status, 200);
    assert_eq!(r.content_type, "application/json");
    assert_eq!(r.body, "{\"ok\":true}");
}

#[test]
fn token_goes_into_every_session_request() {
    let (x, _) = Exchange::start("a/b".to_string());
    let (x, a) = x.advance(reply(200, None, "<meta name=\"csrf-token\" content=\"T0K\">"));
    assert_eq!(x.token, "T0K");
    let mut seen = 0;
    let mut x = x;
    let mut a = a;
    while let Action::Send(q) = a {
        assert_eq!(q.headers[0].name, "X-Csrf-Token");
        assert_eq!(q.headers[0].value, "T0K");
        seen += 1;
        let (y, b) = x.advance(reply(200, None, "{}"));
        x = y;
        a = b;
    }
    assert_eq!(seen, 3);
    assert!(x.is_finished());
}

#[test]
fn missing_token_fails_before_priming() {
    let (sent, out) = drive("events", vec![reply(200, Some("text/html"), "<html>no token here</html>")]);
    assert_eq!(sent, vec!["https://ifsc.results.info"]);
    assert_eq!(out.unwrap_err(), ProxyError::CredentialNotFound);
}

#[test]
fn relay_transport_failure_is_not_retried() {
    let (sent, out) = drive(
        "events",
        vec![
            reply(200, None, "<meta name=\"csrf-token\" content=\"abc123\">"),
            reply(200, None, ""),
            reply(200, None, ""),
            Event::Unreachable,
        ],
    );
    assert_eq!(sent.len(), 4);
    assert_eq!(out.unwrap_err(), ProxyError::UpstreamUnavailable);
}

#[test]
fn failed_exchange_sends_nothing_more() {
    let (x, _) = Exchange::start("events".to_string());
    let (x, a) = x.advance(Event::Unreachable);
    assert!(matches!(a, Action::Fail(ProxyError::UpstreamUnavailable)));
    assert!(x.is_finished());
    let (_, a) = x.advance(reply(200, None, "<meta name=\"csrf-token\" content=\"abc\">"));
    assert!(matches!(a, Action::Fail(ProxyError::UpstreamUnavailable)));
}

#[test]
fn signal_failure_skips_entry() {
    let (sent, out) = drive(
        "events",
        vec![reply(200, None, "<meta name=\"csrf-token\" content=\"abc\">"), Event::Unreachable],
    );
    assert_eq!(sent, vec!["https://ifsc.results.info", "https://ifsc.results.info/appsignal"]);
    assert_eq!(out.unwrap_err(), ProxyError::UpstreamUnavailable);
}

#[test]
fn unreadable_priming_answer_still_counts() {
    let (sent, out) = drive(
        "x",
        vec![
            reply(200, None, "<meta name=\"csrf-token\" content=\"abc\">"),
            Event::Unreadable,
            Event::Unreadable,
            reply(404, None, "{\"error\":\"missing\"}"),
        ],
    );
    assert_eq!(sent.len(), 4);
    let r = out.unwrap();
    assert_eq!(r.status, 404);
    assert_eq!(r.content_type, "application/json");
    assert_eq!(r.body, "{\"error\":\"missing\"}");
}

#[test]
fn unreadable_pages_fail_with_read_error() {
    let (sent, out) = drive("x", vec![Event::Unreadable]);
    assert_eq!(sent.len(), 1);
    assert_eq!(out.unwrap_err(), ProxyError::UpstreamReadError);
    let (_, out) = drive(
        "x",
        vec![
            reply(200, None, "<meta name=\"csrf-token\" content=\"abc\">"),
            reply(200, None, ""),
            reply(200, None, ""),
            Event::Unreadable,
        ],
    );
    assert_eq!(out.unwrap_err(), ProxyError::UpstreamReadError);
}

#[test]
fn body_is_read_only_for_landing_and_relay() {
    let (x, _) = Exchange::start("e".to_string());
    assert!(x.reads_body());
    let (x, _) = x.advance(reply(200, None, "<meta name=\"csrf-token\" content=\"abc\">"));
    assert!(!x.reads_body());
    let (x, _) = x.advance(reply(200, None, ""));
    assert!(!x.reads_body());
    let (x, _) = x.advance(reply(200, None, ""));
    assert!(x.reads_body());
    assert!(!x.is_finished());
}
