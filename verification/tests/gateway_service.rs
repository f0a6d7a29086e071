use time_relay::clock::Instant;
use time_relay::gateway::{
    begin, begin_with, fail, health_check, provider_base_url, relay, root, Body, Failure,
    Forwarding, GatewayError, Reading, Reply, TimeQuery, PORT,
};
use time_relay::message::{ErrorResponse, TimeResponse};
use time_relay::status::HttpStatus;

fn query(timezone: Option<&str>) -> TimeQuery {
    TimeQuery { timezone: timezone.map(|s| s.to_string()) }
}

fn moment() -> Instant {
    // 2023-11-14T22:13:20Z
    Instant::new(1_700_000_000, 0).unwrap()
}

fn status(code: u16) -> HttpStatus {
    HttpStatus::new(code).expect("a status code")
}

fn forwarding(id: &str) -> Forwarding {
    begin_with(query(Some("EST")), None, id.to_string())
}

fn upstream(id: &str) -> TimeResponse {
    TimeResponse {
        timestamp: "2023-11-14T17:13:20-05:00".to_string(),
        timezone: "EST".to_string(),
        request_id: id.to_string(),
        source: "api2-service".to_string(),
    }
}

#[test]
fn gateway_descriptor_and_port() {
    assert_eq!(root(), "API1 - Time Service Gateway");
    assert_eq!(PORT, 3000);
}

#[test]
fn gateway_health_is_always_healthy() {
    let first = health_check();
    let second = health_check();
    assert_eq!(first.status, "healthy");
    assert_eq!(second.status, "healthy");
    assert_eq!(first.service, "api1");
    assert_eq!(second.service, "api1");
    let a = chrono::DateTime::parse_from_rfc3339(&first.timestamp).unwrap();
    let b = chrono::DateTime::parse_from_rfc3339(&second.timestamp).unwrap();
    assert!(first.timestamp.ends_with("+00:00"));
    assert!(a <= b, "{a} then {b}");
}

#[test]
fn provider_address_defaults_when_not_configured() {
    assert_eq!(provider_base_url(None), "http://api2:4000");
    assert_eq!(provider_base_url(Some("http://localhost:4000".to_string())), "http://localhost:4000");
    assert_eq!(provider_base_url(Some(String::new())), "");
}

#[test]
fn begin_with_says_what_to_send() {
    let call = begin_with(query(Some("PST")), Some("http://provider:9".to_string()), "id-1".to_string());
    assert_eq!(
        call,
        Forwarding {
            request_id: "id-1".to_string(),
            timezone: "PST".to_string(),
            url: "http://provider:9/time".to_string(),
        }
    );
    assert_eq!(
        call.query(),
        vec![
            ("timezone".to_string(), "PST".to_string()),
            ("request_id".to_string(), "id-1".to_string()),
        ]
    );
}

#[test]
fn begin_with_defaults_zone_and_address() {
    let call = begin_with(query(None), None, "id-2".to_string());
    assert_eq!(call.timezone, "UTC");
    assert_eq!(call.url, "http://api2:4000/time");
    assert_eq!(call.request_id, "id-2");
    assert_eq!(
        call.query(),
        vec![
            ("timezone".to_string(), "UTC".to_string()),
            ("request_id".to_string(), "id-2".to_string()),
        ]
    );
}

#[test]
fn begin_forwards_unknown_zone_names_untouched() {
    let call = begin_with(query(Some("Mars/Olympus")), None, "id".to_string());
    assert_eq!(call.timezone, "Mars/Olympus");
}

#[test]
fn begin_mints_a_fresh_identifier_each_time() {
    let first = begin(query(None), None);
    let second = begin(query(None), None);
    for call in [&first, &second] {
        let parsed = uuid::Uuid::parse_str(&call.request_id).expect("a UUID");
        assert_eq!(parsed.get_version_num(), 4);
        assert_eq!(parsed.hyphenated().to_string(), call.request_id);
        assert_eq!(call.timezone, "UTC");
        assert_eq!(call.url, "http://api2:4000/time");
    }
    assert_ne!(first.request_id, second.request_id);
}

#[test]
fn error_kinds_have_their_status() {
    assert_eq!(GatewayError::Unavailable.status(), status(503));
    assert_eq!(GatewayError::UpstreamError(status(404)).status(), status(502));
    assert_eq!(GatewayError::UpstreamError(status(500)).status(), status(502));
    assert_eq!(GatewayError::MalformedUpstreamResponse.status(), status(500));
}

#[test]
fn error_kinds_have_their_message() {
    assert_eq!(GatewayError::Unavailable.message(), "Failed to connect to API2");
    assert_eq!(
        GatewayError::MalformedUpstreamResponse.message(),
        "Failed to parse response from API2"
    );
    assert_eq!(
        GatewayError::UpstreamError(status(500)).message(),
        "API2 returned status: 500 Internal Server Error"
    );
    assert_eq!(
        GatewayError::UpstreamError(status(404)).message(),
        "API2 returned status: 404 Not Found"
    );
    assert_eq!(
        GatewayError::UpstreamError(status(599)).message(),
        "API2 returned status: 599 <unknown status code>"
    );
}

#[test]
fn fail_builds_the_whole_answer() {
    let failure = fail(GatewayError::UpstreamError(status(503)), "id-3".to_string(), moment());
    assert_eq!(
        failure,
        Failure {
            status: status(502),
            body: ErrorResponse {
                error: "API2 returned status: 503 Service Unavailable".to_string(),
                request_id: "id-3".to_string(),
                timestamp: "2023-11-14T22:13:20+00:00".to_string(),
            },
        }
    );
}

#[test]
fn replies_are_classified() {
    assert_eq!(Reply::Unreachable.classify(), Some(GatewayError::Unavailable));
    assert_eq!(Reply::Status(status(200)).classify(), None);
    assert_eq!(Reply::Status(status(204)).classify(), None);
    assert_eq!(Reply::Status(status(299)).classify(), None);
    assert_eq!(
        Reply::Status(status(199)).classify(),
        Some(GatewayError::UpstreamError(status(199)))
    );
    assert_eq!(
        Reply::Status(status(300)).classify(),
        Some(GatewayError::UpstreamError(status(300)))
    );
    assert_eq!(
        Reply::Status(status(500)).classify(),
        Some(GatewayError::UpstreamError(status(500)))
    );
}

#[test]
fn unreachable_provider_gives_503_under_the_minted_identifier() {
    let call = forwarding("minted-1");
    let next = call.on_reply_at(Reply::Unreachable, moment());
    assert_eq!(
        next,
        Err(Failure {
            status: status(503),
            body: ErrorResponse {
                error: "Failed to connect to API2".to_string(),
                request_id: "minted-1".to_string(),
                timestamp: "2023-11-14T22:13:20+00:00".to_string(),
            },
        })
    );
}

#[test]
fn unreachable_provider_is_reported_under_the_identifier_of_begin() {
    let call = begin(query(Some("CET")), Some("http://127.0.0.1:1".to_string()));
    let minted = call.request_id.clone();
    let start = chrono::Utc::now();
    let failure = call.on_reply(Reply::Unreachable).unwrap_err();
    let end = chrono::Utc::now();
    assert_eq!(failure.status.code, 503);
    assert_eq!(failure.body.error, "Failed to connect to API2");
    assert_eq!(failure.body.request_id, minted);
    let stamped = chrono::DateTime::parse_from_rfc3339(&failure.body.timestamp).unwrap();
    assert_eq!(stamped.offset().local_minus_utc(), 0);
    assert!(start <= stamped && stamped <= end);
}

#[test]
fn failing_status_gives_502_naming_the_status() {
    let next = forwarding("minted-2").on_reply_at(Reply::Status(status(500)), moment());
    assert_eq!(
        next,
        Err(Failure {
            status: status(502),
            body: ErrorResponse {
                error: "API2 returned status: 500 Internal Server Error".to_string(),
                request_id: "minted-2".to_string(),
                timestamp: "2023-11-14T22:13:20+00:00".to_string(),
            },
        })
    );
}

#[test]
fn every_failing_status_is_named_in_the_message() {
    for code in (100u16..200).chain(300..1000) {
        let failure = forwarding("m").on_reply_at(Reply::Status(status(code)), moment()).unwrap_err();
        assert_eq!(failure.status.code, 502);
        assert_eq!(failure.body.request_id, "m");
        let lead = format!("API2 returned status: {code} ");
        assert!(failure.body.error.starts_with(&lead), "{}", failure.body.error);
        assert!(failure.body.error.len() > lead.len(), "{}", failure.body.error);
    }
}

#[test]
fn redirects_and_informational_statuses_are_failures_too() {
    let moved = forwarding("m").on_reply(Reply::Status(status(301))).unwrap_err();
    assert_eq!(moved.status.code, 502);
    assert_eq!(moved.body.error, "API2 returned status: 301 Moved Permanently");
    let early = forwarding("m").on_reply(Reply::Status(status(100))).unwrap_err();
    assert_eq!(early.status.code, 502);
    assert_eq!(early.body.error, "API2 returned status: 100 Continue");
}

#[test]
fn every_success_status_moves_on_to_the_body() {
    for code in 200u16..300 {
        let next = forwarding("minted-3").on_reply_at(Reply::Status(status(code)), moment());
        assert_eq!(next, Ok(Reading { request_id: "minted-3".to_string() }));
        let next = forwarding("minted-3").on_reply(Reply::Status(status(code)));
        assert_eq!(next, Ok(Reading { request_id: "minted-3".to_string() }));
    }
}

#[test]
fn malformed_body_gives_500() {
    let reading = Reading { request_id: "minted-4".to_string() };
    assert_eq!(
        reading.on_body_at(Body::Malformed, moment()),
        Err(Failure {
            status: status(500),
            body: ErrorResponse {
                error: "Failed to parse response from API2".to_string(),
                request_id: "minted-4".to_string(),
                timestamp: "2023-11-14T22:13:20+00:00".to_string(),
            },
        })
    );
    let failure = Reading { request_id: "minted-4".to_string() }.on_body(Body::Malformed).unwrap_err();
    assert_eq!(failure.status.code, 500);
    assert_eq!(failure.body.error, "Failed to parse response from API2");
    assert_eq!(failure.body.request_id, "minted-4");
    assert!(chrono::DateTime::parse_from_rfc3339(&failure.body.timestamp).is_ok());
}

#[test]
fn parsed_body_is_relayed_under_the_minted_identifier() {
    let reading = Reading { request_id: "minted-5".to_string() };
    let answer = reading.on_body_at(Body::Parsed(upstream("provider-own")), moment());
    assert_eq!(
        answer,
        Ok(TimeResponse {
            timestamp: "2023-11-14T17:13:20-05:00".to_string(),
            timezone: "EST".to_string(),
            request_id: "minted-5".to_string(),
            source: "api1->api2".to_string(),
        })
    );
    let again = Reading { request_id: "minted-5".to_string() }.on_body(Body::Parsed(upstream("x")));
    assert_eq!(again, answer);
}

#[test]
fn relay_keeps_time_and_zone_and_drops_the_rest() {
    let mut theirs = upstream("theirs");
    theirs.source = "somewhere else".to_string();
    let answer = relay("ours".to_string(), theirs);
    assert_eq!(answer.timestamp, "2023-11-14T17:13:20-05:00");
    assert_eq!(answer.timezone, "EST");
    assert_eq!(answer.request_id, "ours");
    assert_eq!(answer.source, "api1->api2");
}
