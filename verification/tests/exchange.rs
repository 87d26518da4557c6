use mpk_rs::clients::mpk_wroc::{Bus, BusList, BusStop, Client};
use mpk_rs::decode::PositionalBatch;
use mpk_rs::digest::DigestCredentials;
use mpk_rs::error::{AuthError, ClientError, DecodeError, ErrorKind, MpkError, TransportError};
use mpk_rs::exchange::{Exchange, Next, Reply};
use mpk_rs::request::{Param, RequestDescriptor};

const STOPS: &str = r#"[{ "l": "250", "d": "20362", "t": "2025-02-26 23:38:00", "c": 25622727 }]"#;
const CHALLENGE: &str = r#"Digest realm="R", nonce="N", qop="auth""#;

fn credentials() -> DigestCredentials {
    DigestCredentials::new("user".to_string(), "pass".to_string())
}

fn request() -> RequestDescriptor {
    Client::new("https://h.example:8088".to_string(), credentials()).post_info_request("20329")
}

fn reply(status: u16, challenge: Option<&str>, body: &str) -> Result<Reply, TransportError> {
    Ok(Reply {
        status,
        challenge: challenge.map(str::to_string),
        body: body.as_bytes().to_vec(),
    })
}

fn sent(next: Next<Vec<BusStop>>) -> (String, Option<String>, Exchange) {
    match next {
        Next::Send { url, authorization, exchange } => (url, authorization, exchange),
        Next::Done(r) => panic!("a request was expected, got {:?}", r),
    }
}

fn done(next: Next<Vec<BusStop>>) -> Result<Vec<BusStop>, ClientError> {
    match next {
        Next::Done(r) => r,
        Next::Send { url, .. } => panic!("the end of the call was expected, got a request for {}", url),
    }
}

#[test]
fn a_call_starts_with_a_plain_request() {
    let (url, authorization, _) = sent(Exchange::start(&request()));
    assert_eq!(url, "https://h.example:8088/mobile?function=getPostInfo&symbol=20329");
    assert_eq!(authorization, None);
}

#[test]
fn a_call_without_a_usable_address_ends_at_once() {
    let no_host = RequestDescriptor { hosts: Vec::new(), path: "p".to_string(), params: Vec::new() };
    assert_eq!(done(Exchange::start(&no_host)), Err(ClientError::UrlParseError));
    let no_scheme = RequestDescriptor::single("h".to_string(), "p".to_string(), Vec::new());
    assert_eq!(done(Exchange::start(&no_scheme)), Err(ClientError::UrlParseError));
    let with_params = RequestDescriptor::single(
        "h".to_string(),
        "p".to_string(),
        vec![Param { key: "k".to_string(), value: "v".to_string() }],
    );
    let r = done(Exchange::start(&with_params));
    assert_eq!(r.map_err(|e| e.kind()), Err(ErrorKind::Address));
}

#[test]
fn an_open_host_is_answered_in_one_round() {
    let (_, _, exchange) = sent(Exchange::start(&request()));
    let stops = done(exchange.on_reply(reply(200, None, STOPS), &credentials(), "C")).unwrap();
    assert_eq!(stops.len(), 1);
    assert_eq!(stops[0].label, "250");
    assert_eq!(stops[0].course, 25622727);
}

#[test]
fn a_challenge_is_answered_and_the_second_reply_decoded() {
    let (url, _, exchange) = sent(Exchange::start(&request()));
    let next = exchange.on_reply(reply(401, Some(CHALLENGE), ""), &credentials(), "C");
    let (again, authorization, exchange) = sent(next);
    assert_eq!(again, url);
    let header = authorization.unwrap();
    assert!(header.starts_with("Digest username=\"user\", realm=\"R\", nonce=\"N\""));
    assert!(header.contains("uri=\"/mobile?function=getPostInfo&symbol=20329\""));
    let stops = done(exchange.on_reply(reply(200, None, STOPS), &credentials(), "C")).unwrap();
    assert_eq!(stops[0].direction, "20362");
}

#[test]
fn a_failure_of_the_transport_ends_the_call() {
    let lost = TransportError { message: "connection refused".to_string() };
    let (_, _, exchange) = sent(Exchange::start(&request()));
    let r = done(exchange.on_reply(Err(lost.clone()), &credentials(), "C"));
    assert_eq!(r, Err(ClientError::ReqwestError(lost.clone())));
    let (_, _, exchange) = sent(Exchange::start(&request()));
    let (_, _, exchange) =
        sent(exchange.on_reply(reply(401, Some(CHALLENGE), ""), &credentials(), "C"));
    let r = done(exchange.on_reply(Err(lost.clone()), &credentials(), "C"));
    assert_eq!(r.map_err(|e| e.kind()), Err(ErrorKind::Transport));
}

#[test]
fn a_malformed_challenge_ends_the_call() {
    let (_, _, exchange) = sent(Exchange::start(&request()));
    let r = done(exchange.on_reply(reply(401, Some("Digest realm=\"R\""), ""), &credentials(), "C"));
    assert_eq!(r, Err(ClientError::HttpError(AuthError::MalformedChallenge)));
    let (_, _, exchange) = sent(Exchange::start(&request()));
    let r = done(exchange.on_reply(reply(401, None, STOPS), &credentials(), "C"));
    assert_eq!(r.map_err(|e| e.kind()), Err(ErrorKind::Authentication));
}

#[test]
fn a_refused_answer_ends_the_call() {
    for status in [401u16, 403, 500] {
        let (_, _, exchange) = sent(Exchange::start(&request()));
        let (_, _, exchange) =
            sent(exchange.on_reply(reply(401, Some(CHALLENGE), ""), &credentials(), "C"));
        let r = done(exchange.on_reply(reply(status, Some(CHALLENGE), STOPS), &credentials(), "C"));
        assert_eq!(r, Err(ClientError::HttpError(AuthError::AuthenticationFailed { status })));
    }
}

#[test]
fn a_reported_failure_ends_the_call_even_with_a_good_status() {
    let body = r#"{"info":"X","message":"Y","stackTrace":"Z"}"#;
    let (_, _, exchange) = sent(Exchange::start(&request()));
    let r = done(exchange.on_reply(reply(200, None, body), &credentials(), "C"));
    assert_eq!(
        r,
        Err(ClientError::MpkError(MpkError {
            info: "X".to_string(),
            message: "Y".to_string(),
            stack_trace: "Z".to_string(),
        }))
    );
}

#[test]
fn a_body_of_no_shape_ends_the_call() {
    let (_, _, exchange) = sent(Exchange::start(&request()));
    let r = done(exchange.on_reply(reply(200, None, "<html>"), &credentials(), "C"));
    assert_eq!(
        r,
        Err(ClientError::SerdeError(DecodeError::SchemaMismatch { snippet: b"<html>".to_vec() }))
    );
}

#[test]
fn a_first_reply_that_is_no_challenge_is_decoded_whatever_its_status() {
    let (_, _, exchange) = sent(Exchange::start(&request()));
    let stops = done(exchange.on_reply(reply(500, None, STOPS), &credentials(), "C")).unwrap();
    assert_eq!(stops.len(), 1);
}

#[test]
fn what_follows_can_be_decided_from_a_given_answer() {
    let (url, _, exchange) = sent(Exchange::start(&request()));
    let next = exchange.resume(reply(401, None, ""), Some("Digest given".to_string()));
    let (again, authorization, exchange) = sent(next);
    assert_eq!(again, url);
    assert_eq!(authorization, Some("Digest given".to_string()));
    let r = done(exchange.resume(reply(401, None, ""), Some("Digest given".to_string())));
    assert_eq!(r, Err(ClientError::HttpError(AuthError::AuthenticationFailed { status: 401 })));
    let (_, _, exchange) = sent(Exchange::start(&request()));
    let r = done(exchange.resume(reply(401, None, ""), None));
    assert_eq!(r, Err(ClientError::HttpError(AuthError::MalformedChallenge)));
}

fn positions() -> RequestDescriptor {
    Client::new("https://h.example:8088".to_string(), credentials())
        .positions_request("2025-02-26 23:37:50".to_string())
}

fn sent_for_positions(next: Next<PositionalBatch<Bus>>) -> Exchange {
    match next {
        Next::Send { exchange, .. } => exchange,
        Next::Done(r) => panic!("a request was expected, got {:?}", r),
    }
}

fn positions_done(next: Next<PositionalBatch<Bus>>) -> Result<BusList, ClientError> {
    match next {
        Next::Done(r) => r.map(BusList::from_batch),
        Next::Send { url, .. } => panic!("the end of the call was expected, got a request for {}", url),
    }
}

#[test]
fn positions_come_through_the_handshake() {
    let body = r#"["2025-02-26T23:38:00",
        {"v":1,"c":2,"x":0.0,"y":0.0,"l":"N","t":"b","s":"A","d":"B","e":0}]"#;
    let exchange = sent_for_positions(Exchange::start(&positions()));
    let next = exchange.on_batch_reply::<Bus>(reply(401, Some(CHALLENGE), ""), &credentials(), "C");
    let exchange = sent_for_positions(next);
    let next = exchange.on_batch_reply::<Bus>(reply(200, None, body), &credentials(), "C");
    let list = positions_done(next).unwrap();
    assert_eq!(list.timestamp, "2025-02-26T23:38:00");
    assert_eq!(list.buses.len(), 1);
    assert_eq!(list.buses[0].code, 1);
}

#[test]
fn a_batch_that_fails_keeps_its_kind_to_the_end_of_the_call() {
    let cases: [(&str, DecodeError); 4] = [
        (r#"["a","b","c"]"#, DecodeError::RecordMismatch { index: 1 }),
        ("[]", DecodeError::EmptyBatch),
        (r#"[42, {}]"#, DecodeError::InvalidMetadata),
        (r#"["ts", {"v":1}]"#, DecodeError::RecordMismatch { index: 1 }),
    ];
    for (body, expected) in cases {
        let exchange = sent_for_positions(Exchange::start(&positions()));
        let next = exchange.on_batch_reply::<Bus>(reply(200, None, body), &credentials(), "C");
        assert_eq!(positions_done(next), Err(ClientError::SerdeError(expected.clone())));
        let exchange = sent_for_positions(Exchange::start(&positions()));
        let next =
            exchange.on_batch_reply::<Bus>(reply(401, Some(CHALLENGE), ""), &credentials(), "C");
        let exchange = sent_for_positions(next);
        let next = exchange.resume_batch::<Bus>(reply(200, None, body), None);
        assert_eq!(positions_done(next), Err(ClientError::SerdeError(expected)));
    }
}

#[test]
fn a_positions_call_still_surfaces_what_the_host_reports() {
    let failure = r#"{"info":"X","message":"Y","stackTrace":"Z"}"#;
    let exchange = sent_for_positions(Exchange::start(&positions()));
    let next = exchange.on_batch_reply::<Bus>(reply(200, None, failure), &credentials(), "C");
    assert_eq!(positions_done(next).map_err(|e| e.kind()), Err(ErrorKind::UpstreamBusiness));
    let exchange = sent_for_positions(Exchange::start(&positions()));
    let next = exchange.on_batch_reply::<Bus>(reply(200, None, "{}"), &credentials(), "C");
    assert_eq!(
        positions_done(next),
        Err(ClientError::SerdeError(DecodeError::SchemaMismatch { snippet: b"{}".to_vec() }))
    );
    let lost = TransportError { message: "timed out".to_string() };
    let exchange = sent_for_positions(Exchange::start(&positions()));
    let next = exchange.on_batch_reply::<Bus>(Err(lost.clone()), &credentials(), "C");
    assert_eq!(positions_done(next), Err(ClientError::ReqwestError(lost)));
    let exchange = sent_for_positions(Exchange::start(&positions()));
    let next = exchange.on_batch_reply::<Bus>(reply(401, None, ""), &credentials(), "C");
    assert_eq!(
        positions_done(next),
        Err(ClientError::HttpError(AuthError::MalformedChallenge))
    );
}
