use prism_rpc::backoff::backoff_duration;
use prism_rpc::call::{Action, CallState, Event, RpcCall};
use prism_rpc::client::RpcClient;
use prism_rpc::config::{Network, NetworkConfig};
use prism_rpc::envelope::{JsonRpcError, JsonRpcResponse};
use prism_rpc::error::PrismResult;
use prism_rpc::status::HttpStatus;
use serde_json::Value;
use std::time::Duration;

/// What one attempt gives: no reply, or a status and a body.
enum Reply {
    Failed(&'static str),
    Http(u16, &'static str),
}

/// What a call came to.
struct Outcome {
    result: PrismResult<Value>,
    requests: usize,
    delays: Vec<Duration>,
}

/// A minimal JSON-RPC success response.
fn ok_body() -> &'static str {
    r#"{"jsonrpc":"2.0","id":1,"result":{"status":"SUCCESS"}}"#
}

fn make_client(max_retries: u32) -> RpcClient {
    RpcClient {
        config: NetworkConfig {
            network: Network::Custom,
            rpc_url: "http://127.0.0.1:0".to_string(),
            network_passphrase: "test".to_string(),
            archive_urls: vec![],
        },
        max_retries,
        timeout_secs: 5,
    }
}

fn status(code: u16) -> HttpStatus {
    HttpStatus::from_u16(code).unwrap()
}

/// The response that a body holds.
fn parse(body: &str) -> Event {
    let value: Value = match serde_json::from_str(body) {
        Ok(value) => value,
        Err(error) => return Event::ParseFailed(error.to_string()),
    };
    let error = value.get("error").map(|error| JsonRpcError {
        code: error["code"].as_i64().unwrap(),
        message: error["message"].as_str().unwrap().to_string(),
    });
    Event::Parsed(JsonRpcResponse {
        jsonrpc: value["jsonrpc"].as_str().unwrap().to_string(),
        id: value["id"].as_u64().unwrap(),
        result: value.get("result").cloned(),
        error,
    })
}

/// Drives a call whose attempts get the given replies; the last one repeats.
fn drive(mut call: RpcCall, replies: &[Reply]) -> Outcome {
    let mut requests: usize = 0;
    let mut delays = vec![];
    let mut event = Event::Start;
    loop {
        event = match call.on_event(event).unwrap() {
            Action::Sleep(delay) => {
                delays.push(delay);
                Event::Waited
            }
            Action::Send => {
                let reply = &replies[std::cmp::min(requests, replies.len() - 1)];
                requests += 1;
                match reply {
                    Reply::Failed(reason) => Event::SendFailed(reason.to_string()),
                    Reply::Http(code, _) => Event::Responded(status(*code)),
                }
            }
            Action::ReadBody => match &replies[std::cmp::min(requests - 1, replies.len() - 1)] {
                Reply::Failed(reason) => Event::ReadFailed(reason.to_string()),
                Reply::Http(_, body) => parse(body),
            },
            Action::Return(result) => {
                assert_eq!(call.state(), CallState::Finished);
                assert!(call.on_event(Event::Start).is_none());
                return Outcome { result, requests, delays };
            }
        };
    }
}

fn message(outcome: Outcome) -> String {
    outcome.result.unwrap_err().message().to_string()
}

#[test]
fn retries_once_on_500_then_succeeds() {
    let client = make_client(3);
    let outcome = drive(
        client.get_latest_ledger(),
        &[Reply::Http(500, ""), Reply::Http(200, ok_body())],
    );
    let result = outcome.result;
    assert!(result.is_ok(), "Expected success after retry, got: {result:?}");
    assert_eq!(result.unwrap()["status"], "SUCCESS");
    assert_eq!(outcome.requests, 2);
    assert_eq!(outcome.delays, vec![Duration::from_millis(200)]);
}

#[test]
fn exhausts_retries_on_persistent_500() {
    // Two retries make three attempts in all.
    let client = make_client(2);
    let outcome = drive(
        client.get_latest_ledger(),
        &[Reply::Http(500, ""), Reply::Http(500, ""), Reply::Http(500, "")],
    );
    assert_eq!(outcome.requests, 3);
    assert_eq!(outcome.delays, vec![Duration::from_millis(200), Duration::from_millis(400)]);
    assert!(outcome.result.is_err(), "Expected error after retries exhausted");
    let err = message(outcome);
    assert!(
        err.contains("Server error") || err.contains("500"),
        "Error should mention the server error: {err}"
    );
    assert_eq!(err, "Server error 500 Internal Server Error on attempt 2");
}

#[test]
fn retries_on_503_service_unavailable() {
    let client = make_client(3);
    let outcome = drive(
        client.get_latest_ledger(),
        &[Reply::Http(503, ""), Reply::Http(503, ""), Reply::Http(200, ok_body())],
    );
    let result = outcome.result;
    assert!(result.is_ok(), "Expected success after retrying 503s, got: {result:?}");
    assert_eq!(outcome.requests, 3);
}

#[test]
fn retries_on_502_bad_gateway() {
    let client = make_client(3);
    let outcome = drive(
        client.get_latest_ledger(),
        &[Reply::Http(502, ""), Reply::Http(200, ok_body())],
    );
    let result = outcome.result;
    assert!(result.is_ok(), "Expected success after retrying 502, got: {result:?}");
    assert_eq!(outcome.requests, 2);
}

#[test]
fn retries_on_429_rate_limit() {
    let client = make_client(3);
    let outcome = drive(
        client.get_latest_ledger(),
        &[Reply::Http(429, ""), Reply::Http(200, ok_body())],
    );
    let result = outcome.result;
    assert!(result.is_ok(), "Expected success after retrying 429, got: {result:?}");
    assert_eq!(outcome.requests, 2);
}

#[test]
fn returns_immediately_on_jsonrpc_error_in_200() {
    let rpc_err = r#"{"jsonrpc":"2.0","id":1,"error":{"code":-32000,"message":"not found"}}"#;
    let client = make_client(3);
    let outcome = drive(client.get_latest_ledger(), &[Reply::Http(200, rpc_err)]);
    assert_eq!(outcome.requests, 1);
    assert!(outcome.delays.is_empty());
    assert!(outcome.result.is_err());
    let err = message(outcome);
    assert!(
        err.contains("not found"),
        "Error should propagate the JSON-RPC error message"
    );
    assert_eq!(err, "not found");
}

#[test]
fn persistent_429_names_the_last_attempt() {
    let client = make_client(3);
    let outcome = drive(client.get_latest_ledger(), &[Reply::Http(429, "")]);
    assert_eq!(outcome.requests, 4);
    assert_eq!(
        outcome.delays,
        vec![backoff_duration(1), backoff_duration(2), backoff_duration(3)]
    );
    assert_eq!(message(outcome), "Rate limited (attempt 3)");
}

#[test]
fn persistent_send_failure_gives_the_last_reason() {
    let client = make_client(1);
    let outcome = drive(
        client.get_latest_ledger(),
        &[Reply::Failed("timed out"), Reply::Failed("refused")],
    );
    assert_eq!(outcome.requests, 2);
    assert_eq!(message(outcome), "Request failed: refused");
}

#[test]
fn the_last_failure_decides_the_message() {
    let client = make_client(2);
    let outcome = drive(
        client.get_latest_ledger(),
        &[Reply::Failed("refused"), Reply::Http(429, ""), Reply::Http(599, "")],
    );
    assert_eq!(message(outcome), "Server error 599 <unknown status code> on attempt 2");
}

#[test]
fn no_retries_means_one_request() {
    let client = make_client(0);
    let outcome = drive(client.get_latest_ledger(), &[Reply::Http(500, "")]);
    assert_eq!(outcome.requests, 1);
    assert!(outcome.delays.is_empty());
    assert_eq!(message(outcome), "Server error 500 Internal Server Error on attempt 0");
}

#[test]
fn statuses_around_the_retried_ones_are_read() {
    for code in [100, 200, 302, 404, 428, 430, 499, 600, 999] {
        let client = make_client(3);
        let outcome = drive(client.get_latest_ledger(), &[Reply::Http(code, ok_body())]);
        assert_eq!(outcome.requests, 1);
        assert_eq!(outcome.result.unwrap()["status"], "SUCCESS");
    }
}

#[test]
fn an_unreadable_body_is_not_retried() {
    let client = make_client(3);
    let mut call = client.get_latest_ledger();
    assert!(matches!(call.on_event(Event::Start), Some(Action::Send)));
    assert!(matches!(call.on_event(Event::Responded(status(200))), Some(Action::ReadBody)));
    match call.on_event(Event::ReadFailed("connection reset".to_string())) {
        Some(Action::Return(Err(error))) => {
            assert_eq!(error.message(), "Response read error: connection reset")
        }
        other => panic!("{other:?}"),
    }
}

#[test]
fn an_unparsable_body_is_not_retried() {
    let client = make_client(3);
    let outcome = drive(client.get_latest_ledger(), &[Reply::Http(200, "")]);
    assert_eq!(outcome.requests, 1);
    assert_eq!(
        message(outcome),
        "Response parse error: EOF while parsing a value at line 1 column 0"
    );
}

#[test]
fn a_response_with_neither_result_nor_error_is_empty() {
    let client = make_client(3);
    let outcome =
        drive(client.get_latest_ledger(), &[Reply::Http(200, r#"{"jsonrpc":"2.0","id":1}"#)]);
    assert_eq!(message(outcome), "Empty response");
}

#[test]
fn an_error_outweighs_a_result() {
    let body = r#"{"jsonrpc":"2.0","id":1,"result":7,"error":{"code":1,"message":"no"}}"#;
    let client = make_client(3);
    let outcome = drive(client.get_latest_ledger(), &[Reply::Http(200, body)]);
    assert_eq!(message(outcome), "no");
}

#[test]
fn an_unexpected_event_changes_nothing() {
    let client = make_client(3);
    let mut call = client.get_latest_ledger();
    assert!(call.on_event(Event::Waited).is_none());
    assert!(call.on_event(Event::Responded(status(200))).is_none());
    assert_eq!(call.state(), CallState::Ready);
    assert!(matches!(call.on_event(Event::Start), Some(Action::Send)));
    assert!(call.on_event(Event::Start).is_none());
    assert!(call.on_event(Event::ReadFailed("early".to_string())).is_none());
    assert_eq!(call.state(), CallState::Sending { attempt: 0 });
}

#[test]
fn status_codes_run_from_100_to_999() {
    assert!(HttpStatus::from_u16(99).is_none());
    assert!(HttpStatus::from_u16(1000).is_none());
    assert_eq!(status(100).as_u16(), 100);
    assert_eq!(status(999).as_u16(), 999);
    assert!(status(429).is_rate_limit());
    assert!(!status(428).is_rate_limit());
    assert!(status(500).is_server_error() && status(599).is_server_error());
    assert!(!status(499).is_server_error() && !status(600).is_server_error());
    assert_eq!(status(404).text(), "404 Not Found");
    assert_eq!(status(799).text(), "799 <unknown status code>");
}
