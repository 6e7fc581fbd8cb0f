use prism_rpc::call::{Action, CallState, Event, RpcCall};
use prism_rpc::client::RpcClient;
use prism_rpc::config::{Network, NetworkConfig};
use serde_json::Value;

fn client() -> RpcClient {
    RpcClient::new(NetworkConfig {
        network: Network::Custom,
        rpc_url: "http://localhost:8000".to_string(),
        network_passphrase: "test".to_string(),
        archive_urls: vec![],
    })
}

fn json(text: &str) -> Value {
    serde_json::from_str(text).unwrap()
}

fn check(call: &RpcCall, method: &str, params: &str) {
    assert_eq!(call.endpoint(), "http://localhost:8000");
    assert_eq!(call.state(), CallState::Ready);
    assert_eq!(call.request().jsonrpc, "2.0");
    assert_eq!(call.request().id, 1);
    assert_eq!(call.request().method, method);
    assert_eq!(call.request().params, json(params));
}

#[test]
fn new_client_retries_three_times_and_waits_thirty_seconds() {
    let client = client();
    assert_eq!(client.max_retries, 3);
    assert_eq!(client.timeout_secs, 30);
    assert_eq!(client.config.rpc_url, "http://localhost:8000");
    assert_eq!(client.config.network, Network::Custom);
    assert_eq!(client.config.network_passphrase, "test");
    assert!(client.config.archive_urls.is_empty());
}

#[test]
fn get_transaction_sends_the_hash() {
    let client = client();
    check(&client.get_transaction("abc123"), "getTransaction", r#"{"hash":"abc123"}"#);
}

#[test]
fn simulate_transaction_sends_the_transaction() {
    let client = client();
    check(
        &client.simulate_transaction("AAAA=="),
        "simulateTransaction",
        r#"{"transaction":"AAAA=="}"#,
    );
}

#[test]
fn get_ledger_entries_sends_the_keys_in_order() {
    let client = client();
    let keys = vec!["b".to_string(), "a".to_string(), "b".to_string()];
    check(&client.get_ledger_entries(&keys), "getLedgerEntries", r#"{"keys":["b","a","b"]}"#);
    check(&client.get_ledger_entries(&[]), "getLedgerEntries", r#"{"keys":[]}"#);
}

#[test]
fn get_events_sends_the_start_ledger_and_the_filters() {
    let client = client();
    check(
        &client.get_events(4_294_967_295, json(r#"[{"type":"contract","limit":1.5}]"#)),
        "getEvents",
        r#"{"startLedger":4294967295,"filters":[{"type":"contract","limit":1.5}]}"#,
    );
}

#[test]
fn get_latest_ledger_sends_an_empty_object() {
    let client = client();
    check(&client.get_latest_ledger(), "getLatestLedger", "{}");
}

#[test]
fn call_sends_the_given_method_and_params() {
    let client = client();
    check(&client.call("getHealth", json("[1,null]")), "getHealth", "[1,null]");
}

#[test]
fn the_request_is_the_same_for_every_attempt() {
    let client = client();
    let mut call = client.get_transaction("abc123");
    assert!(matches!(call.on_event(Event::Start), Some(Action::Send)));
    assert!(matches!(
        call.on_event(Event::SendFailed("refused".to_string())),
        Some(Action::Sleep(_))
    ));
    assert!(matches!(call.on_event(Event::Waited), Some(Action::Send)));
    assert_eq!(call.state(), CallState::Sending { attempt: 1 });
    assert_eq!(call.endpoint(), "http://localhost:8000");
    assert_eq!(call.request().method, "getTransaction");
    assert_eq!(call.request().params, json(r#"{"hash":"abc123"}"#));
}
