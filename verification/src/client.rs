//! The client: which requests there are and how they are made.

use crate::call::{CallState, CallView, RpcCall};
use crate::config::NetworkConfig;
use crate::envelope::JsonRpcRequest;
use crate::json::{
    no_members, number_value, object_value, set_member, string_value, strings_value, Json,
};
use serde_json::Value;
use vstd::prelude::*;

verus! {

/// How often a new client retries.
pub const DEFAULT_MAX_RETRIES: u32 = 3;

/// How many seconds a new client waits for one reply.
pub const DEFAULT_TIMEOUT_SECS: u64 = 30;

/// A client of one network.
#[derive(Debug)]
pub struct RpcClient {
    /// The network.
    pub config: NetworkConfig,
    /// The greatest number of retries of one request.
    pub max_retries: u32,
    /// How many seconds one request may take.
    pub timeout_secs: u64,
}

impl RpcClient {
    /// The call of `method` with `params`, before its first event: it goes to the
    /// endpoint of the network and is retried as often as the client allows.
    pub open spec fn call_of(&self, method: Seq<char>, params: Value) -> CallView {
        CallView {
            endpoint: self.config.rpc_url@,
            request: crate::envelope::request_for(method, params),
            max_retries: self.max_retries,
            state: CallState::Ready,
        }
    }

    /// Whether `call` is a call of `method`, before its first event, whose
    /// parameters are the JSON object with exactly the members `params`.
    pub open spec fn is_call_of(
        &self,
        call: CallView,
        method: Seq<char>,
        params: Map<Seq<char>, Json>,
    ) -> bool {
        &&& call == self.call_of(method, call.request.params)
        &&& crate::json::json_of(call.request.params) == Json::Object(params)
    }

    /// A client of the given network, with three retries and a timeout of thirty
    /// seconds.
    pub fn new(config: NetworkConfig) -> (client: RpcClient)
        ensures
            client.config == config,
            client.max_retries == 3,
            client.timeout_secs == 30,
    {
        RpcClient {
            config,
            max_retries: DEFAULT_MAX_RETRIES,
            timeout_secs: DEFAULT_TIMEOUT_SECS,
        }
    }

    /// The call that fetches the transaction with the given hash.
    pub fn get_transaction(&self, tx_hash: &str) -> (call: RpcCall<'_>)
        ensures
            self.is_call_of(
                call@,
                "getTransaction"@,
                map!["hash"@ => Json::String(tx_hash@)],
            ),
            call@.endpoint == self.config.rpc_url@,
            call@.max_retries == self.max_retries,
            call@.state is Ready,
            call@.request.jsonrpc == "2.0"@,
            call@.request.id == 1,
            call@.request.method == "getTransaction"@,
            crate::json::json_of(call@.request.params) is Object,
            crate::json::json_of(call@.request.params)->Object_0.dom() =~= set!["hash"@],
            crate::json::json_of(call@.request.params)->Object_0["hash"@] == Json::String(tx_hash@),
    {
        let mut params = no_members();
        set_member(&mut params, "hash", string_value(tx_hash));
        self.call("getTransaction", object_value(params))
    }

    /// The call that simulates the given transaction.
    pub fn simulate_transaction(&self, tx_xdr: &str) -> (call: RpcCall<'_>)
        ensures
            self.is_call_of(
                call@,
                "simulateTransaction"@,
                map!["transaction"@ => Json::String(tx_xdr@)],
            ),
            call@.endpoint == self.config.rpc_url@,
            call@.max_retries == self.max_retries,
            call@.state is Ready,
            call@.request.jsonrpc == "2.0"@,
            call@.request.id == 1,
            call@.request.method == "simulateTransaction"@,
            crate::json::json_of(call@.request.params) is Object,
            crate::json::json_of(call@.request.params)->Object_0.dom() =~= set!["transaction"@],
            crate::json::json_of(call@.request.params)->Object_0["transaction"@] == Json::String(tx_xdr@),
    {
        let mut params = no_members();
        set_member(&mut params, "transaction", string_value(tx_xdr));
        self.call("simulateTransaction", object_value(params))
    }

    /// The call that fetches the ledger entries with the given keys.
    pub fn get_ledger_entries(&self, keys: &[String]) -> (call: RpcCall<'_>)
        ensures
            self.is_call_of(
                call@,
                "getLedgerEntries"@,
                map!["keys"@ => crate::json::strings_json(keys@)],
            ),
            call@.endpoint == self.config.rpc_url@,
            call@.max_retries == self.max_retries,
            call@.state is Ready,
            call@.request.jsonrpc == "2.0"@,
            call@.request.id == 1,
            call@.request.method == "getLedgerEntries"@,
            crate::json::json_of(call@.request.params) is Object,
            crate::json::json_of(call@.request.params)->Object_0.dom() =~= set!["keys"@],
            crate::json::json_of(call@.request.params)->Object_0["keys"@] is Array,
            crate::json::json_of(call@.request.params)->Object_0["keys"@]->Array_0.len() == keys@.len(),
            forall|i: int|
                0 <= i < keys@.len() ==> #[trigger] crate::json::json_of(call@.request.params)->Object_0["keys"@]->Array_0[i] == Json::String(keys@[i]@),
    {
        let mut params = no_members();
        set_member(&mut params, "keys", strings_value(keys));
        self.call("getLedgerEntries", object_value(params))
    }

    /// The call that fetches the events from a ledger on that match the filters.
    pub fn get_events(&self, start_ledger: u32, filters: Value) -> (call: RpcCall<'_>)
        ensures
            self.is_call_of(
                call@,
                "getEvents"@,
                map![
                    "startLedger"@ => Json::Integer(start_ledger as int),
                    "filters"@ => crate::json::json_of(filters),
                ],
            ),
            call@.endpoint == self.config.rpc_url@,
            call@.max_retries == self.max_retries,
            call@.state is Ready,
            call@.request.jsonrpc == "2.0"@,
            call@.request.id == 1,
            call@.request.method == "getEvents"@,
            crate::json::json_of(call@.request.params) is Object,
            crate::json::json_of(call@.request.params)->Object_0.dom() =~= set!["startLedger"@, "filters"@],
            crate::json::json_of(call@.request.params)->Object_0["startLedger"@] == Json::Integer(start_ledger as int),
            crate::json::json_of(call@.request.params)->Object_0["filters"@] == crate::json::json_of(filters),
    {
        proof {
            reveal_strlit("startLedger");
            reveal_strlit("filters");
            assert("startLedger"@.len() != "filters"@.len());
        }
        let mut params = no_members();
        set_member(&mut params, "startLedger", number_value(start_ledger));
        set_member(&mut params, "filters", filters);
        self.call("getEvents", object_value(params))
    }

    /// The call that fetches the latest ledger.
    pub fn get_latest_ledger(&self) -> (call: RpcCall<'_>)
        ensures
            self.is_call_of(call@, "getLatestLedger"@, Map::empty()),
            call@.endpoint == self.config.rpc_url@,
            call@.max_retries == self.max_retries,
            call@.state is Ready,
            call@.request.jsonrpc == "2.0"@,
            call@.request.id == 1,
            call@.request.method == "getLatestLedger"@,
            crate::json::json_of(call@.request.params) is Object,
            crate::json::json_of(call@.request.params)->Object_0.dom() =~= Set::empty(),
    {
        self.call("getLatestLedger", object_value(no_members()))
    }

    /// The call of `method` with `params`.
    pub fn call<'a>(&'a self, method: &'a str, params: Value) -> (call: RpcCall<'a>)
        ensures
            call@ == self.call_of(method@, params),
            call@.endpoint == self.config.rpc_url@,
            call@.max_retries == self.max_retries,
            call@.state is Ready,
            call@.request.jsonrpc == "2.0"@,
            call@.request.id == 1,
            call@.request.method == method@,
            call@.request.params == params,
    {
        RpcCall::new(
            self.config.rpc_url.as_str(),
            JsonRpcRequest::new(method, params),
            self.max_retries,
        )
    }
}

/// Every call of a client goes to the endpoint of its network, whatever else the
/// configuration holds, and may be retried as often as the client allows,
/// whatever its method and parameters.
pub proof fn calls_follow_the_client(client: RpcClient, method: Seq<char>, params: Value)
    ensures
        client.call_of(method, params).endpoint == client.config.rpc_url@,
        client.call_of(method, params).max_retries == client.max_retries,
        client.call_of(method, params).state is Ready,
        client.call_of(method, params).request.jsonrpc == "2.0"@,
        client.call_of(method, params).request.id == 1,
        client.call_of(method, params).request.method == method,
        client.call_of(method, params).request.params == params,
{
}

/// Two clients with the same endpoint and the same number of retries make the
/// same calls, whatever else tells them apart.
pub proof fn calls_depend_on_endpoint_and_retries_alone(
    one: RpcClient,
    other: RpcClient,
    method: Seq<char>,
    params: Value,
)
    requires
        one.config.rpc_url@ == other.config.rpc_url@,
        one.max_retries == other.max_retries,
    ensures
        one.call_of(method, params) == other.call_of(method, params),
{
}

/// A call of a method with given members is one that goes to the endpoint of the
/// network, may be retried as often as the client allows, has seen no event, and
/// carries version 2.0, the number 1, the method and exactly those members.
pub proof fn requests_follow_the_client(
    client: RpcClient,
    call: CallView,
    method: Seq<char>,
    params: Map<Seq<char>, Json>,
)
    ensures
        client.is_call_of(call, method, params) <==> {
            &&& call.endpoint == client.config.rpc_url@
            &&& call.max_retries == client.max_retries
            &&& call.state is Ready
            &&& call.request.jsonrpc == "2.0"@
            &&& call.request.id == 1
            &&& call.request.method == method
            &&& crate::json::json_of(call.request.params) == Json::Object(params)
        },
{
}

} // verus!
