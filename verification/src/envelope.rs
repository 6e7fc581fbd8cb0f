//! JSON-RPC 2.0 requests and responses.

use crate::error::{PrismError, PrismResult};
use serde_json::Value;
use vstd::prelude::*;

verus! {

/// A JSON-RPC request.
#[derive(Debug)]
pub struct JsonRpcRequest<'a> {
    pub jsonrpc: &'a str,
    pub id: u64,
    pub method: &'a str,
    pub params: Value,
}

/// What a [`JsonRpcRequest`] asks.
pub struct RequestView {
    pub jsonrpc: Seq<char>,
    pub id: u64,
    pub method: Seq<char>,
    pub params: Value,
}

impl<'a> View for JsonRpcRequest<'a> {
    type V = RequestView;

    open spec fn view(&self) -> RequestView {
        RequestView {
            jsonrpc: self.jsonrpc@,
            id: self.id,
            method: self.method@,
            params: self.params,
        }
    }
}

/// The request that calls `method` with `params`: version 2.0, with the number 1.
pub open spec fn request_for(method: Seq<char>, params: Value) -> RequestView {
    RequestView { jsonrpc: "2.0"@, id: 1, method, params }
}

/// Every request says version 2.0 and the number 1, and carries the method and
/// the parameters that it was made for.
pub proof fn request_carries_method_and_params(method: Seq<char>, params: Value)
    ensures
        request_for(method, params).jsonrpc == "2.0"@,
        request_for(method, params).id == 1,
        request_for(method, params).method == method,
        request_for(method, params).params == params,
{
}

impl<'a> JsonRpcRequest<'a> {
    /// The request that calls `method` with `params`.
    pub fn new(method: &'a str, params: Value) -> (request: JsonRpcRequest<'a>)
        ensures
            request@ == request_for(method@, params),
            request.jsonrpc@ == "2.0"@,
            request.id == 1,
            request.method@ == method@,
            request.params == params,
    {
        JsonRpcRequest { jsonrpc: "2.0", id: 1, method, params }
    }
}

/// The error that a response carries.
#[derive(Debug)]
pub struct JsonRpcError {
    pub code: i64,
    pub message: String,
}

/// A JSON-RPC response.
#[derive(Debug)]
pub struct JsonRpcResponse {
    pub jsonrpc: String,
    pub id: u64,
    pub result: Option<Value>,
    pub error: Option<JsonRpcError>,
}

/// What a [`JsonRpcError`] says.
pub struct ErrorView {
    pub code: i64,
    pub message: Seq<char>,
}

impl View for JsonRpcError {
    type V = ErrorView;

    open spec fn view(&self) -> ErrorView {
        ErrorView { code: self.code, message: self.message@ }
    }
}

/// What a [`JsonRpcResponse`] says.
pub struct ResponseView {
    pub jsonrpc: Seq<char>,
    pub id: u64,
    pub result: Option<Value>,
    pub error: Option<ErrorView>,
}

impl View for JsonRpcResponse {
    type V = ResponseView;

    open spec fn view(&self) -> ResponseView {
        ResponseView {
            jsonrpc: self.jsonrpc@,
            id: self.id,
            result: self.result,
            error: match self.error {
                Some(error) => Some(error@),
                None => None,
            },
        }
    }
}

impl ResponseView {
    /// What a call returns that got this response: the message of its error where
    /// it has one, else its result, else that there was neither.
    pub open spec fn outcome(self) -> Result<Value, crate::error::PrismErrorView> {
        match (self.error, self.result) {
            (Some(error), _) => Err(crate::error::PrismErrorView::RpcError(error.message)),
            (None, Some(value)) => Ok(value),
            (None, None) => Err(crate::error::PrismErrorView::RpcError("Empty response"@)),
        }
    }
}

/// A response with an error fails with the message of that error, whatever else
/// it carries; one without gives its result; one with neither is empty.
pub proof fn response_outcome(response: ResponseView)
    ensures
        response.error matches Some(error) ==> response.outcome() == Err::<Value, _>(
            crate::error::PrismErrorView::RpcError(error.message),
        ),
        response.error is None ==> (response.result matches Some(value) ==> response.outcome()
            == Ok::<_, crate::error::PrismErrorView>(value)),
        response.error is None && response.result is None ==> response.outcome() == Err::<
            Value,
            _,
        >(crate::error::PrismErrorView::RpcError("Empty response"@)),
{
}

impl JsonRpcResponse {
    /// What a call returns that got this response.
    pub fn into_result(self) -> (result: PrismResult<Value>)
        ensures
            crate::error::result_view(result) == self@.outcome(),
            self.error matches Some(error) ==> (result matches Err(PrismError::RpcError(message))
                && message@ == error.message@),
            self.error is None ==> (self.result matches Some(value) ==> result == Ok::<
                Value,
                PrismError,
            >(value)),
            self.error is None && self.result is None ==> (result matches Err(
                PrismError::RpcError(message),
            ) && message@ == "Empty response"@),
    {
        if let Some(error) = self.error {
            return Err(PrismError::RpcError(error.message));
        }
        match self.result {
            Some(value) => Ok(value),
            None => Err(PrismError::RpcError("Empty response".to_owned())),
        }
    }
}

} // verus!
