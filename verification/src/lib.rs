//! A JSON-RPC client for Soroban RPC endpoints, without the input and output.
//!
//! The library builds the requests, decides after every reply whether to retry,
//! how long to wait and what to return, and proves those decisions. Sending,
//! sleeping and reading are left to whoever drives the [`call::RpcCall`].
#![allow(unused_imports)]

pub mod backoff;
pub mod call;
pub mod client;
pub mod config;
pub mod envelope;
pub mod error;
pub mod history;
pub mod json;
pub mod status;
pub mod text;
