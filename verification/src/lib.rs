//! The core of a JSON-RPC 2.0 reverse proxy: what a proxy decides between
//! its clients and one upstream node, with the decisions proved.
//!
//! A call of a client passes four middlewares in turn, and the first that
//! answers it ends its way ([`generic_proxy`]):
//!
//! - [`permissioning`] denies the methods that the policy denies;
//! - [`simple_cache`] answers from the cache while an entry is fresh;
//! - [`accounts`] rewrites calls to send a transaction, so that the
//!   transaction is signed with the local key ([`transaction`]);
//! - [`upstream`] routes what is left to the upstream transport.
//!
//! All clients share one connection to upstream
//! ([`upstream::connection`], as [`ws_upstream`] or [`ipc_upstream`]):
//! responses are matched to requests by the request id, notifications to
//! client sessions by the subscription id, and a session that goes away
//! unsubscribes from what it had subscribed to.
//!
//! The library does no input or output. It decides: the caller reads and
//! writes the frames, keeps time and the sinks of the responses, and turns
//! text into the values of [`rpc`] and back.

pub mod accounts;
pub mod canonical;
pub mod cli;
pub mod cli_params;
pub mod generic_proxy;
pub mod ipc_upstream;
pub mod permissioning;
pub mod proxy;
pub mod pubsub;
pub mod rpc;
pub mod simple_cache;
pub mod table;
pub mod text;
pub mod transaction;
pub mod transports;
pub mod upstream;
pub mod ws_upstream;
