//! A transport-agnostic application interface: protocol adapters hand
//! connections to services through bidirectional streams of tagged
//! events, with a per-connection metadata scope shared along the chain.
//!
//! The heart of the crate is the event vocabulary ([`service`], [`http`],
//! [`websocket`]), the [`service::Service`] contract, the adapter state
//! machines that enforce protocol framing ([`http_adapter`],
//! [`websocket_adapter`]), and the routing and buffering middleware
//! ([`router`], [`buffer`], [`logger`]). Wire-level parsing, sockets and
//! TLS are outside collaborators: adapters exchange plain values with
//! them and enforce the framing here.

pub mod buffer;
pub mod headers;
pub mod hello;
pub mod http;
pub mod http_adapter;
pub mod logger;
pub mod response;
pub mod router;
pub mod service;
pub mod strutil;
pub mod websocket;
pub mod websocket_adapter;
