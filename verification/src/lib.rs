//! The engine of a forward HTTP proxy: an incremental, zero-copy parser for
//! HTTP requests and responses, and a poll-driven connection state machine
//! that answers a request, opens a tunnel for `CONNECT`, and relays bytes
//! between the two ends of the tunnel.

pub mod connection;
pub mod fault;
pub mod http;
pub mod outbox;
pub mod parser;
pub mod prefix;
pub mod relay;
pub mod request;
pub mod response;
pub mod spans;
pub mod stream;
