//! Client side ("outbound") of a QUIC proxy tunnel.
//!
//! The crate decides and the caller acts. Everything that can be computed from
//! plain values stands here as verified code: the TLS and QUIC configuration of
//! a client, the order in which an endpoint and a connection are brought up,
//! whether a connection may be used, and which request opens a stream. Sockets,
//! timers and tasks belong to the caller, who asks a value of this crate what
//! to do next, does it, and hands the answer back.

pub mod basic;
pub mod config;
pub mod endpoint;
pub mod error;
pub mod link;
pub mod msgs;
pub mod outbound;
pub mod quic;
pub mod session;
pub mod stream;
pub mod tuning;

