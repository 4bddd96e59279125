//! Relay of live racing telemetry: a producer pushes tagged frames to a hub,
//! which fans them out to every registered viewer connection.
//!
//! The modules hold the decisions of each stage; the sockets, timers and the
//! JSON codec of the payloads live with the caller.

pub mod frame;
pub mod hub;
pub mod ingest;
pub mod ingress;
pub mod protocol;
pub mod viewer;
