//! A control-plane responder for a service on a publish/subscribe transport.
//!
//! Subjects are dot-delimited. Those under the reserved control prefix carry
//! the discovery verbs `PING`, `INFO` and `STATS`; every other subject is a
//! business subject that is answered by one registered endpoint. The library
//! decides what to do with each inbound message and keeps the per-endpoint
//! invocation statistics; delivering messages and running the endpoint
//! handlers is left to the caller.

pub mod discovery;
pub mod identity;
pub mod json;
pub mod service;
pub mod stats;
pub mod subject;
pub mod text;
