//! An embeddable HTTP client engine: a host application owns opaque handles
//! and drives request/response lifecycles through a small set of entry
//! points. This crate holds the verified core — the per-request asynchronous
//! lifecycle state machine, the client configuration surface and its sealing
//! decisions, and the outbound-body and cancellation plumbing — while the
//! caller supplies the executor loop, the TLS stack assembly and the
//! call-boundary glue around it.

pub mod client;
pub mod dispatch;
pub mod primitives;
pub mod request;
pub mod runtime;
