//! Verified core of a network throughput benchmarking tool.
//!
//! A client streams a payload to one or more destinations over a pluggable
//! transport; a server accepts connections and measures the incoming data
//! rate. This library holds the transport-independent logic — the statistics
//! model, the chunked-transfer and reporting state machines, the aggregator,
//! and the orchestration decisions — each with a proved contract. The
//! sockets, threads and console output that drive these state machines live
//! outside the library.

pub mod aggregate;
pub mod engines;
pub mod errors;
pub mod orchestrate;
pub mod reader;
pub mod runloop;
pub mod stats;
pub mod tcp;
pub mod text;
pub mod transfer;
pub mod zmq;
