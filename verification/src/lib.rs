//! A bidirectional relay between a subject-addressed message bus and a
//! partitioned, offset-committed log broker.
//!
//! Two symmetric forwarding directions share one subject name. Each
//! direction tags what it produces with a sentinel so the peer direction
//! recognises bridge-originated traffic and drops it instead of echoing
//! it back forever. This crate holds the relay decisions themselves:
//! which messages are suppressed, what is forwarded and in what shape,
//! how offsets relate to re-delivery after a crash, and how a fault in
//! one direction leaves the other untouched. The broker clients that
//! carry the traffic live outside it.

pub mod bridge;
pub mod config;
pub mod laws;
pub mod message;
pub mod relay;
