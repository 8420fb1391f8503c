//! A verified client core for a raw TCP game-server status protocol.
//!
//! The crate covers the two parts of the system with real design content:
//! the binary wire codec that frames the fixed status request and decodes a
//! framed response into a typed [`record::ServerInfo`], and the per-cycle
//! poll orchestrator that tracks per-server health, applies a
//! failure-tolerance policy, and maintains retry-wait counters.  Network and
//! file I/O, argument parsing, and output serialization live outside the
//! library and hand it plain values.

pub mod args;
pub mod codec;
pub mod error;
pub mod json;
pub mod orchestrator;
pub mod record;
pub mod roundtrip;
pub mod schema;
pub mod schema_laws;
pub mod text;
pub mod wire;
