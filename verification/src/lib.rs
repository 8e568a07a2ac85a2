//! Decision logic of a clustered WebSocket gateway and of the workers behind it.
//!
//! The gateway keeps a directory of which instance owns which connection,
//! routes server-originated messages to the owner, and hands client payloads
//! to a durable work queue; workers pick a destination for each payload.
//! Everything here works on plain values: sockets, the key-value store, the
//! bus and HTTP are driven by the embedding program, which performs the
//! actions these functions return and reports back what happened.

pub mod bus;
pub mod context;
pub mod error;
pub mod http;
pub mod ident;
pub mod laws;
pub mod queue;
pub mod text;
pub mod gateway;
pub mod worker;
