//! Transport core of a client for Discord's local IPC protocol.
//!
//! The crate holds the parts of the client that decide and compute: the wire
//! format of a frame, the names of the endpoints that are probed, the messages
//! that open and end a session, and the connection lifecycle of a client. It
//! performs no I/O. A caller that owns the byte stream feeds the outcome of
//! each operation back in and is told what to do next.

pub mod client;
pub mod frame;
pub mod locator;
pub mod message;
pub mod runs;
