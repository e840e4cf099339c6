//! Loader-side logic for a cross-process request protocol.
//!
//! The library holds everything that can be stated and proved about the
//! loader: the fixed 28-byte wire format shared with the target process, the
//! total classification of request codes, the request dispatch rules, the
//! handshake channel's capacity discipline, and the session state machine
//! that drives the event loop. The operating-system work around it (spawning
//! the target, the hidden window, reading and writing another process's
//! memory, the shared-memory segment itself) lives outside the library and
//! hands it plain values.

pub mod channel;
pub mod consts;
pub mod enums;
pub mod loader;
pub mod memory;
pub mod message;
