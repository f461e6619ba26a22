//! A bidirectional, message-oriented RPC layer for a full-duplex binary
//! transport (a WebSocket connection after the HTTP upgrade).
//!
//! The crate multiplexes two kinds of interactions on one connection:
//! notifications (fire-and-forget events) and calls (request/response with a
//! peer-chosen identifier), plus a reset signal that lets the peer cancel an
//! in-flight call. The binary frame codec, the per-connection event handling
//! with its call registry, and the upgrade handshake checks are verified; the
//! asynchronous transport plumbing stays outside this crate.

pub mod abort;
pub mod codec;
pub mod error;
pub mod frame;
pub mod registry;
pub mod session;
pub mod upgrade;
pub mod wire;

pub use abort::AbortController;
pub use codec::{Decoded, Request};
pub use session::{RecvError, SessionCore, SessionEvent, Step, TransportEvent};
