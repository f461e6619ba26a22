//! Error types surfaced by the RPC layer.

use vstd::prelude::*;

verus! {

/// Carries the status code and reason of a peer-initiated close event.
#[derive(Debug)]
pub struct ConnClose {
    /// Status code of the close event.
    pub code: u16,
    /// Reason for the close event.
    pub reason: String,
}

impl ConnClose {
    /// Human-readable message: the close reason.
    pub fn message(&self) -> (r: String)
        ensures
            r@ == self.reason@,
    {
        self.reason.clone()
    }
}

/// Errors that can occur when a notification is encoded and enqueued.
#[derive(Debug, Clone, Copy, PartialEq, Eq, Structural)]
pub enum NotifyError {
    /// The event name exceeds the allowed size (255 bytes).
    EventNameTooBig,
    /// The receiver half of the outbound queue has been closed.
    ReceiverClosed,
}

impl NotifyError {
    /// The message text for this error.
    pub open spec fn message_spec(&self) -> Seq<char> {
        match self {
            NotifyError::EventNameTooBig => "event name exceeds the allowed length."@,
            NotifyError::ReceiverClosed => "receiver is already closed."@,
        }
    }

    /// Human-readable message for this error.
    pub fn message(&self) -> (r: String)
        ensures
            r@ == self.message_spec(),
    {
        match self {
            NotifyError::EventNameTooBig => "event name exceeds the allowed length.".to_owned(),
            NotifyError::ReceiverClosed => "receiver is already closed.".to_owned(),
        }
    }
}

/// Indicates that the receiver half of the outbound queue is closed.
#[derive(Debug, Clone, Copy, PartialEq, Eq, Structural)]
pub struct ReceiverClosed;

impl ReceiverClosed {
    /// Human-readable message for this error.
    pub fn message(&self) -> (r: String)
        ensures
            r@ == "receiver is already closed."@,
    {
        "receiver is already closed.".to_owned()
    }
}

} // verus!
