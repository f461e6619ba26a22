//! The per-connection event core: one step of the receive loop.
//!
//! The asynchronous loop outside this crate awaits the next transport event,
//! translates it into a [`TransportEvent`], and hands it to
//! [`SessionCore::handle_event`], which decodes frames, reassembles
//! fragmented messages, keeps the call registry, and says what the loop must
//! do next: yield an event to the caller, enqueue a pong, continue, or
//! return an error after tearing every outstanding call down.

use vstd::prelude::*;

use crate::abort::{AbortController, ResetShared};
use crate::codec::{decode, spec_parse_frame, DecodeError, Decoded, FrameSpec, Request, push_bytes};
use crate::error::ConnClose;
use crate::registry::CallRegistry;

verus! {

/// One event of the underlying message-oriented transport, as plain values.
pub enum TransportEvent {
    /// A complete binary message.
    Complete(Vec<u8>),
    /// One fragment of a streamed message, not the last.
    Fragment(Vec<u8>),
    /// The last fragment of a streamed message.
    FragmentEnd(Vec<u8>),
    /// A transport-level ping carrying a payload to echo.
    Ping(Vec<u8>),
    /// A transport-level pong; ignored.
    Pong(Vec<u8>),
    /// The transport failed.
    Failed,
    /// The peer closed the connection with a code and a reason.
    Closed(u16, String),
}

/// Why the receive loop ends.
pub enum RecvError {
    /// A transport-level error on the stream.
    ConnectionReset,
    /// The peer closed the connection; carries its code and reason.
    ConnectionAborted(ConnClose),
    /// An inbound frame did not decode.
    InvalidData(DecodeError),
}

/// A logical event for the caller of the receive loop.
pub enum SessionEvent {
    /// A one-way notification.
    Notify(Request),
    /// A call request: the request, its peer-chosen id, and the controller
    /// that becomes ready if the peer resets the call.
    Call(Request, u32, AbortController),
}

/// What the receive loop must do after one transport event.
pub enum Step {
    /// Yield this event to the caller.
    Event(SessionEvent),
    /// Enqueue a pong with this payload, then continue.
    Pong(Vec<u8>),
    /// Nothing to surface; continue.
    Nothing,
    /// Every outstanding call has been tripped; return this error.
    Disconnect(RecvError),
}

/// The state one connection keeps between transport events: the registry of
/// outstanding calls and the reassembly buffer for fragmented messages.
pub struct SessionCore {
    registry: CallRegistry,
    acc: Vec<u8>,
}

/// The two states have the same outstanding calls, each keeping its cell.
pub open spec fn calls_unchanged(pre: SessionCore, post: SessionCore) -> bool {
    &&& forall|x: u32| post.has_call(x) == pre.has_call(x)
    &&& forall|x: u32| pre.has_call(x) ==> post.call_cell(x) == pre.call_cell(x)
}

/// The two states have the same outstanding calls and cells, except that
/// this id is gone.
pub open spec fn call_removed(pre: SessionCore, post: SessionCore, id: u32) -> bool {
    &&& !post.has_call(id)
    &&& forall|x: u32| x != id ==> post.has_call(x) == pre.has_call(x)
    &&& forall|x: u32| x != id && pre.has_call(x) ==> post.call_cell(x) == pre.call_cell(x)
}

/// What processing one complete message buffer does: which step comes out
/// and how the set of outstanding calls changes.
pub open spec fn message_step(pre: SessionCore, post: SessionCore, bytes: Seq<u8>, r: Step) -> bool {
    match spec_parse_frame(bytes) {
        Ok(f) => match f {
            FrameSpec::Notify { name, payload } => {
                &&& r matches Step::Event(SessionEvent::Notify(req)) && req.wf()
                    && req.method_spec() == name && req.data_spec() == payload
                &&& calls_unchanged(pre, post)
            },
            FrameSpec::Call { name, id, payload } => {
                &&& r matches Step::Event(SessionEvent::Call(req, rid, c)) && req.wf()
                    && req.method_spec() == name && req.data_spec() == payload && rid == id
                    && post.call_cell(id) == c.cell_spec()
                &&& post.has_call(id)
                &&& forall|x: u32| x != id ==> post.has_call(x) == pre.has_call(x)
                &&& forall|x: u32|
                    x != id && pre.has_call(x) ==> post.call_cell(x) == pre.call_cell(x)
            },
            FrameSpec::Reset { id } => {
                &&& r is Nothing
                &&& call_removed(pre, post, id)
            },
        },
        Err(e) => {
            &&& r == Step::Disconnect(RecvError::InvalidData(e))
            &&& forall|x: u32| !post.has_call(x)
        },
    }
}

impl SessionCore {
    /// Whether a call with this id is outstanding.
    pub closed spec fn has_call(&self, id: u32) -> bool {
        self.registry.contains_spec(id)
    }

    /// The reset cell registered for this call; the controller yielded for
    /// the call watches the same cell.
    pub closed spec fn call_cell(&self, id: u32) -> ResetShared {
        self.registry.cell_for(id)
    }

    /// The reassembly buffer for a fragmented message in flight.
    pub closed spec fn acc_spec(&self) -> Seq<u8> {
        self.acc@
    }

    /// Well-formedness of the registry.
    pub closed spec fn wf(&self) -> bool {
        self.registry.wf()
    }

    /// A fresh connection state: no outstanding call, empty buffer.
    pub fn new() -> (r: SessionCore)
        ensures
            r.wf(),
            forall|x: u32| !r.has_call(x),
            r.acc_spec().len() == 0,
    {
        SessionCore { registry: CallRegistry::new(), acc: Vec::new() }
    }

    /// Whether a call with this id is outstanding.
    pub fn contains_call(&self, id: u32) -> (r: bool)
        ensures
            r == self.has_call(id),
    {
        self.registry.contains(id)
    }

    /// Removes the registry entry of this call without tripping it. The
    /// response handle of a call does this when it is sent or dropped.
    pub fn remove_call(&mut self, id: u32)
        requires
            old(self).wf(),
        ensures
            final(self).wf(),
            call_removed(*old(self), *final(self), id),
            final(self).acc_spec() == old(self).acc_spec(),
    {
        let _ = self.registry.remove(id);
    }

    /// Decodes one complete message and applies its effect: yield a
    /// notification or a freshly registered call, consume a reset (tripping
    /// and removing that call), or tear everything down on a decode error.
    fn process_message(&mut self, data: Vec<u8>) -> (r: Step)
        requires
            old(self).wf(),
        ensures
            final(self).wf(),
            message_step(*old(self), *final(self), data@, r),
            final(self).acc_spec() == old(self).acc_spec(),
    {
        match decode(data) {
            Ok(Decoded::Notify(req)) => Step::Event(SessionEvent::Notify(req)),
            Ok(Decoded::Call(req, id)) => {
                let controller = AbortController::new();
                self.registry.register(id, controller.handle());
                Step::Event(SessionEvent::Call(req, id, controller))
            },
            Ok(Decoded::Reset(id)) => {
                let _ = self.registry.trip(id);
                Step::Nothing
            },
            Err(e) => {
                self.registry.trip_all();
                Step::Disconnect(RecvError::InvalidData(e))
            },
        }
    }

    /// One step of the receive loop. Complete messages are decoded;
    /// fragments accumulate until the last one, and the reassembled buffer
    /// is decoded whole; a ping asks for exactly one pong with the same
    /// payload; a transport failure or a peer close trips every outstanding
    /// call before the error is returned.
    pub fn handle_event(&mut self, ev: TransportEvent) -> (r: Step)
        requires
            old(self).wf(),
        ensures
            final(self).wf(),
            ({
                let pre = *old(self);
                let post = *final(self);
                match ev {
                    TransportEvent::Complete(data) => message_step(pre, post, data@, r)
                        && post.acc_spec() == pre.acc_spec(),
                    TransportEvent::Fragment(data) => r is Nothing && post.acc_spec()
                        == pre.acc_spec() + data@ && calls_unchanged(pre, post),
                    TransportEvent::FragmentEnd(data) => message_step(
                        pre,
                        post,
                        pre.acc_spec() + data@,
                        r,
                    ) && post.acc_spec().len() == 0,
                    TransportEvent::Ping(p) => (r matches Step::Pong(q) && q@ == p@)
                        && post.acc_spec() == pre.acc_spec() && calls_unchanged(pre, post),
                    TransportEvent::Pong(_) => r is Nothing && post.acc_spec() == pre.acc_spec()
                        && calls_unchanged(pre, post),
                    TransportEvent::Failed => r == Step::Disconnect(RecvError::ConnectionReset)
                        && (forall|x: u32| !post.has_call(x)),
                    TransportEvent::Closed(code, reason) => (r matches Step::Disconnect(
                        RecvError::ConnectionAborted(cc),
                    ) && cc.code == code && cc.reason@ == reason@) && (forall|x: u32|
                        !post.has_call(x)),
                }
            }),
    {
        match ev {
            TransportEvent::Complete(data) => self.process_message(data),
            TransportEvent::Fragment(data) => {
                push_bytes(&mut self.acc, data.as_slice());
                Step::Nothing
            },
            TransportEvent::FragmentEnd(data) => {
                push_bytes(&mut self.acc, data.as_slice());
                let mut whole: Vec<u8> = Vec::new();
                core::mem::swap(&mut whole, &mut self.acc);
                self.process_message(whole)
            },
            TransportEvent::Ping(p) => Step::Pong(p),
            TransportEvent::Pong(_) => Step::Nothing,
            TransportEvent::Failed => {
                self.registry.trip_all();
                Step::Disconnect(RecvError::ConnectionReset)
            },
            TransportEvent::Closed(code, reason) => {
                self.registry.trip_all();
                Step::Disconnect(RecvError::ConnectionAborted(ConnClose { code, reason }))
            },
        }
    }
}

} // verus!
