//! The abort primitive: a shared reset cell with a stored waker.
//!
//! Each inbound call gets one cell, held behind vstd's verified
//! reader-writer lock and shared between the call registry and the
//! [`AbortController`] handed to the caller. The receive loop trips the cell
//! when the peer resets the call or the connection dies; a task that polls
//! the cell through its controller is woken and sees it ready. Every step
//! under the lock is verified code ([`ResetInner::reset`],
//! [`ResetInner::poll_step`]); the cell's state itself is shared across
//! tasks, so a contract can name *which* cell a handle reaches
//! ([`AbortController::cell_spec`]) but not what the cell holds at a later
//! moment.

use vstd::prelude::*;
use vstd::rwlock::{RwLock, RwLockPredicate};

use std::sync::Arc;

verus! {

/// Declares std's `Waker` so it can stand in fields and signatures; its
/// value stays opaque.
#[verifier::external_type_specification]
#[verifier::external_body]
pub struct ExWaker(core::task::Waker);

/// Relies on std's `Waker::clone`: another handle that wakes the same task.
pub assume_specification[ <core::task::Waker as Clone>::clone ](w: &core::task::Waker) -> (r:
    core::task::Waker);

/// Relies on std's `Waker::wake_by_ref`: wakes the task behind the waker.
pub assume_specification[ core::task::Waker::wake_by_ref ](w: &core::task::Waker);

/// The reset state of one call: whether it has been reset, and the waker of
/// the task awaiting that reset, if any.
pub struct ResetInner {
    is_reset: bool,
    waker: Option<core::task::Waker>,
}

impl ResetInner {
    /// Whether this state has been reset.
    pub closed spec fn is_reset_spec(&self) -> bool {
        self.is_reset
    }

    /// Whether a waker is stored in this state.
    pub closed spec fn has_waker(&self) -> bool {
        self.waker is Some
    }

    /// A fresh state: not reset, no waker stored.
    pub fn new() -> (r: ResetInner)
        ensures
            !r.is_reset_spec(),
            !r.has_waker(),
    {
        ResetInner { is_reset: false, waker: None }
    }

    /// Marks the state reset and wakes the stored waker, if any.
    pub fn reset(&mut self)
        ensures
            final(self).is_reset_spec(),
            final(self).has_waker() == old(self).has_waker(),
    {
        self.is_reset = true;
        if let Some(w) = &self.waker {
            w.wake_by_ref();
        }
    }

    /// One poll step: reports whether the state is already reset; if it is
    /// not, stores the given waker so that a later reset wakes it. Re-polls
    /// replace the stored waker.
    pub fn poll_step(&mut self, w: &core::task::Waker) -> (r: bool)
        ensures
            r == old(self).is_reset_spec(),
            final(self).is_reset_spec() == old(self).is_reset_spec(),
            !r ==> final(self).has_waker(),
            r ==> *final(self) == *old(self),
    {
        if self.is_reset {
            true
        } else {
            self.waker = Some(w.clone());
            false
        }
    }
}

/// The lock predicate of a reset cell: every state may be stored. The
/// meaningful transitions are the verified steps that the crate's own code
/// performs under the lock.
pub struct ResetPred;

impl RwLockPredicate<ResetInner> for ResetPred {
    open spec fn inv(self, v: ResetInner) -> bool {
        true
    }
}

/// A shared handle to the reset state of one call, behind a verified lock.
pub type ResetShared = Arc<RwLock<ResetInner, ResetPred>>;

/// Relies on std's `Arc::clone`: the result is another handle to the same
/// allocation, indistinguishable from the original (the same equality that
/// vstd's `Arc::new` specification uses).
#[verifier::external_body]
pub(crate) fn share_cell(cell: &ResetShared) -> (r: ResetShared)
    ensures
        r == *cell,
{
    Arc::clone(cell)
}

/// Trips a shared cell: one verified [`ResetInner::reset`] step under the
/// cell's lock, so the state read back out is marked reset and any stored
/// waker has been woken.
pub(crate) fn trip_cell(cell: &ResetShared) {
    let (mut state, handle) = cell.acquire_write();
    state.reset();
    proof {
        assert(state.is_reset_spec());
    }
    handle.release_write(state);
}

/// A handle over the shared reset cell of one inbound call. It becomes
/// ready when the peer resets the call or the connection is torn down.
pub struct AbortController {
    inner: ResetShared,
}

impl AbortController {
    /// The shared cell this controller watches; the registry entry created
    /// for the call holds the same cell.
    pub closed spec fn cell_spec(&self) -> ResetShared {
        self.inner
    }

    /// A fresh controller over a fresh cell holding [`ResetInner::new`]'s
    /// un-reset state.
    pub fn new() -> (r: AbortController) {
        AbortController { inner: Arc::new(RwLock::new(ResetInner::new(), Ghost(ResetPred))) }
    }

    /// Another handle to this controller's cell, for the registry.
    pub(crate) fn handle(&self) -> (r: ResetShared)
        ensures
            r == self.cell_spec(),
    {
        share_cell(&self.inner)
    }

    /// One poll: runs one verified [`ResetInner::poll_step`] on the shared
    /// cell under its lock — true when the cell has been reset; otherwise
    /// the waker is stored, replacing any earlier one, and the next reset
    /// wakes it. The cell is shared across tasks, so its state at the step
    /// is not a function of the controller; what the step does to it is the
    /// contract of `poll_step`.
    pub fn poll_reset(&mut self, waker: &core::task::Waker) -> (r: bool)
        ensures
            final(self).cell_spec() == old(self).cell_spec(),
    {
        let (mut state, handle) = self.inner.acquire_write();
        let r = state.poll_step(waker);
        handle.release_write(state);
        r
    }

    /// Whether the cell is reset at this moment; the cell is shared, so the
    /// answer can age immediately.
    pub fn is_reset(&self) -> (r: bool) {
        let handle = self.inner.acquire_read();
        let r = handle.borrow().is_reset;
        handle.release_read();
        r
    }
}

} // verus!
