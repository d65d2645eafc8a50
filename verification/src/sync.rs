//! The Completion Synchronizer: the state machine that takes the staging
//! buffer from "written by the device" to "safely readable by the host".
//! Commands are submitted, a host mapping of the staging buffer is requested
//! with a one-shot completion signal attached, the device is driven to make
//! progress, and only once the signal has fired does the buffer become
//! mapped. Every transition is gated on the machine being in the one state
//! the transition leaves, so no step can run out of order.

use vstd::prelude::*;
use crate::buffer::{DeviceBuffer, MapState};
use crate::commands::CommandSequence;
use crate::error::RunError;

verus! {

/// What has become of a one-shot completion signal's producer side.
#[derive(Clone, Copy, Debug, PartialEq, Eq, Structural)]
pub enum SignalState {
    /// Nothing has fired yet; the waiter may not resume.
    Pending,
    /// The mapping resolved successfully.
    Ready,
    /// The mapping resolved with an error.
    Failed,
    /// The producer was dropped without firing; nothing will ever arrive.
    Abandoned,
}

/// A single-fire, single-consumer completion signal, correlated with exactly
/// one mapping request. It can fire at most once, and what fired can be
/// consumed at most once: double-fire and double-consumption are ruled out
/// by the preconditions, not by runtime checks.
pub struct CompletionSignal {
    state: SignalState,
    consumed: bool,
}

impl CompletionSignal {
    /// Where the signal stands: unfired, fired one way or the other, or
    /// abandoned.
    pub closed spec fn signal(&self) -> SignalState {
        self.state
    }

    /// Whether the consumer has already taken the outcome.
    pub closed spec fn is_consumed(&self) -> bool {
        self.consumed
    }

    /// A fresh, unfired signal.
    pub fn new() -> (r: CompletionSignal)
        ensures
            r.signal() == SignalState::Pending,
            !r.is_consumed(),
    {
        CompletionSignal { state: SignalState::Pending, consumed: false }
    }

    /// The producer fires the signal with success: the device completed all
    /// work touching the mapped buffer. A signal fires at most once.
    pub fn fire_success(&mut self)
        requires
            old(self).signal() == SignalState::Pending,
        ensures
            final(self).signal() == SignalState::Ready,
            final(self).is_consumed() == old(self).is_consumed(),
    {
        self.state = SignalState::Ready;
    }

    /// The producer fires the signal with an error: the mapping request
    /// resolved, but not with success.
    pub fn fire_failure(&mut self)
        requires
            old(self).signal() == SignalState::Pending,
        ensures
            final(self).signal() == SignalState::Failed,
            final(self).is_consumed() == old(self).is_consumed(),
    {
        self.state = SignalState::Failed;
    }

    /// The producer goes away without ever firing: the signal is abandoned
    /// and no outcome will arrive.
    pub fn abandon(&mut self)
        requires
            old(self).signal() == SignalState::Pending,
        ensures
            final(self).signal() == SignalState::Abandoned,
            final(self).is_consumed() == old(self).is_consumed(),
    {
        self.state = SignalState::Abandoned;
    }

    /// Marks the outcome as taken.
    fn mark_consumed(&mut self)
        ensures
            final(self).is_consumed(),
            final(self).signal() == old(self).signal(),
    {
        self.consumed = true;
    }

    /// The fired outcome, for the consumer to branch on.
    fn state_snapshot(&self) -> (r: SignalState)
        ensures
            r == self.signal(),
    {
        self.state
    }
}

/// The states of the completion protocol, in the order the protocol visits
/// them.
#[derive(Clone, Copy, Debug, PartialEq, Eq, Structural)]
pub enum SyncState {
    /// Nothing submitted yet.
    Idle,
    /// The sealed command sequence has been handed to the work queue.
    Submitted,
    /// A host mapping of the staging buffer has been requested.
    MapRequested,
    /// The device is being driven to make progress and run callbacks.
    DevicePolling,
    /// The completion signal fired with success; the waiter has resumed.
    SignalReceived,
    /// The staging buffer's bytes are safely host-readable.
    Mapped,
}

/// The host side of the completion protocol. The one field is private, so
/// the only way through the protocol is the methods below, each of which
/// requires the machine to stand exactly one step earlier.
pub struct Synchronizer {
    state: SyncState,
}

impl Synchronizer {
    /// Where the protocol stands.
    pub closed spec fn state(&self) -> SyncState {
        self.state
    }

    /// A fresh synchronizer, before anything was submitted.
    pub fn new() -> (r: Synchronizer)
        ensures
            r.state() == SyncState::Idle,
    {
        Synchronizer { state: SyncState::Idle }
    }

    /// Hands the sealed command sequence to the work queue. Fire-and-forget:
    /// nothing blocks, completion is asynchronous relative to submission.
    pub fn submit(&mut self, sequence: &CommandSequence)
        requires
            old(self).state() == SyncState::Idle,
        ensures
            final(self).state() == SyncState::Submitted,
    {
        self.state = SyncState::Submitted;
    }

    /// Issues the asynchronous host-read mapping request against the staging
    /// buffer and registers a fresh one-shot completion signal for it. Only
    /// one request may be outstanding per buffer: if the buffer is not
    /// device-visible — a request is already pending, or it is still mapped —
    /// the request is rejected and nothing changes.
    pub fn request_map(&mut self, staging: &mut DeviceBuffer) -> (r: Result<
        CompletionSignal,
        RunError,
    >)
        requires
            old(self).state() == SyncState::Submitted,
            old(staging).usage().map_read,
        ensures
            r is Ok <==> old(staging).state() == MapState::Unmapped,
            r is Ok ==> final(self).state() == SyncState::MapRequested && final(staging).state()
                == MapState::MapRequested && r.unwrap().signal() == SignalState::Pending
                && !r.unwrap().is_consumed(),
            r is Err ==> r == Err::<CompletionSignal, RunError>(RunError::MappingFailed)
                && final(self).state() == old(self).state()
                && final(staging).state() == old(staging).state(),
            final(staging).bytes() == old(staging).bytes(),
            final(staging).usage() == old(staging).usage(),
    {
        match staging.request_map_read() {
            Ok(()) => {
                self.state = SyncState::MapRequested;
                Ok(CompletionSignal::new())
            },
            Err(e) => Err(e),
        }
    }

    /// Drives the device to make forward progress on pending submissions and
    /// to dispatch ready completion callbacks. Returns whether the caller
    /// must drive the device explicitly: where the host environment polls
    /// the event loop itself, the explicit step is skipped so progress is
    /// never double-driven.
    pub fn poll_device(&mut self, implicit_polling: bool) -> (explicit_drive: bool)
        requires
            old(self).state() == SyncState::MapRequested,
        ensures
            final(self).state() == SyncState::DevicePolling,
            explicit_drive == !implicit_polling,
    {
        self.state = SyncState::DevicePolling;
        !implicit_polling
    }

    /// Resumes the waiter with the signal's outcome and consumes it. The
    /// waiter can only resume once the signal has fired or been abandoned —
    /// a pending signal means the wait goes on. Success advances the
    /// protocol; a failed mapping or an abandoned signal fails the whole
    /// operation with the matching error.
    pub fn receive_signal(&mut self, signal: &mut CompletionSignal) -> (r: Result<(), RunError>)
        requires
            old(self).state() == SyncState::DevicePolling,
            old(signal).signal() != SignalState::Pending,
            !old(signal).is_consumed(),
        ensures
            final(signal).is_consumed(),
            final(signal).signal() == old(signal).signal(),
            r is Ok <==> old(signal).signal() == SignalState::Ready,
            r is Ok ==> final(self).state() == SyncState::SignalReceived,
            old(signal).signal() == SignalState::Failed ==> r == Err::<(), RunError>(
                RunError::MappingFailed,
            ),
            old(signal).signal() == SignalState::Abandoned ==> r == Err::<(), RunError>(
                RunError::CompletionNeverSignaled,
            ),
            r is Err ==> final(self).state() == old(self).state(),
    {
        signal.mark_consumed();
        match signal.state_snapshot() {
            SignalState::Ready => {
                self.state = SyncState::SignalReceived;
                Ok(())
            },
            SignalState::Failed => Err(RunError::MappingFailed),
            _ => Err(RunError::CompletionNeverSignaled),
        }
    }

    /// The received signal guarantees all device work touching the staging
    /// buffer has completed: resolve the outstanding mapping, after which
    /// the bytes are host-readable.
    pub fn complete_mapping(&mut self, staging: &mut DeviceBuffer)
        requires
            old(self).state() == SyncState::SignalReceived,
            old(staging).state() == MapState::MapRequested,
        ensures
            final(self).state() == SyncState::Mapped,
            final(staging).state() == MapState::Mapped,
            final(staging).bytes() == old(staging).bytes(),
            final(staging).usage() == old(staging).usage(),
    {
        staging.complete_map();
        self.state = SyncState::Mapped;
    }
}

} // verus!
