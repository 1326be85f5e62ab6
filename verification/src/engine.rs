//! True concurrent multi-transfer USB bulk reader.
//!
//! All transfers are submitted at once, and each completion resubmits the same transfer. A
//! [`TransferEngine`] decides, from what the USB library reported last, what is asked of it next:
//! from the allocation of the transfers over the event loop to the shutdown, in which every
//! transfer is cancelled, the outstanding completions are awaited and the transfers are freed.

use crate::error::{ErrorView, RtlsdrError};
use crate::stream::{AsyncReadHandle, ChunkView, StreamView};
use crate::transfer::TransferState;
use vstd::prelude::*;

verus! {

/// The bulk IN endpoint that the transfers read from.
pub const BULK_IN_ENDPOINT: u8 = 0x81;

/// How long a transfer may take, in milliseconds: without a limit, as the event loop controls
/// pacing.
pub const NO_TIMEOUT: u32 = 0;

/// How long one turn of the event loop waits, in milliseconds.
pub const POLL_MILLIS: u32 = 1000;

/// How long one turn of the event loop waits during the shutdown, in milliseconds.
pub const DRAIN_POLL_MILLIS: u32 = 100;

/// After so many turns the shutdown stops waiting for completions.
pub const DRAIN_LIMIT: u32 = 50;

/// What a bulk transfer is filled in with.
#[derive(Debug, Clone, Copy, PartialEq, Eq, Structural)]
pub struct BulkTransfer {
    /// Which of the transfers it is, and which of the buffers it reads into.
    pub index: usize,
    pub endpoint: u8,
    /// How many bytes it reads, at most: the length of its buffer.
    pub len: usize,
    pub timeout_millis: u32,
}

/// What is asked of the USB library.
#[derive(Debug, Clone, Copy, PartialEq, Eq, Structural)]
pub enum EngineAction {
    /// Allocate one more transfer, with a buffer of `len` bytes.
    Allocate { len: usize },
    /// Fill in a transfer like this and submit it.
    Submit(BulkTransfer),
    /// Handle events for up to `millis` milliseconds.
    Poll { millis: u32 },
    /// Cancel every transfer.
    CancelAll,
    /// Free the transfers that were allocated; there are so many.
    FreeAll(usize),
    /// Nothing is left to be done.
    Finished,
}

/// What the USB library did.
#[derive(Debug, Clone, Copy, PartialEq, Eq, Structural)]
pub enum EngineEvent {
    /// A transfer was allocated, or could not be.
    Allocated(bool),
    /// A transfer was submitted, with this return code.
    Submitted(i32),
    /// One turn of the event loop is over.
    Polled,
    /// Every transfer was cancelled.
    Cancelled,
    /// The transfers were freed.
    Freed,
}

#[derive(Debug, Clone, Copy, PartialEq, Eq, Structural)]
pub enum Phase {
    /// `done` transfers are allocated.
    Allocating { done: usize },
    /// An allocation failed after `done` transfers.
    Aborting { done: usize },
    /// The transfers before `next` were submitted, `submitted` of them with success.
    Submitting { next: usize, submitted: usize },
    Streaming,
    Cancelling,
    /// `turns` turns of the event loop were spent waiting for completions.
    Draining { turns: u32 },
    Freeing,
    Finished,
}

#[derive(Debug, Clone, Copy, PartialEq, Eq, Structural)]
pub struct TransferEngine {
    /// How many transfers there are.
    pub buf_num: usize,
    /// How many bytes the buffer of each of them holds.
    pub buf_len: usize,
    pub phase: Phase,
}

/// What the consumer is told when a transfer cannot be allocated.
pub open spec fn allocation_failed() -> ErrorView {
    ErrorView::Message("libusb_alloc_transfer failed"@)
}

impl TransferEngine {
    pub open spec fn wf(self) -> bool {
        match self.phase {
            Phase::Allocating { done } => done < self.buf_num,
            Phase::Aborting { done } => done < self.buf_num,
            Phase::Submitting { next, submitted } => next < self.buf_num && submitted <= next,
            Phase::Draining { turns } => turns < DRAIN_LIMIT,
            _ => true,
        }
    }

    /// An engine for `buf_num` transfers of `buf_len` bytes. With none there is nothing to stream.
    pub open spec fn fresh(buf_num: usize, buf_len: usize) -> TransferEngine {
        TransferEngine {
            buf_num,
            buf_len,
            phase: if buf_num == 0 {
                Phase::Freeing
            } else {
                Phase::Allocating { done: 0 }
            },
        }
    }

    /// What is asked of the USB library in each phase.
    pub open spec fn action_spec(self) -> EngineAction {
        match self.phase {
            Phase::Allocating { .. } => EngineAction::Allocate { len: self.buf_len },
            Phase::Aborting { done } => EngineAction::FreeAll(done),
            Phase::Submitting { next, .. } => EngineAction::Submit(
                BulkTransfer {
                    index: next,
                    endpoint: BULK_IN_ENDPOINT,
                    len: self.buf_len,
                    timeout_millis: NO_TIMEOUT,
                },
            ),
            Phase::Streaming => EngineAction::Poll { millis: POLL_MILLIS },
            Phase::Cancelling => EngineAction::CancelAll,
            Phase::Draining { .. } => EngineAction::Poll { millis: DRAIN_POLL_MILLIS },
            Phase::Freeing => EngineAction::FreeAll(self.buf_num),
            Phase::Finished => EngineAction::Finished,
        }
    }

    /// The shutdown waits until nothing is pending, but no longer than the limit.
    pub open spec fn drain_phase(pending: usize, turns: int) -> Phase {
        if pending == 0 || turns >= DRAIN_LIMIT {
            Phase::Freeing
        } else {
            Phase::Draining { turns: turns as u32 }
        }
    }

    /// The streaming ends when the stream was asked to stop or the device is lost.
    pub open spec fn shuts_down(
        self,
        state: TransferState,
        stop: bool,
        event: EngineEvent,
    ) -> bool {
        self.phase == Phase::Streaming && event == EngineEvent::Polled && (stop || state.dev_lost)
    }

    /// The phase that `event` leads to; an event that was not asked for changes nothing.
    pub open spec fn phase_after(
        self,
        state: TransferState,
        stop: bool,
        event: EngineEvent,
    ) -> Phase {
        match (self.phase, event) {
            (Phase::Allocating { done }, EngineEvent::Allocated(ok)) => if !ok {
                Phase::Aborting { done }
            } else if done + 1 < self.buf_num {
                Phase::Allocating { done: (done + 1) as usize }
            } else {
                Phase::Submitting { next: 0, submitted: 0 }
            },
            (Phase::Submitting { next, submitted }, EngineEvent::Submitted(rc)) => {
                let submitted = if rc == 0 {
                    submitted + 1
                } else {
                    submitted as int
                };
                if next + 1 < self.buf_num {
                    Phase::Submitting { next: (next + 1) as usize, submitted: submitted as usize }
                } else if submitted == 0 {
                    Phase::Freeing
                } else {
                    Phase::Streaming
                }
            },
            (Phase::Streaming, EngineEvent::Polled) => if stop || state.dev_lost {
                Phase::Cancelling
            } else {
                Phase::Streaming
            },
            (Phase::Cancelling, EngineEvent::Cancelled) => TransferEngine::drain_phase(
                state.pending,
                0,
            ),
            (Phase::Draining { turns }, EngineEvent::Polled) => TransferEngine::drain_phase(
                state.pending,
                turns + 1,
            ),
            (Phase::Aborting { .. }, EngineEvent::Freed) => Phase::Finished,
            (Phase::Freeing, EngineEvent::Freed) => Phase::Finished,
            (phase, _) => phase,
        }
    }

    pub open spec fn after(self, state: TransferState, stop: bool, event: EngineEvent) -> Self {
        TransferEngine {
            phase: self.phase_after(state, stop, event),
            ..self
        }
    }

    /// Only a submission that fails changes what is pending.
    pub open spec fn state_after(self, state: TransferState, event: EngineEvent) -> TransferState {
        match (self.phase, event) {
            (Phase::Submitting { .. }, EngineEvent::Submitted(rc)) => state.after_submit(rc),
            _ => state,
        }
    }

    /// The shutdown stops the stream, so that completions no longer resubmit; a failed allocation
    /// is reported to the consumer.
    pub open spec fn stream_after(
        self,
        state: TransferState,
        stream: StreamView,
        event: EngineEvent,
    ) -> StreamView {
        if self.shuts_down(state, stream.control.stop, event) {
            stream.stopped()
        } else if self.phase is Aborting && event == EngineEvent::Freed {
            stream.offered(ChunkView::Failed(allocation_failed()))
        } else {
            stream
        }
    }

    pub fn new(buf_num: usize, buf_len: usize) -> (engine: TransferEngine)
        ensures
            engine == TransferEngine::fresh(buf_num, buf_len),
            engine.wf(),
    {
        if buf_num == 0 {
            TransferEngine { buf_num, buf_len, phase: Phase::Freeing }
        } else {
            TransferEngine { buf_num, buf_len, phase: Phase::Allocating { done: 0 } }
        }
    }

    /// What is asked of the USB library next.
    pub fn action(&self) -> (action: EngineAction)
        ensures
            action == self.action_spec(),
    {
        match self.phase {
            Phase::Allocating { .. } => EngineAction::Allocate { len: self.buf_len },
            Phase::Aborting { done } => EngineAction::FreeAll(done),
            Phase::Submitting { next, .. } => EngineAction::Submit(
                BulkTransfer {
                    index: next,
                    endpoint: BULK_IN_ENDPOINT,
                    len: self.buf_len,
                    timeout_millis: NO_TIMEOUT,
                },
            ),
            Phase::Streaming => EngineAction::Poll { millis: POLL_MILLIS },
            Phase::Cancelling => EngineAction::CancelAll,
            Phase::Draining { .. } => EngineAction::Poll { millis: DRAIN_POLL_MILLIS },
            Phase::Freeing => EngineAction::FreeAll(self.buf_num),
            Phase::Finished => EngineAction::Finished,
        }
    }

    fn drain(pending: usize, turns: u32) -> (phase: Phase)
        ensures
            phase == TransferEngine::drain_phase(pending, turns as int),
    {
        if pending == 0 || turns >= DRAIN_LIMIT {
            Phase::Freeing
        } else {
            Phase::Draining { turns }
        }
    }

    /// Takes note of what the USB library did.
    pub fn step(
        &mut self,
        state: &mut TransferState,
        stream: &mut AsyncReadHandle,
        event: EngineEvent,
    )
        requires
            old(self).wf(),
        ensures
            final(self).wf(),
            *final(self) == old(self).after(*old(state), old(stream)@.control.stop, event),
            *final(state) == old(self).state_after(*old(state), event),
            final(stream)@ == old(self).stream_after(*old(state), old(stream)@, event),
            old(stream)@.wf() ==> final(stream)@.wf(),
    {
        match (self.phase, event) {
            (Phase::Allocating { done }, EngineEvent::Allocated(ok)) => {
                if !ok {
                    self.phase = Phase::Aborting { done };
                } else if done + 1 < self.buf_num {
                    self.phase = Phase::Allocating { done: done + 1 };
                } else {
                    self.phase = Phase::Submitting { next: 0, submitted: 0 };
                }
            },
            (Phase::Submitting { next, submitted }, EngineEvent::Submitted(rc)) => {
                state.submitted(rc);
                let submitted: usize = if rc == 0 {
                    submitted + 1
                } else {
                    submitted
                };
                if next + 1 < self.buf_num {
                    self.phase = Phase::Submitting { next: next + 1, submitted };
                } else if submitted == 0 {
                    self.phase = Phase::Freeing;
                } else {
                    self.phase = Phase::Streaming;
                }
            },
            (Phase::Streaming, EngineEvent::Polled) => {
                if stream.control.stop || state.dev_lost {
                    stream.stop();
                    self.phase = Phase::Cancelling;
                }
            },
            (Phase::Cancelling, EngineEvent::Cancelled) => {
                self.phase = TransferEngine::drain(state.pending, 0);
            },
            (Phase::Draining { turns }, EngineEvent::Polled) => {
                self.phase = TransferEngine::drain(state.pending, turns + 1);
            },
            (Phase::Aborting { .. }, EngineEvent::Freed) => {
                let _ = stream.offer(Err(RtlsdrError::message("libusb_alloc_transfer failed")));
                self.phase = Phase::Finished;
            },
            (Phase::Freeing, EngineEvent::Freed) => {
                self.phase = Phase::Finished;
            },
            _ => {},
        }
    }
}

} // verus!
