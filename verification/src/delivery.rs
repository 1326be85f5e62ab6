//! What the consumer of concurrent bulk transfers receives, and what is asked of the USB library on
//! the way.
//!
//! A [`TransferRun`] follows an engine, the state that its completions share and the stream that
//! they feed through every order of events, and keeps a record of what happened that is made of the
//! events alone.

use crate::channel::Received;
use crate::engine::{BulkTransfer, EngineAction, EngineEvent, Phase, TransferEngine};
use crate::error::ErrorView;
use crate::stream::{ChunkView, StreamView};
use crate::transfer::{TransferState, TransferStatus};
use vstd::prelude::*;

verus! {

/// Something that happens while transfers feed a stream.
pub enum TransferEvent {
    /// The USB library did what the engine asked for.
    Usb(EngineEvent),
    /// A transfer completed with the libusb status `code` and, if that is 0, with `data`. If it was
    /// submitted again, that returned `rc`.
    Completion { code: i32, data: Seq<u8>, rc: i32 },
    /// The consumer asks for a chunk.
    Receive,
    /// The consumer asks the stream to stop.
    Stop,
    /// The consumer leaves.
    ConsumerGone,
}

/// An engine, the shared state and the stream, with what has happened so far.
pub struct TransferRun {
    pub engine: TransferEngine,
    pub state: TransferState,
    pub stream: StreamView,
    /// How many transfers were allocated, and whether an allocation failed.
    pub allocated: nat,
    pub allocation_failed: bool,
    /// How many times a transfer was submitted at first, and how many of these libusb took.
    pub submissions: nat,
    pub accepted: nat,
    /// Whether the consumer asked for a stop.
    pub stop_asked: bool,
    /// Whether a turn of the event loop ended with a stop or a lost device.
    pub shut_down: bool,
    /// Whether every transfer was cancelled, how many turns of the event loop there were since
    /// then, and how many transfers were pending when the last of them ended.
    pub cancelled: bool,
    pub turns: nat,
    pub outstanding: usize,
    pub freed: bool,
    /// What found room in the queue, and what the consumer received.
    pub delivered: Seq<ChunkView>,
    pub received: Seq<ChunkView>,
}

impl TransferRun {
    pub open spec fn start(buf_num: usize, buf_len: usize, capacity: usize) -> TransferRun {
        TransferRun {
            engine: TransferEngine::fresh(buf_num, buf_len),
            state: TransferState::fresh(buf_num),
            stream: StreamView::fresh(capacity),
            allocated: 0,
            allocation_failed: false,
            submissions: 0,
            accepted: 0,
            stop_asked: false,
            shut_down: false,
            cancelled: false,
            turns: 0,
            outstanding: 0,
            freed: false,
            delivered: Seq::empty(),
            received: Seq::empty(),
        }
    }

    /// Whether fewer chunks wait than there is room for, and the consumer is there.
    pub open spec fn has_room(self) -> bool {
        self.stream.rx.receiver && (self.stream.rx.capacity matches Some(n)
            ==> self.stream.rx.items.len() < n)
    }

    /// The USB library does what it is asked for, and completions come from the event loop.
    pub open spec fn possible(self, event: TransferEvent) -> bool {
        match event {
            TransferEvent::Usb(e) => match self.engine.action_spec() {
                EngineAction::Allocate { .. } => e is Allocated,
                EngineAction::Submit(_) => e is Submitted,
                EngineAction::Poll { .. } => e is Polled,
                EngineAction::CancelAll => e is Cancelled,
                EngineAction::FreeAll(_) => e is Freed,
                EngineAction::Finished => false,
            },
            TransferEvent::Completion { .. } => self.engine.action_spec() is Poll,
            TransferEvent::Receive => self.stream.rx.receiver,
            TransferEvent::Stop => true,
            TransferEvent::ConsumerGone => self.stream.rx.receiver,
        }
    }

    pub open spec fn after(self, event: TransferEvent) -> TransferRun {
        match event {
            TransferEvent::Usb(e) => TransferRun {
                engine: self.engine.after(self.state, self.stream.control.stop, e),
                state: self.engine.state_after(self.state, e),
                stream: self.engine.stream_after(self.state, self.stream, e),
                allocated: if e == EngineEvent::Allocated(true) {
                    self.allocated + 1
                } else {
                    self.allocated
                },
                allocation_failed: self.allocation_failed || e == EngineEvent::Allocated(false),
                submissions: if e is Submitted {
                    self.submissions + 1
                } else {
                    self.submissions
                },
                accepted: if e == EngineEvent::Submitted(0) {
                    self.accepted + 1
                } else {
                    self.accepted
                },
                stop_asked: self.stop_asked,
                shut_down: self.shut_down || (e is Polled && (self.stream.control.stop
                    || self.state.dev_lost)),
                cancelled: self.cancelled || e is Cancelled,
                turns: if self.cancelled && e is Polled {
                    self.turns + 1
                } else {
                    self.turns
                },
                outstanding: if e is Cancelled || e is Polled {
                    self.state.pending
                } else {
                    self.outstanding
                },
                freed: self.freed || e is Freed,
                delivered: if e is Freed && self.allocation_failed && self.has_room() {
                    self.delivered.push(
                        ChunkView::Failed(ErrorView::Message("libusb_alloc_transfer failed"@)),
                    )
                } else {
                    self.delivered
                },
                received: self.received,
            },
            TransferEvent::Completion { code, data, rc } => {
                let status = crate::transfer::status_of(code);
                let handled = self.state.after(status, self.stream.control.stop);
                TransferRun {
                    state: if self.state.resubmits(status, self.stream.control.stop) {
                        handled.after_submit(rc)
                    } else {
                        handled
                    },
                    stream: if status == TransferStatus::Completed {
                        self.stream.offered(ChunkView::Data(data))
                    } else {
                        self.stream
                    },
                    delivered: if code == 0 && self.has_room() {
                        self.delivered.push(ChunkView::Data(data))
                    } else {
                        self.delivered
                    },
                    ..self
                }
            },
            TransferEvent::Receive => TransferRun {
                stream: self.stream.taken(),
                received: match self.stream.rx.front() {
                    Received::Item(chunk) => self.received.push(chunk),
                    _ => self.received,
                },
                ..self
            },
            TransferEvent::Stop => TransferRun {
                stream: self.stream.stopped(),
                stop_asked: true,
                ..self
            },
            TransferEvent::ConsumerGone => TransferRun {
                stream: self.stream.consumer_gone(),
                ..self
            },
        }
    }

    pub open spec fn after_all(self, events: Seq<TransferEvent>) -> TransferRun
        decreases events.len(),
    {
        if events.len() == 0 {
            self
        } else {
            self.after_all(events.drop_last()).after(events.last())
        }
    }

    pub open spec fn all_possible(self, events: Seq<TransferEvent>) -> bool
        decreases events.len(),
    {
        events.len() == 0 || {
            &&& self.all_possible(events.drop_last())
            &&& self.after_all(events.drop_last()).possible(events.last())
        }
    }

    /// How the phase of the engine follows from what happened, and what every event keeps.
    pub open spec fn inv(self) -> bool {
        let n = self.engine.buf_num;
        &&& self.engine.wf()
        &&& self.stream.rx.receiver ==> self.delivered == self.received + self.stream.rx.items
        &&& self.received.is_prefix_of(self.delivered)
        &&& self.stream.control.stop <==> self.stop_asked || self.shut_down
        &&& match self.engine.phase {
            Phase::Allocating { done } => {
                &&& self.allocated == done
                &&& !self.allocation_failed && self.submissions == 0 && self.accepted == 0
                &&& !self.shut_down && !self.cancelled && self.turns == 0 && !self.freed
            },
            Phase::Aborting { done } => {
                &&& self.allocated == done
                &&& self.allocation_failed && self.submissions == 0 && self.accepted == 0
                &&& !self.shut_down && !self.cancelled && self.turns == 0 && !self.freed
            },
            Phase::Submitting { next, submitted } => {
                &&& self.allocated == n
                &&& !self.allocation_failed && self.submissions == next && self.accepted
                    == submitted
                &&& !self.shut_down && !self.cancelled && self.turns == 0 && !self.freed
            },
            Phase::Streaming => {
                &&& self.allocated == n
                &&& !self.allocation_failed && self.submissions == n && self.accepted > 0
                &&& !self.shut_down && !self.cancelled && self.turns == 0 && !self.freed
            },
            Phase::Cancelling => {
                &&& self.allocated == n
                &&& !self.allocation_failed && self.submissions == n && self.accepted > 0
                &&& self.shut_down && !self.cancelled && self.turns == 0 && !self.freed
            },
            Phase::Draining { turns } => {
                &&& self.allocated == n
                &&& !self.allocation_failed && self.submissions == n && self.accepted > 0
                &&& self.shut_down && self.cancelled && self.turns == turns && !self.freed
                &&& self.outstanding > 0
            },
            Phase::Freeing => {
                &&& self.allocated == n
                &&& !self.allocation_failed && self.submissions == n && !self.freed
                &&& self.accepted > 0 ==> self.shut_down && self.cancelled && (self.outstanding == 0
                    || self.turns >= 50)
            },
            Phase::Finished => self.freed,
        }
    }
}

proof fn lemma_run_kept(w: TransferRun, event: TransferEvent)
    requires
        w.inv(),
        w.possible(event),
    ensures
        w.after(event).inv(),
        w.after(event).engine.buf_num == w.engine.buf_num,
        w.after(event).engine.buf_len == w.engine.buf_len,
{
    let next = w.after(event);
    if next.delivered.len() > w.delivered.len() {
        assert(next.received + next.stream.rx.items =~= (w.received + w.stream.rx.items).push(
            next.delivered.last(),
        ));
    } else if event is Receive {
        assert(next.received + next.stream.rx.items =~= w.received + w.stream.rx.items);
    }
    assert(next.received =~= next.delivered.subrange(0, next.received.len() as int));
}

proof fn lemma_run_reached(
    buf_num: usize,
    buf_len: usize,
    capacity: usize,
    events: Seq<TransferEvent>,
)
    requires
        TransferRun::start(buf_num, buf_len, capacity).all_possible(events),
    ensures
        ({
            let w = TransferRun::start(buf_num, buf_len, capacity).after_all(events);
            &&& w.inv()
            &&& w.engine.buf_num == buf_num
            &&& w.engine.buf_len == buf_len
        }),
    decreases events.len(),
{
    let start = TransferRun::start(buf_num, buf_len, capacity);
    if events.len() > 0 {
        lemma_run_reached(buf_num, buf_len, capacity, events.drop_last());
        lemma_run_kept(start.after_all(events.drop_last()), events.last());
    } else {
        assert(start.delivered =~= start.received + start.stream.rx.items);
        assert(start.received =~= start.delivered.subrange(0, 0));
    }
}

/// The consumer receives what the transfers brought, in order: the data of every transfer that
/// completed while there was room in the queue, one chunk for each, is what the consumer received
/// followed by what still waits. Nothing that waits is lost, whatever the USB library does. What a
/// consumer that left had received is the beginning of it. If a transfer could not be allocated,
/// the consumer finds that error at the end.
pub proof fn law_completed_transfers_reach_the_consumer(
    buf_num: usize,
    buf_len: usize,
    capacity: usize,
    events: Seq<TransferEvent>,
)
    requires
        TransferRun::start(buf_num, buf_len, capacity).all_possible(events),
    ensures
        ({
            let w = TransferRun::start(buf_num, buf_len, capacity).after_all(events);
            &&& w.stream.rx.receiver ==> w.delivered == w.received + w.stream.rx.items
            &&& w.received.is_prefix_of(w.delivered)
            &&& w.stream.control.stop <==> w.stop_asked || w.shut_down
        }),
{
    lemma_run_reached(buf_num, buf_len, capacity, events);
}

/// What is asked of the USB library follows from what it did. It allocates `buf_num` transfers with
/// buffers of `buf_len` bytes; if one cannot be allocated, those before it are freed. It submits
/// each of them once, in order, on endpoint 0x81 and without a timeout. Unless it refused all of
/// them, it then handles events, for a second at a time, until a turn ends with a stop or a lost
/// device. Every transfer is cancelled, and events are handled, for a tenth of a second at a time,
/// as long as a transfer is pending, but for no more than 50 turns. In the end all are freed, once.
pub proof fn law_what_is_asked_of_the_usb_library(
    buf_num: usize,
    buf_len: usize,
    capacity: usize,
    events: Seq<TransferEvent>,
)
    requires
        TransferRun::start(buf_num, buf_len, capacity).all_possible(events),
    ensures
        ({
            let w = TransferRun::start(buf_num, buf_len, capacity).after_all(events);
            w.engine.action_spec() == (if w.freed {
                EngineAction::Finished
            } else if w.allocation_failed {
                EngineAction::FreeAll(w.allocated as usize)
            } else if w.allocated < buf_num {
                EngineAction::Allocate { len: buf_len }
            } else if w.submissions < buf_num {
                EngineAction::Submit(
                    BulkTransfer {
                        index: w.submissions as usize,
                        endpoint: 0x81,
                        len: buf_len,
                        timeout_millis: 0,
                    },
                )
            } else if w.accepted == 0 {
                EngineAction::FreeAll(buf_num)
            } else if !w.shut_down {
                EngineAction::Poll { millis: 1000 }
            } else if !w.cancelled {
                EngineAction::CancelAll
            } else if w.outstanding > 0 && w.turns < 50 {
                EngineAction::Poll { millis: 100 }
            } else {
                EngineAction::FreeAll(buf_num)
            })
        }),
{
    lemma_run_reached(buf_num, buf_len, capacity, events);
}

/// No event of the USB library takes a chunk out of the queue, in whatever state the engine is, nor
/// changes anything else of the stream, with two exceptions: a turn of the event loop that ends
/// with a lost device stops the stream, and a failed allocation, once what was allocated is freed,
/// is added to the end of the queue if there is room.
pub proof fn law_usb_library_takes_nothing_from_the_queue(
    engine: TransferEngine,
    state: TransferState,
    stream: StreamView,
    event: EngineEvent,
)
    ensures
        ({
            let after = engine.stream_after(state, stream, event);
            let room = stream.rx.receiver && (stream.rx.capacity matches Some(n)
                ==> stream.rx.items.len() < n);
            &&& after.rx.items == (if engine.phase is Aborting && event == EngineEvent::Freed
                && room {
                stream.rx.items.push(
                    ChunkView::Failed(ErrorView::Message("libusb_alloc_transfer failed"@)),
                )
            } else {
                stream.rx.items
            })
            &&& after.rx.capacity == stream.rx.capacity
            &&& after.rx.senders == stream.rx.senders
            &&& after.rx.receiver == stream.rx.receiver
            &&& after.control.ctrl == stream.control.ctrl
            &&& after.control.dropped == stream.control.dropped
            &&& after.control.stop <==> stream.control.stop || (engine.phase == Phase::Streaming
                && event == EngineEvent::Polled && state.dev_lost)
        }),
{
}

/// Of the shared state the engine changes only what is pending, and only when a transfer that it
/// wanted submitted at first was refused. An event that was not asked for changes nothing at all.
/// How many transfers there are, and how long their buffers, never changes.
pub proof fn law_engine_changes_only_what_is_pending(
    engine: TransferEngine,
    state: TransferState,
    stream: StreamView,
    event: EngineEvent,
)
    ensures
        ({
            let next = engine.after(state, stream.control.stop, event);
            let after = engine.state_after(state, event);
            let refused = engine.phase is Submitting && (event matches EngineEvent::Submitted(rc)
                && rc != 0);
            let asked = match engine.phase {
                Phase::Allocating { .. } => event is Allocated,
                Phase::Submitting { .. } => event is Submitted,
                Phase::Streaming => event is Polled,
                Phase::Draining { .. } => event is Polled,
                Phase::Cancelling => event is Cancelled,
                Phase::Aborting { .. } => event is Freed,
                Phase::Freeing => event is Freed,
                Phase::Finished => false,
            };
            &&& next.buf_num == engine.buf_num
            &&& next.buf_len == engine.buf_len
            &&& after.buf_num == state.buf_num
            &&& after.xfer_errors == state.xfer_errors
            &&& after.dev_lost == state.dev_lost
            &&& !refused ==> after.pending == state.pending
            &&& refused && state.pending > 0 ==> after.pending == state.pending - 1
            &&& !asked ==> next == engine && after == state && engine.stream_after(
                state,
                stream,
                event,
            ) == stream
        }),
{
}

/// What an engine is told and asked is what the run above follows: it starts, asks and steps as the
/// model does, for every event in every phase.
pub proof fn law_engine_follows_the_run(
    engine: TransferEngine,
    buf_num: usize,
    buf_len: usize,
    event: EngineEvent,
)
    ensures
        forall|e: TransferEngine| #[trigger]
            call_ensures(TransferEngine::new, (buf_num, buf_len), e) ==> e == TransferRun::start(
                buf_num,
                buf_len,
                1,
            ).engine,
        forall|s: TransferState| #[trigger]
            call_ensures(TransferState::new, (buf_num,), s) ==> s == TransferRun::start(
                buf_num,
                buf_len,
                1,
            ).state,
        forall|action: EngineAction| #[trigger]
            call_ensures(TransferEngine::action, (&engine,), action) ==> action
                == engine.action_spec(),
        forall|
            e: &mut TransferEngine,
            state: &mut TransferState,
            stream: &mut crate::stream::AsyncReadHandle,
        | #[trigger]
            call_ensures(TransferEngine::step, (e, state, stream, event), ()) ==> {
                &&& *final(e) == e.after(*state, stream@.control.stop, event)
                &&& *final(state) == e.state_after(*state, event)
                &&& final(stream)@ == e.stream_after(*state, stream@, event)
            },
        forall|state: &mut TransferState, rc: i32| #[trigger]
            call_ensures(TransferState::submitted, (state, rc), ()) ==> *final(state)
                == state.after_submit(rc),
{
}

} // verus!
