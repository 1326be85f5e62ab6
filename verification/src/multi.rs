//! The loops of a stream that several threads feed at once.
//!
//! Each reading thread reads with a short timeout, so that it notices promptly that it is to stop,
//! and offers what it read to the consumer. When the queue is full it drops the chunk rather than
//! wait, which would stall its next read; dropped chunks are counted. A separate thread carries out
//! commands without pausing the readers, and in the end waits for them and closes the device.

use crate::channel::Received;
use crate::error::RtlsdrError;
use crate::stream::{AsyncReadControl, AsyncReadHandle, ChunkView, StreamView};
use vstd::prelude::*;

verus! {

/// How long one read, or one wait for a command, lasts at most, in milliseconds.
pub const TURN_MILLIS: u32 = 100;

/// What a reading thread does next.
#[derive(Debug, Clone, Copy, PartialEq, Eq, Structural)]
pub enum WorkerAction {
    /// Read from the device.
    Read,
    /// Nothing any more.
    Finished,
}

/// One of the reading threads.
#[derive(Debug, Clone, Copy, PartialEq, Eq, Structural)]
pub struct TransferReader {
    pub ended: bool,
}

impl StreamView {
    /// The state after a reading thread handed over what a read brought: data is offered and, if it
    /// is not taken, counted as dropped; a timeout or an interruption, like an empty read, goes
    /// unmentioned; any other error is offered.
    pub open spec fn fed(self, read: ChunkView) -> StreamView {
        match read {
            ChunkView::Data(data) => if data.len() == 0 {
                self
            } else if self.rx.accepts() {
                self.offered(read)
            } else {
                self.dropped_one()
            },
            ChunkView::Failed(e) => if e.is_transient() {
                self
            } else {
                self.offered(read)
            },
        }
    }
}

/// Whether a read that brought this ends the thread: an error does, unless it is transient.
pub open spec fn ends_worker(read: ChunkView) -> bool {
    read matches ChunkView::Failed(e) && !e.is_transient()
}

impl TransferReader {
    pub fn new() -> (worker: TransferReader)
        ensures
            !worker.ended,
    {
        TransferReader { ended: false }
    }

    /// What the thread does next: it reads until it ended or the stream is to stop.
    pub fn advance(&mut self, stream: &AsyncReadHandle) -> (action: WorkerAction)
        ensures
            final(self).ended == (old(self).ended || stream@.control.stop),
            action == (if final(self).ended {
                WorkerAction::Finished
            } else {
                WorkerAction::Read
            }),
    {
        if stream.control.stop {
            self.ended = true;
        }
        if self.ended {
            WorkerAction::Finished
        } else {
            WorkerAction::Read
        }
    }

    /// Hands over what a read into `buf` returned.
    pub fn read_done(
        &mut self,
        stream: &mut AsyncReadHandle,
        r: Result<usize, RtlsdrError>,
        buf: &[u8],
    )
        requires
            r matches Ok(n) ==> n <= buf@.len(),
        ensures
            final(stream)@ == old(stream)@.fed(crate::reader::read_view(r, buf@)),
            old(stream)@.wf() ==> final(stream)@.wf(),
            final(self).ended == (old(self).ended || ends_worker(
                crate::reader::read_view(r, buf@),
            )),
            r is Ok && r->Ok_0 > 0 && old(stream)@.rx.receiver && (old(stream)@.rx.capacity matches
                Some(c) ==> old(stream)@.rx.items.len() < c) ==> final(stream)@.rx.items
                == old(stream)@.rx.items.push(ChunkView::Data(buf@.subrange(0, r->Ok_0 as int))),
    {
        match r {
            Ok(n) => {
                if n != 0 {
                    let data = vstd::slice::slice_subrange(buf, 0, n);
                    if stream.offer(Ok(vstd::slice::slice_to_vec(data))).is_err() {
                        stream.count_dropped();
                    }
                }
            },
            Err(e) => {
                if !e.is_transient() {
                    let _ = stream.offer(Err(e));
                    self.ended = true;
                }
            },
        }
    }
}

/// Where the controlling thread is.
#[derive(Debug, Clone, Copy, PartialEq, Eq, Structural)]
pub enum ControllerPhase {
    /// Is the stream to stop?
    Checking,
    /// Waiting for a command.
    Waiting,
    /// Carrying out this command.
    Applying(AsyncReadControl),
    /// Waiting for the reading threads.
    Joining,
    /// Closing the device.
    Closing,
    Ended,
}

/// What has to be done before the controlling thread can go on.
#[derive(Debug, Clone, Copy, PartialEq, Eq, Structural)]
pub enum ControllerAction {
    /// Carry out a command on the device.
    Apply(AsyncReadControl),
    /// Wait for a command for up to `millis` milliseconds.
    AwaitCommand { millis: u32 },
    /// Wait until every reading thread has ended.
    JoinReaders,
    /// Close the device.
    Close,
    /// Nothing any more.
    Finished,
}

/// The controlling thread.
#[derive(Debug, Clone, Copy, PartialEq, Eq, Structural)]
pub struct Controller {
    pub phase: ControllerPhase,
}

impl Controller {
    /// A round begins only as long as the stream is not to stop.
    pub open spec fn checked(self, stream: StreamView) -> Controller {
        if self.phase == ControllerPhase::Checking {
            Controller {
                phase: if stream.control.stop {
                    ControllerPhase::Joining
                } else {
                    ControllerPhase::Waiting
                },
            }
        } else {
            self
        }
    }

    /// The next command is carried out. Once nobody is left who could send one, the stream ends.
    pub open spec fn commanded(self, stream: StreamView) -> Controller {
        if self.phase == ControllerPhase::Waiting {
            Controller {
                phase: match stream.control.ctrl.front() {
                    Received::Item(command) => ControllerPhase::Applying(command),
                    Received::Empty => ControllerPhase::Waiting,
                    Received::Disconnected => ControllerPhase::Joining,
                },
            }
        } else {
            self
        }
    }

    /// The state at the next point at which there is something to do or to wait for.
    pub open spec fn advanced(self, stream: StreamView) -> Controller {
        self.checked(stream).commanded(stream)
    }

    /// A command that is carried out leaves the queue; before the reading threads are waited for,
    /// they are told to stop.
    pub open spec fn stream_advanced(self, stream: StreamView) -> StreamView {
        let polled = if self.checked(stream).phase == ControllerPhase::Waiting {
            stream.command_taken()
        } else {
            stream
        };
        if self.phase != ControllerPhase::Joining && self.advanced(stream).phase
            == ControllerPhase::Joining {
            polled.stopped()
        } else {
            polled
        }
    }

    /// What has to be done at such a point.
    pub open spec fn action(self) -> ControllerAction {
        match self.phase {
            ControllerPhase::Applying(command) => ControllerAction::Apply(command),
            ControllerPhase::Waiting => ControllerAction::AwaitCommand { millis: TURN_MILLIS },
            ControllerPhase::Joining => ControllerAction::JoinReaders,
            ControllerPhase::Closing => ControllerAction::Close,
            _ => ControllerAction::Finished,
        }
    }

    pub fn new() -> (controller: Controller)
        ensures
            controller.phase == ControllerPhase::Checking,
    {
        Controller { phase: ControllerPhase::Checking }
    }

    /// Goes on to the next point at which there is something to do or to wait for.
    pub fn advance(&mut self, stream: &mut AsyncReadHandle) -> (action: ControllerAction)
        ensures
            *final(self) == old(self).advanced(old(stream)@),
            final(stream)@ == old(self).stream_advanced(old(stream)@),
            old(stream)@.wf() ==> final(stream)@.wf(),
            action == final(self).action(),
            action matches ControllerAction::Apply(command) ==> {
                ||| old(self).phase == ControllerPhase::Applying(command)
                ||| old(stream)@.control.ctrl.items == seq![command]
                    + final(stream)@.control.ctrl.items
            },
            !(action is Apply) ==> final(stream)@.control.ctrl == old(stream)@.control.ctrl,
            final(stream)@.rx == old(stream)@.rx,
    {
        proof {
            crate::channel::law_oldest_item_is_received(stream@.control.ctrl);
        }
        if self.phase == ControllerPhase::Checking {
            if stream.control.stop {
                stream.stop();
                self.phase = ControllerPhase::Joining;
            } else {
                self.phase = ControllerPhase::Waiting;
            }
        }
        if self.phase == ControllerPhase::Waiting {
            match stream.next_command() {
                Received::Item(command) => {
                    self.phase = ControllerPhase::Applying(command);
                },
                Received::Empty => {},
                Received::Disconnected => {
                    stream.stop();
                    self.phase = ControllerPhase::Joining;
                },
            }
        }
        match self.phase {
            ControllerPhase::Applying(command) => ControllerAction::Apply(command),
            ControllerPhase::Waiting => ControllerAction::AwaitCommand { millis: TURN_MILLIS },
            ControllerPhase::Joining => ControllerAction::JoinReaders,
            ControllerPhase::Closing => ControllerAction::Close,
            _ => ControllerAction::Finished,
        }
    }

    /// Takes note that no command came in time: a new round begins.
    pub fn timed_out(&mut self)
        ensures
            *final(self) == (if old(self).phase == ControllerPhase::Waiting {
                Controller { phase: ControllerPhase::Checking }
            } else {
                *old(self)
            }),
    {
        if self.phase == ControllerPhase::Waiting {
            self.phase = ControllerPhase::Checking;
        }
    }

    /// Takes note that a command was carried out. A failure does not end the stream; it is handed
    /// back for a warning.
    pub fn applied(&mut self, r: Result<(), RtlsdrError>) -> (warning: Option<RtlsdrError>)
        ensures
            *final(self) == (if old(self).phase is Applying {
                Controller { phase: ControllerPhase::Checking }
            } else {
                *old(self)
            }),
            warning == (match r {
                Ok(_) => None::<RtlsdrError>,
                Err(e) => Some(e),
            }),
    {
        if let ControllerPhase::Applying(_) = self.phase {
            self.phase = ControllerPhase::Checking;
        }
        match r {
            Ok(_) => None,
            Err(e) => Some(e),
        }
    }

    /// Takes note that every reading thread has ended.
    pub fn joined(&mut self)
        ensures
            *final(self) == (if old(self).phase == ControllerPhase::Joining {
                Controller { phase: ControllerPhase::Closing }
            } else {
                *old(self)
            }),
    {
        if self.phase == ControllerPhase::Joining {
            self.phase = ControllerPhase::Closing;
        }
    }

    /// Takes note that the device was closed.
    pub fn closed(&mut self)
        ensures
            *final(self) == (if old(self).phase == ControllerPhase::Closing {
                Controller { phase: ControllerPhase::Ended }
            } else {
                *old(self)
            }),
    {
        if self.phase == ControllerPhase::Closing {
            self.phase = ControllerPhase::Ended;
        }
    }
}

/// Something that happens to the chunks of a stream.
pub enum FeedEvent {
    /// A read of one of the reading threads returned.
    Read(ChunkView),
    /// The consumer asks for a chunk.
    Receive,
}

impl StreamView {
    pub open spec fn after_feed(self, event: FeedEvent) -> StreamView {
        match event {
            FeedEvent::Read(read) => self.fed(read),
            FeedEvent::Receive => self.taken(),
        }
    }

    pub open spec fn after_feeds(self, events: Seq<FeedEvent>) -> StreamView
        decreases events.len(),
    {
        if events.len() == 0 {
            self
        } else {
            self.after_feeds(events.drop_last()).after_feed(events.last())
        }
    }

    /// The chunks that were taken into the queue, in order.
    pub open spec fn accepted(self, events: Seq<FeedEvent>) -> Seq<ChunkView>
        decreases events.len(),
    {
        if events.len() == 0 {
            Seq::empty()
        } else {
            let before = self.accepted(events.drop_last());
            match events.last() {
                FeedEvent::Read(read) if !is_passed_over(read) && self.after_feeds(
                    events.drop_last(),
                ).rx.accepts() => before.push(read),
                _ => before,
            }
        }
    }

    /// The chunks that the consumer received, in order.
    pub open spec fn received(self, events: Seq<FeedEvent>) -> Seq<ChunkView>
        decreases events.len(),
    {
        if events.len() == 0 {
            Seq::empty()
        } else {
            let before = self.received(events.drop_last());
            match (events.last(), self.after_feeds(events.drop_last()).rx.front()) {
                (FeedEvent::Receive, Received::Item(chunk)) => before.push(chunk),
                _ => before,
            }
        }
    }
}

/// Whether nothing is handed over of a read: it was empty, timed out or was interrupted.
pub open spec fn is_passed_over(read: ChunkView) -> bool {
    read.is_empty() || (read matches ChunkView::Failed(e) && e.is_transient())
}

/// How many of the chunks hold data.
pub open spec fn data_count(chunks: Seq<ChunkView>) -> nat
    decreases chunks.len(),
{
    if chunks.len() == 0 {
        0
    } else {
        data_count(chunks.drop_last()) + if chunks.last() is Data {
            1nat
        } else {
            0
        }
    }
}

/// How many reads brought data.
pub open spec fn data_reads(events: Seq<FeedEvent>) -> nat
    decreases events.len(),
{
    if events.len() == 0 {
        0
    } else {
        data_reads(events.drop_last()) + match events.last() {
            FeedEvent::Read(ChunkView::Data(data)) if data.len() > 0 => 1nat,
            _ => 0,
        }
    }
}

impl StreamView {
    /// Which of the events were reads that were taken into the queue.
    pub open spec fn accepted_at(self, events: Seq<FeedEvent>) -> Seq<int>
        decreases events.len(),
    {
        if events.len() == 0 {
            Seq::empty()
        } else {
            let before = self.accepted_at(events.drop_last());
            match events.last() {
                FeedEvent::Read(read) if !is_passed_over(read) && self.after_feeds(
                    events.drop_last(),
                ).rx.accepts() => before.push(events.len() - 1),
                _ => before,
            }
        }
    }

    /// How many reads brought data that found no room.
    pub open spec fn drops(self, events: Seq<FeedEvent>) -> nat
        decreases events.len(),
    {
        if events.len() == 0 {
            0
        } else {
            self.drops(events.drop_last()) + match events.last() {
                FeedEvent::Read(ChunkView::Data(data)) if data.len() > 0 && !self.after_feeds(
                    events.drop_last(),
                ).rx.accepts() => 1nat,
                _ => 0,
            }
        }
    }
}

/// Every read that brought data ends up with the consumer, in the queue, or dropped and counted:
/// the chunks of data that were received and that wait, with what was dropped, are as many as the
/// reads that brought data, with what waited at first. The counter is exact up to its range. What
/// is in the queue reaches the consumer in order: what waited at first, followed by what was taken
/// in, is what was received, followed by what still waits.
pub proof fn law_reads_are_delivered_or_counted(start: StreamView, events: Seq<FeedEvent>)
    ensures
        ({
            let end = start.after_feeds(events);
            &&& start.rx.items + start.accepted(events) == start.received(events) + end.rx.items
            &&& data_count(start.rx.items) + data_reads(events) == data_count(
                start.received(events),
            ) + data_count(end.rx.items) + start.drops(events)
            &&& end.control.dropped == (start.control.dropped + start.drops(events))
                % 0x1_0000_0000_0000_0000
            &&& start.wf() ==> end.wf()
        }),
{
    lemma_feeds(start, events);
    lemma_drops_are_counted(start, events);
    lemma_data_count_of_both(start.rx.items, start.accepted(events));
    lemma_data_count_of_both(start.received(events), start.after_feeds(events).rx.items);
}

/// The counter follows what is dropped, up to its range.
proof fn lemma_drops_are_counted(start: StreamView, events: Seq<FeedEvent>)
    ensures
        start.after_feeds(events).control.dropped == (start.control.dropped + start.drops(events))
            % 0x1_0000_0000_0000_0000,
    decreases events.len(),
{
    if events.len() > 0 {
        lemma_drops_are_counted(start, events.drop_last());
    }
}

#[verifier::spinoff_prover]
proof fn lemma_feeds(start: StreamView, events: Seq<FeedEvent>)
    ensures
        ({
            let end = start.after_feeds(events);
            &&& start.rx.items + start.accepted(events) == start.received(events) + end.rx.items
            &&& data_reads(events) == data_count(start.accepted(events)) + start.drops(events)
            &&& start.wf() ==> end.wf()
        }),
    decreases events.len(),
{
    if events.len() == 0 {
        assert(start.rx.items + start.accepted(events) =~= start.received(events)
            + start.after_feeds(events).rx.items);
    } else {
        let before = events.drop_last();
        let mid = start.after_feeds(before);
        let end = start.after_feeds(events);
        lemma_feeds(start, before);
        match events.last() {
            FeedEvent::Read(read) => {
                if !is_passed_over(read) && mid.rx.accepts() {
                    assert(start.accepted(events).drop_last() =~= start.accepted(before));
                    assert(start.rx.items + start.accepted(events) =~= (start.rx.items
                        + start.accepted(before)).push(read));
                    assert(start.received(events) + end.rx.items =~= (start.received(before)
                        + mid.rx.items).push(read));
                }
            },
            FeedEvent::Receive => {
                if mid.rx.items.len() > 0 {
                    assert(start.received(events) + end.rx.items =~= start.received(before)
                        + mid.rx.items);
                }
            },
        }
    }
}

proof fn lemma_data_count_of_both(a: Seq<ChunkView>, b: Seq<ChunkView>)
    ensures
        data_count(a + b) == data_count(a) + data_count(b),
    decreases b.len(),
{
    if b.len() == 0 {
        assert(a + b =~= a);
    } else {
        assert((a + b).drop_last() =~= a + b.drop_last());
        lemma_data_count_of_both(a, b.drop_last());
    }
}

/// Every chunk in the queue is what one read brought, with at least one byte if it is data, and no
/// read is delivered twice.
pub proof fn law_each_chunk_is_one_read(start: StreamView, events: Seq<FeedEvent>)
    ensures
        start.accepted_at(events).len() == start.accepted(events).len(),
        forall|i: int|
            0 <= i < start.accepted(events).len() ==> {
                let at = #[trigger] start.accepted_at(events)[i];
                &&& 0 <= at < events.len()
                &&& events[at] == FeedEvent::Read(start.accepted(events)[i])
                &&& !is_passed_over(start.accepted(events)[i])
            },
        forall|i: int, j: int|
            0 <= i < j < start.accepted(events).len() ==> start.accepted_at(events)[i]
                < start.accepted_at(events)[j],
    decreases events.len(),
{
    if events.len() > 0 {
        law_each_chunk_is_one_read(start, events.drop_last());
    }
}

/// A reading thread never waits for room: when the consumer does not take what it read, it drops
/// the new chunk, counts it and goes on.
pub proof fn law_full_queue_changes_only_the_count(stream: StreamView, data: Seq<u8>)
    requires
        data.len() > 0,
        !stream.rx.accepts(),
    ensures
        stream.fed(ChunkView::Data(data)) == stream.dropped_one(),
        !ends_worker(ChunkView::Data(data)),
{
}

/// Something that happens while the controlling thread runs.
pub enum ControllerEvent {
    /// The thread goes on.
    Advance,
    /// A command was carried out, with success or not.
    Applied,
    /// No command came in time.
    TimedOut,
    /// Every reading thread has ended.
    Joined,
    /// The device was closed.
    Closed,
    /// A read of one of the reading threads returned.
    Read(ChunkView),
    /// The consumer asks for a chunk.
    Receive,
    /// The consumer sends a command.
    Command(AsyncReadControl),
    /// The consumer asks the stream to stop.
    Stop,
    /// The consumer leaves.
    ConsumerGone,
    /// One more control handle is given out.
    HandleAdded,
    /// A control handle, or the consumer, sends no more commands.
    HandleGone,
    /// The controlling thread has ended and leaves.
    ThreadGone,
}

/// A stream and its controlling thread, with what has happened so far: what the thread asked for
/// last and has not got yet, the commands that were sent and those that were carried out, whether
/// the reading threads have all ended, and whether the device was closed.
pub struct ControllerRun {
    pub controller: Controller,
    pub stream: StreamView,
    pub asked: Option<ControllerAction>,
    pub sent: Seq<AsyncReadControl>,
    pub carried_out: Seq<AsyncReadControl>,
    pub readers_ended: bool,
    pub device_closed: bool,
}

impl ControllerRun {
    pub open spec fn start(capacity: usize) -> ControllerRun {
        ControllerRun {
            controller: Controller { phase: ControllerPhase::Checking },
            stream: StreamView::fresh(capacity),
            asked: None,
            sent: Seq::empty(),
            carried_out: Seq::empty(),
            readers_ended: false,
            device_closed: false,
        }
    }

    /// What was asked for is done; the reading threads read until they have ended, and the consumer
    /// does what it likes until it leaves, which it does only once the controlling thread is gone.
    /// Who has no handle sends no commands.
    pub open spec fn possible(self, event: ControllerEvent) -> bool {
        match event {
            ControllerEvent::Applied => self.controller.phase is Applying,
            ControllerEvent::TimedOut => self.controller.phase == ControllerPhase::Waiting,
            ControllerEvent::Joined => self.controller.phase == ControllerPhase::Joining,
            ControllerEvent::Closed => self.controller.phase == ControllerPhase::Closing,
            ControllerEvent::Read(_) => !self.readers_ended,
            ControllerEvent::Receive => self.stream.rx.receiver,
            ControllerEvent::ConsumerGone => self.stream.rx.receiver
                && !self.stream.control.ctrl.receiver,
            ControllerEvent::Command(_) => self.stream.control.ctrl.senders > 0,
            ControllerEvent::HandleAdded => 0 < self.stream.control.ctrl.senders < usize::MAX,
            ControllerEvent::HandleGone => self.stream.control.ctrl.senders > 0,
            ControllerEvent::ThreadGone => self.controller.phase == ControllerPhase::Ended
                && self.stream.control.ctrl.receiver,
            _ => true,
        }
    }

    /// The thread got what it asked for, and is at `phase`.
    pub open spec fn at(self, phase: ControllerPhase) -> ControllerRun {
        ControllerRun { controller: Controller { phase }, asked: None, ..self }
    }

    pub open spec fn after(self, event: ControllerEvent) -> ControllerRun {
        match event {
            ControllerEvent::Advance => ControllerRun {
                controller: self.controller.advanced(self.stream),
                stream: self.controller.stream_advanced(self.stream),
                asked: Some(self.controller.advanced(self.stream).action()),
                ..self
            },
            ControllerEvent::Applied => ControllerRun {
                carried_out: match self.asked {
                    Some(ControllerAction::Apply(command)) => self.carried_out.push(command),
                    _ => self.carried_out,
                },
                ..self.at(ControllerPhase::Checking)
            },
            ControllerEvent::TimedOut => self.at(ControllerPhase::Checking),
            ControllerEvent::Joined => ControllerRun {
                readers_ended: true,
                ..self.at(ControllerPhase::Closing)
            },
            ControllerEvent::Closed => ControllerRun {
                device_closed: true,
                ..self.at(ControllerPhase::Ended)
            },
            ControllerEvent::Read(read) => ControllerRun { stream: self.stream.fed(read), ..self },
            ControllerEvent::Receive => ControllerRun { stream: self.stream.taken(), ..self },
            ControllerEvent::Command(command) => ControllerRun {
                stream: self.stream.commanded(command),
                sent: if self.stream.control.ctrl.accepts() {
                    self.sent.push(command)
                } else {
                    self.sent
                },
                ..self
            },
            ControllerEvent::Stop => ControllerRun { stream: self.stream.stopped(), ..self },
            ControllerEvent::ConsumerGone => ControllerRun {
                stream: self.stream.consumer_gone(),
                ..self
            },
            ControllerEvent::HandleAdded => ControllerRun {
                stream: self.stream.with_handles((self.stream.control.ctrl.senders + 1) as usize),
                ..self
            },
            ControllerEvent::HandleGone => ControllerRun {
                stream: self.stream.with_handles((self.stream.control.ctrl.senders - 1) as usize),
                ..self
            },
            ControllerEvent::ThreadGone => ControllerRun {
                stream: self.stream.producer_gone(),
                ..self
            },
        }
    }

    pub open spec fn after_all(self, events: Seq<ControllerEvent>) -> ControllerRun
        decreases events.len(),
    {
        if events.len() == 0 {
            self
        } else {
            self.after_all(events.drop_last()).after(events.last())
        }
    }

    pub open spec fn all_possible(self, events: Seq<ControllerEvent>) -> bool
        decreases events.len(),
    {
        events.len() == 0 || {
            &&& self.all_possible(events.drop_last())
            &&& self.after_all(events.drop_last()).possible(events.last())
        }
    }

    /// The command that was asked for and is being carried out.
    pub open spec fn under_way(self) -> Seq<AsyncReadControl> {
        match self.asked {
            Some(ControllerAction::Apply(command)) => seq![command],
            _ => Seq::empty(),
        }
    }

    /// The thread is past its last command.
    pub open spec fn is_ending(self) -> bool {
        self.controller.phase == ControllerPhase::Joining || self.controller.phase
            == ControllerPhase::Closing || self.controller.phase == ControllerPhase::Ended
    }

    pub open spec fn inv(self) -> bool {
        &&& self.stream.wf()
        &&& self.stream.control.ctrl.receiver ==> self.stream.rx.senders == 1 && self.sent
            == self.carried_out + self.under_way() + self.stream.control.ctrl.items
        &&& !self.stream.control.ctrl.receiver ==> self.controller.phase == ControllerPhase::Ended
        &&& self.carried_out.is_prefix_of(self.sent)
        &&& self.is_ending() ==> self.stream.control.stop
        &&& self.readers_ended <==> (self.controller.phase == ControllerPhase::Closing
            || self.controller.phase == ControllerPhase::Ended)
        &&& self.device_closed <==> self.controller.phase == ControllerPhase::Ended
        &&& self.stream.control.ctrl.receiver ==> self.stream.rx.receiver
        &&& match self.controller.phase {
            ControllerPhase::Checking => self.asked is None,
            ControllerPhase::Waiting => self.asked == Some(
                ControllerAction::AwaitCommand { millis: 100 },
            ),
            ControllerPhase::Applying(command) => self.asked == Some(
                ControllerAction::Apply(command),
            ),
            ControllerPhase::Joining => self.asked == Some(ControllerAction::JoinReaders),
            ControllerPhase::Closing => self.asked is None || self.asked == Some(
                ControllerAction::Close,
            ),
            ControllerPhase::Ended => self.asked is None || self.asked == Some(
                ControllerAction::Finished,
            ),
        }
    }
}

/// What one event keeps.
#[verifier::spinoff_prover]
#[verifier::rlimit(40)]
proof fn lemma_controller_inv_kept(w: ControllerRun, event: ControllerEvent)
    requires
        w.inv(),
        w.possible(event),
    ensures
        w.after(event).inv(),
{
    let next = w.after(event);
    crate::channel::law_oldest_item_is_received(w.stream.control.ctrl);
    if event is Command {
        if w.stream.control.ctrl.receiver {
            assert(next.sent =~= next.carried_out + next.under_way()
                + next.stream.control.ctrl.items);
        }
    } else if !(event is ThreadGone) {
        assert(next.carried_out + next.under_way() + next.stream.control.ctrl.items
            =~= w.carried_out + w.under_way() + w.stream.control.ctrl.items);
    }
    assert(next.carried_out =~= next.sent.subrange(0, next.carried_out.len() as int));
}

proof fn lemma_controller_inv(capacity: usize, events: Seq<ControllerEvent>)
    requires
        capacity > 0,
        ControllerRun::start(capacity).all_possible(events),
    ensures
        ControllerRun::start(capacity).after_all(events).inv(),
    decreases events.len(),
{
    let start = ControllerRun::start(capacity);
    if events.len() > 0 {
        lemma_controller_inv(capacity, events.drop_last());
        lemma_controller_inv_kept(start.after_all(events.drop_last()), events.last());
    } else {
        assert(start.carried_out + start.under_way() + start.stream.control.ctrl.items
            =~= start.sent);
        assert(start.carried_out =~= start.sent.subrange(0, 0));
    }
}

/// Commands are carried out in the order in which they were sent, each of them once, and none that
/// was not sent, while the reading threads go on. As long as the thread is there, those that were
/// not carried out are under way or wait.
pub proof fn law_commands_are_carried_out_in_order(capacity: usize, events: Seq<ControllerEvent>)
    requires
        capacity > 0,
        ControllerRun::start(capacity).all_possible(events),
    ensures
        ({
            let w = ControllerRun::start(capacity).after_all(events);
            &&& w.carried_out.is_prefix_of(w.sent)
            &&& w.stream.control.ctrl.receiver ==> w.sent == w.carried_out + w.under_way()
                + w.stream.control.ctrl.items
        }),
{
    lemma_controller_inv(capacity, events);
}

/// As long as a reading thread is there, so is the consumer's side of the queue, also when the
/// consumer dropped the stream and waits for its threads. So a chunk is dropped and counted only if
/// the queue is full, and nothing else changes the count.
pub proof fn law_only_a_full_queue_drops(
    capacity: usize,
    events: Seq<ControllerEvent>,
    event: ControllerEvent,
)
    requires
        capacity > 0,
        ControllerRun::start(capacity).all_possible(events),
        ControllerRun::start(capacity).after_all(events).possible(event),
    ensures
        ({
            let w = ControllerRun::start(capacity).after_all(events);
            let next = w.after(event);
            &&& !w.readers_ended ==> w.stream.rx.receiver
            &&& next.stream.control.dropped != w.stream.control.dropped <==> {
                &&& event matches ControllerEvent::Read(ChunkView::Data(data)) && data.len() > 0
                &&& w.stream.rx.is_full()
            }
        }),
{
    lemma_controller_inv(capacity, events);
}

/// Before the reading threads are waited for they have been told to stop, and that is never taken
/// back, so each of them ends at its next step. The thread ends only if the stream was asked to
/// stop, or if nobody is left who could send a command.
pub proof fn law_readers_are_told_to_stop(
    capacity: usize,
    events: Seq<ControllerEvent>,
    event: ControllerEvent,
)
    requires
        capacity > 0,
        ControllerRun::start(capacity).all_possible(events),
        ControllerRun::start(capacity).after_all(events).possible(event),
    ensures
        ({
            let w = ControllerRun::start(capacity).after_all(events);
            let next = w.after(event);
            &&& w.is_ending() ==> w.stream.control.stop
            &&& w.stream.control.stop ==> next.stream.control.stop
            &&& w.is_ending() ==> next.is_ending()
            &&& !w.is_ending() && next.is_ending() ==> w.stream.control.stop
                || w.stream.control.ctrl.senders == 0
        }),
{
    lemma_controller_inv(capacity, events);
}

/// How much the controlling thread of a stream that was asked to stop still has to do, at most.
pub open spec fn controller_work_left(phase: ControllerPhase) -> nat {
    match phase {
        ControllerPhase::Waiting => 5,
        ControllerPhase::Applying(_) => 4,
        ControllerPhase::Checking => 3,
        ControllerPhase::Joining => 2,
        ControllerPhase::Closing => 1,
        ControllerPhase::Ended => 0,
    }
}

/// How many commands the controlling thread of a stream that was asked to stop still carries out,
/// at most.
pub open spec fn commands_left(phase: ControllerPhase) -> nat {
    match phase {
        ControllerPhase::Waiting | ControllerPhase::Applying(_) => 1,
        _ => 0,
    }
}

/// A stream that was asked to stop, or whose consumer dropped it, ends: everything that the
/// controlling thread does, and whatever it waits for, leaves it less to do, and nothing that
/// anybody else does adds to it. At most one more command is carried out.
pub proof fn law_stopped_stream_ends(w: ControllerRun, event: ControllerEvent)
    requires
        w.stream.control.stop,
        w.possible(event),
    ensures
        ({
            let next = w.after(event);
            let left = controller_work_left(w.controller.phase);
            &&& next.stream.control.stop
            &&& controller_work_left(next.controller.phase) <= left
            &&& event is Applied || event is TimedOut || event is Joined || event is Closed
                ==> controller_work_left(next.controller.phase) < left
            &&& event is Advance && controller_work_left(next.controller.phase) == left
                ==> next.controller.phase == w.controller.phase && w.controller.phase
                != ControllerPhase::Checking
            &&& left == 0 <==> w.controller.phase == ControllerPhase::Ended
            &&& next.carried_out.len() + commands_left(next.controller.phase)
                <= w.carried_out.len() + commands_left(w.controller.phase)
        }),
{
}

/// What holds once a dropped stream has been waited for: when the controlling thread is gone, the
/// stream is stopped, every reading thread has ended, the device was closed, and every command is
/// refused; neither the count of dropped chunks nor any of this ever changes again.
pub proof fn law_nothing_follows_the_thread(
    capacity: usize,
    events: Seq<ControllerEvent>,
    event: ControllerEvent,
)
    requires
        capacity > 0,
        ControllerRun::start(capacity).all_possible(events),
        ControllerRun::start(capacity).after_all(events).possible(event),
        !ControllerRun::start(capacity).after_all(events).stream.control.ctrl.receiver,
    ensures
        ({
            let w = ControllerRun::start(capacity).after_all(events);
            let next = w.after(event);
            &&& w.stream.control.stop
            &&& w.readers_ended
            &&& w.device_closed
            &&& !w.stream.control.ctrl.accepts()
            &&& next.stream.control.stop
            &&& next.readers_ended
            &&& next.device_closed
            &&& !next.stream.control.ctrl.receiver
            &&& next.sent == w.sent
            &&& next.stream.control.dropped == w.stream.control.dropped
        }),
{
    lemma_controller_inv(capacity, events);
}

/// What becomes of a read of one of the reading threads. If it returned `n` bytes, the consumer
/// finds a chunk of exactly these `n` bytes behind those that wait, if fewer wait than there is
/// room for; otherwise nothing waits that did not wait before, and one more chunk is counted as
/// dropped. An empty read, a timeout and an interruption change nothing. Any other error comes
/// behind the chunks that wait, if there is room, is never counted, and is all that ends the
/// thread.
pub proof fn law_what_becomes_of_a_read(
    stream: StreamView,
    r: Result<usize, RtlsdrError>,
    buf: Seq<u8>,
)
    requires
        r matches Ok(n) ==> n <= buf.len(),
        stream.rx.capacity is Some,
    ensures
        ({
            let read = crate::reader::read_view(r, buf);
            let after = stream.fed(read);
            let room = stream.rx.receiver && stream.rx.items.len() < stream.rx.capacity->0;
            let again = r matches Err(RtlsdrError::Usb(kind)) && (kind
                == crate::error::UsbError::Timeout || kind == crate::error::UsbError::Interrupted);
            &&& after.rx.items == (match r {
                Ok(n) if n > 0 && room => stream.rx.items.push(
                    ChunkView::Data(Seq::new(n as nat, |i: int| buf[i])),
                ),
                Err(e) if !again && room => stream.rx.items.push(ChunkView::Failed(e@)),
                _ => stream.rx.items,
            })
            &&& after.control.dropped == (if r is Ok && r->Ok_0 > 0 && !room {
                (stream.control.dropped + 1) % 0x1_0000_0000_0000_0000
            } else {
                stream.control.dropped as int
            })
            &&& after.rx.capacity == stream.rx.capacity
            &&& after.rx.senders == stream.rx.senders
            &&& after.rx.receiver == stream.rx.receiver
            &&& after.control.stop == stream.control.stop
            &&& after.control.ctrl == stream.control.ctrl
            &&& ends_worker(read) <==> r is Err && !again
        }),
{
    if let Ok(n) = r {
        assert(buf.take(n as int) =~= Seq::new(n as nat, |i: int| buf[i]));
    }
}

/// What the controlling thread asks for next. At the start of a round it waits for its readers if
/// the stream is to stop. If not, or while it waits for a command, it asks for the command that was
/// sent first, as it was sent, and that command alone leaves the queue; if none waits, it waits for
/// one for 100 milliseconds, or, if nobody is left who could send one, stops the stream and waits
/// for its readers. What was asked for before is asked for again. A thread that has ended asks for
/// nothing. Chunks are none of its business.
pub proof fn law_what_the_controlling_thread_asks_for(controller: Controller, stream: StreamView)
    ensures
        ({
            let next = controller.advanced(stream);
            let action = next.action();
            let after = controller.stream_advanced(stream);
            let commands = stream.control.ctrl.items;
            let stops = controller.phase == ControllerPhase::Checking && stream.control.stop;
            let listens = controller.phase == ControllerPhase::Waiting || (controller.phase
                == ControllerPhase::Checking && !stream.control.stop);
            let alone = listens && commands.len() == 0 && stream.control.ctrl.senders == 0;
            &&& stops || alone ==> action == ControllerAction::JoinReaders && after.control.stop
            &&& listens && commands.len() > 0 ==> {
                &&& action == ControllerAction::Apply(commands[0])
                &&& commands == seq![commands[0]] + after.control.ctrl.items
            }
            &&& listens && commands.len() == 0 && !alone ==> action
                == ControllerAction::AwaitCommand { millis: 100 }
            &&& controller.phase matches ControllerPhase::Applying(command) ==> action
                == ControllerAction::Apply(command)
            &&& controller.phase == ControllerPhase::Joining ==> action
                == ControllerAction::JoinReaders
            &&& controller.phase == ControllerPhase::Closing ==> action == ControllerAction::Close
            &&& controller.phase == ControllerPhase::Ended ==> action == ControllerAction::Finished
            &&& match action {
                ControllerAction::Apply(command) => next.phase == ControllerPhase::Applying(
                    command,
                ),
                ControllerAction::AwaitCommand { .. } => next.phase == ControllerPhase::Waiting,
                ControllerAction::JoinReaders => next.phase == ControllerPhase::Joining,
                ControllerAction::Close => next.phase == ControllerPhase::Closing,
                ControllerAction::Finished => next.phase == ControllerPhase::Ended,
            }
            &&& !(listens && commands.len() > 0) ==> after.control.ctrl.items == commands
            &&& !stops && !alone ==> after.control.stop == stream.control.stop
            &&& after.control.ctrl.capacity == stream.control.ctrl.capacity
            &&& after.control.ctrl.senders == stream.control.ctrl.senders
            &&& after.control.ctrl.receiver == stream.control.ctrl.receiver
            &&& after.control.dropped == stream.control.dropped
            &&& after.rx == stream.rx
            &&& TURN_MILLIS == 100
        }),
{
    crate::channel::law_oldest_item_is_received(stream.control.ctrl);
}

/// What was asked for is what is awaited. A command is carried out, the wait for one ends, the
/// readers have ended and the device is closed only when the thread asked for that last, so the
/// command that was carried out is the one that was asked for.
pub proof fn law_only_what_was_asked_for_happens(capacity: usize, events: Seq<ControllerEvent>)
    requires
        capacity > 0,
        ControllerRun::start(capacity).all_possible(events),
    ensures
        ({
            let w = ControllerRun::start(capacity).after_all(events);
            &&& w.possible(ControllerEvent::Applied) <==> (w.asked matches Some(
                ControllerAction::Apply(_),
            ))
            &&& w.possible(ControllerEvent::TimedOut) <==> w.asked == Some(
                ControllerAction::AwaitCommand { millis: 100 },
            )
            &&& w.possible(ControllerEvent::Joined) <==> w.asked == Some(
                ControllerAction::JoinReaders,
            )
            &&& w.asked == Some(ControllerAction::Close) ==> w.possible(ControllerEvent::Closed)
            &&& w.asked == Some(ControllerAction::Finished) ==> w.readers_ended && w.device_closed
            &&& w.asked matches Some(ControllerAction::Apply(command)) ==> w.after(
                ControllerEvent::Applied,
            ).carried_out == w.carried_out.push(command)
        }),
{
    lemma_controller_inv(capacity, events);
}

/// The queue keeps its size: as many chunks may wait as there was room for at first, and never do
/// more wait.
pub proof fn law_queue_keeps_its_size(capacity: usize, events: Seq<ControllerEvent>)
    ensures
        ControllerRun::start(capacity).after_all(events).stream.rx.capacity == Some(capacity),
        ControllerRun::start(capacity).after_all(events).stream.rx.items.len() <= capacity,
    decreases events.len(),
{
    if events.len() > 0 {
        law_queue_keeps_its_size(capacity, events.drop_last());
        lemma_queue_size_kept(
            ControllerRun::start(capacity).after_all(events.drop_last()),
            events.last(),
        );
    }
}

#[verifier::spinoff_prover]
#[verifier::rlimit(40)]
proof fn lemma_queue_size_kept(w: ControllerRun, event: ControllerEvent)
    requires
        w.stream.rx.capacity matches Some(n) && w.stream.rx.items.len() <= n,
    ensures
        w.after(event).stream.rx.capacity == w.stream.rx.capacity,
        w.after(event).stream.rx.items.len() <= w.stream.rx.capacity->0,
{
    match event {
        ControllerEvent::Read(read) => {
            crate::channel::law_item_is_taken_if_there_is_room(w.stream.rx, read);
        },
        ControllerEvent::Receive => {
            crate::channel::law_oldest_item_is_received(w.stream.rx);
        },
        _ => {},
    }
}

/// A reading thread reads until it is told to stop, and no longer: it goes on exactly as long as
/// the stream is not to stop and no read of its own failed for good. Nothing else ends it, however
/// much was dropped and whatever waits, and once it has ended it stays so.
pub proof fn law_reading_thread_reads_until_told_to_stop(stream: AsyncReadHandle)
    ensures
        forall|worker: TransferReader| #[trigger]
            call_ensures(TransferReader::new, (), worker) ==> !worker.ended,
        forall|worker: &mut TransferReader, action: WorkerAction| #[trigger]
            call_ensures(TransferReader::advance, (worker, &stream), action) ==> {
                &&& action == WorkerAction::Read <==> !worker.ended && !stream@.control.stop
                &&& final(worker).ended <==> worker.ended || stream@.control.stop
            },
        forall|
            worker: &mut TransferReader,
            fed: &mut AsyncReadHandle,
            r: Result<usize, RtlsdrError>,
            buf: &[u8],
        | #[trigger]
            call_ensures(TransferReader::read_done, (worker, fed, r, buf), ()) ==> (
            final(worker).ended <==> worker.ended || (r is Err && r->Err_0
                != RtlsdrError::Usb(crate::error::UsbError::Timeout) && r->Err_0
                != RtlsdrError::Usb(crate::error::UsbError::Interrupted))),
{
}

/// What the controlling thread makes of replies: a wait for a command that was in vain, and a
/// command that was carried out, well or badly, are followed by a new round, in which it looks
/// again whether the stream is to stop; the readers' end is followed by closing the device, and
/// that by its own end. The error of a command is handed back, whichever it is. What comes without
/// having been asked for changes nothing.
pub proof fn law_what_the_controlling_thread_makes_of_replies()
    ensures
        forall|c: Controller| #[trigger]
            call_ensures(Controller::new, (), c) ==> c.phase == ControllerPhase::Checking,
        forall|c: &mut Controller| #[trigger]
            call_ensures(Controller::timed_out, (c,), ()) ==> final(c).phase == (if c.phase
                == ControllerPhase::Waiting {
                ControllerPhase::Checking
            } else {
                c.phase
            }),
        forall|c: &mut Controller, r: Result<(), RtlsdrError>, warning: Option<RtlsdrError>|
            #[trigger] call_ensures(Controller::applied, (c, r), warning) ==> {
                &&& final(c).phase == (if c.phase is Applying {
                    ControllerPhase::Checking
                } else {
                    c.phase
                })
                &&& warning is Some <==> r is Err
                &&& r matches Err(e) ==> warning == Some(e)
            },
        forall|c: &mut Controller| #[trigger]
            call_ensures(Controller::joined, (c,), ()) ==> final(c).phase == (if c.phase
                == ControllerPhase::Joining {
                ControllerPhase::Closing
            } else {
                c.phase
            }),
        forall|c: &mut Controller| #[trigger]
            call_ensures(Controller::closed, (c,), ()) ==> final(c).phase == (if c.phase
                == ControllerPhase::Closing {
                ControllerPhase::Ended
            } else {
                c.phase
            }),
{
}

/// What the threads of a stream are told and asked is what the runs above follow.
pub proof fn law_threads_follow_the_run(buf: &[u8])
    ensures
        forall|c: &mut Controller, stream: &mut AsyncReadHandle, action: ControllerAction|
            #[trigger] call_ensures(Controller::advance, (c, stream), action) ==> {
                &&& *final(c) == c.advanced(stream@)
                &&& final(stream)@ == c.stream_advanced(stream@)
                &&& action == c.advanced(stream@).action()
            },
        forall|
            worker: &mut TransferReader,
            stream: &mut AsyncReadHandle,
            r: Result<usize, RtlsdrError>,
        | #[trigger]
            call_ensures(TransferReader::read_done, (worker, stream, r, buf), ())
                ==> final(stream)@ == stream@.fed(crate::reader::read_view(r, buf@)),
{
}

} // verus!
