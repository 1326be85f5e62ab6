//! The loop of a stream that one thread feeds, one read at a time.
//!
//! In each round the reader looks whether it is to stop, carries out the commands that wait, reads
//! once, and hands what it read to the consumer, waiting for room in the queue if need be. An
//! [`AsyncReader`] decides what comes next; whoever runs it does the work on the device.

use crate::channel::{Received, TrySendError};
use crate::error::{ErrorView, RtlsdrError};
use crate::stream::{AsyncReadControl, AsyncReadHandle, ChunkView, StreamView};
use vstd::prelude::*;

verus! {

/// Where in its round the reader is.
#[derive(Debug, Clone, Copy, PartialEq, Eq, Structural)]
pub enum ReaderPhase {
    /// At the start of a round: is the stream to stop?
    Checking,
    /// Carrying out the commands that wait.
    Commands,
    /// Carrying out this command.
    Applying(AsyncReadControl),
    Reading,
    /// Handing over what was read.
    Sending,
    /// Closing the device.
    Closing,
    Ended,
}

/// What has to be done before the reader can go on.
#[derive(Debug, Clone, Copy, PartialEq, Eq, Structural)]
pub enum ReaderAction {
    /// Carry out a command on the device.
    Apply(AsyncReadControl),
    /// Read from the device.
    Read,
    /// Wait until the consumer made room in the queue, or is gone.
    AwaitRoom,
    /// Close the device.
    Close,
    /// Nothing any more.
    Finished,
}

#[derive(Debug)]
pub struct AsyncReader {
    pub phase: ReaderPhase,
    /// What was read and not yet handed over.
    pub in_hand: Option<Result<Vec<u8>, RtlsdrError>>,
}

/// The state of an [`AsyncReader`].
#[verifier::ext_equal]
pub struct ReaderView {
    pub phase: ReaderPhase,
    pub in_hand: Option<ChunkView>,
}

impl View for AsyncReader {
    type V = ReaderView;

    open spec fn view(&self) -> ReaderView {
        ReaderView {
            phase: self.phase,
            in_hand: match self.in_hand {
                Some(chunk) => Some(crate::stream::chunk_view(chunk)),
                None => None,
            },
        }
    }
}

/// What a read into `buf` brought that returned `r`.
pub open spec fn read_view(r: Result<usize, RtlsdrError>, buf: Seq<u8>) -> ChunkView {
    match r {
        Ok(n) => ChunkView::Data(buf.take(n as int)),
        Err(e) => ChunkView::Failed(e@),
    }
}

impl ReaderView {
    /// Something is in hand exactly while it is being handed over.
    pub open spec fn wf(self) -> bool {
        self.in_hand is Some <==> self.phase == ReaderPhase::Sending
    }

    pub open spec fn fresh() -> ReaderView {
        ReaderView { phase: ReaderPhase::Checking, in_hand: None }
    }

    pub open spec fn at(phase: ReaderPhase) -> ReaderView {
        ReaderView { phase, in_hand: None }
    }

    /// What is in hand is handed over if there is room; then a new round begins, unless it was an
    /// error. If the consumer is gone, nobody needs more.
    pub open spec fn handed_over(self, stream: StreamView) -> ReaderView {
        match self.in_hand {
            Some(chunk) if self.phase == ReaderPhase::Sending => if !stream.rx.receiver {
                ReaderView::at(ReaderPhase::Closing)
            } else if stream.rx.is_full() {
                self
            } else if chunk is Data {
                ReaderView::at(ReaderPhase::Checking)
            } else {
                ReaderView::at(ReaderPhase::Closing)
            },
            _ => self,
        }
    }

    pub open spec fn stream_handed_over(self, stream: StreamView) -> StreamView {
        match self.in_hand {
            Some(chunk) if self.phase == ReaderPhase::Sending => stream.offered(chunk),
            _ => stream,
        }
    }

    /// A round begins only as long as the stream is not to stop.
    pub open spec fn checked(self, stream: StreamView) -> ReaderView {
        if self.phase == ReaderPhase::Checking {
            ReaderView {
                phase: if stream.control.stop {
                    ReaderPhase::Closing
                } else {
                    ReaderPhase::Commands
                },
                ..self
            }
        } else {
            self
        }
    }

    /// The next command is carried out; if there is none, it is time to read.
    pub open spec fn commanded(self, stream: StreamView) -> ReaderView {
        if self.phase == ReaderPhase::Commands {
            ReaderView {
                phase: match stream.control.ctrl.front() {
                    Received::Item(command) => ReaderPhase::Applying(command),
                    _ => ReaderPhase::Reading,
                },
                ..self
            }
        } else {
            self
        }
    }

    pub open spec fn stream_commanded(self, stream: StreamView) -> StreamView {
        if self.phase == ReaderPhase::Commands {
            stream.command_taken()
        } else {
            stream
        }
    }

    /// The state at the next point at which there is something to do or to wait for.
    pub open spec fn advanced(self, stream: StreamView) -> ReaderView {
        self.handed_over(stream).checked(stream).commanded(stream)
    }

    pub open spec fn stream_advanced(self, stream: StreamView) -> StreamView {
        self.handed_over(stream).checked(stream).stream_commanded(
            self.stream_handed_over(stream),
        )
    }

    /// What has to be done at such a point.
    pub open spec fn action(self) -> ReaderAction {
        match self.phase {
            ReaderPhase::Applying(command) => ReaderAction::Apply(command),
            ReaderPhase::Reading => ReaderAction::Read,
            ReaderPhase::Sending => ReaderAction::AwaitRoom,
            ReaderPhase::Closing => ReaderAction::Close,
            _ => ReaderAction::Finished,
        }
    }

    /// A command that succeeded is followed by the next; one that failed ends the reader.
    pub open spec fn applied(self, failed: bool) -> ReaderView {
        if self.phase is Applying {
            ReaderView {
                phase: if failed {
                    ReaderPhase::Ended
                } else {
                    ReaderPhase::Commands
                },
                ..self
            }
        } else {
            self
        }
    }

    /// The consumer learns of a command that failed, if there is room.
    pub open spec fn stream_applied(
        self,
        stream: StreamView,
        failure: Option<ErrorView>,
    ) -> StreamView {
        match failure {
            Some(e) if self.phase is Applying => stream.offered(ChunkView::Failed(e)),
            _ => stream,
        }
    }

    /// What a read brought is handed over next; after an empty read a new round begins.
    pub open spec fn after_read(self, read: ChunkView) -> ReaderView {
        if self.phase == ReaderPhase::Reading {
            if read.is_empty() {
                ReaderView::at(ReaderPhase::Checking)
            } else {
                ReaderView { phase: ReaderPhase::Sending, in_hand: Some(read) }
            }
        } else {
            self
        }
    }

    pub open spec fn closed(self) -> ReaderView {
        if self.phase == ReaderPhase::Closing {
            ReaderView { phase: ReaderPhase::Ended, ..self }
        } else {
            self
        }
    }
}

impl AsyncReader {
    pub fn new() -> (reader: AsyncReader)
        ensures
            reader@ == ReaderView::fresh(),
            reader@.wf(),
    {
        AsyncReader { phase: ReaderPhase::Checking, in_hand: None }
    }

    fn hand_over(&mut self, stream: &mut AsyncReadHandle)
        requires
            old(self)@.wf(),
        ensures
            final(self)@ == old(self)@.handed_over(old(stream)@),
            final(self)@.wf(),
            final(stream)@ == old(self)@.stream_handed_over(old(stream)@),
            old(stream)@.wf() ==> final(stream)@.wf(),
    {
        if let Some(chunk) = self.in_hand.take() {
            let is_data: bool = chunk.is_ok();
            match stream.offer(chunk) {
                Ok(_) => {
                    self.phase = if is_data {
                        ReaderPhase::Checking
                    } else {
                        ReaderPhase::Closing
                    };
                },
                Err(TrySendError::Full(chunk)) => {
                    self.in_hand = Some(chunk);
                },
                Err(TrySendError::Disconnected(_)) => {
                    self.phase = ReaderPhase::Closing;
                },
            }
        }
    }

    /// Goes on to the next point at which there is something to do or to wait for.
    pub fn advance(&mut self, stream: &mut AsyncReadHandle) -> (action: ReaderAction)
        requires
            old(self)@.wf(),
        ensures
            final(self)@ == old(self)@.advanced(old(stream)@),
            final(self)@.wf(),
            final(stream)@ == old(self)@.stream_advanced(old(stream)@),
            old(stream)@.wf() ==> final(stream)@.wf(),
            action == final(self)@.action(),
            action matches ReaderAction::Apply(command) ==> {
                ||| old(self).phase == ReaderPhase::Applying(command)
                ||| old(stream)@.control.ctrl.items == seq![command]
                    + final(stream)@.control.ctrl.items
            },
            !(action is Apply) ==> final(stream)@.control == old(stream)@.control,
    {
        proof {
            crate::channel::law_oldest_item_is_received(stream@.control.ctrl);
        }
        self.hand_over(stream);
        if self.phase == ReaderPhase::Checking {
            self.phase = if stream.control.stop {
                ReaderPhase::Closing
            } else {
                ReaderPhase::Commands
            };
        }
        if self.phase == ReaderPhase::Commands {
            self.phase = match stream.next_command() {
                Received::Item(command) => ReaderPhase::Applying(command),
                Received::Empty => ReaderPhase::Reading,
                Received::Disconnected => ReaderPhase::Reading,
            };
        }
        match self.phase {
            ReaderPhase::Applying(command) => ReaderAction::Apply(command),
            ReaderPhase::Reading => ReaderAction::Read,
            ReaderPhase::Sending => ReaderAction::AwaitRoom,
            ReaderPhase::Closing => ReaderAction::Close,
            _ => ReaderAction::Finished,
        }
    }

    /// Takes note of how carrying out a command went.
    pub fn applied(&mut self, stream: &mut AsyncReadHandle, r: Result<(), RtlsdrError>)
        requires
            old(self)@.wf(),
        ensures
            final(self)@ == old(self)@.applied(r is Err),
            final(self)@.wf(),
            final(stream)@ == old(self)@.stream_applied(
                old(stream)@,
                match r {
                    Ok(_) => None,
                    Err(e) => Some(e@),
                },
            ),
            old(stream)@.wf() ==> final(stream)@.wf(),
    {
        if let ReaderPhase::Applying(_) = self.phase {
            match r {
                Ok(_) => {
                    self.phase = ReaderPhase::Commands;
                },
                Err(e) => {
                    let _ = stream.offer(Err(e));
                    self.phase = ReaderPhase::Ended;
                },
            }
        }
    }

    /// Takes note of what a read into `buf` returned.
    pub fn read_done(&mut self, r: Result<usize, RtlsdrError>, buf: &[u8])
        requires
            old(self)@.wf(),
            r matches Ok(n) ==> n <= buf@.len(),
        ensures
            final(self)@ == old(self)@.after_read(read_view(r, buf@)),
            final(self)@.wf(),
            old(self).phase == ReaderPhase::Reading && r is Ok && r->Ok_0 > 0 ==> {
                &&& final(self).in_hand is Some
                &&& final(self).in_hand->0 is Ok
                &&& final(self).in_hand->0->Ok_0@ == buf@.subrange(0, r->Ok_0 as int)
            },
    {
        if self.phase == ReaderPhase::Reading {
            match r {
                Ok(n) => {
                    if n == 0 {
                        self.phase = ReaderPhase::Checking;
                    } else {
                        let data = vstd::slice::slice_subrange(buf, 0, n);
                        self.in_hand = Some(Ok(vstd::slice::slice_to_vec(data)));
                        self.phase = ReaderPhase::Sending;
                    }
                },
                Err(e) => {
                    self.in_hand = Some(Err(e));
                    self.phase = ReaderPhase::Sending;
                },
            }
        }
    }

    /// Takes note that the device was closed.
    pub fn closed(&mut self)
        requires
            old(self)@.wf(),
        ensures
            final(self)@ == old(self)@.closed(),
            final(self)@.wf(),
    {
        if self.phase == ReaderPhase::Closing {
            self.phase = ReaderPhase::Ended;
        }
    }
}

/// Something that happens while a reader feeds a stream.
pub enum ReaderEvent {
    /// The reader goes on.
    Advance,
    /// A command was carried out, or failed.
    Applied(Option<ErrorView>),
    /// A read returned this, and the buffer holds that.
    Read(Result<usize, RtlsdrError>, Seq<u8>),
    /// The device was closed.
    Closed,
    /// The consumer asks for a chunk.
    Receive,
    /// The consumer sends a command.
    Command(AsyncReadControl),
    /// The consumer asks the stream to stop.
    Stop,
    /// The consumer leaves.
    ConsumerGone,
    /// One more control handle is given out.
    HandleAdded,
    /// A control handle, or the consumer, sends no more commands.
    HandleGone,
    /// The reader has ended and its thread leaves.
    ThreadGone,
}

/// A stream and its reader, with what has happened so far: what the reader asked for last and has
/// not got yet, the bytes that the reads brought, what the reader had to hand over, what the
/// consumer received, the commands that were sent, those that were carried out, whether a read or a
/// command failed, whether it was a command, and whether the device was closed.
pub struct ReaderRun {
    pub reader: ReaderView,
    pub stream: StreamView,
    pub asked: Option<ReaderAction>,
    pub brought: Seq<u8>,
    pub produced: Seq<ChunkView>,
    pub received: Seq<ChunkView>,
    pub sent: Seq<AsyncReadControl>,
    pub carried_out: Seq<AsyncReadControl>,
    pub failed: bool,
    pub command_failed: bool,
    pub device_closed: bool,
}

impl ReaderRun {
    pub open spec fn start(capacity: usize) -> ReaderRun {
        ReaderRun {
            reader: ReaderView::fresh(),
            stream: StreamView::fresh(capacity),
            asked: None,
            brought: Seq::empty(),
            produced: Seq::empty(),
            received: Seq::empty(),
            sent: Seq::empty(),
            carried_out: Seq::empty(),
            failed: false,
            command_failed: false,
            device_closed: false,
        }
    }

    /// The device does what the reader asks for; the consumer does what it likes until it leaves,
    /// and other control handles even then. Who has no handle sends no commands.
    pub open spec fn possible(self, event: ReaderEvent) -> bool {
        match event {
            ReaderEvent::Receive => self.stream.rx.receiver,
            ReaderEvent::ConsumerGone => self.stream.rx.receiver,
            ReaderEvent::Command(_) => self.stream.control.ctrl.senders > 0,
            ReaderEvent::HandleAdded => 0 < self.stream.control.ctrl.senders < usize::MAX,
            ReaderEvent::HandleGone => self.stream.control.ctrl.senders > 0,
            ReaderEvent::ThreadGone => self.reader.phase == ReaderPhase::Ended
                && self.stream.control.ctrl.receiver,
            ReaderEvent::Applied(_) => self.reader.phase is Applying,
            ReaderEvent::Read(r, buf) => {
                &&& self.reader.phase == ReaderPhase::Reading
                &&& r matches Ok(n) ==> n <= buf.len()
            },
            ReaderEvent::Closed => self.reader.phase == ReaderPhase::Closing,
            _ => true,
        }
    }

    pub open spec fn after(self, event: ReaderEvent) -> ReaderRun {
        match event {
            ReaderEvent::Advance => ReaderRun {
                reader: self.reader.advanced(self.stream),
                stream: self.reader.stream_advanced(self.stream),
                asked: Some(self.reader.advanced(self.stream).action()),
                ..self
            },
            ReaderEvent::Applied(failure) => ReaderRun {
                reader: self.reader.applied(failure is Some),
                stream: self.reader.stream_applied(self.stream, failure),
                produced: match failure {
                    Some(e) if self.stream.rx.accepts() => self.produced.push(ChunkView::Failed(e)),
                    _ => self.produced,
                },
                carried_out: match self.asked {
                    Some(ReaderAction::Apply(command)) => self.carried_out.push(command),
                    _ => self.carried_out,
                },
                asked: None,
                failed: self.failed || failure is Some,
                command_failed: self.command_failed || failure is Some,
                ..self
            },
            ReaderEvent::Read(r, buf) => ReaderRun {
                reader: self.reader.after_read(read_view(r, buf)),
                asked: None,
                brought: match r {
                    Ok(n) => self.brought + buf.subrange(0, n as int),
                    Err(_) => self.brought,
                },
                produced: match r {
                    Ok(n) => if n == 0 {
                        self.produced
                    } else {
                        self.produced.push(ChunkView::Data(buf.subrange(0, n as int)))
                    },
                    Err(e) => self.produced.push(ChunkView::Failed(e@)),
                },
                failed: self.failed || r is Err,
                ..self
            },
            ReaderEvent::Closed => ReaderRun {
                reader: self.reader.closed(),
                asked: None,
                device_closed: true,
                ..self
            },
            ReaderEvent::Receive => ReaderRun {
                stream: self.stream.taken(),
                received: match self.stream.rx.front() {
                    Received::Item(chunk) => self.received.push(chunk),
                    _ => self.received,
                },
                ..self
            },
            ReaderEvent::Command(command) => ReaderRun {
                stream: self.stream.commanded(command),
                sent: if self.stream.control.ctrl.accepts() {
                    self.sent.push(command)
                } else {
                    self.sent
                },
                ..self
            },
            ReaderEvent::Stop => ReaderRun { stream: self.stream.stopped(), ..self },
            ReaderEvent::ConsumerGone => ReaderRun { stream: self.stream.consumer_gone(), ..self },
            ReaderEvent::HandleAdded => ReaderRun {
                stream: self.stream.with_handles((self.stream.control.ctrl.senders + 1) as usize),
                ..self
            },
            ReaderEvent::HandleGone => ReaderRun {
                stream: self.stream.with_handles((self.stream.control.ctrl.senders - 1) as usize),
                ..self
            },
            ReaderEvent::ThreadGone => ReaderRun { stream: self.stream.producer_gone(), ..self },
        }
    }

    pub open spec fn after_all(self, events: Seq<ReaderEvent>) -> ReaderRun
        decreases events.len(),
    {
        if events.len() == 0 {
            self
        } else {
            self.after_all(events.drop_last()).after(events.last())
        }
    }

    pub open spec fn all_possible(self, events: Seq<ReaderEvent>) -> bool
        decreases events.len(),
    {
        events.len() == 0 || {
            &&& self.all_possible(events.drop_last())
            &&& self.after_all(events.drop_last()).possible(events.last())
        }
    }

    /// What the reader holds and has not handed over.
    pub open spec fn held(self) -> Seq<ChunkView> {
        match self.reader.in_hand {
            Some(chunk) => seq![chunk],
            None => Seq::empty(),
        }
    }

    /// The command that was asked for and is being carried out.
    pub open spec fn under_way(self) -> Seq<AsyncReadControl> {
        match self.asked {
            Some(ReaderAction::Apply(command)) => seq![command],
            _ => Seq::empty(),
        }
    }

    /// The reader is past its last read and its last command.
    pub open spec fn is_ending(self) -> bool {
        ||| self.reader.phase == ReaderPhase::Closing
        ||| self.reader.phase == ReaderPhase::Ended
        ||| self.reader.in_hand matches Some(chunk) && chunk is Failed
    }

    pub open spec fn inv(self) -> bool {
        &&& self.stream.wf()
        &&& self.reader.wf()
        &&& self.stream.rx.receiver ==> self.produced == self.received + self.stream.rx.items
            + self.held()
        &&& self.received.is_prefix_of(self.produced)
        &&& self.stream.control.ctrl.receiver ==> self.stream.rx.senders == 1 && self.sent
            == self.carried_out + self.under_way() + self.stream.control.ctrl.items
        &&& !self.stream.control.ctrl.receiver ==> self.reader.phase == ReaderPhase::Ended
        &&& self.carried_out.is_prefix_of(self.sent)
        &&& self.reader.in_hand matches Some(chunk) ==> self.produced.len() > 0
            && self.produced.last() == chunk
        &&& forall|i: int|
            0 <= i < self.produced.len() ==> !(#[trigger] self.produced[i]).is_empty()
        &&& forall|i: int|
            0 <= i < self.produced.len() - 1 ==> (#[trigger] self.produced[i]) is Data
        &&& self.produced.len() > 0 && self.produced.last() is Failed ==> self.failed
        &&& self.failed ==> self.is_ending()
        &&& self.is_ending() ==> self.failed || self.stream.control.stop
            || !self.stream.rx.receiver
        &&& self.reader.phase == ReaderPhase::Ended <==> self.device_closed || self.command_failed
        &&& !(self.device_closed && self.command_failed)
        &&& self.stream.control.dropped == 0
        &&& bytes_of(self.produced) == self.brought
        &&& match self.reader.phase {
            ReaderPhase::Applying(command) => self.asked == Some(ReaderAction::Apply(command)),
            ReaderPhase::Reading => self.asked == Some(ReaderAction::Read),
            ReaderPhase::Closing => self.asked == Some(ReaderAction::Close),
            ReaderPhase::Sending => self.asked is None || self.asked == Some(
                ReaderAction::AwaitRoom,
            ),
            ReaderPhase::Ended => self.asked is None || self.asked == Some(ReaderAction::Finished),
            _ => self.asked is None,
        }
    }
}

/// The bytes of the chunks, joined.
pub open spec fn bytes_of(chunks: Seq<ChunkView>) -> Seq<u8>
    decreases chunks.len(),
{
    if chunks.len() == 0 {
        Seq::empty()
    } else {
        bytes_of(chunks.drop_last()) + match chunks.last() {
            ChunkView::Data(data) => data,
            ChunkView::Failed(_) => Seq::empty(),
        }
    }
}

proof fn lemma_bytes_of_both(a: Seq<ChunkView>, b: Seq<ChunkView>)
    ensures
        bytes_of(a + b) == bytes_of(a) + bytes_of(b),
    decreases b.len(),
{
    if b.len() == 0 {
        assert(a + b =~= a);
        assert(bytes_of(a) + bytes_of(b) =~= bytes_of(a));
    } else {
        lemma_bytes_of_both(a, b.drop_last());
        assert((a + b).drop_last() =~= a + b.drop_last());
        assert(bytes_of(a + b) =~= bytes_of(a) + bytes_of(b));
    }
}

#[verifier::spinoff_prover]
#[verifier::rlimit(60)]
proof fn lemma_run_inv_kept(w: ReaderRun, event: ReaderEvent)
    requires
        w.inv(),
        w.possible(event),
    ensures
        w.after(event).inv(),
{
    let next = w.after(event);
    crate::channel::law_oldest_item_is_received(w.stream.control.ctrl);
    assert(bytes_of(next.produced) =~= next.brought) by {
        if next.produced.len() > w.produced.len() {
            assert(next.produced.drop_last() =~= w.produced);
        }
    }
    assert(w.stream.rx.receiver ==> next.received.is_prefix_of(next.produced)) by {
        if w.stream.rx.receiver {
            assert(next.received =~= next.produced.subrange(0, next.received.len() as int));
        }
    }
    match event {
        ReaderEvent::Advance => {
            if w.stream.rx.receiver {
                assert(next.received + next.stream.rx.items + next.held() =~= w.received
                    + w.stream.rx.items + w.held());
            }
            assert(next.carried_out + next.under_way() + next.stream.control.ctrl.items
                =~= w.carried_out + w.under_way() + w.stream.control.ctrl.items);
        },
        ReaderEvent::Applied(_) => {
            if w.stream.rx.receiver {
                assert(next.produced =~= next.received + next.stream.rx.items + next.held());
            }
            assert(next.carried_out + next.under_way() + next.stream.control.ctrl.items
                =~= w.carried_out + w.under_way() + w.stream.control.ctrl.items);
            assert(next.carried_out =~= next.sent.subrange(0, next.carried_out.len() as int));
        },
        ReaderEvent::Read(r, buf) => {
            if let Ok(n) = r {
                assert(buf.take(n as int) =~= buf.subrange(0, n as int));
            }
            if w.stream.rx.receiver {
                assert(next.produced =~= next.received + next.stream.rx.items + next.held());
            }
            assert(next.received =~= next.produced.subrange(0, next.received.len() as int));
            assert(next.under_way() =~= w.under_way());
        },
        ReaderEvent::Receive => {
            assert(next.received + next.stream.rx.items + next.held() =~= w.received
                + w.stream.rx.items + w.held());
        },
        ReaderEvent::Command(_) => {
            if w.stream.control.ctrl.receiver {
                assert(next.sent =~= next.carried_out + next.under_way()
                    + next.stream.control.ctrl.items);
            }
            assert(next.carried_out =~= next.sent.subrange(0, next.carried_out.len() as int));
        },
        _ => {
            assert(next.held() =~= w.held());
            assert(next.under_way() =~= w.under_way());
        },
    }
}

proof fn lemma_run_inv_reached(capacity: usize, events: Seq<ReaderEvent>)
    requires
        capacity > 0,
        ReaderRun::start(capacity).all_possible(events),
    ensures
        ReaderRun::start(capacity).after_all(events).inv(),
    decreases events.len(),
{
    if events.len() > 0 {
        lemma_run_inv_reached(capacity, events.drop_last());
        lemma_run_inv_kept(
            ReaderRun::start(capacity).after_all(events.drop_last()),
            events.last(),
        );
    } else {
        let w = ReaderRun::start(capacity);
        assert(w.received + w.stream.rx.items + w.held() =~= w.produced);
        assert(w.carried_out + w.under_way() + w.stream.control.ctrl.items =~= w.sent);
    }
}

/// The consumer receives what was read, all of it, once and in order. As long as the consumer is
/// there, and in whatever order it and the reader act, what was received, then what waits in the
/// queue, then what the reader holds, is what was produced; what a consumer that left had received
/// is the beginning of it. Never more chunks wait than the queue has room for, and no chunk is ever
/// counted as dropped.
pub proof fn law_stream_loses_nothing(capacity: usize, events: Seq<ReaderEvent>)
    requires
        capacity > 0,
        ReaderRun::start(capacity).all_possible(events),
    ensures
        ({
            let w = ReaderRun::start(capacity).after_all(events);
            &&& w.stream.rx.receiver ==> w.produced == w.received + w.stream.rx.items + w.held()
            &&& w.received.is_prefix_of(w.produced)
            &&& w.stream.control.dropped == 0
            &&& w.held().len() <= 1
            &&& w.stream.rx.items.len() <= capacity
            &&& forall|i: int|
                0 <= i < w.received.len() ==> !(#[trigger] w.received[i]).is_empty()
        }),
{
    lemma_run_inv_reached(capacity, events);
    lemma_capacity_kept(capacity, events);
    let w = ReaderRun::start(capacity).after_all(events);
    assert forall|i: int| 0 <= i < w.received.len() implies !(
    #[trigger] w.received[i]).is_empty() by {
        assert(w.received[i] == w.produced.subrange(0, w.received.len() as int)[i]);
        assert(!w.produced[i].is_empty());
    }
}

proof fn lemma_capacity_kept(capacity: usize, events: Seq<ReaderEvent>)
    ensures
        ReaderRun::start(capacity).after_all(events).stream.rx.capacity == Some(capacity),
    decreases events.len(),
{
    if events.len() > 0 {
        lemma_capacity_kept(capacity, events.drop_last());
    }
}

/// Commands are carried out in the order in which they were sent, each of them once, and none that
/// was not sent. As long as the thread is there, those that were not are under way or wait.
pub proof fn law_commands_are_carried_out_in_order(capacity: usize, events: Seq<ReaderEvent>)
    requires
        capacity > 0,
        ReaderRun::start(capacity).all_possible(events),
    ensures
        ({
            let w = ReaderRun::start(capacity).after_all(events);
            &&& w.carried_out.is_prefix_of(w.sent)
            &&& w.stream.control.ctrl.receiver ==> w.sent == w.carried_out + w.under_way()
                + w.stream.control.ctrl.items
        }),
{
    lemma_run_inv_reached(capacity, events);
}

/// An error is the last thing that a reader produces: before it there is only data, and after it,
/// whether a read or a command failed, the reader neither reads nor carries out commands any more.
pub proof fn law_error_ends_the_stream(capacity: usize, events: Seq<ReaderEvent>)
    requires
        capacity > 0,
        ReaderRun::start(capacity).all_possible(events),
    ensures
        ({
            let w = ReaderRun::start(capacity).after_all(events);
            &&& forall|i: int|
                0 <= i < w.produced.len() - 1 ==> (#[trigger] w.produced[i]) is Data
            &&& w.produced.len() > 0 && w.produced.last() is Failed ==> w.failed
            &&& w.failed ==> {
                let next = w.reader.advanced(w.stream);
                next.action() is AwaitRoom || next.action() is Close || next.action() is Finished
            }
        }),
{
    lemma_run_inv_reached(capacity, events);
}

/// Data is produced until `stop` or drop: the reader ends only if it was asked to stop, if the
/// consumer left, or if a read or a command failed.
pub proof fn law_reader_ends_for_a_reason(capacity: usize, events: Seq<ReaderEvent>)
    requires
        capacity > 0,
        ReaderRun::start(capacity).all_possible(events),
    ensures
        ({
            let w = ReaderRun::start(capacity).after_all(events);
            w.is_ending() ==> w.failed || w.stream.control.stop || !w.stream.rx.receiver
        }),
{
    lemma_run_inv_reached(capacity, events);
}

/// At the start of a round a stream that was asked to stop is closed: nothing is read and no
/// command is carried out any more.
pub proof fn law_stop_closes_the_device(reader: ReaderView, stream: StreamView)
    requires
        reader.phase == ReaderPhase::Checking,
        stream.control.stop,
    ensures
        reader.advanced(stream).action() == ReaderAction::Close,
        reader.stream_advanced(stream) == stream,
        reader.advanced(stream).closed().action() == ReaderAction::Finished,
{
}

/// How many reads follow at most once the stream was asked to stop: the one of the round that the
/// reader is in.
pub open spec fn reads_left(phase: ReaderPhase) -> nat {
    match phase {
        ReaderPhase::Commands => 1,
        ReaderPhase::Applying(_) => 1,
        ReaderPhase::Reading => 1,
        _ => 0,
    }
}

/// How many of the events are reads.
pub open spec fn read_count(events: Seq<ReaderEvent>) -> nat
    decreases events.len(),
{
    if events.len() == 0 {
        0
    } else {
        read_count(events.drop_last()) + if events.last() is Read {
            1nat
        } else {
            0
        }
    }
}

/// A stop is never taken back, and whatever the reader is doing when it comes, at most one read
/// follows: the one of the round that was begun.
pub proof fn law_at_most_one_read_follows_a_stop(w: ReaderRun, events: Seq<ReaderEvent>)
    requires
        w.reader.wf(),
        w.stream.control.stop,
        w.all_possible(events),
    ensures
        ({
            let end = w.after_all(events);
            &&& end.stream.control.stop
            &&& read_count(events) + reads_left(end.reader.phase) <= reads_left(w.reader.phase)
            &&& read_count(events) <= 1
        }),
    decreases events.len(),
{
    lemma_wf_kept(w, events);
    if events.len() > 0 {
        law_at_most_one_read_follows_a_stop(w, events.drop_last());
        lemma_wf_kept(w, events.drop_last());
    }
}

proof fn lemma_wf_kept(w: ReaderRun, events: Seq<ReaderEvent>)
    requires
        w.reader.wf(),
        w.all_possible(events),
    ensures
        w.after_all(events).reader.wf(),
    decreases events.len(),
{
    if events.len() > 0 {
        lemma_wf_kept(w, events.drop_last());
    }
}

/// A reader never waits for a consumer that is gone: what it holds is let go of, and the device is
/// closed.
pub proof fn law_gone_consumer_is_not_waited_for(reader: ReaderView, stream: StreamView)
    requires
        reader.wf(),
        !stream.rx.receiver,
    ensures
        !(reader.advanced(stream).action() is AwaitRoom),
        reader.phase == ReaderPhase::Sending ==> reader.advanced(stream).action()
            == ReaderAction::Close,
        reader.stream_handed_over(stream) == stream,
{
}

/// How much a reader whose consumer dropped the stream still has to do, at most: the commands that
/// wait, the read of the round, and closing the device.
pub open spec fn work_left(w: ReaderRun) -> nat {
    let waiting = w.stream.control.ctrl.items.len();
    match w.reader.phase {
        ReaderPhase::Applying(_) => 5 + 2 * waiting,
        ReaderPhase::Commands => 4 + 2 * waiting,
        ReaderPhase::Reading => 3,
        ReaderPhase::Checking => 2,
        ReaderPhase::Sending => 2,
        ReaderPhase::Closing => 1,
        ReaderPhase::Ended => 0,
    }
}

/// A stream that its consumer dropped ends: everything that the reader or the device does leaves
/// less to be done, until the reader has ended; the reader never waits for anything but the
/// device. Only a command that another control handle sends adds to it, and the drop is never taken
/// back.
pub proof fn law_dropped_stream_ends(w: ReaderRun, event: ReaderEvent)
    requires
        w.reader.wf(),
        w.stream.control.stop,
        !w.stream.rx.receiver,
        w.possible(event),
    ensures
        ({
            let next = w.after(event);
            &&& next.reader.wf()
            &&& next.stream.control.stop
            &&& !next.stream.rx.receiver
            &&& next.received == w.received
            &&& event is Applied || event is Read || event is Closed ==> work_left(next)
                < work_left(w)
            &&& event is Advance && work_left(next) == work_left(w) ==> {
                ||| next.reader.action() is Apply
                ||| next.reader.action() is Read
                ||| next.reader.action() is Close
                ||| next.reader.action() is Finished
            }
            &&& !(event is Command) ==> work_left(next) <= work_left(w)
            &&& work_left(w) == 0 <==> w.reader.phase == ReaderPhase::Ended
        }),
{
}

/// Once the thread of the reader is gone, the reader has ended, every command is refused, and the
/// count of dropped chunks no longer changes; none of that is ever taken back. The device was
/// closed, unless a command failed.
pub proof fn law_nothing_follows_the_thread(
    capacity: usize,
    events: Seq<ReaderEvent>,
    event: ReaderEvent,
)
    requires
        capacity > 0,
        ReaderRun::start(capacity).all_possible(events),
        ReaderRun::start(capacity).after_all(events).possible(event),
        !ReaderRun::start(capacity).after_all(events).stream.control.ctrl.receiver,
    ensures
        ({
            let w = ReaderRun::start(capacity).after_all(events);
            let next = w.after(event);
            &&& w.reader.phase == ReaderPhase::Ended
            &&& w.device_closed == !w.command_failed
            &&& !w.stream.control.ctrl.accepts()
            &&& next.device_closed == w.device_closed
            &&& !next.stream.control.ctrl.receiver
            &&& next.sent == w.sent
            &&& next.produced == w.produced
            &&& next.stream.control.dropped == w.stream.control.dropped
        }),
{
    lemma_run_inv_reached(capacity, events);
}

/// The reader reads only when every command that was sent has been taken up.
pub proof fn law_commands_come_before_reads(reader: ReaderView, stream: StreamView)
    requires
        reader.phase == ReaderPhase::Checking || reader.phase == ReaderPhase::Commands,
        reader.advanced(stream).action() == ReaderAction::Read,
    ensures
        stream.control.ctrl.items.len() == 0,
        reader.phase == ReaderPhase::Checking ==> !stream.control.stop,
{
}

/// The consumer receives the bytes that the reads brought: what it received, joined, followed by
/// what waits in the queue and by what the reader holds, is byte for byte what the reads brought,
/// joined. What a consumer that left had received is the beginning of that.
pub proof fn law_consumer_receives_the_bytes_that_were_read(
    capacity: usize,
    events: Seq<ReaderEvent>,
)
    requires
        capacity > 0,
        ReaderRun::start(capacity).all_possible(events),
    ensures
        ({
            let w = ReaderRun::start(capacity).after_all(events);
            &&& w.stream.rx.receiver ==> w.brought == bytes_of(w.received) + bytes_of(
                w.stream.rx.items,
            ) + bytes_of(w.held())
            &&& bytes_of(w.received).is_prefix_of(w.brought)
        }),
{
    lemma_run_inv_reached(capacity, events);
    let w = ReaderRun::start(capacity).after_all(events);
    lemma_bytes_of_both(w.received + w.stream.rx.items, w.held());
    lemma_bytes_of_both(w.received, w.stream.rx.items);
    let rest = w.produced.skip(w.received.len() as int);
    assert(w.produced =~= w.received + rest);
    lemma_bytes_of_both(w.received, rest);
    assert(bytes_of(w.received) =~= w.brought.subrange(0, bytes_of(w.received).len() as int));
}

/// What a read brought is handed over whole. If it returned `n` bytes, the chunk has exactly `n`
/// bytes, and each of them is the one at its place in the buffer; if it returned none, nothing is
/// handed over and a new round begins; if it failed, that error is handed over.
pub proof fn law_read_is_handed_over_whole(
    reader: ReaderView,
    r: Result<usize, RtlsdrError>,
    buf: Seq<u8>,
)
    requires
        reader.phase == ReaderPhase::Reading,
        r matches Ok(n) ==> n <= buf.len(),
    ensures
        ({
            let next = reader.after_read(read_view(r, buf));
            match r {
                Ok(n) => if n == 0 {
                    next.phase == ReaderPhase::Checking && next.in_hand is None
                } else {
                    &&& next.phase == ReaderPhase::Sending
                    &&& next.in_hand matches Some(ChunkView::Data(data))
                    &&& data.len() == n
                    &&& forall|i: int| 0 <= i < n ==> (#[trigger] data[i]) == buf[i]
                },
                Err(e) => {
                    &&& next.phase == ReaderPhase::Sending
                    &&& next.in_hand == Some(ChunkView::Failed(e@))
                },
            }
        }),
{
}

/// What was asked for is what is awaited. A command is carried out, a read returns, and the device
/// is closed, exactly when the reader asked for that last; the thread leaves only after the reader
/// said that it has finished. No two requests are open at once, so what comes back belongs to the
/// last one.
pub proof fn law_only_what_was_asked_for_happens(
    capacity: usize,
    events: Seq<ReaderEvent>,
    failure: Option<ErrorView>,
    r: Result<usize, RtlsdrError>,
    buf: Seq<u8>,
)
    requires
        capacity > 0,
        ReaderRun::start(capacity).all_possible(events),
        r matches Ok(n) ==> n <= buf.len(),
    ensures
        ({
            let w = ReaderRun::start(capacity).after_all(events);
            &&& w.possible(ReaderEvent::Applied(failure)) <==> (w.asked matches Some(
                ReaderAction::Apply(_),
            ))
            &&& w.possible(ReaderEvent::Read(r, buf)) <==> w.asked == Some(ReaderAction::Read)
            &&& w.possible(ReaderEvent::Closed) <==> w.asked == Some(ReaderAction::Close)
            &&& w.asked == Some(ReaderAction::Finished) ==> w.device_closed || w.command_failed
            &&& w.asked == Some(ReaderAction::AwaitRoom) ==> w.held().len() == 1
        }),
{
    lemma_run_inv_reached(capacity, events);
}

/// What a reader does with what it holds: it goes to the end of the queue as soon as fewer chunks
/// wait than there is room for, and the reader waits exactly as long as that is not so and the
/// consumer is there. Nothing else that a reader does on its way touches the chunks that wait.
pub proof fn law_reader_waits_only_for_room(reader: ReaderView, stream: StreamView)
    requires
        reader.in_hand is Some <==> reader.phase == ReaderPhase::Sending,
        stream.rx.capacity is Some,
    ensures
        ({
            let next = reader.advanced(stream);
            let after = reader.stream_advanced(stream);
            let room = stream.rx.receiver && stream.rx.items.len() < stream.rx.capacity->0;
            &&& next.action() == ReaderAction::AwaitRoom <==> reader.in_hand is Some
                && stream.rx.receiver && !room
            &&& next.action() == ReaderAction::AwaitRoom ==> next == reader && after == stream
            &&& next.action() != ReaderAction::AwaitRoom ==> next.in_hand is None
            &&& after.rx.items == (if reader.in_hand is Some && room {
                stream.rx.items.push(reader.in_hand->0)
            } else {
                stream.rx.items
            })
            &&& after.rx.capacity == stream.rx.capacity
            &&& after.rx.senders == stream.rx.senders
            &&& after.rx.receiver == stream.rx.receiver
            &&& after.control.stop == stream.control.stop
            &&& after.control.dropped == stream.control.dropped
        }),
{
}

/// What a reader asks for next. It waits for room while it cannot hand over what it holds. Having
/// handed over data, or at the start of a round, it closes the device if the stream is to stop; if
/// not, or in the middle of a round, it asks for the command that was sent first, which leaves the
/// queue, and if none waits, for a read. Having handed over an error, or if the consumer left while
/// it held something, it closes the device. What was asked for before is asked for again. A reader
/// that has ended asks for nothing.
pub proof fn law_what_a_reader_asks_for(reader: ReaderView, stream: StreamView)
    requires
        reader.in_hand is Some <==> reader.phase == ReaderPhase::Sending,
        stream.rx.capacity is Some,
    ensures
        ({
            let action = reader.advanced(stream).action();
            let commands = stream.control.ctrl.items;
            let left = reader.stream_advanced(stream).control.ctrl;
            let handed_over = stream.rx.receiver && stream.rx.items.len() < stream.rx.capacity->0;
            let new_round = reader.phase == ReaderPhase::Checking || (reader.phase
                == ReaderPhase::Sending && handed_over && reader.in_hand->0 is Data);
            let in_round = reader.phase == ReaderPhase::Commands || (new_round
                && !stream.control.stop);
            &&& new_round && stream.control.stop ==> action == ReaderAction::Close
            &&& in_round && commands.len() > 0 ==> {
                &&& action == ReaderAction::Apply(commands[0])
                &&& commands == seq![commands[0]] + left.items
            }
            &&& in_round && commands.len() == 0 ==> action == ReaderAction::Read
            &&& !(in_round && commands.len() > 0) ==> left.items == commands
            &&& left.capacity == stream.control.ctrl.capacity
            &&& left.senders == stream.control.ctrl.senders
            &&& left.receiver == stream.control.ctrl.receiver
            &&& reader.phase == ReaderPhase::Sending && !stream.rx.receiver ==> action
                == ReaderAction::Close
            &&& reader.phase == ReaderPhase::Sending && handed_over && reader.in_hand->0 is Failed
                ==> action == ReaderAction::Close
            &&& reader.phase matches ReaderPhase::Applying(command) ==> action
                == ReaderAction::Apply(command)
            &&& reader.phase == ReaderPhase::Reading ==> action == ReaderAction::Read
            &&& reader.phase == ReaderPhase::Closing ==> action == ReaderAction::Close
            &&& reader.phase == ReaderPhase::Ended ==> action == ReaderAction::Finished
            &&& match action {
                ReaderAction::Apply(command) => reader.advanced(stream).phase
                    == ReaderPhase::Applying(command),
                ReaderAction::Read => reader.advanced(stream).phase == ReaderPhase::Reading,
                ReaderAction::AwaitRoom => reader.advanced(stream).phase == ReaderPhase::Sending,
                ReaderAction::Close => reader.advanced(stream).phase == ReaderPhase::Closing,
                ReaderAction::Finished => reader.advanced(stream).phase == ReaderPhase::Ended,
            }
        }),
{
    crate::channel::law_oldest_item_is_received(stream.control.ctrl);
}

/// A command that was carried out is followed by the next, in the same round. One that failed ends
/// the reader, and the consumer finds the error behind the chunks that wait, if there is room for
/// it; nothing else of the stream changes. A reader that closed the device has ended. What comes
/// without having been asked for changes nothing. A new reader is at the start of a round.
pub proof fn law_what_a_reader_makes_of_replies(
    reader: ReaderView,
    stream: StreamView,
    failure: Option<ErrorView>,
    read: ChunkView,
)
    requires
        stream.rx.capacity is Some,
    ensures
        ({
            let room = stream.rx.receiver && stream.rx.items.len() < stream.rx.capacity->0;
            let after = reader.stream_applied(stream, failure);
            &&& reader.applied(failure is Some).in_hand == reader.in_hand
            &&& reader.applied(failure is Some).phase == (if !(reader.phase is Applying) {
                reader.phase
            } else if failure is Some {
                ReaderPhase::Ended
            } else {
                ReaderPhase::Commands
            })
            &&& after.control == stream.control
            &&& after.rx.items == (if reader.phase is Applying && failure is Some && room {
                stream.rx.items.push(ChunkView::Failed(failure->0))
            } else {
                stream.rx.items
            })
            &&& after.rx.capacity == stream.rx.capacity
            &&& after.rx.senders == stream.rx.senders
            &&& after.rx.receiver == stream.rx.receiver
            &&& reader.closed().in_hand == reader.in_hand
            &&& reader.closed().phase == (if reader.phase == ReaderPhase::Closing {
                ReaderPhase::Ended
            } else {
                reader.phase
            })
            &&& reader.phase != ReaderPhase::Reading ==> reader.after_read(read) == reader
            &&& reader.wf() <==> (reader.in_hand is Some <==> reader.phase == ReaderPhase::Sending)
            &&& ReaderView::fresh().phase == ReaderPhase::Checking
            &&& ReaderView::fresh().in_hand is None
        }),
{
}

/// A reader reads as what it is: where it is in its round, and the chunk that it holds.
pub proof fn law_reader_reads_as_it_is(reader: AsyncReader)
    ensures
        reader@.phase == reader.phase,
        match reader.in_hand {
            Some(Ok(data)) => reader@.in_hand == Some(ChunkView::Data(data@)),
            Some(Err(e)) => reader@.in_hand == Some(ChunkView::Failed(e@)),
            None => reader@.in_hand is None,
        },
{
}

/// What a reader is told and asked is what the run above follows: it starts, goes on and takes note
/// of replies as the model does, and what it asks for is what the model asks for.
pub proof fn law_reader_follows_the_run(buf: &[u8])
    ensures
        forall|reader: AsyncReader| #[trigger]
            call_ensures(AsyncReader::new, (), reader) ==> reader@ == ReaderRun::start(1).reader,
        forall|reader: &mut AsyncReader, stream: &mut AsyncReadHandle, action: ReaderAction|
            #[trigger] call_ensures(AsyncReader::advance, (reader, stream), action) ==> {
                &&& final(reader)@ == reader@.advanced(stream@)
                &&& final(stream)@ == reader@.stream_advanced(stream@)
                &&& action == reader@.advanced(stream@).action()
            },
        forall|reader: &mut AsyncReader, stream: &mut AsyncReadHandle, r: Result<(), RtlsdrError>|
            #[trigger] call_ensures(AsyncReader::applied, (reader, stream, r), ()) ==> {
                let failure = match r {
                    Ok(_) => None,
                    Err(e) => Some(e@),
                };
                &&& final(reader)@ == reader@.applied(failure is Some)
                &&& final(stream)@ == reader@.stream_applied(stream@, failure)
            },
        forall|reader: &mut AsyncReader, r: Result<usize, RtlsdrError>| #[trigger]
            call_ensures(AsyncReader::read_done, (reader, r, buf), ()) ==> final(reader)@
                == reader@.after_read(read_view(r, buf@)),
        forall|reader: &mut AsyncReader| #[trigger]
            call_ensures(AsyncReader::closed, (reader,), ()) ==> final(reader)@
                == reader@.closed(),
{
}

} // verus!
