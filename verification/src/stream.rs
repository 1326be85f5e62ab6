//! The state that the consumer of a stream and the threads that feed it share.
//!
//! The consumer's side is [`AsyncReadHandle`]: the chunks that wait for it, and the control side,
//! [`AsyncReadControlHandle`], through which it stops the stream and retunes the device. Whoever
//! shares the state between threads takes care of exclusive access and of waiting.

use crate::channel::{Channel, ChannelView, Received, TrySendError};
use crate::error::{ErrorView, RtlsdrError};
use crate::settings::TunerGain;
use vstd::prelude::*;

verus! {

/// A change of the device's settings that the consumer asks for while the stream runs.
#[derive(Debug, Clone, Copy, PartialEq, Eq, Structural)]
pub enum AsyncReadControl {
    Tune(u32),
    SetGain(TunerGain),
    SetSampleRate(u32),
}

/// What the consumer receives: the bytes of one read, or the error that ended the reading.
#[verifier::ext_equal]
pub enum ChunkView {
    Data(Seq<u8>),
    Failed(ErrorView),
}

impl ChunkView {
    /// A read that brought nothing.
    pub open spec fn is_empty(self) -> bool {
        self matches ChunkView::Data(data) && data.len() == 0
    }
}

pub open spec fn chunk_view(chunk: Result<Vec<u8>, RtlsdrError>) -> ChunkView {
    match chunk {
        Ok(data) => ChunkView::Data(data@),
        Err(e) => ChunkView::Failed(e@),
    }
}

/// The control side of a stream.
#[derive(Debug)]
pub struct AsyncReadControlHandle {
    pub ctrl: Channel<AsyncReadControl>,
    pub stop: bool,
    pub dropped: u64,
}

/// The state of the control side: the commands that wait; whether the stream was asked to stop;
/// and how many chunks were dropped because the consumer was slow.
#[verifier::ext_equal]
pub struct ControlView {
    pub ctrl: ChannelView<AsyncReadControl>,
    pub stop: bool,
    pub dropped: u64,
}

impl View for AsyncReadControlHandle {
    type V = ControlView;

    open spec fn view(&self) -> ControlView {
        ControlView { ctrl: self.ctrl@, stop: self.stop, dropped: self.dropped }
    }
}

impl ControlView {
    /// Any number of commands may wait.
    pub open spec fn wf(self) -> bool {
        self.ctrl.wf() && self.ctrl.capacity is None
    }

    /// The state after `command` was sent.
    pub open spec fn commanded(self, command: AsyncReadControl) -> ControlView {
        ControlView { ctrl: self.ctrl.offered(command), ..self }
    }

    pub open spec fn stopped(self) -> ControlView {
        ControlView { stop: true, ..self }
    }
}

/// What is reported of a command that nobody is left to carry out.
pub open spec fn control_closed() -> ErrorView {
    ErrorView::Message("async control channel closed"@)
}

/// What sending a command to `control` returns: the command is taken as long as the thread that
/// carries commands out is there.
pub open spec fn command_result(control: ControlView, r: Result<(), RtlsdrError>) -> bool {
    match r {
        Ok(_) => control.ctrl.accepts(),
        Err(e) => !control.ctrl.accepts() && e@ == control_closed(),
    }
}

impl AsyncReadControlHandle {
    fn command(&mut self, command: AsyncReadControl) -> (r: Result<(), RtlsdrError>)
        ensures
            final(self)@ == old(self)@.commanded(command),
            command_result(old(self)@, r),
            old(self)@.wf() ==> final(self)@.wf(),
    {
        match self.ctrl.try_send(command) {
            Ok(_) => Ok(()),
            Err(_) => Err(RtlsdrError::message("async control channel closed")),
        }
    }

    /// How many chunks were dropped because the consumer was slow.
    pub fn dropped_chunks(&self) -> (n: u64)
        ensures
            n == self@.dropped,
    {
        self.dropped
    }

    /// Asks the stream to stop.
    pub fn stop(&mut self)
        ensures
            final(self)@ == old(self)@.stopped(),
            old(self)@.wf() ==> final(self)@.wf(),
    {
        self.stop = true;
    }

    /// Asks for another centre frequency, in Hz.
    pub fn tune(&mut self, center_freq: u32) -> (r: Result<(), RtlsdrError>)
        ensures
            final(self)@ == old(self)@.commanded(AsyncReadControl::Tune(center_freq)),
            command_result(old(self)@, r),
            old(self)@.wf() ==> final(self)@.wf(),
    {
        self.command(AsyncReadControl::Tune(center_freq))
    }

    /// Asks for another gain.
    pub fn set_gain(&mut self, gain: TunerGain) -> (r: Result<(), RtlsdrError>)
        ensures
            final(self)@ == old(self)@.commanded(AsyncReadControl::SetGain(gain)),
            command_result(old(self)@, r),
            old(self)@.wf() ==> final(self)@.wf(),
    {
        self.command(AsyncReadControl::SetGain(gain))
    }

    /// Asks for another sample rate.
    pub fn set_sample_rate(&mut self, rate: u32) -> (r: Result<(), RtlsdrError>)
        ensures
            final(self)@ == old(self)@.commanded(AsyncReadControl::SetSampleRate(rate)),
            command_result(old(self)@, r),
            old(self)@.wf() ==> final(self)@.wf(),
    {
        self.command(AsyncReadControl::SetSampleRate(rate))
    }
}

/// A stream as its consumer and its feeding threads share it.
#[derive(Debug)]
pub struct AsyncReadHandle {
    pub control: AsyncReadControlHandle,
    pub rx: Channel<Result<Vec<u8>, RtlsdrError>>,
}

/// The state of a stream: the control side, and the chunks that wait for the consumer.
#[verifier::ext_equal]
pub struct StreamView {
    pub control: ControlView,
    pub rx: ChannelView<ChunkView>,
}

impl View for AsyncReadHandle {
    type V = StreamView;

    open spec fn view(&self) -> StreamView {
        StreamView {
            control: self.control@,
            rx: self.rx@.map(|chunk: Result<Vec<u8>, RtlsdrError>| chunk_view(chunk)),
        }
    }
}

impl StreamView {
    /// A bounded number of chunks, at least one, may wait.
    pub open spec fn wf(self) -> bool {
        &&& self.control.wf()
        &&& self.rx.wf()
        &&& self.rx.capacity matches Some(c) && c > 0
    }

    /// A stream that was just started, in which up to `capacity` chunks may wait.
    pub open spec fn fresh(capacity: usize) -> StreamView {
        StreamView {
            control: ControlView {
                ctrl: ChannelView {
                    items: Seq::empty(),
                    capacity: None,
                    senders: 1,
                    receiver: true,
                },
                stop: false,
                dropped: 0,
            },
            rx: ChannelView {
                items: Seq::empty(),
                capacity: Some(capacity),
                senders: 1,
                receiver: true,
            },
        }
    }

    /// The state after `chunk` was offered to the consumer without waiting.
    pub open spec fn offered(self, chunk: ChunkView) -> StreamView {
        StreamView { rx: self.rx.offered(chunk), ..self }
    }

    /// The state after the consumer asked for a chunk.
    pub open spec fn taken(self) -> StreamView {
        StreamView { rx: self.rx.taken(), ..self }
    }

    pub open spec fn stopped(self) -> StreamView {
        StreamView { control: self.control.stopped(), ..self }
    }

    pub open spec fn commanded(self, command: AsyncReadControl) -> StreamView {
        StreamView { control: self.control.commanded(command), ..self }
    }

    /// The state after the feeding side asked for a command.
    pub open spec fn command_taken(self) -> StreamView {
        StreamView {
            control: ControlView { ctrl: self.control.ctrl.taken(), ..self.control },
            ..self
        }
    }

    /// The same stream with so many who can send commands.
    pub open spec fn with_handles(self, senders: usize) -> StreamView {
        StreamView {
            control: ControlView {
                ctrl: ChannelView { senders, ..self.control.ctrl },
                ..self.control
            },
            ..self
        }
    }

    /// The state after the consumer left, and with it every chunk that waits.
    pub open spec fn consumer_gone(self) -> StreamView {
        StreamView {
            rx: ChannelView { items: Seq::empty(), receiver: false, ..self.rx },
            ..self
        }
    }

    /// The state after the feeding side left, and with it every command that waits. Chunks that
    /// wait can still be received.
    pub open spec fn producer_gone(self) -> StreamView {
        StreamView {
            control: ControlView {
                ctrl: ChannelView {
                    items: Seq::empty(),
                    receiver: false,
                    ..self.control.ctrl
                },
                ..self.control
            },
            rx: ChannelView { senders: (self.rx.senders - 1) as usize, ..self.rx },
        }
    }

    /// The state after one more chunk was counted as dropped.
    pub open spec fn dropped_one(self) -> StreamView {
        StreamView {
            control: ControlView {
                dropped: if self.control.dropped == u64::MAX {
                    0
                } else {
                    (self.control.dropped + 1) as u64
                },
                ..self.control
            },
            ..self
        }
    }
}

impl AsyncReadHandle {
    /// A stream in which up to `capacity` chunks may wait.
    pub fn new(capacity: usize) -> (h: AsyncReadHandle)
        ensures
            h@ == StreamView::fresh(capacity),
            capacity > 0 ==> h@.wf(),
    {
        let h = AsyncReadHandle {
            control: AsyncReadControlHandle { ctrl: Channel::new(None), stop: false, dropped: 0 },
            rx: Channel::new(Some(capacity)),
        };
        assert(h@.rx.items =~= Seq::empty());
        h
    }

    /// Registers one more control handle on the stream.
    pub fn control_handle(&mut self)
        requires
            old(self)@.control.ctrl.senders < usize::MAX,
        ensures
            final(self)@ == old(self)@.with_handles(
                (old(self)@.control.ctrl.senders + 1) as usize,
            ),
            old(self)@.wf() ==> final(self)@.wf(),
    {
        self.control.ctrl.add_sender();
    }

    /// A control handle, or the consumer itself, is gone and sends no more commands.
    pub fn drop_control_handle(&mut self)
        requires
            old(self)@.control.ctrl.senders > 0,
        ensures
            final(self)@ == old(self)@.with_handles(
                (old(self)@.control.ctrl.senders - 1) as usize,
            ),
            old(self)@.wf() ==> final(self)@.wf(),
    {
        self.control.ctrl.drop_sender();
    }

    /// The next chunk. `Empty` says that the consumer has to wait for one, `Disconnected` that
    /// none will come any more.
    pub fn recv(&mut self) -> (r: Received<Result<Vec<u8>, RtlsdrError>>)
        ensures
            r.map(|chunk: Result<Vec<u8>, RtlsdrError>| chunk_view(chunk)) == old(self)@.rx.front(),
            r is Item <==> old(self)@.rx.items.len() > 0,
            r matches Received::Item(chunk) ==> chunk_view(chunk) == old(self)@.rx.items[0],
            r is Disconnected <==> old(self)@.rx.items.len() == 0 && old(self)@.rx.senders == 0,
            final(self)@ == old(self)@.taken(),
            old(self)@.wf() ==> final(self)@.wf(),
    {
        proof {
            crate::channel::lemma_map_commutes(
                self.rx@,
                arbitrary(),
                |chunk: Result<Vec<u8>, RtlsdrError>| chunk_view(chunk),
            );
        }
        self.rx.try_recv()
    }

    /// The next chunk, if there is one already.
    pub fn try_recv(&mut self) -> (r: Option<Result<Vec<u8>, RtlsdrError>>)
        ensures
            r is Some <==> old(self)@.rx.items.len() > 0,
            r matches Some(chunk) ==> chunk_view(chunk) == old(self)@.rx.items.first(),
            final(self)@ == old(self)@.taken(),
            old(self)@.wf() ==> final(self)@.wf(),
    {
        match self.recv() {
            Received::Item(chunk) => Some(chunk),
            Received::Empty => None,
            Received::Disconnected => None,
        }
    }

    /// How many chunks were dropped because the consumer was slow.
    pub fn dropped_chunks(&self) -> (n: u64)
        ensures
            n == self@.control.dropped,
    {
        self.control.dropped_chunks()
    }

    /// Asks the stream to stop.
    pub fn stop(&mut self)
        ensures
            final(self)@ == old(self)@.stopped(),
            old(self)@.wf() ==> final(self)@.wf(),
    {
        self.control.stop();
    }

    /// Asks for another centre frequency, in Hz.
    pub fn tune(&mut self, center_freq: u32) -> (r: Result<(), RtlsdrError>)
        ensures
            final(self)@ == old(self)@.commanded(AsyncReadControl::Tune(center_freq)),
            command_result(old(self)@.control, r),
            old(self)@.wf() ==> final(self)@.wf(),
    {
        self.control.tune(center_freq)
    }

    /// Asks for another gain.
    pub fn set_gain(&mut self, gain: TunerGain) -> (r: Result<(), RtlsdrError>)
        ensures
            final(self)@ == old(self)@.commanded(AsyncReadControl::SetGain(gain)),
            command_result(old(self)@.control, r),
            old(self)@.wf() ==> final(self)@.wf(),
    {
        self.control.set_gain(gain)
    }

    /// Asks for another sample rate.
    pub fn set_sample_rate(&mut self, rate: u32) -> (r: Result<(), RtlsdrError>)
        ensures
            final(self)@ == old(self)@.commanded(AsyncReadControl::SetSampleRate(rate)),
            command_result(old(self)@.control, r),
            old(self)@.wf() ==> final(self)@.wf(),
    {
        self.control.set_sample_rate(rate)
    }

    /// Offers a chunk to the consumer without waiting; a chunk that is not taken comes back.
    pub fn offer(&mut self, chunk: Result<Vec<u8>, RtlsdrError>) -> (r: Result<
        (),
        TrySendError<Result<Vec<u8>, RtlsdrError>>,
    >)
        ensures
            final(self)@ == old(self)@.offered(chunk_view(chunk)),
            r == (if !old(self)@.rx.receiver {
                Err::<(), TrySendError<Result<Vec<u8>, RtlsdrError>>>(
                    TrySendError::Disconnected(chunk),
                )
            } else if old(self)@.rx.is_full() {
                Err(TrySendError::Full(chunk))
            } else {
                Ok(())
            }),
            old(self)@.wf() ==> final(self)@.wf(),
    {
        proof {
            crate::channel::lemma_map_commutes(
                self.rx@,
                chunk,
                |chunk: Result<Vec<u8>, RtlsdrError>| chunk_view(chunk),
            );
        }
        self.rx.try_send(chunk)
    }

    /// The command that the feeding side carries out next.
    pub fn next_command(&mut self) -> (r: Received<AsyncReadControl>)
        ensures
            r == old(self)@.control.ctrl.front(),
            final(self)@ == old(self)@.command_taken(),
            old(self)@.wf() ==> final(self)@.wf(),
    {
        self.control.ctrl.try_recv()
    }

    /// Counts one more chunk as dropped.
    pub fn count_dropped(&mut self)
        ensures
            final(self)@ == old(self)@.dropped_one(),
            old(self)@.wf() ==> final(self)@.wf(),
    {
        self.control.dropped = self.control.dropped.wrapping_add(1);
    }

    /// The consumer is gone: nothing is received any more.
    pub fn drop_consumer(&mut self)
        ensures
            final(self)@ == old(self)@.consumer_gone(),
            old(self)@.wf() ==> final(self)@.wf(),
    {
        self.rx.drop_receiver();
        assert(self@.rx.items =~= Seq::empty());
    }

    /// The consumer drops a stream that one thread reads: it is to stop, and nothing is received
    /// any more, so that the thread does not wait for room.
    ///
    /// The threads of a stream that several of them read never wait for room, and count what they
    /// cannot hand over. The consumer of such a stream calls [`stop`](AsyncReadHandle::stop), and
    /// leaves with [`drop_consumer`](AsyncReadHandle::drop_consumer) once the threads have ended.
    pub fn drop_handle(&mut self)
        ensures
            final(self)@ == old(self)@.stopped().consumer_gone(),
            old(self)@.wf() ==> final(self)@.wf(),
    {
        self.stop();
        self.drop_consumer();
    }

    /// The feeding side is gone: no chunk is sent and no command carried out any more.
    pub fn drop_producer(&mut self)
        requires
            old(self)@.rx.senders > 0,
        ensures
            final(self)@ == old(self)@.producer_gone(),
            old(self)@.wf() ==> final(self)@.wf(),
    {
        self.rx.drop_sender();
        self.control.ctrl.drop_receiver();
    }
}

/// A chunk reads as what it is: data byte for byte, an error as the error.
pub proof fn law_chunk_reads_as_it_is(chunk: Result<Vec<u8>, RtlsdrError>)
    ensures
        match chunk {
            Ok(data) => chunk_view(chunk) == ChunkView::Data(data@),
            Err(RtlsdrError::RtlsdrErr(text)) => chunk_view(chunk) == ChunkView::Failed(
                ErrorView::Message(text@),
            ),
            Err(RtlsdrError::Usb(kind)) => chunk_view(chunk) == ChunkView::Failed(
                ErrorView::Usb(kind),
            ),
        },
        chunk_view(chunk).is_empty() <==> (chunk matches Ok(data) && data@.len() == 0),
{
}

/// A stream reads as what it is: its flag, its counter, the commands that wait, and the chunks that
/// wait, each of them and in order.
pub proof fn law_stream_reads_as_it_is(stream: AsyncReadHandle)
    ensures
        stream@.control.stop == stream.control.stop,
        stream@.control.dropped == stream.control.dropped,
        stream@.control.ctrl == stream.control.ctrl@,
        stream@.rx.items.len() == stream.rx@.items.len(),
        forall|i: int|
            0 <= i < stream.rx@.items.len() ==> (#[trigger] stream@.rx.items[i]) == chunk_view(
                stream.rx@.items[i],
            ),
        stream@.rx.capacity == stream.rx@.capacity,
        stream@.rx.senders == stream.rx@.senders,
        stream@.rx.receiver == stream.rx@.receiver,
{
}

/// A new stream is empty and runs: nothing waits, nothing was dropped, both ends are there, as many
/// chunks may wait as was asked for, and any number of commands.
pub proof fn law_new_stream_is_empty(capacity: usize)
    ensures
        ({
            let s = StreamView::fresh(capacity);
            &&& s.rx.items.len() == 0
            &&& s.rx.capacity == Some(capacity)
            &&& s.rx.senders == 1
            &&& s.rx.receiver
            &&& s.control.ctrl.items.len() == 0
            &&& s.control.ctrl.capacity is None
            &&& s.control.ctrl.senders == 1
            &&& s.control.ctrl.receiver
            &&& !s.control.stop
            &&& s.control.dropped == 0
            &&& s.wf() <==> capacity > 0
        }),
{
}

/// Chunks and commands go separate ways. Handing a chunk over, or receiving one, leaves the control
/// side alone, and adds to the queue, or takes from it, that one chunk. The same holds the other
/// way round of a command.
pub proof fn law_chunks_and_commands_are_kept_apart(
    s: StreamView,
    chunk: ChunkView,
    command: AsyncReadControl,
)
    ensures
        s.offered(chunk).control == s.control,
        s.offered(chunk).rx == s.rx.offered(chunk),
        s.taken().control == s.control,
        s.taken().rx == s.rx.taken(),
        s.commanded(command).rx == s.rx,
        s.commanded(command).control == s.control.commanded(command),
        s.control.commanded(command).ctrl == s.control.ctrl.offered(command),
        s.control.commanded(command).stop == s.control.stop,
        s.control.commanded(command).dropped == s.control.dropped,
        s.command_taken().rx == s.rx,
        s.command_taken().control.ctrl == s.control.ctrl.taken(),
        s.command_taken().control.stop == s.control.stop,
        s.command_taken().control.dropped == s.control.dropped,
{
}

/// A stop sets the flag and changes nothing else; a chunk that is counted as dropped adds one to
/// the counter, up to its range, and changes nothing else.
pub proof fn law_stop_and_count_change_only_themselves(s: StreamView)
    ensures
        s.stopped().control.stop,
        s.stopped().control.dropped == s.control.dropped,
        s.stopped().control.ctrl == s.control.ctrl,
        s.stopped().rx == s.rx,
        s.control.stopped() == s.stopped().control,
        s.dropped_one().control.dropped == (s.control.dropped + 1) % 0x1_0000_0000_0000_0000,
        s.dropped_one().control.stop == s.control.stop,
        s.dropped_one().control.ctrl == s.control.ctrl,
        s.dropped_one().rx == s.rx,
{
}

/// Who comes or leaves changes only what hangs on them. A control handle changes the number of
/// those who can send commands. A consumer that leaves takes the chunks that wait along, and none
/// is taken in any more; the control side stays. A feeding side that leaves takes the commands that
/// wait along, and none is taken in any more; the chunks that wait stay, and so do the flag and the
/// counter.
pub proof fn law_who_leaves_takes_only_their_own(s: StreamView, handles: usize)
    ensures
        s.with_handles(handles).control.ctrl.senders == handles,
        s.with_handles(handles).control.ctrl.items == s.control.ctrl.items,
        s.with_handles(handles).control.ctrl.capacity == s.control.ctrl.capacity,
        s.with_handles(handles).control.ctrl.receiver == s.control.ctrl.receiver,
        s.with_handles(handles).control.stop == s.control.stop,
        s.with_handles(handles).control.dropped == s.control.dropped,
        s.with_handles(handles).rx == s.rx,
        s.consumer_gone().rx.items.len() == 0,
        !s.consumer_gone().rx.receiver,
        s.consumer_gone().rx.senders == s.rx.senders,
        s.consumer_gone().rx.capacity == s.rx.capacity,
        s.consumer_gone().control == s.control,
        s.producer_gone().control.ctrl.items.len() == 0,
        !s.producer_gone().control.ctrl.receiver,
        s.producer_gone().control.ctrl.senders == s.control.ctrl.senders,
        s.producer_gone().control.ctrl.capacity == s.control.ctrl.capacity,
        s.producer_gone().control.stop == s.control.stop,
        s.producer_gone().control.dropped == s.control.dropped,
        s.producer_gone().rx.items == s.rx.items,
        s.producer_gone().rx.receiver == s.rx.receiver,
        s.producer_gone().rx.capacity == s.rx.capacity,
        s.rx.senders > 0 ==> s.producer_gone().rx.senders == s.rx.senders - 1,
{
}

/// A command is refused exactly if the thread that carries commands out is gone, whatever else
/// holds of the stream, and the refusal says so.
pub proof fn law_command_is_refused_only_by_a_thread_that_is_gone(
    control: ControlView,
    r: Result<(), RtlsdrError>,
)
    requires
        control.ctrl.capacity is None,
        command_result(control, r),
    ensures
        r is Ok <==> control.ctrl.receiver,
        r matches Err(e) ==> (e matches RtlsdrError::RtlsdrErr(text) && text@
            == "async control channel closed"@),
{
}

/// A command is sent as it was given: as long as the thread that carries commands out is there, it
/// comes behind those that wait, with the very value, whichever handle sends it. It neither stops
/// the stream nor touches the count or the chunks that wait.
pub proof fn law_command_is_sent_as_given(value: u32, gain: TunerGain)
    ensures
        forall|h: &mut AsyncReadHandle, r: Result<(), RtlsdrError>| #[trigger]
            call_ensures(AsyncReadHandle::tune, (h, value), r)
                && h@.control.ctrl.capacity is None ==> {
                &&& r is Ok <==> h@.control.ctrl.receiver
                &&& final(h)@.control.ctrl.items == (if r is Ok {
                    h@.control.ctrl.items.push(AsyncReadControl::Tune(value))
                } else {
                    h@.control.ctrl.items
                })
                &&& final(h)@.control.stop == h@.control.stop
                &&& final(h)@.control.dropped == h@.control.dropped
                &&& final(h)@.rx == h@.rx
            },
        forall|h: &mut AsyncReadHandle, r: Result<(), RtlsdrError>| #[trigger]
            call_ensures(AsyncReadHandle::set_gain, (h, gain), r)
                && h@.control.ctrl.capacity is None ==> {
                &&& r is Ok <==> h@.control.ctrl.receiver
                &&& final(h)@.control.ctrl.items == (if r is Ok {
                    h@.control.ctrl.items.push(AsyncReadControl::SetGain(gain))
                } else {
                    h@.control.ctrl.items
                })
                &&& final(h)@.control.stop == h@.control.stop
                &&& final(h)@.control.dropped == h@.control.dropped
                &&& final(h)@.rx == h@.rx
            },
        forall|h: &mut AsyncReadHandle, r: Result<(), RtlsdrError>| #[trigger]
            call_ensures(AsyncReadHandle::set_sample_rate, (h, value), r)
                && h@.control.ctrl.capacity is None ==> {
                &&& r is Ok <==> h@.control.ctrl.receiver
                &&& final(h)@.control.ctrl.items == (if r is Ok {
                    h@.control.ctrl.items.push(AsyncReadControl::SetSampleRate(value))
                } else {
                    h@.control.ctrl.items
                })
                &&& final(h)@.control.stop == h@.control.stop
                &&& final(h)@.control.dropped == h@.control.dropped
                &&& final(h)@.rx == h@.rx
            },
        forall|h: &mut AsyncReadControlHandle, r: Result<(), RtlsdrError>| #[trigger]
            call_ensures(AsyncReadControlHandle::tune, (h, value), r)
                && h@.ctrl.capacity is None ==> {
                &&& r is Ok <==> h@.ctrl.receiver
                &&& final(h)@.ctrl.items == (if r is Ok {
                    h@.ctrl.items.push(AsyncReadControl::Tune(value))
                } else {
                    h@.ctrl.items
                })
                &&& final(h)@.stop == h@.stop
                &&& final(h)@.dropped == h@.dropped
            },
        forall|h: &mut AsyncReadControlHandle, r: Result<(), RtlsdrError>| #[trigger]
            call_ensures(AsyncReadControlHandle::set_gain, (h, gain), r)
                && h@.ctrl.capacity is None ==> {
                &&& r is Ok <==> h@.ctrl.receiver
                &&& final(h)@.ctrl.items == (if r is Ok {
                    h@.ctrl.items.push(AsyncReadControl::SetGain(gain))
                } else {
                    h@.ctrl.items
                })
                &&& final(h)@.stop == h@.stop
                &&& final(h)@.dropped == h@.dropped
            },
        forall|h: &mut AsyncReadControlHandle, r: Result<(), RtlsdrError>| #[trigger]
            call_ensures(AsyncReadControlHandle::set_sample_rate, (h, value), r)
                && h@.ctrl.capacity is None ==> {
                &&& r is Ok <==> h@.ctrl.receiver
                &&& final(h)@.ctrl.items == (if r is Ok {
                    h@.ctrl.items.push(AsyncReadControl::SetSampleRate(value))
                } else {
                    h@.ctrl.items
                })
                &&& final(h)@.stop == h@.stop
                &&& final(h)@.dropped == h@.dropped
            },
{
}

/// What the consumer's calls do. It receives the chunk that waited longest, and that chunk alone
/// leaves the queue; it learns that none will come any more exactly if none waits and nobody is
/// left who could feed one. The count is read as it is. A stop, a drop and a leave each do what
/// they say.
pub proof fn law_consumer_gets_what_it_calls_for(stream: AsyncReadHandle, capacity: usize)
    ensures
        forall|h: AsyncReadHandle| #[trigger]
            call_ensures(AsyncReadHandle::new, (capacity,), h) ==> {
                &&& h@.rx.capacity == Some(capacity)
                &&& h@.rx.items.len() == 0 && h@.control.ctrl.items.len() == 0
                &&& h@.rx.receiver && h@.control.ctrl.receiver
                &&& h@.rx.senders == 1 && h@.control.ctrl.senders == 1
                &&& h@.control.ctrl.capacity is None
                &&& !h@.control.stop && h@.control.dropped == 0
            },
        forall|h: &mut AsyncReadHandle, r: Received<Result<Vec<u8>, RtlsdrError>>| #[trigger]
            call_ensures(AsyncReadHandle::recv, (h,), r) ==> {
                &&& r is Item <==> h@.rx.items.len() > 0
                &&& r matches Received::Item(chunk) ==> h@.rx.items == seq![chunk_view(chunk)]
                    + final(h)@.rx.items
                &&& !(r is Item) ==> final(h)@ == h@
                &&& r is Disconnected <==> h@.rx.items.len() == 0 && h@.rx.senders == 0
                &&& final(h)@.control == h@.control
            },
        forall|h: &mut AsyncReadHandle, r: Option<Result<Vec<u8>, RtlsdrError>>| #[trigger]
            call_ensures(AsyncReadHandle::try_recv, (h,), r) ==> {
                &&& r is Some <==> h@.rx.items.len() > 0
                &&& r matches Some(chunk) ==> h@.rx.items == seq![chunk_view(chunk)]
                    + final(h)@.rx.items
                &&& r is None ==> final(h)@ == h@
                &&& final(h)@.control == h@.control
            },
        forall|n: u64| #[trigger]
            call_ensures(AsyncReadHandle::dropped_chunks, (&stream,), n) ==> n
                == stream@.control.dropped,
        forall|h: AsyncReadControlHandle, n: u64| #[trigger]
            call_ensures(AsyncReadControlHandle::dropped_chunks, (&h,), n) ==> n == h@.dropped,
        forall|h: &mut AsyncReadHandle| #[trigger]
            call_ensures(AsyncReadHandle::stop, (h,), ()) ==> final(h)@ == h@.stopped(),
        forall|h: &mut AsyncReadControlHandle| #[trigger]
            call_ensures(AsyncReadControlHandle::stop, (h,), ()) ==> final(h)@ == h@.stopped(),
        forall|h: &mut AsyncReadHandle| #[trigger]
            call_ensures(AsyncReadHandle::drop_handle, (h,), ()) ==> final(h)@
                == h@.stopped().consumer_gone(),
        forall|h: &mut AsyncReadHandle| #[trigger]
            call_ensures(AsyncReadHandle::drop_consumer, (h,), ()) ==> final(h)@
                == h@.consumer_gone(),
        forall|h: &mut AsyncReadHandle| #[trigger]
            call_ensures(AsyncReadHandle::drop_producer, (h,), ()) ==> final(h)@
                == h@.producer_gone(),
        forall|h: &mut AsyncReadHandle| #[trigger]
            call_ensures(AsyncReadHandle::control_handle, (h,), ()) && h@.control.ctrl.senders
                < usize::MAX ==> final(h)@ == h@.with_handles(
                (h@.control.ctrl.senders + 1) as usize,
            ),
        forall|h: &mut AsyncReadHandle| #[trigger]
            call_ensures(AsyncReadHandle::drop_control_handle, (h,), ()) && h@.control.ctrl.senders
                > 0 ==> final(h)@ == h@.with_handles((h@.control.ctrl.senders - 1) as usize),
{
    assert forall|h: &mut AsyncReadHandle, r: Received<Result<Vec<u8>, RtlsdrError>>| #[trigger]
        call_ensures(AsyncReadHandle::recv, (h,), r) && r is Item implies h@.rx.items
        == seq![chunk_view(r->Item_0)] + final(h)@.rx.items by {
        crate::channel::law_oldest_item_is_received(h@.rx);
    }
    assert forall|h: &mut AsyncReadHandle, r: Option<Result<Vec<u8>, RtlsdrError>>| #[trigger]
        call_ensures(AsyncReadHandle::try_recv, (h,), r) && r is Some implies h@.rx.items
        == seq![chunk_view(r->0)] + final(h)@.rx.items by {
        crate::channel::law_oldest_item_is_received(h@.rx);
    }
}

} // verus!
