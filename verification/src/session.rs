//! What holds of a whole streaming session, from the first allocation to the last free.
//!
//! A [`Session`] follows an engine, the state that its completions share, and which transfers are
//! really in flight, through every order of events that the USB library can produce.

use crate::engine::{EngineAction, EngineEvent, Phase, TransferEngine};
use crate::transfer::{TransferState, TransferStatus};
use vstd::prelude::*;

verus! {

/// Something that happens during a streaming session.
pub enum SessionEvent {
    /// The USB library did what the engine asked for.
    Usb(EngineEvent),
    /// A transfer completed with the libusb status `code`. If it was submitted again, that
    /// returned `rc`.
    Completion { transfer: int, code: i32, rc: i32 },
    /// The consumer asked the stream to stop.
    StopRequested,
}

/// A streaming session: the engine, the shared state, whether the stream was asked to stop, how
/// many transfers were allocated and freed, which of them are in flight, and how many turns of the
/// event loop the shutdown spent waiting.
pub struct Session {
    pub engine: TransferEngine,
    pub state: TransferState,
    pub stop: bool,
    pub allocated: nat,
    pub freed: nat,
    pub in_flight: Set<int>,
    pub drain_turns: nat,
}

impl Session {
    pub open spec fn start(buf_num: usize, buf_len: usize) -> Session {
        Session {
            engine: TransferEngine::fresh(buf_num, buf_len),
            state: TransferState::fresh(buf_num),
            stop: false,
            allocated: 0,
            freed: 0,
            in_flight: Set::empty(),
            drain_turns: 0,
        }
    }

    /// The USB library does what it is asked for. A completion comes from the event loop, and only
    /// for a transfer that is in flight.
    pub open spec fn possible(self, event: SessionEvent) -> bool {
        match event {
            SessionEvent::Usb(e) => match self.engine.action_spec() {
                EngineAction::Allocate { .. } => e is Allocated,
                EngineAction::Submit(_) => e is Submitted,
                EngineAction::Poll { .. } => e is Polled,
                EngineAction::CancelAll => e is Cancelled,
                EngineAction::FreeAll(_) => e is Freed,
                EngineAction::Finished => false,
            },
            SessionEvent::Completion { transfer, .. } => {
                self.engine.action_spec() is Poll && self.in_flight.contains(transfer)
            },
            SessionEvent::StopRequested => true,
        }
    }

    pub open spec fn after(self, event: SessionEvent) -> Session {
        match event {
            SessionEvent::Usb(e) => Session {
                engine: self.engine.after(self.state, self.stop, e),
                state: self.engine.state_after(self.state, e),
                stop: self.stop || self.engine.shuts_down(self.state, self.stop, e),
                allocated: if e == EngineEvent::Allocated(true) {
                    self.allocated + 1
                } else {
                    self.allocated
                },
                freed: match (self.engine.action_spec(), e) {
                    (EngineAction::FreeAll(n), EngineEvent::Freed) => self.freed + n as nat,
                    _ => self.freed,
                },
                in_flight: match (self.engine.action_spec(), e) {
                    (EngineAction::Submit(t), EngineEvent::Submitted(rc)) if rc == 0 => {
                        self.in_flight.insert(t.index as int)
                    },
                    _ => self.in_flight,
                },
                drain_turns: if self.engine.phase is Draining {
                    self.drain_turns + 1
                } else {
                    self.drain_turns
                },
            },
            SessionEvent::Completion { transfer, code, rc } => {
                let status = crate::transfer::status_of(code);
                let handled = self.state.after(status, self.stop);
                if self.state.resubmits(status, self.stop) {
                    Session {
                        state: handled.after_submit(rc),
                        in_flight: if rc == 0 {
                            self.in_flight
                        } else {
                            self.in_flight.remove(transfer)
                        },
                        ..self
                    }
                } else {
                    Session { state: handled, in_flight: self.in_flight.remove(transfer), ..self }
                }
            },
            SessionEvent::StopRequested => Session { stop: true, ..self },
        }
    }

    pub open spec fn after_all(self, events: Seq<SessionEvent>) -> Session
        decreases events.len(),
    {
        if events.len() == 0 {
            self
        } else {
            self.after_all(events.drop_last()).after(events.last())
        }
    }

    pub open spec fn all_possible(self, events: Seq<SessionEvent>) -> bool
        decreases events.len(),
    {
        events.len() == 0 || {
            &&& self.all_possible(events.drop_last())
            &&& self.after_all(events.drop_last()).possible(events.last())
        }
    }

    /// What every event keeps.
    pub open spec fn inv(self) -> bool {
        let n = self.engine.buf_num;
        &&& self.engine.wf()
        &&& self.state.buf_num == n
        &&& self.in_flight.finite()
        &&& self.in_flight.len() <= n
        &&& self.state.pending <= n
        &&& self.state.xfer_errors + self.state.pending <= 2 * n
        &&& !self.state.dev_lost && self.state.pending > 0 ==> self.state.xfer_errors < n
        &&& !(self.engine.phase is Draining || self.engine.phase is Freeing
            || self.engine.phase is Finished) ==> self.drain_turns == 0
        &&& match self.engine.phase {
            Phase::Allocating { done } => {
                &&& self.state == TransferState::fresh(n)
                &&& self.in_flight =~= Set::empty()
                &&& self.allocated == done
                &&& self.freed == 0
            },
            Phase::Aborting { done } => {
                &&& self.in_flight =~= Set::empty()
                &&& self.allocated == done
                &&& self.freed == 0
            },
            Phase::Submitting { next, submitted } => {
                &&& self.allocated == n
                &&& self.freed == 0
                &&& self.in_flight.len() == submitted
                &&& forall|i: int| self.in_flight.contains(i) ==> 0 <= i < next
                &&& self.state.pending == submitted + (n - next)
                &&& self.state.xfer_errors == 0
                &&& !self.state.dev_lost
            },
            Phase::Streaming => {
                &&& self.allocated == n
                &&& self.freed == 0
                &&& self.state.pending == self.in_flight.len()
            },
            Phase::Cancelling => {
                &&& self.stop
                &&& self.allocated == n
                &&& self.freed == 0
                &&& self.state.pending == self.in_flight.len()
            },
            Phase::Draining { turns } => {
                &&& self.stop
                &&& self.allocated == n
                &&& self.freed == 0
                &&& self.state.pending == self.in_flight.len()
                &&& self.drain_turns == turns
            },
            Phase::Freeing => {
                &&& self.allocated == n
                &&& self.freed == 0
                &&& self.state.pending == self.in_flight.len()
                &&& self.drain_turns <= crate::engine::DRAIN_LIMIT
                &&& self.state.pending == 0 || self.drain_turns == crate::engine::DRAIN_LIMIT
            },
            Phase::Finished => {
                &&& self.freed == self.allocated
                &&& self.allocated <= n
                &&& self.drain_turns <= crate::engine::DRAIN_LIMIT
            },
        }
    }
}

proof fn lemma_inv_kept(s: Session, event: SessionEvent)
    requires
        s.inv(),
        s.possible(event),
        2 * s.engine.buf_num < usize::MAX,
    ensures
        s.after(event).inv(),
        s.after(event).engine.buf_num == s.engine.buf_num,
        s.after(event).engine.buf_len == s.engine.buf_len,
{
}

proof fn lemma_inv_reached(buf_num: usize, buf_len: usize, events: Seq<SessionEvent>)
    requires
        2 * buf_num < usize::MAX,
        Session::start(buf_num, buf_len).all_possible(events),
    ensures
        Session::start(buf_num, buf_len).after_all(events).inv(),
        Session::start(buf_num, buf_len).after_all(events).engine.buf_num == buf_num,
        Session::start(buf_num, buf_len).after_all(events).engine.buf_len == buf_len,
    decreases events.len(),
{
    if events.len() > 0 {
        lemma_inv_reached(buf_num, buf_len, events.drop_last());
        lemma_inv_kept(
            Session::start(buf_num, buf_len).after_all(events.drop_last()),
            events.last(),
        );
    }
}

/// Every transfer has a buffer of its own, and all of them are filled in alike: each reads as many
/// bytes from the bulk endpoint as its buffer holds, and none of them ever times out. None is
/// submitted before all are allocated, nor while it is in flight.
pub proof fn law_transfers_are_filled_in_alike(
    buf_num: usize,
    buf_len: usize,
    events: Seq<SessionEvent>,
)
    requires
        2 * buf_num < usize::MAX,
        Session::start(buf_num, buf_len).all_possible(events),
    ensures
        ({
            let s = Session::start(buf_num, buf_len).after_all(events);
            &&& s.engine.action_spec() matches EngineAction::Allocate { len } ==> len == buf_len
            &&& s.engine.action_spec() matches EngineAction::Submit(t) ==> {
                &&& t.endpoint == 0x81
                &&& t.len == buf_len
                &&& t.timeout_millis == 0
                &&& t.index < s.allocated == buf_num
                &&& !s.in_flight.contains(t.index as int)
            }
        }),
{
    lemma_inv_reached(buf_num, buf_len, events);
}

/// Pending counts what is in flight: once every transfer was submitted, and as long as the session
/// lasts, the counter is exactly the number of transfers whose completion is still to come. It
/// never wraps, and neither does the error count, so every completion can be handled. (No machine
/// holds so many transfers that twice their number is out of range.)
pub proof fn law_pending_counts_in_flight(buf_num: usize, buf_len: usize, events: Seq<SessionEvent>)
    requires
        2 * buf_num < usize::MAX,
        Session::start(buf_num, buf_len).all_possible(events),
    ensures
        ({
            let s = Session::start(buf_num, buf_len).after_all(events);
            &&& s.engine.phase is Streaming || s.engine.phase is Cancelling
                || s.engine.phase is Draining || s.engine.phase is Freeing
                ==> s.in_flight.finite() && s.state.pending == s.in_flight.len()
            &&& s.engine.phase is Allocating || s.engine.phase is Aborting ==> s.in_flight
                == Set::<int>::empty()
            &&& s.state.pending <= buf_num
            &&& s.state.xfer_errors <= 2 * buf_num < usize::MAX
        }),
{
    lemma_inv_reached(buf_num, buf_len, events);
}

/// When the transfers are about to be freed, none of them is in flight any more, unless the
/// shutdown waited through all its turns of the event loop without seeing the last completion.
pub proof fn law_nothing_in_flight_is_freed(
    buf_num: usize,
    buf_len: usize,
    events: Seq<SessionEvent>,
)
    requires
        2 * buf_num < usize::MAX,
        Session::start(buf_num, buf_len).all_possible(events),
        Session::start(buf_num, buf_len).after_all(events).engine.action_spec() is FreeAll,
    ensures
        ({
            let s = Session::start(buf_num, buf_len).after_all(events);
            ||| s.in_flight == Set::<int>::empty()
            ||| s.state.pending > 0 && s.drain_turns == crate::engine::DRAIN_LIMIT
        }),
{
    lemma_inv_reached(buf_num, buf_len, events);
    let s = Session::start(buf_num, buf_len).after_all(events);
    if s.engine.phase is Freeing && s.state.pending == 0 {
        assert(s.in_flight =~= Set::empty()) by {
            s.in_flight.lemma_len0_is_empty();
        }
    }
}

/// Every transfer that was allocated is freed exactly once: all of them at the end, and none
/// before it. The shutdown never waits longer than its limit.
pub proof fn law_all_allocated_is_freed_once(
    buf_num: usize,
    buf_len: usize,
    events: Seq<SessionEvent>,
)
    requires
        2 * buf_num < usize::MAX,
        Session::start(buf_num, buf_len).all_possible(events),
    ensures
        ({
            let s = Session::start(buf_num, buf_len).after_all(events);
            &&& s.allocated <= buf_num
            &&& s.freed == (if s.engine.phase is Finished {
                s.allocated
            } else {
                0
            })
            &&& s.engine.action_spec() matches EngineAction::FreeAll(n) ==> n == s.allocated
            &&& s.drain_turns <= crate::engine::DRAIN_LIMIT
        }),
{
    lemma_inv_reached(buf_num, buf_len, events);
}

/// From the start of the shutdown on, the stream is stopped and no transfer is submitted again:
/// each completion leaves one transfer less in flight.
pub proof fn law_shutdown_resubmits_nothing(
    buf_num: usize,
    buf_len: usize,
    events: Seq<SessionEvent>,
    transfer: int,
    code: i32,
    rc: i32,
)
    requires
        2 * buf_num < usize::MAX,
        Session::start(buf_num, buf_len).all_possible(events),
        ({
            let s = Session::start(buf_num, buf_len).after_all(events);
            &&& s.engine.phase is Cancelling || s.engine.phase is Draining
            &&& s.possible(SessionEvent::Completion { transfer, code, rc })
        }),
    ensures
        ({
            let s = Session::start(buf_num, buf_len).after_all(events);
            let next = s.after(SessionEvent::Completion { transfer, code, rc });
            &&& s.stop
            &&& !s.state.resubmits(crate::transfer::status_of(code), s.stop)
            &&& next.in_flight == s.in_flight.remove(transfer)
            &&& next.state.pending == s.state.pending - 1
        }),
{
    lemma_inv_reached(buf_num, buf_len, events);
}

/// How many times the USB library is still asked for something once the shutdown began, at most.
pub open spec fn steps_left(phase: Phase) -> int {
    match phase {
        Phase::Cancelling => crate::engine::DRAIN_LIMIT + 2,
        Phase::Draining { turns } => crate::engine::DRAIN_LIMIT - turns + 1,
        Phase::Freeing => 1,
        Phase::Aborting { .. } => 1,
        _ => 0,
    }
}

/// A stream that was asked to stop, or whose device is lost, is shut down after the current turn of
/// the event loop, and the shutdown ends: everything that the USB library does brings it one step
/// closer, and nothing else takes it back.
pub proof fn law_shutdown_ends(
    buf_num: usize,
    buf_len: usize,
    events: Seq<SessionEvent>,
    event: SessionEvent,
)
    requires
        2 * buf_num < usize::MAX,
        Session::start(buf_num, buf_len).all_possible(events),
        Session::start(buf_num, buf_len).after_all(events).possible(event),
    ensures
        ({
            let s = Session::start(buf_num, buf_len).after_all(events);
            let next = s.after(event);
            let ending = s.engine.phase is Cancelling || s.engine.phase is Draining
                || s.engine.phase is Freeing || s.engine.phase is Aborting;
            &&& s.engine.phase is Streaming && event == SessionEvent::Usb(EngineEvent::Polled) && (
            s.stop || s.state.dev_lost) ==> next.engine.phase is Cancelling && next.stop
            &&& ending && event is Usb ==> steps_left(next.engine.phase) < steps_left(
                s.engine.phase,
            )
            &&& ending && !(event is Usb) ==> next.engine == s.engine
            &&& ending && steps_left(next.engine.phase) == 0 ==> next.engine.phase is Finished
            &&& ending ==> 0 < steps_left(s.engine.phase) <= crate::engine::DRAIN_LIMIT + 2
        }),
{
    lemma_inv_reached(buf_num, buf_len, events);
}

/// Every transfer can be allocated, none is cancelled, and the stream is not asked to stop.
/// Transfers may fail, and the USB library may refuse to submit one.
pub open spec fn undisturbed(event: SessionEvent) -> bool {
    match event {
        SessionEvent::Usb(EngineEvent::Allocated(ok)) => ok,
        SessionEvent::Usb(_) => true,
        SessionEvent::Completion { code, .. } => crate::transfer::status_of(code)
            != TransferStatus::Cancelled,
        SessionEvent::StopRequested => false,
    }
}

/// How often the USB library refused to submit a transfer, at first or again.
pub open spec fn refusals(events: Seq<SessionEvent>) -> nat
    decreases events.len(),
{
    if events.len() == 0 {
        0
    } else {
        refusals(events.drop_last()) + match events.last() {
            SessionEvent::Usb(EngineEvent::Submitted(rc)) if rc != 0 => 1nat,
            SessionEvent::Completion { rc, .. } if rc != 0 => 1nat,
            _ => 0,
        }
    }
}

/// As long as the device is there and nobody asks the session to stop, it streams with all of its
/// transfers in flight, but for those that the USB library refused to submit: every transfer that
/// completes, with data or with an error, is in flight again before the next one completes. So at
/// all times all of them are in flight, or all but the one whose completion is being handled. The
/// session ends only if no transfer could be submitted to begin with.
pub proof fn law_all_transfers_stay_in_flight(
    buf_num: usize,
    buf_len: usize,
    events: Seq<SessionEvent>,
)
    requires
        0 < buf_num,
        2 * buf_num < usize::MAX,
        Session::start(buf_num, buf_len).all_possible(events),
        forall|i: int| 0 <= i < events.len() ==> undisturbed(#[trigger] events[i]),
        !Session::start(buf_num, buf_len).after_all(events).state.dev_lost,
    ensures
        ({
            let s = Session::start(buf_num, buf_len).after_all(events);
            &&& match s.engine.phase {
                Phase::Allocating { .. } => refusals(events) == 0,
                Phase::Submitting { next, .. } => s.in_flight.len() == next - refusals(events),
                Phase::Streaming => {
                    &&& s.in_flight.len() == buf_num - refusals(events)
                    &&& s.state.pending == s.in_flight.len()
                },
                Phase::Freeing => refusals(events) == buf_num,
                Phase::Finished => refusals(events) == buf_num,
                _ => false,
            }
            &&& s.engine.phase is Streaming ==> forall|transfer: int| #[trigger]
                s.in_flight.contains(transfer) ==> s.in_flight.remove(transfer).len() == buf_num
                    - refusals(events) - 1
        }),
{
    lemma_inv_reached(buf_num, buf_len, events);
    lemma_no_disturbance(buf_num, buf_len, events);
}

proof fn lemma_no_disturbance(buf_num: usize, buf_len: usize, events: Seq<SessionEvent>)
    requires
        0 < buf_num,
        2 * buf_num < usize::MAX,
        Session::start(buf_num, buf_len).all_possible(events),
        forall|i: int| 0 <= i < events.len() ==> undisturbed(#[trigger] events[i]),
        !Session::start(buf_num, buf_len).after_all(events).state.dev_lost,
    ensures
        ({
            let s = Session::start(buf_num, buf_len).after_all(events);
            &&& !s.stop
            &&& match s.engine.phase {
                Phase::Allocating { .. } => refusals(events) == 0,
                Phase::Submitting { next, submitted } => submitted == next - refusals(events),
                Phase::Streaming => s.in_flight.len() == buf_num - refusals(events),
                Phase::Freeing => refusals(events) == buf_num,
                Phase::Finished => refusals(events) == buf_num,
                _ => false,
            }
        }),
    decreases events.len(),
{
    if events.len() > 0 {
        let before = events.drop_last();
        assert forall|i: int| 0 <= i < before.len() implies undisturbed(#[trigger] before[i]) by {
            assert(before[i] == events[i]);
        }
        lemma_no_disturbance(buf_num, buf_len, before);
        lemma_inv_reached(buf_num, buf_len, before);
        assert(undisturbed(events[events.len() - 1]));
        lemma_inv_reached(buf_num, buf_len, events);
    }
}

/// How many transfers failed since the last one that completed.
pub open spec fn failure_streak(statuses: Seq<TransferStatus>) -> nat
    decreases statuses.len(),
{
    if statuses.len() == 0 {
        0
    } else {
        match statuses.last() {
            TransferStatus::Completed => 0,
            TransferStatus::Other(_) => failure_streak(statuses.drop_last()) + 1,
            _ => failure_streak(statuses.drop_last()),
        }
    }
}

/// The shared state after completions with the given statuses, with `stops[i]` telling whether the
/// stream was asked to stop before completion `i`.
pub open spec fn state_after_all(
    buf_num: usize,
    statuses: Seq<TransferStatus>,
    stops: Seq<bool>,
) -> TransferState
    decreases statuses.len(),
{
    if statuses.len() == 0 {
        TransferState::fresh(buf_num)
    } else {
        state_after_all(buf_num, statuses.drop_last(), stops).after(
            statuses.last(),
            stops[statuses.len() - 1],
        )
    }
}

/// With completion `i`, the device turned out to be lost: the transfer reported that it is gone,
/// or it failed as the last of as many in a row as there are buffers.
pub open spec fn shows_loss(buf_num: usize, statuses: Seq<TransferStatus>, i: int) -> bool {
    ||| statuses[i] == TransferStatus::NoDevice
    ||| statuses[i] is Other && failure_streak(statuses.take(i + 1)) >= buf_num
}

/// The device counts as lost exactly if some transfer reported that it is gone, or if at some
/// point as many transfers as there are buffers had failed since one last completed.
pub proof fn law_device_lost(buf_num: usize, statuses: Seq<TransferStatus>, stops: Seq<bool>)
    requires
        statuses.len() <= usize::MAX,
    ensures
        state_after_all(buf_num, statuses, stops).buf_num == buf_num,
        state_after_all(buf_num, statuses, stops).xfer_errors == failure_streak(statuses),
        state_after_all(buf_num, statuses, stops).dev_lost <==> exists|i: int|
            0 <= i < statuses.len() && #[trigger] shows_loss(buf_num, statuses, i),
    decreases statuses.len(),
{
    lemma_streak_bound(statuses);
    if statuses.len() > 0 {
        let before = statuses.drop_last();
        let last = statuses.len() - 1;
        law_device_lost(buf_num, before, stops);
        assert(statuses.take(last + 1) =~= statuses);
        assert forall|i: int| 0 <= i < last implies #[trigger] shows_loss(buf_num, before, i)
            == shows_loss(buf_num, statuses, i) by {
            assert(before.take(i + 1) =~= statuses.take(i + 1));
        }
        if state_after_all(buf_num, before, stops).dev_lost {
            let i = choose|i: int|
                0 <= i < before.len() && #[trigger] shows_loss(buf_num, before, i);
            assert(shows_loss(buf_num, statuses, i));
        } else {
            assert forall|i: int| 0 <= i < last implies !#[trigger] shows_loss(
                buf_num,
                statuses,
                i,
            ) by {
                assert(!shows_loss(buf_num, before, i));
            }
            assert(shows_loss(buf_num, statuses, last) == state_after_all(
                buf_num,
                statuses,
                stops,
            ).dev_lost);
        }
    }
}

proof fn lemma_streak_bound(statuses: Seq<TransferStatus>)
    ensures
        failure_streak(statuses) <= statuses.len(),
    decreases statuses.len(),
{
    if statuses.len() > 0 {
        lemma_streak_bound(statuses.drop_last());
    }
}

} // verus!
