//! A first-in first-out channel between the consumer of a stream and the threads that feed it.
//!
//! A [`Channel`] is the state of the channel alone. It never blocks: where a caller would have to
//! wait, the result says so, and the caller decides how to wait.

use std::collections::VecDeque;
use vstd::prelude::*;

verus! {

/// Why an item was not taken; the item comes back.
#[derive(Debug, PartialEq, Eq)]
pub enum TrySendError<T> {
    /// The channel holds as many items as it may.
    Full(T),
    /// The receiving end is gone.
    Disconnected(T),
}

/// What the receiving end finds.
#[derive(Debug, PartialEq, Eq)]
pub enum Received<T> {
    Item(T),
    /// There is no item yet.
    Empty,
    /// There is no item, and no sender is left that could add one.
    Disconnected,
}

#[derive(Debug)]
pub struct Channel<T> {
    items: VecDeque<T>,
    capacity: Option<usize>,
    senders: usize,
    receiver: bool,
}

/// The state of a [`Channel`]: the items that wait, oldest first; how many may wait (`None`: any
/// number); how many senders there are; and whether the receiving end is still there.
#[verifier::ext_equal]
pub struct ChannelView<T> {
    pub items: Seq<T>,
    pub capacity: Option<usize>,
    pub senders: usize,
    pub receiver: bool,
}

impl<T> View for Channel<T> {
    type V = ChannelView<T>;

    closed spec fn view(&self) -> ChannelView<T> {
        ChannelView {
            items: self.items@,
            capacity: self.capacity,
            senders: self.senders,
            receiver: self.receiver,
        }
    }
}

impl<T> ChannelView<T> {
    /// The capacity is kept, and nothing waits for a receiver that is gone.
    pub open spec fn wf(self) -> bool {
        &&& self.capacity matches Some(c) ==> self.items.len() <= c
        &&& !self.receiver ==> self.items.len() == 0
    }

    pub open spec fn is_full(self) -> bool {
        self.capacity matches Some(c) && self.items.len() >= c
    }

    /// Whether an item that is sent now is taken.
    pub open spec fn accepts(self) -> bool {
        self.receiver && !self.is_full()
    }

    /// The state after `item` was offered: at the end of the queue if it was taken.
    pub open spec fn offered(self, item: T) -> ChannelView<T> {
        if self.accepts() {
            ChannelView { items: self.items.push(item), ..self }
        } else {
            self
        }
    }

    /// The state after the receiving end asked for an item.
    pub open spec fn taken(self) -> ChannelView<T> {
        if self.items.len() > 0 {
            ChannelView { items: self.items.drop_first(), ..self }
        } else {
            self
        }
    }

    /// The same channel with every item seen through `f`.
    pub open spec fn map<U>(self, f: spec_fn(T) -> U) -> ChannelView<U> {
        ChannelView {
            items: self.items.map_values(f),
            capacity: self.capacity,
            senders: self.senders,
            receiver: self.receiver,
        }
    }

    /// What the receiving end finds.
    pub open spec fn front(self) -> Received<T> {
        if self.items.len() > 0 {
            Received::Item(self.items.first())
        } else if self.senders == 0 {
            Received::Disconnected
        } else {
            Received::Empty
        }
    }
}

impl<T> Channel<T> {
    /// An empty channel with one sender.
    pub fn new(capacity: Option<usize>) -> (c: Self)
        ensures
            c@ == (ChannelView::<T> {
                items: Seq::empty(),
                capacity,
                senders: 1,
                receiver: true,
            }),
            c@.wf(),
    {
        Channel { items: VecDeque::new(), capacity, senders: 1, receiver: true }
    }

    /// Offers an item without waiting.
    pub fn try_send(&mut self, item: T) -> (r: Result<(), TrySendError<T>>)
        ensures
            final(self)@ == old(self)@.offered(item),
            r == (if !old(self)@.receiver {
                Err::<(), TrySendError<T>>(TrySendError::Disconnected(item))
            } else if old(self)@.is_full() {
                Err(TrySendError::Full(item))
            } else {
                Ok(())
            }),
            r is Ok <==> old(self)@.receiver && (old(self)@.capacity matches Some(c)
                ==> old(self)@.items.len() < c),
            final(self)@.items == (if r is Ok {
                old(self)@.items.push(item)
            } else {
                old(self)@.items
            }),
            old(self)@.wf() ==> final(self)@.wf(),
    {
        if !self.receiver {
            return Err(TrySendError::Disconnected(item));
        }
        if let Some(c) = self.capacity {
            if self.items.len() >= c {
                return Err(TrySendError::Full(item));
            }
        }
        self.items.push_back(item);
        Ok(())
    }

    /// Takes the oldest item without waiting.
    pub fn try_recv(&mut self) -> (r: Received<T>)
        ensures
            r == old(self)@.front(),
            final(self)@ == old(self)@.taken(),
            r matches Received::Item(item) ==> old(self)@.items.len() > 0 && old(self)@.items
                == seq![item] + final(self)@.items,
            !(r is Item) ==> old(self)@.items.len() == 0 && final(self)@ == old(self)@,
            r is Disconnected <==> old(self)@.items.len() == 0 && old(self)@.senders == 0,
            old(self)@.wf() ==> final(self)@.wf(),
    {
        proof {
            if self.items@.len() > 0 {
                assert(self.items@ =~= seq![self.items@[0]] + self.items@.drop_first());
            }
        }
        match self.items.pop_front() {
            Some(item) => Received::Item(item),
            None => if self.senders == 0 {
                Received::Disconnected
            } else {
                Received::Empty
            },
        }
    }

    /// Whether an item that is sent now is taken.
    pub fn would_accept(&self) -> (b: bool)
        ensures
            b == self@.accepts(),
    {
        if let Some(c) = self.capacity {
            self.receiver && self.items.len() < c
        } else {
            self.receiver
        }
    }

    /// How many senders there are.
    pub fn senders(&self) -> (n: usize)
        ensures
            n == self@.senders,
    {
        self.senders
    }

    /// One more sender.
    pub fn add_sender(&mut self)
        requires
            old(self)@.senders < usize::MAX,
        ensures
            final(self)@ == (ChannelView {
                senders: (old(self)@.senders + 1) as usize,
                ..old(self)@
            }),
            old(self)@.wf() ==> final(self)@.wf(),
    {
        self.senders += 1;
    }

    /// One of the senders is gone. What it sent can still be received.
    pub fn drop_sender(&mut self)
        requires
            old(self)@.senders > 0,
        ensures
            final(self)@ == (ChannelView {
                senders: (old(self)@.senders - 1) as usize,
                ..old(self)@
            }),
            old(self)@.wf() ==> final(self)@.wf(),
    {
        self.senders -= 1;
    }

    /// The receiving end is gone, and with it every item that waits.
    pub fn drop_receiver(&mut self)
        ensures
            final(self)@ == (ChannelView {
                items: Seq::empty(),
                receiver: false,
                ..old(self)@
            }),
            final(self)@.wf(),
    {
        self.items.clear();
        self.receiver = false;
    }
}

impl<T> Received<T> {
    /// The same finding with the item seen through `f`.
    pub open spec fn map<U>(self, f: spec_fn(T) -> U) -> Received<U> {
        match self {
            Received::Item(item) => Received::Item(f(item)),
            Received::Empty => Received::Empty,
            Received::Disconnected => Received::Disconnected,
        }
    }
}

/// Sending and receiving treat the items alike, whatever they are seen through.
pub proof fn lemma_map_commutes<T, U>(c: ChannelView<T>, item: T, f: spec_fn(T) -> U)
    ensures
        c.map(f).accepts() == c.accepts(),
        c.map(f).is_full() == c.is_full(),
        c.map(f).wf() == c.wf(),
        c.map(f).offered(f(item)) == c.offered(item).map(f),
        c.map(f).taken() == c.taken().map(f),
        c.map(f).front() == c.front().map(f),
{
    assert(c.map(f).offered(f(item)).items =~= c.offered(item).map(f).items);
    assert(c.map(f).taken().items =~= c.taken().map(f).items);
}

/// One use of a channel by either end.
pub enum ChannelOp<T> {
    Send(T),
    Receive,
}

impl<T> ChannelView<T> {
    /// The state after one use.
    pub open spec fn after(self, op: ChannelOp<T>) -> ChannelView<T> {
        match op {
            ChannelOp::Send(item) => self.offered(item),
            ChannelOp::Receive => self.taken(),
        }
    }

    /// The state after a series of uses, in any interleaving of the two ends.
    pub open spec fn after_all(self, ops: Seq<ChannelOp<T>>) -> ChannelView<T>
        decreases ops.len(),
    {
        if ops.len() == 0 {
            self
        } else {
            self.after_all(ops.drop_last()).after(ops.last())
        }
    }

    /// The items that were taken into the channel by a series of uses, in the order of the sends.
    pub open spec fn accepted(self, ops: Seq<ChannelOp<T>>) -> Seq<T>
        decreases ops.len(),
    {
        if ops.len() == 0 {
            Seq::empty()
        } else {
            let before = self.accepted(ops.drop_last());
            match ops.last() {
                ChannelOp::Send(item) if self.after_all(ops.drop_last()).accepts() => before.push(
                    item,
                ),
                _ => before,
            }
        }
    }

    /// The items that a series of uses handed out, in the order of the receives.
    pub open spec fn received(self, ops: Seq<ChannelOp<T>>) -> Seq<T>
        decreases ops.len(),
    {
        if ops.len() == 0 {
            Seq::empty()
        } else {
            let before = self.received(ops.drop_last());
            match (ops.last(), self.after_all(ops.drop_last()).front()) {
                (ChannelOp::Receive, Received::Item(item)) => before.push(item),
                _ => before,
            }
        }
    }
}

/// First in, first out: however sends and receives interleave, what was waiting at first, followed
/// by what was taken in since, is what came out, followed by what still waits. Nothing is lost,
/// doubled or reordered. The capacity is never exceeded.
pub proof fn law_first_in_first_out<T>(start: ChannelView<T>, ops: Seq<ChannelOp<T>>)
    ensures
        start.items + start.accepted(ops) == start.received(ops) + start.after_all(ops).items,
        start.wf() ==> start.after_all(ops).wf(),
        start.after_all(ops).capacity == start.capacity,
        start.after_all(ops).senders == start.senders,
        start.after_all(ops).receiver == start.receiver,
    decreases ops.len(),
{
    if ops.len() == 0 {
        assert(start.items + start.accepted(ops) =~= start.received(ops)
            + start.after_all(ops).items);
    } else {
        let before = ops.drop_last();
        let mid = start.after_all(before);
        law_first_in_first_out(start, before);
        match ops.last() {
            ChannelOp::Send(item) => {
                if mid.accepts() {
                    assert(start.items + start.accepted(ops) =~= (start.items + start.accepted(
                        before,
                    )).push(item));
                    assert(start.received(ops) + start.after_all(ops).items =~= (start.received(
                        before,
                    ) + mid.items).push(item));
                }
            },
            ChannelOp::Receive => {
                if mid.items.len() > 0 {
                    assert(start.received(ops) + start.after_all(ops).items =~= start.received(
                        before,
                    ) + mid.items);
                }
            },
        }
    }
}

/// A channel whose receiving end is there takes an item exactly if fewer items wait than it has
/// room for: one with room for `n` items refuses it as full if and only if `n` items wait, and one
/// without a limit never does. An item that is taken comes last; one that is not leaves no trace.
pub proof fn law_item_is_taken_if_there_is_room<T>(c: ChannelView<T>, item: T)
    ensures
        c.capacity is None ==> !c.is_full(),
        c.capacity matches Some(n) ==> {
            &&& c.is_full() <==> c.items.len() >= n
            &&& c.items.len() <= n ==> (c.is_full() <==> c.items.len() == n)
        },
        c.accepts() <==> c.receiver && (c.capacity matches Some(n) ==> c.items.len() < n),
        c.receiver && (c.capacity matches Some(n) ==> c.items.len() < n) ==> {
            &&& c.offered(item).items.len() == c.items.len() + 1
            &&& c.offered(item).items.last() == item
            &&& c.offered(item).items.drop_last() == c.items
        },
        !(c.receiver && (c.capacity matches Some(n) ==> c.items.len() < n)) ==> c.offered(
            item,
        ).items == c.items,
        c.offered(item).capacity == c.capacity,
        c.offered(item).senders == c.senders,
        c.offered(item).receiver == c.receiver,
        c.wf() <==> (c.capacity matches Some(n) ==> c.items.len() <= n) && (c.receiver
            || c.items.len() == 0),
{
    assert(c.items.push(item).drop_last() =~= c.items);
}

/// Receiving takes away the item that waited longest and nothing else. If none waits, nothing
/// changes, and the receiving end learns whether a sender is left that could add one.
pub proof fn law_oldest_item_is_received<T>(c: ChannelView<T>)
    ensures
        c.items.len() > 0 ==> {
            &&& c.front() == Received::Item(c.items[0])
            &&& c.items == seq![c.items[0]] + c.taken().items
        },
        c.items.len() == 0 ==> c.taken().items == c.items,
        c.items.len() == 0 && c.senders == 0 ==> c.front() == Received::<T>::Disconnected,
        c.items.len() == 0 && c.senders > 0 ==> c.front() == Received::<T>::Empty,
        c.taken().capacity == c.capacity,
        c.taken().senders == c.senders,
        c.taken().receiver == c.receiver,
{
    if c.items.len() > 0 {
        assert(c.items =~= seq![c.items[0]] + c.items.drop_first());
    }
}

/// Seeing items through a function changes neither how many there are, nor their order, nor
/// anything else about a channel or about what is received.
pub proof fn law_items_are_seen_one_by_one<T, U>(
    c: ChannelView<T>,
    r: Received<T>,
    f: spec_fn(T) -> U,
)
    ensures
        c.map(f).items.len() == c.items.len(),
        forall|i: int| 0 <= i < c.items.len() ==> (#[trigger] c.map(f).items[i]) == f(c.items[i]),
        c.map(f).capacity == c.capacity,
        c.map(f).senders == c.senders,
        c.map(f).receiver == c.receiver,
        match r {
            Received::Item(item) => r.map(f) == Received::Item(f(item)),
            Received::Empty => r.map(f) == Received::<U>::Empty,
            Received::Disconnected => r.map(f) == Received::<U>::Disconnected,
        },
{
}

/// How the uses of a channel hang together. A channel says beforehand whether it takes an item.
/// What was sent is what is received: after an item was taken, the next one to come out is the one
/// that came out next before, or, if none waited, that very item; one that was refused comes back
/// as it was, and changes nothing.
pub proof fn law_sent_item_comes_out_in_turn<T>(item: T)
    ensures
        forall|c: Channel<T>, b: bool| #[trigger]
            call_ensures(Channel::<T>::would_accept, (&c,), b) ==> (b <==> c@.receiver && (
            c@.capacity matches Some(n) ==> c@.items.len() < n)),
        forall|
            sender: &mut Channel<T>,
            sent: Result<(), TrySendError<T>>,
            receiver: &mut Channel<T>,
            r: Received<T>,
        |
            #[trigger] call_ensures(Channel::<T>::try_send, (sender, item), sent)
                && *final(sender) == *receiver && #[trigger] call_ensures(
                Channel::<T>::try_recv,
                (receiver,),
                r,
            ) ==> {
                &&& sent is Ok && sender@.items.len() == 0 ==> r == Received::Item(item)
                &&& sender@.items.len() > 0 ==> r == Received::Item(sender@.items[0])
                &&& sent is Ok ==> sender@.items.push(item) == seq![r->Item_0]
                    + final(receiver)@.items
                &&& sent is Err ==> final(sender)@ == sender@
                &&& sent matches Err(TrySendError::Full(back)) ==> back == item
                &&& sent matches Err(TrySendError::Disconnected(back)) ==> back == item
                    && !sender@.receiver
            },
{
}

} // verus!
