//! A multi-producer, single-consumer queue for sending values between
//! asynchronous tasks.
//!
//! The channel is a state machine over plain data: a buffer of values in
//! transit, a count of live sender handles, a closed flag, and — for
//! bounded channels — the values of sends that are suspended on a full
//! buffer. A bounded send suspends while the buffer is full and is woken
//! by the receiver consuming an element or closing the channel; on the
//! latter the un-sent value is handed back, never silently dropped. An
//! unbounded send never suspends.

use vstd::prelude::*;
use crate::Suspend;

verus! {

/// Error of a non-suspending send attempt: the channel was full, or it
/// was closed. Either way the value comes back to the caller.
#[derive(Debug)]
pub enum TrySendError<T> {
    /// The buffer was at capacity; the value is returned.
    Full(T),
    /// No further receives are possible; the value is returned.
    Closed(T),
}

impl<T> TrySendError<T> {
    /// The value that could not be sent.
    pub closed spec fn value(&self) -> T {
        match self {
            TrySendError::Full(t) => *t,
            TrySendError::Closed(t) => *t,
        }
    }

    /// Whether the attempt failed on a full buffer.
    pub fn is_full(&self) -> (r: bool)
        ensures
            r == (self is Full),
    {
        match self {
            TrySendError::Full(_) => true,
            TrySendError::Closed(_) => false,
        }
    }

    /// Recovers the un-sent value.
    pub fn into_inner(self) -> (r: T)
        ensures
            r == self.value(),
    {
        match self {
            TrySendError::Full(t) => t,
            TrySendError::Closed(t) => t,
        }
    }
}

/// Error of a completed send: the channel was closed, and the un-sent
/// value is carried back to the caller.
#[derive(Debug)]
pub struct SendError<T> {
    /// The value that could not be sent.
    pub value: T,
}

/// Error of a non-suspending receive attempt: the channel is closed and
/// drained, so no further value can ever arrive. An empty-but-open
/// channel is not an error.
#[derive(Debug)]
pub struct TryRecvError {
    seal: (),
}

/// A counted token standing for one live sender handle of a channel.
/// Creating a channel mints one; cloning mints another through
/// [`Channel::clone_sender`]; dropping one goes through
/// [`Channel::drop_sender`], which consumes it.
pub struct Sender {
    seal: (),
}

/// A multi-producer, single-consumer channel.
///
/// One value of this type models the state every handle of one channel
/// shares: senders are counted by `sender_count`, and the single
/// receiver closes or drains through the same state.
pub struct Channel<T> {
    queue: Vec<T>,
    bound: Option<usize>,
    parked: Vec<T>,
    senders: u64,
    closed: bool,
}

impl<T> Channel<T> {
    /// The values in transit, oldest first.
    pub closed spec fn buffered(&self) -> Seq<T> {
        self.queue@
    }

    /// The values of sends currently suspended on a full buffer, oldest
    /// first.
    pub closed spec fn suspended_sends(&self) -> Seq<T> {
        self.parked@
    }

    /// The capacity of a bounded channel; an unbounded channel has none.
    pub closed spec fn capacity(&self) -> Option<usize> {
        self.bound
    }

    /// How many sender handles are live.
    pub closed spec fn sender_count(&self) -> u64 {
        self.senders
    }

    /// Whether the receiver has closed the channel.
    pub closed spec fn is_closed_spec(&self) -> bool {
        self.closed
    }

    /// Well-formedness: a bounded buffer respects its capacity, sends
    /// suspend only on a full bounded buffer, and a closed channel has
    /// no suspended send left waiting.
    pub closed spec fn wf(&self) -> bool {
        &&& (self.bound matches Some(c) ==> c >= 1 && self.queue@.len() <= c)
        &&& (self.parked@.len() > 0 ==> (self.bound matches Some(c) && self.queue@.len()
            == c))
        &&& (self.closed ==> self.parked@.len() == 0)
    }

    /// Whether a send would be accepted right now without suspending.
    pub open spec fn can_accept(&self) -> bool {
        !self.is_closed_spec() && (self.capacity() matches Some(c) ==> self.buffered().len()
            < c)
    }

    /// Whether no further value can ever arrive: the buffer is drained
    /// and either the receiver closed the channel or every sender is
    /// gone.
    pub open spec fn recv_closed(&self) -> bool {
        self.buffered().len() == 0 && self.suspended_sends().len() == 0 && (
        self.is_closed_spec() || self.sender_count() == 0)
    }

    /// Creates a bounded channel: its one initial sender handle and the
    /// receiving state it sends into.
    pub fn bounded(capacity: usize) -> (r: (Sender, Channel<T>))
        requires
            capacity >= 1,
        ensures
            r.1.wf(),
            r.1.buffered().len() == 0,
            r.1.suspended_sends().len() == 0,
            r.1.capacity() == Some(capacity),
            r.1.sender_count() == 1,
            !r.1.is_closed_spec(),
    {
        (
            Sender { seal: () },
            Channel {
                queue: Vec::new(),
                bound: Some(capacity),
                parked: Vec::new(),
                senders: 1,
                closed: false,
            },
        )
    }

    /// Creates an unbounded channel: its one initial sender handle and
    /// the receiving state it sends into.
    pub fn unbounded() -> (r: (Sender, Channel<T>))
        ensures
            r.1.wf(),
            r.1.buffered().len() == 0,
            r.1.suspended_sends().len() == 0,
            r.1.capacity() is None,
            r.1.sender_count() == 1,
            !r.1.is_closed_spec(),
    {
        (
            Sender { seal: () },
            Channel { queue: Vec::new(), bound: None, parked: Vec::new(), senders: 1, closed: false },
        )
    }

    /// Attempts to send a value without ever suspending, distinguishing
    /// a full buffer from a closed channel.
    pub fn try_send(&mut self, t: T) -> (r: Result<(), TrySendError<T>>)
        requires
            old(self).wf(),
        ensures
            final(self).wf(),
            r is Ok <==> old(self).can_accept(),
            r is Ok ==> final(self).buffered() == old(self).buffered().push(t),
            (r matches Err(e) ==> e.value() == t && *final(self) == *old(self)),
            (r matches Err(e) ==> ((e is Closed) <==> old(self).is_closed_spec())),
            final(self).capacity() == old(self).capacity(),
            final(self).sender_count() == old(self).sender_count(),
            final(self).is_closed_spec() == old(self).is_closed_spec(),
            final(self).suspended_sends() == old(self).suspended_sends(),
    {
        if self.closed {
            Err(TrySendError::Closed(t))
        } else {
            let full: bool = match &self.bound {
                Some(c) => self.queue.len() >= *c,
                None => false,
            };
            if full {
                Err(TrySendError::Full(t))
            } else {
                self.queue.push(t);
                Ok(())
            }
        }
    }

    /// Sends a value, suspending the caller while the buffer is full.
    /// A suspended send parks its value with the channel; the receiver
    /// consuming an element moves it into the buffer, and the receiver
    /// closing the channel hands it back as an error. On a channel that
    /// is already closed the value comes straight back.
    pub fn send(&mut self, t: T) -> (r: Suspend<Result<(), SendError<T>>>)
        requires
            old(self).wf(),
        ensures
            final(self).wf(),
            r is Pending <==> (!old(self).is_closed_spec() && !old(self).can_accept()),
            r is Pending ==> final(self).suspended_sends() == old(self).suspended_sends().push(
                t,
            ) && final(self).buffered() == old(self).buffered(),
            (r matches Suspend::Ready(q) ==> ((q is Ok) <==> !old(self).is_closed_spec())),
            ((r is Ready && r->Ready_0 is Ok) ==> (final(self).buffered() == old(self).buffered().push(t) && final(self).suspended_sends() == old(self).suspended_sends())),
            ((r is Ready && r->Ready_0 is Err) ==> (r->Ready_0->Err_0.value == t && *final(self)
                == *old(self))),
            final(self).capacity() == old(self).capacity(),
            final(self).sender_count() == old(self).sender_count(),
            final(self).is_closed_spec() == old(self).is_closed_spec(),
    {
        if self.closed {
            Suspend::Ready(Err(SendError { value: t }))
        } else {
            let full: bool = match &self.bound {
                Some(c) => self.queue.len() >= *c,
                None => false,
            };
            if full {
                self.parked.push(t);
                Suspend::Pending
            } else {
                self.queue.push(t);
                Suspend::Ready(Ok(()))
            }
        }
    }

    /// Sends on an unbounded channel. This never suspends: callers must
    /// never rely on backpressure from an unbounded channel.
    pub fn unbounded_send(&mut self, t: T) -> (r: Result<(), SendError<T>>)
        requires
            old(self).wf(),
            old(self).capacity() is None,
        ensures
            final(self).wf(),
            r is Ok <==> !old(self).is_closed_spec(),
            r is Ok ==> final(self).buffered() == old(self).buffered().push(t),
            (r matches Err(e) ==> e.value == t && *final(self) == *old(self)),
            final(self).capacity() == old(self).capacity(),
            final(self).sender_count() == old(self).sender_count(),
            final(self).is_closed_spec() == old(self).is_closed_spec(),
            final(self).suspended_sends() == old(self).suspended_sends(),
    {
        if self.closed {
            Err(SendError { value: t })
        } else {
            self.queue.push(t);
            Ok(())
        }
    }

    /// Tries to receive a value without ever suspending.
    ///
    /// Returns a value if one is buffered — and, if a send is suspended
    /// on the freed slot, wakes it by moving its value into the buffer —
    /// an empty result while senders remain, and the closed error once
    /// no further value can ever arrive.
    pub fn try_recv(&mut self) -> (r: Result<Option<T>, TryRecvError>)
        requires
            old(self).wf(),
        ensures
            final(self).wf(),
            (r matches Ok(Some(v))) <==> old(self).buffered().len() > 0,
            (r matches Ok(Some(v)) ==> v == old(self).buffered()[0]),
            (r matches Ok(Some(v)) && old(self).suspended_sends().len() == 0 ==> final(self).buffered() == old(self).buffered().skip(1) && final(self).suspended_sends()
                == old(self).suspended_sends()),
            (r matches Ok(Some(v)) && old(self).suspended_sends().len() > 0 ==> final(self).buffered() == old(self).buffered().skip(1).push(old(self).suspended_sends()[0])
                && final(self).suspended_sends() == old(self).suspended_sends().skip(1)),
            r is Err <==> old(self).recv_closed(),
            (r matches Ok(o) && o is None ==> *final(self) == *old(self)),
            r is Err ==> *final(self) == *old(self),
            final(self).capacity() == old(self).capacity(),
            final(self).sender_count() == old(self).sender_count(),
            final(self).is_closed_spec() == old(self).is_closed_spec(),
    {
        if self.queue.len() > 0 {
            let v: T = self.queue.remove(0);
            if self.parked.len() > 0 {
                let w: T = self.parked.remove(0);
                self.queue.push(w);
            }
            Ok(Some(v))
        } else if self.closed || self.senders == 0 {
            Err(TryRecvError { seal: () })
        } else {
            Ok(None)
        }
    }

    /// Receives a value, suspending the caller while the channel is
    /// empty but open. Yields the end-of-stream marker once the channel
    /// is closed and drained.
    pub fn recv(&mut self) -> (r: Suspend<Option<T>>)
        requires
            old(self).wf(),
        ensures
            final(self).wf(),
            (r is Ready && r->Ready_0 is Some) <==> old(self).buffered().len() > 0,
            ((r is Ready && r->Ready_0 is Some) ==> r->Ready_0->Some_0 == old(self).buffered()[0]),
            ((r is Ready && r->Ready_0 is Some && old(self).suspended_sends().len() == 0) ==> (
            final(self).buffered() == old(self).buffered().skip(1) && final(self).suspended_sends() == old(self).suspended_sends())),
            ((r is Ready && r->Ready_0 is Some && old(self).suspended_sends().len() > 0) ==> (
            final(self).buffered() == old(self).buffered().skip(1).push(old(self).suspended_sends()[0]) && final(self).suspended_sends() == old(self).suspended_sends().skip(1))),
            (r is Ready && r->Ready_0 is None) <==> old(self).recv_closed(),
            r is Pending ==> *final(self) == *old(self),
            ((r is Ready && r->Ready_0 is None) ==> *final(self) == *old(self)),
            final(self).capacity() == old(self).capacity(),
            final(self).sender_count() == old(self).sender_count(),
            final(self).is_closed_spec() == old(self).is_closed_spec(),
    {
        match self.try_recv() {
            Ok(Some(v)) => Suspend::Ready(Some(v)),
            Ok(None) => Suspend::Pending,
            Err(_) => Suspend::Ready(None),
        }
    }

    /// Closes the channel from the receive side: no further send is
    /// accepted, while buffered values remain receivable. Every
    /// suspended send fails, and their un-sent values are handed back,
    /// oldest first.
    pub fn close(&mut self) -> (returned: Vec<T>)
        requires
            old(self).wf(),
        ensures
            final(self).wf(),
            final(self).is_closed_spec(),
            returned@ == old(self).suspended_sends(),
            final(self).suspended_sends().len() == 0,
            final(self).buffered() == old(self).buffered(),
            final(self).capacity() == old(self).capacity(),
            final(self).sender_count() == old(self).sender_count(),
    {
        self.closed = true;
        let mut returned: Vec<T> = Vec::new();
        core::mem::swap(&mut returned, &mut self.parked);
        returned
    }

    /// Whether the channel is closed, as a sender observes it.
    pub fn is_closed(&self) -> (r: bool)
        ensures
            r == self.is_closed_spec(),
    {
        self.closed
    }

    /// Mints one more live sender handle, as cloning a sender does.
    pub fn clone_sender(&mut self) -> (s: Sender)
        requires
            old(self).wf(),
            old(self).sender_count() < u64::MAX,
        ensures
            final(self).wf(),
            final(self).sender_count() == old(self).sender_count() + 1,
            final(self).buffered() == old(self).buffered(),
            final(self).suspended_sends() == old(self).suspended_sends(),
            final(self).capacity() == old(self).capacity(),
            final(self).is_closed_spec() == old(self).is_closed_spec(),
    {
        self.senders = self.senders + 1;
        Sender { seal: () }
    }

    /// Consumes one dropped sender handle. Once the last one is gone
    /// the channel closes from the send side, and the receiver observes
    /// end-of-stream after draining what remains.
    pub fn drop_sender(&mut self, s: Sender)
        requires
            old(self).wf(),
            old(self).sender_count() > 0,
        ensures
            final(self).wf(),
            final(self).sender_count() == old(self).sender_count() - 1,
            final(self).buffered() == old(self).buffered(),
            final(self).suspended_sends() == old(self).suspended_sends(),
            final(self).capacity() == old(self).capacity(),
            final(self).is_closed_spec() == old(self).is_closed_spec(),
    {
        self.senders = self.senders - 1;
    }

    /// Drains the channel once the last sender is gone: every value in
    /// transit comes out, in order, the values of suspended sends after
    /// the buffered ones — and only then does the receiver stand at the
    /// closed error rather than the empty result.
    pub fn drain(&mut self) -> (r: Vec<T>)
        requires
            old(self).wf(),
            old(self).sender_count() == 0,
        ensures
            final(self).wf(),
            r@ == old(self).buffered() + old(self).suspended_sends(),
            final(self).recv_closed(),
    {
        let mut out: Vec<T> = Vec::new();
        loop
            invariant
                self.wf(),
                self.sender_count() == 0,
                out@ + self.buffered() + self.suspended_sends() == old(self).buffered() + old(self).suspended_sends(),
            ensures
                self.wf(),
                self.recv_closed(),
                out@ == old(self).buffered() + old(self).suspended_sends(),
            decreases self.buffered().len() + self.suspended_sends().len(),
        {
            match self.try_recv() {
                Ok(Some(v)) => {
                    out.push(v);
                    proof {
                        assert(out@ + self.buffered() + self.suspended_sends() =~= old(self).buffered() + old(self).suspended_sends());
                    }
                },
                Ok(None) => {
                    proof {
                        assert(false);
                    }
                },
                Err(_) => {
                    proof {
                        assert(out@ =~= old(self).buffered() + old(self).suspended_sends());
                    }
                    break ;
                },
            }
        }
        out
    }

    /// How many values are buffered.
    pub fn len(&self) -> (r: usize)
        ensures
            r == self.buffered().len(),
    {
        self.queue.len()
    }
}

/// A runtime with a multi-producer, single-consumer channel: the
/// composition contract binding an engine's concrete sender and
/// receiver types for each flavour of channel.
pub trait RuntimeMpsc<T> {
    /// The sending half of a bounded channel.
    type BoundedSender;

    /// The receiving half of a bounded channel.
    type BoundedReceiver;

    /// The sending half of an unbounded channel.
    type UnboundedSender;

    /// The receiving half of an unbounded channel.
    type UnboundedReceiver;

    /// Creates a bounded channel with the given capacity, which every
    /// engine requires to be at least one.
    fn bounded_channel(buffer: usize) -> (r: (Self::BoundedSender, Self::BoundedReceiver))
        requires
            buffer >= 1,
    ;

    /// Creates an unbounded channel.
    fn unbounded_channel() -> (r: (Self::UnboundedSender, Self::UnboundedReceiver));
}

/// Law: a bounded channel at capacity accepts no further send — the
/// `(N+1)`th non-suspending send after `N` un-consumed successes fails
/// as full — and consuming one element makes the next send owed
/// acceptance again.
pub proof fn lemma_bounded_backpressure<T>(c: Channel<T>, cap: usize)
    requires
        c.wf(),
        c.capacity() == Some(cap),
        !c.is_closed_spec(),
    ensures
        c.buffered().len() == cap ==> !c.can_accept(),
        c.buffered().len() < cap ==> c.can_accept(),
{
}

/// Law: once every sender handle is dropped, the receiver drains what
/// is buffered and then — and only then — observes the closed error
/// rather than the empty result.
pub proof fn lemma_drained_after_senders_gone<T>(c: Channel<T>)
    requires
        c.wf(),
        c.sender_count() == 0,
    ensures
        c.buffered().len() > 0 ==> !c.recv_closed(),
        c.buffered().len() == 0 ==> c.recv_closed(),
{
}

} // verus!
