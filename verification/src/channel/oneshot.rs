//! A channel for sending a single value between two tasks.
//!
//! Exactly one value may ever cross the channel: sending consumes the
//! sender, so a second send is impossible by the type contract, not by a
//! runtime check. The receiver resolves exactly once — to the value, or
//! to a cancellation if the sender was dropped without sending.

use vstd::prelude::*;
use crate::Suspend;

verus! {

/// Error of a receive on a oneshot channel whose sender went away — or
/// already delivered — without a value remaining: no value can ever
/// arrive.
#[derive(Debug)]
pub struct Canceled {
    seal: (),
}

/// The sending half of a oneshot channel: a move-only token consumed by
/// the one send (or by being dropped).
pub struct Sender {
    seal: (),
}

/// The receiving half of a oneshot channel. It owns the channel's state:
/// the value slot, whether the sender is still live, and whether the
/// receiver has closed the channel.
pub struct Receiver<T> {
    slot: Option<T>,
    sender_live: bool,
    closed: bool,
}

impl<T> Receiver<T> {
    /// Whether a sent value is waiting to be received.
    pub closed spec fn has_value(&self) -> bool {
        self.slot is Some
    }

    /// The waiting value.
    pub closed spec fn value(&self) -> T
        recommends
            self.has_value(),
    {
        self.slot->Some_0
    }

    /// Whether the sender token is still live.
    pub closed spec fn sender_live(&self) -> bool {
        self.sender_live
    }

    /// Whether the receiver has closed the channel.
    pub closed spec fn is_closed_spec(&self) -> bool {
        self.closed
    }

    /// Well-formedness: a delivered value means the sender is spent.
    pub closed spec fn wf(&self) -> bool {
        self.slot is Some ==> !self.sender_live
    }

    /// Whether a receive can never again yield a value.
    pub open spec fn recv_canceled(&self) -> bool {
        !self.has_value() && !self.sender_live()
    }

    /// Closes the channel, preventing the sender from sending a value;
    /// a value already in flight remains receivable.
    pub fn close(&mut self)
        requires
            old(self).wf(),
        ensures
            final(self).wf(),
            final(self).is_closed_spec(),
            final(self).has_value() == old(self).has_value(),
            old(self).has_value() ==> final(self).value() == old(self).value(),
            final(self).sender_live() == old(self).sender_live(),
    {
        self.closed = true;
    }

    /// Attempts to receive the value without suspending: the value if it
    /// has arrived, an empty result while the sender may yet send, and
    /// the cancellation error once no value can ever arrive.
    pub fn try_recv(&mut self) -> (r: Result<Option<T>, Canceled>)
        requires
            old(self).wf(),
        ensures
            final(self).wf(),
            (r is Ok && r->Ok_0 is Some) <==> old(self).has_value(),
            ((r is Ok && r->Ok_0 is Some) ==> r->Ok_0->Some_0 == old(self).value()),
            r is Err <==> old(self).recv_canceled(),
            !final(self).has_value(),
            final(self).sender_live() == old(self).sender_live(),
            final(self).is_closed_spec() == old(self).is_closed_spec(),
    {
        match self.slot.take() {
            Some(v) => Ok(Some(v)),
            None => if self.sender_live {
                Ok(None)
            } else {
                Err(Canceled { seal: () })
            },
        }
    }

    /// Receives the value, suspending the caller until it arrives or
    /// until the sender is gone; resolves exactly once — to the value,
    /// or to the cancellation error if the sender was dropped without
    /// sending.
    pub fn recv(&mut self) -> (r: Suspend<Result<T, Canceled>>)
        requires
            old(self).wf(),
        ensures
            final(self).wf(),
            (r is Ready && r->Ready_0 is Ok) <==> old(self).has_value(),
            ((r is Ready && r->Ready_0 is Ok) ==> r->Ready_0->Ok_0 == old(self).value()),
            (r is Ready && r->Ready_0 is Err) <==> old(self).recv_canceled(),
            r is Pending <==> (!old(self).has_value() && old(self).sender_live()),
            !final(self).has_value(),
            final(self).sender_live() == old(self).sender_live(),
            final(self).is_closed_spec() == old(self).is_closed_spec(),
    {
        match self.slot.take() {
            Some(v) => Suspend::Ready(Ok(v)),
            None => if self.sender_live {
                Suspend::Pending
            } else {
                Suspend::Ready(Err(Canceled { seal: () }))
            },
        }
    }
}

impl Sender {
    /// Attempts to send a value, returning it back if the receiver has
    /// already closed the channel. Sending consumes the sender: only one
    /// value may ever cross, and a second send does not type-check.
    pub fn send<T>(self, rx: &mut Receiver<T>, t: T) -> (r: Result<(), T>)
        requires
            old(rx).wf(),
            old(rx).sender_live(),
        ensures
            final(rx).wf(),
            r is Ok <==> !old(rx).is_closed_spec(),
            r is Ok ==> final(rx).has_value() && final(rx).value() == t,
            (r matches Err(v) ==> v == t && !final(rx).has_value()),
            !final(rx).sender_live(),
            final(rx).is_closed_spec() == old(rx).is_closed_spec(),
    {
        self.consume(rx);
        if rx.closed {
            Err(t)
        } else {
            rx.slot = Some(t);
            Ok(())
        }
    }

    /// Whether the receiver has closed the channel, in which case any
    /// send is doomed to fail.
    pub fn is_closed<T>(&self, rx: &Receiver<T>) -> (r: bool)
        ensures
            r == rx.is_closed_spec(),
    {
        rx.closed
    }

    /// Completes once the receiver has closed the channel, so that work
    /// whose result nobody will take can be cancelled; until then the
    /// caller suspends.
    pub fn closed<T>(&self, rx: &Receiver<T>) -> (r: Suspend<()>)
        ensures
            r is Ready <==> rx.is_closed_spec(),
    {
        if rx.closed {
            Suspend::Ready(())
        } else {
            Suspend::Pending
        }
    }

    /// Drops the sender without sending: the receiver's wait then
    /// resolves to the cancellation error once nothing is left to drain.
    pub fn consume<T>(self, rx: &mut Receiver<T>)
        requires
            old(rx).wf(),
        ensures
            final(rx).wf(),
            !final(rx).sender_live(),
            final(rx).has_value() == old(rx).has_value(),
            old(rx).has_value() ==> final(rx).value() == old(rx).value(),
            final(rx).is_closed_spec() == old(rx).is_closed_spec(),
    {
        rx.sender_live = false;
    }
}

/// Creates a oneshot channel: one single-use sender and the receiver it
/// will resolve.
pub fn channel<T>() -> (r: (Sender, Receiver<T>))
    ensures
        r.1.wf(),
        !r.1.has_value(),
        r.1.sender_live(),
        !r.1.is_closed_spec(),
{
    (Sender { seal: () }, Receiver { slot: None, sender_live: true, closed: false })
}

/// Law: a oneshot receiver whose sender is gone and delivered nothing
/// resolves to cancellation, never to silence; while the sender lives,
/// cancellation is never reported.
pub proof fn lemma_oneshot_cancellation<T>(rx: Receiver<T>)
    requires
        rx.wf(),
    ensures
        !rx.sender_live() && !rx.has_value() ==> rx.recv_canceled(),
        rx.sender_live() ==> !rx.recv_canceled(),
        rx.has_value() ==> !rx.recv_canceled(),
{
}

} // verus!
