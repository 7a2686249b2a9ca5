//! Verified glue over a real engine's channels.
//!
//! The sequential models state what every engine must do; here the
//! crate also drives two real engines' channel primitives through their
//! non-suspending operations. A channel's state is shared between its
//! sender and receiver handles, so neither handle alone is a sound
//! place to hang a statement of the contents: each structure below owns
//! both ends together, Verus is given no view inside it, and the named
//! spec functions say what it holds. Every contract on the wrappers is
//! what the engine's own source shows for a channel whose two ends are
//! both held, and so can never observe a closed state.

use vstd::prelude::*;

verus! {

/// A real engine's bounded FIFO channel of plain values, both ends
/// held together.
#[verifier::external_body]
pub struct EngineQueue {
    tx: smol::channel::Sender<u64>,
    rx: smol::channel::Receiver<u64>,
}

/// The values the engine queue holds, oldest first.
pub uninterp spec fn engine_queue_items(q: EngineQueue) -> Seq<u64>;

/// The capacity the engine queue was created with.
pub uninterp spec fn engine_queue_bound(q: EngineQueue) -> usize;

/// Relies on smol::channel::bounded: a FIFO queue of the given
/// capacity, which must be at least one, starting empty.
#[verifier::external_body]
fn engine_bounded(capacity: usize) -> (q: EngineQueue)
    requires
        capacity >= 1,
    ensures
        engine_queue_items(q) == Seq::<u64>::empty(),
        engine_queue_bound(q) == capacity,
{
    let (tx, rx) = smol::channel::bounded(capacity);
    EngineQueue { tx, rx }
}

/// Relies on smol::channel::Sender::try_send: appends to the queue's
/// tail and succeeds exactly while the queue is below its capacity —
/// with both ends held, the closed failure cannot occur.
#[verifier::external_body]
fn engine_try_send(q: &mut EngineQueue, v: u64) -> (r: bool)
    ensures
        engine_queue_bound(*final(q)) == engine_queue_bound(*old(q)),
        r <==> engine_queue_items(*old(q)).len() < engine_queue_bound(*old(q)),
        r ==> engine_queue_items(*final(q)) == engine_queue_items(*old(q)).push(v),
        !r ==> engine_queue_items(*final(q)) == engine_queue_items(*old(q)),
{
    q.tx.try_send(v).is_ok()
}

/// Relies on smol::channel::Receiver::try_recv: pops the queue's
/// oldest value, yielding nothing exactly while the queue is empty.
#[verifier::external_body]
fn engine_try_recv(q: &mut EngineQueue) -> (r: Option<u64>)
    ensures
        engine_queue_bound(*final(q)) == engine_queue_bound(*old(q)),
        r is Some <==> engine_queue_items(*old(q)).len() > 0,
        r is Some ==> r->Some_0 == engine_queue_items(*old(q))[0] && engine_queue_items(
            *final(q),
        ) == engine_queue_items(*old(q)).skip(1),
        r is None ==> engine_queue_items(*final(q)) == engine_queue_items(*old(q)),
{
    match q.rx.try_recv() {
        Ok(v) => Some(v),
        Err(_) => None,
    }
}

/// Sends every value through a real engine's bounded channel and reads
/// each back at once: under the engine's own contract the relay is the
/// identity, whatever the capacity.
pub fn engine_relay(items: &Vec<u64>, capacity: usize) -> (out: Vec<u64>)
    requires
        capacity >= 1,
    ensures
        out@ == items@,
{
    let mut q: EngineQueue = engine_bounded(capacity);
    let mut out: Vec<u64> = Vec::new();
    let mut i: usize = 0;
    while i < items.len()
        invariant
            i <= items@.len(),
            engine_queue_bound(q) == capacity,
            capacity >= 1,
            engine_queue_items(q).len() == 0,
            out@ == items@.take(i as int),
        decreases items@.len() - i,
    {
        let sent: bool = engine_try_send(&mut q, items[i]);
        proof {
            assert(sent);
        }
        let got: Option<u64> = engine_try_recv(&mut q);
        match got {
            Some(v) => {
                out.push(v);
            },
            None => {
                proof {
                    assert(false);
                }
            },
        }
        proof {
            assert(out@ =~= items@.take(i + 1));
        }
        i = i + 1;
    }
    proof {
        assert(out@ =~= items@);
    }
    out
}

/// Fills a real engine's bounded channel until it refuses a value: the
/// engine accepts exactly its capacity, enforcing the same
/// backpressure the sequential model states.
pub fn engine_fill(capacity: usize, v: u64) -> (accepted: usize)
    requires
        capacity >= 1,
    ensures
        accepted == capacity,
{
    let mut q: EngineQueue = engine_bounded(capacity);
    let mut accepted: usize = 0;
    loop
        invariant
            engine_queue_bound(q) == capacity,
            accepted == engine_queue_items(q).len(),
            accepted <= capacity,
        ensures
            accepted == capacity,
        decreases capacity - accepted,
    {
        let sent: bool = engine_try_send(&mut q, v);
        if !sent {
            break ;
        }
        accepted = accepted + 1;
    }
    accepted
}

/// A real engine's oneshot channel of one plain value, both ends held
/// together.
#[verifier::external_body]
pub struct EngineOneshot {
    tx: Option<futures::channel::oneshot::Sender<u64>>,
    rx: futures::channel::oneshot::Receiver<u64>,
}

/// The value delivered to the engine oneshot and not yet received.
pub uninterp spec fn engine_oneshot_value(c: EngineOneshot) -> Option<u64>;

/// Whether the engine oneshot's sender is still unused.
pub uninterp spec fn engine_oneshot_armed(c: EngineOneshot) -> bool;

/// Relies on futures::channel::oneshot::channel: a fresh oneshot with
/// its single-use sender unspent and no value in flight.
#[verifier::external_body]
fn engine_oneshot() -> (c: EngineOneshot)
    ensures
        engine_oneshot_value(c) is None,
        engine_oneshot_armed(c),
{
    let (tx, rx) = futures::channel::oneshot::channel();
    EngineOneshot { tx: Some(tx), rx }
}

/// Relies on futures::channel::oneshot::Sender::send: delivers the one
/// value, consuming the sender; with the receiver held alongside, the
/// send cannot be refused. A second call finds the sender spent.
#[verifier::external_body]
fn engine_oneshot_send(c: &mut EngineOneshot, v: u64) -> (r: bool)
    ensures
        r <==> engine_oneshot_armed(*old(c)),
        !engine_oneshot_armed(*final(c)),
        r ==> engine_oneshot_value(*final(c)) == Some(v),
        !r ==> engine_oneshot_value(*final(c)) == engine_oneshot_value(*old(c)),
{
    match c.tx.take() {
        Some(tx) => {
            let _ = tx.send(v);
            true
        },
        None => false,
    }
}

/// Relies on futures::channel::oneshot::Receiver::try_recv: takes the
/// delivered value if one is in flight, leaving none behind.
#[verifier::external_body]
fn engine_oneshot_try_recv(c: &mut EngineOneshot) -> (r: Option<u64>)
    ensures
        r == engine_oneshot_value(*old(c)),
        engine_oneshot_value(*final(c)) is None,
        engine_oneshot_armed(*final(c)) == engine_oneshot_armed(*old(c)),
{
    match c.rx.try_recv() {
        Ok(v) => v,
        Err(_) => None,
    }
}

/// Delivers one value through a real engine's oneshot channel: exactly
/// one send is possible, and the receive yields exactly what was sent.
pub fn engine_oneshot_roundtrip(v: u64) -> (r: Option<u64>)
    ensures
        r == Some(v),
{
    let mut c: EngineOneshot = engine_oneshot();
    let sent: bool = engine_oneshot_send(&mut c, v);
    proof {
        assert(sent);
    }
    let again: bool = engine_oneshot_send(&mut c, v);
    proof {
        assert(!again);
    }
    engine_oneshot_try_recv(&mut c)
}

} // verus!
