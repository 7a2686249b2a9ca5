use byor::channel::mpsc::{Channel, TrySendError};
use byor::channel::oneshot;
use byor::Suspend;

#[test]
fn bounded_backpressure_full_then_drain() {
    // Capacity 2: after two un-consumed sends the third try_send fails
    // as full; after one try_recv, a subsequent try_send succeeds.
    let (s, mut c): (_, Channel<u32>) = Channel::bounded(2);
    assert!(c.try_send(1).is_ok());
    assert!(c.try_send(2).is_ok());
    match c.try_send(3) {
        Err(e) => {
            assert!(e.is_full());
            assert_eq!(e.into_inner(), 3);
        },
        Ok(()) => panic!("a full channel must refuse try_send"),
    }
    assert_eq!(c.try_recv().unwrap(), Some(1));
    assert!(c.try_send(3).is_ok());
    assert_eq!(c.len(), 2);
    c.drop_sender(s);
}

#[test]
fn bounded_send_suspends_and_is_woken_by_recv() {
    // Capacity 1: send(10) succeeds at once; send(20) suspends; the
    // receive returns 10 and wakes the pending send; the next receive
    // returns 20.
    let (s, mut c): (_, Channel<u32>) = Channel::bounded(1);
    assert!(matches!(c.send(10), Suspend::Ready(Ok(()))));
    assert!(matches!(c.send(20), Suspend::Pending));
    assert_eq!(c.try_recv().unwrap(), Some(10));
    assert_eq!(c.try_recv().unwrap(), Some(20));
    assert_eq!(c.try_recv().unwrap(), None);
    c.drop_sender(s);
}

#[test]
fn closed_error_only_after_drain() {
    // Once every sender is dropped the receiver drains what is
    // buffered, then gets the closed error rather than the empty
    // result.
    let (s, mut c): (_, Channel<u32>) = Channel::unbounded();
    let s2 = c.clone_sender();
    assert!(c.unbounded_send(1).is_ok());
    assert!(c.unbounded_send(2).is_ok());
    c.drop_sender(s);
    assert_eq!(c.try_recv().unwrap(), Some(1));
    c.drop_sender(s2);
    assert_eq!(c.try_recv().unwrap(), Some(2));
    assert!(c.try_recv().is_err());
    assert!(matches!(c.recv(), Suspend::Ready(None)));
}

#[test]
fn recv_suspends_while_open_and_empty() {
    let (s, mut c): (_, Channel<u32>) = Channel::bounded(4);
    assert!(matches!(c.recv(), Suspend::Pending));
    assert!(c.try_send(5).is_ok());
    assert!(matches!(c.recv(), Suspend::Ready(Some(5))));
    c.drop_sender(s);
    assert!(matches!(c.recv(), Suspend::Ready(None)));
}

#[test]
fn receiver_close_returns_parked_sends() {
    let (s, mut c): (_, Channel<u32>) = Channel::bounded(1);
    assert!(matches!(c.send(1), Suspend::Ready(Ok(()))));
    assert!(matches!(c.send(2), Suspend::Pending));
    assert!(matches!(c.send(3), Suspend::Pending));
    // Closing fails the suspended sends and hands their values back.
    let returned = c.close();
    assert_eq!(returned, vec![2, 3]);
    assert!(c.is_closed());
    // Buffered values remain receivable while the channel drains.
    assert_eq!(c.try_recv().unwrap(), Some(1));
    assert!(c.try_recv().is_err());
    c.drop_sender(s);
}

#[test]
fn try_send_distinguishes_full_from_closed() {
    let (s, mut c): (_, Channel<u32>) = Channel::bounded(1);
    let _ = c.close();
    match c.try_send(9) {
        Err(TrySendError::Closed(v)) => assert_eq!(v, 9),
        _ => panic!("a closed channel must refuse try_send as closed"),
    }
    match c.send(9) {
        Suspend::Ready(Err(e)) => assert_eq!(e.value, 9),
        _ => panic!("send on a closed channel fails with the value back"),
    }
    c.drop_sender(s);
}

#[test]
fn unbounded_send_never_suspends() {
    let (s, mut c): (_, Channel<u32>) = Channel::unbounded();
    for k in 0u32..100 {
        assert!(matches!(c.send(k), Suspend::Ready(Ok(()))));
    }
    assert_eq!(c.len(), 100);
    match c.unbounded_send(100) {
        Ok(()) => {},
        Err(_) => panic!("an open unbounded channel accepts every send"),
    }
    c.drop_sender(s);
}

#[test]
fn unbounded_send_fails_closed_with_value_back() {
    let (s, mut c): (_, Channel<u32>) = Channel::unbounded();
    let _ = c.close();
    match c.unbounded_send(7) {
        Err(e) => assert_eq!(e.value, 7),
        Ok(()) => panic!("a closed channel must refuse unbounded_send"),
    }
    c.drop_sender(s);
}

#[test]
fn oneshot_delivers_exactly_one_value() {
    let (tx, mut rx) = oneshot::channel::<u32>();
    assert!(matches!(rx.recv(), Suspend::Pending));
    assert!(tx.send(&mut rx, 42).is_ok());
    match rx.recv() {
        Suspend::Ready(Ok(v)) => assert_eq!(v, 42),
        _ => panic!("the sent value resolves the receiver"),
    }
    // The one resolution is spent: no value can ever arrive now.
    assert!(matches!(rx.recv(), Suspend::Ready(Err(_))));
}

#[test]
fn oneshot_dropped_sender_cancels_receiver() {
    let (tx, mut rx) = oneshot::channel::<u32>();
    tx.consume(&mut rx);
    assert!(matches!(rx.recv(), Suspend::Ready(Err(_))));
    assert!(rx.try_recv().is_err());
}

#[test]
fn oneshot_closed_receiver_refuses_send() {
    let (tx, mut rx) = oneshot::channel::<u32>();
    rx.close();
    assert!(tx.is_closed(&rx));
    match tx.send(&mut rx, 5) {
        Err(v) => assert_eq!(v, 5),
        Ok(()) => panic!("a closed oneshot must hand the value back"),
    }
    assert!(rx.try_recv().is_err());
}

#[test]
fn oneshot_try_recv_empty_while_sender_lives() {
    let (tx, mut rx) = oneshot::channel::<u32>();
    assert_eq!(rx.try_recv().unwrap(), None);
    assert!(tx.send(&mut rx, 3).is_ok());
    assert_eq!(rx.try_recv().unwrap(), Some(3));
    assert!(rx.try_recv().is_err());
}

#[test]
fn drain_yields_everything_then_closed() {
    let (s, mut c): (_, Channel<u32>) = Channel::bounded(2);
    assert!(matches!(c.send(1), Suspend::Ready(Ok(()))));
    assert!(matches!(c.send(2), Suspend::Ready(Ok(()))));
    assert!(matches!(c.send(3), Suspend::Pending));
    c.drop_sender(s);
    assert_eq!(c.drain(), vec![1, 2, 3]);
    assert!(c.try_recv().is_err());
}

#[test]
fn oneshot_sender_observes_receiver_close() {
    let (tx, mut rx) = oneshot::channel::<u32>();
    assert!(matches!(tx.closed(&rx), Suspend::Pending));
    rx.close();
    assert!(matches!(tx.closed(&rx), Suspend::Ready(())));
}
