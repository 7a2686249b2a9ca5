use byor::capability::{BoundedSender, Executor, Mutex, Receiver, Semaphore, UnboundedSender};
use byor::channel::mpsc;
use byor::runtime::{RuntimeMpsc, Sequential};
use byor::Suspend;

#[test]
fn sequential_runtime_builds_bounded_channels() {
    let (sender, mut c) = <Sequential as RuntimeMpsc<u32>>::bounded_channel(2);
    assert!(BoundedSender::try_send(&mut c, 4).is_ok());
    assert_eq!(Receiver::try_recv(&mut c).unwrap(), Some(4));
    c.drop_sender(sender);
}

#[test]
fn sequential_runtime_builds_unbounded_channels() {
    let (sender, mut c) = <Sequential as RuntimeMpsc<u32>>::unbounded_channel();
    assert!(UnboundedSender::send(&mut c, 9).is_ok());
    assert_eq!(Receiver::try_recv(&mut c).unwrap(), Some(9));
    c.drop_sender(sender);
}

#[test]
fn capability_traits_reach_the_sequential_engine() {
    // A caller written against the contracts alone sees the proved
    // behaviour when the sequential types stand behind them.
    let mut m: byor::lock::Mutex<u32> = Mutex::new(3);
    let g = Mutex::try_lock(&mut m).expect("fresh lock is free");
    assert!(Mutex::try_lock(&mut m).is_none());
    Mutex::unlock(&mut m, g);
    assert_eq!(Mutex::into_inner(m), 3);

    let mut s: byor::lock::Semaphore = Semaphore::new(1);
    let p = Semaphore::try_acquire(&mut s).expect("one permit free");
    assert!(Semaphore::try_acquire(&mut s).is_none());
    Semaphore::release(&mut s, p);

    let mut ex: byor::executor::Executor<u32> = Executor::new();
    assert_eq!(Executor::block_on(&mut ex, vec![2], 8), 8);
}

#[test]
fn suspend_outcome_helpers() {
    let (sender, mut c) = <Sequential as RuntimeMpsc<u32>>::bounded_channel(1);
    let first: Suspend<Result<(), mpsc::SendError<u32>>> = c.send(1);
    assert!(first.is_ready());
    assert!(first.unwrap_ready().is_ok());
    let second = c.send(2);
    assert!(!second.is_ready());
    c.drop_sender(sender);
}
