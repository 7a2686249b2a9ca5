use byor::lock::{Barrier, BarrierWait, Mutex, RwLock, Semaphore};
use byor::Suspend;

#[test]
fn mutex_exclusion_and_release() {
    let mut m: Mutex<u32> = Mutex::new(7);
    let g = m.try_lock().expect("fresh mutex must lock");
    assert!(m.try_lock().is_none());
    assert!(matches!(m.lock(), Suspend::Pending));
    assert_eq!(*m.borrow_locked(&g), 7);
    m.unlock(g);
    let g2 = m.try_lock().expect("released mutex must lock again");
    m.set_locked(&g2, 8);
    m.unlock(g2);
    assert_eq!(m.into_inner(), 8);
}

#[test]
fn mutex_lock_suspends_then_succeeds() {
    let mut m: Mutex<&'static str> = Mutex::new("shared");
    let g = match m.lock() {
        Suspend::Ready(g) => g,
        Suspend::Pending => panic!("uncontended lock must not suspend"),
    };
    assert!(matches!(m.lock(), Suspend::Pending));
    m.unlock(g);
    assert!(matches!(m.lock(), Suspend::Ready(_)));
}

#[test]
fn mutex_blocking_lock_and_get_mut() {
    let mut m: Mutex<u32> = Mutex::new(1);
    let g = m.blocking_lock();
    m.unlock(g);
    *m.get_mut() = 5;
    assert_eq!(m.into_inner(), 5);
}

#[test]
fn rwlock_readers_share_writer_excludes() {
    let mut l: RwLock<u32> = RwLock::new(10);
    let r1 = l.try_read().expect("first reader");
    let r2 = l.try_read().expect("second reader");
    assert!(l.try_write().is_none());
    assert!(matches!(l.write(), Suspend::Pending));
    assert_eq!(*l.borrow_read(&r1), 10);
    l.read_unlock(r1);
    assert!(l.try_write().is_none());
    l.read_unlock(r2);
    let w = l.try_write().expect("writer after readers gone");
    assert!(l.try_read().is_none());
    assert!(l.try_write().is_none());
    l.set_write(&w, 11);
    l.write_unlock(w);
    assert_eq!(l.into_inner(), 11);
}

#[test]
fn rwlock_downgrade_keeps_lock_held() {
    let mut l: RwLock<u32> = RwLock::new(3);
    let w = l.try_write().expect("writer");
    let r = l.downgrade(w);
    // No other writer can slip in: the downgraded lock is read-held.
    assert!(l.try_write().is_none());
    let r2 = l.try_read().expect("readers may join after downgrade");
    assert_eq!(*l.borrow_read(&r), 3);
    l.read_unlock(r);
    l.read_unlock(r2);
    assert!(l.try_write().is_some());
}

#[test]
fn rwlock_blocking_paths() {
    let mut l: RwLock<u32> = RwLock::new(0);
    let r = l.blocking_read();
    l.read_unlock(r);
    let w = l.blocking_write();
    l.write_unlock(w);
}

#[test]
fn barrier_three_waiters_one_leader() {
    let mut b = Barrier::new(3);
    let t1 = match b.wait() {
        BarrierWait::Waiting(t) => t,
        BarrierWait::Released(_) => panic!("first arrival must suspend"),
    };
    let t2 = match b.wait() {
        BarrierWait::Waiting(t) => t,
        BarrierWait::Released(_) => panic!("second arrival must suspend"),
    };
    assert!(b.redeem(&t1).is_none());
    let leader = match b.wait() {
        BarrierWait::Released(w) => w,
        BarrierWait::Waiting(_) => panic!("third arrival must release the cycle"),
    };
    assert!(leader.is_leader());
    let w1 = b.redeem(&t1).expect("released ticket redeems");
    let w2 = b.redeem(&t2).expect("released ticket redeems");
    assert!(!w1.is_leader());
    assert!(!w2.is_leader());
}

#[test]
fn barrier_resets_for_reuse() {
    let mut b = Barrier::new(2);
    let t = match b.wait() {
        BarrierWait::Waiting(t) => t,
        BarrierWait::Released(_) => panic!("first arrival must suspend"),
    };
    assert!(matches!(b.wait(), BarrierWait::Released(_)));
    assert!(b.redeem(&t).is_some());
    // A fresh cycle starts over.
    let t2 = match b.wait() {
        BarrierWait::Waiting(t2) => t2,
        BarrierWait::Released(_) => panic!("new cycle's first arrival must suspend"),
    };
    assert!(b.redeem(&t2).is_none());
    assert!(matches!(b.wait(), BarrierWait::Released(_)));
}

#[test]
fn semaphore_two_permits_third_acquire_suspends() {
    let mut s = Semaphore::new(2);
    let p1 = match s.acquire() {
        Suspend::Ready(p) => p,
        Suspend::Pending => panic!("first acquire must proceed"),
    };
    let p2 = match s.acquire() {
        Suspend::Ready(p) => p,
        Suspend::Pending => panic!("second acquire must proceed"),
    };
    assert!(matches!(s.acquire(), Suspend::Pending));
    assert!(s.try_acquire().is_none());
    s.release(p1);
    let p3 = match s.acquire() {
        Suspend::Ready(p) => p,
        Suspend::Pending => panic!("a released permit wakes the waiter"),
    };
    s.release(p2);
    s.release(p3);
    assert_eq!(s.available_permits(), 2);
}

#[test]
fn semaphore_add_and_forget_permits() {
    let mut s = Semaphore::new(1);
    let p = s.try_acquire().expect("one permit free");
    assert_eq!(s.available_permits(), 0);
    s.add_permits(2);
    assert_eq!(s.available_permits(), 2);
    // Forgetting removes the permit's capacity for good.
    s.forget(p);
    assert_eq!(s.available_permits(), 2);
    let q1 = s.try_acquire().expect("permit free");
    let q2 = s.try_acquire().expect("permit free");
    assert!(s.try_acquire().is_none());
    s.release(q1);
    s.release(q2);
}
