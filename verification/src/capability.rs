//! The capability trait set: the cross-engine contracts.
//!
//! Each trait here is one leaf contract an execution engine can claim:
//! it binds the engine's concrete guard, permit and result types
//! through associated types, and states — as `requires` and `ensures`
//! over the trait's own spec functions — the observable behaviour every
//! conforming implementation must provide. Swapping one conforming
//! engine for another then never changes what a caller sees.
//!
//! The sequential state machines of this crate implement every trait
//! below, which proves each contract satisfiable; an engine with its
//! own primitives implements them with its own types.

use vstd::prelude::*;
use crate::channel::mpsc;
use crate::executor;
use crate::lock;
use crate::Suspend;

verus! {

/// A guard witnessing a held mutual-exclusion lock; releasing it is
/// handing it back to the lock it came from.
pub trait MutexGuard {

}

/// An asynchronous mutual-exclusion lock over a value of type `T`: at
/// most one guard is live at a time, and releasing it lets the next
/// acquisition succeed.
pub trait Mutex<T>: Sized {
    /// The engine's guard type.
    type Guard: MutexGuard;

    /// Whether a guard is currently out.
    spec fn is_locked(&self) -> bool;

    /// The value the lock protects.
    spec fn inner(&self) -> T;

    /// Creates a new lock in an unlocked state ready for use.
    fn new(t: T) -> (m: Self)
        ensures
            !m.is_locked(),
            m.inner() == t,
    ;

    /// Acquires the lock, suspending the caller while it is held
    /// elsewhere.
    fn lock(&mut self) -> (r: Suspend<Self::Guard>)
        ensures
            r is Ready <==> !old(self).is_locked(),
            r is Ready ==> final(self).is_locked(),
            r is Pending ==> final(self).is_locked(),
            final(self).inner() == old(self).inner(),
    ;

    /// Attempts to acquire without ever suspending; yields nothing on
    /// contention.
    fn try_lock(&mut self) -> (r: Option<Self::Guard>)
        ensures
            r is Some <==> !old(self).is_locked(),
            r is Some ==> final(self).is_locked(),
            r is None ==> final(self).is_locked(),
            final(self).inner() == old(self).inner(),
    ;

    /// Releases the lock, consuming the guard; the next acquisition is
    /// then owed success.
    fn unlock(&mut self, g: Self::Guard)
        requires
            old(self).is_locked(),
        ensures
            !final(self).is_locked(),
            final(self).inner() == old(self).inner(),
    ;

    /// Returns a mutable reference to the underlying data; exclusive
    /// access to the lock itself stands in for locking, so no guard
    /// may be out.
    fn get_mut(&mut self) -> (r: &mut T)
        requires
            !old(self).is_locked(),
        ensures
            *r == old(self).inner(),
            !final(self).is_locked(),
            final(self).inner() == *final(r),
    ;

    /// Consumes the lock, returning the underlying data.
    fn into_inner(self) -> (r: T)
        requires
            !self.is_locked(),
        ensures
            r == self.inner(),
    ;
}

/// The blocking extension of [`Mutex`], for engines whose executor
/// threads may validly block. On a cooperative engine a contended call
/// can never be woken — a fatal misuse, not a recoverable error — so
/// the contract admits only the uncontended call.
pub trait MutexExt<T>: Mutex<T> {
    /// Acquires the lock, blocking the whole thread rather than
    /// suspending the task.
    fn blocking_lock(&mut self) -> (g: Self::Guard)
        requires
            !old(self).is_locked(),
        ensures
            final(self).is_locked(),
            final(self).inner() == old(self).inner(),
    ;
}

impl MutexGuard for lock::MutexGuard {

}

impl<T> Mutex<T> for lock::Mutex<T> {
    type Guard = lock::MutexGuard;

    closed spec fn is_locked(&self) -> bool {
        lock::Mutex::is_locked(self)
    }

    closed spec fn inner(&self) -> T {
        lock::Mutex::inner(self)
    }

    fn new(t: T) -> (m: Self) {
        lock::Mutex::new(t)
    }

    fn lock(&mut self) -> (r: Suspend<lock::MutexGuard>) {
        lock::Mutex::lock(self)
    }

    fn try_lock(&mut self) -> (r: Option<lock::MutexGuard>) {
        lock::Mutex::try_lock(self)
    }

    fn unlock(&mut self, g: lock::MutexGuard) {
        lock::Mutex::unlock(self, g)
    }

    fn get_mut(&mut self) -> (r: &mut T) {
        lock::Mutex::get_mut(self)
    }

    fn into_inner(self) -> (r: T) {
        lock::Mutex::into_inner(self)
    }
}

impl<T> MutexExt<T> for lock::Mutex<T> {
    fn blocking_lock(&mut self) -> (g: lock::MutexGuard) {
        lock::Mutex::blocking_lock(self)
    }
}

/// A guard witnessing shared read access to a reader-writer lock.
pub trait RwLockReadGuard {

}

/// A guard witnessing exclusive write access to a reader-writer lock;
/// every write guard also grants read access.
pub trait RwLockWriteGuard: RwLockReadGuard {

}

/// An asynchronous reader-writer lock over a value of type `T`: any
/// number of concurrently live read guards, or one write guard, never
/// both kinds at once.
pub trait RwLock<T>: Sized {
    /// The engine's read guard type.
    type ReadGuard: RwLockReadGuard;

    /// The engine's write guard type.
    type WriteGuard: RwLockWriteGuard;

    /// Well-formedness: a writer excludes all readers.
    spec fn wf(&self) -> bool;

    /// How many read guards are out.
    spec fn reader_count(&self) -> u64;

    /// Whether the write guard is out.
    spec fn writer_held(&self) -> bool;

    /// The value the lock protects.
    spec fn inner(&self) -> T;

    /// Creates a new lock in an unlocked state ready for use.
    fn new(t: T) -> (l: Self)
        ensures
            l.wf(),
            l.reader_count() == 0,
            !l.writer_held(),
            l.inner() == t,
    ;

    /// Acquires shared read access, suspending while a writer holds
    /// the lock.
    fn read(&mut self) -> (r: Suspend<Self::ReadGuard>)
        requires
            old(self).wf(),
        ensures
            final(self).wf(),
            r is Ready <==> (!old(self).writer_held() && old(self).reader_count() < u64::MAX),
            r is Ready ==> final(self).reader_count() == old(self).reader_count() + 1,
            r is Pending ==> final(self).reader_count() == old(self).reader_count(),
            final(self).writer_held() == old(self).writer_held(),
            final(self).inner() == old(self).inner(),
    ;

    /// Attempts shared read access without suspending.
    fn try_read(&mut self) -> (r: Option<Self::ReadGuard>)
        requires
            old(self).wf(),
        ensures
            final(self).wf(),
            r is Some <==> (!old(self).writer_held() && old(self).reader_count() < u64::MAX),
            r is Some ==> final(self).reader_count() == old(self).reader_count() + 1,
            r is None ==> final(self).reader_count() == old(self).reader_count(),
            final(self).writer_held() == old(self).writer_held(),
            final(self).inner() == old(self).inner(),
    ;

    /// Acquires read access, blocking the whole thread; only the
    /// uncontended call is admitted, as a contended one is fatal on a
    /// cooperative engine.
    fn blocking_read(&mut self) -> (g: Self::ReadGuard)
        requires
            old(self).wf(),
            !old(self).writer_held(),
            old(self).reader_count() < u64::MAX,
        ensures
            final(self).wf(),
            final(self).reader_count() == old(self).reader_count() + 1,
            !final(self).writer_held(),
            final(self).inner() == old(self).inner(),
    ;

    /// Acquires exclusive write access, suspending while any guard is
    /// out.
    fn write(&mut self) -> (r: Suspend<Self::WriteGuard>)
        requires
            old(self).wf(),
        ensures
            final(self).wf(),
            r is Ready <==> (!old(self).writer_held() && old(self).reader_count() == 0),
            r is Ready ==> final(self).writer_held() && final(self).reader_count() == 0,
            r is Pending ==> final(self).writer_held() == old(self).writer_held() && final(self).reader_count() == old(self).reader_count(),
            final(self).inner() == old(self).inner(),
    ;

    /// Attempts exclusive write access without suspending.
    fn try_write(&mut self) -> (r: Option<Self::WriteGuard>)
        requires
            old(self).wf(),
        ensures
            final(self).wf(),
            r is Some <==> (!old(self).writer_held() && old(self).reader_count() == 0),
            r is Some ==> final(self).writer_held() && final(self).reader_count() == 0,
            r is None ==> final(self).writer_held() == old(self).writer_held() && final(self).reader_count() == old(self).reader_count(),
            final(self).inner() == old(self).inner(),
    ;

    /// Acquires write access, blocking the whole thread; only the
    /// uncontended call is admitted.
    fn blocking_write(&mut self) -> (g: Self::WriteGuard)
        requires
            old(self).wf(),
            !old(self).writer_held(),
            old(self).reader_count() == 0,
        ensures
            final(self).wf(),
            final(self).writer_held(),
            final(self).reader_count() == 0,
            final(self).inner() == old(self).inner(),
    ;

    /// Releases one read guard.
    fn read_unlock(&mut self, g: Self::ReadGuard)
        requires
            old(self).wf(),
            old(self).reader_count() > 0,
        ensures
            final(self).wf(),
            final(self).reader_count() == old(self).reader_count() - 1,
            final(self).writer_held() == old(self).writer_held(),
            final(self).inner() == old(self).inner(),
    ;

    /// Releases the write guard; the lock is then owed to the next
    /// acquisition of either kind.
    fn write_unlock(&mut self, g: Self::WriteGuard)
        requires
            old(self).wf(),
            old(self).writer_held(),
        ensures
            final(self).wf(),
            !final(self).writer_held(),
            final(self).reader_count() == 0,
            final(self).inner() == old(self).inner(),
    ;

    /// Converts a held write guard into a read guard in one atomic
    /// transition: no observer ever sees the lock fully unlocked in
    /// between, so no other writer can interleave.
    fn downgrade(&mut self, g: Self::WriteGuard) -> (r: Self::ReadGuard)
        requires
            old(self).wf(),
            old(self).writer_held(),
        ensures
            final(self).wf(),
            !final(self).writer_held(),
            final(self).reader_count() == 1,
            final(self).inner() == old(self).inner(),
    ;

    /// Returns a mutable reference to the underlying data; exclusive
    /// access to the lock itself stands in for locking.
    fn get_mut(&mut self) -> (r: &mut T)
        requires
            old(self).wf(),
            !old(self).writer_held(),
            old(self).reader_count() == 0,
        ensures
            *r == old(self).inner(),
            final(self).wf(),
            !final(self).writer_held(),
            final(self).reader_count() == 0,
            final(self).inner() == *final(r),
    ;

    /// Consumes the lock, returning the underlying data.
    fn into_inner(self) -> (r: T)
        requires
            !self.writer_held(),
            self.reader_count() == 0,
        ensures
            r == self.inner(),
    ;
}

impl RwLockReadGuard for lock::RwLockReadGuard {

}

impl RwLockReadGuard for lock::RwLockWriteGuard {

}

impl RwLockWriteGuard for lock::RwLockWriteGuard {

}

impl<T> RwLock<T> for lock::RwLock<T> {
    type ReadGuard = lock::RwLockReadGuard;

    type WriteGuard = lock::RwLockWriteGuard;

    closed spec fn wf(&self) -> bool {
        lock::RwLock::wf(self)
    }

    closed spec fn reader_count(&self) -> u64 {
        lock::RwLock::reader_count(self)
    }

    closed spec fn writer_held(&self) -> bool {
        lock::RwLock::writer_held(self)
    }

    closed spec fn inner(&self) -> T {
        lock::RwLock::inner(self)
    }

    fn new(t: T) -> (l: Self) {
        lock::RwLock::new(t)
    }

    fn read(&mut self) -> (r: Suspend<lock::RwLockReadGuard>) {
        lock::RwLock::read(self)
    }

    fn try_read(&mut self) -> (r: Option<lock::RwLockReadGuard>) {
        lock::RwLock::try_read(self)
    }

    fn blocking_read(&mut self) -> (g: lock::RwLockReadGuard) {
        lock::RwLock::blocking_read(self)
    }

    fn write(&mut self) -> (r: Suspend<lock::RwLockWriteGuard>) {
        lock::RwLock::write(self)
    }

    fn try_write(&mut self) -> (r: Option<lock::RwLockWriteGuard>) {
        lock::RwLock::try_write(self)
    }

    fn blocking_write(&mut self) -> (g: lock::RwLockWriteGuard) {
        lock::RwLock::blocking_write(self)
    }

    fn read_unlock(&mut self, g: lock::RwLockReadGuard) {
        lock::RwLock::read_unlock(self, g)
    }

    fn write_unlock(&mut self, g: lock::RwLockWriteGuard) {
        lock::RwLock::write_unlock(self, g)
    }

    fn downgrade(&mut self, g: lock::RwLockWriteGuard) -> (r: lock::RwLockReadGuard) {
        lock::RwLock::downgrade(self, g)
    }

    fn get_mut(&mut self) -> (r: &mut T) {
        lock::RwLock::get_mut(self)
    }

    fn into_inner(self) -> (r: T) {
        lock::RwLock::into_inner(self)
    }
}

/// The result handed to every task a released barrier cycle wakes.
pub trait BarrierWaitResult {
    /// Whether the holder is the one leader of its cycle.
    spec fn leader(&self) -> bool;

    /// Returns `true` for exactly one task per barrier cycle.
    fn is_leader(&self) -> (r: bool)
        ensures
            r == self.leader(),
    ;
}

/// A counter synchronizing a fixed number of tasks: each `wait`
/// suspends its caller until the last expected arrival, which releases
/// them all at once; the barrier then resets for reuse.
pub trait Barrier: Sized {
    /// The engine's wait-result type.
    type WaitResult: BarrierWaitResult;

    /// Well-formedness of the barrier's arrival bookkeeping.
    spec fn wf(&self) -> bool;

    /// The number of tasks one cycle synchronizes.
    spec fn expected(&self) -> u64;

    /// How many tasks of the current cycle have arrived and are
    /// suspended.
    spec fn pending(&self) -> u64;

    /// Creates a barrier that synchronizes `n` tasks per cycle.
    fn new(n: u64) -> (b: Self)
        requires
            n >= 1,
        ensures
            b.wf(),
            b.expected() == n,
            b.pending() == 0,
    ;

    /// Arrives at the barrier: the first `n - 1` arrivals of a cycle
    /// suspend, the `n`th releases the whole cycle and is its one
    /// leader.
    fn wait(&mut self) -> (r: Suspend<Self::WaitResult>)
        requires
            old(self).wf(),
        ensures
            final(self).wf(),
            final(self).expected() == old(self).expected(),
            r is Ready <==> old(self).pending() + 1 == old(self).expected(),
            (r matches Suspend::Ready(w) ==> w.leader()),
            r is Ready ==> final(self).pending() == 0,
            r is Pending ==> final(self).pending() == old(self).pending() + 1,
    ;
}

impl BarrierWaitResult for lock::BarrierWaitResult {
    closed spec fn leader(&self) -> bool {
        lock::BarrierWaitResult::leader(self)
    }

    fn is_leader(&self) -> (r: bool) {
        lock::BarrierWaitResult::is_leader(self)
    }
}

impl Barrier for lock::Barrier {
    type WaitResult = lock::BarrierWaitResult;

    closed spec fn wf(&self) -> bool {
        lock::Barrier::wf(self)
    }

    closed spec fn expected(&self) -> u64 {
        lock::Barrier::expected(self)
    }

    closed spec fn pending(&self) -> u64 {
        lock::Barrier::pending(self)
    }

    fn new(n: u64) -> (b: Self) {
        lock::Barrier::new(n)
    }

    fn wait(&mut self) -> (r: Suspend<lock::BarrierWaitResult>) {
        match lock::Barrier::wait(self) {
            lock::BarrierWait::Released(w) => Suspend::Ready(w),
            lock::BarrierWait::Waiting(t) => {
                let ticket: lock::BarrierTicket = t;
                Suspend::Pending
            },
        }
    }
}

/// A permit issued by a semaphore: a capacity token released — or
/// permanently forgotten — through the semaphore that issued it.
pub trait SemaphorePermit {

}

/// A counter limiting how many concurrent operations may hold a permit
/// at once; permits in circulation never exceed the configured
/// capacity.
pub trait Semaphore: Sized {
    /// The engine's permit type.
    type Permit: SemaphorePermit;

    /// Well-formedness: free and issued permits partition the
    /// capacity.
    spec fn wf(&self) -> bool;

    /// Permits currently free to acquire.
    spec fn free_permits(&self) -> u64;

    /// Permits currently in circulation.
    spec fn issued_permits(&self) -> u64;

    /// The semaphore's configured capacity.
    spec fn capacity(&self) -> u64;

    /// Creates a semaphore with the given number of permits.
    fn new(permits: u64) -> (s: Self)
        ensures
            s.wf(),
            s.free_permits() == permits,
            s.issued_permits() == 0,
            s.capacity() == permits,
    ;

    /// Acquires a permit, suspending the caller while none is free.
    fn acquire(&mut self) -> (r: Suspend<Self::Permit>)
        requires
            old(self).wf(),
        ensures
            final(self).wf(),
            r is Ready <==> old(self).free_permits() > 0,
            r is Ready ==> final(self).free_permits() == old(self).free_permits() - 1 && final(self).issued_permits() == old(self).issued_permits() + 1,
            r is Pending ==> final(self).free_permits() == old(self).free_permits() && final(self).issued_permits() == old(self).issued_permits(),
            final(self).capacity() == old(self).capacity(),
    ;

    /// Attempts to acquire a permit without suspending.
    fn try_acquire(&mut self) -> (r: Option<Self::Permit>)
        requires
            old(self).wf(),
        ensures
            final(self).wf(),
            r is Some <==> old(self).free_permits() > 0,
            r is Some ==> final(self).free_permits() == old(self).free_permits() - 1 && final(self).issued_permits() == old(self).issued_permits() + 1,
            r is None ==> final(self).free_permits() == old(self).free_permits() && final(self).issued_permits() == old(self).issued_permits(),
            final(self).capacity() == old(self).capacity(),
    ;

    /// Adds `n` new permits: capacity only ever increases this way,
    /// never decreases directly.
    fn add_permits(&mut self, n: u64)
        requires
            old(self).wf(),
            old(self).capacity() + n <= u64::MAX,
        ensures
            final(self).wf(),
            final(self).free_permits() == old(self).free_permits() + n,
            final(self).issued_permits() == old(self).issued_permits(),
            final(self).capacity() == old(self).capacity() + n,
    ;

    /// Returns a permit, consuming it; one suspended acquisition can
    /// then proceed.
    fn release(&mut self, p: Self::Permit)
        requires
            old(self).wf(),
            old(self).issued_permits() > 0,
        ensures
            final(self).wf(),
            final(self).free_permits() == old(self).free_permits() + 1,
            final(self).issued_permits() == old(self).issued_permits() - 1,
            final(self).capacity() == old(self).capacity(),
    ;

    /// Drops a permit without releasing it: its capacity is
    /// permanently removed.
    fn forget(&mut self, p: Self::Permit)
        requires
            old(self).wf(),
            old(self).issued_permits() > 0,
        ensures
            final(self).wf(),
            final(self).free_permits() == old(self).free_permits(),
            final(self).issued_permits() == old(self).issued_permits() - 1,
            final(self).capacity() == old(self).capacity() - 1,
    ;
}

impl SemaphorePermit for lock::SemaphorePermit {

}

impl Semaphore for lock::Semaphore {
    type Permit = lock::SemaphorePermit;

    closed spec fn wf(&self) -> bool {
        lock::Semaphore::wf(self)
    }

    closed spec fn free_permits(&self) -> u64 {
        lock::Semaphore::free_permits(self)
    }

    closed spec fn issued_permits(&self) -> u64 {
        lock::Semaphore::issued_permits(self)
    }

    closed spec fn capacity(&self) -> u64 {
        lock::Semaphore::capacity(self)
    }

    fn new(permits: u64) -> (s: Self) {
        lock::Semaphore::new(permits)
    }

    fn acquire(&mut self) -> (r: Suspend<lock::SemaphorePermit>) {
        lock::Semaphore::acquire(self)
    }

    fn try_acquire(&mut self) -> (r: Option<lock::SemaphorePermit>) {
        lock::Semaphore::try_acquire(self)
    }

    fn add_permits(&mut self, n: u64) {
        lock::Semaphore::add_permits(self, n)
    }

    fn release(&mut self, p: lock::SemaphorePermit) {
        lock::Semaphore::release(self, p)
    }

    fn forget(&mut self, p: lock::SemaphorePermit) {
        lock::Semaphore::forget(self, p)
    }
}

/// Base sender behaviour for both bounded and unbounded channels.
pub trait Sender<T> {
    /// Whether no further receives are possible on the channel.
    spec fn channel_closed(&self) -> bool;

    /// Whether the channel is closed, as the sender observes it.
    fn is_closed(&self) -> (r: bool)
        ensures
            r == self.channel_closed(),
    ;
}

/// More extensive sender behaviour: completion on close, and identity
/// of sender clones.
pub trait SenderExt<T>: Sender<T> {
    /// Completes once the receiver has closed the channel; until then
    /// the caller suspends.
    fn closed(&self) -> (r: Suspend<()>)
        ensures
            r is Ready <==> self.channel_closed(),
    ;

    /// Whether the given sender sends to the same receiver as this
    /// one, for deduplicating sender clones.
    fn same_channel(&self, other: &Self) -> bool;
}

/// A sender to a channel with a maximum capacity: a send at capacity
/// is a suspend point, woken when the receiver consumes an element or
/// closes the channel — on the latter the un-sent value comes back.
pub trait BoundedSender<T>: Sender<T> {
    /// Well-formedness of the channel's bookkeeping.
    spec fn wf(&self) -> bool;

    /// The values in transit, oldest first.
    spec fn buffered(&self) -> Seq<T>;

    /// The values of sends suspended on a full buffer, oldest first.
    spec fn suspended_sends(&self) -> Seq<T>;

    /// Whether a send would be accepted right now without suspending.
    spec fn can_accept(&self) -> bool;

    /// Sends a value, suspending the caller while the buffer is full.
    fn send(&mut self, message: T) -> (r: Suspend<Result<(), mpsc::SendError<T>>>)
        requires
            old(self).wf(),
        ensures
            final(self).wf(),
            r is Pending <==> (!old(self).channel_closed() && !old(self).can_accept()),
            r is Pending ==> final(self).suspended_sends() == old(self).suspended_sends().push(
                message,
            ) && final(self).buffered() == old(self).buffered(),
            (r matches Suspend::Ready(q) ==> ((q is Ok) <==> !old(self).channel_closed())),
            ((r is Ready && r->Ready_0 is Ok) ==> final(self).buffered() == old(
                self).buffered().push(message) && final(self).suspended_sends() == old(
                self).suspended_sends()),
            ((r is Ready && r->Ready_0 is Err) ==> r->Ready_0->Err_0.value == message),
    ;

    /// Attempts to send without ever suspending, distinguishing a full
    /// buffer from a closed channel.
    fn try_send(&mut self, message: T) -> (r: Result<(), mpsc::TrySendError<T>>)
        requires
            old(self).wf(),
        ensures
            final(self).wf(),
            r is Ok <==> old(self).can_accept(),
            r is Ok ==> final(self).buffered() == old(self).buffered().push(message),
            (r matches Err(e) ==> e.value() == message),
            (r matches Err(e) ==> ((e is Closed) <==> old(self).channel_closed())),
    ;
}

/// A sender to a channel without a maximum capacity: sending never
/// suspends, so callers must never rely on backpressure.
pub trait UnboundedSender<T>: Sender<T> {
    /// Well-formedness of the channel's bookkeeping.
    spec fn wf(&self) -> bool;

    /// The values in transit, oldest first.
    spec fn buffered(&self) -> Seq<T>;

    /// Whether the channel has no capacity bound.
    spec fn unbounded(&self) -> bool;

    /// Sends a value; an open unbounded channel accepts every send.
    fn send(&mut self, message: T) -> (r: Result<(), mpsc::SendError<T>>)
        requires
            old(self).wf(),
            old(self).unbounded(),
        ensures
            final(self).wf(),
            final(self).unbounded(),
            r is Ok <==> !old(self).channel_closed(),
            r is Ok ==> final(self).buffered() == old(self).buffered().push(message),
            (r matches Err(e) ==> e.value == message),
    ;
}

/// Receiver behaviour for both bounded and unbounded channels: the
/// single consumer, which can drain, close, and observe end-of-stream.
pub trait Receiver<T> {
    /// Well-formedness of the channel's bookkeeping.
    spec fn wf(&self) -> bool;

    /// The values in transit, oldest first.
    spec fn buffered(&self) -> Seq<T>;

    /// The values of sends suspended on a full buffer, oldest first.
    spec fn suspended_sends(&self) -> Seq<T>;

    /// Whether no further value can ever arrive.
    spec fn recv_closed(&self) -> bool;

    /// Closes the channel: no further send is accepted while what is
    /// buffered drains; suspended sends fail with their values handed
    /// back, oldest first.
    fn close(&mut self) -> (returned: Vec<T>)
        requires
            old(self).wf(),
        ensures
            final(self).wf(),
            returned@ == old(self).suspended_sends(),
            final(self).suspended_sends().len() == 0,
            final(self).buffered() == old(self).buffered(),
            final(self).buffered().len() == 0 ==> final(self).recv_closed(),
    ;

    /// Tries to receive without ever suspending: a value if one is
    /// buffered — waking one suspended send into the freed slot — the
    /// empty result while more may come, and the closed error once no
    /// further value can ever arrive.
    fn try_recv(&mut self) -> (r: Result<Option<T>, mpsc::TryRecvError>)
        requires
            old(self).wf(),
        ensures
            final(self).wf(),
            (r is Ok && r->Ok_0 is Some) <==> old(self).buffered().len() > 0,
            ((r is Ok && r->Ok_0 is Some) ==> r->Ok_0->Some_0 == old(self).buffered()[0]),
            ((r is Ok && r->Ok_0 is Some && old(self).suspended_sends().len() == 0) ==> (final(
                self).buffered() == old(self).buffered().skip(1) && final(
                self).suspended_sends() == old(self).suspended_sends())),
            ((r is Ok && r->Ok_0 is Some && old(self).suspended_sends().len() > 0) ==> (final(
                self).buffered() == old(self).buffered().skip(1).push(old(
                self).suspended_sends()[0]) && final(self).suspended_sends() == old(
                self).suspended_sends().skip(1))),
            r is Err <==> old(self).recv_closed(),
    ;
}

impl<T> Sender<T> for mpsc::Channel<T> {
    closed spec fn channel_closed(&self) -> bool {
        mpsc::Channel::is_closed_spec(self)
    }

    fn is_closed(&self) -> (r: bool) {
        mpsc::Channel::is_closed(self)
    }
}

impl<T> SenderExt<T> for mpsc::Channel<T> {
    fn closed(&self) -> (r: Suspend<()>) {
        if mpsc::Channel::is_closed(self) {
            Suspend::Ready(())
        } else {
            Suspend::Pending
        }
    }

    /// In the sequential engine one state value is one channel, so any
    /// two senders reached through it share the receiver.
    fn same_channel(&self, other: &Self) -> bool {
        true
    }
}

impl<T> BoundedSender<T> for mpsc::Channel<T> {
    closed spec fn wf(&self) -> bool {
        mpsc::Channel::wf(self)
    }

    closed spec fn buffered(&self) -> Seq<T> {
        mpsc::Channel::buffered(self)
    }

    closed spec fn suspended_sends(&self) -> Seq<T> {
        mpsc::Channel::suspended_sends(self)
    }

    closed spec fn can_accept(&self) -> bool {
        mpsc::Channel::can_accept(self)
    }

    fn send(&mut self, message: T) -> (r: Suspend<Result<(), mpsc::SendError<T>>>) {
        mpsc::Channel::send(self, message)
    }

    fn try_send(&mut self, message: T) -> (r: Result<(), mpsc::TrySendError<T>>) {
        mpsc::Channel::try_send(self, message)
    }
}

impl<T> UnboundedSender<T> for mpsc::Channel<T> {
    closed spec fn wf(&self) -> bool {
        mpsc::Channel::wf(self)
    }

    closed spec fn buffered(&self) -> Seq<T> {
        mpsc::Channel::buffered(self)
    }

    closed spec fn unbounded(&self) -> bool {
        mpsc::Channel::capacity(self) is None
    }

    fn send(&mut self, message: T) -> (r: Result<(), mpsc::SendError<T>>) {
        mpsc::Channel::unbounded_send(self, message)
    }
}

impl<T> Receiver<T> for mpsc::Channel<T> {
    closed spec fn wf(&self) -> bool {
        mpsc::Channel::wf(self)
    }

    closed spec fn buffered(&self) -> Seq<T> {
        mpsc::Channel::buffered(self)
    }

    closed spec fn suspended_sends(&self) -> Seq<T> {
        mpsc::Channel::suspended_sends(self)
    }

    closed spec fn recv_closed(&self) -> bool {
        mpsc::Channel::recv_closed(self)
    }

    fn close(&mut self) -> (returned: Vec<T>) {
        mpsc::Channel::close(self)
    }

    fn try_recv(&mut self) -> (r: Result<Option<T>, mpsc::TryRecvError>) {
        mpsc::Channel::try_recv(self)
    }
}

/// A caller-owned reference to a spawned task: dropping it cancels the
/// task, detaching forfeits await and cancel and lets the task run on.
pub trait Handle: Sized {
    /// Which task the handle controls.
    spec fn task_id(&self) -> usize;

    /// Which task the handle controls.
    fn id(&self) -> (r: usize)
        ensures
            r == self.task_id(),
    ;

    /// Drops the handle without cancelling its task: a one-way
    /// conversion to a fire-and-forget task.
    fn detach(self);
}

/// An executor of spawned tasks yielding results of type `T`: spawning
/// returns a handle immediately, and running a task to completion on
/// the calling thread yields exactly its result.
pub trait Executor<T>: Sized {
    /// The engine's task handle type.
    type Handle: Handle;

    /// Well-formedness of the executor's task bookkeeping.
    spec fn wf(&self) -> bool;

    /// How many tasks have been spawned over the executor's lifetime.
    spec fn task_count(&self) -> int;

    /// How many effects the executor's tasks have performed so far.
    spec fn performed_count(&self) -> int;

    /// Creates an executor with no tasks.
    fn new() -> (ex: Self)
        ensures
            ex.wf(),
            ex.task_count() == 0,
            ex.performed_count() == 0,
    ;

    /// Spawns a task for independent progress, returning its handle
    /// immediately, without suspending the caller: no work is
    /// performed yet.
    fn spawn(&mut self, effects: Vec<u64>, result: T) -> (h: Self::Handle)
        requires
            old(self).wf(),
        ensures
            final(self).wf(),
            final(self).task_count() == old(self).task_count() + 1,
            h.task_id() == old(self).task_count(),
            final(self).performed_count() == old(self).performed_count(),
    ;

    /// Runs a whole task to completion on the calling thread and
    /// returns its result; every one of its effects is performed.
    fn block_on(&mut self, effects: Vec<u64>, result: T) -> (r: T)
        requires
            old(self).wf(),
        ensures
            final(self).wf(),
            r == result,
            final(self).task_count() == old(self).task_count() + 1,
            final(self).performed_count() == old(self).performed_count() + effects@.len(),
    ;
}

impl Handle for executor::Handle {
    closed spec fn task_id(&self) -> usize {
        executor::Handle::task_id(self)
    }

    fn id(&self) -> (r: usize) {
        executor::Handle::id(self)
    }

    fn detach(self) {
        executor::Handle::detach(self)
    }
}

impl<T> Executor<T> for executor::Executor<T> {
    type Handle = executor::Handle;

    closed spec fn wf(&self) -> bool {
        executor::Executor::wf(self)
    }

    closed spec fn task_count(&self) -> int {
        executor::Executor::task_count(self)
    }

    closed spec fn performed_count(&self) -> int {
        executor::Executor::performed(self).len() as int
    }

    fn new() -> (ex: Self) {
        executor::Executor::new()
    }

    fn spawn(&mut self, effects: Vec<u64>, result: T) -> (h: executor::Handle) {
        executor::Executor::spawn(self, effects, result)
    }

    fn block_on(&mut self, effects: Vec<u64>, result: T) -> (r: T) {
        executor::Executor::block_on(self, effects, result)
    }
}

} // verus!
