//! Asynchronous synchronization primitives: the lock capability.
//!
//! Each primitive here is a state machine over plain data whose contracts
//! pin down the observable behaviour every conforming engine must provide.
//! Suspension is explicit: an operation that a real engine would park the
//! caller on returns [`Suspend::Pending`] instead of a result, and the
//! caller retries once the wake condition holds.
//!
//! Guards are move-only tokens: acquiring produces one, releasing consumes
//! it, so a release on every exit path is the caller handing the token
//! back exactly once.

use vstd::prelude::*;
use crate::Suspend;

verus! {

/// A guard token witnessing a held [`Mutex`]. Acquiring mints one;
/// releasing consumes it. It is neither `Clone` nor `Copy`, so it cannot
/// be duplicated.
pub struct MutexGuard {
    seal: (),
}

/// An asynchronous mutual-exclusion lock over a value of type `T`.
///
/// At most one guard is out at a time; while one is out the lock is
/// locked and every further acquisition attempt yields nothing.
pub struct Mutex<T> {
    locked: bool,
    value: T,
}

impl<T> Mutex<T> {
    /// Whether a guard is currently out.
    pub closed spec fn is_locked(&self) -> bool {
        self.locked
    }

    /// The value the lock protects.
    pub closed spec fn inner(&self) -> T {
        self.value
    }

    /// Whether the next acquisition attempt succeeds.
    pub open spec fn lock_available(&self) -> bool {
        !self.is_locked()
    }

    /// Creates a new lock in an unlocked state ready for use.
    pub fn new(t: T) -> (m: Mutex<T>)
        ensures
            !m.is_locked(),
            m.inner() == t,
    {
        Mutex { locked: false, value: t }
    }

    /// Acquires the lock, suspending the caller while it is held elsewhere.
    pub fn lock(&mut self) -> (r: Suspend<MutexGuard>)
        ensures
            r is Ready <==> old(self).lock_available(),
            r is Ready ==> final(self).is_locked(),
            r is Pending ==> *final(self) == *old(self),
            final(self).inner() == old(self).inner(),
    {
        if self.locked {
            Suspend::Pending
        } else {
            self.locked = true;
            Suspend::Ready(MutexGuard { seal: () })
        }
    }

    /// Attempts to acquire without ever suspending; yields nothing on
    /// contention.
    pub fn try_lock(&mut self) -> (r: Option<MutexGuard>)
        ensures
            r is Some <==> old(self).lock_available(),
            r is Some ==> final(self).is_locked(),
            r is None ==> *final(self) == *old(self),
            final(self).inner() == old(self).inner(),
    {
        if self.locked {
            None
        } else {
            self.locked = true;
            Some(MutexGuard { seal: () })
        }
    }

    /// Acquires the lock, blocking the whole thread rather than suspending
    /// the task. On a cooperative engine a contended call can never be
    /// woken — that misuse is fatal by construction, so a caller must
    /// already know the lock is free.
    pub fn blocking_lock(&mut self) -> (g: MutexGuard)
        requires
            old(self).lock_available(),
        ensures
            final(self).is_locked(),
            final(self).inner() == old(self).inner(),
    {
        self.locked = true;
        MutexGuard { seal: () }
    }

    /// Releases the lock, consuming the guard; the next acquisition is
    /// then owed success.
    pub fn unlock(&mut self, g: MutexGuard)
        requires
            old(self).is_locked(),
        ensures
            final(self).lock_available(),
            final(self).inner() == old(self).inner(),
    {
        self.locked = false;
    }

    /// Reads the protected value through a held guard.
    pub fn borrow_locked(&self, g: &MutexGuard) -> (r: &T)
        requires
            self.is_locked(),
        ensures
            *r == self.inner(),
    {
        &self.value
    }

    /// Writes the protected value through a held guard.
    pub fn set_locked(&mut self, g: &MutexGuard, t: T)
        requires
            old(self).is_locked(),
        ensures
            final(self).is_locked(),
            final(self).inner() == t,
    {
        self.value = t;
    }

    /// Returns a mutable reference to the underlying data. No guard may be
    /// out: exclusive access to the lock itself stands in for locking.
    pub fn get_mut(&mut self) -> (r: &mut T)
        requires
            !old(self).is_locked(),
        ensures
            *r == old(self).inner(),
            !final(self).is_locked(),
            final(self).inner() == *final(r),
    {
        &mut self.value
    }

    /// Consumes the lock, returning the underlying data.
    pub fn into_inner(self) -> (r: T)
        requires
            !self.is_locked(),
        ensures
            r == self.inner(),
    {
        self.value
    }
}

/// Law: a mutex admits at most one live guard — acquisition is available
/// exactly while no guard is out — so releasing the last (only) guard,
/// which `unlock` ensures leaves the lock available, always permits the
/// next acquisition to succeed.
pub proof fn lemma_mutex_exclusion<T>(m: Mutex<T>)
    ensures
        m.lock_available() <==> !m.is_locked(),
        m.is_locked() ==> !m.lock_available(),
{
}

/// A guard token witnessing shared read access to an [`RwLock`].
pub struct RwLockReadGuard {
    seal: (),
}

/// A guard token witnessing exclusive write access to an [`RwLock`].
pub struct RwLockWriteGuard {
    seal: (),
}

/// An asynchronous reader-writer lock: any number of concurrent readers,
/// or one writer, never both.
pub struct RwLock<T> {
    readers: u64,
    writer: bool,
    value: T,
}

impl<T> RwLock<T> {
    /// Well-formedness: a writer excludes all readers.
    pub closed spec fn wf(&self) -> bool {
        self.writer ==> self.readers == 0
    }

    /// How many read guards are out.
    pub closed spec fn reader_count(&self) -> u64 {
        self.readers
    }

    /// Whether the write guard is out.
    pub closed spec fn writer_held(&self) -> bool {
        self.writer
    }

    /// The value the lock protects.
    pub closed spec fn inner(&self) -> T {
        self.value
    }

    /// Whether the next read acquisition succeeds.
    pub open spec fn read_available(&self) -> bool {
        !self.writer_held() && self.reader_count() < u64::MAX
    }

    /// Whether the next write acquisition succeeds.
    pub open spec fn write_available(&self) -> bool {
        !self.writer_held() && self.reader_count() == 0
    }

    /// Creates a new lock in an unlocked state ready for use.
    pub fn new(t: T) -> (l: RwLock<T>)
        ensures
            l.wf(),
            l.reader_count() == 0,
            !l.writer_held(),
            l.inner() == t,
    {
        RwLock { readers: 0, writer: false, value: t }
    }

    /// Acquires shared read access, suspending while a writer holds the
    /// lock.
    pub fn read(&mut self) -> (r: Suspend<RwLockReadGuard>)
        requires
            old(self).wf(),
        ensures
            final(self).wf(),
            r is Ready <==> old(self).read_available(),
            r is Ready ==> final(self).reader_count() == old(self).reader_count() + 1,
            r is Pending ==> *final(self) == *old(self),
            final(self).writer_held() == old(self).writer_held(),
            final(self).inner() == old(self).inner(),
    {
        if self.writer || self.readers == u64::MAX {
            Suspend::Pending
        } else {
            self.readers = self.readers + 1;
            Suspend::Ready(RwLockReadGuard { seal: () })
        }
    }

    /// Attempts shared read access without suspending.
    pub fn try_read(&mut self) -> (r: Option<RwLockReadGuard>)
        requires
            old(self).wf(),
        ensures
            final(self).wf(),
            r is Some <==> old(self).read_available(),
            r is Some ==> final(self).reader_count() == old(self).reader_count() + 1,
            r is None ==> *final(self) == *old(self),
            final(self).writer_held() == old(self).writer_held(),
            final(self).inner() == old(self).inner(),
    {
        if self.writer || self.readers == u64::MAX {
            None
        } else {
            self.readers = self.readers + 1;
            Some(RwLockReadGuard { seal: () })
        }
    }

    /// Acquires read access, blocking the whole thread. As with
    /// [`Mutex::blocking_lock`], a contended call on a cooperative engine
    /// is fatal by construction, so the lock must be free of writers.
    pub fn blocking_read(&mut self) -> (g: RwLockReadGuard)
        requires
            old(self).wf(),
            old(self).read_available(),
        ensures
            final(self).wf(),
            final(self).reader_count() == old(self).reader_count() + 1,
            !final(self).writer_held(),
            final(self).inner() == old(self).inner(),
    {
        self.readers = self.readers + 1;
        RwLockReadGuard { seal: () }
    }

    /// Acquires exclusive write access, suspending while any guard is out.
    pub fn write(&mut self) -> (r: Suspend<RwLockWriteGuard>)
        requires
            old(self).wf(),
        ensures
            final(self).wf(),
            r is Ready <==> old(self).write_available(),
            r is Ready ==> final(self).writer_held() && final(self).reader_count() == 0,
            r is Pending ==> *final(self) == *old(self),
            final(self).inner() == old(self).inner(),
    {
        if self.writer || self.readers > 0 {
            Suspend::Pending
        } else {
            self.writer = true;
            Suspend::Ready(RwLockWriteGuard { seal: () })
        }
    }

    /// Attempts exclusive write access without suspending.
    pub fn try_write(&mut self) -> (r: Option<RwLockWriteGuard>)
        requires
            old(self).wf(),
        ensures
            final(self).wf(),
            r is Some <==> old(self).write_available(),
            r is Some ==> final(self).writer_held() && final(self).reader_count() == 0,
            r is None ==> *final(self) == *old(self),
            final(self).inner() == old(self).inner(),
    {
        if self.writer || self.readers > 0 {
            None
        } else {
            self.writer = true;
            Some(RwLockWriteGuard { seal: () })
        }
    }

    /// Acquires write access, blocking the whole thread; the lock must be
    /// entirely free, for the same reason as [`RwLock::blocking_read`].
    pub fn blocking_write(&mut self) -> (g: RwLockWriteGuard)
        requires
            old(self).wf(),
            old(self).write_available(),
        ensures
            final(self).wf(),
            final(self).writer_held(),
            final(self).reader_count() == 0,
            final(self).inner() == old(self).inner(),
    {
        self.writer = true;
        RwLockWriteGuard { seal: () }
    }

    /// Releases one read guard.
    pub fn read_unlock(&mut self, g: RwLockReadGuard)
        requires
            old(self).wf(),
            old(self).reader_count() > 0,
        ensures
            final(self).wf(),
            final(self).reader_count() == old(self).reader_count() - 1,
            final(self).writer_held() == old(self).writer_held(),
            final(self).inner() == old(self).inner(),
    {
        self.readers = self.readers - 1;
    }

    /// Releases the write guard; the lock is then owed to the next
    /// acquisition of either kind.
    pub fn write_unlock(&mut self, g: RwLockWriteGuard)
        requires
            old(self).wf(),
            old(self).writer_held(),
        ensures
            final(self).wf(),
            !final(self).writer_held(),
            final(self).reader_count() == 0,
            final(self).write_available(),
            final(self).inner() == old(self).inner(),
    {
        self.writer = false;
    }

    /// Converts a held write guard into a read guard in one atomic
    /// transition: there is no intervening state in which the lock is
    /// fully unlocked, so no other writer can interleave.
    pub fn downgrade(&mut self, g: RwLockWriteGuard) -> (r: RwLockReadGuard)
        requires
            old(self).wf(),
            old(self).writer_held(),
        ensures
            final(self).wf(),
            !final(self).writer_held(),
            final(self).reader_count() == 1,
            final(self).inner() == old(self).inner(),
    {
        self.writer = false;
        self.readers = 1;
        RwLockReadGuard { seal: () }
    }

    /// Reads the protected value through a held read guard.
    pub fn borrow_read(&self, g: &RwLockReadGuard) -> (r: &T)
        requires
            self.reader_count() > 0,
        ensures
            *r == self.inner(),
    {
        &self.value
    }

    /// Reads the protected value through the held write guard.
    pub fn borrow_write(&self, g: &RwLockWriteGuard) -> (r: &T)
        requires
            self.writer_held(),
        ensures
            *r == self.inner(),
    {
        &self.value
    }

    /// Writes the protected value through the held write guard.
    pub fn set_write(&mut self, g: &RwLockWriteGuard, t: T)
        requires
            old(self).wf(),
            old(self).writer_held(),
        ensures
            final(self).wf(),
            final(self).writer_held(),
            final(self).reader_count() == old(self).reader_count(),
            final(self).inner() == t,
    {
        self.value = t;
    }

    /// Returns a mutable reference to the underlying data. No guard may be
    /// out: exclusive access to the lock itself stands in for locking.
    pub fn get_mut(&mut self) -> (r: &mut T)
        requires
            old(self).wf(),
            old(self).write_available(),
        ensures
            *r == old(self).inner(),
            final(self).wf(),
            final(self).write_available(),
            final(self).inner() == *final(r),
    {
        &mut self.value
    }

    /// Consumes the lock, returning the underlying data.
    pub fn into_inner(self) -> (r: T)
        requires
            self.write_available(),
        ensures
            r == self.inner(),
    {
        self.value
    }
}

/// Law: a live write guard excludes all other guards, and guards of the
/// two kinds never coexist; any number of readers is permitted while no
/// writer holds the lock.
pub proof fn lemma_rwlock_exclusion<T>(l: RwLock<T>)
    requires
        l.wf(),
    ensures
        l.writer_held() ==> l.reader_count() == 0,
        l.writer_held() ==> !l.read_available() && !l.write_available(),
        l.reader_count() > 0 ==> !l.write_available(),
{
}

/// Returned by [`Barrier::wait`] when all tasks have rendezvoused.
pub struct BarrierWaitResult {
    leader: bool,
}

impl BarrierWaitResult {
    /// Whether this result designates its task the leader of the cycle.
    pub closed spec fn leader(&self) -> bool {
        self.leader
    }

    /// Returns `true` for exactly one task per barrier cycle.
    pub fn is_leader(&self) -> (r: bool)
        ensures
            r == self.leader(),
    {
        self.leader
    }
}

/// A claim held by a task that arrived early at a [`Barrier`] and was
/// suspended; it is redeemed for a (non-leader) wait result once the
/// cycle it belongs to has been released.
pub struct BarrierTicket {
    generation: u64,
}

impl BarrierTicket {
    /// The barrier cycle this ticket belongs to.
    pub closed spec fn cycle(&self) -> u64 {
        self.generation
    }
}

/// The outcome of one [`Barrier::wait`] call.
pub enum BarrierWait {
    /// The caller suspends until the cycle is released.
    Waiting(BarrierTicket),
    /// The caller's arrival released the whole cycle.
    Released(BarrierWaitResult),
}

/// A counter that synchronizes a fixed number of tasks: each `wait`
/// suspends its caller until the `n`th arrives, at which point all `n`
/// are released at once and the barrier resets for reuse.
pub struct Barrier {
    n: u64,
    arrived: u64,
    generation: u64,
}

impl Barrier {
    /// Well-formedness: fewer arrivals than the threshold are pending.
    pub closed spec fn wf(&self) -> bool {
        self.n >= 1 && self.arrived < self.n
    }

    /// The number of tasks one cycle synchronizes.
    pub closed spec fn expected(&self) -> u64 {
        self.n
    }

    /// How many tasks of the current cycle have arrived and are suspended.
    pub closed spec fn pending(&self) -> u64 {
        self.arrived
    }

    /// How many cycles have been released so far.
    pub closed spec fn cycle(&self) -> u64 {
        self.generation
    }

    /// Creates a barrier that synchronizes `n` tasks per cycle.
    pub fn new(n: u64) -> (b: Barrier)
        requires
            n >= 1,
        ensures
            b.wf(),
            b.expected() == n,
            b.pending() == 0,
            b.cycle() == 0,
    {
        Barrier { n, arrived: 0, generation: 0 }
    }

    /// Arrives at the barrier. The first `n - 1` arrivals of a cycle
    /// suspend with a ticket; the `n`th releases the cycle and is its
    /// one leader. The cycle count saturates at the end of its range,
    /// after which tickets of the saturated cycle stay suspended.
    pub fn wait(&mut self) -> (r: BarrierWait)
        requires
            old(self).wf(),
        ensures
            final(self).wf(),
            final(self).expected() == old(self).expected(),
            (r matches BarrierWait::Released(w)) <==> old(self).pending() + 1
                == old(self).expected(),
            (r matches BarrierWait::Released(w) ==> w.leader()),
            (r matches BarrierWait::Released(w) ==> final(self).pending() == 0),
            (r matches BarrierWait::Released(w) && old(self).cycle() < u64::MAX ==> final(self).cycle() == old(self).cycle() + 1),
            (r matches BarrierWait::Waiting(t) ==> t.cycle() == old(self).cycle()
                && final(self).pending() == old(self).pending() + 1
                && final(self).cycle() == old(self).cycle()),
    {
        if self.arrived + 1 == self.n {
            self.arrived = 0;
            if self.generation < u64::MAX {
                self.generation = self.generation + 1;
            }
            BarrierWait::Released(BarrierWaitResult { leader: true })
        } else {
            self.arrived = self.arrived + 1;
            BarrierWait::Waiting(BarrierTicket { generation: self.generation })
        }
    }

    /// Redeems the ticket of a suspended arrival: once the cycle it
    /// belongs to has been released, the task wakes with a non-leader
    /// result; until then it stays suspended.
    pub fn redeem(&self, t: &BarrierTicket) -> (r: Option<BarrierWaitResult>)
        ensures
            r is Some <==> t.cycle() < self.cycle(),
            (r matches Some(w) ==> !w.leader()),
    {
        if t.generation < self.generation {
            Some(BarrierWaitResult { leader: false })
        } else {
            None
        }
    }
}

/// A permit token issued by a [`Semaphore`]; releasing consumes it,
/// returning the capacity, and forgetting consumes it while removing the
/// capacity for good.
pub struct SemaphorePermit {
    seal: (),
}

/// A counter limiting how many concurrent operations may hold a permit
/// at once.
pub struct Semaphore {
    available: u64,
    outstanding: u64,
    total: u64,
}

impl Semaphore {
    /// Well-formedness: free and issued permits partition the capacity.
    pub closed spec fn wf(&self) -> bool {
        self.available + self.outstanding == self.total
    }

    /// Permits currently free to acquire.
    pub closed spec fn free_permits(&self) -> u64 {
        self.available
    }

    /// Permits currently in circulation.
    pub closed spec fn issued_permits(&self) -> u64 {
        self.outstanding
    }

    /// The semaphore's configured capacity.
    pub closed spec fn capacity(&self) -> u64 {
        self.total
    }

    /// Creates a semaphore with the given number of permits.
    pub fn new(permits: u64) -> (s: Semaphore)
        ensures
            s.wf(),
            s.free_permits() == permits,
            s.issued_permits() == 0,
            s.capacity() == permits,
    {
        Semaphore { available: permits, outstanding: 0, total: permits }
    }

    /// The number of permits a non-suspending acquisition could take now.
    pub fn available_permits(&self) -> (r: u64)
        ensures
            r == self.free_permits(),
    {
        self.available
    }

    /// Acquires a permit, suspending the caller while none is free.
    pub fn acquire(&mut self) -> (r: Suspend<SemaphorePermit>)
        requires
            old(self).wf(),
        ensures
            final(self).wf(),
            r is Ready <==> old(self).free_permits() > 0,
            r is Ready ==> final(self).free_permits() == old(self).free_permits() - 1
                && final(self).issued_permits() == old(self).issued_permits() + 1,
            r is Pending ==> *final(self) == *old(self),
            final(self).capacity() == old(self).capacity(),
    {
        if self.available > 0 {
            self.available = self.available - 1;
            self.outstanding = self.outstanding + 1;
            Suspend::Ready(SemaphorePermit { seal: () })
        } else {
            Suspend::Pending
        }
    }

    /// Attempts to acquire a permit without suspending.
    pub fn try_acquire(&mut self) -> (r: Option<SemaphorePermit>)
        requires
            old(self).wf(),
        ensures
            final(self).wf(),
            r is Some <==> old(self).free_permits() > 0,
            r is Some ==> final(self).free_permits() == old(self).free_permits() - 1
                && final(self).issued_permits() == old(self).issued_permits() + 1,
            r is None ==> *final(self) == *old(self),
            final(self).capacity() == old(self).capacity(),
    {
        if self.available > 0 {
            self.available = self.available - 1;
            self.outstanding = self.outstanding + 1;
            Some(SemaphorePermit { seal: () })
        } else {
            None
        }
    }

    /// Adds `n` new permits. Capacity only ever increases this way;
    /// decrease happens only through forgotten permits.
    pub fn add_permits(&mut self, n: u64)
        requires
            old(self).wf(),
            old(self).capacity() + n <= u64::MAX,
        ensures
            final(self).wf(),
            final(self).free_permits() == old(self).free_permits() + n,
            final(self).issued_permits() == old(self).issued_permits(),
            final(self).capacity() == old(self).capacity() + n,
    {
        self.available = self.available + n;
        self.total = self.total + n;
    }

    /// Returns a permit to the semaphore, consuming it; one suspended
    /// acquisition can then proceed.
    pub fn release(&mut self, p: SemaphorePermit)
        requires
            old(self).wf(),
            old(self).issued_permits() > 0,
        ensures
            final(self).wf(),
            final(self).free_permits() == old(self).free_permits() + 1,
            final(self).issued_permits() == old(self).issued_permits() - 1,
            final(self).capacity() == old(self).capacity(),
    {
        self.available = self.available + 1;
        self.outstanding = self.outstanding - 1;
    }

    /// Drops a permit without releasing it: the capacity it carried is
    /// permanently removed from the semaphore.
    pub fn forget(&mut self, p: SemaphorePermit)
        requires
            old(self).wf(),
            old(self).issued_permits() > 0,
        ensures
            final(self).wf(),
            final(self).free_permits() == old(self).free_permits(),
            final(self).issued_permits() == old(self).issued_permits() - 1,
            final(self).capacity() == old(self).capacity() - 1,
    {
        self.outstanding = self.outstanding - 1;
        self.total = self.total - 1;
    }
}

/// A runtime with a mutual-exclusion lock: the composition contract
/// binding an engine's concrete lock type.
pub trait RuntimeLock<T> {
    /// The engine's mutual-exclusion lock over a value of type `T`.
    type Mutex;
}

/// A runtime with the full set of locks.
pub trait RuntimeLockExt<T>: RuntimeLock<T> {
    /// The engine's reader-writer lock over a value of type `T`.
    type RwLock;

    /// The engine's barrier.
    type Barrier;

    /// The engine's semaphore.
    type Semaphore;
}

/// Law: permits in circulation never exceed the semaphore's configured
/// capacity, and acquisition is owed success exactly while a permit is
/// free.
pub proof fn lemma_semaphore_capacity(s: Semaphore)
    requires
        s.wf(),
    ensures
        s.issued_permits() <= s.capacity(),
        s.free_permits() == s.capacity() - s.issued_permits(),
{
}

} // verus!
