//! Timer capability: sleeping and periodic ticks.
//!
//! Instants are modelled as a monotone tick count. A sleep suspends its
//! caller and resolves with the actual wake instant, which may lag the
//! requested one under scheduler load: callers must not assume exact
//! timing, only that the wake comes no earlier than asked. An interval
//! is an unbounded lazy sequence of wake instants; the coalescing
//! policy here, stated so callers can rely on it, is *delay*: a
//! consumer that falls behind observes its missed ticks dropped, and
//! the next tick comes one whole period after the poll that caught up.

use vstd::prelude::*;
use crate::Suspend;

verus! {

/// The instant a sleep started now must resolve no earlier than:
/// the requested duration past the present instant, saturating at the
/// end of representable time.
pub fn wake_at(now: u64, duration: u64) -> (deadline: u64)
    ensures
        now + duration <= u64::MAX ==> deadline == now + duration,
        now + duration > u64::MAX ==> deadline == u64::MAX,
        deadline >= now,
{
    if duration <= u64::MAX - now {
        now + duration
    } else {
        u64::MAX
    }
}

/// Whether a sleep with this deadline has resolved by the given
/// instant: a sleep never wakes early, while any later instant is a
/// valid actual wake time.
pub fn sleep_elapsed(deadline: u64, now: u64) -> (r: bool)
    ensures
        r == (now >= deadline),
{
    now >= deadline
}

/// A periodic stream of wake instants, spaced by a fixed duration and
/// restartable only at construction, never mid-stream.
pub struct Interval {
    period: u64,
    next: u64,
}

impl Interval {
    /// The duration between ticks.
    pub closed spec fn period(&self) -> u64 {
        self.period
    }

    /// The instant the next tick is due.
    pub closed spec fn next_tick(&self) -> u64 {
        self.next
    }

    /// Creates an interval whose first tick is due one period from
    /// now.
    pub fn interval(now: u64, period: u64) -> (iv: Interval)
        requires
            period >= 1,
            now + period <= u64::MAX,
        ensures
            iv.period() == period,
            iv.next_tick() == now + period,
    {
        Interval { period, next: now + period }
    }

    /// Creates an interval whose first tick is due at the given start
    /// instant.
    pub fn interval_at(start: u64, period: u64) -> (iv: Interval)
        requires
            period >= 1,
        ensures
            iv.period() == period,
            iv.next_tick() == start,
    {
        Interval { period, next: start }
    }

    /// Polls for the next tick: the due instant once it has passed,
    /// else the caller suspends until it does. After a tick the next
    /// one is due a full period after this poll — missed ticks are
    /// dropped, not queued, so a consumer that falls behind observes
    /// coalesced ticks.
    pub fn poll_tick(&mut self, now: u64) -> (r: Suspend<u64>)
        requires
            old(self).period() >= 1,
        ensures
            final(self).period() == old(self).period(),
            r is Ready <==> now >= old(self).next_tick(),
            (r matches Suspend::Ready(t) ==> t == old(self).next_tick()),
            r is Ready ==> final(self).next_tick() >= now,
            (r is Ready && now < u64::MAX) ==> final(self).next_tick() > now,
            r is Pending ==> *final(self) == *old(self),
    {
        if now >= self.next {
            let due: u64 = self.next;
            self.next = wake_at(now, self.period);
            Suspend::Ready(due)
        } else {
            Suspend::Pending
        }
    }
}

/// Law: before the end of representable time, ticks are strictly
/// monotone — the tick a poll yields is strictly earlier than the
/// instant the following tick is due — so no instant is ever reported
/// twice.
pub proof fn lemma_interval_monotone(due: u64, now: u64, period: u64)
    requires
        period >= 1,
        now >= due,
        now < u64::MAX,
    ensures
        (if now + period <= u64::MAX {
            now + period
        } else {
            u64::MAX as int
        }) > due,
{
}

} // verus!
