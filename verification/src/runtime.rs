//! Composition of capabilities into one runtime selector.
//!
//! A runtime is a zero-sized selector type that names the concrete type
//! family used for each capability it supports. Capabilities are
//! independent: a caller generic over a runtime with locks and channels
//! never needs to know about the rest. The choice of selector is made
//! once, at build time; the engine behind it never changes at run time.
//!
//! [`Sequential`] is this crate's own engine: the single-threaded
//! cooperative state machines whose contracts are proved here. Other
//! engines bind their own types to the same contracts.

use vstd::prelude::*;
use crate::channel::mpsc;
use crate::channel::oneshot;
use crate::executor;
use crate::lock;

pub use crate::channel::mpsc::RuntimeMpsc;
pub use crate::executor::RuntimeExecutor;
pub use crate::lock::RuntimeLock;
pub use crate::lock::RuntimeLockExt;

verus! {

/// A runtime with both flavours of multi-producer, single-consumer
/// channel.
pub trait RuntimeChannels<T> {
    /// The sending half of a bounded channel.
    type BoundedSender;

    /// The receiving half of a bounded channel.
    type BoundedReceiver;

    /// The sending half of an unbounded channel.
    type UnboundedSender;

    /// The receiving half of an unbounded channel.
    type UnboundedReceiver;
}

/// A runtime with oneshot channels as well.
pub trait RuntimeChannelsExt<T>: RuntimeChannels<T> {
    /// The sending half of a oneshot channel.
    type OneshotSender;

    /// The receiving half of a oneshot channel.
    type OneshotReceiver;
}

/// The selector for this crate's own engine: single-threaded
/// cooperative state machines with proved contracts. In the sequential
/// engine a channel's handles share one state value, so the sender
/// side is a counted token and the receiver side owns the state.
pub struct Sequential;

impl<T> RuntimeLock<T> for Sequential {
    type Mutex = lock::Mutex<T>;
}

impl<T> RuntimeLockExt<T> for Sequential {
    type RwLock = lock::RwLock<T>;

    type Barrier = lock::Barrier;

    type Semaphore = lock::Semaphore;
}

impl<T> RuntimeChannels<T> for Sequential {
    type BoundedSender = mpsc::Sender;

    type BoundedReceiver = mpsc::Channel<T>;

    type UnboundedSender = mpsc::Sender;

    type UnboundedReceiver = mpsc::Channel<T>;
}

impl<T> RuntimeChannelsExt<T> for Sequential {
    type OneshotSender = oneshot::Sender;

    type OneshotReceiver = oneshot::Receiver<T>;
}

impl<T> RuntimeMpsc<T> for Sequential {
    type BoundedSender = mpsc::Sender;

    type BoundedReceiver = mpsc::Channel<T>;

    type UnboundedSender = mpsc::Sender;

    type UnboundedReceiver = mpsc::Channel<T>;

    fn bounded_channel(buffer: usize) -> (r: (mpsc::Sender, mpsc::Channel<T>)) {
        mpsc::Channel::bounded(buffer)
    }

    fn unbounded_channel() -> (r: (mpsc::Sender, mpsc::Channel<T>)) {
        mpsc::Channel::unbounded()
    }
}

impl<T> RuntimeExecutor<T> for Sequential {
    type Executor = executor::Executor<T>;
}

} // verus!
