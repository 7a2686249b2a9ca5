//! Channels for sending values between asynchronous tasks.

pub mod engine;
pub mod mpsc;
pub mod oneshot;
