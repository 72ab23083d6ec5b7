//! A block-triggered batch transfer dispatcher.
//!
//! The library keeps the decision logic of the dispatcher: validating the
//! configured batch of transfers, classifying feed notifications, preparing
//! and signing one transaction per configured (sender, receiver, amount)
//! triple, and collecting per-transfer outcomes with failure isolation.
//! Network transports (the streaming feed and the RPC submission channel)
//! live outside the library and drive it with plain values.

pub mod batch;
pub mod chain;
pub mod executor;
pub mod listener;
