//! Verified core of a payment-channel node launcher: command-line settings,
//! configuration paths, peer seed addresses and the decision logic that
//! drives node setup and channel-idle waiting.

pub mod args;
pub mod channel_setup;
pub mod idle_wait;
pub mod peer;
pub mod swarm;
