//! Event-multiplexing and suspend-scheduling engine for a keep-asleep service.
//!
//! The crate merges four event sources (shutdown requests, power
//! notifications, session notifications and a periodic timer) into one
//! strictly ordered control loop, and drives a small state machine that
//! decides when the machine should re-enter suspend after a resume.

pub mod channel;
pub mod cli;
pub mod control;
pub mod events;
pub mod service;
