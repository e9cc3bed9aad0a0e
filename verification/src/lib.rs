//! A peer of a WebRTC session, as a verified state machine.

pub mod atomic_option;
pub mod laws;
pub mod message;
pub mod options;
pub mod outside;
pub mod peer;
pub mod protocol;
pub mod step;
pub mod step_laws;
