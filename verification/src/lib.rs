//! Session negotiation and media pacing for a single real-time media session.
//!
//! The library decides; it does not wait. Whatever reaches out to the
//! network, the file system or a timer is done by the program around it,
//! which reports back what happened and is told what to do next.

pub mod error;
pub mod monitor;
pub mod negotiation;
pub mod pacing;
pub mod peer_connection;
pub mod signal;
pub mod source;
pub mod termination;
pub mod track;
pub mod transport;
