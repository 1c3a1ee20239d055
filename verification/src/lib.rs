//! Keeps a device on one wireless network and logged in to that network's captive
//! portal.
//!
//! The executors decide and never act: an executor names a call, the host performs it
//! on the network controller, on the session client or on itself, and hands back what
//! came of it. What the executors decide is proved in `executor::laws`.

pub mod args;
pub mod connections;
pub mod executor;
pub mod log;
pub mod session;
pub mod text;
