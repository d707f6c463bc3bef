//! Link-layer packet capture and injection on a named network interface.
//!
//! This library takes the decisions of a capture: how a raw socket is
//! set up step by step and which error each failed step gives
//! ([`captures::raw_socket_capture`]), how a send or a receive suspends
//! and retries while the socket is not ready ([`captures::readiness`]),
//! and which command asks a wireless interface to change its channel
//! ([`captures::wireless::wifi`]). The system calls themselves, the waits
//! and the spawned tool belong to whoever drives it.

pub mod capture;
pub mod captures;
pub mod error;

pub use capture::Capture;
pub use error::{AirCapError, AirCapResult};
