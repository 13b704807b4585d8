//! Polling and command-dispatch engine of a supervisory HMI: register
//! codec, device configuration, the control rendezvous shared with the user
//! interface, and the poller state machine that drives one field device.

pub mod codec;
pub mod config;
pub mod control;
pub mod error;
pub mod poller;
pub mod session;
