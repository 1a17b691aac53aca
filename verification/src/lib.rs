//! Bounded-lifetime network capture, modeled and verified.
//!
//! The library holds the decision logic of two capture flavors — an ephemeral
//! TCP listener and an SSH-tunneled channel — as explicit state machines,
//! together with port scanning and UTF-8 rendering of the captured log.
//! The surrounding I/O (sockets, SSH transport, clocks, sleeping) is driven
//! by an unverified shell that feeds events to these machines.

pub mod capture;
pub mod errors;
pub mod ports;
pub mod report;
pub mod setup;
