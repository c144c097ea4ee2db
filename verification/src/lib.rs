//! A TCP port forwarder's decision core.
//!
//! Inbound connections are relayed byte for byte to one fixed target, with an
//! optional TLS handshake at the inbound edge. This crate holds every decision
//! of that service as verified state machines that perform no I/O themselves:
//! a driver carries out the commands they issue and reports what happened.

pub mod config;
pub mod relay;
pub mod service;
pub mod tls;
pub mod tunnel;
