//! Command logic for a sensor client: the resilient polling loop that keeps
//! a long-lived connection to a device alive, and the small decisions the
//! one-shot commands make around it.
//!
//! Nothing here performs I/O. Every function maps plain values to plain
//! values; the program around this library connects, reads, sleeps and
//! prints, and reports back what happened.

pub mod address;
pub mod alias;
pub mod backoff;
pub mod connection;
pub mod device;
pub mod doctor;
pub mod history;
pub mod notice;
pub mod poll_loop;
pub mod runs;
pub mod session;
pub mod settings;
pub mod status;
pub mod text;
