//! A reachability monitor for a home network, without the I/O.
//!
//! The monitor watches a gateway and a primary internet host, with further
//! hosts to fall back on. A runner sends the echo requests, sleeps between
//! rounds and appends to the log; this library decides which host is asked
//! next, what each answer means, which state changes are worth a record,
//! and what the record says.

pub mod clock;
pub mod config;
pub mod event;
pub mod monitor;
pub mod probe;
pub mod state;
pub mod text;
