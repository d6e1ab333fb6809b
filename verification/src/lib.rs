//! Verified core of a switch-line control service.
//!
//! The library models an 8-bit parallel I/O expander whose pins drive an
//! AV-input selector, a soft power button and hard power relays for four
//! logical channels. It contains the pulse-sequencing engine that turns a
//! logical request into an exact sequence of timed pin writes, the durable
//! system-state record with its canonical on-disk encoding, and the rules
//! that say when a request is rejected. Everything that touches the outside
//! world (the bus, the state file, the HTTP adapter) stays with the caller:
//! the library hands out plans and canonical bytes and takes the outcomes
//! back as plain values.

pub mod ids;
pub mod pin;
pub mod state;
pub mod codec;
pub mod engine;
pub mod laws;
