//! Ingestion and broadcast core of a MIDI monitor: decoding of raw protocol
//! frames, the wire form of an event, a bounded broadcast bus, the synthetic
//! fallback source, and the per-connection session rules.

pub mod bus;
pub mod decode;
pub mod event;
pub mod monitor;
pub mod session;
pub mod source;
pub mod synthetic;
pub mod wire;
