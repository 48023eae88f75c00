//! Core of a single-board telemetry and actuation node.
//!
//! Verified pieces: the NEC infrared command encoder and its decoder, the
//! sensor-reading text payload, the step logic of the sampler and relay
//! loops, the single-slot handoff between them, and the framing side of a
//! minimal publish-protocol client. Hardware access, sockets and threads stay
//! with the embedding program, which hands this library plain values.
pub mod client;
pub mod control;
pub mod handoff;
pub mod nec;
pub mod telemetry;
pub mod text;
