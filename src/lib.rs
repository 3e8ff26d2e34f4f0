//! Verified core of the Tension Field elastic time-warp effect.
//!
//! The signal path itself runs on floating point and lives with the host
//! glue; this crate holds the parts that decide and index: parameter
//! encodings and text parsing, the persisted state format, the gesture
//! trigger state machine, the pseudo-random generators and the ring
//! buffers behind every delay line.

pub mod frames;
pub mod gesture;
pub mod modulation;
pub mod param_defs;
pub mod params;
pub mod ring;
pub mod rng;
pub mod state;
pub mod text;
pub mod ui;
