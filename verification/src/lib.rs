//! Verified core of a CAN-bus telemetry pipeline for a solar-powered vehicle.
//!
//! Sensor subsystems broadcast fixed-format frames on a shared CAN bus; this
//! crate decodes them, buffers them between a fast producer and a slower
//! consumer, and folds them into a snapshot of vehicle state whose fields
//! expire independently when not refreshed.
//!
//! Quantities that travel the bus as scaled integers are kept as those raw
//! integers (the scale is documented on each field); quantities that travel
//! as IEEE-754 words are kept as their bit patterns. Interpreting either as a
//! fraction or a float is left to display code outside this crate.

pub mod can_frame;
pub mod codec;
pub mod collector;
pub mod gnss_frames;
pub mod pipeline;
pub mod pisugar;
pub mod snapshot;
pub mod stale;

pub use can_frame::CanFrame;
pub use can_frame::CanId;
