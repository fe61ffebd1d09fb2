//! Core of a multi-device audio recording subsystem.
//!
//! The library holds the decision logic of the recorder: the lifecycle state
//! machine (`Idle` / `Recording` / `Stopping`), the per-device sample sinks,
//! the track selection and merge policy of the stop coordinator, and the plan
//! of the post-processing pipeline. The surrounding process performs the
//! device, file and notification I/O and feeds the results back in as plain
//! values.

pub mod device;
pub mod error;
pub mod format;
pub mod laws;
pub mod pipeline;
pub mod policy;
pub mod session;
pub mod sink;

pub use device::AudioDevice;
