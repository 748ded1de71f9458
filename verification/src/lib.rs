//! Places GPU command execution on a host-side trace timeline.
//!
//! A GPU reports when a command ran in its own clock domain. This crate
//! validates those device timestamps, derives the calibration anchor that
//! ties the device clock to the trace sink's timeline, and drives the sink's
//! span protocol in the one order the sink can render: context, span, end
//! mark, start timestamp, end timestamp.
//!
//! - `timestamp`: what a backend's profiling counters are worth.
//! - `protocol`: the order of calls on a span, and a stand-in for the sink
//!   that holds its callers to it.
//! - `recorder`: contexts and spans at the real sink.
//! - `session`: one calibrated span from marker to upload, decided here and
//!   acted out by the host.
//! - `error`: why a step failed.

pub mod error;
pub mod protocol;
pub mod recorder;
pub mod session;
pub mod timestamp;
