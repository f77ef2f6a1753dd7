//! Continuous-measurement driver logic for time-of-flight distance sensors
//! sharing one two-wire bus: configuration values, measurement records, the
//! bus arbiter, the per-sensor recovery state machine, and the bring-up and
//! fleet startup sequences.

pub mod arbiter;
pub mod config;
pub mod fleet;
pub mod measurement;
pub mod recovery;
pub mod sensor;
pub mod sequence;
