//! Calibration and frame pipeline of an emotion sensor.
//!
//! The crate holds the rules by which raw fear logits become a bounded score:
//! the calibrators' state machines, the bucket partition, the bounded frame
//! pipeline with its back-pressure policy, and the status that a producer loop
//! publishes.

pub mod scalar;
pub mod time;
pub mod types;
pub mod pipeline;
pub mod text;
pub mod error;
pub mod config;
pub mod ratio;
pub mod calibration;
pub mod calibrator;
pub mod sensor;
pub mod resources;
pub mod compat;
pub mod onnx_sensor;
pub mod mock_sensor;
pub mod events;
pub mod permissions;
pub mod yunet;
