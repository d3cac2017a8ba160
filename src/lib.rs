//! Relays RF-receiver telemetry from an MQTT topic to camera-snapshot webhooks.
//!
//! The library holds the decisions of the relay: loading and validating its
//! settings, filtering telemetry by RF code, planning the snapshot fetch and the
//! webhook posts, and building the push-notification body. Network and process
//! I/O belong to the program that drives it.
pub mod config;
pub mod text;
pub mod push;
pub mod pipeline;
