//! Relay between a remote-controlled vehicle and its remote clients: the fixed
//! wire layout of telemetry and commands, latest-value broadcast cells, the
//! video relay's registry and ingest rules, and pilot arbitration.

pub mod actuator;
pub mod bridge;
pub mod cell;
pub mod gateway;
pub mod pilot;
pub mod sensors;
pub mod video;
pub mod wire;
