//! Decisions of the telemetry module firmware.

pub mod screens;
pub mod text;
pub mod metric_buffer;
pub mod metric;
pub mod trace;
pub mod ui;
pub mod system;
pub mod controller;
pub mod mqtt;
pub mod display;
pub mod self_telemetry;
pub mod poll;
