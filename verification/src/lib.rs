//! Verified core of the Hoshiguma telemetry module: the small RPC protocol
//! that links it to the machine controller, and the decisions the firmware
//! makes on telemetry, metrics and its user interface.

pub mod firmware;
pub mod rpc;
