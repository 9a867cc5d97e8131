//! Host-side control of a two-channel linear-actuator motor driver: the
//! binary command and telemetry protocol, the operator's key handling, and
//! the decisions taken by the background serial tasks.

pub mod controller;
pub mod protocol;
pub mod status;
pub mod tasks;
