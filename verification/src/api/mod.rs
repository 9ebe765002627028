//! The values that the control loop, the network service and the telemetry
//! batcher exchange.

pub mod remote;
pub mod sensor;
