//! Control core of a pressure-sensing and valve-actuating instrument: the
//! register codec of the ADS101x converter, the adapter state built on it, and
//! the decisions of the polling loop, the network service and the telemetry
//! batcher, each as a function from plain values to plain values.

pub mod adc;
pub mod api;
pub mod sensor;
pub mod influx;
pub mod batcher;
pub mod context;
pub mod wire;
pub mod gui;
pub mod lifecycle;
