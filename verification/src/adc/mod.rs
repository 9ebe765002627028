//! Analog-to-digital converters.

pub mod ads101x;
