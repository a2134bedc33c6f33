//! Core model of a Hall-effect angle/voltage converter.
//!
//! The library owns the conversion state (reference voltage, target angle,
//! measured voltage, display options) and every decision made on it: input
//! validation, the clamp on the target angle, which derived quantity can be
//! computed from the current state, and the exact text of the labels and CSV
//! records that leave the model.  Floating-point evaluation (parsing voltage
//! text, cosine and arccosine) and file access stay outside; voltages travel
//! through the model as opaque IEEE-754 bit patterns.

pub mod digits;
pub mod display;
pub mod model;
