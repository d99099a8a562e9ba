//! A single-layer perceptron's learning decisions and a pointer-driven
//! selection state machine over a registry of scene entities.
//!
//! The library works on plain values. Weighted sums, weight updates and
//! picking geometry are numeric work done by the caller; what the library
//! decides from their outcomes is stated and proved here.

pub mod error;
pub mod perceptron;
pub mod registry;
pub mod selection;
pub mod text;
pub mod training;
