//! A minimal ports-and-adapters (hexagonal) library: one abstract capability,
//! three interchangeable adapter variants, a consumer that depends only on the
//! capability, and an assembly step that wires one production variant.

pub mod adapters;
pub mod port;
pub mod selector;
