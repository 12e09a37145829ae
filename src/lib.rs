//! Pricing engine of a two-asset market maker built around a target-centred,
//! shifted-hyperbola invariant curve.

pub mod error;
pub mod math;
pub mod state;
pub mod laws;
