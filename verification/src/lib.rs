//! Pedestrian evacuation-flow speed through a transit opening.
//!
//! The flow formulas are evaluated over exact rational numbers, so every
//! branch threshold and coefficient of the piecewise model is represented
//! without rounding and the results carry proved contracts.

pub mod flow;
pub mod laws;
pub mod rational;

pub use flow::InvalidDomainError;
pub use flow::speed_through_transit;
pub use flow::velocity;
pub use rational::Rat;
pub use rational::Ratio;
