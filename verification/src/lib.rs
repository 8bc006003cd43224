//! A single-chain Metropolis / simulated-annealing Monte Carlo engine for
//! minimising a scalar objective over an n-dimensional point.
//!
//! Real numbers travel through this crate as their IEEE-754 binary64 bit
//! patterns, stored in `u64`.  The engine's decisions (the Metropolis
//! acceptance rule, best-point tracking, trajectory recording, the annealing
//! schedule's activity) are integer logic on those bit patterns and are
//! verified here.  Floating-point arithmetic itself (the objective, the
//! exponential in the acceptance probability, the coordinate perturbation)
//! has no verified model: the caller evaluates it and hands the resulting
//! bit patterns to the engine step by step.

pub mod engine;
pub mod fbits;
pub mod params;
pub mod report;
pub mod rng;
