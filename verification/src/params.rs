//! Run configuration and its boundary validation.
//!
//! A run is configured once, validated here, and never mutated afterwards.
//! All real-valued settings are IEEE-754 binary64 bit patterns (see
//! `fbits`).  Validation mirrors the error taxonomy for configuration:
//! a run never starts from a non-positive step count, a non-positive
//! initial temperature, a non-positive step scale, or an empty initial
//! point.  A final temperature with a set sign bit counts as unset and
//! defaults to the initial temperature, which disables annealing.

use vstd::prelude::*;

use crate::fbits::{f64_lt_bits, f64_sign_negative_bits, f_lt, F64_POS_ZERO};

verus! {

/// Immutable configuration of one run.  Every `u64` here but `n_step` and
/// `seed` is an IEEE-754 binary64 bit pattern.
#[derive(Clone, Debug)]
pub struct Params {
    /// Temperature at step 0; positive.
    pub ini_temp: u64,
    /// Temperature the schedule converges to; never sign-negative after
    /// validation.
    pub final_temp: u64,
    /// Number of Monte Carlo steps; positive.
    pub n_step: u64,
    /// Starting point, one bit pattern per coordinate; fixes the dimension.
    pub x_ini: Vec<u64>,
    /// Scale of a single-coordinate trial perturbation; positive.
    pub x_delta: u64,
    /// Seed of the deterministic random source.
    pub seed: u64,
}

/// Why a configuration was rejected.
#[derive(Clone, Copy, Debug, PartialEq, Eq, Structural)]
pub enum ConfigError {
    /// The step count is zero.
    ZeroStepCount,
    /// The initial temperature is not a positive number.
    NonPositiveInitialTemperature,
    /// The step scale is not a positive number.
    NonPositiveStepScale,
    /// The initial point has no coordinates.
    EmptyInitialPoint,
}

impl Params {
    /// What validation establishes.  The dimension bound is a machine
    /// limit: a coordinate index is drawn as a `u32`.
    pub open spec fn wf(self) -> bool {
        &&& self.n_step >= 1
        &&& f_lt(F64_POS_ZERO, self.ini_temp)
        &&& f_lt(F64_POS_ZERO, self.x_delta)
        &&& 1 <= self.x_ini@.len() <= u32::MAX
        &&& !crate::fbits::sign_negative_bits(self.final_temp)
    }

    /// Validates a configuration, in the order step count, initial
    /// temperature, step scale, initial point; a sign-negative final
    /// temperature defaults to the initial temperature.  Succeeds exactly
    /// on the inputs on which all four checks pass.
    pub fn new(
        ini_temp: u64,
        final_temp: u64,
        n_step: u64,
        x_ini: Vec<u64>,
        x_delta: u64,
        seed: u64,
    ) -> (r: Result<Params, ConfigError>)
        requires
            x_ini@.len() <= u32::MAX,
        ensures
            r is Ok <==> {
                &&& n_step >= 1
                &&& f_lt(F64_POS_ZERO, ini_temp)
                &&& f_lt(F64_POS_ZERO, x_delta)
                &&& x_ini@.len() >= 1
            },
            r matches Ok(p) ==> {
                &&& p.wf()
                &&& p.ini_temp == ini_temp
                &&& p.final_temp == if crate::fbits::sign_negative_bits(final_temp) {
                    ini_temp
                } else {
                    final_temp
                }
                &&& p.n_step == n_step
                &&& p.x_ini@ == x_ini@
                &&& p.x_delta == x_delta
                &&& p.seed == seed
            },
            r == Err::<Params, ConfigError>(ConfigError::ZeroStepCount) <==> n_step == 0,
            r == Err::<Params, ConfigError>(ConfigError::NonPositiveInitialTemperature) <==> {
                &&& n_step >= 1
                &&& !f_lt(F64_POS_ZERO, ini_temp)
            },
            r == Err::<Params, ConfigError>(ConfigError::NonPositiveStepScale) <==> {
                &&& n_step >= 1
                &&& f_lt(F64_POS_ZERO, ini_temp)
                &&& !f_lt(F64_POS_ZERO, x_delta)
            },
            r == Err::<Params, ConfigError>(ConfigError::EmptyInitialPoint) <==> {
                &&& n_step >= 1
                &&& f_lt(F64_POS_ZERO, ini_temp)
                &&& f_lt(F64_POS_ZERO, x_delta)
                &&& x_ini@.len() == 0
            },
    {
        if n_step == 0 {
            return Err(ConfigError::ZeroStepCount);
        }
        if !f64_lt_bits(F64_POS_ZERO, ini_temp) {
            return Err(ConfigError::NonPositiveInitialTemperature);
        }
        if !f64_lt_bits(F64_POS_ZERO, x_delta) {
            return Err(ConfigError::NonPositiveStepScale);
        }
        if x_ini.len() == 0 {
            return Err(ConfigError::EmptyInitialPoint);
        }
        let final_temp = if f64_sign_negative_bits(final_temp) {
            ini_temp
        } else {
            final_temp
        };
        Ok(Params { ini_temp, final_temp, n_step, x_ini, x_delta, seed })
    }
}

} // verus!
