use vstd::prelude::*;

verus! {

/// Why a set of run parameters was rejected before any run began.
#[derive(Clone, Copy, PartialEq, Eq, Structural, Debug)]
pub enum ConfigError {
    /// The dimension must be at least one.
    ZeroDimension,
    /// The starting point's length differs from the dimension.
    DimensionMismatch,
    /// The initial step size must be positive.
    NonPositiveStep,
    /// The decay factor must lie strictly between zero and one.
    InvalidDecay,
    /// The growth factor must be at least one.
    InvalidGrowth,
    /// The convergence tolerance must be positive.
    NonPositiveTolerance,
}

/// The verdict entry validation owes for given findings, checked in a
/// fixed order: dimension first, then the starting point's length, then
/// the magnitude checks of the numeric tunables.
pub open spec fn validation_verdict(
    num_vars: nat,
    point_len: nat,
    step_size_positive: bool,
    decay_in_open_unit: bool,
    growth_at_least_one: bool,
    tolerance_positive: bool,
) -> Result<(), ConfigError> {
    if num_vars < 1 {
        Err(ConfigError::ZeroDimension)
    } else if point_len != num_vars {
        Err(ConfigError::DimensionMismatch)
    } else if !step_size_positive {
        Err(ConfigError::NonPositiveStep)
    } else if !decay_in_open_unit {
        Err(ConfigError::InvalidDecay)
    } else if !growth_at_least_one {
        Err(ConfigError::InvalidGrowth)
    } else if !tolerance_positive {
        Err(ConfigError::NonPositiveTolerance)
    } else {
        Ok(())
    }
}

/// Validates the parameters of a run before it starts, so that no
/// evaluation is attempted on a malformed configuration.  The numeric
/// magnitudes themselves stay with the caller: it reports the outcome
/// of each sign or range check, and this function turns the findings
/// into the single verdict the run entry owes — `Ok` exactly when the
/// dimension is at least one, the starting point has that length, the
/// initial step size and tolerance are positive, the decay factor lies
/// strictly between zero and one, and the growth factor is at least
/// one.  An iteration budget needs no check: any count is allowed.
pub fn validate_run_parameters(
    num_vars: usize,
    point_len: usize,
    step_size_positive: bool,
    decay_in_open_unit: bool,
    growth_at_least_one: bool,
    tolerance_positive: bool,
) -> (r: Result<(), ConfigError>)
    ensures
        r == validation_verdict(
            num_vars as nat,
            point_len as nat,
            step_size_positive,
            decay_in_open_unit,
            growth_at_least_one,
            tolerance_positive,
        ),
{
    if num_vars < 1 {
        Err(ConfigError::ZeroDimension)
    } else if point_len != num_vars {
        Err(ConfigError::DimensionMismatch)
    } else if !step_size_positive {
        Err(ConfigError::NonPositiveStep)
    } else if !decay_in_open_unit {
        Err(ConfigError::InvalidDecay)
    } else if !growth_at_least_one {
        Err(ConfigError::InvalidGrowth)
    } else if !tolerance_positive {
        Err(ConfigError::NonPositiveTolerance)
    } else {
        Ok(())
    }
}

} // verus!
