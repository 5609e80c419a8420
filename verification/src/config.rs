use vstd::prelude::*;

verus! {

/// The dimensions of the two-dimensional coordinate grid: `n0` samples along
/// the first axis, `n1` along the second.
#[derive(Clone, Copy, Debug, PartialEq, Eq, Structural)]
pub struct GridShape {
    pub n0: usize,
    pub n1: usize,
}

/// A configuration defect found before propagation starts.
#[derive(Clone, Copy, Debug, PartialEq, Eq, Structural)]
pub enum ConfigError {
    /// The wave function grid has a zero-length axis.
    EmptyAxis,
    /// The atomic potential, a coordinate axis or a momentum axis does not
    /// match the wave function grid.
    ShapeMismatch,
    /// The run was asked for zero time steps.
    ZeroSteps,
    /// The time step is zero or negative.
    NonPositiveTimeStep,
}

/// A validated propagation configuration: the grid shape that every array of
/// the run must have, and the number of time steps to take.
#[derive(Clone, Copy, Debug, PartialEq, Eq, Structural)]
pub struct EngineConfig {
    pub shape: GridShape,
    pub n_steps: usize,
}

/// Whether a run may start: the wave function grid is non-empty, the atomic
/// potential has the same shape, each coordinate axis and each momentum axis
/// has as many samples as the matching wave-function axis, at least one time
/// step is asked for, and the time step is positive.
pub open spec fn config_ok(
    psi: GridShape,
    atomic: GridShape,
    x_axis_lens: GridShape,
    p_axis_lens: GridShape,
    n_steps: usize,
    dt_is_positive: bool,
) -> bool {
    &&& psi.n0 >= 1
    &&& psi.n1 >= 1
    &&& atomic == psi
    &&& x_axis_lens == psi
    &&& p_axis_lens == psi
    &&& n_steps >= 1
    &&& dt_is_positive
}

impl EngineConfig {
    /// Checks a propagation setup before any state is touched and hands back
    /// either the validated configuration or the first defect found, in the
    /// order: empty axis, mismatched shapes, zero step count, non-positive
    /// time step.
    ///
    /// `psi` is the wave-function grid shape, `atomic` the shape of the
    /// atomic-potential array, `x_axis_lens` and `p_axis_lens` the sample
    /// counts of the two coordinate and the two momentum axes, and
    /// `dt_is_positive` the outcome of comparing the time step against zero.
    pub fn validate(
        psi: GridShape,
        atomic: GridShape,
        x_axis_lens: GridShape,
        p_axis_lens: GridShape,
        n_steps: usize,
        dt_is_positive: bool,
    ) -> (r: Result<EngineConfig, ConfigError>)
        ensures
            r is Ok <==> config_ok(psi, atomic, x_axis_lens, p_axis_lens, n_steps, dt_is_positive),
            r matches Ok(c) ==> c.shape == psi && c.n_steps == n_steps,
            r == Result::<EngineConfig, ConfigError>::Err(ConfigError::EmptyAxis) <==> (psi.n0 == 0
                || psi.n1 == 0),
            r == Result::<EngineConfig, ConfigError>::Err(ConfigError::ShapeMismatch) <==> (psi.n0
                >= 1 && psi.n1 >= 1 && !(atomic == psi && x_axis_lens == psi && p_axis_lens
                == psi)),
            r == Result::<EngineConfig, ConfigError>::Err(ConfigError::ZeroSteps) <==> (psi.n0 >= 1
                && psi.n1 >= 1 && atomic == psi && x_axis_lens == psi && p_axis_lens == psi
                && n_steps == 0),
            r == Result::<EngineConfig, ConfigError>::Err(ConfigError::NonPositiveTimeStep) <==> (
            psi.n0 >= 1 && psi.n1 >= 1 && atomic == psi && x_axis_lens == psi && p_axis_lens == psi
                && n_steps >= 1 && !dt_is_positive),
    {
        if psi.n0 == 0 || psi.n1 == 0 {
            Err(ConfigError::EmptyAxis)
        } else if !(atomic == psi && x_axis_lens == psi && p_axis_lens == psi) {
            Err(ConfigError::ShapeMismatch)
        } else if n_steps == 0 {
            Err(ConfigError::ZeroSteps)
        } else if !dt_is_positive {
            Err(ConfigError::NonPositiveTimeStep)
        } else {
            Ok(EngineConfig { shape: psi, n_steps })
        }
    }

}

} // verus!
