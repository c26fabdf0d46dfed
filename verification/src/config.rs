//! The validated configuration of a sweep.

use crate::plan::SweepPlan;
use vstd::prelude::*;

verus! {

/// The iteration count at which a sweep starts unless told otherwise.
pub const DEFAULT_MINIMUM_ITERATIONS: u64 = 100;

/// The iteration count at which a sweep ends, inclusive, unless told otherwise.
pub const DEFAULT_MAXIMUM_ITERATIONS: u64 = 500;

/// The increment between two iteration counts unless told otherwise.
pub const DEFAULT_STEP: u64 = 25;

/// The number of runs per iteration count unless told otherwise.
pub const DEFAULT_REPETITIONS: u32 = 1;

/// Why a sweep cannot be configured as asked.
#[derive(Clone, Copy, Debug, PartialEq, Eq, Structural)]
pub enum ConfigError {
    /// The sweep would start at zero iterations, which the engine cannot take.
    ZeroIterations,
    /// The range holds at least one value and the step is zero, so the sweep
    /// would never leave its first value.
    ZeroStep,
}

/// A sweep that can be carried out: the range of iteration counts, the step
/// between them and the number of runs per value.
///
/// A value of this type always describes a runnable plan. It cannot be
/// changed once made.
#[derive(Clone, Copy, Debug)]
pub struct SweepConfig {
    minimum: u64,
    maximum: u64,
    step: u64,
    repetitions: u32,
}

/// The plan that four raw settings ask for.
pub open spec fn plan_of(minimum: u64, maximum: u64, step: u64, repetitions: u32) -> SweepPlan {
    SweepPlan {
        minimum: minimum as int,
        maximum: maximum as int,
        step: step as int,
        repetitions: repetitions as int,
    }
}

impl View for SweepConfig {
    type V = SweepPlan;

    closed spec fn view(&self) -> SweepPlan {
        plan_of(self.minimum, self.maximum, self.step, self.repetitions)
    }
}

impl SweepConfig {
    /// What holds of every configuration: its plan is runnable.
    #[verifier::type_invariant]
    pub open spec fn well_formed(&self) -> bool {
        self@.runnable()
    }

    /// Validates four raw settings.
    ///
    /// The settings are accepted exactly when the plan they ask for is
    /// runnable. A zero minimum is refused first. A zero step is refused
    /// only where the range holds a value: an inverted range asks for no work
    /// and is accepted whatever the step.
    pub fn new(minimum: u64, maximum: u64, step: u64, repetitions: u32) -> (outcome: Result<
        SweepConfig,
        ConfigError,
    >)
        ensures
            outcome is Ok <==> plan_of(minimum, maximum, step, repetitions).runnable(),
            outcome matches Ok(config) ==> config@ == plan_of(
                minimum,
                maximum,
                step,
                repetitions,
            ),
            minimum == 0 <==> outcome == Err::<SweepConfig, ConfigError>(
                ConfigError::ZeroIterations,
            ),
            (minimum != 0 && minimum <= maximum && step == 0) <==> outcome == Err::<
                SweepConfig,
                ConfigError,
            >(ConfigError::ZeroStep),
    {
        if minimum == 0 {
            Err(ConfigError::ZeroIterations)
        } else if minimum <= maximum && step == 0 {
            Err(ConfigError::ZeroStep)
        } else {
            Ok(SweepConfig { minimum, maximum, step, repetitions })
        }
    }

    /// The first iteration count of the sweep.
    pub fn minimum(&self) -> (minimum: u64)
        ensures
            minimum == self@.minimum,
    {
        self.minimum
    }

    /// The last iteration count that the sweep may reach.
    pub fn maximum(&self) -> (maximum: u64)
        ensures
            maximum == self@.maximum,
    {
        self.maximum
    }

    /// The increment between two iteration counts.
    pub fn step(&self) -> (step: u64)
        ensures
            step == self@.step,
    {
        self.step
    }

    /// The number of runs per iteration count.
    pub fn repetitions(&self) -> (repetitions: u32)
        ensures
            repetitions == self@.repetitions,
    {
        self.repetitions
    }
}

} // verus!
