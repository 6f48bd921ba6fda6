use vstd::prelude::*;

verus! {

/// Failures that end an optimization run.
#[derive(Debug, Clone, PartialEq, Eq)]
pub enum OptimError {
    /// The evaluator or model could not produce a value.
    Evaluation(String),
    /// A vector had another length than the one the caller is bound to.
    LengthMismatch { expected: usize, found: usize },
    /// The model's computed properties hold no energy.
    MissingEnergy,
    /// The model's computed properties hold no forces.
    MissingForces,
    /// A staleness threshold that is not positive.
    InvalidEpsilon,
    /// Restoring from a checkpoint failed.
    Restore(String),
    /// The run ended without any evaluated record.
    NotComputed,
}

} // verus!
