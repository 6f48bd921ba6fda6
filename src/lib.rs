//! Evaluation cache and driver discipline for iterative minimization of a
//! scalar potential, generic over the coordinate scalar type.
pub mod metric;
pub mod convergence;
pub mod error;
pub mod mask;
pub mod masked;
pub mod potential;
pub mod vars;

pub use convergence::{drive, Convergence, OptimProgress, Optimized, ProgressSource};
pub use error::OptimError;
pub use mask::CoordMask;
pub use masked::MaskedPotential;
pub use potential::{Dynamics, EvaluatePotential, PotentialOutput};
pub use vars::Algorithm;
