//! Choice of the step algorithm, resolved once when a run is set up.
use vstd::prelude::*;

verus! {

/// The step algorithm that proposes trial positions.
#[derive(Debug, Clone, Copy, PartialEq, Eq)]
pub enum Algorithm {
    /// Damped velocity-based descent with an adaptive step size.
    Fire,
    /// Limited-memory quasi-Newton with a gradient-only line search.
    Lbfgs,
}

impl Algorithm {
    /// The algorithm a configuration names: `"FIRE"` selects FIRE, any other
    /// name L-BFGS.
    pub fn from_name(name: &str) -> (r: Algorithm)
        ensures
            r == (if name@ == "FIRE"@ {
                Algorithm::Fire
            } else {
                Algorithm::Lbfgs
            }),
    {
        let given = name.to_owned();
        let fire = "FIRE".to_owned();
        if given == fire {
            Algorithm::Fire
        } else {
            Algorithm::Lbfgs
        }
    }
}

impl Default for Algorithm {
    /// L-BFGS.
    fn default() -> (r: Algorithm)
        ensures
            r == Algorithm::Lbfgs,
    {
        Algorithm::Lbfgs
    }
}

} // verus!
