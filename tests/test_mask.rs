use gosh_optim::{Algorithm, CoordMask, Dynamics, EvaluatePotential, MaskedPotential, OptimError, PotentialOutput};

#[test]
fn apply_drops_frozen_components() {
    let mask = CoordMask::new(vec![true, false, true, true, false]);
    assert_eq!(mask.len(), 5);
    assert_eq!(mask.nmasked(), 3);
    assert_eq!(mask.apply(&[1.0, 2.0, 3.0, 4.0, 5.0]), vec![2.0, 5.0]);
}

#[test]
fn unmask_fills_frozen_components() {
    let mask = CoordMask::new(vec![true, false, true, true, false]);
    assert_eq!(mask.unmask(&[2.0, 5.0], 0.0), vec![0.0, 2.0, 0.0, 0.0, 5.0]);
    assert_eq!(mask.unmask(&[2.0, 5.0, 9.0], -1.0), vec![-1.0, 2.0, -1.0, -1.0, 5.0]);
}

#[test]
fn mask_round_trip_for_any_fill() {
    let v = [1.5, -2.0, 3.25, 4.0, -5.5, 6.0];
    let frozen = vec![false, true, false, false, true, true];
    let mask = CoordMask::new(frozen.clone());
    for fill in [0.0, 7.0, -1.0] {
        let back = mask.unmask(&mask.apply(&v), fill);
        assert_eq!(back.len(), v.len());
        for i in 0..v.len() {
            assert_eq!(back[i], if frozen[i] { fill } else { v[i] });
        }
    }
}

#[test]
fn empty_and_unmasked_masks() {
    let none = CoordMask::new(vec![]);
    assert_eq!(none.apply::<f64>(&[]), Vec::<f64>::new());
    assert_eq!(none.unmask::<f64>(&[], 0.0), Vec::<f64>::new());
    let free = CoordMask::new(vec![false, false]);
    assert_eq!(free.nmasked(), 0);
    assert_eq!(free.apply(&[1, 2]), vec![1, 2]);
    let all = CoordMask::new(vec![true, true]);
    assert_eq!(all.apply(&[1, 2]), Vec::<i32>::new());
    assert_eq!(all.unmask(&[], 9), vec![9, 9]);
}

#[test]
fn algorithm_from_name() {
    assert_eq!(Algorithm::from_name("FIRE"), Algorithm::Fire);
    assert_eq!(Algorithm::from_name("LBFGS"), Algorithm::Lbfgs);
    assert_eq!(Algorithm::from_name("fire"), Algorithm::Lbfgs);
    assert_eq!(Algorithm::default(), Algorithm::Lbfgs);
}


/// Energy = sum of (i+1) * x_i over full coordinates, force_i = -(i+1);
/// records the full positions it was handed.
struct Ramp {
    seen: Vec<Vec<f64>>,
    short: bool,
}

impl EvaluatePotential<f64, usize> for Ramp {
    fn evaluate(&mut self, position: &[f64], output: &mut PotentialOutput<f64>) -> Result<usize, OptimError> {
        self.seen.push(position.to_vec());
        output.energy = position.iter().enumerate().map(|(i, x)| (i + 1) as f64 * x).sum();
        for i in 0..output.force.len() {
            output.force[i] = -((i + 1) as f64);
        }
        if self.short {
            output.force.pop();
        }
        Ok(self.seen.len())
    }
}

fn ramp_under(frozen: Vec<bool>, short: bool) -> MaskedPotential<f64, Ramp> {
    MaskedPotential::new(Ramp { seen: vec![], short }, CoordMask::new(frozen), 0.0)
}

#[test]
fn masked_potential_reduces_coordinates_and_forces() {
    let mut pot = ramp_under(vec![false, true, false, true], false);
    assert_eq!(pot.dimension(), 2);
    let mut out = PotentialOutput { energy: 0.0, force: vec![] };
    let extra = pot.evaluate_masked(&[10.0, 20.0], &mut out).unwrap();
    assert_eq!(extra, 1);
    // full position [10, 0, 20, 0]: energy 1*10 + 3*20
    assert_eq!(out.energy, 70.0);
    assert_eq!(out.force, vec![-1.0, -3.0]);
}

#[test]
fn masked_potential_in_a_cache() {
    let masked = ramp_under(vec![true, false, false], false);
    let mut dynamics = Dynamics::new(&[1.0, 2.0], masked, 1e-8).unwrap();
    assert_eq!(dynamics.get_energy().unwrap(), 2.0 * 1.0 + 3.0 * 2.0);
    assert_eq!(dynamics.get_force().unwrap(), vec![-2.0, -3.0]);
    assert_eq!(dynamics.ncalls(), 1);
}

#[test]
fn masked_potential_refuses_wrong_lengths() {
    let mut pot = ramp_under(vec![false, true, false], false);
    let mut out = PotentialOutput { energy: 5.0, force: vec![1.0] };
    assert_eq!(
        pot.evaluate_masked(&[1.0, 2.0, 3.0], &mut out).unwrap_err(),
        OptimError::LengthMismatch { expected: 2, found: 3 }
    );
    assert_eq!((out.energy, out.force.clone()), (5.0, vec![1.0]));
    let mut short = ramp_under(vec![false, true, false], true);
    assert_eq!(
        short.evaluate_masked(&[1.0, 2.0], &mut out).unwrap_err(),
        OptimError::LengthMismatch { expected: 3, found: 2 }
    );
    assert_eq!((out.energy, out.force), (5.0, vec![1.0]));
}

#[test]
fn reduce_output_keeps_free_force_components() {
    let pot = ramp_under(vec![true, false, true, false], false);
    let mut output = PotentialOutput { energy: 0.0, force: vec![] };
    let full = PotentialOutput { energy: 3.5, force: vec![1.0, 2.0, 3.0, 4.0] };
    assert_eq!(pot.reduce_output(Ok(7usize), full, &mut output), Ok(7));
    assert_eq!((output.energy, output.force.clone()), (3.5, vec![2.0, 4.0]));
    let wrong = PotentialOutput { energy: 1.0, force: vec![1.0] };
    assert_eq!(
        pot.reduce_output(Ok(8usize), wrong, &mut output),
        Err(OptimError::LengthMismatch { expected: 4, found: 1 })
    );
    let failed = PotentialOutput { energy: 1.0, force: vec![0.0; 4] };
    assert_eq!(
        pot.reduce_output::<usize>(Err(OptimError::MissingForces), failed, &mut output),
        Err(OptimError::MissingForces)
    );
    assert_eq!((output.energy, output.force), (3.5, vec![2.0, 4.0]));
}
