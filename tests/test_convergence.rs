use gosh_optim::{drive, Convergence, OptimError, OptimProgress, ProgressSource};

/// Hands out the given force criteria in order and counts the pulls.
struct Scripted {
    fmax: Vec<f64>,
    pulls: usize,
    fail_at: Option<usize>,
}

impl Scripted {
    fn new(fmax: &[f64]) -> Self {
        Scripted { fmax: fmax.to_vec(), pulls: 0, fail_at: None }
    }
}

impl ProgressSource<f64, usize> for Scripted {
    fn pull(&mut self) -> Result<Option<OptimProgress<f64, usize>>, OptimError> {
        let i = self.pulls;
        self.pulls += 1;
        if self.fail_at == Some(i) {
            return Err(OptimError::Evaluation("model failed".to_string()));
        }
        Ok(self.fmax.get(i).map(|&fmax| OptimProgress { ncalls: i + 1, fmax, energy: -(i as f64), extra: i }))
    }
}

#[test]
fn stops_at_first_converged_record() {
    let mut src = Scripted::new(&[5.0, 1.0, 0.05, 0.01]);
    let opt = drive(&mut src, 0.1, 100).unwrap();
    assert_eq!(src.pulls, 3);
    assert_eq!(opt.niter, 3);
    assert_eq!(opt.fmax, 0.05);
    assert_eq!(opt.computed, 2);
    assert!(opt.converged);
}

#[test]
fn threshold_is_strict() {
    let mut src = Scripted::new(&[0.1, 0.1, 0.09]);
    let opt = drive(&mut src, 0.1, 100).unwrap();
    assert_eq!(opt.niter, 3);
    assert_eq!(src.pulls, 3);
}

#[test]
fn stops_after_nmax_records() {
    let mut src = Scripted::new(&[5.0, 4.0, 3.0, 2.0, 1.0]);
    let opt = drive(&mut src, 0.1, 2).unwrap();
    assert_eq!(src.pulls, 2);
    assert_eq!(opt.niter, 2);
    assert_eq!(opt.fmax, 4.0);
    assert_eq!(opt.computed, 1);
    assert!(!opt.converged);
}

#[test]
fn nan_never_converges() {
    let mut src = Scripted::new(&[f64::NAN, f64::NAN, f64::NAN]);
    let opt = drive(&mut src, 0.1, 3).unwrap();
    assert_eq!(opt.niter, 3);
    assert!(opt.fmax.is_nan());
    assert!(!opt.converged);
}

#[test]
fn no_records_is_an_error() {
    let mut src = Scripted::new(&[1.0]);
    assert!(matches!(drive(&mut src, 0.1, 0), Err(OptimError::NotComputed)));
    assert_eq!(src.pulls, 0);
    let mut empty = Scripted::new(&[]);
    assert!(matches!(drive(&mut empty, 0.1, 10), Err(OptimError::NotComputed)));
}

#[test]
fn exhausted_source_ends_the_run() {
    let mut src = Scripted::new(&[3.0, 2.0]);
    let opt = drive(&mut src, 0.1, 10).unwrap();
    assert_eq!(opt.niter, 2);
    assert_eq!(opt.fmax, 2.0);
    assert_eq!(src.pulls, 3);
}

#[test]
fn source_error_is_propagated() {
    let mut src = Scripted::new(&[3.0, 2.0, 1.0]);
    src.fail_at = Some(1);
    assert!(matches!(drive(&mut src, 0.1, 10), Err(OptimError::Evaluation(_))));
    assert_eq!(src.pulls, 2);
}

#[test]
fn policy_step_by_step() {
    let mut run: Convergence<f64, &str> = Convergence::new(0.1, 10);
    assert!(run.wants_more());
    assert!(!run.accept(5.0, "a"));
    assert!(!run.accept(1.0, "b"));
    assert!(run.accept(0.05, "c"));
    assert!(!run.wants_more());
    assert_eq!(run.count(), 3);
    let opt = run.finish().unwrap();
    assert_eq!((opt.niter, opt.fmax, opt.computed, opt.converged), (3, 0.05, "c", true));
}

#[test]
fn finish_without_records() {
    let run: Convergence<f64, ()> = Convergence::new(0.1, 10);
    assert!(matches!(run.finish(), Err(OptimError::NotComputed)));
}
