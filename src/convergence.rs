//! The facade's convergence policy: records are taken one by one, at most
//! `nmax` of them, and the run stops at the first whose force criterion lies
//! strictly below the threshold.
use vstd::prelude::*;
use core::cmp::Ordering;
use vstd::std_specs::cmp::PartialOrdSpec;
use crate::error::OptimError;

verus! {

/// One record of the driver: evaluations so far, force criterion, energy and
/// the evaluator's payload.
#[derive(Debug, Clone)]
pub struct OptimProgress<T, U> {
    /// The number of calls for potential evaluation.
    pub ncalls: usize,
    /// The force criterion at this step.
    pub fmax: T,
    /// The energy at this step.
    pub energy: T,
    /// The payload the evaluator returned at this step.
    pub extra: U,
}

/// The result of a finished run.
#[derive(Debug, Clone)]
pub struct Optimized<T, U> {
    /// The number of records consumed.
    pub niter: usize,
    /// The force criterion of the last record.
    pub fmax: T,
    /// The payload of the last record.
    pub computed: U,
    /// Whether the last record met the threshold.
    pub converged: bool,
}

/// `a < b` in the order that `T` declares.
pub open spec fn below<T: PartialOrd>(a: T, b: T) -> bool {
    a.partial_cmp_spec(&b) == Some(Ordering::Less)
}

/// The state of a run under the convergence policy.
pub struct Convergence<T, U> {
    threshold: T,
    nmax: usize,
    niter: usize,
    converged: bool,
    last: Option<(T, U)>,
    history: Ghost<Seq<T>>,
}

impl<T: Copy + PartialOrd, U> Convergence<T, U> {
    /// The force threshold.
    pub closed spec fn threshold(&self) -> T {
        self.threshold
    }

    /// The largest number of records to take.
    pub closed spec fn nmax(&self) -> nat {
        self.nmax as nat
    }

    /// The number of records taken.
    pub closed spec fn niter(&self) -> nat {
        self.niter as nat
    }

    /// Whether a record met the threshold.
    pub closed spec fn converged(&self) -> bool {
        self.converged
    }

    /// Force criterion and payload of the last record taken.
    pub closed spec fn last(&self) -> Option<(T, U)> {
        self.last
    }

    /// Force criteria of the records taken, in order.
    pub closed spec fn history(&self) -> Seq<T> {
        self.history@
    }

    /// One criterion per record taken, the last one belonging to the last
    /// record; in a lawful order, no record before the last met the
    /// threshold, and the run has converged exactly when the last one did.
    pub open spec fn wf(&self) -> bool {
        &&& self.history().len() == self.niter()
        &&& self.last() matches Some(l) ==> self.niter() > 0 && l.0 == self.history().last()
        &&& self.last() is None ==> self.niter() == 0
        &&& T::obeys_partial_cmp_spec() ==> {
            &&& forall|i: int|
                0 <= i < self.history().len() - 1 ==> !below(#[trigger] self.history()[i], self.threshold())
            &&& self.converged() <==> self.niter() > 0 && below(self.history().last(), self.threshold())
        }
    }

    /// No more records are wanted once one converged or `nmax` were taken.
    pub open spec fn done(&self) -> bool {
        self.converged() || self.niter() >= self.nmax()
    }

    /// A run that has taken nothing yet.
    pub fn new(threshold: T, nmax: usize) -> (r: Self)
        ensures
            r.wf(),
            r.threshold() == threshold,
            r.nmax() == nmax,
            r.niter() == 0,
            !r.converged(),
            r.last() is None,
            r.history() == Seq::<T>::empty(),
    {
        Convergence { threshold, nmax, niter: 0, converged: false, last: None, history: Ghost(Seq::empty()) }
    }

    /// Whether another record should be pulled.
    pub fn wants_more(&self) -> (r: bool)
        ensures
            r == !self.done(),
    {
        !self.converged && self.niter < self.nmax
    }

    /// The number of records taken.
    pub fn count(&self) -> (r: usize)
        ensures
            r == self.niter(),
    {
        self.niter
    }

    /// Takes one record; returns whether the run is now done. The run has
    /// converged when `fmax < threshold` in the order of `T` (never for an
    /// unordered value such as a NaN).
    pub fn accept(&mut self, fmax: T, extra: U) -> (stop: bool)
        requires
            old(self).wf(),
            !old(self).done(),
        ensures
            final(self).wf(),
            final(self).history() == old(self).history().push(fmax),
            final(self).niter() == old(self).niter() + 1,
            final(self).last() == Some((fmax, extra)),
            final(self).threshold() == old(self).threshold(),
            final(self).nmax() == old(self).nmax(),
            T::obeys_partial_cmp_spec() ==> (final(self).converged() <==> below(
                fmax,
                old(self).threshold(),
            )),
            stop == final(self).done(),
    {
        self.niter = self.niter + 1;
        self.converged = fmax < self.threshold;
        self.last = Some((fmax, extra));
        self.history = Ghost(self.history@.push(fmax));
        self.converged || self.niter >= self.nmax
    }

    /// The result of the run: the count and the last record, or
    /// `NotComputed` when no record was taken.
    pub fn finish(self) -> (r: Result<Optimized<T, U>, OptimError>)
        ensures
            self.last() is None ==> r == Err::<Optimized<T, U>, OptimError>(OptimError::NotComputed),
            self.last() matches Some(l) ==> (r matches Ok(o) && o.niter == self.niter() && o.fmax
                == l.0 && o.computed == l.1 && o.converged == self.converged()),
    {
        match self.last {
            None => Err(OptimError::NotComputed),
            Some((fmax, computed)) => Ok(Optimized { niter: self.niter, fmax, computed, converged: self.converged }),
        }
    }
}

/// A lazily pulled sequence of driver records, implemented by users of the
/// facade: `Ok(None)` when it is exhausted, `Err` when an evaluation failed.
pub trait ProgressSource<T, U> {
    fn pull(&mut self) -> Result<Option<OptimProgress<T, U>>, OptimError>;
}

/// Runs `source` under the convergence policy: pulls records while fewer
/// than `nmax` were taken and none converged, and returns the count with the
/// last record. An error of the source ends the run with that error; a run
/// with no record fails with `NotComputed`. In a lawful order the result is
/// the first record below the threshold, or else the last one pulled: the
/// `nmax`-th, or the last before the source ran out.
pub fn drive<T: Copy + PartialOrd, U, S: ProgressSource<T, U>>(
    source: &mut S,
    threshold: T,
    nmax: usize,
) -> (r: Result<Optimized<T, U>, OptimError>)
    ensures
        nmax == 0 ==> r == Err::<Optimized<T, U>, OptimError>(OptimError::NotComputed),
        r matches Ok(o) ==> (1 <= o.niter <= nmax),
        r matches Ok(o) ==> (exists|h: Seq<T>|
            {
                &&& h.len() == o.niter
                &&& h.last() == o.fmax
                &&& T::obeys_partial_cmp_spec() ==> {
                    &&& forall|i: int| 0 <= i < h.len() - 1 ==> !below(#[trigger] h[i], threshold)
                    &&& o.converged <==> below(o.fmax, threshold)
                }
            }),
{
    let mut run: Convergence<T, U> = Convergence::new(threshold, nmax);
    while run.wants_more()
        invariant
            run.wf(),
            run.threshold() == threshold,
            run.nmax() == nmax,
            run.niter() <= nmax,
        decreases nmax - run.niter(),
    {
        match source.pull() {
            Err(e) => return Err(e),
            Ok(None) => break,
            Ok(Some(p)) => {
                run.accept(p.fmax, p.extra);
            },
        }
    }
    proof {
        let h = run.history();
        assert(run.last() matches Some(l) ==> h.len() == run.niter() && h.last() == l.0);
    }
    run.finish()
}

} // verus!
