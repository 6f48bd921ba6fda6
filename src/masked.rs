//! An evaluator in reduced coordinates over one in full coordinates: frozen
//! components never reach the optimization, neither as coordinates nor as
//! forces.
use vstd::prelude::*;
use crate::error::OptimError;
use crate::mask::{free_count, lemma_free_count_bound, lemma_reduce_len, reduce, CoordMask};
use crate::potential::{filled, EvaluatePotential, PotentialOutput};

verus! {

/// Evaluates reduced positions with `inner`, which works on full positions:
/// frozen components are set to `fill`, and the frozen components of the
/// force are dropped.
pub struct MaskedPotential<T, G> {
    inner: G,
    mask: CoordMask,
    fill: T,
}

impl<T: Copy + Default, G> MaskedPotential<T, G> {
    /// The mask in use.
    pub closed spec fn frozen(&self) -> Seq<bool> {
        self.mask@
    }

    /// The value that frozen components take.
    pub closed spec fn filler(&self) -> T {
        self.fill
    }

    /// An adapter of `inner` under `mask`, filling frozen components with
    /// `fill`.
    pub fn new(inner: G, mask: CoordMask, fill: T) -> (r: Self)
        ensures
            r.frozen() == mask@,
            r.filler() == fill,
    {
        MaskedPotential { inner, mask, fill }
    }

    /// The number of reduced coordinates: the free components of the mask.
    pub fn dimension(&self) -> (r: usize)
        ensures
            r == free_count(self.frozen()),
    {
        proof {
            lemma_free_count_bound(self.mask@);
        }
        self.mask.len() - self.mask.nmasked()
    }

    /// Evaluates `inner` at the expansion of `position` and writes the energy
    /// and the reduced force into `output`. A position of another length than
    /// the free count, or a full force of another length than the mask, is
    /// refused with `output` untouched.
    pub fn evaluate_masked<U>(&mut self, position: &[T], output: &mut PotentialOutput<T>) -> (r: Result<U, OptimError>)
        where G: EvaluatePotential<T, U>,
        ensures
            final(self).frozen() == old(self).frozen(),
            final(self).filler() == old(self).filler(),
            position@.len() != free_count(old(self).frozen()) ==> r == Err::<U, OptimError>(
                OptimError::LengthMismatch {
                    expected: free_count(old(self).frozen()) as usize,
                    found: position@.len() as usize,
                },
            ),
            r is Ok ==> final(output).force@.len() == position@.len(),
            r is Err ==> *final(output) == *old(output),
    {
        let n = self.mask.len();
        let nfree = self.dimension();
        if position.len() != nfree {
            return Err(OptimError::LengthMismatch { expected: nfree, found: position.len() });
        }
        proof {
            lemma_free_count_bound(self.mask@);
        }
        let full = self.mask.unmask(position, self.fill);
        let mut out = PotentialOutput { energy: T::default(), force: filled(T::default(), n) };
        let res = self.inner.evaluate(full.as_slice(), &mut out);
        self.reduce_output(res, out, output)
    }

    /// Turns what `inner` returned in full coordinates into the reduced
    /// result: its error is passed on and a force of another length than the
    /// mask is refused, both with `output` untouched; otherwise `output`
    /// receives the energy and the free components of the force.
    pub fn reduce_output<U>(
        &self,
        res: Result<U, OptimError>,
        out: PotentialOutput<T>,
        output: &mut PotentialOutput<T>,
    ) -> (r: Result<U, OptimError>)
        ensures
            res matches Err(e) ==> r == Err::<U, OptimError>(e) && *final(output) == *old(output),
            res is Ok && out.force@.len() != self.frozen().len() ==> r == Err::<U, OptimError>(
                OptimError::LengthMismatch { expected: self.frozen().len() as usize, found: out.force@.len() as usize },
            ) && *final(output) == *old(output),
            res is Ok && out.force@.len() == self.frozen().len() ==> {
                &&& r == res
                &&& final(output).energy == out.energy
                &&& final(output).force@ == reduce(self.frozen(), out.force@)
                &&& final(output).force@.len() == free_count(self.frozen())
            },
    {
        let n = self.mask.len();
        match res {
            Err(e) => Err(e),
            Ok(extra) => {
                if out.force.len() != n {
                    return Err(OptimError::LengthMismatch { expected: n, found: out.force.len() });
                }
                let reduced = self.mask.apply(out.force.as_slice());
                proof {
                    lemma_reduce_len(self.mask@, out.force@);
                }
                output.energy = out.energy;
                output.force = reduced;
                Ok(extra)
            },
        }
    }
}

impl<T: Copy + Default, U, G: EvaluatePotential<T, U>> EvaluatePotential<T, U> for MaskedPotential<T, G> {
    fn evaluate(&mut self, position: &[T], output: &mut PotentialOutput<T>) -> Result<U, OptimError> {
        self.evaluate_masked(position, output)
    }
}

} // verus!
