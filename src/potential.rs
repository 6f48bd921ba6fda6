//! A cache around an expensive potential evaluator: it memoizes energy and
//! force at the current position, re-evaluates only after a substantial move,
//! and keeps one snapshot for a single-step undo.
use vstd::prelude::*;
use core::ops::{Add, Mul, Sub};
use vstd::std_specs::cmp::PartialOrdSpec;
use crate::metric::{
    above, arithmetic_total, difference, exceeds, exceeds_threshold, is_positive, lawful, shift, shifted, subtract,
};
use crate::error::OptimError;

verus! {

/// Energy and force evaluated at one position.
#[derive(Debug, Clone)]
pub struct PotentialOutput<T> {
    /// The potential energy.
    pub energy: T,
    /// The force, the negative gradient of the potential.
    pub force: Vec<T>,
}

/// An evaluator of energy and force at a position, implemented by users of
/// the cache. It writes energy and force into `output`, whose force arrives
/// with one entry per coordinate, and returns an extra payload of its own. A
/// force left at another length is refused by the cache.
pub trait EvaluatePotential<T, U> {
    fn evaluate(&mut self, position: &[T], output: &mut PotentialOutput<T>) -> Result<U, OptimError>;
}

/// What one evaluation produced.
struct Evaluated<T, U> {
    output: PotentialOutput<T>,
    extra: U,
}

/// A position with what has been evaluated there, if anything.
struct State<T, U> {
    position: Vec<T>,
    evaluated: Option<Evaluated<T, U>>,
}

/// The mathematical content of a state: the position and, when evaluated,
/// the energy, the force and the evaluator's payload.
pub struct StateView<T, U> {
    pub position: Seq<T>,
    pub cache: Option<(T, Seq<T>, U)>,
}

impl<T, U> State<T, U> {
    spec fn view(&self) -> StateView<T, U> {
        StateView {
            position: self.position@,
            cache: match self.evaluated {
                Some(e) => Some((e.output.energy, e.output.force@, e.extra)),
                None => None,
            },
        }
    }
}

impl<T, U> StateView<T, U> {
    /// Energy and force, when present, belong to a position of the same length.
    pub open spec fn consistent(&self) -> bool {
        self.cache matches Some(c) ==> c.1.len() == self.position.len()
    }
}

/// A potential walker: owns the evaluator, the current state, one snapshot of
/// the previous state, the staleness threshold and the evaluation counter.
pub struct Dynamics<T, U, F> {
    f: F,
    state: State<T, U>,
    last: Option<State<T, U>>,
    epsilon: T,
    neval: usize,
}

impl<T, U, F> Dynamics<T, U, F> {
    /// The current state.
    pub closed spec fn current(&self) -> StateView<T, U> {
        self.state@
    }

    /// The snapshot taken before the last substantial move, if any.
    pub closed spec fn previous(&self) -> Option<StateView<T, U>> {
        match self.last {
            Some(s) => Some(s@),
            None => None,
        }
    }

    /// The number of evaluator calls counted so far.
    pub closed spec fn calls(&self) -> nat {
        self.neval as nat
    }

    /// The staleness threshold.
    pub closed spec fn threshold(&self) -> T {
        self.epsilon
    }

    /// The evaluator.
    pub closed spec fn evaluator(&self) -> F {
        self.f
    }

    /// Cached values fit the current position, and a snapshot has the same
    /// dimension as the current state.
    pub open spec fn wf(&self) -> bool {
        &&& self.current().consistent()
        &&& self.previous() matches Some(p) ==> p.consistent() && p.position.len()
            == self.current().position.len()
    }

    /// What a read of energy, force or payload does: a cached state is
    /// returned as it is; otherwise the evaluator is called once, and on
    /// success (`ok`) its values are cached and counted, while on failure the
    /// state and the counter stay as they were.
    pub open spec fn read(pre: &Self, post: &Self, ok: bool) -> bool {
        if pre.current().cache is Some {
            ok && *post == *pre
        } else {
            &&& post.current().position == pre.current().position
            &&& post.previous() == pre.previous()
            &&& post.threshold() == pre.threshold()
            &&& ok ==> post.current().cache is Some && post.calls() == pre.calls() + 1
            &&& !ok ==> post.current().cache is None && post.calls() == pre.calls()
        }
    }

    /// What a move does: when it is not substantial nothing changes; when it
    /// is, the current state becomes the snapshot and the cache is cleared,
    /// the counter untouched.
    pub open spec fn moved_to(pre: &Self, post: &Self, moved: bool) -> bool {
        if moved {
            &&& post.previous() == Some(pre.current())
            &&& post.current().cache is None
            &&& post.current().position.len() == pre.current().position.len()
            &&& post.calls() == pre.calls()
            &&& post.threshold() == pre.threshold()
            &&& post.evaluator() == pre.evaluator()
        } else {
            *post == *pre
        }
    }

    /// What a step by `d` does: it moves exactly when `|d|^2 > epsilon^2`
    /// in the order of `T`, and then to the position plus `d` (both exact
    /// when `T` follows its operator specifications).
    pub open spec fn stepped(pre: &Self, post: &Self, d: Seq<T>, moved: bool) -> bool
        where T: PartialOrd + Add<Output = T> + Sub<Output = T> + Mul<Output = T>,
    {
        &&& Self::moved_to(pre, post, moved)
        &&& lawful::<T>() ==> (moved <==> exceeds(d, pre.threshold()))
        &&& lawful::<T>() && moved ==> post.current().position == shifted(pre.current().position, d)
    }

    /// What an undo does: the snapshot, if any, becomes the current state and
    /// is used up; without a snapshot nothing changes.
    pub open spec fn reverted(pre: &Self, post: &Self) -> bool {
        match pre.previous() {
            Some(p) => {
                &&& post.current() == p
                &&& post.previous() is None
                &&& post.calls() == pre.calls()
                &&& post.threshold() == pre.threshold()
                &&& post.evaluator() == pre.evaluator()
            },
            None => *post == *pre,
        }
    }

    /// A cache around `f` at position `x`, with nothing evaluated yet and
    /// staleness threshold `epsilon`, which must be positive.
    pub fn new(x: &[T], f: F, epsilon: T) -> (r: Result<Self, OptimError>)
        where T: Copy + Default + PartialOrd,
        ensures
            T::obeys_partial_cmp_spec() ==> exists|z: T|
                call_ensures(T::default, (), z) && (r is Ok <==> above(epsilon, z)),
            r is Err ==> r == Err::<Self, OptimError>(OptimError::InvalidEpsilon),
            r matches Ok(d) ==> {
                &&& d.wf()
                &&& d.current().position == x@
                &&& d.current().cache is None
                &&& d.previous() is None
                &&& d.calls() == 0
                &&& d.threshold() == epsilon
                &&& d.evaluator() == f
            },
    {
        if !is_positive(&epsilon) {
            return Err(OptimError::InvalidEpsilon);
        }
        Ok(Dynamics {
            f,
            state: State { position: copy_of(x), evaluated: None },
            last: None,
            epsilon,
            neval: 0,
        })
    }

    /// The current position; never evaluates.
    pub fn position(&self) -> (r: &[T])
        ensures
            r@ == self.current().position,
    {
        self.state.position.as_slice()
    }

    /// The number of evaluator calls counted so far.
    pub fn ncalls(&self) -> (r: usize)
        ensures
            r == self.calls(),
    {
        self.neval
    }

    /// Resets the evaluation counter to zero; cached values stay.
    pub fn recount(&mut self)
        ensures
            final(self).calls() == 0,
            final(self).current() == old(self).current(),
            final(self).previous() == old(self).previous(),
            final(self).threshold() == old(self).threshold(),
            final(self).evaluator() == old(self).evaluator(),
    {
        self.neval = 0;
    }

    /// The staleness threshold.
    pub fn epsilon(&self) -> (r: T)
        where T: Copy,
        ensures
            r == self.threshold(),
    {
        self.epsilon
    }

    /// Restores the snapshot taken before the last substantial move, if there
    /// is one; one level of undo only.
    pub fn revert(&mut self)
        requires
            old(self).wf(),
        ensures
            final(self).wf(),
            Self::reverted(old(self), final(self)),
    {
        let last = self.last.take();
        match last {
            Some(s) => {
                self.state = s;
            },
            None => {},
        }
    }
}

impl<T, U, F> Dynamics<T, U, F> where
    T: Copy + Default + PartialOrd + Add<Output = T> + Sub<Output = T> + Mul<Output = T>,
    F: EvaluatePotential<T, U>,
 {
    /// Records what the evaluator returned at the current position: its
    /// error is passed on and a force of another length than the position is
    /// refused, both with nothing changed; otherwise energy, force and payload
    /// are cached and the call is counted.
    fn store(&mut self, res: Result<U, OptimError>, out: PotentialOutput<T>) -> (r: Result<(), OptimError>)
        requires
            old(self).wf(),
            old(self).current().cache is None,
            old(self).calls() < usize::MAX,
        ensures
            final(self).wf(),
            res matches Err(e) ==> r == Err::<(), OptimError>(e) && *final(self) == *old(self),
            res is Ok && out.force@.len() != old(self).current().position.len() ==> r == Err::<(), OptimError>(
                OptimError::LengthMismatch {
                    expected: old(self).current().position.len() as usize,
                    found: out.force@.len() as usize,
                },
            ) && *final(self) == *old(self),
            res is Ok && out.force@.len() == old(self).current().position.len() ==> {
                &&& r is Ok
                &&& final(self).current() == StateView {
                    position: old(self).current().position,
                    cache: Some((out.energy, out.force@, res->Ok_0)),
                }
                &&& final(self).calls() == old(self).calls() + 1
                &&& final(self).previous() == old(self).previous()
                &&& final(self).threshold() == old(self).threshold()
                &&& final(self).evaluator() == old(self).evaluator()
            },
    {
        let n = self.state.position.len();
        match res {
            Err(e) => Err(e),
            Ok(extra) => {
                if out.force.len() != n {
                    return Err(OptimError::LengthMismatch { expected: n, found: out.force.len() });
                }
                self.state.evaluated = Some(Evaluated { output: out, extra });
                self.neval = self.neval + 1;
                Ok(())
            },
        }
    }

    /// Calls the evaluator once at the current position, with a force buffer
    /// of one entry per coordinate, and stores what it returned.
    fn eval(&mut self) -> (r: Result<(), OptimError>)
        requires
            old(self).wf(),
            old(self).current().cache is None,
            old(self).calls() < usize::MAX,
        ensures
            final(self).wf(),
            Self::read(old(self), final(self), r is Ok),
    {
        let n = self.state.position.len();
        let mut out = PotentialOutput { energy: T::default(), force: filled(T::default(), n) };
        let res = self.f.evaluate(self.state.position.as_slice(), &mut out);
        self.store(res, out)
    }

    /// Evaluates the current position unless it is cached already.
    fn ensure_evaluated(&mut self) -> (r: Result<(), OptimError>)
        requires
            old(self).wf(),
            old(self).current().cache is None ==> old(self).calls() < usize::MAX,
        ensures
            final(self).wf(),
            Self::read(old(self), final(self), r is Ok),
    {
        if self.state.evaluated.is_none() {
            self.eval()
        } else {
            Ok(())
        }
    }

    /// The energy at the current position, evaluated only when not cached.
    pub fn get_energy(&mut self) -> (r: Result<T, OptimError>)
        requires
            old(self).wf(),
            old(self).current().cache is None ==> old(self).calls() < usize::MAX,
        ensures
            final(self).wf(),
            Self::read(old(self), final(self), r is Ok),
            r matches Ok(e) ==> (final(self).current().cache matches Some(c) && c.0 == e),
    {
        match self.ensure_evaluated() {
            Err(e) => Err(e),
            Ok(()) => match &self.state.evaluated {
                Some(e) => Ok(e.output.energy),
                None => Err(OptimError::NotComputed),
            },
        }
    }

    /// The force at the current position, evaluated only when not cached.
    pub fn get_force(&mut self) -> (r: Result<Vec<T>, OptimError>)
        requires
            old(self).wf(),
            old(self).current().cache is None ==> old(self).calls() < usize::MAX,
        ensures
            final(self).wf(),
            Self::read(old(self), final(self), r is Ok),
            r matches Ok(f) ==> (final(self).current().cache matches Some(c) && c.1 == f@),
    {
        match self.ensure_evaluated() {
            Err(e) => Err(e),
            Ok(()) => match &self.state.evaluated {
                Some(e) => Ok(copy_of(e.output.force.as_slice())),
                None => Err(OptimError::NotComputed),
            },
        }
    }

    /// The evaluator's payload at the current position, evaluated only when
    /// not cached.
    pub fn get_extra(&mut self) -> (r: Result<U, OptimError>)
        where U: Clone,
        requires
            old(self).wf(),
            old(self).current().cache is None ==> old(self).calls() < usize::MAX,
        ensures
            final(self).wf(),
            Self::read(old(self), final(self), r is Ok),
            r matches Ok(u) ==> (final(self).current().cache matches Some(c) && cloned(c.2, u)),
    {
        match self.ensure_evaluated() {
            Err(e) => Err(e),
            Ok(()) => match &self.state.evaluated {
                Some(e) => Ok(e.extra.clone()),
                None => Err(OptimError::NotComputed),
            },
        }
    }

    /// Replaces the staleness threshold when `eps` is positive; returns
    /// whether it did.
    pub fn set_epsilon(&mut self, eps: T) -> (accepted: bool)
        ensures
            T::obeys_partial_cmp_spec() ==> exists|z: T|
                call_ensures(T::default, (), z) && (accepted <==> above(eps, z)),
            accepted ==> final(self).threshold() == eps,
            !accepted ==> final(self).threshold() == old(self).threshold(),
            final(self).current() == old(self).current(),
            final(self).previous() == old(self).previous(),
            final(self).calls() == old(self).calls(),
            final(self).evaluator() == old(self).evaluator(),
    {
        if is_positive(&eps) {
            self.epsilon = eps;
            true
        } else {
            false
        }
    }

    /// Makes `next` the current position, keeping the old state as the
    /// snapshot.
    fn relocate(&mut self, next: Vec<T>)
        requires
            old(self).wf(),
            next@.len() == old(self).current().position.len(),
        ensures
            final(self).wf(),
            Self::moved_to(old(self), final(self), true),
            final(self).current().position == next@,
    {
        let mut prev = State { position: next, evaluated: None };
        core::mem::swap(&mut self.state, &mut prev);
        self.last = Some(prev);
    }

    /// Moves the position by `displacement` when its length exceeds the
    /// threshold (compared as squares: `|d|^2 > epsilon^2`), which clears
    /// the cache and keeps the old state as the snapshot; a smaller step is
    /// ignored. Returns whether the position moved.
    pub fn step_toward(&mut self, displacement: &[T]) -> (moved: bool)
        requires
            old(self).wf(),
            displacement@.len() == old(self).current().position.len(),
            arithmetic_total::<T>(),
        ensures
            final(self).wf(),
            Self::stepped(old(self), final(self), displacement@, moved),
    {
        if exceeds_threshold(displacement, self.epsilon) {
            let next = shift(self.state.position.as_slice(), displacement);
            self.relocate(next);
            true
        } else {
            false
        }
    }

    /// Sets the position to `position` when it lies farther than the
    /// threshold from the current one (compared as squares), which clears the
    /// cache and keeps the old state as the snapshot; a nearer position is
    /// ignored. Returns whether the position moved; a position of another
    /// length is refused.
    pub fn set_position(&mut self, position: &[T]) -> (r: Result<bool, OptimError>)
        requires
            old(self).wf(),
            arithmetic_total::<T>(),
        ensures
            final(self).wf(),
            position@.len() != old(self).current().position.len() ==> r == Err::<bool, OptimError>(
                OptimError::LengthMismatch {
                    expected: old(self).current().position.len() as usize,
                    found: position@.len() as usize,
                },
            ) && *final(self) == *old(self),
            position@.len() == old(self).current().position.len() ==> (r matches Ok(moved) && Self::moved_to(
                old(self),
                final(self),
                moved,
            ) && (moved ==> final(self).current().position == position@) && (lawful::<T>() ==> (moved
                <==> exceeds(difference(position@, old(self).current().position), old(self).threshold())))),
    {
        let n = self.state.position.len();
        if position.len() != n {
            return Err(OptimError::LengthMismatch { expected: n, found: position.len() });
        }
        let diff = subtract(position, self.state.position.as_slice());
        if exceeds_threshold(diff.as_slice(), self.epsilon) {
            self.relocate(copy_of(position));
            Ok(true)
        } else {
            Ok(false)
        }
    }

    /// Moves to `x` (as `set_position` does) and reads energy, force and
    /// payload there, evaluating at most once.
    pub fn evaluate_at(&mut self, x: &[T]) -> (r: Result<(T, Vec<T>, U), OptimError>)
        where U: Clone,
        requires
            old(self).wf(),
            old(self).calls() < usize::MAX,
            arithmetic_total::<T>(),
        ensures
            final(self).wf(),
            x@.len() != old(self).current().position.len() ==> r == Err::<(T, Vec<T>, U), OptimError>(
                OptimError::LengthMismatch {
                    expected: old(self).current().position.len() as usize,
                    found: x@.len() as usize,
                },
            ),
            final(self).current().position.len() == old(self).current().position.len(),
            r is Ok ==> final(self).current().position == x@ || final(self).current().position
                == old(self).current().position,
            final(self).calls() <= old(self).calls() + 1,
            final(self).threshold() == old(self).threshold(),
            r matches Ok(v) ==> (final(self).current().cache matches Some(c) && c.0 == v.0 && c.1
                == v.1@ && cloned(c.2, v.2)),
    {
        match self.set_position(x) {
            Err(e) => Err(e),
            Ok(_) => {
                let energy = match self.get_energy() {
                    Err(e) => return Err(e),
                    Ok(e) => e,
                };
                let force = match self.get_force() {
                    Err(e) => return Err(e),
                    Ok(f) => f,
                };
                let extra = match self.get_extra() {
                    Err(e) => return Err(e),
                    Ok(u) => u,
                };
                Ok((energy, force, extra))
            },
        }
    }
}

/// Two reads with no move in between: the second evaluates nothing and
/// leaves everything as the first left it, so energy, force and payload read
/// back identical; the pair costs at most one evaluation.
pub proof fn lemma_repeated_reads<T, U, F>(
    d0: Dynamics<T, U, F>,
    d1: Dynamics<T, U, F>,
    d2: Dynamics<T, U, F>,
    ok2: bool,
)
    requires
        Dynamics::read(&d0, &d1, true),
        Dynamics::read(&d1, &d2, ok2),
    ensures
        ok2,
        d2 == d1,
        d2.calls() <= d0.calls() + 1,
{
}

/// A step no longer than the threshold (`|d|^2 <= epsilon^2`) leaves
/// position, cache, snapshot and counter as they were.
pub proof fn lemma_short_step<T, U, F>(
    d0: Dynamics<T, U, F>,
    d1: Dynamics<T, U, F>,
    d: Seq<T>,
    moved: bool,
)
    where T: PartialOrd + Add<Output = T> + Sub<Output = T> + Mul<Output = T>,
    requires
        lawful::<T>(),
        !exceeds(d, d0.threshold()),
        Dynamics::stepped(&d0, &d1, d, moved),
    ensures
        !moved,
        d1 == d0,
{
}

/// After a step longer than the threshold the cache is empty, so the next
/// read calls the evaluator: on success the counter has grown by exactly one,
/// on failure not at all.
pub proof fn lemma_read_after_step<T, U, F>(
    d0: Dynamics<T, U, F>,
    d1: Dynamics<T, U, F>,
    d2: Dynamics<T, U, F>,
    d: Seq<T>,
    moved: bool,
    ok: bool,
)
    where T: PartialOrd + Add<Output = T> + Sub<Output = T> + Mul<Output = T>,
    requires
        lawful::<T>(),
        exceeds(d, d0.threshold()),
        Dynamics::stepped(&d0, &d1, d, moved),
        Dynamics::read(&d1, &d2, ok),
    ensures
        moved,
        d1.current().cache is None,
        ok ==> d2.calls() == d0.calls() + 1 && d2.current().cache is Some,
        !ok ==> d2.calls() == d0.calls(),
{
}

/// An undo right after a step longer than the threshold restores position,
/// energy, force and payload of before the step, without an evaluation.
pub proof fn lemma_revert_after_step<T, U, F>(
    d0: Dynamics<T, U, F>,
    d1: Dynamics<T, U, F>,
    d2: Dynamics<T, U, F>,
    d: Seq<T>,
    moved: bool,
)
    where T: PartialOrd + Add<Output = T> + Sub<Output = T> + Mul<Output = T>,
    requires
        lawful::<T>(),
        exceeds(d, d0.threshold()),
        Dynamics::stepped(&d0, &d1, d, moved),
        Dynamics::reverted(&d1, &d2),
    ensures
        d2.current() == d0.current(),
        d2.calls() == d0.calls(),
{
}

/// An undo with no snapshot, as on a fresh cache, changes nothing.
pub proof fn lemma_revert_without_snapshot<T, U, F>(d0: Dynamics<T, U, F>, d1: Dynamics<T, U, F>)
    requires
        d0.previous() is None,
        Dynamics::reverted(&d0, &d1),
    ensures
        d1 == d0,
{
}

/// A copy of `x`.
fn copy_of<T: Copy>(x: &[T]) -> (r: Vec<T>)
    ensures
        r@ == x@,
{
    let mut out: Vec<T> = Vec::new();
    let mut i: usize = 0;
    while i < x.len()
        invariant
            i <= x@.len(),
            out@ == x@.take(i as int),
        decreases x@.len() - i,
    {
        out.push(x[i]);
        i = i + 1;
        assert(out@ =~= x@.take(i as int));
    }
    assert(x@.take(i as int) =~= x@);
    out
}

/// `n` copies of `v`.
pub(crate) fn filled<T: Copy>(v: T, n: usize) -> (r: Vec<T>)
    ensures
        r@.len() == n,
{
    let mut out: Vec<T> = Vec::new();
    let mut i: usize = 0;
    while i < n
        invariant
            i <= n,
            out@.len() == i,
        decreases n - i,
    {
        out.push(v);
        i = i + 1;
    }
    out
}

} // verus!
