//! Vector arithmetic on coordinates of a generic scalar type, stated through
//! the specifications that the standard operator traits carry: results are
//! exact whenever the type follows them (`lawful`).
use vstd::prelude::*;
use core::cmp::Ordering;
use core::ops::{Add, Mul, Sub};
use vstd::std_specs::cmp::PartialOrdSpec;
use vstd::std_specs::ops::{AddSpec, MulSpec, SubSpec};

verus! {

/// The coordinate type's `+`, `-` and `*` are defined on every pair of
/// values (true of floating point, where they never fail).
pub open spec fn arithmetic_total<T: Add<Output = T> + Sub<Output = T> + Mul<Output = T>>() -> bool {
    &&& forall|a: T, b: T| #[trigger] a.add_req(b)
    &&& forall|a: T, b: T| #[trigger] a.sub_req(b)
    &&& forall|a: T, b: T| #[trigger] a.mul_req(b)
}

/// The coordinate type's operators and order behave as their specifications
/// say.
pub open spec fn lawful<T: PartialOrd + Add<Output = T> + Sub<Output = T> + Mul<Output = T>>() -> bool {
    &&& T::obeys_add_spec()
    &&& T::obeys_sub_spec()
    &&& T::obeys_mul_spec()
    &&& T::obeys_partial_cmp_spec()
}

/// `a > b` in the order of `T`.
pub open spec fn above<T: PartialOrd>(a: T, b: T) -> bool {
    a.partial_cmp_spec(&b) == Some(Ordering::Greater)
}

/// The sum of squares of a nonempty vector, accumulated from the front.
pub open spec fn square_sum<T: Add<Output = T> + Mul<Output = T>>(v: Seq<T>) -> T
    decreases v.len(),
{
    if v.len() <= 1 {
        v[0].mul_spec(v[0])
    } else {
        square_sum(v.drop_last()).add_spec(v.last().mul_spec(v.last()))
    }
}

/// The length of `v` exceeds `eps`, compared as squares: `|v|^2 > eps^2`. An
/// empty vector has length zero and exceeds nothing.
pub open spec fn exceeds<T: PartialOrd + Add<Output = T> + Mul<Output = T>>(v: Seq<T>, eps: T) -> bool {
    v.len() > 0 && above(square_sum(v), eps.mul_spec(eps))
}

/// `p + d`, componentwise.
pub open spec fn shifted<T: Add<Output = T>>(p: Seq<T>, d: Seq<T>) -> Seq<T> {
    Seq::new(p.len(), |i: int| p[i].add_spec(d[i]))
}

/// `p - q`, componentwise.
pub open spec fn difference<T: Sub<Output = T>>(p: Seq<T>, q: Seq<T>) -> Seq<T> {
    Seq::new(p.len(), |i: int| p[i].sub_spec(q[i]))
}

/// Whether `|v|^2 > eps^2` in the order of `T`.
pub fn exceeds_threshold<T: Copy + PartialOrd + Add<Output = T> + Sub<Output = T> + Mul<Output = T>>(
    v: &[T],
    eps: T,
) -> (r: bool)
    requires
        arithmetic_total::<T>(),
    ensures
        lawful::<T>() ==> r == exceeds(v@, eps),
        v@.len() == 0 ==> !r,
{
    if v.len() == 0 {
        return false;
    }
    let mut acc = v[0] * v[0];
    let mut i: usize = 1;
    while i < v.len()
        invariant
            1 <= i <= v@.len(),
            arithmetic_total::<T>(),
            lawful::<T>() ==> acc == square_sum(v@.take(i as int)),
        decreases v@.len() - i,
    {
        assert(v@.take(i as int + 1).drop_last() =~= v@.take(i as int));
        let sq = v[i] * v[i];
        acc = acc + sq;
        i = i + 1;
    }
    assert(v@.take(i as int) =~= v@);
    let bound = eps * eps;
    acc > bound
}

/// `p + d`, componentwise.
pub fn shift<T: Copy + PartialOrd + Add<Output = T> + Sub<Output = T> + Mul<Output = T>>(p: &[T], d: &[T]) -> (r: Vec<T>)
    requires
        p@.len() == d@.len(),
        arithmetic_total::<T>(),
    ensures
        r@.len() == p@.len(),
        lawful::<T>() ==> r@ == shifted(p@, d@),
{
    let mut out: Vec<T> = Vec::new();
    let mut i: usize = 0;
    while i < p.len()
        invariant
            i <= p@.len(),
            p@.len() == d@.len(),
            arithmetic_total::<T>(),
            out@.len() == i,
            lawful::<T>() ==> forall|j: int| 0 <= j < i ==> out@[j] == p@[j].add_spec(d@[j]),
        decreases p@.len() - i,
    {
        out.push(p[i] + d[i]);
        i = i + 1;
    }
    assert(lawful::<T>() ==> out@ =~= shifted(p@, d@));
    out
}

/// `p - q`, componentwise.
pub fn subtract<T: Copy + PartialOrd + Add<Output = T> + Sub<Output = T> + Mul<Output = T>>(p: &[T], q: &[T]) -> (r: Vec<T>)
    requires
        p@.len() == q@.len(),
        arithmetic_total::<T>(),
    ensures
        r@.len() == p@.len(),
        lawful::<T>() ==> r@ == difference(p@, q@),
{
    let mut out: Vec<T> = Vec::new();
    let mut i: usize = 0;
    while i < p.len()
        invariant
            i <= p@.len(),
            p@.len() == q@.len(),
            arithmetic_total::<T>(),
            out@.len() == i,
            lawful::<T>() ==> forall|j: int| 0 <= j < i ==> out@[j] == p@[j].sub_spec(q@[j]),
        decreases p@.len() - i,
    {
        out.push(p[i] - q[i]);
        i = i + 1;
    }
    assert(lawful::<T>() ==> out@ =~= difference(p@, q@));
    out
}

/// Whether `eps` lies above the default value of `T`.
pub fn is_positive<T: Default + PartialOrd>(eps: &T) -> (r: bool)
    ensures
        T::obeys_partial_cmp_spec() ==> exists|z: T| call_ensures(T::default, (), z) && (r <==> above(*eps, z)),
{
    let zero = T::default();
    let r = *eps > zero;
    assert(call_ensures(T::default, (), zero));
    assert(T::obeys_partial_cmp_spec() ==> (r <==> above(*eps, zero)));
    r
}

} // verus!
