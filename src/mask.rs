use vstd::prelude::*;

verus! {

/// Number of free (not frozen) entries in a mask.
pub open spec fn free_count(frozen: Seq<bool>) -> nat
    decreases frozen.len(),
{
    if frozen.len() == 0 {
        0
    } else {
        free_count(frozen.drop_last()) + if frozen.last() {
            0nat
        } else {
            1nat
        }
    }
}

/// The components of `full` at free positions, in order.
pub open spec fn reduce<T>(frozen: Seq<bool>, full: Seq<T>) -> Seq<T>
    decreases frozen.len(),
{
    if frozen.len() == 0 || full.len() == 0 {
        Seq::empty()
    } else {
        let rest = reduce(frozen.drop_last(), full.drop_last());
        if frozen.last() {
            rest
        } else {
            rest.push(full.last())
        }
    }
}

/// A full vector with frozen positions set to `fill` and free positions taken,
/// in order, from `reduced`.
pub open spec fn expand<T>(frozen: Seq<bool>, reduced: Seq<T>, fill: T) -> Seq<T>
    decreases frozen.len(),
{
    if frozen.len() == 0 {
        Seq::empty()
    } else {
        let prefix = frozen.drop_last();
        expand(prefix, reduced, fill).push(
            if frozen.last() {
                fill
            } else {
                reduced[free_count(prefix) as int]
            },
        )
    }
}

/// Component `i` of an expanded vector.
pub proof fn lemma_expand_index<T>(frozen: Seq<bool>, reduced: Seq<T>, fill: T, i: int)
    requires
        0 <= i < frozen.len(),
    ensures
        expand(frozen, reduced, fill).len() == frozen.len(),
        expand(frozen, reduced, fill)[i] == if frozen[i] {
            fill
        } else {
            reduced[free_count(frozen.take(i)) as int]
        },
    decreases frozen.len(),
{
    let prefix = frozen.drop_last();
    lemma_expand_len(frozen, reduced, fill);
    if i < frozen.len() - 1 {
        lemma_expand_index(prefix, reduced, fill, i);
        assert(prefix.take(i) =~= frozen.take(i));
    } else {
        assert(prefix =~= frozen.take(i));
    }
}

/// An expanded vector has one component per mask entry.
pub proof fn lemma_expand_len<T>(frozen: Seq<bool>, reduced: Seq<T>, fill: T)
    ensures
        expand(frozen, reduced, fill).len() == frozen.len(),
    decreases frozen.len(),
{
    if frozen.len() > 0 {
        lemma_expand_len(frozen.drop_last(), reduced, fill);
    }
}

/// A reduced vector holds one component per free entry, and the free
/// component at `i` lands at the position counting the free entries before it.
pub proof fn lemma_reduce_index<T>(frozen: Seq<bool>, full: Seq<T>, i: int)
    requires
        frozen.len() == full.len(),
        0 <= i < frozen.len(),
        !frozen[i],
    ensures
        reduce(frozen, full).len() == free_count(frozen),
        free_count(frozen.take(i)) < free_count(frozen),
        reduce(frozen, full)[free_count(frozen.take(i)) as int] == full[i],
    decreases frozen.len(),
{
    let prefix = frozen.drop_last();
    lemma_reduce_len(frozen, full);
    if i < frozen.len() - 1 {
        lemma_reduce_index(prefix, full.drop_last(), i);
        assert(prefix.take(i) =~= frozen.take(i));
    } else {
        assert(prefix =~= frozen.take(i));
        lemma_reduce_len(prefix, full.drop_last());
    }
}

/// A reduced vector holds one component per free entry.
pub proof fn lemma_reduce_len<T>(frozen: Seq<bool>, full: Seq<T>)
    requires
        frozen.len() == full.len(),
    ensures
        reduce(frozen, full).len() == free_count(frozen),
    decreases frozen.len(),
{
    if frozen.len() > 0 {
        lemma_reduce_len(frozen.drop_last(), full.drop_last());
    }
}

/// Free counts never exceed the mask length.
pub proof fn lemma_free_count_bound(frozen: Seq<bool>)
    ensures
        free_count(frozen) <= frozen.len(),
    decreases frozen.len(),
{
    if frozen.len() > 0 {
        lemma_free_count_bound(frozen.drop_last());
    }
}

/// Reducing a full vector and expanding it again gives back every free
/// component and `fill` at every frozen position, whatever `fill` is.
pub proof fn lemma_expand_reduce<T>(frozen: Seq<bool>, full: Seq<T>, fill: T)
    requires
        frozen.len() == full.len(),
    ensures
        expand(frozen, reduce(frozen, full), fill).len() == full.len(),
        forall|i: int|
            0 <= i < full.len() ==> #[trigger] expand(frozen, reduce(frozen, full), fill)[i] == if frozen[i] {
                fill
            } else {
                full[i]
            },
{
    let r = reduce(frozen, full);
    lemma_expand_len(frozen, r, fill);
    assert forall|i: int| 0 <= i < full.len() implies #[trigger] expand(frozen, r, fill)[i] == if frozen[i] {
        fill
    } else {
        full[i]
    } by {
        lemma_expand_index(frozen, r, fill, i);
        if !frozen[i] {
            lemma_reduce_index(frozen, full, i);
        }
    }
}

#[verifier::external_type_specification]
#[verifier::external_body]
pub struct ExMask(gchemol::Mask);

/// The entries of a gchemol mask, in order: `true` marks a masked value.
pub uninterp spec fn mask_bits(m: gchemol::Mask) -> Seq<bool>;

/// Relies on gchemol's `FromIterator<bool>` for `Mask`, which collects the
/// entries in order.
#[verifier::external_body]
fn mask_from(frozen: &[bool]) -> (m: gchemol::Mask)
    ensures
        mask_bits(m) == frozen@,
{
    frozen.iter().copied().collect()
}

/// Relies on gchemol's `Mask::apply`: the values at unmasked entries, in
/// order; it panics unless the lengths agree.
#[verifier::external_body]
fn mask_apply<T: Copy>(m: &gchemol::Mask, full: &[T]) -> (r: Vec<T>)
    requires
        full@.len() == mask_bits(*m).len(),
    ensures
        r@ == reduce(mask_bits(*m), full@),
{
    m.apply(full)
}

/// Relies on gchemol's `Mask::nmasked`: the number of masked entries.
#[verifier::external_body]
fn mask_count(m: &gchemol::Mask) -> (r: usize)
    ensures
        r + free_count(mask_bits(*m)) == mask_bits(*m).len(),
{
    m.nmasked()
}

/// Marks which components of a full coordinate vector are frozen: frozen
/// components take no part in the optimization.
#[derive(Debug)]
pub struct CoordMask {
    frozen: Vec<bool>,
    inner: gchemol::Mask,
}

impl CoordMask {
    /// The mask entries: `true` marks a frozen component.
    pub closed spec fn view(&self) -> Seq<bool> {
        self.frozen@
    }

    /// The gchemol mask holds the same entries.
    #[verifier::type_invariant]
    spec fn inv(&self) -> bool {
        mask_bits(self.inner) == self.frozen@
    }

    /// A mask with `frozen[i]` telling whether component `i` is frozen.
    pub fn new(frozen: Vec<bool>) -> (r: Self)
        ensures
            r@ == frozen@,
    {
        let inner = mask_from(frozen.as_slice());
        CoordMask { frozen, inner }
    }

    /// Number of entries, frozen or free.
    pub fn len(&self) -> (r: usize)
        ensures
            r == self@.len(),
    {
        self.frozen.len()
    }

    /// Number of frozen entries.
    pub fn nmasked(&self) -> (r: usize)
        ensures
            r + free_count(self@) == self@.len(),
    {
        proof {
            use_type_invariant(self);
        }
        mask_count(&self.inner)
    }

    /// The free components of `full`, in order.
    pub fn apply<T: Copy>(&self, full: &[T]) -> (r: Vec<T>)
        requires
            full@.len() == self@.len(),
        ensures
            r@ == reduce(self@, full@),
    {
        proof {
            use_type_invariant(self);
        }
        mask_apply(&self.inner, full)
    }

    /// A full vector: `fill` at frozen components, the entries of `reduced` in
    /// order at free ones. Entries of `reduced` past the free count are unused.
    pub fn unmask<T: Copy>(&self, reduced: &[T], fill: T) -> (r: Vec<T>)
        requires
            free_count(self@) <= reduced@.len() <= self@.len(),
        ensures
            r@ == expand(self@, reduced@, fill),
    {
        let mut out: Vec<T> = Vec::new();
        let mut k: usize = 0;
        let mut i: usize = 0;
        while i < self.frozen.len()
            invariant
                i <= self.frozen@.len(),
                free_count(self.frozen@) <= reduced@.len(),
                k == free_count(self.frozen@.take(i as int)),
                k <= i,
                out@ == expand(self.frozen@.take(i as int), reduced@, fill),
            decreases self.frozen@.len() - i,
        {
            let ghost prefix = self.frozen@.take(i as int);
            assert(self.frozen@.take(i as int + 1).drop_last() =~= prefix);
            if self.frozen[i] {
                out.push(fill);
            } else {
                proof {
                    lemma_free_count_prefix(self.frozen@, i as int + 1);
                }
                out.push(reduced[k]);
                k = k + 1;
            }
            i = i + 1;
        }
        assert(self.frozen@.take(i as int) =~= self.frozen@);
        out
    }
}

/// A prefix has no more free entries than the whole mask.
proof fn lemma_free_count_prefix(frozen: Seq<bool>, n: int)
    requires
        0 <= n <= frozen.len(),
    ensures
        free_count(frozen.take(n)) <= free_count(frozen),
    decreases frozen.len() - n,
{
    if n < frozen.len() {
        lemma_free_count_prefix(frozen, n + 1);
        assert(frozen.take(n + 1).drop_last() =~= frozen.take(n));
    } else {
        assert(frozen.take(n) =~= frozen);
    }
}

} // verus!
