//! General laws of the combinator, stated over its specification-level model
//! and proved once for every owner kind and every pure projection.

use crate::combinator::OwningRef;
use crate::stable::{CloneStableAddress, StableAddress};
use vstd::prelude::*;

verus! {

/// Every clone of a value of `T` is the value itself. This holds of the
/// standard library payloads the adapters are used with (integers, text,
/// buffers of such), and is the premise under which the clone-shaped clauses
/// of construction and duplication collapse to equalities.
pub open spec fn clone_exact<T: Clone>() -> bool {
    forall|a: T, b: T| #[trigger] cloned::<T>(a, b) ==> b == a
}

/// Constructing from an owner and then dereferencing observes the very data
/// the owner held before it was moved in, whenever the target type's clone is
/// exact; in general the observation is a clone of that data.
///
/// The first two premises are exactly what [`OwningRef::new`] ensures, and
/// [`OwningRef::deref`] returns `spec_reference` itself.
pub proof fn lemma_construct_observes_owner<O: StableAddress>(o: O, c: OwningRef<O, O::Target>)
    requires
        c.spec_owner() == o,
        cloned::<O::Target>(o.target(), c.spec_reference()),
        clone_exact::<O::Target>(),
    ensures
        c.spec_reference() == o.target(),
        c.spec_reference() == c.spec_owner().target(),
{
}

/// `r` is `c` narrowed along the pure projection `p`: the owner is the same
/// and the view is `p` of `c`'s view. This is exactly what [`OwningRef::map`]
/// ensures when the passed closure agrees with `p` on every input.
pub open spec fn narrows_to<O, T, U>(
    c: OwningRef<O, T>,
    p: spec_fn(T) -> U,
    r: OwningRef<O, U>,
) -> bool {
    &&& r.spec_owner() == c.spec_owner()
    &&& r.spec_reference() == p(c.spec_reference())
}

/// A projection closure whose every outcome agrees with the spec-level
/// projection `p` makes [`OwningRef::map`] narrow the combinator along `p`.
pub proof fn lemma_map_models_projection<O, T, U, F: FnOnce(&T) -> U>(
    c: OwningRef<O, T>,
    f: F,
    r: OwningRef<O, U>,
    p: spec_fn(T) -> U,
)
    requires
        r.spec_owner() == c.spec_owner(),
        call_ensures(f, (&c.spec_reference(),), r.spec_reference()),
        forall|x: T, y: U| call_ensures(f, (&x,), y) ==> y == p(x),
    ensures
        narrows_to(c, p, r),
{
    assert(call_ensures(f, (&c.spec_reference(),), r.spec_reference()));
}

/// Narrowing is associative: narrowing by `p` and then by `q` observes the
/// same view, over the same owner, as narrowing once by their composition.
pub proof fn lemma_map_associative<O, T, U, V>(
    c: OwningRef<O, T>,
    p: spec_fn(T) -> U,
    q: spec_fn(U) -> V,
    c1: OwningRef<O, U>,
    c2: OwningRef<O, V>,
    d: OwningRef<O, V>,
)
    requires
        narrows_to(c, p, c1),
        narrows_to(c1, q, c2),
        narrows_to(c, (|t: T| q(p(t))), d),
    ensures
        c2.spec_owner() == d.spec_owner(),
        c2.spec_reference() == d.spec_reference(),
{
}

/// Each combinator in the chain is a narrowing of the one before it.
pub open spec fn narrowing_chain<O, T>(cs: Seq<OwningRef<O, T>>) -> bool {
    forall|i: int|
        0 <= i && i + 1 < cs.len() ==> exists|p: spec_fn(T) -> T|
            #[trigger] narrows_to(#[trigger] cs[i], p, cs[i + 1])
}

/// The owner's identity survives any number of narrowing steps: every
/// combinator along a narrowing chain holds the owner the chain started with.
pub proof fn lemma_owner_fixed_along_chain<O, T>(cs: Seq<OwningRef<O, T>>, i: int)
    requires
        narrowing_chain(cs),
        0 <= i < cs.len(),
    ensures
        cs[i].spec_owner() == cs[0].spec_owner(),
    decreases i,
{
    if i > 0 {
        lemma_owner_fixed_along_chain(cs, i - 1);
        let p = choose|p: spec_fn(T) -> T| #[trigger] narrows_to(cs[i - 1], p, cs[i]);
        assert(narrows_to(cs[i - 1], p, cs[i]));
    }
}

/// Two duplicates of one combinator over a shareable owner, narrowed along
/// different projections, observe exactly the two projections of the one
/// shared datum — mutually consistent where the projections overlap, and
/// independent where they do not. Each conclusion mentions only its own
/// duplicate's state, so destroying either duplicate cannot disturb what the
/// other observes.
///
/// The premises on the duplicates are exactly what [`OwningRef::clone`]
/// ensures, plus exactness of the view's clone, under which its clone-shaped
/// clause collapses to equality.
pub proof fn lemma_duplicates_observe_shared_data<O: CloneStableAddress, T: Clone, U, V>(
    c: OwningRef<O, T>,
    a: OwningRef<O, T>,
    b: OwningRef<O, T>,
    p: spec_fn(T) -> U,
    q: spec_fn(T) -> V,
    na: OwningRef<O, U>,
    nb: OwningRef<O, V>,
)
    requires
        a.spec_owner() == c.spec_owner(),
        b.spec_owner() == c.spec_owner(),
        cloned::<T>(c.spec_reference(), a.spec_reference()),
        cloned::<T>(c.spec_reference(), b.spec_reference()),
        clone_exact::<T>(),
        narrows_to(a, p, na),
        narrows_to(b, q, nb),
    ensures
        na.spec_owner() == c.spec_owner(),
        nb.spec_owner() == c.spec_owner(),
        na.spec_reference() == p(c.spec_reference()),
        nb.spec_reference() == q(c.spec_reference()),
{
}

/// The sum of a sequence of machine integers, as an unbounded integer.
pub open spec fn seq_sum(s: Seq<i32>) -> int
    decreases s.len(),
{
    if s.len() == 0 {
        0
    } else {
        s[0] + seq_sum(s.drop_first())
    }
}

/// Summing distributes over concatenation.
pub proof fn lemma_seq_sum_concat(s1: Seq<i32>, s2: Seq<i32>)
    ensures
        seq_sum(s1 + s2) == seq_sum(s1) + seq_sum(s2),
    decreases s1.len(),
{
    if s1.len() == 0 {
        assert(s1 + s2 =~= s2);
    } else {
        assert((s1 + s2).drop_first() =~= s1.drop_first() + s2);
        lemma_seq_sum_concat(s1.drop_first(), s2);
    }
}

/// Duplicates narrowed to the two halves of one shared buffer carry disjoint
/// parts that together cover it: an aggregate computed over each part, then
/// combined, equals the aggregate computed over the whole buffer at once.
pub proof fn lemma_split_aggregate<O>(
    c: OwningRef<O, Vec<i32>>,
    na: OwningRef<O, Vec<i32>>,
    nb: OwningRef<O, Vec<i32>>,
    mid: int,
)
    requires
        na.spec_owner() == c.spec_owner(),
        nb.spec_owner() == c.spec_owner(),
        0 <= mid <= c.spec_reference()@.len(),
        na.spec_reference()@ == c.spec_reference()@.subrange(0, mid),
        nb.spec_reference()@ == c.spec_reference()@.subrange(
            mid,
            c.spec_reference()@.len() as int,
        ),
    ensures
        seq_sum(na.spec_reference()@) + seq_sum(nb.spec_reference()@) == seq_sum(
            c.spec_reference()@,
        ),
{
    assert(na.spec_reference()@ + nb.spec_reference()@ =~= c.spec_reference()@);
    lemma_seq_sum_concat(na.spec_reference()@, nb.spec_reference()@);
}

} // verus!
