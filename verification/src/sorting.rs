//! Sorting of scalars.

use crate::scalar::Scalar;
use std::cmp::Ordering;
use vstd::prelude::*;

verus! {

/// Whether `a` may stand before `b` in sorted order: numbers stand in the
/// order of their values, the two zeros tie, and every NaN stands after
/// every number and ties with every NaN.
pub open spec fn spec_precedes(a: Scalar, b: Scalar) -> bool {
    if a.spec_is_nan() {
        b.spec_is_nan()
    } else {
        b.spec_is_nan() || a.rank() <= b.rank()
    }
}

/// The order by which scalars are sorted: `Less` where only `a` may stand
/// first, `Greater` where only `b` may, `Equal` on a tie.
pub fn total_order(a: Scalar, b: Scalar) -> (o: Ordering)
    ensures
        o == Ordering::Less <==> !spec_precedes(b, a),
        o == Ordering::Greater <==> !spec_precedes(a, b),
        o == Ordering::Equal <==> spec_precedes(a, b) && spec_precedes(b, a),
{
    if a.is_nan() {
        if b.is_nan() {
            Ordering::Equal
        } else {
            Ordering::Greater
        }
    } else if b.is_nan() {
        Ordering::Less
    } else if a.lt(b) {
        Ordering::Less
    } else if b.lt(a) {
        Ordering::Greater
    } else {
        Ordering::Equal
    }
}

/// `spec_precedes` is a total preorder, as a sort asks of its comparison.
pub proof fn lemma_precedes_is_total_preorder(a: Scalar, b: Scalar, c: Scalar)
    ensures
        spec_precedes(a, a),
        spec_precedes(a, b) || spec_precedes(b, a),
        spec_precedes(a, b) && spec_precedes(b, c) ==> spec_precedes(a, c),
{
}

/// The bits of a sequence of scalars.
pub open spec fn spec_bits_of(items: Seq<Scalar>) -> Seq<u64> {
    Seq::new(items.len(), |i: int| items[i].bits)
}

/// The scalars with the given bits.
pub open spec fn spec_scalars_of(bits: Seq<u64>) -> Seq<Scalar> {
    Seq::new(bits.len(), |i: int| (Scalar { bits: bits[i] }))
}

/// The bits of the given scalars, stably sorted by `total_order`.
pub uninterp spec fn sorted_bits(bits: Seq<u64>) -> Seq<u64>;

/// The given scalars in sorted order.
pub open spec fn spec_sorted(items: Seq<Scalar>) -> Seq<Scalar> {
    spec_scalars_of(sorted_bits(spec_bits_of(items)))
}

/// `slice::sort_by` with `total_order`: afterwards the vector holds the
/// scalars it held before, each as often as before, in ascending order.
/// The result depends on the scalars alone; its bits are named `sorted_bits`.
#[verifier::external_body]
fn sort_by_total_order(items: &mut Vec<Scalar>)
    ensures
        spec_bits_of(final(items)@) == sorted_bits(spec_bits_of(old(items)@)),
        final(items)@.len() == old(items)@.len(),
        final(items)@.to_multiset() == old(items)@.to_multiset(),
        forall|i: int, j: int|
            0 <= i <= j < final(items)@.len() ==> spec_precedes(
                #[trigger] final(items)@[i],
                #[trigger] final(items)@[j],
            ),
{
    items.sort_by(|a, b| total_order(*a, *b));
}

/// Sorts the scalars in ascending order; NaNs come last.
pub fn sort(items: &mut Vec<Scalar>)
    ensures
        final(items)@ == spec_sorted(old(items)@),
        final(items)@.len() == old(items)@.len(),
        final(items)@.to_multiset() == old(items)@.to_multiset(),
        forall|i: int, j: int|
            0 <= i <= j < final(items)@.len() ==> spec_precedes(
                #[trigger] final(items)@[i],
                #[trigger] final(items)@[j],
            ),
{
    sort_by_total_order(items);
    proof {
        let bits = spec_bits_of(items@);
        assert(bits.len() == items@.len());
        assert forall|i: int| 0 <= i < items@.len() implies items@[i] == spec_sorted(old(items)@)[i] by {
            assert(bits[i] == items@[i].bits);
        }
        assert(items@ =~= spec_sorted(old(items)@));
    }
}

} // verus!
