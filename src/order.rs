use vstd::prelude::*;
use std::cmp::Ordering;

verus! {

/// The ordering of two scalars under a tolerance: two scalars within the
/// tolerance of one another are `Equal`; any others keep the ordering of
/// their underlying numbers, which is `None` where the numbers are unordered.
pub open spec fn tolerant_order(within_tolerance: bool, natural: Option<Ordering>) -> Option<Ordering> {
    if within_tolerance {
        Some(Ordering::Equal)
    } else {
        natural
    }
}

/// Combines the tolerance test of two scalars with the natural ordering of
/// their values.
pub fn tolerant_cmp(within_tolerance: bool, natural: Option<Ordering>) -> (r: Option<Ordering>)
    ensures
        r == tolerant_order(within_tolerance, natural),
{
    if within_tolerance {
        Some(Ordering::Equal)
    } else {
        natural
    }
}

/// Scalars within the tolerance never compare as less or greater.
pub proof fn lemma_within_tolerance_is_equal(natural: Option<Ordering>)
    ensures
        tolerant_order(true, natural) == Some(Ordering::Equal),
{
}

/// Scalars outside the tolerance compare as `Equal` only where their values do.
pub proof fn lemma_outside_tolerance_is_natural(natural: Option<Ordering>)
    ensures
        tolerant_order(false, natural) == natural,
        tolerant_order(false, natural) == Some(Ordering::Equal) <==> natural == Some(Ordering::Equal),
{
}

} // verus!
