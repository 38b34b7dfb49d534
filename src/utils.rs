use vstd::prelude::*;
use core::cmp::Ordering;
use vstd::laws_cmp::{obeys_cmp, obeys_cmp_partial_ord, obeys_partial_cmp_spec_properties};
use vstd::laws_eq::obeys_concrete_eq;
use vstd::std_specs::cmp::{PartialEqSpec, PartialOrdSpec};

verus! {

/// The integer `v` limited to `[low, high]`.
pub open spec fn clamp_of(v: int, low: int, high: int) -> int {
    if v < low {
        low
    } else if v > high {
        high
    } else {
        v
    }
}

/// `val` limited to `[low, high]` under the order that `T`'s comparison specifies.
pub open spec fn clamp_result<T: Ord>(val: T, low: T, high: T) -> T {
    if val.partial_cmp_spec(&low) == Some(Ordering::Less) {
        low
    } else if val.partial_cmp_spec(&high) == Some(Ordering::Greater) {
        high
    } else {
        val
    }
}

/// Limits `val` to `[low, high]`: `low` below it, `high` above it, `val` itself between.
pub fn clamp_generic<T: Ord>(val: T, low: T, high: T) -> (r: T)
    ensures
        T::obeys_partial_cmp_spec() ==> r == clamp_result(val, low, high),
{
    if val < low {
        low
    } else if val > high {
        high
    } else {
        val
    }
}

/// Clamping to a non-empty interval lands inside it (never below `low`, never
/// above `high`), and clamping the result again changes nothing; this holds
/// for every type whose comparison is a lawful total order and whose
/// equality is identity.
pub proof fn clamp_in_bounds_and_idempotent<T: Ord>(val: T, low: T, high: T)
    requires
        obeys_cmp::<T>(),
        obeys_concrete_eq::<T>(),
        low.partial_cmp_spec(&high) != Some(Ordering::Greater),
    ensures
        T::obeys_partial_cmp_spec(),
        clamp_result(val, low, high).partial_cmp_spec(&low) != Some(Ordering::Less),
        clamp_result(val, low, high).partial_cmp_spec(&high) != Some(Ordering::Greater),
        clamp_result(clamp_result(val, low, high), low, high) == clamp_result(val, low, high),
{
    reveal(obeys_partial_cmp_spec_properties);
    reveal(obeys_cmp_partial_ord);
    reveal(obeys_concrete_eq);
    assert(low.eq_spec(&low));
    assert(high.eq_spec(&high));
    assert(low.partial_cmp_spec(&low) == Some(Ordering::Equal));
    assert(high.partial_cmp_spec(&high) == Some(Ordering::Equal));
    if high.partial_cmp_spec(&low) == Some(Ordering::Less) {
        assert(low.partial_cmp_spec(&high) == Some(Ordering::Greater));
    }
}

} // verus!
