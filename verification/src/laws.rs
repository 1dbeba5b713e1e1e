//! What holds of every range, whatever its type and shape.

use vstd::prelude::*;
use core::ops::Range;
use core::ops::RangeInclusive;
use crate::integral::Integral;
use crate::range_sums::SumRange;
use crate::series::even_sum_between;
use crate::series::lemma_odd_and_even_partition;
use crate::series::odd_sum_between;
use crate::series::sum_between;

verus! {

/// A range without members sums to zero, and so do its odd and its even
/// members.
pub proof fn lemma_empty_range<T: Integral, R: SumRange<T>>(range: R)
    requires
        range.lower_bound() >= range.upper_bound(),
    ensures
        sum_between(range.lower_bound(), range.upper_bound()) == 0,
        odd_sum_between(range.lower_bound(), range.upper_bound()) == 0,
        even_sum_between(range.lower_bound(), range.upper_bound()) == 0,
{
}

/// The sum of the even members of a range and the sum of its odd members add up
/// to the sum of the range.
pub proof fn lemma_partition<T: Integral, R: SumRange<T>>(range: R)
    ensures
        even_sum_between(range.lower_bound(), range.upper_bound()) + odd_sum_between(
            range.lower_bound(),
            range.upper_bound(),
        ) == sum_between(range.lower_bound(), range.upper_bound()),
{
    lemma_odd_and_even_partition(range.lower_bound(), range.upper_bound());
}

/// What the three methods return on one range: the even and the odd total add
/// up to the total.
pub proof fn lemma_totals_partition<T: Integral, R: SumRange<T>>(
    range: R,
    total: T,
    odd_total: T,
    even_total: T,
)
    requires
        total.value() == sum_between(range.lower_bound(), range.upper_bound()),
        odd_total.value() == odd_sum_between(range.lower_bound(), range.upper_bound()),
        even_total.value() == even_sum_between(range.lower_bound(), range.upper_bound()),
    ensures
        even_total.value() + odd_total.value() == total.value(),
{
    lemma_partition::<T, R>(range);
}

/// `start..=end` and `start..next`, where `next` is `end + 1`, have the same
/// members: the same total, odd total and even total.
pub proof fn lemma_closed_is_half_open<T: Integral>(closed: RangeInclusive<T>, half_open: Range<T>)
    requires
        half_open.start == closed@.start,
        half_open.end.value() == closed@.end.value() + 1,
    ensures
        closed.lower_bound() == half_open.lower_bound(),
        closed.upper_bound() == half_open.upper_bound(),
        sum_between(closed.lower_bound(), closed.upper_bound()) == sum_between(
            half_open.lower_bound(),
            half_open.upper_bound(),
        ),
        odd_sum_between(closed.lower_bound(), closed.upper_bound()) == odd_sum_between(
            half_open.lower_bound(),
            half_open.upper_bound(),
        ),
        even_sum_between(closed.lower_bound(), closed.upper_bound()) == even_sum_between(
            half_open.lower_bound(),
            half_open.upper_bound(),
        ),
{
}

/// What `sum_range` returns on `start..=end` and on `start..next`, where `next`
/// is `end + 1`, is one and the same value.
pub proof fn lemma_closed_total_is_half_open_total<T: Integral>(
    closed: RangeInclusive<T>,
    half_open: Range<T>,
    closed_total: T,
    half_open_total: T,
)
    requires
        half_open.start == closed@.start,
        half_open.end.value() == closed@.end.value() + 1,
        closed_total.value() == sum_between(closed.lower_bound(), closed.upper_bound()),
        half_open_total.value() == sum_between(half_open.lower_bound(), half_open.upper_bound()),
    ensures
        closed_total == half_open_total,
{
    closed_total.lemma_same(half_open_total);
}

} // verus!
