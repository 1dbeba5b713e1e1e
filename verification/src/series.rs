//! The mathematical model: sums of consecutive integers, of the odd ones and of
//! the even ones among them, defined by plain accumulation, together with the
//! closed forms that the range types compute.

use vstd::prelude::*;

verus! {

/// The sum of every integer `i` with `lo <= i < hi`; zero when there is none.
pub open spec fn sum_between(lo: int, hi: int) -> int
    decreases hi - lo,
{
    if lo >= hi {
        0
    } else {
        sum_between(lo, hi - 1) + (hi - 1)
    }
}

/// The sum of every odd integer `i` with `lo <= i < hi`.
pub open spec fn odd_sum_between(lo: int, hi: int) -> int
    decreases hi - lo,
{
    if lo >= hi {
        0
    } else if (hi - 1) % 2 != 0 {
        odd_sum_between(lo, hi - 1) + (hi - 1)
    } else {
        odd_sum_between(lo, hi - 1)
    }
}

/// The sum of every even integer `i` with `lo <= i < hi`.
pub open spec fn even_sum_between(lo: int, hi: int) -> int
    decreases hi - lo,
{
    if lo >= hi {
        0
    } else if (hi - 1) % 2 == 0 {
        even_sum_between(lo, hi - 1) + (hi - 1)
    } else {
        even_sum_between(lo, hi - 1)
    }
}

/// `x` halved and rounded toward negative infinity.
pub open spec fn half_down(x: int) -> int {
    x / 2
}

/// The odd integers between zero and `x`: their sum over `[0, x)` when `x >= 0`,
/// and their sum over `[x, 0)`, negated, when `x < 0`, so that the odd sum of
/// `[lo, hi)` is the value at `hi` less the value at `lo`. It comes to the square
/// of `x` halved.
pub open spec fn odd_sum_from_zero(x: int) -> int {
    half_down(x) * half_down(x)
}

/// The even integers between zero and `x`, summed in the same way as the odd
/// ones in [`odd_sum_from_zero`]. It comes to the product of the halves of
/// `x - 1` and `x + 1`.
pub open spec fn even_sum_from_zero(x: int) -> int {
    half_down(x - 1) * half_down(x + 1)
}

/// Twice the sum of `lo, lo + 1, .., hi - 1` is the number of terms times the
/// sum of the first and the last.
pub proof fn lemma_sum_between_closed_form(lo: int, hi: int)
    requires
        lo <= hi,
    ensures
        2 * sum_between(lo, hi) == (hi + lo - 1) * (hi - lo),
    decreases hi - lo,
{
    if lo < hi {
        lemma_sum_between_closed_form(lo, hi - 1);
        assert((hi + lo - 1) * (hi - lo) == (hi - 1 + lo - 1) * (hi - 1 - lo) + 2 * (hi - 1))
            by (nonlinear_arith);
    } else {
        assert((hi + lo - 1) * (hi - lo) == 0) by (nonlinear_arith)
            requires
                hi - lo == 0,
        ;
    }
}

/// Passing an odd integer raises [`odd_sum_from_zero`] by that integer; passing
/// an even one leaves it unchanged.
pub proof fn lemma_odd_sum_from_zero_step(x: int)
    ensures
        x % 2 != 0 ==> odd_sum_from_zero(x + 1) == odd_sum_from_zero(x) + x,
        x % 2 == 0 ==> odd_sum_from_zero(x + 1) == odd_sum_from_zero(x),
{
    let k = half_down(x);
    if x % 2 != 0 {
        assert(x == 2 * k + 1);
        assert(half_down(x + 1) == k + 1);
        assert((k + 1) * (k + 1) == k * k + (2 * k + 1)) by (nonlinear_arith);
    } else {
        assert(half_down(x + 1) == k);
    }
}

/// Passing an even integer raises [`even_sum_from_zero`] by that integer;
/// passing an odd one leaves it unchanged.
pub proof fn lemma_even_sum_from_zero_step(x: int)
    ensures
        x % 2 == 0 ==> even_sum_from_zero(x + 1) == even_sum_from_zero(x) + x,
        x % 2 != 0 ==> even_sum_from_zero(x + 1) == even_sum_from_zero(x),
{
    let k = half_down(x);
    if x % 2 == 0 {
        assert(x == 2 * k);
        assert(half_down(x - 1) == k - 1);
        assert(half_down(x + 1) == k);
        assert(half_down(x + 2) == k + 1);
        assert(k * (k + 1) == (k - 1) * k + 2 * k) by (nonlinear_arith);
    } else {
        assert(x == 2 * k + 1);
        assert(half_down(x - 1) == k);
        assert(half_down(x + 1) == k + 1);
        assert(half_down(x + 2) == k + 1);
    }
}

/// The odd integers of `[lo, hi)` sum to the difference of two squares of halves.
pub proof fn lemma_odd_sum_between_closed_form(lo: int, hi: int)
    requires
        lo <= hi,
    ensures
        odd_sum_between(lo, hi) == odd_sum_from_zero(hi) - odd_sum_from_zero(lo),
    decreases hi - lo,
{
    if lo < hi {
        lemma_odd_sum_between_closed_form(lo, hi - 1);
        lemma_odd_sum_from_zero_step(hi - 1);
    }
}

/// The even integers of `[lo, hi)` sum to the difference of their signed sums
/// from zero.
pub proof fn lemma_even_sum_between_closed_form(lo: int, hi: int)
    requires
        lo <= hi,
    ensures
        even_sum_between(lo, hi) == even_sum_from_zero(hi) - even_sum_from_zero(lo),
    decreases hi - lo,
{
    if lo < hi {
        lemma_even_sum_between_closed_form(lo, hi - 1);
        lemma_even_sum_from_zero_step(hi - 1);
    }
}

/// Every integer is odd or even and not both: the odd and the even integers of
/// a range sum to the sum of the whole range.
pub proof fn lemma_odd_and_even_partition(lo: int, hi: int)
    ensures
        even_sum_between(lo, hi) + odd_sum_between(lo, hi) == sum_between(lo, hi),
    decreases hi - lo,
{
    if lo < hi {
        lemma_odd_and_even_partition(lo, hi - 1);
    }
}

/// The square of an odd integer is one more than four times the product of its
/// half and the next integer.
pub proof fn lemma_odd_square(m: int)
    requires
        m % 2 != 0,
    ensures
        m * m >= 1,
        (m * m) / 4 == half_down(m) * (half_down(m) + 1),
        (m * m - 1) / 4 == half_down(m) * (half_down(m) + 1),
{
    let k = half_down(m);
    assert(m == 2 * k + 1);
    assert(m * m == 4 * (k * (k + 1)) + 1) by (nonlinear_arith)
        requires
            m == 2 * k + 1,
    ;
    assert(k * (k + 1) >= 0) by (nonlinear_arith);
}

/// [`even_sum_from_zero`] is what its name says: the even integers of `[0, x)`
/// summed, or those of `[x, 0)` summed and negated.
pub proof fn lemma_even_sum_from_zero(x: int)
    ensures
        even_sum_from_zero(x) == even_sum_between(0, x) - even_sum_between(x, 0),
{
    assert(half_down(1) == 0);
    if x >= 0 {
        lemma_even_sum_between_closed_form(0, x);
    } else {
        lemma_even_sum_between_closed_form(x, 0);
    }
}

/// [`odd_sum_from_zero`] is what its name says: the odd integers of `[0, x)`
/// summed, or those of `[x, 0)` summed and negated.
pub proof fn lemma_odd_sum_from_zero(x: int)
    ensures
        odd_sum_from_zero(x) == odd_sum_between(0, x) - odd_sum_between(x, 0),
{
    assert(half_down(0) == 0);
    if x >= 0 {
        lemma_odd_sum_between_closed_form(0, x);
    } else {
        lemma_odd_sum_between_closed_form(x, 0);
    }
}

} // verus!
