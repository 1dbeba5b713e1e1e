//! [`SumRange`]: the sum of a range of integers, of its odd and of its even
//! members, each from a closed form.

use vstd::prelude::*;
use vstd::std_specs::ops::AddSpec;
use vstd::std_specs::ops::DivSpec;
use vstd::std_specs::ops::MulSpec;
use vstd::std_specs::ops::RemSpec;
use vstd::std_specs::ops::SubSpec;
use core::ops::Range;
use core::ops::RangeInclusive;
use core::ops::RangeTo;
use core::ops::RangeToInclusive;
use crate::integral::fits;
use crate::integral::Integral;
use crate::integral::UnsignedIntegral;
use crate::series::even_sum_between;
use crate::series::lemma_even_sum_between_closed_form;
use crate::series::lemma_even_sum_from_zero;
use crate::series::lemma_odd_square;
use crate::series::lemma_odd_sum_between_closed_form;
use crate::series::lemma_odd_sum_from_zero;
use crate::series::lemma_sum_between_closed_form;
use crate::series::half_down;
use crate::series::odd_sum_between;
use crate::series::sum_between;

verus! {

/// The sums of a range of integers of type `T`.
///
/// All arithmetic is done in `T`. Each method asks that the values it computes
/// on the way fit in `T`; what they are is said by the `_fits` function of the
/// range type at hand.
pub trait SumRange<T: Integral> {
    /// The first integer of the range.
    spec fn lower_bound(&self) -> int;

    /// The integer after the last one of the range.
    spec fn upper_bound(&self) -> int;

    /// Whether every value that `sum_range` computes fits in `T`.
    spec fn sum_range_fits(&self) -> bool;

    /// Whether every value that `sum_odd_range` computes fits in `T`.
    spec fn sum_odd_range_fits(&self) -> bool;

    /// Whether every value that `sum_even_range` computes fits in `T`.
    spec fn sum_even_range_fits(&self) -> bool;

    /// The sum of the numbers in the range.
    fn sum_range(&self) -> (total: T)
        requires
            self.sum_range_fits(),
        ensures
            total.value() == sum_between(self.lower_bound(), self.upper_bound()),
            self.lower_bound() >= self.upper_bound() ==> total.value() == 0,
    ;

    /// The sum of the odd numbers in the range.
    fn sum_odd_range(&self) -> (total: T)
        requires
            self.sum_odd_range_fits(),
        ensures
            total.value() == odd_sum_between(self.lower_bound(), self.upper_bound()),
            self.lower_bound() >= self.upper_bound() ==> total.value() == 0,
    ;

    /// The sum of the even numbers in the range.
    fn sum_even_range(&self) -> (total: T)
        requires
            self.sum_even_range_fits(),
        ensures
            total.value() == even_sum_between(self.lower_bound(), self.upper_bound()),
            self.lower_bound() >= self.upper_bound() ==> total.value() == 0,
    ;
}

/// Whether every value that [`sum_even_range_to`] computes for `end` fits in
/// `T`: for an even `end` other than zero `end - 1` and its square, for an odd
/// one the square of `end`.
pub open spec fn sum_even_range_to_fits<T: Integral>(end: int) -> bool {
    if end == 0 {
        true
    } else if end % 2 == 0 {
        fits::<T>(end - 1) && fits::<T>((end - 1) * (end - 1))
    } else {
        fits::<T>(end * end)
    }
}

/// The even numbers between zero and `end`: those of `[0, end)` summed, or, for
/// a negative `end`, those of `[end, 0)` summed and negated.
pub fn sum_even_range_to<T: Integral>(end: T) -> (sum: T)
    requires
        sum_even_range_to_fits::<T>(end.value()),
    ensures
        sum.value() == even_sum_between(0, end.value()) - even_sum_between(end.value(), 0),
{
    proof {
        T::lemma_limits();
    }
    let zero = T::literal(0);
    proof {
        zero.lemma_same(end);
        lemma_even_sum_from_zero(end.value());
    }
    if zero == end {
        return zero;
    }
    let one = T::literal(1);
    let two = T::literal(2);
    let four = T::literal(4);
    proof {
        let e = end.value();
        end.lemma_remainder(two);
        end.rem_spec(two).lemma_same(zero);
        if e % 2 == 0 {
            end.lemma_difference(one);
            let m = end.sub_spec(one);
            m.lemma_product(m);
            m.mul_spec(m).lemma_quotient(four);
            lemma_odd_square(e - 1);
        } else {
            end.lemma_product(end);
            let q = end.mul_spec(end);
            lemma_odd_square(e);
            q.lemma_difference(one);
            q.sub_spec(one).lemma_quotient(four);
        }
    }
    (if end % two == zero {
        (end - one) * (end - one)
    } else {
        end * end - one
    }) / four
}

impl<T: Integral> SumRange<T> for Range<T> {
    open spec fn lower_bound(&self) -> int {
        self.start.value()
    }

    open spec fn upper_bound(&self) -> int {
        self.end.value()
    }

    /// For a range that is not empty: `end + start`, that less one,
    /// `end - start`, and the product of the last two.
    open spec fn sum_range_fits(&self) -> bool {
        let start = self.start.value();
        let end = self.end.value();
        start < end ==> {
            &&& fits::<T>(end + start)
            &&& fits::<T>(end + start - 1)
            &&& fits::<T>(end - start)
            &&& fits::<T>((end + start - 1) * (end - start))
        }
    }

    /// For `start <= end`: one less than each negative bound, the squares of
    /// the halved bounds, and the difference of the squares.
    open spec fn sum_odd_range_fits(&self) -> bool {
        let start = self.start.value();
        let end = self.end.value();
        start <= end ==> {
            &&& end < 0 ==> fits::<T>(end - 1)
            &&& start < 0 ==> fits::<T>(start - 1)
            &&& fits::<T>(half_down(end) * half_down(end))
            &&& fits::<T>(half_down(start) * half_down(start))
            &&& fits::<T>(half_down(end) * half_down(end) - half_down(start) * half_down(start))
        }
    }

    /// For a range that is not empty: for an even `end`, `end - 1` and its
    /// square, for an odd one the square of `end`; what [`sum_even_range_to`]
    /// computes for `start`; and the difference of the two results.
    open spec fn sum_even_range_fits(&self) -> bool {
        let start = self.start.value();
        let end = self.end.value();
        start < end ==> {
            &&& if end % 2 == 0 {
                fits::<T>(end - 1) && fits::<T>((end - 1) * (end - 1))
            } else {
                fits::<T>(end * end)
            }
            &&& sum_even_range_to_fits::<T>(start)
            &&& fits::<T>(even_sum_between(start, end))
        }
    }

    fn sum_range(&self) -> (total: T) {
        proof {
            T::lemma_limits();
            self.start.lemma_order(self.end);
        }
        if self.start >= self.end {
            return T::literal(0);
        }
        let one = T::literal(1);
        let two = T::literal(2);
        proof {
            self.end.lemma_sum(self.start);
            let a = self.end.add_spec(self.start);
            a.lemma_difference(one);
            self.end.lemma_difference(self.start);
            let b = a.sub_spec(one);
            let c = self.end.sub_spec(self.start);
            b.lemma_product(c);
            b.mul_spec(c).lemma_quotient(two);
            lemma_sum_between_closed_form(self.start.value(), self.end.value());
        }
        (self.end + self.start - one) * (self.end - self.start) / two
    }

    fn sum_odd_range(&self) -> (total: T) {
        proof {
            T::lemma_limits();
            self.start.lemma_order(self.end);
        }
        if self.start > self.end {
            return T::literal(0);
        }
        let zero = T::literal(0);
        let one = T::literal(1);
        let two = T::literal(2);
        proof {
            self.end.lemma_order(zero);
            if self.end.value() >= 0 {
                self.end.lemma_quotient(two);
            } else {
                self.end.lemma_difference(one);
                self.end.sub_spec(one).lemma_quotient(two);
            }
        }
        let tmp_end = if self.end >= zero {
            self.end
        } else {
            self.end - one
        } / two;
        proof {
            self.start.lemma_order(zero);
            if self.start.value() >= 0 {
                self.start.lemma_quotient(two);
            } else {
                self.start.lemma_difference(one);
                self.start.sub_spec(one).lemma_quotient(two);
            }
        }
        let tmp_start = if self.start >= zero {
            self.start
        } else {
            self.start - one
        } / two;
        proof {
            assert(tmp_end.value() == half_down(self.end.value()));
            assert(tmp_start.value() == half_down(self.start.value()));
            tmp_end.lemma_product(tmp_end);
            tmp_start.lemma_product(tmp_start);
            tmp_end.mul_spec(tmp_end).lemma_difference(tmp_start.mul_spec(tmp_start));
            lemma_odd_sum_between_closed_form(self.start.value(), self.end.value());
        }
        tmp_end * tmp_end - tmp_start * tmp_start
    }

    fn sum_even_range(&self) -> (total: T) {
        proof {
            T::lemma_limits();
            self.start.lemma_order(self.end);
        }
        if self.start >= self.end {
            return T::literal(0);
        }
        let zero = T::literal(0);
        let one = T::literal(1);
        let two = T::literal(2);
        let four = T::literal(4);
        proof {
            let e = self.end.value();
            self.end.lemma_remainder(two);
            self.end.rem_spec(two).lemma_same(zero);
            if e % 2 == 0 {
                self.end.lemma_difference(one);
                let m = self.end.sub_spec(one);
                m.lemma_product(m);
                m.mul_spec(m).lemma_quotient(four);
                lemma_odd_square(e - 1);
            } else {
                self.end.lemma_product(self.end);
                self.end.mul_spec(self.end).lemma_quotient(four);
                lemma_odd_square(e);
            }
        }
        let upto_end = (if self.end % two == zero {
            (self.end - one) * (self.end - one)
        } else {
            self.end * self.end
        }) / four;
        let upto_start = sum_even_range_to(self.start);
        proof {
            lemma_even_sum_from_zero(self.start.value());
            lemma_even_sum_between_closed_form(self.start.value(), self.end.value());
            upto_end.lemma_difference(upto_start);
        }
        upto_end - upto_start
    }
}

impl<T: Integral> SumRange<T> for RangeInclusive<T> {
    open spec fn lower_bound(&self) -> int {
        self@.start.value()
    }

    open spec fn upper_bound(&self) -> int {
        self@.end.value() + 1
    }

    /// For `start <= end`: `end + start`, `end - start`, that plus one, and
    /// the product of the first and the last.
    open spec fn sum_range_fits(&self) -> bool {
        let start = self@.start.value();
        let end = self@.end.value();
        start <= end ==> {
            &&& fits::<T>(end + start)
            &&& fits::<T>(end - start)
            &&& fits::<T>(end - start + 1)
            &&& fits::<T>((end + start) * (end - start + 1))
        }
    }

    /// For `start <= end`: `end + 1` unless `end` is negative, `start - 1` if
    /// `start` is negative, the sum and the difference of the halves, and
    /// their product.
    open spec fn sum_odd_range_fits(&self) -> bool {
        let start = self@.start.value();
        let end = self@.end.value();
        start <= end ==> {
            &&& end >= 0 ==> fits::<T>(end + 1)
            &&& start < 0 ==> fits::<T>(start - 1)
            &&& fits::<T>(half_down(end + 1) + half_down(start))
            &&& fits::<T>(half_down(end + 1) - half_down(start))
            &&& fits::<T>(
                (half_down(end + 1) + half_down(start)) * (half_down(end + 1) - half_down(start)),
            )
        }
    }

    /// For `start <= end`: for an even `end`, `end + 1` and its square, for an
    /// odd one the square of `end`; what [`sum_even_range_to`] computes for
    /// `start`; and the difference of the two results.
    open spec fn sum_even_range_fits(&self) -> bool {
        let start = self@.start.value();
        let end = self@.end.value();
        start <= end ==> {
            &&& if end % 2 == 0 {
                fits::<T>(end + 1) && fits::<T>((end + 1) * (end + 1))
            } else {
                fits::<T>(end * end)
            }
            &&& sum_even_range_to_fits::<T>(start)
            &&& fits::<T>(even_sum_between(start, end + 1))
        }
    }

    fn sum_range(&self) -> (total: T) {
        proof {
            T::lemma_limits();
            self@.start.lemma_order(self@.end);
        }
        if self.start() > self.end() {
            return T::literal(0);
        }
        let start = *self.start();
        let end = *self.end();
        let one = T::literal(1);
        let two = T::literal(2);
        proof {
            end.lemma_sum(start);
            end.lemma_difference(start);
            let a = end.add_spec(start);
            let b = end.sub_spec(start);
            b.lemma_sum(one);
            let c = b.add_spec(one);
            a.lemma_product(c);
            a.mul_spec(c).lemma_quotient(two);
            lemma_sum_between_closed_form(start.value(), end.value() + 1);
        }
        (end + start) * (end - start + one) / two
    }

    fn sum_odd_range(&self) -> (total: T) {
        proof {
            T::lemma_limits();
            self@.start.lemma_order(self@.end);
        }
        if self.start() > self.end() {
            return T::literal(0);
        }
        let start = *self.start();
        let end = *self.end();
        let zero = T::literal(0);
        let one = T::literal(1);
        let two = T::literal(2);
        proof {
            end.lemma_order(zero);
            if end.value() >= 0 {
                end.lemma_sum(one);
                end.add_spec(one).lemma_quotient(two);
            } else {
                end.lemma_quotient(two);
            }
        }
        let tmp_end = if end >= zero {
            end + one
        } else {
            end
        } / two;
        proof {
            start.lemma_order(zero);
            if start.value() >= 0 {
                start.lemma_quotient(two);
            } else {
                start.lemma_difference(one);
                start.sub_spec(one).lemma_quotient(two);
            }
        }
        let tmp_start = if start >= zero {
            start
        } else {
            start - one
        } / two;
        proof {
            let he = half_down(end.value() + 1);
            let hs = half_down(start.value());
            assert(tmp_end.value() == he);
            assert(tmp_start.value() == hs);
            tmp_end.lemma_sum(tmp_start);
            tmp_end.lemma_difference(tmp_start);
            tmp_end.add_spec(tmp_start).lemma_product(tmp_end.sub_spec(tmp_start));
            lemma_odd_sum_between_closed_form(start.value(), end.value() + 1);
            assert((he + hs) * (he - hs) == he * he - hs * hs) by (nonlinear_arith);
        }
        (tmp_end + tmp_start) * (tmp_end - tmp_start)
    }

    fn sum_even_range(&self) -> (total: T) {
        proof {
            T::lemma_limits();
            self@.start.lemma_order(self@.end);
        }
        if self.start() > self.end() {
            return T::literal(0);
        }
        let end = *self.end();
        let start = *self.start();
        let zero = T::literal(0);
        let one = T::literal(1);
        let two = T::literal(2);
        let four = T::literal(4);
        proof {
            let e = end.value();
            end.lemma_remainder(two);
            end.rem_spec(two).lemma_same(zero);
            if e % 2 == 0 {
                end.lemma_sum(one);
                let m = end.add_spec(one);
                m.lemma_product(m);
                m.mul_spec(m).lemma_quotient(four);
                lemma_odd_square(e + 1);
            } else {
                end.lemma_product(end);
                end.mul_spec(end).lemma_quotient(four);
                lemma_odd_square(e);
            }
        }
        let upto_end = (if end % two == zero {
            (end + one) * (end + one)
        } else {
            end * end
        }) / four;
        let upto_start = sum_even_range_to(start);
        proof {
            lemma_even_sum_from_zero(start.value());
            lemma_even_sum_between_closed_form(start.value(), end.value() + 1);
            upto_end.lemma_difference(upto_start);
        }
        upto_end - upto_start
    }
}

impl<T: UnsignedIntegral> SumRange<T> for RangeTo<T> {
    open spec fn lower_bound(&self) -> int {
        0
    }

    open spec fn upper_bound(&self) -> int {
        self.end.value()
    }

    /// Unless `end` is zero: the product of `end - 1` and `end`.
    open spec fn sum_range_fits(&self) -> bool {
        let end = self.end.value();
        end != 0 ==> fits::<T>((end - 1) * end)
    }

    /// The square of `end` halved.
    open spec fn sum_odd_range_fits(&self) -> bool {
        let end = self.end.value();
        fits::<T>(half_down(end) * half_down(end))
    }

    /// What [`sum_even_range_to`] computes for `end`.
    open spec fn sum_even_range_fits(&self) -> bool {
        sum_even_range_to_fits::<T>(self.end.value())
    }

    fn sum_range(&self) -> (total: T) {
        proof {
            T::lemma_limits();
        }
        let start = T::literal(0);
        proof {
            T::lemma_lowest_is_zero();
            self.end.lemma_bounded();
            start.lemma_same(self.end);
        }
        if start == self.end {
            return T::literal(0);
        }
        let one = T::literal(1);
        let two = T::literal(2);
        proof {
            self.end.lemma_difference(one);
            let a = self.end.sub_spec(one);
            a.lemma_product(self.end);
            a.mul_spec(self.end).lemma_quotient(two);
            lemma_sum_between_closed_form(0, self.end.value());
        }
        ((self.end - one) * self.end) / two
    }

    fn sum_odd_range(&self) -> (total: T) {
        proof {
            T::lemma_limits();
        }
        let two = T::literal(2);
        proof {
            T::lemma_lowest_is_zero();
            self.end.lemma_bounded();
            self.end.lemma_quotient(two);
            let h = self.end.div_spec(two);
            h.lemma_product(h);
            lemma_odd_sum_from_zero(self.end.value());
        }
        let tmp = self.end / two;
        tmp * tmp
    }

    fn sum_even_range(&self) -> (total: T) {
        proof {
            T::lemma_lowest_is_zero();
            self.end.lemma_bounded();
        }
        sum_even_range_to(self.end)
    }
}

impl<T: UnsignedIntegral> SumRange<T> for RangeToInclusive<T> {
    open spec fn lower_bound(&self) -> int {
        0
    }

    open spec fn upper_bound(&self) -> int {
        self.end.value() + 1
    }

    /// `end + 1`, and the product of `end` and that.
    open spec fn sum_range_fits(&self) -> bool {
        let end = self.end.value();
        fits::<T>(end + 1) && fits::<T>(end * (end + 1))
    }

    /// `end + 1`, and the square of its half.
    open spec fn sum_odd_range_fits(&self) -> bool {
        let end = self.end.value();
        fits::<T>(end + 1) && fits::<T>(half_down(end + 1) * half_down(end + 1))
    }

    /// For an even `end`, `end + 1` and its square; for an odd one the square
    /// of `end`.
    open spec fn sum_even_range_fits(&self) -> bool {
        let end = self.end.value();
        if end % 2 == 0 {
            fits::<T>(end + 1) && fits::<T>((end + 1) * (end + 1))
        } else {
            fits::<T>(end * end)
        }
    }

    fn sum_range(&self) -> (total: T) {
        proof {
            T::lemma_limits();
        }
        let one = T::literal(1);
        let two = T::literal(2);
        proof {
            T::lemma_lowest_is_zero();
            self.end.lemma_bounded();
            self.end.lemma_sum(one);
            let a = self.end.add_spec(one);
            self.end.lemma_product(a);
            self.end.mul_spec(a).lemma_quotient(two);
            lemma_sum_between_closed_form(0, self.end.value() + 1);
        }
        self.end * (self.end + one) / two
    }

    fn sum_odd_range(&self) -> (total: T) {
        proof {
            T::lemma_limits();
        }
        let one = T::literal(1);
        let two = T::literal(2);
        proof {
            T::lemma_lowest_is_zero();
            self.end.lemma_bounded();
            self.end.lemma_sum(one);
            let a = self.end.add_spec(one);
            a.lemma_quotient(two);
            let h = a.div_spec(two);
            h.lemma_product(h);
            lemma_odd_sum_from_zero(self.end.value() + 1);
        }
        let tmp = (self.end + one) / two;
        tmp * tmp
    }

    fn sum_even_range(&self) -> (total: T) {
        proof {
            T::lemma_limits();
        }
        let zero = T::literal(0);
        let one = T::literal(1);
        let two = T::literal(2);
        let four = T::literal(4);
        proof {
            let e = self.end.value();
            T::lemma_lowest_is_zero();
            self.end.lemma_bounded();
            self.end.lemma_remainder(two);
            self.end.rem_spec(two).lemma_same(zero);
            if e % 2 == 0 {
                self.end.lemma_sum(one);
                let m = self.end.add_spec(one);
                m.lemma_product(m);
                m.mul_spec(m).lemma_quotient(four);
                lemma_odd_square(e + 1);
            } else {
                self.end.lemma_product(self.end);
                self.end.mul_spec(self.end).lemma_quotient(four);
                lemma_odd_square(e);
            }
            lemma_even_sum_from_zero(e + 1);
        }
        (if self.end % two == zero {
            (self.end + one) * (self.end + one)
        } else {
            self.end * self.end
        }) / four
    }
}

} // verus!
