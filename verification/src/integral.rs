//! The primitive integer types as the range sums see them: a mathematical value,
//! two limits, and the operators of `core::ops` with what each of them returns.

use vstd::prelude::*;
use vstd::std_specs::cmp::PartialEqSpec;
use vstd::std_specs::cmp::PartialOrdIs;
use vstd::std_specs::cmp::PartialOrdSpec;
use vstd::std_specs::ops::AddSpec;
use vstd::std_specs::ops::DivSpec;
use vstd::std_specs::ops::MulSpec;
use vstd::std_specs::ops::RemSpec;
use vstd::std_specs::ops::SubSpec;
use core::ops::Add;
use core::ops::Div;
use core::ops::Mul;
use core::ops::Rem;
use core::ops::Sub;

verus! {

/// `a / b` as the integer types divide: rounded toward zero.
pub open spec fn quotient_toward_zero(a: int, b: int) -> int {
    if a >= 0 {
        a / b
    } else {
        -((-a) / b)
    }
}

/// `a % b` as the integer types take it: with the sign of `a`.
pub open spec fn remainder_toward_zero(a: int, b: int) -> int {
    if a >= 0 {
        a % b
    } else {
        -((-a) % b)
    }
}

/// Whether `T` can hold `x`.
pub open spec fn fits<T: Integral>(x: int) -> bool {
    T::lowest() <= x <= T::highest()
}

/// A fixed-width integer type whose arithmetic is that of the mathematical
/// integers as long as every result fits.
///
/// The operators are those of `core::ops` and `core::cmp`; the proof functions
/// say when each may be applied and what it then returns.
pub trait Integral: Copy + Add<Output = Self> + Sub<Output = Self> + Mul<Output = Self> + Div<
    Output = Self,
> + Rem<Output = Self> + PartialOrd {
    /// The integer that `self` holds.
    spec fn value(self) -> int;

    /// The smallest value of the type.
    spec fn lowest() -> int;

    /// The largest value of the type.
    spec fn highest() -> int;

    /// Every type holds at least the integers from 0 to 127.
    proof fn lemma_limits()
        ensures
            Self::lowest() <= 0,
            127 <= Self::highest(),
    ;

    /// Every value lies within the limits of its type.
    proof fn lemma_bounded(self)
        ensures
            Self::lowest() <= self.value() <= Self::highest(),
    ;

    /// `==` compares the values, and equal values are the same.
    proof fn lemma_same(self, rhs: Self)
        ensures
            Self::obeys_eq_spec(),
            self.eq_spec(&rhs) <==> self.value() == rhs.value(),
            self.value() == rhs.value() ==> self == rhs,
    ;

    /// `<`, `<=`, `>` and `>=` compare the values.
    proof fn lemma_order(self, rhs: Self)
        ensures
            Self::obeys_partial_cmp_spec(),
            self.is_lt(&rhs) <==> self.value() < rhs.value(),
            self.is_le(&rhs) <==> self.value() <= rhs.value(),
            self.is_gt(&rhs) <==> self.value() > rhs.value(),
            self.is_ge(&rhs) <==> self.value() >= rhs.value(),
    ;

    /// `self + rhs` may be computed when the sum fits, and is the sum.
    proof fn lemma_sum(self, rhs: Self)
        requires
            Self::lowest() <= self.value() + rhs.value() <= Self::highest(),
        ensures
            Self::obeys_add_spec(),
            self.add_req(rhs),
            self.add_spec(rhs).value() == self.value() + rhs.value(),
    ;

    /// `self - rhs` may be computed when the difference fits, and is the
    /// difference.
    proof fn lemma_difference(self, rhs: Self)
        requires
            Self::lowest() <= self.value() - rhs.value() <= Self::highest(),
        ensures
            Self::obeys_sub_spec(),
            self.sub_req(rhs),
            self.sub_spec(rhs).value() == self.value() - rhs.value(),
    ;

    /// `self * rhs` may be computed when the product fits, and is the product.
    proof fn lemma_product(self, rhs: Self)
        requires
            Self::lowest() <= self.value() * rhs.value() <= Self::highest(),
        ensures
            Self::obeys_mul_spec(),
            self.mul_req(rhs),
            self.mul_spec(rhs).value() == self.value() * rhs.value(),
    ;

    /// `self / rhs` may be computed for a positive `rhs`, and is the quotient
    /// rounded toward zero.
    proof fn lemma_quotient(self, rhs: Self)
        requires
            rhs.value() > 0,
        ensures
            Self::obeys_div_spec(),
            self.div_req(rhs),
            self.div_spec(rhs).value() == quotient_toward_zero(self.value(), rhs.value()),
    ;

    /// `self % rhs` may be computed for a positive `rhs`, and is the remainder
    /// with the sign of `self`.
    proof fn lemma_remainder(self, rhs: Self)
        requires
            rhs.value() > 0,
        ensures
            Self::obeys_rem_spec(),
            self.rem_req(rhs),
            self.rem_spec(rhs).value() == remainder_toward_zero(self.value(), rhs.value()),
    ;

    /// The value `n` in this type, which has to hold it.
    fn literal(n: u8) -> (r: Self)
        requires
            n <= Self::highest(),
        ensures
            r.value() == n,
    ;
}

/// An [`Integral`] type without negative values.
pub trait UnsignedIntegral: Integral {
    /// The smallest value of an unsigned type is zero.
    proof fn lemma_lowest_is_zero()
        ensures
            Self::lowest() == 0,
    ;
}

} // verus!
