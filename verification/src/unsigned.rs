//! [`Integral`] and [`UnsignedIntegral`] for the unsigned primitive types.

use vstd::prelude::*;
use num_convert::IntoAs;
use crate::integral::Integral;
use crate::integral::UnsignedIntegral;

verus! {

impl Integral for u8 {
    open spec fn value(self) -> int {
        self as int
    }

    open spec fn lowest() -> int {
        u8::MIN as int
    }

    open spec fn highest() -> int {
        u8::MAX as int
    }

    proof fn lemma_limits() {
    }

    proof fn lemma_bounded(self) {
    }

    proof fn lemma_same(self, rhs: Self) {
    }

    proof fn lemma_order(self, rhs: Self) {
    }

    proof fn lemma_sum(self, rhs: Self) {
    }

    proof fn lemma_difference(self, rhs: Self) {
    }

    proof fn lemma_product(self, rhs: Self) {
    }

    proof fn lemma_quotient(self, rhs: Self) {
    }

    proof fn lemma_remainder(self, rhs: Self) {
    }

    fn literal(n: u8) -> (r: Self) {
        n.into_as()
    }
}

impl UnsignedIntegral for u8 {
    proof fn lemma_lowest_is_zero() {
    }
}

impl Integral for u16 {
    open spec fn value(self) -> int {
        self as int
    }

    open spec fn lowest() -> int {
        u16::MIN as int
    }

    open spec fn highest() -> int {
        u16::MAX as int
    }

    proof fn lemma_limits() {
    }

    proof fn lemma_bounded(self) {
    }

    proof fn lemma_same(self, rhs: Self) {
    }

    proof fn lemma_order(self, rhs: Self) {
    }

    proof fn lemma_sum(self, rhs: Self) {
    }

    proof fn lemma_difference(self, rhs: Self) {
    }

    proof fn lemma_product(self, rhs: Self) {
    }

    proof fn lemma_quotient(self, rhs: Self) {
    }

    proof fn lemma_remainder(self, rhs: Self) {
    }

    fn literal(n: u8) -> (r: Self) {
        n.into_as()
    }
}

impl UnsignedIntegral for u16 {
    proof fn lemma_lowest_is_zero() {
    }
}

impl Integral for u32 {
    open spec fn value(self) -> int {
        self as int
    }

    open spec fn lowest() -> int {
        u32::MIN as int
    }

    open spec fn highest() -> int {
        u32::MAX as int
    }

    proof fn lemma_limits() {
    }

    proof fn lemma_bounded(self) {
    }

    proof fn lemma_same(self, rhs: Self) {
    }

    proof fn lemma_order(self, rhs: Self) {
    }

    proof fn lemma_sum(self, rhs: Self) {
    }

    proof fn lemma_difference(self, rhs: Self) {
    }

    proof fn lemma_product(self, rhs: Self) {
    }

    proof fn lemma_quotient(self, rhs: Self) {
    }

    proof fn lemma_remainder(self, rhs: Self) {
    }

    fn literal(n: u8) -> (r: Self) {
        n.into_as()
    }
}

impl UnsignedIntegral for u32 {
    proof fn lemma_lowest_is_zero() {
    }
}

impl Integral for u64 {
    open spec fn value(self) -> int {
        self as int
    }

    open spec fn lowest() -> int {
        u64::MIN as int
    }

    open spec fn highest() -> int {
        u64::MAX as int
    }

    proof fn lemma_limits() {
    }

    proof fn lemma_bounded(self) {
    }

    proof fn lemma_same(self, rhs: Self) {
    }

    proof fn lemma_order(self, rhs: Self) {
    }

    proof fn lemma_sum(self, rhs: Self) {
    }

    proof fn lemma_difference(self, rhs: Self) {
    }

    proof fn lemma_product(self, rhs: Self) {
    }

    proof fn lemma_quotient(self, rhs: Self) {
    }

    proof fn lemma_remainder(self, rhs: Self) {
    }

    fn literal(n: u8) -> (r: Self) {
        n.into_as()
    }
}

impl UnsignedIntegral for u64 {
    proof fn lemma_lowest_is_zero() {
    }
}

impl Integral for u128 {
    open spec fn value(self) -> int {
        self as int
    }

    open spec fn lowest() -> int {
        u128::MIN as int
    }

    open spec fn highest() -> int {
        u128::MAX as int
    }

    proof fn lemma_limits() {
    }

    proof fn lemma_bounded(self) {
    }

    proof fn lemma_same(self, rhs: Self) {
    }

    proof fn lemma_order(self, rhs: Self) {
    }

    proof fn lemma_sum(self, rhs: Self) {
    }

    proof fn lemma_difference(self, rhs: Self) {
    }

    proof fn lemma_product(self, rhs: Self) {
    }

    proof fn lemma_quotient(self, rhs: Self) {
    }

    proof fn lemma_remainder(self, rhs: Self) {
    }

    fn literal(n: u8) -> (r: Self) {
        n.into_as()
    }
}

impl UnsignedIntegral for u128 {
    proof fn lemma_lowest_is_zero() {
    }
}

impl Integral for usize {
    open spec fn value(self) -> int {
        self as int
    }

    open spec fn lowest() -> int {
        usize::MIN as int
    }

    open spec fn highest() -> int {
        usize::MAX as int
    }

    proof fn lemma_limits() {
    }

    proof fn lemma_bounded(self) {
    }

    proof fn lemma_same(self, rhs: Self) {
    }

    proof fn lemma_order(self, rhs: Self) {
    }

    proof fn lemma_sum(self, rhs: Self) {
    }

    proof fn lemma_difference(self, rhs: Self) {
    }

    proof fn lemma_product(self, rhs: Self) {
    }

    proof fn lemma_quotient(self, rhs: Self) {
    }

    proof fn lemma_remainder(self, rhs: Self) {
    }

    fn literal(n: u8) -> (r: Self) {
        n.into_as()
    }
}

impl UnsignedIntegral for usize {
    proof fn lemma_lowest_is_zero() {
    }
}

} // verus!
