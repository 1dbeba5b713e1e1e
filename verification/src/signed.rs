//! [`Integral`] for the signed primitive types.

use vstd::prelude::*;
use num_convert::IntoAs;
use crate::integral::Integral;

verus! {

impl Integral for i8 {
    open spec fn value(self) -> int {
        self as int
    }

    open spec fn lowest() -> int {
        i8::MIN as int
    }

    open spec fn highest() -> int {
        i8::MAX as int
    }

    proof fn lemma_limits() {
    }

    proof fn lemma_bounded(self) {
    }

    proof fn lemma_same(self, rhs: Self) {
    }

    proof fn lemma_order(self, rhs: Self) {
    }

    proof fn lemma_sum(self, rhs: Self) {
    }

    proof fn lemma_difference(self, rhs: Self) {
    }

    proof fn lemma_product(self, rhs: Self) {
    }

    proof fn lemma_quotient(self, rhs: Self) {
    }

    proof fn lemma_remainder(self, rhs: Self) {
    }

    fn literal(n: u8) -> (r: Self) {
        n.into_as()
    }
}

impl Integral for i16 {
    open spec fn value(self) -> int {
        self as int
    }

    open spec fn lowest() -> int {
        i16::MIN as int
    }

    open spec fn highest() -> int {
        i16::MAX as int
    }

    proof fn lemma_limits() {
    }

    proof fn lemma_bounded(self) {
    }

    proof fn lemma_same(self, rhs: Self) {
    }

    proof fn lemma_order(self, rhs: Self) {
    }

    proof fn lemma_sum(self, rhs: Self) {
    }

    proof fn lemma_difference(self, rhs: Self) {
    }

    proof fn lemma_product(self, rhs: Self) {
    }

    proof fn lemma_quotient(self, rhs: Self) {
    }

    proof fn lemma_remainder(self, rhs: Self) {
    }

    fn literal(n: u8) -> (r: Self) {
        n.into_as()
    }
}

impl Integral for i32 {
    open spec fn value(self) -> int {
        self as int
    }

    open spec fn lowest() -> int {
        i32::MIN as int
    }

    open spec fn highest() -> int {
        i32::MAX as int
    }

    proof fn lemma_limits() {
    }

    proof fn lemma_bounded(self) {
    }

    proof fn lemma_same(self, rhs: Self) {
    }

    proof fn lemma_order(self, rhs: Self) {
    }

    proof fn lemma_sum(self, rhs: Self) {
    }

    proof fn lemma_difference(self, rhs: Self) {
    }

    proof fn lemma_product(self, rhs: Self) {
    }

    proof fn lemma_quotient(self, rhs: Self) {
    }

    proof fn lemma_remainder(self, rhs: Self) {
    }

    fn literal(n: u8) -> (r: Self) {
        n.into_as()
    }
}

impl Integral for i64 {
    open spec fn value(self) -> int {
        self as int
    }

    open spec fn lowest() -> int {
        i64::MIN as int
    }

    open spec fn highest() -> int {
        i64::MAX as int
    }

    proof fn lemma_limits() {
    }

    proof fn lemma_bounded(self) {
    }

    proof fn lemma_same(self, rhs: Self) {
    }

    proof fn lemma_order(self, rhs: Self) {
    }

    proof fn lemma_sum(self, rhs: Self) {
    }

    proof fn lemma_difference(self, rhs: Self) {
    }

    proof fn lemma_product(self, rhs: Self) {
    }

    proof fn lemma_quotient(self, rhs: Self) {
    }

    proof fn lemma_remainder(self, rhs: Self) {
    }

    fn literal(n: u8) -> (r: Self) {
        n.into_as()
    }
}

impl Integral for i128 {
    open spec fn value(self) -> int {
        self as int
    }

    open spec fn lowest() -> int {
        i128::MIN as int
    }

    open spec fn highest() -> int {
        i128::MAX as int
    }

    proof fn lemma_limits() {
    }

    proof fn lemma_bounded(self) {
    }

    proof fn lemma_same(self, rhs: Self) {
    }

    proof fn lemma_order(self, rhs: Self) {
    }

    proof fn lemma_sum(self, rhs: Self) {
    }

    proof fn lemma_difference(self, rhs: Self) {
    }

    proof fn lemma_product(self, rhs: Self) {
    }

    proof fn lemma_quotient(self, rhs: Self) {
    }

    proof fn lemma_remainder(self, rhs: Self) {
    }

    fn literal(n: u8) -> (r: Self) {
        n.into_as()
    }
}

impl Integral for isize {
    open spec fn value(self) -> int {
        self as int
    }

    open spec fn lowest() -> int {
        isize::MIN as int
    }

    open spec fn highest() -> int {
        isize::MAX as int
    }

    proof fn lemma_limits() {
    }

    proof fn lemma_bounded(self) {
    }

    proof fn lemma_same(self, rhs: Self) {
    }

    proof fn lemma_order(self, rhs: Self) {
    }

    proof fn lemma_sum(self, rhs: Self) {
    }

    proof fn lemma_difference(self, rhs: Self) {
    }

    proof fn lemma_product(self, rhs: Self) {
    }

    proof fn lemma_quotient(self, rhs: Self) {
    }

    proof fn lemma_remainder(self, rhs: Self) {
    }

    fn literal(n: u8) -> (r: Self) {
        n.into_as()
    }
}

} // verus!
