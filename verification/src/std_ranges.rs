//! The range types of `core::ops` that `vstd` leaves out, and the two getters
//! of `RangeInclusive`.
//!
//! `RangeTo` and `RangeToInclusive` are declared with their one field, which is
//! public: Verus reads `end` from the types themselves and nothing is claimed of
//! them here. `RangeInclusive` keeps its bounds private; `vstd` shows them in its
//! view, and the two getters are given the contract that they return them.

use vstd::prelude::*;
use core::ops::RangeInclusive;
use core::ops::RangeTo;
use core::ops::RangeToInclusive;

verus! {

/// `core::ops::RangeTo`, the type of `..end`: one public field, `end`.
#[verifier::external_type_specification]
#[verifier::reject_recursive_types(Idx)]
pub struct ExRangeTo<Idx>(RangeTo<Idx>);

/// `core::ops::RangeToInclusive`, the type of `..=end`: one public field, `end`.
#[verifier::external_type_specification]
#[verifier::reject_recursive_types(Idx)]
pub struct ExRangeToInclusive<Idx>(RangeToInclusive<Idx>);

/// `RangeInclusive::start` returns a reference to the lower bound that the range
/// holds.
pub assume_specification<Idx>[ RangeInclusive::<Idx>::start ](r: &RangeInclusive<Idx>) -> (start:
    &Idx)
    ensures
        *start == r@.start,
;

/// `RangeInclusive::end` returns a reference to the upper bound that the range
/// holds.
pub assume_specification<Idx>[ RangeInclusive::<Idx>::end ](r: &RangeInclusive<Idx>) -> (end: &Idx)
    ensures
        *end == r@.end,
;

} // verus!
