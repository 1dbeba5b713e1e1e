//! Sums over integer ranges in constant time.
//!
//! [`SumRange`] gives the sum of the integers of a range, the sum of the odd
//! ones and the sum of the even ones, each computed from a closed form in the
//! integer type of the range itself. It is implemented for `start..end`,
//! `start..=end` and, over the unsigned types only, for `..end` and `..=end`,
//! which start at zero.
//!
//! What each method returns is stated against plain accumulation over the
//! range, as defined in [`series`].

pub mod integral;
pub mod laws;
pub mod literal;
pub mod range_sums;
pub mod series;
pub mod signed;
pub mod std_ranges;
pub mod unsigned;

pub use integral::Integral;
pub use integral::UnsignedIntegral;
pub use range_sums::sum_even_range_to;
pub use range_sums::SumRange;
