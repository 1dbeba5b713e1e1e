//! What this crate takes on trust from `num_convert`: how `IntoAs::into_as`
//! carries a `u8` into each primitive integer type.
//!
//! `num_convert` implements `IntoAs<T> for u8` as the identity for `T = u8` and
//! as the cast `self as T` for every other primitive integer type. Every such
//! type but `i8` holds all of `u8`, so the cast keeps the value; into `i8` it
//! keeps the bits, which moves the values above 127 down by 256.

use vstd::prelude::*;
use num_convert::IntoAs;

verus! {

/// `<u8 as IntoAs<u8>>::into_as` returns its argument.
pub assume_specification[ <u8 as IntoAs<u8>>::into_as ](n: u8) -> (r: u8)
    ensures
        r == n,
;

/// `<u8 as IntoAs<u16>>::into_as` is `n as u16`, which keeps the value.
pub assume_specification[ <u8 as IntoAs<u16>>::into_as ](n: u8) -> (r: u16)
    ensures
        r == n,
;

/// `<u8 as IntoAs<u32>>::into_as` is `n as u32`, which keeps the value.
pub assume_specification[ <u8 as IntoAs<u32>>::into_as ](n: u8) -> (r: u32)
    ensures
        r == n,
;

/// `<u8 as IntoAs<u64>>::into_as` is `n as u64`, which keeps the value.
pub assume_specification[ <u8 as IntoAs<u64>>::into_as ](n: u8) -> (r: u64)
    ensures
        r == n,
;

/// `<u8 as IntoAs<u128>>::into_as` is `n as u128`, which keeps the value.
pub assume_specification[ <u8 as IntoAs<u128>>::into_as ](n: u8) -> (r: u128)
    ensures
        r == n,
;

/// `<u8 as IntoAs<usize>>::into_as` is `n as usize`, which keeps the value.
pub assume_specification[ <u8 as IntoAs<usize>>::into_as ](n: u8) -> (r: usize)
    ensures
        r == n,
;

/// `<u8 as IntoAs<i8>>::into_as` is `n as i8`, which keeps the bits: the value
/// up to 127, and 256 less above it.
pub assume_specification[ <u8 as IntoAs<i8>>::into_as ](n: u8) -> (r: i8)
    ensures
        n <= 127 ==> r == n,
        n > 127 ==> r == n - 256,
;

/// `<u8 as IntoAs<i16>>::into_as` is `n as i16`, which keeps the value.
pub assume_specification[ <u8 as IntoAs<i16>>::into_as ](n: u8) -> (r: i16)
    ensures
        r == n,
;

/// `<u8 as IntoAs<i32>>::into_as` is `n as i32`, which keeps the value.
pub assume_specification[ <u8 as IntoAs<i32>>::into_as ](n: u8) -> (r: i32)
    ensures
        r == n,
;

/// `<u8 as IntoAs<i64>>::into_as` is `n as i64`, which keeps the value.
pub assume_specification[ <u8 as IntoAs<i64>>::into_as ](n: u8) -> (r: i64)
    ensures
        r == n,
;

/// `<u8 as IntoAs<i128>>::into_as` is `n as i128`, which keeps the value.
pub assume_specification[ <u8 as IntoAs<i128>>::into_as ](n: u8) -> (r: i128)
    ensures
        r == n,
;

/// `<u8 as IntoAs<isize>>::into_as` is `n as isize`, which keeps the value.
pub assume_specification[ <u8 as IntoAs<isize>>::into_as ](n: u8) -> (r: isize)
    ensures
        r == n,
;

} // verus!
