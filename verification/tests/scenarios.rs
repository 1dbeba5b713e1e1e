use sum_range::sum_even_range_to;
use sum_range::Integral;
use sum_range::SumRange;

#[test]
fn half_open_total_of_one_to_ten() {
    assert_eq!((1..11).sum_range(), 55u8);
    assert_eq!((1..11).sum_range(), 55u32);
}

#[test]
fn closed_total_of_zero_to_twelve() {
    assert_eq!((0..=12).sum_range(), 78u8);
}

#[test]
fn closed_total_around_zero_cancels() {
    assert_eq!((-10..=10).sum_range(), 0i32);
}

#[test]
fn half_open_odd_total_across_zero() {
    assert_eq!((-10..12).sum_odd_range(), 11i16);
}

#[test]
fn closed_even_total_around_zero_cancels() {
    assert_eq!((-5..=5).sum_even_range(), 0i32);
}

#[test]
fn from_zero_even_total_of_nothing() {
    assert_eq!((..0u8).sum_even_range(), 0);
    assert_eq!((..0u64).sum_even_range(), 0);
}

#[test]
fn from_zero_closed_total_to_twelve() {
    assert_eq!((..=12u8).sum_range(), 78);
    assert_eq!((..=12u128).sum_range(), 78);
}

#[test]
fn odd_total_ignores_even_bounds() {
    assert_eq!((3..15).sum_odd_range(), 48u16);
    assert_eq!((2..14).sum_odd_range(), 48u16);
}

#[test]
fn even_total_ignores_odd_bounds() {
    assert_eq!((-2..=12).sum_even_range(), 40i64);
    assert_eq!((-3..=13).sum_even_range(), 40i64);
}

#[test]
fn inverted_half_open_range_is_empty() {
    assert_eq!((10..1_i8).sum_range(), 0);
    assert_eq!((10..1_i8).sum_odd_range(), 0);
    assert_eq!((10..1_i8).sum_even_range(), 0);
    assert_eq!((10..1_u8).sum_range(), 0);
    assert_eq!((10..1_u8).sum_odd_range(), 0);
    assert_eq!((10..1_u8).sum_even_range(), 0);
    assert_eq!((10..1_u64).sum_range(), 0);
    assert_eq!((10..1_u64).sum_odd_range(), 0);
    assert_eq!((10..1_u64).sum_even_range(), 0);
    assert_eq!((10..1_i128).sum_range(), 0);
    assert_eq!((10..1_i128).sum_odd_range(), 0);
    assert_eq!((10..1_i128).sum_even_range(), 0);
}

#[test]
fn half_open_range_of_equal_bounds_is_empty() {
    assert_eq!((7..7_i32).sum_range(), 0);
    assert_eq!((7..7_i32).sum_odd_range(), 0);
    assert_eq!((7..7_i32).sum_even_range(), 0);
    assert_eq!((-7..-7_i32).sum_range(), 0);
    assert_eq!((-7..-7_i32).sum_odd_range(), 0);
    assert_eq!((-7..-7_i32).sum_even_range(), 0);
}

#[test]
fn inverted_closed_range_is_empty() {
    assert_eq!((5..=4_i16).sum_range(), 0);
    assert_eq!((5..=4_i16).sum_odd_range(), 0);
    assert_eq!((5..=4_i16).sum_even_range(), 0);
    assert_eq!((200..=100_u8).sum_range(), 0);
    assert_eq!((200..=100_u8).sum_odd_range(), 0);
    assert_eq!((200..=100_u8).sum_even_range(), 0);
}

#[test]
fn closed_range_of_one_member() {
    assert_eq!((7..=7_i32).sum_range(), 7);
    assert_eq!((7..=7_i32).sum_odd_range(), 7);
    assert_eq!((7..=7_i32).sum_even_range(), 0);
    assert_eq!((-8..=-8_i32).sum_range(), -8);
    assert_eq!((-8..=-8_i32).sum_odd_range(), 0);
    assert_eq!((-8..=-8_i32).sum_even_range(), -8);
}

#[test]
fn closed_bounds_are_not_swapped() {
    assert_eq!((3..=9_u32).sum_range(), 42);
    assert_eq!((9..=3_u32).sum_range(), 0);
    assert_eq!((3..=9_u32).sum_odd_range(), 24);
    assert_eq!((3..=9_u32).sum_even_range(), 18);
}

#[test]
fn ranges_across_zero() {
    assert_eq!((-2..11_i8).sum_range(), 52);
    assert_eq!((-2..11_i8).sum_odd_range(), 24);
    assert_eq!((-2..11_i8).sum_even_range(), 28);
    assert_eq!((-3..=4_i64).sum_range(), 4);
    assert_eq!((-3..=4_i64).sum_odd_range(), 0);
    assert_eq!((-3..=4_i64).sum_even_range(), 4);
}

#[test]
fn ranges_below_zero() {
    assert_eq!((-20..-10_i32).sum_range(), -155);
    assert_eq!((-20..-10_i32).sum_odd_range(), -75);
    assert_eq!((-20..-10_i32).sum_even_range(), -80);
    assert_eq!((-20..=-10_i32).sum_range(), -165);
    assert_eq!((-20..=-10_i32).sum_odd_range(), -75);
    assert_eq!((-20..=-10_i32).sum_even_range(), -90);
}

#[test]
fn from_zero_totals() {
    assert_eq!((..11_u16).sum_range(), 55);
    assert_eq!((..11_u16).sum_odd_range(), 25);
    assert_eq!((..11_u16).sum_even_range(), 30);
    assert_eq!((..=11_u16).sum_range(), 66);
    assert_eq!((..=11_u16).sum_odd_range(), 36);
    assert_eq!((..=11_u16).sum_even_range(), 30);
    assert_eq!((..=12_u16).sum_even_range(), 42);
    assert_eq!((..0_usize).sum_range(), 0);
    assert_eq!((..0_usize).sum_odd_range(), 0);
    assert_eq!((..=0_usize).sum_range(), 0);
    assert_eq!((..=0_usize).sum_odd_range(), 0);
    assert_eq!((..=0_usize).sum_even_range(), 0);
}

#[test]
fn largest_totals_of_a_byte() {
    // 15 * 16 = 240 is the largest product of two neighbours that a byte holds
    assert_eq!((..=15_u8).sum_range(), 120);
    assert_eq!((..16_u8).sum_range(), 120);
    assert_eq!((0..16_u8).sum_range(), 120);
    assert_eq!((0..=15_u8).sum_range(), 120);
    // 1 + 3 + .. + 29 = 225 = 15 * 15
    assert_eq!((..30_u8).sum_odd_range(), 225);
    assert_eq!((..=29_u8).sum_odd_range(), 225);
    assert_eq!((..31_u8).sum_odd_range(), 225);
    // the square of 15 is the largest that a byte holds
    assert_eq!((..15_u8).sum_even_range(), 56);
    assert_eq!((..16_u8).sum_even_range(), 56);
    assert_eq!((..=14_u8).sum_even_range(), 56);
    assert_eq!((..=15_u8).sum_even_range(), 56);
}

#[test]
fn even_numbers_up_to_a_bound() {
    assert_eq!(sum_even_range_to(0_u8), 0);
    assert_eq!(sum_even_range_to(1_u8), 0);
    assert_eq!(sum_even_range_to(2_u8), 0);
    assert_eq!(sum_even_range_to(3_u8), 2);
    assert_eq!(sum_even_range_to(10_u32), 20);
    assert_eq!(sum_even_range_to(11_u32), 30);
    assert_eq!(sum_even_range_to(0_i64), 0);
    assert_eq!(sum_even_range_to(7_i64), 12);
}

#[test]
fn even_numbers_down_to_a_negative_bound() {
    // the even numbers of -4..0 are -4 and -2
    assert_eq!(sum_even_range_to(-4_i32), 6);
    assert_eq!(sum_even_range_to(-3_i32), 2);
    assert_eq!(sum_even_range_to(-2_i32), 2);
    assert_eq!(sum_even_range_to(-1_i32), 0);
    assert_eq!(sum_even_range_to(-11_i8), 30);
}

#[test]
fn literal_in_every_unsigned_type() {
    assert_eq!(<u8 as Integral>::literal(4), 4_u8);
    assert_eq!(<u16 as Integral>::literal(4), 4_u16);
    assert_eq!(<u32 as Integral>::literal(4), 4_u32);
    assert_eq!(<u64 as Integral>::literal(4), 4_u64);
    assert_eq!(<u128 as Integral>::literal(4), 4_u128);
    assert_eq!(<usize as Integral>::literal(4), 4_usize);
    assert_eq!(<u8 as Integral>::literal(127), 127_u8);
    assert_eq!(<u128 as Integral>::literal(127), 127_u128);
}

#[test]
fn literal_in_every_signed_type() {
    assert_eq!(<i8 as Integral>::literal(4), 4_i8);
    assert_eq!(<i16 as Integral>::literal(4), 4_i16);
    assert_eq!(<i32 as Integral>::literal(4), 4_i32);
    assert_eq!(<i64 as Integral>::literal(4), 4_i64);
    assert_eq!(<i128 as Integral>::literal(4), 4_i128);
    assert_eq!(<isize as Integral>::literal(4), 4_isize);
    assert_eq!(<i8 as Integral>::literal(0), 0_i8);
    assert_eq!(<i8 as Integral>::literal(127), 127_i8);
    assert_eq!(<i128 as Integral>::literal(127), 127_i128);
}

#[test]
fn closed_total_is_half_open_total_to_the_next() {
    for start in -60..=60_i32 {
        for end in -60..=60_i32 {
            assert_eq!((start..=end).sum_range(), (start..end + 1).sum_range());
            assert_eq!((start..=end).sum_odd_range(), (start..end + 1).sum_odd_range());
            assert_eq!((start..=end).sum_even_range(), (start..end + 1).sum_even_range());
        }
    }
    for end in 0..=60_u32 {
        assert_eq!((..=end).sum_range(), (..end + 1).sum_range());
        assert_eq!((..=end).sum_odd_range(), (..end + 1).sum_odd_range());
        assert_eq!((..=end).sum_even_range(), (..end + 1).sum_even_range());
    }
}

#[test]
fn odd_and_even_totals_add_up_to_the_total() {
    for start in -60..=60_i64 {
        for end in -60..=60_i64 {
            let half_open = start..end;
            assert_eq!(
                half_open.sum_even_range() + half_open.sum_odd_range(),
                half_open.sum_range()
            );
            let closed = start..=end;
            assert_eq!(closed.sum_even_range() + closed.sum_odd_range(), closed.sum_range());
        }
    }
    for end in 0..=200_u64 {
        assert_eq!((..end).sum_even_range() + (..end).sum_odd_range(), (..end).sum_range());
        assert_eq!((..=end).sum_even_range() + (..=end).sum_odd_range(), (..=end).sum_range());
    }
}

#[test]
fn from_zero_is_half_open_from_zero() {
    for end in 0..=300_u32 {
        assert_eq!((..end).sum_range(), (0..end).sum_range());
        assert_eq!((..end).sum_odd_range(), (0..end).sum_odd_range());
        assert_eq!((..end).sum_even_range(), (0..end).sum_even_range());
        assert_eq!((..=end).sum_range(), (0..=end).sum_range());
        assert_eq!((..=end).sum_odd_range(), (0..=end).sum_odd_range());
        assert_eq!((..=end).sum_even_range(), (0..=end).sum_even_range());
    }
}
