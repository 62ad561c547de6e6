use gyroflow_plugin_base::fixed::{abs64, div_round, mul_div, signed_saturated, Fixed, MICROS_PER_UNIT};
use gyroflow_plugin_base::time::{
    ae_time_from_timetype, frame_at_timestamp, frame_from_timetype, frame_timestamp_us,
    ticks_from_timetype, TimeType,
};

fn fx(micros: i64) -> Fixed {
    Fixed { micros }
}

#[test]
fn quotients_round_to_nearest() {
    assert_eq!(mul_div(1, 1, 3), 0);
    assert_eq!(mul_div(2, 1, 3), 1);
    assert_eq!(mul_div(10, 3, 4), 8);
    assert_eq!(mul_div(10, 3, 7), 4);
}

#[test]
fn halves_round_away_from_zero() {
    assert_eq!(mul_div(5, 1, 2), 3);
    assert_eq!(mul_div(7, 1, 2), 4);
    assert_eq!(mul_div(-5, 1, 2), -3);
    assert_eq!(mul_div(-7, 1, 2), -4);
    assert_eq!(mul_div(6, 1, -4), -2);
    assert_eq!(mul_div(-6, 1, -4), 2);
}

#[test]
fn signs_of_all_three_operands_count() {
    assert_eq!(mul_div(-3, -4, 5), 2);
    assert_eq!(mul_div(-3, 4, 5), -2);
    assert_eq!(mul_div(3, -4, -5), 2);
    assert_eq!(mul_div(0, -4, -5), 0);
}

#[test]
fn quotients_saturate() {
    assert_eq!(mul_div(i64::MAX, 2, 1), i64::MAX);
    assert_eq!(mul_div(i64::MIN, 2, 1), i64::MIN);
    assert_eq!(mul_div(i64::MIN, i64::MIN, 1), i64::MAX);
    assert_eq!(mul_div(i64::MIN, 1, -1), i64::MAX);
    assert_eq!(mul_div(i64::MAX, i64::MAX, i64::MAX), i64::MAX);
    assert_eq!(mul_div(i64::MIN, 1, 1), i64::MIN);
}

#[test]
fn division_by_zero_goes_to_the_far_end() {
    assert_eq!(mul_div(5, 1, 0), i64::MAX);
    assert_eq!(mul_div(-5, 1, 0), i64::MIN);
    assert_eq!(mul_div(0, 1, 0), 0);
    assert_eq!(mul_div(5, 0, 0), 0);
}

#[test]
fn magnitude_of_the_smallest_number() {
    assert_eq!(abs64(i64::MIN), 9_223_372_036_854_775_808u64);
    assert_eq!(abs64(-1), 1);
    assert_eq!(abs64(0), 0);
    assert_eq!(abs64(i64::MAX), 9_223_372_036_854_775_807u64);
}

#[test]
fn div_round_rounds_halves_up() {
    assert_eq!(div_round(0, 7), 0);
    assert_eq!(div_round(3, 2), 2);
    assert_eq!(div_round(10, 4), 3);
    assert_eq!(div_round(9, 4), 2);
    assert_eq!(div_round(u128::MAX, 1), u128::MAX);
    assert_eq!(div_round(u128::MAX, 2), 1u128 << 127);
}

#[test]
fn signed_saturated_clamps_both_ways() {
    assert_eq!(signed_saturated(false, 5), 5);
    assert_eq!(signed_saturated(true, 5), -5);
    assert_eq!(signed_saturated(true, 0), 0);
    assert_eq!(signed_saturated(false, 1u128 << 63), i64::MAX);
    assert_eq!(signed_saturated(true, 1u128 << 63), i64::MIN);
    assert_eq!(signed_saturated(true, (1u128 << 63) - 1), i64::MIN + 1);
}

#[test]
fn fixed_constructors() {
    assert_eq!(MICROS_PER_UNIT, 1_000_000);
    assert_eq!(Fixed::from_count(3840).micros, 3_840_000_000);
    assert_eq!(Fixed::from_count(usize::MAX).micros, i64::MAX);
    assert_eq!(Fixed::from_whole(-90).micros, -90_000_000);
    assert_eq!(Fixed::from_whole(i64::MAX).micros, i64::MAX);
    assert_eq!(Fixed::from_whole(i64::MIN).micros, i64::MIN);
}

#[test]
fn fixed_scaling() {
    assert_eq!(fx(50_000_000).divided_by(100), fx(500_000));
    assert_eq!(fx(50_000_000).divided_by(1), fx(50_000_000));
    assert_eq!(fx(150).divided_by(100), fx(2));
    assert_eq!(fx(-150).divided_by(100), fx(-2));
    assert_eq!(fx(149).divided_by(100), fx(1));
    assert_eq!(fx(500_000).times(100), fx(50_000_000));
    assert_eq!(fx(i64::MAX).times(100), fx(i64::MAX));
    assert_eq!(fx(-3).times(-4), fx(12));
}

#[test]
fn fixed_bounds() {
    assert_eq!(fx(5).at_least(fx(7)), fx(7));
    assert_eq!(fx(9).at_least(fx(7)), fx(9));
    assert_eq!(fx(5).at_most(fx(7)), fx(5));
    assert_eq!(fx(9).at_most(fx(7)), fx(7));
}

#[test]
fn whole_part_of_a_number() {
    assert_eq!(fx(3_900_000).to_count(), 3);
    assert_eq!(fx(999_999).to_count(), 0);
    assert_eq!(fx(-1_000_000).to_count(), 0);
    assert_eq!(fx(0).to_count(), 0);
    assert_eq!(fx(16_384_000_000).to_count(), 16384);
}

#[test]
fn frame_to_microseconds() {
    let fps = fx(29_970_000);
    assert_eq!(frame_timestamp_us(fx(0), fps), 0);
    assert_eq!(frame_timestamp_us(fx(3_000_000), fps), 100_100);
    assert_eq!(frame_timestamp_us(fx(30_000_000), fx(30_000_000)), 1_000_000);
    assert_eq!(frame_timestamp_us(fx(1_500_000), fx(10_000_000)), 150_000);
    assert_eq!(frame_timestamp_us(fx(-1_000_000), fx(25_000_000)), -40_000);
}

#[test]
fn frame_to_microseconds_without_a_frame_rate() {
    assert_eq!(frame_timestamp_us(fx(1_000_000), fx(0)), i64::MAX);
    assert_eq!(frame_timestamp_us(fx(-1_000_000), fx(0)), i64::MIN);
    assert_eq!(frame_timestamp_us(fx(0), fx(0)), 0);
}

#[test]
fn every_kind_of_time_becomes_microseconds() {
    let fps = fx(25_000_000);
    assert_eq!(TimeType::Frame(fx(2_000_000)).to_micros(fps), 80_000);
    assert_eq!(TimeType::Milliseconds(fx(1_500_000)).to_micros(fps), 1_500);
    assert_eq!(TimeType::Milliseconds(fx(500)).to_micros(fps), 1);
    assert_eq!(TimeType::Milliseconds(fx(499)).to_micros(fps), 0);
    assert_eq!(TimeType::Microseconds(-7).to_micros(fps), -7);
    assert_eq!(TimeType::FrameOrMicrosecond((Some(fx(2_000_000)), None)).to_micros(fps), 80_000);
    assert_eq!(TimeType::FrameOrMicrosecond((Some(fx(2_000_000)), Some(5))).to_micros(fps), 5);
    assert_eq!(TimeType::FrameOrMicrosecond((None, Some(9))).to_micros(fps), 9);
}

#[test]
fn microseconds_to_nearest_frame() {
    let fps = fx(30_000_000);
    assert_eq!(frame_at_timestamp(1_000_000, fps), 30);
    assert_eq!(frame_at_timestamp(16_666, fps), 0);
    assert_eq!(frame_at_timestamp(16_667, fps), 1);
    assert_eq!(frame_at_timestamp(-33_334, fps), -1);
}

#[test]
fn frame_of_a_time() {
    assert_eq!(frame_from_timetype(TimeType::Frame(fx(7_500_000))), fx(7_500_000));
    assert_eq!(
        frame_from_timetype(TimeType::FrameOrMicrosecond((Some(fx(3_000_000)), Some(1)))),
        fx(3_000_000)
    );
}

#[test]
fn ticks_of_a_frame() {
    assert_eq!(ticks_from_timetype(TimeType::Frame(fx(2_500_000)), 1001), 2503);
    assert_eq!(ticks_from_timetype(TimeType::Frame(fx(10_000_000)), 8_475_667_200), 84_756_672_000);
    assert_eq!(
        ticks_from_timetype(TimeType::FrameOrMicrosecond((Some(fx(1_000_000)), None)), 7),
        7
    );
    assert_eq!(ticks_from_timetype(TimeType::Frame(fx(i64::MAX)), i64::MAX), i64::MAX);
}

#[test]
fn host_time_units_of_a_frame() {
    assert_eq!(ae_time_from_timetype(TimeType::Frame(fx(10_000_000)), 512, 15360), 5120);
    assert_eq!(ae_time_from_timetype(TimeType::Frame(fx(500_000)), 3, 1), 2);
    assert_eq!(ae_time_from_timetype(TimeType::Frame(fx(i64::MAX)), i32::MAX, 1), i32::MAX);
    assert_eq!(ae_time_from_timetype(TimeType::Frame(fx(i64::MIN)), i32::MAX, 1), i32::MIN);
}
