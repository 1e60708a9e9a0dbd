use fire_led::pwm::{calculate_top, PwmError};

#[test]
fn period_for_a_pico_at_25_khz() {
    assert_eq!(calculate_top(125_000_000, 25_000, 1), Ok(5_000));
    assert_eq!(calculate_top(150_000_000, 25_000, 1), Ok(6_000));
    assert_eq!(calculate_top(125_000_000, 25_000, 4), Ok(1_250));
}

#[test]
fn period_is_rounded_down() {
    assert_eq!(calculate_top(125_000_000, 30_000, 1), Ok(4_166));
    assert_eq!(calculate_top(1_000, 3, 1), Ok(333));
}

#[test]
fn period_is_cut_to_sixteen_bits() {
    assert_eq!(calculate_top(125_000_000, 1, 1), Ok(65_535));
    assert_eq!(calculate_top(u32::MAX, 1, 1), Ok(65_535));
    assert_eq!(calculate_top(65_536, 1, 1), Ok(65_535));
    assert_eq!(calculate_top(65_535, 1, 1), Ok(65_535));
    assert_eq!(calculate_top(65_534, 1, 1), Ok(65_534));
}

#[test]
fn period_too_short_is_raised_to_one() {
    assert_eq!(calculate_top(1_000, 25_000, 1), Ok(1));
    assert_eq!(calculate_top(0, 25_000, 1), Ok(1));
    assert_eq!(calculate_top(25_000, 25_000, 1), Ok(1));
    assert_eq!(calculate_top(50_000, 25_000, 1), Ok(2));
}

#[test]
fn period_with_a_product_beyond_32_bits() {
    assert_eq!(calculate_top(u32::MAX, u32::MAX, 255), Ok(1));
    assert_eq!(calculate_top(u32::MAX, 0x8000_0000, 2), Ok(1));
    assert_eq!(calculate_top(u32::MAX, 0x4000_0000, 255), Ok(1));
}

#[test]
fn zero_frequency_is_refused() {
    assert_eq!(calculate_top(125_000_000, 0, 1), Err(PwmError::ZeroFrequency));
    assert_eq!(calculate_top(125_000_000, 0, 0), Err(PwmError::ZeroFrequency));
}

#[test]
fn zero_divider_is_refused() {
    assert_eq!(calculate_top(125_000_000, 25_000, 0), Err(PwmError::ZeroDivider));
}
