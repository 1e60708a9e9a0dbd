//! From a clock frequency to the length of a PWM period.

use vstd::prelude::*;

verus! {

/// Why no PWM period can be derived from a frequency and a divider.
#[derive(Clone, Copy, Debug, PartialEq, Eq)]
pub enum PwmError {
    /// The target frequency is zero.
    ZeroFrequency,
    /// The clock divider is zero.
    ZeroDivider,
}

/// The length of one PWM period in counter steps: the clock frequency over
/// the product of target frequency and divider, rounded down and limited to
/// 1..=65535.
pub open spec fn period_counts(clock_freq_hz: u32, desired_freq_hz: u32, divider: u8) -> int
    recommends
        desired_freq_hz > 0,
        divider > 0,
{
    let raw = (clock_freq_hz as int) / (desired_freq_hz as int * divider as int);
    if raw < 1 {
        1
    } else if raw > 65_535 {
        65_535
    } else {
        raw
    }
}

/// Computes the PWM period in counter steps for a system clock of
/// `clock_freq_hz`. The brightness table is scaled to it, and every duty
/// count lies between zero and it.
///
/// A period that would come out as zero is raised to one step and one that
/// would exceed sixteen bits is cut to 65535. A zero frequency or a zero
/// divider is refused; the frequency is looked at first.
pub fn calculate_top(clock_freq_hz: u32, desired_freq_hz: u32, divider: u8) -> (top: Result<u16, PwmError>)
    ensures
        desired_freq_hz == 0 ==> top == Err::<u16, PwmError>(PwmError::ZeroFrequency),
        desired_freq_hz != 0 && divider == 0 ==> top == Err::<u16, PwmError>(
            PwmError::ZeroDivider,
        ),
        desired_freq_hz != 0 && divider != 0 ==> top == Ok::<u16, PwmError>(
            period_counts(clock_freq_hz, desired_freq_hz, divider) as u16,
        ),
        top matches Ok(t) ==> 1 <= t <= 65_535,
{
    if desired_freq_hz == 0 {
        return Err(PwmError::ZeroFrequency);
    }
    if divider == 0 {
        return Err(PwmError::ZeroDivider);
    }
    assert(0 < desired_freq_hz * divider <= 0xffff_ffff * 255) by (nonlinear_arith)
        requires
            0 < desired_freq_hz <= 0xffff_ffff,
            0 < divider <= 255,
    ;
    let ticks_per_count: u64 = (desired_freq_hz as u64) * (divider as u64);
    let raw: u64 = (clock_freq_hz as u64) / ticks_per_count;
    let period: u16 = if raw < 1 {
        1
    } else if raw > 65_535 {
        65_535
    } else {
        raw as u16
    };
    Ok(period)
}

} // verus!
