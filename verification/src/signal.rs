//! The arithmetic of one tick, one step at a time.
//!
//! Intensities are integers from 0 to 255. Values named `*_q8` carry eight
//! fractional bits. Each step is given twice: as a function on mathematical
//! integers, and as executable code proved equal to it. The executable steps
//! accept every value of their argument types; intermediate results are held
//! in 64 bits so that nothing wraps.

use vstd::arithmetic::power::pow;
use vstd::prelude::*;

verus! {

/// The Q8 value of the brightest intensity, `255 << 8`.
pub const MAX_OUTPUT_Q8: i32 = 65_280;

/// The ceiling of the pulse energy, `255 * 255`.
pub const MAX_PULSE: i32 = 65_025;

/// The low eight bits of a generator word.
pub open spec fn low_byte(draw: u32) -> int {
    draw as int % 256
}

/// Moves the envelope by `delta` in its current direction. On reaching or
/// passing a bound the envelope is set to that bound and the direction flips.
pub open spec fn envelope_next(envelope_q8: int, rising: bool, delta: int, lo: int, hi: int) -> (
    int,
    bool,
) {
    if rising {
        if envelope_q8 + delta >= hi {
            (hi, false)
        } else {
            (envelope_q8 + delta, true)
        }
    } else {
        if envelope_q8 - delta <= lo {
            (lo, true)
        } else {
            (envelope_q8 - delta, false)
        }
    }
}

/// The noise drawn from a generator word: its low byte, re-centred to
/// -128..=127 and scaled by `(2 * jitter_max + 1) / 256`, rounded down.
pub open spec fn jitter_of(draw: u32, jitter_max: u8) -> int {
    ((low_byte(draw) - 128) * (2 * jitter_max + 1)) / 256
}

/// Whether a generator word starts a flare.
pub open spec fn pulse_fires(draw: u32, pulse_prob: u8) -> bool {
    low_byte(draw) < pulse_prob
}

/// The pulse energy after one decay by the Q8 factor, rounded down.
pub open spec fn pulse_decayed(pulse: int, decay_q8: u8) -> int {
    (pulse * decay_q8) / 256
}

/// The pulse energy after one tick: a flare adds `boost` first, then the
/// energy decays.
pub open spec fn pulse_next(pulse: int, draw: u32, prob: u8, boost: u8, decay_q8: u8) -> int {
    pulse_decayed(
        if pulse_fires(draw, prob) {
            pulse + boost
        } else {
            pulse
        },
        decay_q8,
    )
}

/// Limits a brightness to 0..=255.
pub open spec fn clamp_intensity(v: int) -> int {
    if v < 0 {
        0
    } else if v > 255 {
        255
    } else {
        v
    }
}

/// The unsmoothed brightness of a tick: the whole part of the envelope plus
/// noise plus pulse energy, limited to 0..=255.
pub open spec fn target_of(envelope_q8: int, jitter: int, pulse: int) -> int {
    clamp_intensity(envelope_q8 / 256 + jitter + pulse)
}

/// One step of the moving average: the output closes the Q8 fraction
/// `smooth_q8` of its distance to the target, rounded down.
pub open spec fn smooth_next(out_q8: int, target: int, smooth_q8: u8) -> int {
    out_q8 + ((target * 256 - out_q8) * smooth_q8) / 256
}

/// Executable [`envelope_next`].
pub fn envelope_step(
    envelope_q8: i32,
    rising: bool,
    delta_q8: u64,
    min_q8: i32,
    max_q8: i32,
) -> (next: (i32, bool))
    ensures
        (next.0 as int, next.1) == envelope_next(
            envelope_q8 as int,
            rising,
            delta_q8 as int,
            min_q8 as int,
            max_q8 as int,
        ),
{
    if rising {
        let room: i64 = max_q8 as i64 - envelope_q8 as i64;
        if room <= 0 || delta_q8 >= room as u64 {
            (max_q8, false)
        } else {
            ((envelope_q8 as i64 + delta_q8 as i64) as i32, true)
        }
    } else {
        let room: i64 = envelope_q8 as i64 - min_q8 as i64;
        if room <= 0 || delta_q8 >= room as u64 {
            (min_q8, true)
        } else {
            ((envelope_q8 as i64 - delta_q8 as i64) as i32, false)
        }
    }
}

/// Executable [`jitter_of`]. The noise stays within one of the amplitude:
/// it is at least `-jitter_max - 1` and at most `jitter_max`.
pub fn jitter(draw: u32, jitter_max: u8) -> (j: i32)
    ensures
        j == jitter_of(draw, jitter_max),
        -(jitter_max as int) - 1 <= j <= jitter_max as int,
{
    let byte: u8 = #[verifier::truncate] (draw as u8);
    let centred: i32 = byte as i32 - 128;
    let scale: i32 = 2 * (jitter_max as i32) + 1;
    proof {
        assert(draw as u8 == draw % 256) by (bit_vector);
        lemma_jitter_bounds(draw, jitter_max);
        assert(-65_408 <= centred * scale <= 64_897) by (nonlinear_arith)
            requires
                -128 <= centred <= 127,
                1 <= scale <= 511,
        ;
    }
    let scaled: i32 = centred * scale;
    assert(scaled >> 8u32 == scaled / 256) by (bit_vector);
    scaled >> 8
}

/// Executable [`pulse_next`]. Energy between 0 and [`MAX_PULSE`] stays there.
pub fn pulse_step(
    pulse: i32,
    draw: u32,
    pulse_prob: u8,
    pulse_boost: u8,
    pulse_decay_q8: u8,
) -> (next: i32)
    ensures
        next == pulse_next(pulse as int, draw, pulse_prob, pulse_boost, pulse_decay_q8),
        0 <= pulse <= MAX_PULSE ==> 0 <= next <= MAX_PULSE,
{
    let byte: u8 = #[verifier::truncate] (draw as u8);
    let mut energy: i64 = pulse as i64;
    if byte < pulse_prob {
        energy = energy + pulse_boost as i64;
    }
    let decay: i64 = pulse_decay_q8 as i64;
    proof {
        assert(draw as u8 == draw % 256) by (bit_vector);
        lemma_decay_bounds(energy as int, pulse_decay_q8);
        assert(-0x80_0000_0000 <= energy * decay <= 0x80_0000_0000) by (nonlinear_arith)
            requires
                -0x8000_0000 <= energy <= 0x8000_00ff,
                0 <= decay <= 255,
        ;
    }
    let product: i64 = energy * decay;
    assert(product >> 8u64 == product / 256) by (bit_vector);
    (product >> 8) as i32
}

/// Executable [`target_of`].
pub fn target_intensity(envelope_q8: i32, jitter: i32, pulse: i32) -> (target: u8)
    ensures
        target == target_of(envelope_q8 as int, jitter as int, pulse as int),
{
    assert(envelope_q8 >> 8u32 == envelope_q8 / 256) by (bit_vector);
    let base: i32 = envelope_q8 >> 8;
    let sum: i64 = base as i64 + jitter as i64 + pulse as i64;
    if sum < 0 {
        0
    } else if sum > 255 {
        255
    } else {
        sum as u8
    }
}

/// Executable [`smooth_next`]. The output moves toward the target and never
/// past it.
pub fn smooth_step(out_q8: i32, target: u8, smooth_q8: u8) -> (next: i32)
    ensures
        next == smooth_next(out_q8 as int, target as int, smooth_q8),
        out_q8 <= target * 256 ==> out_q8 <= next <= target * 256,
        out_q8 >= target * 256 ==> target * 256 <= next <= out_q8,
{
    let target_q8: i64 = (target as i64) * 256;
    let diff: i64 = target_q8 - out_q8 as i64;
    let rate: i64 = smooth_q8 as i64;
    proof {
        lemma_smooth_never_overshoots(out_q8 as int, target as int, smooth_q8);
        assert(-0x100_0000_0000 <= diff * rate <= 0x100_0000_0000) by (nonlinear_arith)
            requires
                -0x1_0000_0000 <= diff <= 0x1_0000_0000,
                0 <= rate <= 255,
        ;
    }
    let product: i64 = diff * rate;
    assert(product >> 8u64 == product / 256) by (bit_vector);
    (out_q8 as i64 + (product >> 8)) as i32
}

/// The noise is at least `-jitter_max - 1` and at most `jitter_max`.
pub proof fn lemma_jitter_bounds(draw: u32, jitter_max: u8)
    ensures
        -(jitter_max as int) - 1 <= jitter_of(draw, jitter_max) <= jitter_max as int,
{
    let n = low_byte(draw) - 128;
    let m = 2 * jitter_max + 1;
    assert(-128 * m <= n * m <= 127 * m) by (nonlinear_arith)
        requires
            -128 <= n <= 127,
            m >= 1,
    ;
}

/// A decayed energy lies between zero and the energy it came from.
pub proof fn lemma_decay_bounds(pulse: int, decay_q8: u8)
    ensures
        pulse >= 0 ==> 0 <= pulse_decayed(pulse, decay_q8) <= pulse,
        pulse > 0 ==> pulse_decayed(pulse, decay_q8) < pulse,
        pulse >= 0 ==> 256 * pulse_decayed(pulse, decay_q8) <= 255 * pulse,
        pulse <= 0 ==> pulse <= pulse_decayed(pulse, decay_q8) <= 0,
        pulse <= MAX_PULSE + 255 ==> pulse_decayed(pulse, decay_q8) <= MAX_PULSE,
{
    let d = decay_q8 as int;
    if pulse >= 0 {
        assert(0 <= pulse * d <= pulse * 255) by (nonlinear_arith)
            requires
                pulse >= 0,
                0 <= d <= 255,
        ;
    } else {
        assert(pulse * 255 <= pulse * d <= 0) by (nonlinear_arith)
            requires
                pulse < 0,
                0 <= d <= 255,
        ;
    }
}

/// One smoothing step lands between the old output and the target.
pub proof fn lemma_smooth_never_overshoots(out_q8: int, target: int, smooth_q8: u8)
    ensures
        out_q8 <= target * 256 ==> out_q8 <= smooth_next(out_q8, target, smooth_q8) <= target * 256,
        out_q8 >= target * 256 ==> target * 256 <= smooth_next(out_q8, target, smooth_q8) <= out_q8,
{
    let diff = target * 256 - out_q8;
    let s = smooth_q8 as int;
    if diff >= 0 {
        assert(0 <= diff * s <= diff * 255) by (nonlinear_arith)
            requires
                diff >= 0,
                0 <= s <= 255,
        ;
    } else {
        assert(diff * 255 <= diff * s <= 0) by (nonlinear_arith)
            requires
                diff < 0,
                0 <= s <= 255,
        ;
    }
}

/// The envelope stays within its bounds, moves only in its direction, and
/// turns around exactly when it lands on the bound ahead.
pub proof fn lemma_envelope_turns_at_bounds(
    envelope_q8: int,
    rising: bool,
    delta: int,
    lo: int,
    hi: int,
)
    requires
        lo <= envelope_q8 <= hi,
        delta >= 0,
    ensures
        lo <= envelope_next(envelope_q8, rising, delta, lo, hi).0 <= hi,
        rising ==> envelope_next(envelope_q8, rising, delta, lo, hi).0 >= envelope_q8,
        !rising ==> envelope_next(envelope_q8, rising, delta, lo, hi).0 <= envelope_q8,
        rising ==> (!envelope_next(envelope_q8, rising, delta, lo, hi).1 <==> envelope_next(
            envelope_q8,
            rising,
            delta,
            lo,
            hi,
        ).0 == hi),
        !rising ==> (envelope_next(envelope_q8, rising, delta, lo, hi).1 <==> envelope_next(
            envelope_q8,
            rising,
            delta,
            lo,
            hi,
        ).0 == lo),
{
}

/// The pulse energy after `n` ticks on which no flare starts.
pub open spec fn pulse_after_decays(pulse: int, decay_q8: u8, n: nat) -> int
    decreases n,
{
    if n == 0 {
        pulse
    } else {
        pulse_decayed(pulse_after_decays(pulse, decay_q8, (n - 1) as nat), decay_q8)
    }
}

/// Without flares the pulse energy dies out. It loses at least one unit per
/// tick until it is zero, so it is zero after as many ticks as there were
/// units; and after `n` ticks it is at most the `n`-th power of
/// `decay_q8 / 256` times what it was.
pub proof fn lemma_pulse_dies_out(pulse: int, decay_q8: u8, n: nat)
    requires
        pulse >= 0,
    ensures
        0 <= pulse_after_decays(pulse, decay_q8, n) <= pulse,
        n <= pulse ==> pulse_after_decays(pulse, decay_q8, n) <= pulse - n,
        n >= pulse ==> pulse_after_decays(pulse, decay_q8, n) == 0,
        pulse_after_decays(pulse, decay_q8, n) * pow(256, n) <= pulse * pow(decay_q8 as int, n),
    decreases n,
{
    reveal_with_fuel(pow, 2);
    if n > 0 {
        let before = pulse_after_decays(pulse, decay_q8, (n - 1) as nat);
        let after = pulse_after_decays(pulse, decay_q8, n);
        let d = decay_q8 as int;
        let scale = pow(256, (n - 1) as nat);
        let shrink = pow(d, (n - 1) as nat);
        lemma_pulse_dies_out(pulse, decay_q8, (n - 1) as nat);
        lemma_decay_bounds(before, decay_q8);
        vstd::arithmetic::power::lemma_pow_positive(256, (n - 1) as nat);
        assert(256 * after <= before * d);
        assert(after * (256 * scale) <= pulse * (d * shrink)) by (nonlinear_arith)
            requires
                256 * after <= before * d,
                before * scale <= pulse * shrink,
                scale > 0,
                d >= 0,
                after >= 0,
        ;
    }
}

/// The output after `n` ticks with one unchanging target.
pub open spec fn smooth_after(out_q8: int, target: int, smooth_q8: u8, n: nat) -> int
    decreases n,
{
    if n == 0 {
        out_q8
    } else {
        smooth_next(smooth_after(out_q8, target, smooth_q8, (n - 1) as nat), target, smooth_q8)
    }
}

/// Under an unchanging target the output closes in from one side: from below
/// it never falls and never exceeds the target, from above it never rises
/// and never goes under it.
pub proof fn lemma_smoothing_closes_in(out_q8: int, target: int, smooth_q8: u8, n: nat)
    ensures
        out_q8 <= target * 256 ==> out_q8 <= smooth_after(out_q8, target, smooth_q8, n)
            <= smooth_after(out_q8, target, smooth_q8, n + 1) <= target * 256,
        out_q8 >= target * 256 ==> target * 256 <= smooth_after(out_q8, target, smooth_q8, n + 1)
            <= smooth_after(out_q8, target, smooth_q8, n) <= out_q8,
    decreases n,
{
    if n > 0 {
        lemma_smoothing_closes_in(out_q8, target, smooth_q8, (n - 1) as nat);
    }
    lemma_smooth_never_overshoots(smooth_after(out_q8, target, smooth_q8, n), target, smooth_q8);
}

} // verus!
