//! Parameters that shape the look of the flame.

use vstd::prelude::*;

verus! {

/// Fire effect configuration.
///
/// All values are plain integers. Fractions are Q8: the value `n` stands for
/// `n / 256`.
#[derive(Clone, Copy, Debug)]
pub struct FireConfig {
    /// PWM target frequency in Hz. 20-30 kHz keeps flicker invisible.
    pub pwm_freq_hz: u32,
    /// Integer clock divider of the PWM slice.
    pub pwm_divider: u8,
    /// Lowest base intensity of the breathing envelope.
    pub min_intensity: u8,
    /// Highest base intensity of the breathing envelope.
    pub max_intensity: u8,
    /// Duration of one full up-and-down breath in milliseconds.
    pub breath_period_ms: u32,
    /// Amplitude of the per-tick noise added around the envelope.
    pub jitter_max: u8,
    /// Chance out of 256 that a flare starts on a tick.
    pub pulse_prob: u8,
    /// Intensity added to the pulse energy when a flare starts.
    pub pulse_boost: u8,
    /// Q8 factor by which the pulse energy shrinks on every tick.
    pub pulse_decay_q8: u8,
    /// Q8 rate at which the output follows the target on every tick.
    pub smooth_q8: u8,
    /// Length of one simulation step in milliseconds.
    pub tick_ms: u32,
}

impl FireConfig {
    /// A configuration the simulator accepts: the intensity range is not
    /// inverted and both durations are positive.
    pub open spec fn wf(self) -> bool {
        &&& self.min_intensity <= self.max_intensity
        &&& self.breath_period_ms > 0
        &&& self.tick_ms > 0
    }

    /// The stock flame: a slow breath between 20 and 255 with light jitter
    /// and rare flares, stepped every 15 ms on a 25 kHz PWM.
    pub open spec fn stock() -> FireConfig {
        FireConfig {
            pwm_freq_hz: 25_000,
            pwm_divider: 1,
            min_intensity: 20,
            max_intensity: 255,
            breath_period_ms: 3_500,
            jitter_max: 18,
            pulse_prob: 3,
            pulse_boost: 40,
            pulse_decay_q8: 232,
            smooth_q8: 20,
            tick_ms: 15,
        }
    }

    /// The Q8 value of the lowest envelope intensity.
    pub open spec fn min_q8(self) -> int {
        self.min_intensity * 256
    }

    /// The Q8 value of the highest envelope intensity.
    pub open spec fn max_q8(self) -> int {
        self.max_intensity * 256
    }

    /// The Q8 distance the envelope covers per millisecond: twice the span
    /// over the breath period, rounded down, so that the rise takes one half
    /// of the period and the fall the other.
    pub open spec fn step_per_ms(self) -> int {
        (2 * (self.max_intensity - self.min_intensity) * 256) / (self.breath_period_ms as int)
    }

    /// The Q8 distance the envelope covers per tick.
    pub open spec fn envelope_delta(self) -> int {
        self.step_per_ms() * self.tick_ms
    }

    /// The per-millisecond step is never negative and at most `2 * 255 * 256`.
    pub proof fn lemma_step_bounds(self)
        requires
            self.wf(),
        ensures
            0 <= self.step_per_ms() <= 130_560,
            0 <= self.envelope_delta() <= 130_560 * 0xffff_ffff,
    {
        let span2 = 2 * (self.max_intensity - self.min_intensity) * 256;
        let period = self.breath_period_ms as int;
        vstd::arithmetic::div_mod::lemma_div_nonincreasing(span2, period);
        vstd::arithmetic::div_mod::lemma_div_pos_is_pos(span2, period);
        let step = self.step_per_ms();
        let tick = self.tick_ms as int;
        assert(0 <= step * tick <= 130_560 * 0xffff_ffff) by (nonlinear_arith)
            requires
                0 <= step <= 130_560,
                0 <= tick <= 0xffff_ffff,
        ;
    }

    /// Tells whether the simulator accepts this configuration.
    pub fn is_valid(&self) -> (ok: bool)
        ensures
            ok == self.wf(),
    {
        self.min_intensity <= self.max_intensity && self.breath_period_ms > 0 && self.tick_ms > 0
    }
}

impl Default for FireConfig {
    fn default() -> (cfg: Self)
        ensures
            cfg == FireConfig::stock(),
            cfg.wf(),
    {
        FireConfig {
            pwm_freq_hz: 25_000,
            pwm_divider: 1,
            min_intensity: 20,
            max_intensity: 255,
            breath_period_ms: 3_500,
            jitter_max: 18,
            pulse_prob: 3,
            pulse_boost: 40,
            pulse_decay_q8: 232,
            smooth_q8: 20,
            tick_ms: 15,
        }
    }
}

} // verus!
