//! The flicker simulator: one brightness sample per tick.

use crate::config::FireConfig;
use crate::rng::{xorshift32, xorshift32_spec};
use crate::signal::{
    envelope_next, envelope_step, jitter, jitter_of, pulse_next, pulse_step, smooth_next,
    smooth_step, target_intensity, target_of, MAX_OUTPUT_Q8, MAX_PULSE,
};
use vstd::prelude::*;

verus! {

/// The state of one simulator as mathematical values.
pub struct FlickerModel {
    /// The generator word.
    pub rng: u32,
    /// The breathing envelope in Q8.
    pub envelope_q8: int,
    /// Whether the envelope is on its way up.
    pub rising: bool,
    /// The energy left of past flares.
    pub pulse: int,
    /// The smoothed brightness in Q8.
    pub output_q8: int,
}

/// The state a simulator starts in: the seed as generator word, envelope
/// and output at the lowest intensity, on the way up, with no pulse energy.
pub open spec fn initial(cfg: FireConfig, seed: u32) -> FlickerModel {
    FlickerModel {
        rng: seed,
        envelope_q8: cfg.min_q8(),
        rising: true,
        pulse: 0,
        output_q8: cfg.min_q8(),
    }
}

/// The unsmoothed brightness that a tick starting from `s` aims at: the
/// whole part of the moved envelope, plus the noise of the first generator
/// word, plus the pulse energy after the second, limited to 0..=255.
pub open spec fn tick_target(cfg: FireConfig, s: FlickerModel) -> int {
    let envelope = envelope_next(
        s.envelope_q8,
        s.rising,
        cfg.envelope_delta(),
        cfg.min_q8(),
        cfg.max_q8(),
    );
    let noise_draw = xorshift32_spec(s.rng);
    let pulse_draw = xorshift32_spec(noise_draw);
    let pulse = pulse_next(s.pulse, pulse_draw, cfg.pulse_prob, cfg.pulse_boost, cfg.pulse_decay_q8);
    target_of(envelope.0, jitter_of(noise_draw, cfg.jitter_max), pulse)
}

/// The state after one tick.
///
/// The envelope moves first. The generator then advances twice: the first
/// word gives the noise, the second decides on a flare. Envelope, noise and
/// pulse energy add up to the target, which the output follows.
pub open spec fn tick(cfg: FireConfig, s: FlickerModel) -> FlickerModel {
    let envelope = envelope_next(
        s.envelope_q8,
        s.rising,
        cfg.envelope_delta(),
        cfg.min_q8(),
        cfg.max_q8(),
    );
    let pulse_draw = xorshift32_spec(xorshift32_spec(s.rng));
    FlickerModel {
        rng: pulse_draw,
        envelope_q8: envelope.0,
        rising: envelope.1,
        pulse: pulse_next(
            s.pulse,
            pulse_draw,
            cfg.pulse_prob,
            cfg.pulse_boost,
            cfg.pulse_decay_q8,
        ),
        output_q8: smooth_next(s.output_q8, tick_target(cfg, s), cfg.smooth_q8),
    }
}

/// The brightness a state shows: the whole part of its output.
pub open spec fn intensity_of(s: FlickerModel) -> int {
    s.output_q8 / 256
}

/// What every reachable state keeps: a generator word that is not zero, the
/// envelope within the configured range, the pulse energy between 0 and
/// `255 * 255`, and the output between 0 and `255 << 8`.
pub open spec fn in_range(cfg: FireConfig, s: FlickerModel) -> bool {
    &&& s.rng != 0
    &&& cfg.min_q8() <= s.envelope_q8 <= cfg.max_q8()
    &&& 0 <= s.pulse <= MAX_PULSE
    &&& 0 <= s.output_q8 <= MAX_OUTPUT_Q8
}

/// The state of a single fire effect. Several of them, each with its own
/// seed, flicker side by side without falling into step.
pub struct FireState {
    rng: u32,
    base_q8: i32,
    rising: bool,
    out_q8: i32,
    pulse: i32,
    cfg: FireConfig,
    step_q8: u32,
    max_q8: i32,
    min_q8: i32,
}

impl View for FireState {
    type V = FlickerModel;

    closed spec fn view(&self) -> FlickerModel {
        FlickerModel {
            rng: self.rng,
            envelope_q8: self.base_q8 as int,
            rising: self.rising,
            pulse: self.pulse as int,
            output_q8: self.out_q8 as int,
        }
    }
}

impl FireState {
    #[verifier::type_invariant]
    spec fn inv(self) -> bool {
        &&& self.cfg.wf()
        &&& self.step_q8 == self.cfg.step_per_ms()
        &&& self.min_q8 == self.cfg.min_q8()
        &&& self.max_q8 == self.cfg.max_q8()
        &&& in_range(self.cfg, self@)
    }

    /// The configuration the simulator was made with.
    pub closed spec fn config(&self) -> FireConfig {
        self.cfg
    }

    /// Makes a simulator in its [`initial`] state. The seed must not be
    /// zero: zero is the one word the generator never leaves.
    pub fn new(cfg: FireConfig, seed: u32) -> (s: Self)
        requires
            cfg.wf(),
            seed != 0,
        ensures
            s.config() == cfg,
            s@ == initial(cfg, seed),
            in_range(cfg, s@),
    {
        let span: u64 = (cfg.max_intensity - cfg.min_intensity) as u64;
        let step_q8: u64 = (span * 512) / (cfg.breath_period_ms as u64);
        proof {
            cfg.lemma_step_bounds();
        }
        let min_q8: i32 = (cfg.min_intensity as i32) * 256;
        let max_q8: i32 = (cfg.max_intensity as i32) * 256;
        FireState {
            rng: seed,
            base_q8: min_q8,
            rising: true,
            out_q8: min_q8,
            pulse: 0,
            cfg,
            step_q8: step_q8 as u32,
            max_q8,
            min_q8,
        }
    }

    /// Advances the simulation by one [`tick`] and returns the new
    /// intensity.
    pub fn update(&mut self) -> (intensity: u8)
        ensures
            final(self).config() == old(self).config(),
            final(self)@ == tick(old(self).config(), old(self)@),
            in_range(final(self).config(), final(self)@),
            intensity == intensity_of(final(self)@),
    {
        proof {
            use_type_invariant(&*self);
            self.cfg.lemma_step_bounds();
        }
        let delta: u64 = (self.step_q8 as u64) * (self.cfg.tick_ms as u64);
        let (base_q8, rising) = envelope_step(
            self.base_q8,
            self.rising,
            delta,
            self.min_q8,
            self.max_q8,
        );
        let noise_draw = xorshift32(self.rng);
        let noise = jitter(noise_draw, self.cfg.jitter_max);
        let pulse_draw = xorshift32(noise_draw);
        let pulse = pulse_step(
            self.pulse,
            pulse_draw,
            self.cfg.pulse_prob,
            self.cfg.pulse_boost,
            self.cfg.pulse_decay_q8,
        );
        let target = target_intensity(base_q8, noise, pulse);
        let out_q8 = smooth_step(self.out_q8, target, self.cfg.smooth_q8);

        self.base_q8 = base_q8;
        self.rising = rising;
        self.rng = pulse_draw;
        self.pulse = pulse;
        self.out_q8 = out_q8;

        assert(out_q8 >> 8u32 == out_q8 / 256) by (bit_vector);
        (out_q8 >> 8) as u8
    }

    /// The intensity the last tick returned, or the lowest intensity before
    /// the first tick.
    pub fn intensity(&self) -> (intensity: u8)
        ensures
            intensity == intensity_of(self@),
    {
        proof {
            use_type_invariant(self);
        }
        let out_q8 = self.out_q8;
        assert(out_q8 >> 8u32 == out_q8 / 256) by (bit_vector);
        (out_q8 >> 8) as u8
    }

    /// The generator word.
    pub fn rng_state(&self) -> (word: u32)
        ensures
            word == self@.rng,
    {
        self.rng
    }

    /// The breathing envelope in Q8.
    pub fn envelope_q8(&self) -> (value: i32)
        ensures
            value == self@.envelope_q8,
    {
        self.base_q8
    }

    /// Whether the envelope is on its way up.
    pub fn is_rising(&self) -> (rising: bool)
        ensures
            rising == self@.rising,
    {
        self.rising
    }

    /// The energy left of past flares.
    pub fn pulse_energy(&self) -> (value: i32)
        ensures
            value == self@.pulse,
    {
        self.pulse
    }

    /// The smoothed brightness in Q8.
    pub fn output_q8(&self) -> (value: i32)
        ensures
            value == self@.output_q8,
    {
        self.out_q8
    }
}

} // verus!
