//! What a simulator does over many ticks.

use crate::config::FireConfig;
use crate::flicker::{in_range, initial, intensity_of, tick, tick_target, FlickerModel};
use crate::rng::{lemma_xorshift32_injective, lemma_xorshift32_nonzero, xorshift32_spec};
use crate::signal::{
    clamp_intensity, lemma_decay_bounds, lemma_envelope_turns_at_bounds, lemma_jitter_bounds,
    lemma_smooth_never_overshoots, pulse_fires,
};
use vstd::prelude::*;

verus! {

/// The state `n` ticks after `start`.
pub open spec fn run(cfg: FireConfig, start: FlickerModel, n: nat) -> FlickerModel
    decreases n,
{
    if n == 0 {
        start
    } else {
        tick(cfg, run(cfg, start, (n - 1) as nat))
    }
}

/// The state of a simulator made from `seed`, `n` ticks later.
pub open spec fn state_after(cfg: FireConfig, seed: u32, n: nat) -> FlickerModel {
    run(cfg, initial(cfg, seed), n)
}

/// The first `n` intensities a simulator made from `seed` returns.
pub open spec fn intensities(cfg: FireConfig, seed: u32, n: nat) -> Seq<int> {
    Seq::new(n, |k: int| intensity_of(state_after(cfg, seed, (k + 1) as nat)))
}

/// A tick keeps a state within its bounds and its generator word away from
/// zero, and the intensity it shows is one of 0..=255.
pub proof fn lemma_tick_keeps_range(cfg: FireConfig, s: FlickerModel)
    requires
        cfg.wf(),
        in_range(cfg, s),
    ensures
        in_range(cfg, tick(cfg, s)),
        0 <= intensity_of(tick(cfg, s)) <= 255,
{
    cfg.lemma_step_bounds();
    lemma_envelope_turns_at_bounds(
        s.envelope_q8,
        s.rising,
        cfg.envelope_delta(),
        cfg.min_q8(),
        cfg.max_q8(),
    );
    lemma_xorshift32_nonzero(s.rng);
    lemma_xorshift32_nonzero(xorshift32_spec(s.rng));
    lemma_decay_bounds(s.pulse, cfg.pulse_decay_q8);
    lemma_decay_bounds(s.pulse + cfg.pulse_boost, cfg.pulse_decay_q8);
    lemma_smooth_bounds(cfg, s);
}

/// The output after a tick lies between 0 and `255 << 8` if it did before.
proof fn lemma_smooth_bounds(cfg: FireConfig, s: FlickerModel)
    requires
        0 <= s.output_q8 <= 65_280,
    ensures
        0 <= tick(cfg, s).output_q8 <= 65_280,
{
    lemma_smooth_never_overshoots(s.output_q8, tick_target(cfg, s), cfg.smooth_q8);
}

/// Every state a simulator passes through is within its bounds and holds a
/// generator word that is not zero, and every intensity it returns is one of
/// 0..=255.
pub proof fn lemma_states_stay_in_range(cfg: FireConfig, seed: u32, n: nat)
    requires
        cfg.wf(),
        seed != 0,
    ensures
        in_range(cfg, state_after(cfg, seed, n)),
        0 <= intensity_of(state_after(cfg, seed, n)) <= 255,
    decreases n,
{
    if n > 0 {
        lemma_states_stay_in_range(cfg, seed, (n - 1) as nat);
        lemma_tick_keeps_range(cfg, state_after(cfg, seed, (n - 1) as nat));
    }
}

/// Two simulators made with one configuration and one seed pass through the
/// same states and return the same intensities, tick for tick.
pub proof fn lemma_same_seed_same_intensities(
    cfg: FireConfig,
    seed_a: u32,
    seed_b: u32,
    n: nat,
)
    requires
        seed_a == seed_b,
    ensures
        intensities(cfg, seed_a, n) == intensities(cfg, seed_b, n),
        forall|k: nat| state_after(cfg, seed_a, k) == state_after(cfg, seed_b, k),
{
}

/// Simulators made from different seeds never hold the same generator word
/// at the same tick.
pub proof fn lemma_distinct_seeds_stay_distinct(
    cfg: FireConfig,
    seed_a: u32,
    seed_b: u32,
    n: nat,
)
    requires
        seed_a != seed_b,
    ensures
        state_after(cfg, seed_a, n).rng != state_after(cfg, seed_b, n).rng,
    decreases n,
{
    if n > 0 {
        lemma_distinct_seeds_stay_distinct(cfg, seed_a, seed_b, (n - 1) as nat);
        let a = state_after(cfg, seed_a, (n - 1) as nat).rng;
        let b = state_after(cfg, seed_b, (n - 1) as nat).rng;
        lemma_xorshift32_injective(a, b);
        lemma_xorshift32_injective(
            xorshift32_spec(a),
            xorshift32_spec(b),
        );
    }
}

/// The number of ticks one rise of the envelope takes, and one fall: the Q8
/// span over the distance covered per tick, rounded up.
pub open spec fn half_wave_ticks(cfg: FireConfig) -> int
    recommends
        cfg.envelope_delta() > 0,
{
    (cfg.max_q8() - cfg.min_q8() + cfg.envelope_delta() - 1) / cfg.envelope_delta()
}

/// A triangular wave sampled at tick `n`: a straight climb from the lowest
/// intensity that lands on the highest after [`half_wave_ticks`] ticks,
/// then a straight descent of the same length, over and over. The flag tells
/// whether the wave is climbing.
pub open spec fn triangle_wave(cfg: FireConfig, n: nat) -> (int, bool)
    recommends
        cfg.envelope_delta() > 0,
{
    let half = half_wave_ticks(cfg);
    let phase = (n as int) % (2 * half);
    if phase < half {
        (cfg.min_q8() + phase * cfg.envelope_delta(), true)
    } else {
        (cfg.max_q8() - (phase - half) * cfg.envelope_delta(), false)
    }
}

/// The last step of a rise or fall is the one that reaches the far bound.
proof fn lemma_half_wave(cfg: FireConfig)
    requires
        cfg.wf(),
        cfg.min_intensity < cfg.max_intensity,
        cfg.envelope_delta() > 0,
    ensures
        half_wave_ticks(cfg) >= 1,
        (half_wave_ticks(cfg) - 1) * cfg.envelope_delta() < cfg.max_q8() - cfg.min_q8(),
        cfg.max_q8() - cfg.min_q8() <= half_wave_ticks(cfg) * cfg.envelope_delta(),
{
    let span = cfg.max_q8() - cfg.min_q8();
    let delta = cfg.envelope_delta();
    let half = half_wave_ticks(cfg);
    vstd::arithmetic::div_mod::lemma_fundamental_div_mod(span + delta - 1, delta);
    vstd::arithmetic::div_mod::lemma_mod_bound(span + delta - 1, delta);
    let rest = (span + delta - 1) % delta;
    assert(delta * half + rest == span + delta - 1);
    assert((half - 1) * delta == delta * half - delta) by (nonlinear_arith);
    assert(half * delta == delta * half) by (nonlinear_arith);
    assert(half >= 1) by (nonlinear_arith)
        requires
            delta * half + rest == span + delta - 1,
            0 <= rest < delta,
            span >= 1,
            delta > 0,
    ;
}

/// With a span to cover and an envelope that moves, the envelope is the
/// triangular wave, whatever the seed and the other settings: it climbs from
/// the lowest intensity in equal steps, lands exactly on the highest, descends
/// in the same steps, lands exactly on the lowest, and starts over.
pub proof fn lemma_envelope_is_triangle_wave(cfg: FireConfig, seed: u32, n: nat)
    requires
        cfg.wf(),
        cfg.min_intensity < cfg.max_intensity,
        cfg.envelope_delta() > 0,
    ensures
        state_after(cfg, seed, n).envelope_q8 == triangle_wave(cfg, n).0,
        state_after(cfg, seed, n).rising == triangle_wave(cfg, n).1,
    decreases n,
{
    let half = half_wave_ticks(cfg);
    let delta = cfg.envelope_delta();
    lemma_half_wave(cfg);
    if n == 0 {
        assert(0int % (2 * half) == 0);
        assert(0 * delta == 0);
    } else {
        let m = (n - 1) as nat;
        lemma_envelope_is_triangle_wave(cfg, seed, m);
        let before = (m as int) % (2 * half);
        let after = (n as int) % (2 * half);
        lemma_phase_advances(m as int, 2 * half);
        assert(after == if before + 1 == 2 * half {
            0
        } else {
            before + 1
        });
        vstd::arithmetic::div_mod::lemma_mod_bound(m as int, 2 * half);
        assert(0 * delta == 0);
        if before < half {
            assert((before + 1) * delta == before * delta + delta) by (nonlinear_arith);
            if before + 1 < half {
                assert((before + 1) * delta <= (half - 1) * delta) by (nonlinear_arith)
                    requires
                        before + 1 <= half - 1,
                        delta > 0,
                ;
            } else {
                assert(before + 1 == half);
            }
        } else {
            let down = before - half;
            assert((down + 1) * delta == down * delta + delta) by (nonlinear_arith);
            if before + 1 < 2 * half {
                assert((down + 1) * delta <= (half - 1) * delta) by (nonlinear_arith)
                    requires
                        down + 1 <= half - 1,
                        delta > 0,
                ;
            } else {
                assert(down + 1 == half);
            }
        }
    }
}

/// Counting one further moves the remainder one further, or back to zero.
proof fn lemma_phase_advances(m: int, period: int)
    requires
        m >= 0,
        period > 0,
    ensures
        (m + 1) % period == if m % period + 1 == period {
            0
        } else {
            m % period + 1
        },
{
    vstd::arithmetic::div_mod::lemma_fundamental_div_mod(m, period);
    vstd::arithmetic::div_mod::lemma_mod_bound(m, period);
    let q = m / period;
    let r = m % period;
    if r + 1 == period {
        assert(m + 1 == (q + 1) * period + 0) by (nonlinear_arith)
            requires
                m == period * q + r,
                r + 1 == period,
        ;
        vstd::arithmetic::div_mod::lemma_fundamental_div_mod_converse(m + 1, period, q + 1, 0);
    } else {
        assert(m + 1 == q * period + (r + 1)) by (nonlinear_arith)
            requires
                m == period * q + r,
        ;
        vstd::arithmetic::div_mod::lemma_fundamental_div_mod_converse(m + 1, period, q, r + 1);
    }
}

/// A rise of the envelope never takes less than half the breath period, and
/// neither does a fall: the per-millisecond step is rounded down, never up.
pub proof fn lemma_half_wave_takes_half_period(cfg: FireConfig)
    requires
        cfg.wf(),
        cfg.min_intensity < cfg.max_intensity,
        cfg.envelope_delta() > 0,
    ensures
        2 * half_wave_ticks(cfg) * cfg.tick_ms >= cfg.breath_period_ms,
{
    lemma_half_wave(cfg);
    cfg.lemma_step_bounds();
    let half = half_wave_ticks(cfg);
    let step = cfg.step_per_ms();
    let tick_ms = cfg.tick_ms as int;
    let period = cfg.breath_period_ms as int;
    let span2 = 2 * (cfg.max_intensity - cfg.min_intensity) * 256;
    vstd::arithmetic::div_mod::lemma_fundamental_div_mod(span2, period);
    vstd::arithmetic::div_mod::lemma_mod_bound(span2, period);
    assert(period * step <= span2);
    assert(step > 0) by (nonlinear_arith)
        requires
            step * tick_ms > 0,
            step >= 0,
    ;
    assert(2 * half * tick_ms >= period) by (nonlinear_arith)
        requires
            period * step <= span2,
            span2 <= 2 * (half * (step * tick_ms)),
            step > 0,
            half >= 1,
            tick_ms > 0,
            period > 0,
    ;
}

/// With no noise amplitude and no chance of a flare, the envelope alone
/// drives the brightness: the pulse energy stays zero, and the target of
/// every tick is the whole part of the envelope or, where the noise rounds
/// down, one below it, though never below zero.
pub proof fn lemma_envelope_alone(cfg: FireConfig, seed: u32, n: nat)
    requires
        cfg.wf(),
        seed != 0,
        cfg.jitter_max == 0,
        cfg.pulse_prob == 0,
    ensures
        state_after(cfg, seed, n).pulse == 0,
        tick_target(cfg, state_after(cfg, seed, n)) <= state_after(
            cfg,
            seed,
            n + 1,
        ).envelope_q8 / 256,
        tick_target(cfg, state_after(cfg, seed, n)) >= clamp_intensity(
            state_after(cfg, seed, n + 1).envelope_q8 / 256 - 1,
        ),
    decreases n,
{
    if n > 0 {
        lemma_envelope_alone(cfg, seed, (n - 1) as nat);
    }
    lemma_states_stay_in_range(cfg, seed, n);
    lemma_states_stay_in_range(cfg, seed, n + 1);
    let s = state_after(cfg, seed, n);
    let next = state_after(cfg, seed, n + 1);
    assert(next == tick(cfg, s));
    let noise_draw = xorshift32_spec(s.rng);
    let pulse_draw = xorshift32_spec(noise_draw);
    lemma_jitter_bounds(noise_draw, 0);
    lemma_decay_bounds(0, cfg.pulse_decay_q8);
    assert(!pulse_fires(pulse_draw, 0));
    assert(next.pulse == 0);
}

} // verus!
