use fire_led::signal::{
    envelope_step, jitter, pulse_step, smooth_step, target_intensity, MAX_OUTPUT_Q8, MAX_PULSE,
};

#[test]
fn envelope_climbs_by_delta() {
    assert_eq!(envelope_step(5_120, true, 510, 5_120, 65_280), (5_630, true));
    assert_eq!(envelope_step(64_280, true, 510, 5_120, 65_280), (64_790, true));
}

#[test]
fn envelope_turns_at_the_top() {
    assert_eq!(envelope_step(64_790, true, 510, 5_120, 65_280), (65_280, false));
    assert_eq!(envelope_step(64_770, true, 510, 5_120, 65_280), (65_280, false));
    assert_eq!(envelope_step(65_280, true, 0, 5_120, 65_280), (65_280, false));
}

#[test]
fn envelope_descends_by_delta() {
    assert_eq!(envelope_step(65_280, false, 510, 5_120, 65_280), (64_770, false));
    assert_eq!(envelope_step(6_120, false, 510, 5_120, 65_280), (5_610, false));
}

#[test]
fn envelope_turns_at_the_bottom() {
    assert_eq!(envelope_step(5_610, false, 510, 5_120, 65_280), (5_120, true));
    assert_eq!(envelope_step(5_630, false, 510, 5_120, 65_280), (5_120, true));
    assert_eq!(envelope_step(5_120, false, 0, 5_120, 65_280), (5_120, true));
}

#[test]
fn envelope_survives_the_largest_delta() {
    assert_eq!(envelope_step(0, true, u64::MAX, 0, 65_280), (65_280, false));
    assert_eq!(envelope_step(65_280, false, u64::MAX, 0, 65_280), (0, true));
    assert_eq!(envelope_step(i32::MIN, true, u64::MAX, i32::MIN, i32::MAX), (i32::MAX, false));
    assert_eq!(envelope_step(i32::MAX, false, u64::MAX, i32::MIN, i32::MAX), (i32::MIN, true));
}

#[test]
fn envelope_stands_still_without_delta() {
    assert_eq!(envelope_step(7_000, true, 0, 5_120, 65_280), (7_000, true));
    assert_eq!(envelope_step(7_000, false, 0, 5_120, 65_280), (7_000, false));
}

#[test]
fn jitter_known_values() {
    assert_eq!(jitter(0, 0), -1);
    assert_eq!(jitter(127, 0), -1);
    assert_eq!(jitter(128, 0), 0);
    assert_eq!(jitter(255, 0), 0);
    assert_eq!(jitter(0, 18), -19);
    assert_eq!(jitter(255, 18), 18);
    assert_eq!(jitter(0, 255), -256);
    assert_eq!(jitter(255, 255), 253);
    assert_eq!(jitter(0xC8, 25), 14);
    assert_eq!(jitter(0x37, 25), -15);
}

#[test]
fn jitter_reads_the_low_byte_only() {
    assert_eq!(jitter(0x1234_5680, 64), 0);
    for high in [0u32, 0x100, 0xABCD_EF00, 0xFFFF_FF00] {
        for byte in 0u32..256 {
            assert_eq!(jitter(high | byte, 18), jitter(byte, 18));
        }
    }
}

#[test]
fn jitter_stays_within_one_of_the_amplitude() {
    for amplitude in 0u16..256 {
        let amplitude = amplitude as u8;
        for byte in 0u32..256 {
            let noise = jitter(byte, amplitude);
            assert!(noise >= -(amplitude as i32) - 1);
            assert!(noise <= amplitude as i32);
        }
    }
}

#[test]
fn pulse_decays_without_a_flare() {
    assert_eq!(pulse_step(40, 200, 3, 40, 232), 36);
    assert_eq!(pulse_step(100, 0, 0, 40, 232), 90);
    assert_eq!(pulse_step(1, 9, 3, 40, 255), 0);
}

#[test]
fn pulse_flares_when_the_byte_is_below_the_chance() {
    assert_eq!(pulse_step(0, 2, 3, 40, 232), 36);
    assert_eq!(pulse_step(0, 3, 3, 40, 232), 0);
    assert_eq!(pulse_step(0, 0xFFFF_FF02, 3, 40, 232), 36);
}

#[test]
fn pulse_flares_stack() {
    assert_eq!(pulse_step(36, 2, 3, 40, 232), 68);
}

#[test]
fn pulse_with_zero_decay_is_gone_at_once() {
    assert_eq!(pulse_step(100, 7, 3, 40, 0), 0);
    assert_eq!(pulse_step(100, 1, 3, 40, 0), 0);
}

#[test]
fn pulse_keeps_its_ceiling() {
    assert_eq!(MAX_PULSE, 65_025);
    assert_eq!(pulse_step(65_025, 0, 255, 255, 255), 65_025);
    assert_eq!(pulse_step(65_025, 255, 255, 255, 255), 64_770);
}

#[test]
fn pulse_accepts_every_energy() {
    assert_eq!(pulse_step(i32::MAX, 0, 255, 255, 255), 2_139_095_293);
    assert_eq!(pulse_step(-1, 9, 3, 40, 232), -1);
    assert_eq!(pulse_step(i32::MIN, 9, 3, 40, 255), -2_139_095_040);
}

#[test]
fn pulse_dies_out_without_flares() {
    let expected = [32, 29, 26, 23, 20, 18, 16, 14, 12, 10, 9, 8, 7, 6, 5, 4, 3, 2, 1, 0];
    let mut energy = 36;
    for want in expected {
        let next = pulse_step(energy, 200, 3, 40, 232);
        assert_eq!(next, want);
        assert!(next < energy);
        energy = next;
    }
    assert_eq!(pulse_step(energy, 200, 3, 40, 232), 0);
}

#[test]
fn pulse_dies_out_from_the_ceiling_under_the_slowest_decay() {
    let mut energy = MAX_PULSE;
    let mut ticks = 0;
    while energy > 0 {
        let next = pulse_step(energy, 200, 3, 40, 255);
        assert!(next < energy);
        energy = next;
        ticks += 1;
    }
    assert_eq!(ticks, 1_563);
}

#[test]
fn target_adds_and_clamps() {
    assert_eq!(target_intensity(25_600, -3, 7), 104);
    assert_eq!(target_intensity(25_855, 0, 0), 100);
    assert_eq!(target_intensity(5_120, -30, 0), 0);
    assert_eq!(target_intensity(65_280, 10, 0), 255);
    assert_eq!(target_intensity(0, -1, 0), 0);
    assert_eq!(target_intensity(0, 0, 65_025), 255);
}

#[test]
fn target_rounds_the_envelope_down() {
    assert_eq!(target_intensity(-256, 0, 1), 0);
    assert_eq!(target_intensity(-1, 0, 1), 0);
    assert_eq!(target_intensity(-1, 0, 2), 1);
    assert_eq!(target_intensity(i32::MAX, i32::MAX, i32::MAX), 255);
    assert_eq!(target_intensity(i32::MIN, i32::MIN, i32::MIN), 0);
}

#[test]
fn smooth_known_values() {
    assert_eq!(MAX_OUTPUT_Q8, 65_280);
    assert_eq!(smooth_step(0, 255, 20), 5_100);
    assert_eq!(smooth_step(65_280, 0, 20), 60_180);
    assert_eq!(smooth_step(0, 1, 1), 1);
    assert_eq!(smooth_step(0, 1, 255), 255);
    assert_eq!(smooth_step(0, 255, 255), 65_025);
    assert_eq!(smooth_step(5_120, 20, 255), 5_120);
    assert_eq!(smooth_step(65_280, 255, 255), 65_280);
}

#[test]
fn smooth_rounds_down_on_the_way_down() {
    assert_eq!(smooth_step(100, 0, 1), 99);
}

#[test]
fn smooth_with_zero_rate_holds_the_output() {
    assert_eq!(smooth_step(1_000, 255, 0), 1_000);
    assert_eq!(smooth_step(1_000, 0, 0), 1_000);
}

#[test]
fn smooth_accepts_every_output() {
    assert_eq!(smooth_step(i32::MIN, 255, 255), -8_323_583);
    assert_eq!(smooth_step(i32::MAX, 0, 255), 8_388_607);
}

#[test]
fn smooth_closes_in_from_below() {
    let expected = [
        12_800, 22_400, 29_600, 35_000, 39_050, 42_087, 44_365, 46_073, 47_354, 48_315, 49_036,
        49_577,
    ];
    let mut out = 0;
    for want in expected {
        let next = smooth_step(out, 200, 64);
        assert_eq!(next, want);
        assert!(out <= next && next <= 200 * 256);
        out = next;
    }
    for _ in 0..2_000 {
        let next = smooth_step(out, 200, 64);
        assert!(out <= next && next <= 200 * 256);
        out = next;
    }
    assert_eq!(out, 51_197);
}

#[test]
fn smooth_closes_in_from_above() {
    let expected = [
        49_600, 37_840, 29_020, 22_405, 17_443, 13_722, 10_931, 8_838, 7_268, 6_091, 5_208,
        4_546,
    ];
    let mut out = 65_280;
    for want in expected {
        let next = smooth_step(out, 10, 64);
        assert_eq!(next, want);
        assert!(10 * 256 <= next && next <= out);
        out = next;
    }
    for _ in 0..2_000 {
        let next = smooth_step(out, 10, 64);
        assert!(10 * 256 <= next && next <= out);
        out = next;
    }
    assert_eq!(out, 2_560);
}
