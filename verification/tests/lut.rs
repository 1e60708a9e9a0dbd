use fire_led::lut::{create_lut, BrightnessTable};

#[test]
fn lut_starts_at_zero_and_ends_at_top() {
    for top in [0u16, 1, 2, 255, 4_999, 5_000, 32_768, 65_534, 65_535] {
        let lut = create_lut(top);
        assert_eq!(lut[0], 0);
        assert_eq!(lut[255], top);
    }
}

#[test]
fn lut_never_falls() {
    for top in [1u16, 2, 255, 4_999, 65_535] {
        let lut = create_lut(top);
        for i in 1..256 {
            assert!(lut[i - 1] <= lut[i]);
            assert!(lut[i] <= top);
        }
    }
}

#[test]
fn lut_known_entries() {
    let lut = create_lut(5_000);
    assert_eq!(lut[1], 0);
    assert_eq!(lut[2], 0);
    assert_eq!(lut[16], 19);
    assert_eq!(lut[128], 1259);
    assert_eq!(lut[254], 4960);
    let lut = create_lut(65_535);
    assert_eq!(lut[1], 1);
    assert_eq!(lut[128], 16_512);
}

#[test]
fn lut_follows_the_formula() {
    for top in [1u16, 777, 4_999, 65_535] {
        let lut = create_lut(top);
        for i in 0u64..256 {
            assert_eq!(lut[i as usize] as u64, (i * i * top as u64 + 32) / 65_025);
        }
    }
}

#[test]
fn lut_for_zero_top_is_dark() {
    let lut = create_lut(0);
    for entry in lut {
        assert_eq!(entry, 0);
    }
}

#[test]
fn lut_for_top_one_lights_only_at_full_intensity() {
    let lut = create_lut(1);
    for i in 0..255 {
        assert_eq!(lut[i], 0);
    }
    assert_eq!(lut[255], 1);
}

#[test]
fn brightness_table_looks_up_the_lut() {
    let table = BrightnessTable::new(5_000);
    let lut = create_lut(5_000);
    for i in 0u16..256 {
        assert_eq!(table.duty(i as u8), lut[i as usize]);
        assert!(table.duty(i as u8) <= 5_000);
    }
    assert_eq!(table.duty(128), 1259);
    assert_eq!(table.duty(255), 5_000);
}
