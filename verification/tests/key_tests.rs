use he_keyboard::he_logic::{HallKey, KeyConfig, KeyState, FULL_TRAVEL};

fn firmware_config() -> KeyConfig {
    KeyConfig {
        actuation_mm: 12,
        release_mm: 10,
        rt_enabled: true,
        rt_press_mm: 1,
        rt_release_mm: 1,
        top_deadzone_mm: 20,
        bottom_deadzone_mm: 380,
    }
}

fn fixed_config() -> KeyConfig {
    KeyConfig { rt_enabled: false, ..firmware_config() }
}

/// Reading that gives position `pos` (even) for a key calibrated from 1000 to 2000.
fn reading_for(pos: u16) -> u16 {
    1000 + pos / 2 * 5
}

fn ready_key(pos: u16, pressed: bool, peak: u16, valley: u16) -> HallKey {
    HallKey {
        state: KeyState::Ready,
        filtered_value: reading_for(pos),
        baseline: 1000,
        max_travel: 2000,
        pos_mm: pos,
        is_pressed: pressed,
        peak_mm: peak,
        valley_mm: valley,
    }
}

/// Feeds the reading of position `pos` to a key already filtered at that reading.
fn hold(k: &mut HallKey, pos: u16, config: &KeyConfig) {
    let r = reading_for(pos);
    k.filtered_value = r;
    assert!(k.can_update(r, config));
    k.update(r, config);
    assert_eq!(k.pos_mm, pos);
}

#[test]
fn new_key_is_uncalibrated_and_up() {
    let k = HallKey::new();
    assert_eq!(k.state, KeyState::WaitingForDiscovery);
    assert_eq!(k.filtered_value, 0);
    assert_eq!(k.baseline, 0);
    assert_eq!(k.max_travel, 0);
    assert_eq!(k.pos_mm, 0);
    assert!(!k.is_pressed);
    assert_eq!(k.peak_mm, 0);
    assert_eq!(k.valley_mm, 400);
}

#[test]
fn set_baseline_starts_filter_and_depth_there() {
    let mut k = HallKey::new();
    k.set_baseline(1234);
    assert_eq!(k.baseline, 1234);
    assert_eq!(k.filtered_value, 1234);
    assert_eq!(k.max_travel, 1234);
    assert_eq!(k.state, KeyState::WaitingForDiscovery);
    assert_eq!(k.valley_mm, 400);
}

#[test]
fn filter_is_seven_eighths_old_one_eighth_new() {
    let cfg = firmware_config();
    let mut k = HallKey::new();
    k.set_baseline(1000);
    k.update(3000, &cfg);
    assert_eq!(k.filtered_value, 1250);
    k.update(3000, &cfg);
    assert_eq!(k.filtered_value, 1468);
}

#[test]
fn filter_stalls_just_below_the_sample() {
    let cfg = firmware_config();
    let mut k = HallKey::new();
    k.set_baseline(1000);
    k.update(1007, &cfg);
    assert_eq!(k.filtered_value, 1000);
    k.update(1008, &cfg);
    assert_eq!(k.filtered_value, 1001);
    k.update(990, &cfg);
    assert_eq!(k.filtered_value, 999);
}

#[test]
fn full_calibration_reaches_ready() {
    let cfg = firmware_config();
    let mut k = HallKey::new();
    k.set_baseline(1000);
    k.update(3000, &cfg);
    assert_eq!(k.state, KeyState::Discovering);
    for _ in 0..60 {
        k.update(3000, &cfg);
        assert_eq!(k.state, KeyState::Discovering);
    }
    let deepest = k.max_travel;
    assert!(deepest > 2900);
    let mut steps = 0;
    while k.state == KeyState::Discovering {
        k.update(1000, &cfg);
        steps += 1;
        assert!(steps < 100);
    }
    assert_eq!(k.state, KeyState::Ready);
    assert!(k.filtered_value < 1050);
    assert_eq!(k.max_travel, deepest);
    assert!(!k.is_pressed);
    assert_eq!(k.pos_mm, 0);
}

#[test]
fn shallow_calibration_press_goes_back_to_waiting() {
    let cfg = firmware_config();
    let mut k = HallKey::new();
    k.set_baseline(1000);
    k.filtered_value = 1160;
    k.update(1160, &cfg);
    assert_eq!(k.state, KeyState::Discovering);
    k.update(1160, &cfg);
    assert_eq!(k.max_travel, 1160);
    k.filtered_value = 1040;
    k.update(1040, &cfg);
    assert_eq!(k.state, KeyState::WaitingForDiscovery);
    assert_eq!(k.max_travel, 1160);
}

#[test]
fn ready_stays_ready_and_keeps_calibration() {
    let cfg = firmware_config();
    let mut k = ready_key(0, false, 0, 400);
    for raw in [0u16, 500, 65535, 1000, 30000] {
        k.update(raw, &cfg);
        assert_eq!(k.state, KeyState::Ready);
        assert_eq!(k.baseline, 1000);
        assert_eq!(k.max_travel, 2000);
        assert!(k.pos_mm <= FULL_TRAVEL);
    }
}

#[test]
fn position_scales_between_baseline_and_depth() {
    let cfg = fixed_config();
    let mut k = ready_key(0, false, 0, 400);
    k.filtered_value = 1500;
    k.update(1500, &cfg);
    assert_eq!(k.pos_mm, 200);
    k.filtered_value = 2000;
    k.update(2000, &cfg);
    assert_eq!(k.pos_mm, 400);
    k.filtered_value = 2600;
    k.update(2600, &cfg);
    assert_eq!(k.pos_mm, 400);
    k.filtered_value = 900;
    k.update(900, &cfg);
    assert_eq!(k.pos_mm, 0);
}

#[test]
fn position_is_zero_for_a_narrow_range() {
    let cfg = fixed_config();
    let mut k = ready_key(0, false, 0, 400);
    k.max_travel = 1099;
    k.filtered_value = 1090;
    k.update(1090, &cfg);
    assert_eq!(k.pos_mm, 0);
    k.max_travel = 1100;
    k.update(1090, &cfg);
    assert_eq!(k.pos_mm, 360);
}

#[test]
fn position_is_kept_to_sixteen_bits_before_capping() {
    let cfg = fixed_config();
    let mut k = ready_key(0, false, 0, 400);
    k.baseline = 0;
    k.max_travel = 399;
    k.filtered_value = 65378;
    k.update(65378, &cfg);
    assert_eq!(k.pos_mm, 5);
}

#[test]
fn fixed_thresholds_press_and_release() {
    let mut cfg = fixed_config();
    cfg.top_deadzone_mm = 0;
    let mut k = ready_key(0, false, 0, 400);
    hold(&mut k, 10, &cfg);
    assert!(!k.is_pressed);
    assert_eq!(k.valley_mm, 10);
    hold(&mut k, 12, &cfg);
    assert!(k.is_pressed);
    assert_eq!(k.peak_mm, 12);
    hold(&mut k, 200, &cfg);
    assert!(k.is_pressed);
    assert_eq!(k.peak_mm, 200);
    hold(&mut k, 12, &cfg);
    assert!(k.is_pressed);
    hold(&mut k, 10, &cfg);
    assert!(!k.is_pressed);
    assert_eq!(k.valley_mm, 10);
}

#[test]
fn fixed_threshold_inside_top_deadzone_releases() {
    let cfg = fixed_config();
    let mut k = ready_key(200, true, 200, 0);
    hold(&mut k, 12, &cfg);
    assert!(!k.is_pressed);
    assert_eq!(k.valley_mm, 12);
}

#[test]
fn past_actuation_a_released_key_presses_again_at_once() {
    let cfg = firmware_config();
    let mut k = ready_key(100, true, 100, 0);
    hold(&mut k, 98, &cfg);
    assert!(!k.is_pressed);
    hold(&mut k, 98, &cfg);
    assert!(k.is_pressed);
    assert_eq!(k.peak_mm, 98);
}

#[test]
fn top_deadzone_releases_a_pressed_key() {
    let mut cfg = fixed_config();
    cfg.release_mm = 0;
    let mut k = ready_key(100, true, 100, 0);
    hold(&mut k, 20, &cfg);
    assert!(!k.is_pressed);
    assert_eq!(k.valley_mm, 20);
}

#[test]
fn rapid_trigger_repress_and_release() {
    let mut cfg = firmware_config();
    cfg.actuation_mm = 300;
    let mut k = ready_key(0, false, 0, 0);
    hold(&mut k, 100, &cfg);
    assert!(k.is_pressed);
    assert_eq!(k.peak_mm, 100);
    hold(&mut k, 98, &cfg);
    assert!(!k.is_pressed);
    assert_eq!(k.valley_mm, 98);
    hold(&mut k, 98, &cfg);
    assert!(!k.is_pressed);
    hold(&mut k, 100, &cfg);
    assert!(k.is_pressed);
    assert_eq!(k.peak_mm, 100);
    hold(&mut k, 102, &cfg);
    assert_eq!(k.peak_mm, 102);
    hold(&mut k, 100, &cfg);
    assert!(!k.is_pressed);
}

#[test]
fn rapid_trigger_needs_more_than_the_sensitivity() {
    let mut cfg = firmware_config();
    cfg.rt_press_mm = 4;
    cfg.actuation_mm = 300;
    let mut k = ready_key(50, false, 0, 50);
    hold(&mut k, 54, &cfg);
    assert!(!k.is_pressed);
    hold(&mut k, 56, &cfg);
    assert!(k.is_pressed);
    assert_eq!(k.peak_mm, 56);
}

#[test]
fn bottom_deadzone_resets_the_peak() {
    let cfg = firmware_config();
    let mut k = ready_key(400, true, 400, 0);
    hold(&mut k, 390, &cfg);
    assert!(k.is_pressed);
    assert_eq!(k.peak_mm, 390);
    hold(&mut k, 380, &cfg);
    assert!(k.is_pressed);
    assert_eq!(k.peak_mm, 380);
    hold(&mut k, 378, &cfg);
    assert!(!k.is_pressed);
    assert_eq!(k.valley_mm, 378);
}

#[test]
fn rapid_trigger_off_inside_deadzones() {
    let cfg = firmware_config();
    let mut k = ready_key(20, false, 0, 10);
    hold(&mut k, 20, &cfg);
    assert!(k.is_pressed);
    let mut k = ready_key(380, false, 0, 300);
    let mut c2 = cfg;
    c2.actuation_mm = 390;
    hold(&mut k, 380, &c2);
    assert!(!k.is_pressed);
}

#[test]
fn uncalibrated_key_reports_nothing() {
    let cfg = firmware_config();
    let mut k = HallKey::new();
    k.set_baseline(1000);
    for _ in 0..20 {
        k.update(4000, &cfg);
        assert!(!k.is_pressed);
        assert_eq!(k.pos_mm, 0);
        assert_eq!(k.peak_mm, 0);
        assert_eq!(k.valley_mm, 400);
    }
}

#[test]
fn can_update_detects_overflowing_sums() {
    let cfg = firmware_config();
    let mut k = HallKey::new();
    k.set_baseline(65386);
    assert!(!k.can_update(65386, &cfg));
    k.set_baseline(65385);
    assert!(k.can_update(65385, &cfg));
    k.state = KeyState::Discovering;
    assert!(!k.can_update(65385, &cfg));
    k.set_baseline(65235);
    assert!(k.can_update(65235, &cfg));
    k.set_baseline(65236);
    k.filtered_value = 65535;
    k.max_travel = 65535;
    assert!(k.can_update(65535, &cfg));
    k.filtered_value = 0;
    assert!(!k.can_update(0, &cfg));

    let mut big = cfg;
    big.rt_press_mm = 65535;
    big.actuation_mm = 300;
    let k = ready_key(100, false, 0, 1);
    assert!(!k.can_update(reading_for(100), &big));
    let k = ready_key(100, false, 0, 0);
    assert!(k.can_update(reading_for(100), &big));
    assert!(k.can_update(reading_for(100), &cfg));
}

#[test]
fn position_rises_with_the_reading() {
    let cfg = fixed_config();
    let mut last = 0;
    for f in (1000u16..=2100).step_by(7) {
        let mut k = ready_key(0, false, 0, 400);
        k.filtered_value = f;
        k.update(f, &cfg);
        assert!(k.pos_mm >= last);
        last = k.pos_mm;
    }
    assert_eq!(last, 400);
}
