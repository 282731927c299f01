use he_keyboard::report::{add_key_to_report, keycode, REPORT_BYTES};

#[test]
fn keycodes_of_wasd() {
    assert_eq!(keycode(0), 0x1A);
    assert_eq!(keycode(1), 0x04);
    assert_eq!(keycode(2), 0x16);
    assert_eq!(keycode(3), 0x07);
    assert_eq!(keycode(4), 0);
    assert_eq!(keycode(63), 0);
}

#[test]
fn report_sets_the_usage_bit() {
    let mut report = [0u8; REPORT_BYTES];
    add_key_to_report(&mut report, 0);
    assert_eq!(report[3], 1 << 2);
    add_key_to_report(&mut report, 2);
    assert_eq!(report[2], 1 << 6);
    add_key_to_report(&mut report, 1);
    assert_eq!(report[0], 1 << 4);
    add_key_to_report(&mut report, 3);
    assert_eq!(report[0], (1 << 4) | (1 << 7));
    let before = report;
    add_key_to_report(&mut report, 3);
    assert_eq!(report, before);
    add_key_to_report(&mut report, 10);
    assert_eq!(report, before);
    assert_eq!(report.iter().filter(|&&b| b != 0).count(), 3);
}

use he_keyboard::he_logic::{HallKey, KeyConfig, KeyState};
use he_keyboard::scan::{scan, NUM_KEYS};

#[test]
fn scan_updates_every_key_and_reports_the_pressed_ones() {
    let config = KeyConfig {
        actuation_mm: 12,
        release_mm: 10,
        rt_enabled: false,
        rt_press_mm: 1,
        rt_release_mm: 1,
        top_deadzone_mm: 0,
        bottom_deadzone_mm: 380,
    };
    let ready = HallKey {
        state: KeyState::Ready,
        filtered_value: 1000,
        baseline: 1000,
        max_travel: 2000,
        pos_mm: 0,
        is_pressed: false,
        peak_mm: 0,
        valley_mm: 400,
    };
    let mut keys = [ready; NUM_KEYS];
    let mut samples = [1000u16; NUM_KEYS];
    for i in [0usize, 3, 10] {
        keys[i].filtered_value = 1500;
        samples[i] = 1500;
    }
    let report = scan(&mut keys, &samples, &config);
    assert!(keys[0].is_pressed && keys[3].is_pressed && keys[10].is_pressed);
    assert_eq!(keys[0].pos_mm, 200);
    assert!(!keys[1].is_pressed);
    let mut expected = [0u8; 16];
    expected[3] = 1 << 2;
    expected[0] = 1 << 7;
    assert_eq!(report, expected);
}
