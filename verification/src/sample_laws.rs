//! What one sample does to a key, stated in terms of the key, the sample and
//! the configuration alone.
use vstd::prelude::*;

use crate::he_logic::{HallKey, KeyConfig, KeyState};
use vstd::arithmetic::div_mod::{lemma_div_is_ordered, lemma_small_mod};

verus! {

/// Every sample moves the filtered value one eighth of the way to the sample:
/// the new value is `(7 * old + sample) / 8`, in every state.
pub proof fn law_filter(k: HallKey, raw: u16, config: KeyConfig)
    ensures
        k.after_sample(raw, config).filtered_value as int == (k.filtered_value as int * 7
            + raw as int) / 8,
{
}

/// Waiting for calibration: the key starts discovering once the filtered value
/// rises more than 150 counts above the baseline, and nothing else changes but
/// the filter.
pub proof fn law_waiting(k: HallKey, raw: u16, config: KeyConfig)
    requires
        k.state == KeyState::WaitingForDiscovery,
    ensures
        ({
            let next = k.after_sample(raw, config);
            &&& next.state == (if next.filtered_value > k.baseline + 150 {
                KeyState::Discovering
            } else {
                KeyState::WaitingForDiscovery
            })
            &&& next.baseline == k.baseline
            &&& next.max_travel == k.max_travel
        }),
{
}

/// Discovering: the deepest reading becomes the larger of the old deepest
/// reading and the new filtered value (never the raw sample); the key stays
/// discovering until the filtered value is back under baseline + 50, and then
/// becomes ready exactly when the deepest reading is more than 300 counts above
/// the baseline, else it waits again.
pub proof fn law_discovering(k: HallKey, raw: u16, config: KeyConfig)
    requires
        k.state == KeyState::Discovering,
    ensures
        ({
            let next = k.after_sample(raw, config);
            &&& next.max_travel == (if next.filtered_value > k.max_travel {
                next.filtered_value
            } else {
                k.max_travel
            })
            &&& next.max_travel >= k.max_travel
            &&& next.max_travel >= next.filtered_value
            &&& next.baseline == k.baseline
            &&& (next.filtered_value >= k.baseline + 50 ==> next.state == KeyState::Discovering)
            &&& (next.filtered_value < k.baseline + 50 && next.max_travel > k.baseline + 300
                ==> next.state == KeyState::Ready)
            &&& (next.filtered_value < k.baseline + 50 && next.max_travel <= k.baseline + 300
                ==> next.state == KeyState::WaitingForDiscovery)
        }),
{
}

/// A key only locks as calibrated if a filtered reading went more than 300
/// counts above the baseline: either the new filtered value, or a deepest
/// reading it already had.
pub proof fn law_ready_needs_deep_filtered_reading(k: HallKey, raw: u16, config: KeyConfig)
    requires
        k.state != KeyState::Ready,
        k.after_sample(raw, config).state == KeyState::Ready,
    ensures
        k.after_sample(raw, config).filtered_value > k.baseline + 300 || k.max_travel
            > k.baseline + 300,
{
}

/// Calibrated position: measured from the new filtered value. With less than
/// 100 counts of calibrated range, or a filtered value at or under the
/// baseline, it is 0; for a filtered value between the baseline and the
/// deepest reading it is `(filtered - baseline) * 400 / (deepest - baseline)`.
pub proof fn law_position(k: HallKey, raw: u16, config: KeyConfig)
    requires
        k.state == KeyState::Ready,
    ensures
        ({
            let next = k.after_sample(raw, config);
            let f = next.filtered_value as int;
            let b = k.baseline as int;
            let m = k.max_travel as int;
            &&& m < b + 100 ==> next.pos_mm == 0
            &&& f <= b ==> next.pos_mm == 0
            &&& (m >= b + 100 && b <= f <= m) ==> next.pos_mm as int == (f - b) * 400 / (m - b)
            &&& (m >= b + 100 && f >= m && (f - b) * 400 / (m - b) < 0x1_0000) ==> next.pos_mm
                == 400
            &&& (m >= b + 100 && f > b) ==> next.pos_mm as int == (if ((f - b) * 400 / (m - b))
                % 0x1_0000 > 400 {
                400
            } else {
                ((f - b) * 400 / (m - b)) % 0x1_0000
            })
            &&& next.pos_mm <= 400
        }),
{
    let next = k.after_sample(raw, config);
    let f = next.filtered_value as int;
    let b = k.baseline as int;
    let m = k.max_travel as int;
    if m >= b + 100 && b <= f && f <= m {
        lemma_div_is_ordered((f - b) * 400, (m - b) * 400, m - b);
        assert((m - b) * 400 / (m - b) == 400) by (nonlinear_arith)
            requires
                m - b > 0,
        ;
        assert((f - b) * 400 >= 0) by (nonlinear_arith)
            requires
                f - b >= 0,
        ;
        lemma_div_is_ordered(0, (f - b) * 400, m - b);
        lemma_small_mod(((f - b) * 400 / (m - b)) as nat, 0x1_0000);
    }
    if m >= b + 100 && f >= m && (f - b) * 400 / (m - b) < 0x1_0000 {
        lemma_div_is_ordered((m - b) * 400, (f - b) * 400, m - b);
        assert((m - b) * 400 / (m - b) == 400) by (nonlinear_arith)
            requires
                m - b > 0,
        ;
        lemma_small_mod(((f - b) * 400 / (m - b)) as nat, 0x1_0000);
    }
}

/// `update` may be called whenever the baseline leaves room for its sums
/// (baseline + 300 fits in 16 bits) and valley + `rt_press_mm` fits; a key that
/// waits for calibration with a baseline above 65385 may not take a sample.
pub proof fn law_update_defined(k: HallKey, raw: u16, config: KeyConfig)
    ensures
        k.baseline as int + 300 <= 0xFFFF && k.valley_mm as int + config.rt_press_mm as int
            <= 0xFFFF ==> k.update_defined(raw, config),
        k.state == KeyState::WaitingForDiscovery && k.baseline as int > 0xFFFF - 150
            ==> !k.update_defined(raw, config),
{
}

/// Rapid trigger never presses a key from inside the top dead zone: a
/// calibrated key that is up, whose new position is in the top dead zone and
/// short of the actuation point, stays up.
pub proof fn law_no_press_in_top_deadzone(k: HallKey, raw: u16, config: KeyConfig)
    requires
        k.state == KeyState::Ready,
        !k.is_pressed,
        k.after_sample(raw, config).pos_mm <= config.top_deadzone_mm,
        k.after_sample(raw, config).pos_mm < config.actuation_mm,
    ensures
        !k.after_sample(raw, config).is_pressed,
{
}

/// A calibrated key that is up and short of the actuation point goes down only
/// by rapid trigger: rapid trigger is on, the position lies strictly between the
/// dead zones, and it is more than `rt_press_mm` past the valley. Each of these
/// together is also enough.
pub proof fn law_press_below_actuation(k: HallKey, raw: u16, config: KeyConfig)
    requires
        k.state == KeyState::Ready,
        !k.is_pressed,
        k.after_sample(raw, config).pos_mm < config.actuation_mm,
    ensures
        ({
            let p = k.after_sample(raw, config).pos_mm;
            k.after_sample(raw, config).is_pressed <==> (config.rt_enabled
                && config.top_deadzone_mm < p && p < config.bottom_deadzone_mm && p
                > k.valley_mm + config.rt_press_mm)
        }),
{
}

/// While a calibrated key is up, the valley is the shallowest position seen:
/// the smaller of the old valley and the new position. On a press the peak
/// starts at the new position; otherwise it is left alone.
pub proof fn law_key_up_tracking(k: HallKey, raw: u16, config: KeyConfig)
    requires
        k.state == KeyState::Ready,
        !k.is_pressed,
    ensures
        ({
            let next = k.after_sample(raw, config);
            &&& next.valley_mm == (if next.pos_mm < k.valley_mm {
                next.pos_mm
            } else {
                k.valley_mm
            })
            &&& next.is_pressed ==> next.peak_mm == next.pos_mm
            &&& !next.is_pressed ==> next.peak_mm == k.peak_mm
        }),
{
}

/// While a calibrated key is down, the peak is the deepest position since the
/// press: the larger of the old peak and the new position, so it never falls,
/// except in the bottom dead zone under rapid trigger, where it follows the key.
/// On a release the valley starts at the new position; otherwise it is left
/// alone.
pub proof fn law_key_down_tracking(k: HallKey, raw: u16, config: KeyConfig)
    requires
        k.state == KeyState::Ready,
        k.is_pressed,
    ensures
        ({
            let next = k.after_sample(raw, config);
            &&& !(config.rt_enabled && next.pos_mm >= config.bottom_deadzone_mm)
                ==> next.peak_mm == (if next.pos_mm > k.peak_mm {
                next.pos_mm
            } else {
                k.peak_mm
            })
            &&& !(config.rt_enabled && next.pos_mm >= config.bottom_deadzone_mm)
                ==> next.peak_mm >= k.peak_mm
            &&& (config.rt_enabled && next.pos_mm >= config.bottom_deadzone_mm)
                ==> next.peak_mm == next.pos_mm
            &&& !next.is_pressed ==> next.valley_mm == next.pos_mm
            &&& next.is_pressed ==> next.valley_mm == k.valley_mm
        }),
{
}

/// Rapid-trigger release: a calibrated key that is down, above the bottom dead
/// zone, comes up exactly when it has risen more than `rt_release_mm` above its
/// peak, or is in the top dead zone.
pub proof fn law_rapid_release(k: HallKey, raw: u16, config: KeyConfig)
    requires
        k.state == KeyState::Ready,
        k.is_pressed,
        config.rt_enabled,
        k.after_sample(raw, config).pos_mm < config.bottom_deadzone_mm,
    ensures
        ({
            let p = k.after_sample(raw, config).pos_mm as int;
            !k.after_sample(raw, config).is_pressed <==> (p + config.rt_release_mm < k.peak_mm
                || p <= config.top_deadzone_mm)
        }),
{
}

/// A calibrated key that is down and in the bottom dead zone under rapid
/// trigger stays down.
pub proof fn law_bottom_deadzone_holds(k: HallKey, raw: u16, config: KeyConfig)
    requires
        k.state == KeyState::Ready,
        k.is_pressed,
        config.rt_enabled,
        k.after_sample(raw, config).pos_mm >= config.bottom_deadzone_mm,
        k.after_sample(raw, config).pos_mm > config.top_deadzone_mm,
    ensures
        k.after_sample(raw, config).is_pressed,
{
}

/// Calibration and configuration of a calibrated key are untouched by samples:
/// baseline, deepest reading and state stay as they were.
pub proof fn law_ready_keeps_calibration(k: HallKey, raw: u16, config: KeyConfig)
    requires
        k.state == KeyState::Ready,
    ensures
        k.after_sample(raw, config).state == KeyState::Ready,
        k.after_sample(raw, config).baseline == k.baseline,
        k.after_sample(raw, config).max_travel == k.max_travel,
{
}

} // verus!
