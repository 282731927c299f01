//! Properties of the key logic that span samples and operations.
use vstd::prelude::*;

use crate::he_logic::{
    max_u16, min_u16, sat_sub, smoothed, travel_position, HallKey, KeyConfig, KeyState,
    FULL_TRAVEL, MIN_CALIBRATED_DEPTH, MIN_RANGE, RELEASE_MARGIN,
};
use vstd::arithmetic::div_mod::{
    lemma_div_is_ordered, lemma_div_is_ordered_by_denominator, lemma_small_mod,
};

verus! {

/// The moving average never overshoots: the new value lies between the
/// previous value and the sample.
pub proof fn lemma_smoothing_between(prev: u16, raw: u16)
    ensures
        min_u16(prev, raw) <= smoothed(prev, raw) <= max_u16(prev, raw),
{
}

/// The moving average moves toward the sample: it falls whenever the sample is
/// below it, rises whenever the sample is at least 8 counts above it, and
/// stays put when the sample equals it or lies less than 8 counts above it.
pub proof fn lemma_smoothing_direction(prev: u16, raw: u16)
    ensures
        raw < prev ==> smoothed(prev, raw) < prev,
        raw >= prev + 8 ==> smoothed(prev, raw) > prev,
        prev <= raw < prev + 8 ==> smoothed(prev, raw) == prev,
{
}

/// A measured position never exceeds the full travel.
pub proof fn lemma_position_within_travel(filtered: u16, baseline: u16, max_travel: u16)
    ensures
        travel_position(filtered, baseline, max_travel) <= FULL_TRAVEL,
{
}

/// The measured position never falls as the filtered reading rises, as long as
/// the reading stays within 16383 counts of the baseline (so that the scaled
/// value needs no truncation to 16 bits).
pub proof fn lemma_position_monotone(f1: u16, f2: u16, baseline: u16, max_travel: u16)
    requires
        f1 <= f2,
        sat_sub(f2 as int, baseline as int) <= 16383,
    ensures
        travel_position(f1, baseline, max_travel) <= travel_position(f2, baseline, max_travel),
{
    let range = sat_sub(max_travel as int, baseline as int);
    if range >= MIN_RANGE {
        let p1 = sat_sub(f1 as int, baseline as int);
        let p2 = sat_sub(f2 as int, baseline as int);
        assert(p1 * 400 <= p2 * 400);
        lemma_div_is_ordered(p1 * 400, p2 * 400, range);
        lemma_div_is_ordered_by_denominator(p2 * 400, 100, range);
        assert((p2 * 400) / 100 == p2 * 4);
        lemma_div_is_ordered(0, p1 * 400, range);
        lemma_small_mod((p1 * 400 / range) as nat, 0x1_0000);
        lemma_small_mod((p2 * 400 / range) as nat, 0x1_0000);
    }
}

/// A fresh key is well formed.
pub proof fn lemma_new_is_wf(k: HallKey)
    requires
        k.state == KeyState::WaitingForDiscovery,
        k.pos_mm == 0,
        !k.is_pressed,
        k.peak_mm == 0,
        k.valley_mm == FULL_TRAVEL,
    ensures
        k.wf(),
{
}

/// Setting the baseline keeps a key well formed.
pub proof fn lemma_set_baseline_keeps_wf(k: HallKey, sample: u16)
    requires
        k.wf(),
    ensures
        (HallKey { baseline: sample, filtered_value: sample, max_travel: sample, ..k }).wf(),
{
}

/// A sample keeps a key well formed.
pub proof fn lemma_sample_keeps_wf(k: HallKey, raw: u16, config: KeyConfig)
    requires
        k.wf(),
    ensures
        k.after_sample(raw, config).wf(),
{
    lemma_position_within_travel(smoothed(k.filtered_value, raw), k.baseline, k.max_travel);
}

/// Any sequence of samples keeps a key well formed: an uncalibrated key stays
/// up at position 0, and positions, peaks and valleys stay within the travel.
pub proof fn lemma_samples_keep_wf(k: HallKey, raws: Seq<u16>, config: KeyConfig)
    requires
        k.wf(),
    ensures
        k.after_samples(raws, config).wf(),
    decreases raws.len(),
{
    if raws.len() > 0 {
        lemma_sample_keeps_wf(k, raws[0], config);
        lemma_samples_keep_wf(k.after_sample(raws[0], config), raws.drop_first(), config);
    }
}

/// Calibration is locked: once a key is ready, every further sample leaves it
/// ready with the same baseline and deepest reading.
pub proof fn lemma_ready_is_locked(k: HallKey, raws: Seq<u16>, config: KeyConfig)
    requires
        k.state == KeyState::Ready,
    ensures
        k.after_samples(raws, config).state == KeyState::Ready,
        k.after_samples(raws, config).baseline == k.baseline,
        k.after_samples(raws, config).max_travel == k.max_travel,
    decreases raws.len(),
{
    if raws.len() > 0 {
        lemma_ready_is_locked(k.after_sample(raws[0], config), raws.drop_first(), config);
    }
}

/// A key only becomes ready at the end of a calibration press: it was
/// discovering, has come back within `RELEASE_MARGIN` of the baseline, and the
/// press reached more than `MIN_CALIBRATED_DEPTH` above it.
pub proof fn lemma_ready_only_after_deep_press(k: HallKey, raw: u16, config: KeyConfig)
    requires
        k.state != KeyState::Ready,
        k.after_sample(raw, config).state == KeyState::Ready,
    ensures
        k.state == KeyState::Discovering,
        k.after_sample(raw, config).filtered_value < k.baseline + RELEASE_MARGIN,
        k.after_sample(raw, config).max_travel > k.baseline + MIN_CALIBRATED_DEPTH,
{
}

/// Calibration never loses depth: the deepest reading of a key does not fall
/// under samples.
pub proof fn lemma_max_travel_never_falls(k: HallKey, raw: u16, config: KeyConfig)
    ensures
        k.after_sample(raw, config).max_travel >= k.max_travel,
{
}

/// Until a key is calibrated, samples leave what it reports untouched: pressed
/// state, position, peak and valley.
pub proof fn lemma_uncalibrated_reports_nothing(k: HallKey, raw: u16, config: KeyConfig)
    requires
        k.state != KeyState::Ready,
    ensures
        k.after_sample(raw, config).is_pressed == k.is_pressed,
        k.after_sample(raw, config).pos_mm == k.pos_mm,
        k.after_sample(raw, config).peak_mm == k.peak_mm,
        k.after_sample(raw, config).valley_mm == k.valley_mm,
{
}

/// After a calibrated sample the tracked extreme brackets the position: a
/// pressed key's peak is at least as deep as its position, a released key's
/// valley at most as deep.
pub proof fn lemma_extremes_bracket_position(k: HallKey, raw: u16, config: KeyConfig)
    requires
        k.state == KeyState::Ready,
    ensures
        k.after_sample(raw, config).is_pressed ==> k.after_sample(raw, config).peak_mm
            >= k.after_sample(raw, config).pos_mm,
        !k.after_sample(raw, config).is_pressed ==> k.after_sample(raw, config).valley_mm
            <= k.after_sample(raw, config).pos_mm,
{
}

/// A calibrated key that is up is pressed whenever its position reaches the
/// actuation point, and a key that is down is released whenever its position
/// lies in the top dead zone.
pub proof fn lemma_actuation_and_top_deadzone(k: HallKey, raw: u16, config: KeyConfig)
    requires
        k.state == KeyState::Ready,
    ensures
        !k.is_pressed && k.after_sample(raw, config).pos_mm >= config.actuation_mm
            ==> k.after_sample(raw, config).is_pressed,
        k.is_pressed && k.after_sample(raw, config).pos_mm <= config.top_deadzone_mm
            ==> !k.after_sample(raw, config).is_pressed,
{
}

/// Without rapid trigger a calibrated key follows fixed thresholds with
/// hysteresis: a key that is up goes down at the actuation point, and a key
/// that is down comes up at the release point or in the top dead zone.
pub proof fn lemma_fixed_thresholds(k: HallKey, raw: u16, config: KeyConfig)
    requires
        k.state == KeyState::Ready,
        !config.rt_enabled,
    ensures
        ({
            let next = k.after_sample(raw, config);
            next.is_pressed == if k.is_pressed {
                next.pos_mm > config.release_mm && next.pos_mm > config.top_deadzone_mm
            } else {
                next.pos_mm >= config.actuation_mm
            }
        }),
{
}

/// With rapid trigger, between the dead zones a calibrated key that is up goes
/// down once it travels more than `rt_press_mm` past its valley (or reaches the
/// actuation point), and a key that is down comes up once it rises more than
/// `rt_release_mm` above its peak.
pub proof fn lemma_rapid_trigger(k: HallKey, raw: u16, config: KeyConfig)
    requires
        k.state == KeyState::Ready,
        config.rt_enabled,
        config.top_deadzone_mm < k.after_sample(raw, config).pos_mm,
        k.after_sample(raw, config).pos_mm < config.bottom_deadzone_mm,
    ensures
        ({
            let next = k.after_sample(raw, config);
            next.is_pressed == if k.is_pressed {
                next.pos_mm >= sat_sub(k.peak_mm as int, config.rt_release_mm as int)
            } else {
                next.pos_mm >= config.actuation_mm || next.pos_mm > k.valley_mm
                    + config.rt_press_mm
            }
        }),
{
}

} // verus!
