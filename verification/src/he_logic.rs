//! Calibration and actuation logic of a single Hall-effect key.
use vstd::prelude::*;

verus! {

/// Position reported for a key pressed all the way down.
pub const FULL_TRAVEL: u16 = 400;

/// Smallest calibrated travel range (raw ADC counts) for which a position is measured.
pub const MIN_RANGE: u16 = 100;

/// Rise of the filtered reading above the baseline that starts calibration.
pub const DISCOVERY_RISE: u16 = 150;

/// Distance above the baseline under which a calibrating key counts as released.
pub const RELEASE_MARGIN: u16 = 50;

/// Depth above the baseline that a calibration press must have reached.
pub const MIN_CALIBRATED_DEPTH: u16 = 300;

/// Calibration state of a key.
#[derive(Copy, Clone, PartialEq, Eq, Structural, Debug)]
pub enum KeyState {
    /// Not yet calibrated.
    WaitingForDiscovery,
    /// Currently being pressed for calibration.
    Discovering,
    /// Calibration locked.
    Ready,
}

/// Actuation settings shared by the keys, in position units (0 ..= `FULL_TRAVEL`).
#[derive(Copy, Clone)]
pub struct KeyConfig {
    /// Position at or past which a key that is up is pressed.
    pub actuation_mm: u16,
    /// Position at or above which a pressed key is released (fixed thresholds).
    pub release_mm: u16,
    /// Rapid trigger: press and release on movement rather than on thresholds.
    pub rt_enabled: bool,
    /// Rapid trigger: travel past the valley that presses the key.
    pub rt_press_mm: u16,
    /// Rapid trigger: rise above the peak that releases the key.
    pub rt_release_mm: u16,
    /// Top dead zone: at or above it a pressed key is released.
    pub top_deadzone_mm: u16,
    /// Bottom dead zone: at or past it rapid trigger is off and the peak follows the key.
    pub bottom_deadzone_mm: u16,
}

/// State of one Hall-effect key.
#[derive(Copy, Clone)]
pub struct HallKey {
    pub state: KeyState,
    /// Moving average of the raw ADC samples.
    pub filtered_value: u16,
    /// Reading of the key at rest.
    pub baseline: u16,
    /// Deepest filtered reading seen during calibration.
    pub max_travel: u16,
    /// Position, 0 (up) ..= `FULL_TRAVEL` (bottomed out).
    pub pos_mm: u16,
    pub is_pressed: bool,
    /// Deepest position since the key was pressed.
    pub peak_mm: u16,
    /// Shallowest position since the key was released.
    pub valley_mm: u16,
}

/// `a - b`, or 0 where `b` is the larger.
pub open spec fn sat_sub(a: int, b: int) -> int {
    if a > b {
        a - b
    } else {
        0
    }
}

/// One step of the moving average: seven parts of the previous value, one part
/// of the new sample, rounded down.
pub open spec fn smoothed(prev: u16, raw: u16) -> u16 {
    ((prev * 7 + raw) / 8) as u16
}

/// Travel position (0 ..= `FULL_TRAVEL`) of a filtered reading between the
/// baseline and the deepest calibrated reading. Below `MIN_RANGE` counts of
/// calibrated range the position is 0. The scaled value is kept to 16 bits
/// (taken modulo 2^16) before it is capped at `FULL_TRAVEL`.
pub open spec fn travel_position(filtered: u16, baseline: u16, max_travel: u16) -> u16 {
    let range = sat_sub(max_travel as int, baseline as int);
    if range < MIN_RANGE {
        0
    } else {
        let scaled = (sat_sub(filtered as int, baseline as int) * FULL_TRAVEL / range) % 0x1_0000;
        if scaled > FULL_TRAVEL {
            FULL_TRAVEL
        } else {
            scaled as u16
        }
    }
}

pub open spec fn min_u16(a: u16, b: u16) -> u16 {
    if a < b {
        a
    } else {
        b
    }
}

pub open spec fn max_u16(a: u16, b: u16) -> u16 {
    if a > b {
        a
    } else {
        b
    }
}

impl HallKey {
    /// A key that is up gets pressed at position `pos`: at or past the
    /// actuation point, or, with rapid trigger, between the dead zones and more
    /// than `rt_press_mm` below the lowest point since it was released.
    pub open spec fn press_triggered(self, pos: u16, config: KeyConfig) -> bool {
        ||| pos >= config.actuation_mm
        ||| (config.rt_enabled && config.top_deadzone_mm < pos && pos < config.bottom_deadzone_mm
            && pos > self.valley_mm + config.rt_press_mm)
    }

    /// A key that is down gets released at position `pos`: at or above the
    /// release point (fixed thresholds), more than `rt_release_mm` above the
    /// deepest point since it was pressed (rapid trigger, above the bottom dead
    /// zone), or inside the top dead zone.
    pub open spec fn release_triggered(self, pos: u16, config: KeyConfig) -> bool {
        ||| (!config.rt_enabled && pos <= config.release_mm)
        ||| (config.rt_enabled && pos < config.bottom_deadzone_mm && pos < sat_sub(
            self.peak_mm as int,
            config.rt_release_mm as int,
        ))
        ||| pos <= config.top_deadzone_mm
    }

    /// The key after a calibrated sample at position `pos`.
    pub open spec fn actuated(self, pos: u16, config: KeyConfig) -> HallKey {
        if !self.is_pressed {
            let press = self.press_triggered(pos, config);
            HallKey {
                pos_mm: pos,
                is_pressed: press,
                peak_mm: if press {
                    pos
                } else {
                    self.peak_mm
                },
                valley_mm: min_u16(self.valley_mm, pos),
                ..self
            }
        } else {
            let release = self.release_triggered(pos, config);
            HallKey {
                pos_mm: pos,
                is_pressed: !release,
                peak_mm: if config.rt_enabled && pos >= config.bottom_deadzone_mm {
                    pos
                } else {
                    max_u16(self.peak_mm, pos)
                },
                valley_mm: if release {
                    pos
                } else {
                    self.valley_mm
                },
                ..self
            }
        }
    }

    /// The key after one raw sample.
    pub open spec fn after_sample(self, raw: u16, config: KeyConfig) -> HallKey {
        let f = smoothed(self.filtered_value, raw);
        let k = HallKey { filtered_value: f, ..self };
        match self.state {
            KeyState::WaitingForDiscovery => {
                if f > self.baseline + DISCOVERY_RISE {
                    HallKey { state: KeyState::Discovering, ..k }
                } else {
                    k
                }
            },
            KeyState::Discovering => {
                let deepest = max_u16(self.max_travel, f);
                let state = if f < self.baseline + RELEASE_MARGIN {
                    if deepest > self.baseline + MIN_CALIBRATED_DEPTH {
                        KeyState::Ready
                    } else {
                        KeyState::WaitingForDiscovery
                    }
                } else {
                    KeyState::Discovering
                };
                HallKey { state, max_travel: deepest, ..k }
            },
            KeyState::Ready => k.actuated(
                travel_position(f, self.baseline, self.max_travel),
                config,
            ),
        }
    }

    /// The sums that `update` forms in 16 bits on this sample do not overflow.
    pub open spec fn update_defined(self, raw: u16, config: KeyConfig) -> bool {
        let f = smoothed(self.filtered_value, raw);
        match self.state {
            KeyState::WaitingForDiscovery => self.baseline + DISCOVERY_RISE <= u16::MAX,
            KeyState::Discovering => {
                &&& self.baseline + RELEASE_MARGIN <= u16::MAX
                &&& f < self.baseline + RELEASE_MARGIN ==> self.baseline + MIN_CALIBRATED_DEPTH
                    <= u16::MAX
            },
            KeyState::Ready => {
                let pos = travel_position(f, self.baseline, self.max_travel);
                (!self.is_pressed && pos < config.actuation_mm && config.rt_enabled
                    && config.top_deadzone_mm < pos && pos < config.bottom_deadzone_mm)
                    ==> self.valley_mm + config.rt_press_mm <= u16::MAX
            },
        }
    }

    /// The key after a sequence of raw samples, oldest first.
    pub open spec fn after_samples(self, raws: Seq<u16>, config: KeyConfig) -> HallKey
        decreases raws.len(),
    {
        if raws.len() == 0 {
            self
        } else {
            self.after_sample(raws[0], config).after_samples(raws.drop_first(), config)
        }
    }

    /// What every key reachable from `new` by `set_baseline` and `update`
    /// satisfies: positions stay within the travel, and a key that is not yet
    /// calibrated is up and at position 0.
    pub open spec fn wf(self) -> bool {
        &&& self.pos_mm <= FULL_TRAVEL
        &&& self.peak_mm <= FULL_TRAVEL
        &&& self.valley_mm <= FULL_TRAVEL
        &&& self.state != KeyState::Ready ==> !self.is_pressed && self.pos_mm == 0
    }

    /// Whether `update(new_raw, config)` may be called on this key: its 16-bit
    /// sums do not overflow.
    pub fn can_update(&self, new_raw: u16, config: &KeyConfig) -> (ok: bool)
        ensures
            ok == self.update_defined(new_raw, *config),
    {
        let filtered: u16 = (((self.filtered_value as u32 * 7) + new_raw as u32) / 8) as u16;
        match self.state {
            KeyState::WaitingForDiscovery => self.baseline <= u16::MAX - DISCOVERY_RISE,
            KeyState::Discovering => {
                if self.baseline > u16::MAX - RELEASE_MARGIN {
                    false
                } else if filtered < self.baseline + RELEASE_MARGIN {
                    self.baseline <= u16::MAX - MIN_CALIBRATED_DEPTH
                } else {
                    true
                }
            },
            KeyState::Ready => {
                let mut probe = *self;
                probe.filtered_value = filtered;
                probe.update_position();
                let pos = probe.pos_mm;
                if !self.is_pressed && pos < config.actuation_mm && config.rt_enabled
                    && config.top_deadzone_mm < pos && pos < config.bottom_deadzone_mm {
                    self.valley_mm <= u16::MAX - config.rt_press_mm
                } else {
                    true
                }
            },
        }
    }

    /// A fresh, uncalibrated key.
    pub fn new() -> (k: Self)
        ensures
            k.state == KeyState::WaitingForDiscovery,
            k.filtered_value == 0,
            k.baseline == 0,
            k.max_travel == 0,
            k.pos_mm == 0,
            !k.is_pressed,
            k.peak_mm == 0,
            k.valley_mm == FULL_TRAVEL,
    {
        Self {
            state: KeyState::WaitingForDiscovery,
            filtered_value: 0,
            baseline: 0,
            max_travel: 0,
            pos_mm: 0,
            is_pressed: false,
            peak_mm: 0,
            valley_mm: FULL_TRAVEL,
        }
    }

    /// Takes `sample` as the resting reading: baseline, filter and deepest
    /// reading all start there.
    pub fn set_baseline(&mut self, sample: u16)
        ensures
            *final(self) == (HallKey {
                baseline: sample,
                filtered_value: sample,
                max_travel: sample,
                ..*old(self)
            }),
    {
        self.baseline = sample;
        self.filtered_value = sample;
        self.max_travel = sample;
    }

    fn update_position(&mut self)
        ensures
            *final(self) == (HallKey {
                pos_mm: travel_position(old(self).filtered_value, old(self).baseline, old(self).max_travel),
                ..*old(self)
            }),
    {
        let range = self.max_travel.saturating_sub(self.baseline);
        if range < MIN_RANGE {
            self.pos_mm = 0;
            return ;
        }
        let raw_pos = self.filtered_value.saturating_sub(self.baseline);
        let scaled: u32 = (raw_pos as u32 * 400) / range as u32;
        let mm: u16 = scaled as u16;
        assert(mm == scaled % 0x1_0000) by (bit_vector)
            requires
                mm == scaled as u16,
        ;
        self.pos_mm = if mm > FULL_TRAVEL {
            FULL_TRAVEL
        } else {
            mm
        };
    }

    /// Feeds one raw ADC sample to the key: filters it, advances calibration,
    /// and once calibrated measures the position and decides the pressed state.
    pub fn update(&mut self, new_raw: u16, config: &KeyConfig)
        requires
            old(self).update_defined(new_raw, *config),
        ensures
            *final(self) == old(self).after_sample(new_raw, *config),
    {
        self.filtered_value = (((self.filtered_value as u32 * 7) + new_raw as u32) / 8) as u16;

        match self.state {
            KeyState::WaitingForDiscovery => {
                if self.filtered_value > self.baseline + DISCOVERY_RISE {
                    self.state = KeyState::Discovering;
                }
            },
            KeyState::Discovering => {
                if self.filtered_value > self.max_travel {
                    self.max_travel = self.filtered_value;
                }
                if self.filtered_value < self.baseline + RELEASE_MARGIN {
                    if self.max_travel > self.baseline + MIN_CALIBRATED_DEPTH {
                        self.state = KeyState::Ready;
                    } else {
                        self.state = KeyState::WaitingForDiscovery;
                    }
                }
            },
            KeyState::Ready => {
                self.update_position();
                let pos = self.pos_mm;

                if !self.is_pressed {
                    if pos >= config.actuation_mm {
                        self.is_pressed = true;
                        self.peak_mm = pos;
                    } else if config.rt_enabled && pos > config.top_deadzone_mm && pos
                        < config.bottom_deadzone_mm {
                        if pos > (self.valley_mm + config.rt_press_mm) {
                            self.is_pressed = true;
                            self.peak_mm = pos;
                        }
                    }
                    if pos < self.valley_mm {
                        self.valley_mm = pos;
                    }
                } else {
                    if !config.rt_enabled && pos <= config.release_mm {
                        self.is_pressed = false;
                        self.valley_mm = pos;
                    } else if config.rt_enabled {
                        if pos >= config.bottom_deadzone_mm {
                            self.peak_mm = pos;
                        } else if pos < (self.peak_mm.saturating_sub(config.rt_release_mm)) {
                            self.is_pressed = false;
                            self.valley_mm = pos;
                        }
                    }
                    if pos <= config.top_deadzone_mm {
                        self.is_pressed = false;
                        self.valley_mm = pos;
                    }
                    if pos > self.peak_mm {
                        self.peak_mm = pos;
                    }
                }
            },
        }
    }
}

} // verus!
