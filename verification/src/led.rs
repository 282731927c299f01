//! Per-key RGB LEDs (SK6812-E): the PWM frame that the DMA clocks out, and the
//! colours that guide calibration.
use vstd::prelude::*;

use crate::he_logic::KeyState;

verus! {

/// Number of LEDs on the chain, one per key.
pub const RGB_COUNT: usize = 64;

/// Slots per LED: 24 data bits, green, red, blue, most significant bit first.
pub const SLOTS_PER_LED: usize = 24;

/// Length of the PWM buffer: the LED data followed by a reset period.
pub const RGB_BUF_LEN: usize = (RGB_COUNT * SLOTS_PER_LED) + 80;

/// Compare value that encodes a one bit.
pub const PULSE_ONE: u16 = 130;

/// Compare value that encodes a zero bit.
pub const PULSE_ZERO: u16 = 65;

/// Bit `bit` (0 is the least significant) of `byte` is set.
pub open spec fn bit_set(byte: u8, bit: u8) -> bool {
    (byte >> bit) & 1u8 == 1u8
}

/// The compare value for bit `bit` of `byte`.
pub open spec fn pulse(byte: u8, bit: u8) -> u16 {
    if bit_set(byte, bit) {
        PULSE_ONE
    } else {
        PULSE_ZERO
    }
}

/// The compare value in slot `slot` (0 ..= 23) of an LED's frame: bytes in
/// green, red, blue order, each most significant bit first.
pub open spec fn frame_slot(r: u8, g: u8, b: u8, slot: int) -> u16 {
    let byte = if slot < 8 {
        g
    } else if slot < 16 {
        r
    } else {
        b
    };
    pulse(byte, (7 - slot % 8) as u8)
}

/// A byte is fixed by its eight bits.
proof fn lemma_byte_from_bits(x: u8, y: u8)
    requires
        forall|j: u8| j < 8 ==> (#[trigger] bit_set(x, j) <==> bit_set(y, j)),
    ensures
        x == y,
{
    assert(bit_set(x, 0) == bit_set(y, 0));
    assert(bit_set(x, 1) == bit_set(y, 1));
    assert(bit_set(x, 2) == bit_set(y, 2));
    assert(bit_set(x, 3) == bit_set(y, 3));
    assert(bit_set(x, 4) == bit_set(y, 4));
    assert(bit_set(x, 5) == bit_set(y, 5));
    assert(bit_set(x, 6) == bit_set(y, 6));
    assert(bit_set(x, 7) == bit_set(y, 7));
    assert(x == y) by (bit_vector)
        requires
            (((x >> 0u8) & 1u8 == 1u8) == ((y >> 0u8) & 1u8 == 1u8)),
            (((x >> 1u8) & 1u8 == 1u8) == ((y >> 1u8) & 1u8 == 1u8)),
            (((x >> 2u8) & 1u8 == 1u8) == ((y >> 2u8) & 1u8 == 1u8)),
            (((x >> 3u8) & 1u8 == 1u8) == ((y >> 3u8) & 1u8 == 1u8)),
            (((x >> 4u8) & 1u8 == 1u8) == ((y >> 4u8) & 1u8 == 1u8)),
            (((x >> 5u8) & 1u8 == 1u8) == ((y >> 5u8) & 1u8 == 1u8)),
            (((x >> 6u8) & 1u8 == 1u8) == ((y >> 6u8) & 1u8 == 1u8)),
            (((x >> 7u8) & 1u8 == 1u8) == ((y >> 7u8) & 1u8 == 1u8)),
    ;
}

/// Layout of an LED's frame: slots 0..8 carry green, 8..16 red, 16..24 blue,
/// each most significant bit first, a set bit as 130 and a clear bit as 65.
pub proof fn law_frame_layout(r: u8, g: u8, b: u8, k: u8)
    requires
        k < 8,
    ensures
        frame_slot(r, g, b, k as int) == (if (g >> (7 - k) as u8) & 1u8 == 1u8 {
            130u16
        } else {
            65u16
        }),
        frame_slot(r, g, b, 8 + k) == (if (r >> (7 - k) as u8) & 1u8 == 1u8 {
            130u16
        } else {
            65u16
        }),
        frame_slot(r, g, b, 16 + k) == (if (b >> (7 - k) as u8) & 1u8 == 1u8 {
            130u16
        } else {
            65u16
        }),
{
}

/// The frame determines the colour: two colours whose 24 slots agree are the
/// same colour.
pub proof fn law_frame_determines_color(r: u8, g: u8, b: u8, r2: u8, g2: u8, b2: u8)
    requires
        forall|s: int| 0 <= s < 24 ==> #[trigger] frame_slot(r, g, b, s) == frame_slot(r2, g2, b2, s),
    ensures
        r == r2 && g == g2 && b == b2,
{
    assert forall|j: u8| j < 8 implies (#[trigger] bit_set(g, j) <==> bit_set(g2, j)) by {
        assert(frame_slot(r, g, b, 7 - j) == frame_slot(r2, g2, b2, 7 - j));
    }
    assert forall|j: u8| j < 8 implies (#[trigger] bit_set(r, j) <==> bit_set(r2, j)) by {
        assert(frame_slot(r, g, b, 15 - j) == frame_slot(r2, g2, b2, 15 - j));
    }
    assert forall|j: u8| j < 8 implies (#[trigger] bit_set(b, j) <==> bit_set(b2, j)) by {
        assert(frame_slot(r, g, b, 23 - j) == frame_slot(r2, g2, b2, 23 - j));
    }
    lemma_byte_from_bits(g, g2);
    lemma_byte_from_bits(r, r2);
    lemma_byte_from_bits(b, b2);
}

fn pulse_for(byte: u8, bit: u8) -> (p: u16)
    requires
        bit < 8,
    ensures
        p == pulse(byte, bit),
{
    if (byte >> bit) & 1 == 1 {
        PULSE_ONE
    } else {
        PULSE_ZERO
    }
}

/// Writes the colour of LED `idx` into the PWM buffer; an index past the chain
/// changes nothing.
pub fn set_led(buf: &mut [u16; RGB_BUF_LEN], idx: usize, r: u8, g: u8, b: u8)
    ensures
        idx >= RGB_COUNT ==> final(buf)@ == old(buf)@,
        idx < RGB_COUNT ==> {
            &&& forall|i: int|
                0 <= i < RGB_BUF_LEN && !(idx * SLOTS_PER_LED <= i < idx * SLOTS_PER_LED
                    + SLOTS_PER_LED) ==> final(buf)@[i] == old(buf)@[i]
            &&& forall|j: int|
                0 <= j < SLOTS_PER_LED ==> final(buf)@[idx * SLOTS_PER_LED + j] == frame_slot(
                    r,
                    g,
                    b,
                    j,
                )
        },
{
    if idx >= RGB_COUNT {
        return ;
    }
    let start = idx * SLOTS_PER_LED;
    for bit in 0..8u8
        invariant
            idx < RGB_COUNT,
            start == idx * SLOTS_PER_LED,
            forall|i: int|
                0 <= i < RGB_BUF_LEN && !(start <= i < start + SLOTS_PER_LED) ==> buf@[i] == old(
                    buf,
                )@[i],
            forall|j: int|
                0 <= j < SLOTS_PER_LED && 7 - j % 8 < bit ==> buf@[start + j] == frame_slot(
                    r,
                    g,
                    b,
                    j,
                ),
    {
        let off = (7 - bit) as usize;
        buf[start + off] = pulse_for(g, bit);
        buf[start + 8 + off] = pulse_for(r, bit);
        buf[start + 16 + off] = pulse_for(b, bit);
    }
}

/// The colour (red, green, blue) that shows a key's calibration state: dim
/// blue while waiting, yellow while discovering, green once ready.
pub fn calibration_color(state: KeyState) -> (rgb: (u8, u8, u8))
    ensures
        rgb == match state {
            KeyState::WaitingForDiscovery => (0u8, 0u8, 100u8),
            KeyState::Discovering => (100u8, 100u8, 0u8),
            KeyState::Ready => (0u8, 100u8, 0u8),
        },
{
    match state {
        KeyState::WaitingForDiscovery => (0, 0, 100),
        KeyState::Discovering => (100, 100, 0),
        _ => (0, 100, 0),
    }
}

} // verus!
