//! The NKRO keyboard report: a bitmask with one bit per HID usage code.
use vstd::prelude::*;

verus! {

/// Number of bytes in the report's key bitmask (128 usage codes).
pub const REPORT_BYTES: usize = 16;

/// The HID usage code of the key at `key_index`, 0 where the key has none.
pub open spec fn keycode_of(key_index: usize) -> u8 {
    if key_index == 0 {
        0x1A  // W
    } else if key_index == 1 {
        0x04  // A
    } else if key_index == 2 {
        0x16  // S
    } else if key_index == 3 {
        0x07  // D
    } else {
        0
    }
}

/// Bit `j` (0 is the least significant) of `byte` is set.
pub open spec fn bit_of(byte: u8, j: u8) -> bool {
    (byte >> j) & 1u8 == 1u8
}

/// Setting bit `c` of a byte sets that bit and leaves the others; no bit of 0
/// is set.
pub proof fn lemma_or_bit(x: u8, c: u8, j: u8)
    requires
        c < 8,
        j < 8,
    ensures
        bit_of(x | (1u8 << c), j) == (bit_of(x, j) || j == c),
        !bit_of(0u8, j),
{
    assert(((x | (1u8 << c)) >> j) & 1u8 == 1u8 <==> (((x >> j) & 1u8 == 1u8) || j == c))
        by (bit_vector)
        requires
            c < 8u8,
            j < 8u8,
    ;
    assert(!((0u8 >> j) & 1u8 == 1u8)) by (bit_vector);
}

/// The keys with a usage code are the first four, W, A, S and D, and no two
/// keys share a code.
pub proof fn law_keycodes(i: usize, k: usize)
    ensures
        keycode_of(i) != 0 <==> i < 4,
        keycode_of(0) == 0x1A && keycode_of(1) == 0x04 && keycode_of(2) == 0x16 && keycode_of(3)
            == 0x07,
        keycode_of(i) != 0 && keycode_of(i) == keycode_of(k) ==> i == k,
        keycode_of(i) < 8 * REPORT_BYTES,
{
}

/// The HID usage code of the key at `key_index`, 0 where the key has none.
pub fn keycode(key_index: usize) -> (code: u8)
    ensures
        code == keycode_of(key_index),
{
    match key_index {
        0 => 0x1A,
        1 => 0x04,
        2 => 0x16,
        3 => 0x07,
        _ => 0,
    }
}

/// Marks the pressed key at `key_index` in the report: sets the bit of its
/// usage code, where it has one and that code fits in the bitmask. Every other
/// bit of the report is left as it was.
pub fn add_key_to_report(report: &mut [u8; REPORT_BYTES], key_index: usize)
    ensures
        ({
            let code = keycode_of(key_index);
            if code != 0 && (code / 8) < REPORT_BYTES {
                final(report)@ == old(report)@.update(
                    (code / 8) as int,
                    old(report)@[(code / 8) as int] | (1u8 << (code % 8)),
                )
            } else {
                final(report)@ == old(report)@
            }
        }),
        final(report)@.len() == REPORT_BYTES,
        forall|b: int, j: u8|
            0 <= b < REPORT_BYTES && j < 8 ==> (#[trigger] bit_of(final(report)@[b], j) <==> (
            bit_of(old(report)@[b], j) || (keycode_of(key_index) != 0 && keycode_of(key_index)
                as int == 8 * b + j))),
{
    let code = keycode(key_index);
    if code != 0 {
        let byte_idx = (code / 8) as usize;
        let bit_idx = (code % 8) as u8;
        if byte_idx < REPORT_BYTES {
            let ghost before = report@;
            report[byte_idx] = report[byte_idx] | (1u8 << bit_idx);
            assert forall|b: int, j: u8| 0 <= b < REPORT_BYTES && j < 8 implies (#[trigger] bit_of(
                report@[b],
                j,
            ) <==> (bit_of(before[b], j) || (code as int == 8 * b + j))) by {
                lemma_or_bit(before[b], bit_idx, j);
            }
        }
    }
}

} // verus!
