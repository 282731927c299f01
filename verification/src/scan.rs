//! One pass of the scan loop: every key takes its sample, and the pressed keys
//! make up the NKRO report.
use vstd::prelude::*;

use crate::he_logic::{HallKey, KeyConfig};
use crate::report::{add_key_to_report, bit_of, keycode_of, lemma_or_bit, REPORT_BYTES};

verus! {

/// Number of keys on the board.
pub const NUM_KEYS: usize = 64;

/// The report after marking the key at `key_index`, as `add_key_to_report` does.
pub open spec fn with_key(report: Seq<u8>, key_index: usize) -> Seq<u8> {
    let code = keycode_of(key_index);
    if code != 0 && (code / 8) < REPORT_BYTES {
        report.update((code / 8) as int, report[(code / 8) as int] | (1u8 << (code % 8)))
    } else {
        report
    }
}

/// The report that marks, in index order, every pressed key among the first
/// `n` keys, starting from an empty bitmask.
pub open spec fn report_of(keys: Seq<HallKey>, n: nat) -> Seq<u8>
    decreases n,
{
    if n == 0 {
        Seq::new(REPORT_BYTES as nat, |i: int| 0u8)
    } else {
        let before = report_of(keys, (n - 1) as nat);
        if keys[n - 1].is_pressed {
            with_key(before, (n - 1) as usize)
        } else {
            before
        }
    }
}

/// Some key among the first `n` is pressed and has usage code `code`.
pub open spec fn some_pressed_with_code(keys: Seq<HallKey>, n: nat, code: int) -> bool {
    exists|i: int|
        0 <= i < n && #[trigger] keys[i].is_pressed && keycode_of(i as usize) != 0
            && keycode_of(i as usize) as int == code
}

/// The report of the first `n` keys has 16 bytes, and bit `j` of byte `b` is
/// set exactly when one of those keys is pressed and has usage code `8 * b + j`.
proof fn lemma_report_bits_upto(keys: Seq<HallKey>, n: nat)
    requires
        n <= keys.len(),
    ensures
        report_of(keys, n).len() == REPORT_BYTES,
        forall|b: int, j: u8|
            0 <= b < REPORT_BYTES && j < 8 ==> (#[trigger] bit_of(report_of(keys, n)[b], j)
                <==> some_pressed_with_code(keys, n, 8 * b + j)),
    decreases n,
{
    if n == 0 {
        assert forall|b: int, j: u8| 0 <= b < REPORT_BYTES && j < 8 implies (#[trigger] bit_of(
            report_of(keys, n)[b],
            j,
        ) <==> some_pressed_with_code(keys, n, 8 * b + j)) by {
            lemma_or_bit(0u8, 0u8, j);
        }
    } else {
        let m = (n - 1) as nat;
        lemma_report_bits_upto(keys, m);
        let before = report_of(keys, m);
        let code = keycode_of(m as usize);
        assert(code <= 26);
        assert forall|b: int, j: u8| 0 <= b < REPORT_BYTES && j < 8 implies (#[trigger] bit_of(
            report_of(keys, n)[b],
            j,
        ) <==> some_pressed_with_code(keys, n, 8 * b + j)) by {
            assert(bit_of(before[b], j) <==> some_pressed_with_code(keys, m, 8 * b + j));
            let hit = keys[m as int].is_pressed && code != 0 && code as int == 8 * b + j;
            // The first n keys hold such a key exactly when the first n - 1 do or key n - 1 is one.
            if some_pressed_with_code(keys, n, 8 * b + j) {
                let i = choose|i: int|
                    0 <= i < n && #[trigger] keys[i].is_pressed && keycode_of(i as usize) != 0
                        && keycode_of(i as usize) as int == 8 * b + j;
                if i < m {
                    assert(some_pressed_with_code(keys, m, 8 * b + j));
                } else {
                    assert(hit);
                }
            }
            if some_pressed_with_code(keys, m, 8 * b + j) {
                let i = choose|i: int|
                    0 <= i < m && #[trigger] keys[i].is_pressed && keycode_of(i as usize) != 0
                        && keycode_of(i as usize) as int == 8 * b + j;
                assert(0 <= i < n && keys[i].is_pressed);
            }
            if hit {
                assert(keys[m as int].is_pressed && keycode_of(m as usize) != 0);
            }
            assert(some_pressed_with_code(keys, n, 8 * b + j) <==> (some_pressed_with_code(
                keys,
                m,
                8 * b + j,
            ) || hit));
            if keys[m as int].is_pressed && code != 0 {
                let cb = (code / 8) as int;
                let cj = (code % 8) as u8;
                lemma_or_bit(before[cb], cj, j);
                assert(code as int == 8 * b + j <==> (cb == b && cj == j));
            }
        }
    }
}

/// What the scan reports: bit `j` of byte `b` of the report of 64 keys is set
/// exactly when one of the keys is pressed and has usage code `8 * b + j`. So
/// marking one key never clears the bit of another.
pub proof fn law_report_bits(keys: Seq<HallKey>)
    requires
        keys.len() == NUM_KEYS,
    ensures
        report_of(keys, NUM_KEYS as nat).len() == REPORT_BYTES,
        forall|b: int, j: u8|
            0 <= b < REPORT_BYTES && j < 8 ==> (#[trigger] bit_of(
                report_of(keys, NUM_KEYS as nat)[b],
                j,
            ) <==> exists|i: int|
                0 <= i < NUM_KEYS && #[trigger] keys[i].is_pressed && keycode_of(i as usize)
                    != 0 && keycode_of(i as usize) as int == 8 * b + j),
{
    lemma_report_bits_upto(keys, NUM_KEYS as nat);
}

/// Every key may take its sample without overflowing a 16-bit sum.
pub open spec fn scan_defined(keys: Seq<HallKey>, samples: Seq<u16>, config: KeyConfig) -> bool {
    forall|i: int| 0 <= i < NUM_KEYS ==> #[trigger] keys[i].update_defined(samples[i], config)
}

/// Feeds each key its sample, then returns the report of the keys that are
/// pressed afterwards.
pub fn scan(keys: &mut [HallKey; NUM_KEYS], samples: &[u16; NUM_KEYS], config: &KeyConfig) -> (report: [u8; REPORT_BYTES])
    requires
        scan_defined(old(keys)@, samples@, *config),
    ensures
        forall|i: int|
            0 <= i < NUM_KEYS ==> #[trigger] final(keys)@[i] == old(keys)@[i].after_sample(
                samples@[i],
                *config,
            ),
        report@ == report_of(final(keys)@, NUM_KEYS as nat),
        forall|b: int, j: u8|
            0 <= b < REPORT_BYTES && j < 8 ==> (#[trigger] bit_of(report@[b], j) <==> exists|i: int|
                0 <= i < NUM_KEYS && #[trigger] final(keys)@[i].is_pressed && keycode_of(
                    i as usize,
                ) != 0 && keycode_of(i as usize) as int == 8 * b + j),
{
    let mut report = [0u8; REPORT_BYTES];
    assert(report@ =~= report_of(keys@, 0));
    let mut i: usize = 0;
    while i < NUM_KEYS
        invariant
            i <= NUM_KEYS,
            keys@.len() == NUM_KEYS,
            scan_defined(old(keys)@, samples@, *config),
            forall|j: int| i <= j < NUM_KEYS ==> #[trigger] keys@[j] == old(keys)@[j],
            forall|j: int|
                0 <= j < i ==> #[trigger] keys@[j] == old(keys)@[j].after_sample(
                    samples@[j],
                    *config,
                ),
            report@ == report_of(keys@, i as nat),
        decreases NUM_KEYS - i,
    {
        let ghost before = keys@;
        let mut key = keys[i];
        assert(key.update_defined(samples@[i as int], *config));
        key.update(samples[i], config);
        keys[i] = key;
        assert forall|n: nat| n <= i implies report_of(keys@, n) == report_of(before, n) by {
            lemma_report_of_prefix(before, keys@, n);
        }
        if key.is_pressed {
            add_key_to_report(&mut report, i);
        }
        i = i + 1;
    }
    proof {
        law_report_bits(keys@);
    }
    report
}

/// The report of the first `n` keys depends on those keys only.
proof fn lemma_report_of_prefix(a: Seq<HallKey>, b: Seq<HallKey>, n: nat)
    requires
        n <= a.len(),
        n <= b.len(),
        forall|j: int| 0 <= j < n ==> a[j] == b[j],
    ensures
        report_of(a, n) == report_of(b, n),
    decreases n,
{
    if n > 0 {
        lemma_report_of_prefix(a, b, (n - 1) as nat);
    }
}

} // verus!
