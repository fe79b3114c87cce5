//! What single-byte bit patterns mean as numbers.

use vstd::prelude::*;

verus! {

/// The bits of a byte, read as binary digits of the number, and its nibbles.
pub proof fn lemma_byte_bits(b: u8)
    by (bit_vector)
    ensures
        (b & 0x80 != 0) == ((b / 0x80) % 2 == 1),
        (b & 0x40 != 0) == ((b / 0x40) % 2 == 1),
        (b & 0x20 != 0) == ((b / 0x20) % 2 == 1),
        (b & 0x10 != 0) == ((b / 0x10) % 2 == 1),
        (b & 0x08 != 0) == ((b / 0x08) % 2 == 1),
        (b & 0x04 != 0) == ((b / 0x04) % 2 == 1),
        (b & 0x02 != 0) == ((b / 0x02) % 2 == 1),
        (b & 0x01 != 0) == (b % 2 == 1),
        b & 0xf0 == b - b % 16,
        b & 0x0f == b % 16,
{
}

/// The low nibble of a byte.
pub proof fn lemma_low_nibble(b: u8)
    by (bit_vector)
    ensures
        b & 0x0f == b % 16,
{
}

/// Setting or clearing one flag's bit leaves the other three as they were,
/// and the low nibble clear.
pub proof fn lemma_flag_update(b: u8, mask: u8)
    by (bit_vector)
    requires
        mask == 0x80 || mask == 0x40 || mask == 0x20 || mask == 0x10,
    ensures
        ((b | mask) & 0xf0) % 16 == 0,
        (((b | mask) & 0xf0) / 0x80) % 2 == (if mask == 0x80 { 1u8 } else { (b / 0x80) % 2 }),
        (((b | mask) & 0xf0) / 0x40) % 2 == (if mask == 0x40 { 1u8 } else { (b / 0x40) % 2 }),
        (((b | mask) & 0xf0) / 0x20) % 2 == (if mask == 0x20 { 1u8 } else { (b / 0x20) % 2 }),
        (((b | mask) & 0xf0) / 0x10) % 2 == (if mask == 0x10 { 1u8 } else { (b / 0x10) % 2 }),
        ((b & !mask) & 0xf0) % 16 == 0,
        (((b & !mask) & 0xf0) / 0x80) % 2 == (if mask == 0x80 { 0u8 } else { (b / 0x80) % 2 }),
        (((b & !mask) & 0xf0) / 0x40) % 2 == (if mask == 0x40 { 0u8 } else { (b / 0x40) % 2 }),
        (((b & !mask) & 0xf0) / 0x20) % 2 == (if mask == 0x20 { 0u8 } else { (b / 0x20) % 2 }),
        (((b & !mask) & 0xf0) / 0x10) % 2 == (if mask == 0x10 { 0u8 } else { (b / 0x10) % 2 }),
{
}

/// Rotations and shifts of a byte, with `carry` as the bit shifted in.
pub proof fn lemma_rotations(v: u8, carry: u8)
    by (bit_vector)
    requires
        carry <= 1,
    ensures
        ((v << 1) | (v >> 7)) == v % 0x80 * 2 + v / 0x80,
        ((v >> 1) | (v << 7)) == v / 2 + v % 2 * 0x80,
        ((v << 1) | carry) == v % 0x80 * 2 + carry,
        ((v >> 1) | (carry << 7)) == v / 2 + carry * 0x80,
        (v << 1) == v % 0x80 * 2,
        ((v >> 1) | (v & 0x80)) == v / 2 + v / 0x80 * 0x80,
        ((v << 4) | (v >> 4)) == v / 16 + v % 16 * 16,
        (v >> 1) == v / 2,
        (v & 0x80 != 0) == (v / 0x80 == 1),
        (v & 0x01 != 0) == (v % 2 == 1),
{
}

/// The bits of the counter that the timer looks at.
pub proof fn lemma_timer_bits(counter: u16)
    by (bit_vector)
    ensures
        (counter & 0x200 != 0) == (counter % 1024 >= 512u16),
        (counter & 0x08 != 0) == (counter % 16 >= 8u16),
        (counter & 0x20 != 0) == (counter % 64 >= 32u16),
        (counter & 0x80 != 0) == (counter % 256 >= 128u16),
{
}

/// Going up by one passes a multiple of the period exactly where the
/// remainder falls back to zero.
pub proof fn lemma_next_multiple(a: int, p: int)
    requires
        a >= 0,
        p == 16 || p == 64 || p == 256 || p == 1024,
    ensures
        (a + 1) / p == a / p + (if a % p == p - 1 { 1int } else { 0 }),
        (a + 1) % p == (if a % p == p - 1 { 0 } else { a % p + 1 }),
{
}

/// Wrapping at 2^16 does not disturb a period that divides it.
pub proof fn lemma_mod_of_wrapped(a: int, p: int)
    requires
        a >= 0,
        p == 16 || p == 64 || p == 256 || p == 1024,
    ensures
        (a % 0x10000) % p == a % p,
{
}

/// The joypad byte with any of its four lines pulled low.
pub proof fn lemma_joypad_lines(value: u8, l0: bool, l1: bool, l2: bool, l3: bool)
    by (bit_vector)
    ensures
        ({
            let high = 0xc0u8 | ((value & 0x30) & 0x30) | 0x0f;
            let a = if l0 { high & !0x01u8 } else { high };
            let b = if l1 { a & !0x02u8 } else { a };
            let c = if l2 { b & !0x04u8 } else { b };
            let r = if l3 { c & !0x08u8 } else { c };
            r & 0xf0 == 0xc0 | (value & 0x30) && (r & 0x01 == 0) == l0 && (r & 0x02 == 0) == l1
                && (r & 0x04 == 0) == l2 && (r & 0x08 == 0) == l3
        }),
{
}

/// Both rows deselected.
pub proof fn lemma_joypad_idle()
    by (bit_vector)
    ensures
        0x30u8 & 0x10 != 0,
        0x30u8 & 0x20 != 0,
        0xc0u8 | (0x30u8 & 0x30) | 0x0f == 0xff,
{
}

/// A subset has no bit that the whole lacks.
pub proof fn lemma_subset_has_no_new_bit(whole: u8, part: u8)
    by (bit_vector)
    requires
        part & whole == part,
    ensures
        part & !whole == 0,
{
}

/// SC after a transfer, as it reads.
pub proof fn lemma_serial_control(clock: u8)
    by (bit_vector)
    requires
        clock <= 1,
    ensures
        clock | 0x7e == 0x7e + clock,
{
}

/// Masking bits off and reading them as one.
pub proof fn lemma_masked_readback(value: u8, mask: u8)
    by (bit_vector)
    ensures
        (value & !mask) | mask == value | mask,
{
}

/// A mask takes nothing but bits away.
pub proof fn lemma_and_is_no_more(a: usize, b: usize)
    by (bit_vector)
    ensures
        a & b <= a,
        a & b <= b,
{
}

proof fn lemma_masks(bank: usize)
    by (bit_vector)
    ensures
        bank & 0 == 0,
        bank & 1 == bank % 2,
        bank & 3 == bank % 4,
        bank & 7 == bank % 8,
        bank & 15 == bank % 16,
        bank & 31 == bank % 32,
        bank & 63 == bank % 64,
        bank & 127 == bank % 128,
{
}

/// The mask of a power of two of banks is the remainder by their number.
pub proof fn lemma_mask_is_remainder(bank: usize, count: usize)
    requires
        count == 1 || count == 2 || count == 4 || count == 8 || count == 16 || count == 32 || count
            == 64 || count == 128,
    ensures
        bank & ((count - 1) as usize) == bank % count,
{
    lemma_masks(bank);
}

/// A single bit of a byte.
pub proof fn lemma_one_bit(b: u8, i: u8)
    by (bit_vector)
    requires
        i < 8,
    ensures
        (b >> i) & 1 <= 1,
{
}

/// The fields of STAT do not run into each other.
pub proof fn lemma_stat_fields(select: u8, coincidence: u8, mode: u8)
    by (bit_vector)
    requires
        select == select & 0x78,
        coincidence == 0 || coincidence == 4,
        mode < 4,
    ensures
        (0x80u8 | select | coincidence | mode) & 0x80 == 0x80,
        (0x80u8 | select | coincidence | mode) & 0x04 == coincidence,
        (0x80u8 | select | coincidence | mode) & 0x03 == mode,
        (0x80u8 | select | coincidence | mode) & 0x78 == select,
{
}

/// The lowest of five bits.
pub proof fn lemma_lowest_line(pending: u8)
    by (bit_vector)
    requires
        pending & 0x1f != 0,
    ensures
        pending & 0x01 == 0 && pending & 0x02 == 0 && pending & 0x04 == 0 && pending & 0x08 == 0
            ==> pending & 0x10 != 0,
        1u8 << 0u8 == 0x01,
        1u8 << 1u8 == 0x02,
        1u8 << 2u8 == 0x04,
        1u8 << 3u8 == 0x08,
        1u8 << 4u8 == 0x10,
        pending & 0x00 == 0,
        pending & 0x01 == 0 && pending & 0x02 == 0 ==> pending & 0x03 == 0,
        pending & 0x01 == 0 && pending & 0x02 == 0 && pending & 0x04 == 0 ==> pending & 0x07 == 0,
        pending & 0x01 == 0 && pending & 0x02 == 0 && pending & 0x04 == 0 && pending & 0x08 == 0
            ==> pending & 0x0f == 0,
{
}

/// Bits of IF that are set in two goes are set as in one.
pub proof fn lemma_requests_add(flags: u8, l1: u8, l2: u8, t1: u8, t2: u8, s: u8)
    by (bit_vector)
    requires
        l1 < 4,
        l2 < 4,
        t1 == 0 || t1 == 4,
        t2 == 0 || t2 == 4,
    ensures
        (flags | l1 | t1 | s) | l2 | t2 | 0 == flags | (l1 | l2) | (t1 | t2) | s,
        l1 == l2 ==> l1 | l2 == l1,
        l1 == 0 ==> l1 | l2 == l2,
        l2 == 0 ==> l1 | l2 == l1,
        l1 == 3 || l2 == 3 ==> l1 | l2 == 3,
        (l1 == 1 && l2 == 2) || (l1 == 2 && l2 == 1) ==> l1 | l2 == 3,
        t1 | t2 == (if t1 == 4 || t2 == 4 { 4u8 } else { 0u8 }),
{
}

/// TAC with its unused bits set.
pub proof fn lemma_tac_reads(value: u8)
    by (bit_vector)
    ensures
        (value % 8) | 0xf8 == value | 0xf8,
{
}

/// Whether bit `k` of a byte is set.
pub open spec fn has_bit(b: u8, k: u8) -> bool {
    (b >> k) & 1 == 1
}

/// Logic on bytes is logic on each of their bits.
pub proof fn lemma_bits_of_logic(a: u8, v: u8, k: u8)
    by (bit_vector)
    requires
        k < 8,
    ensures
        has_bit(a & v, k) == (has_bit(a, k) && has_bit(v, k)),
        has_bit(a ^ v, k) == (has_bit(a, k) != has_bit(v, k)),
        has_bit(a | v, k) == (has_bit(a, k) || has_bit(v, k)),
{
}

/// Logic of a byte with itself.
pub proof fn lemma_logic_with_itself(a: u8)
    by (bit_vector)
    ensures
        a & a == a,
        a | a == a,
        a ^ a == 0,
{
}

/// The bits of two bytes' conjunction, cut down to five.
pub proof fn lemma_bits_of_pending(a: u8, v: u8, k: u8)
    by (bit_vector)
    requires
        k < 8,
    ensures
        has_bit(a & v & 0x1f, k) == (k < 5 && has_bit(a, k) && has_bit(v, k)),
{
}

/// Clearing, setting and testing one bit.
pub proof fn lemma_bits_of_masks(v: u8, y: u8, k: u8)
    by (bit_vector)
    requires
        y < 8,
        k < 8,
    ensures
        (v & (1u8 << y) == 0) == !has_bit(v, y),
        has_bit(v & !(1u8 << y), k) == (k != y && has_bit(v, k)),
        has_bit(v | (1u8 << y), k) == (k == y || has_bit(v, k)),
{
}

/// The bits of rotated and shifted bytes.
pub proof fn lemma_bits_of_rotations(v: u8, carry: u8, k: u8)
    by (bit_vector)
    requires
        k < 8,
        carry <= 1,
    ensures
        has_bit((v << 1) | (v >> 7), k) == (if k == 0 { has_bit(v, 7) } else { has_bit(v, (k - 1) as u8) }),
        has_bit((v >> 1) | (v << 7), k) == (if k == 7 { has_bit(v, 0) } else { has_bit(v, (k + 1) as u8) }),
        has_bit((v << 1) | carry, k) == (if k == 0 { carry == 1 } else { has_bit(v, (k - 1) as u8) }),
        has_bit((v >> 1) | (carry << 7), k) == (if k == 7 { carry == 1 } else { has_bit(v, (k + 1) as u8) }),
        has_bit(v << 1, k) == (k != 0 && has_bit(v, (k - 1) as u8)),
        has_bit((v >> 1) | (v & 0x80), k) == (if k == 7 { has_bit(v, 7) } else { has_bit(v, (k + 1) as u8) }),
        has_bit((v << 4) | (v >> 4), k) == has_bit(v, ((k + 4) % 8) as u8),
        has_bit(v >> 1, k) == (k != 7 && has_bit(v, (k + 1) as u8)),
        (v & 0x80 != 0) == has_bit(v, 7),
        (v & 0x01 != 0) == has_bit(v, 0),
{
}

/// A mask of one bit tells that bit.
pub proof fn lemma_masks_are_bits(b: u8)
    by (bit_vector)
    ensures
        (b & 0x80 != 0) == has_bit(b, 7),
        (b & 0x40 != 0) == has_bit(b, 6),
        (b & 0x20 != 0) == has_bit(b, 5),
        (b & 0x10 != 0) == has_bit(b, 4),
        (b & 0x08 != 0) == has_bit(b, 3),
        (b & 0x04 != 0) == has_bit(b, 2),
        (b & 0x02 != 0) == has_bit(b, 1),
        (b & 0x01 != 0) == has_bit(b, 0),
{
}

/// A byte as four pairs of bits.
pub proof fn lemma_palette_bits(p: u8)
    by (bit_vector)
    ensures
        p % 4 == (if has_bit(p, 0) { 1u8 } else { 0u8 }) + 2 * (if has_bit(p, 1) { 1u8 } else { 0u8 }),
        (p / 4) % 4 == (if has_bit(p, 2) { 1u8 } else { 0u8 }) + 2 * (if has_bit(p, 3) { 1u8 } else { 0u8 }),
        (p / 16) % 4 == (if has_bit(p, 4) { 1u8 } else { 0u8 }) + 2 * (if has_bit(p, 5) { 1u8 } else { 0u8 }),
        p / 64 == (if has_bit(p, 6) { 1u8 } else { 0u8 }) + 2 * (if has_bit(p, 7) { 1u8 } else { 0u8 }),
{
}

/// When the low four bits are 1010.
pub proof fn lemma_low_nibble_is_ten(b: u8)
    by (bit_vector)
    ensures
        (b % 16 == 10) == (has_bit(b, 3) && !has_bit(b, 2) && has_bit(b, 1) && !has_bit(b, 0)),
{
}

/// The low three bits of a byte.
pub proof fn lemma_low_three_bits(b: u8)
    by (bit_vector)
    ensures
        ((b / 4) % 2 == 1) == has_bit(b, 2),
        b % 4 == (if has_bit(b, 0) { 1u8 } else { 0u8 }) + (if has_bit(b, 1) { 2u8 } else { 0u8 }),
{
}

/// Ones above, or around, a small number.
pub proof fn lemma_five_ones(b: u8)
    by (bit_vector)
    ensures
        b < 8 ==> b | 0xf8 == 248 + b,
{
}

pub proof fn lemma_six_ones(b: u8)
    by (bit_vector)
    requires
        b < 2,
    ensures
        b | 0x7e == 126 + b,
{
}

/// The bits of the joypad's byte.
pub proof fn lemma_joypad_bits(select: u8, l0: bool, l1: bool, l2: bool, l3: bool)
    by (bit_vector)
    ensures
        ({
            let high = 0xc0u8 | (select & 0x30) | 0x0f;
            let a = if l0 { high & !0x01u8 } else { high };
            let b = if l1 { a & !0x02u8 } else { a };
            let c = if l2 { b & !0x04u8 } else { b };
            let r = if l3 { c & !0x08u8 } else { c };
            has_bit(r, 0) == !l0 && has_bit(r, 1) == !l1 && has_bit(r, 2) == !l2 && has_bit(r, 3)
                == !l3 && has_bit(r, 4) == has_bit(select, 4) && has_bit(r, 5) == has_bit(select, 5)
                && has_bit(r, 6) && has_bit(r, 7)
        }),
{
}

pub proof fn lemma_selection_bits(value: u8)
    by (bit_vector)
    ensures
        has_bit(value & 0x30, 4) == has_bit(value, 4),
        has_bit(value & 0x30, 5) == has_bit(value, 5),
        has_bit(0x30, 4),
        has_bit(0x30, 5),
{
}

/// When one byte has a bit that another lacks.
pub proof fn lemma_new_bits(a: u8, b: u8)
    by (bit_vector)
    ensures
        (a & !b != 0) == ((has_bit(a, 0) && !has_bit(b, 0)) || (has_bit(a, 1) && !has_bit(b, 1))
            || (has_bit(a, 2) && !has_bit(b, 2)) || (has_bit(a, 3) && !has_bit(b, 3)) || (has_bit(
            a,
            4,
        ) && !has_bit(b, 4)) || (has_bit(a, 5) && !has_bit(b, 5)) || (has_bit(a, 6) && !has_bit(
            b,
            6,
        )) || (has_bit(a, 7) && !has_bit(b, 7))),
{
}

/// The top bit of a byte.
pub proof fn lemma_top_bit(b: u8)
    by (bit_vector)
    ensures
        (b >= 0x80) == has_bit(b, 7),
{
}

pub proof fn lemma_or_zero(b: u8)
    by (bit_vector)
    ensures
        0 | b == b,
        b | 0 == b,
{
}

/// The bits of IF with requests set.
pub proof fn lemma_bits_of_requests(
    flags: u8,
    vblank: bool,
    stat: bool,
    timer: bool,
    serial: bool,
    k: u8,
)
    by (bit_vector)
    requires
        k < 8,
    ensures
        ({
            let l0 = if vblank { 1u8 } else { 0u8 };
            let l1 = if stat { 2u8 } else { 0u8 };
            let t = if timer { 4u8 } else { 0u8 };
            let s = if serial { 8u8 } else { 0u8 };
            has_bit(flags | ((l0 + l1) as u8) | t | s, k) == (has_bit(flags, k) || (k == 0
                && vblank) || (k == 1 && stat) || (k == 2 && timer) || (k == 3 && serial))
        }),
{
}

pub proof fn lemma_bits_of_a_press(flags: u8, k: u8)
    by (bit_vector)
    requires
        k < 8,
    ensures
        has_bit(flags | 0x10, k) == (has_bit(flags, k) || k == 4),
{
}

pub proof fn lemma_bits_of_two_requests(flags: u8, vblank: bool, timer: bool, k: u8)
    by (bit_vector)
    requires
        k < 8,
    ensures
        ({
            let t = if timer { flags | 0x04 } else { flags };
            let r = if vblank { t | 0x01 } else { t };
            has_bit(r, k) == (has_bit(flags, k) || (k == 0 && vblank) || (k == 2 && timer))
        }),
{
}

/// STAT with nothing selected, LY matching and mode 2.
pub proof fn lemma_stat_at_first()
    by (bit_vector)
    ensures
        0x80u8 | 0 | 4 | 2 == 0x86,
{
}

/// A byte whose low four bits are zero has none of them.
pub proof fn lemma_low_nibble_bits(b: u8)
    by (bit_vector)
    ensures
        b % 16 == 0 ==> !has_bit(b, 0) && !has_bit(b, 1) && !has_bit(b, 2) && !has_bit(b, 3),
{
}

/// Eight weights added are eight bits.
pub proof fn lemma_eight_weights(
    b0: bool,
    b1: bool,
    b2: bool,
    b3: bool,
    b4: bool,
    b5: bool,
    b6: bool,
    b7: bool,
)
    by (bit_vector)
    ensures
        ({
            let sum = (if b0 { 1u8 } else { 0u8 }) + (if b1 { 2u8 } else { 0u8 }) + (if b2 {
                4u8
            } else {
                0u8
            }) + (if b3 { 8u8 } else { 0u8 }) + (if b4 { 16u8 } else { 0u8 }) + (if b5 {
                32u8
            } else {
                0u8
            }) + (if b6 { 64u8 } else { 0u8 }) + (if b7 { 128u8 } else { 0u8 });
            let byte = sum as u8;
            0 <= sum < 256 && has_bit(byte, 0) == b0 && has_bit(byte, 1) == b1 && has_bit(byte, 2)
                == b2 && has_bit(byte, 3) == b3 && has_bit(byte, 4) == b4 && has_bit(byte, 5) == b5
                && has_bit(byte, 6) == b6 && has_bit(byte, 7) == b7
        }),
{
}

/// A mask of the five lowest bits leaves one of them, or nothing.
pub proof fn lemma_five_lines(a: u8, b: u8)
    by (bit_vector)
    ensures
        ({
            let lines = a & b & 0x1f;
            lines != 0 ==> has_bit(lines, 0) || has_bit(lines, 1) || has_bit(lines, 2) || has_bit(
                lines,
                3,
            ) || has_bit(lines, 4)
        }),
{
}

} // verus!
