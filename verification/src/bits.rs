//! Masks, shifts and rotates read as arithmetic, each group proved once by
//! bit-blasting and used wherever the emulator twiddles bits.

use crate::components::registers::{flags_byte, set_bit};
use vstd::prelude::*;

verus! {

/// Facts about one byte.
pub proof fn lemma_byte(x: u8)
    by (bit_vector)
    ensures
        x & 0x0F == x % 16,
        x & 0x07 == x % 8,
        x & 0x03 == x % 4,
        x & 0x01 == x % 2,
        x >> 4u8 == x / 16,
        x >> 1u8 == x / 2,
        x >> 6u8 == x / 64,
        (x >> 3u8) & 7 == (x / 8) % 8,
        x & 0x80 == (if x >= 128 { 0x80u8 } else { 0u8 }),
        (x & 0x80 != 0) == (x >= 128),
        (x & 0x80 == 0x80) == (x >= 128),
        (x & 0x01 != 0) == (x % 2 == 1),
        (x & 0x01 == 0x01) == (x % 2 == 1),
        ((x & 0x80) >> 7u8 == 0x01) == (x >= 128),
        !x == (255 - x) as u8,
        x & 0xF0 & 0x0F == 0,
        x <= 1 ==> (x ^ 1) == 1 - x,
        (x << 1u8) <= 254,
        ((x >> 4u8) | (x << 4u8) == 0) == (x == 0),
        x >= 0x80 ==> (x as u16 | 0xFF00) == x + 0xFF00,
        0xFF00u16 | (x as u16) == 0xFF00 + x,
        (x == 0 || x == 0x60) ==> (x | 0x06u8) == x + 6,
        (x == 0 || x == 6) ==> (x | 0x60u8) == x + 0x60,
        (x == 6 || x == 0x66) ==> (x | 0x06u8) == x,
        (x == 0x60 || x == 0x66) ==> (x | 0x60u8) == x,
        x & 0x01 != 0x01 ==> x % 2 == 0,
        x & 0x01 != 0x01 && x & 0x02 != 0x02 ==> x % 4 == 0,
        x & 0x01 != 0x01 && x & 0x02 != 0x02 && x & 0x04 != 0x04 ==> x % 8 == 0,
        x & 0x01 != 0x01 && x & 0x02 != 0x02 && x & 0x04 != 0x04 && x & 0x08 != 0x08 ==> x % 16 == 0,
        x & 0x01 != 0x01 && x & 0x02 != 0x02 && x & 0x04 != 0x04 && x & 0x08 != 0x08 && x & 0x10 != 0x10
            ==> x & 0x1F == 0,
        ((x >> 0u8) & 1u8 == 0u8 && (x >> 1u8) & 1u8 == 0u8 && (x >> 2u8) & 1u8 == 0u8 && (x >> 3u8) & 1u8
            == 0u8) ==> x % 16 == 0,
{
}

/// Rotate left: bit 7 comes round to bit 0.
pub proof fn lemma_rlc(x: u8)
    by (bit_vector)
    ensures
        (x << 1u8) | (x >> 7u8) == (((x as int * 2) % 256 + x as int / 128) as u8),
{
}

/// Rotate right: bit 0 comes round to bit 7.
pub proof fn lemma_rrc(x: u8)
    by (bit_vector)
    ensures
        (x >> 1u8) | (x << 7u8) == ((x as int / 2 + (x as int % 2) * 128) as u8),
{
}

/// Rotate left through the carry `c`.
pub proof fn lemma_rl(x: u8, c: u8)
    by (bit_vector)
    requires
        c <= 1,
    ensures
        (x << 1u8) | c == (((x as int * 2) % 256 + c) as u8),
{
}

/// Rotate right through the carry `c`.
pub proof fn lemma_rr(x: u8, c: u8)
    by (bit_vector)
    requires
        c <= 1,
    ensures
        (x >> 1u8) | (c << 7u8) == ((x as int / 2 + c * 128) as u8),
{
}

/// Shift left, bit 0 cleared.
pub proof fn lemma_sla(x: u8)
    by (bit_vector)
    ensures
        x << 1u8 == (((x as int * 2) % 256) as u8),
{
}

/// Arithmetic shift right: bit 7 kept.
pub proof fn lemma_sra(x: u8)
    by (bit_vector)
    ensures
        (x >> 1u8) | (x & 0x80) == ((x as int / 2 + (x as int / 128) * 128) as u8),
{
}

/// The two nibbles exchanged.
pub proof fn lemma_swap(x: u8)
    by (bit_vector)
    ensures
        (x >> 4u8) | (x << 4u8) == (((x as int % 16) * 16 + x as int / 16) as u8),
{
}

/// The carry bit shifted in, written as an OR or as a sum.
pub proof fn lemma_carry_in(x: u8, c: u8)
    by (bit_vector)
    requires
        c <= 1,
    ensures
        (x << 1u8) + c == ((x << 1u8) | c),
        c == 1 ==> (x >> 1u8) | 0x80u8 == (x >> 1u8) | (c << 7u8),
        c == 0 ==> x >> 1u8 == (x >> 1u8) | (c << 7u8),
{
}

/// The single-bit mask `1 << n` tests, clears and sets bit `n`.
pub proof fn lemma_bit_index(v: u8, n: u8)
    by (bit_vector)
    requires
        n < 8,
    ensures
        (v & (1u8 << n) == 0) == ((v >> n) & 1 == 0),
        v & !(1u8 << n) == (if (v >> n) & 1 == 1 { (v - (1u8 << n)) as u8 } else { v }),
        v | (1u8 << n) == (if (v >> n) & 1 == 1 { v } else { (v + (1u8 << n)) as u8 }),
        n == 0 ==> 1u8 << n == 1 && v >> n == v,
        n == 1 ==> 1u8 << n == 2 && v >> n == v / 2,
        n == 2 ==> 1u8 << n == 4 && v >> n == v / 4,
        n == 3 ==> 1u8 << n == 8 && v >> n == v / 8,
        n == 4 ==> 1u8 << n == 16 && v >> n == v / 16,
        n == 5 ==> 1u8 << n == 32 && v >> n == v / 32,
        n == 6 ==> 1u8 << n == 64 && v >> n == v / 64,
        n == 7 ==> 1u8 << n == 128 && v >> n == v / 128,
        (v >> n) & 1 == (v >> n) % 2,
        n < 4 && (v >> n) & 1u8 == 1u8 ==> v % 16 != 0,
{
}

/// A 16-bit word under masks.
pub proof fn lemma_word(x: u16)
    by (bit_vector)
    ensures
        x & 0x0FFF == x % 4096,
        x & 0x000F == x % 16,
        x & 0x00FF == x % 256,
{
}

/// A 16-bit word split into its bytes.
pub proof fn lemma_word_bytes(x: u16)
    by (bit_vector)
    ensures
        (x >> 8) as u8 == (x / 256) as u8,
        (x & 0x00FF) as u8 == (x % 256) as u8,
        (x & 0xFF) as u8 == (x % 256) as u8,
        x as u8 == (x % 256) as u8,
        (x & 0x00F0) as u8 == ((x % 256) as u8) & 0xF0,
        ((x / 256) as u8) as int * 256 + (((x % 256) as u8) & 0xF0) as int == (x & 0xFFF0) as int,
{
}

/// Two bytes joined into a word, high byte first.
pub proof fn lemma_bytes_pair(hi: u8, lo: u8)
    by (bit_vector)
    ensures
        ((hi as u16) << 8) | (lo as u16) == (hi as u16) * 256 + (lo as u16),
        (lo as u16) | ((hi as u16) << 8) == (hi as u16) * 256 + (lo as u16),
{
}

/// The F register under flag assignments: the order of assignment does not
/// matter, a clean low nibble stays clean, and assigning all four flags
/// spells `flags_byte`.
pub proof fn lemma_flag_bits(f: u8, z: bool, n: bool, h: bool, c: bool)
    by (bit_vector)
    ensures
        f & 0x0F == 0 ==> set_bit(set_bit(set_bit(set_bit(f, 0x80, z), 0x40, n), 0x20, h), 0x10, c)
            == flags_byte(z, n, h, c),
        flags_byte(z, n, h, c) & 0x0F == 0,
        set_bit(set_bit(set_bit(set_bit(f, 0x10, c), 0x20, h), 0x40, n), 0x80, z) == set_bit(
            set_bit(set_bit(set_bit(f, 0x80, z), 0x40, n), 0x20, h),
            0x10,
            c,
        ),
        set_bit(set_bit(set_bit(f, 0x20, h), 0x40, n), 0x80, z) == set_bit(
            set_bit(set_bit(f, 0x80, z), 0x40, n),
            0x20,
            h,
        ),
        set_bit(set_bit(set_bit(f, 0x10, c), 0x20, h), 0x40, n) == set_bit(
            set_bit(set_bit(f, 0x40, n), 0x20, h),
            0x10,
            c,
        ),
        set_bit(set_bit(f, 0x20, h), 0x40, n) == set_bit(set_bit(f, 0x40, n), 0x20, h),
        set_bit(set_bit(set_bit(f, 0x10, c), 0x20, h), 0x80, z) == set_bit(
            set_bit(set_bit(f, 0x80, z), 0x20, h),
            0x10,
            c,
        ),
        f & 0x0F == 0 ==> set_bit(set_bit(set_bit(set_bit(f, 0x80, z), 0x40, n), 0x20, h), 0x10, c) & 0x0F
            == 0,
        f & 0x0F == 0 ==> set_bit(set_bit(set_bit(f, 0x80, z), 0x40, n), 0x20, h) & 0x0F == 0,
        f & 0x0F == 0 ==> set_bit(set_bit(set_bit(f, 0x40, n), 0x20, h), 0x10, c) & 0x0F == 0,
        f & 0x0F == 0 ==> set_bit(set_bit(set_bit(f, 0x80, z), 0x20, h), 0x10, c) & 0x0F == 0,
        f & 0x0F == 0 ==> set_bit(set_bit(f, 0x20, h), 0x40, n) & 0x0F == 0,
        f & 0x0F == 0 ==> set_bit(set_bit(set_bit(f, 0x10, c), 0x20, h), 0x40, n) & 0x0F == 0,
{
}

/// One flag bit `m` set or cleared in `f`, seen through another flag bit `o`.
pub proof fn lemma_flag_mask(f: u8, m: u8, o: u8, state: bool)
    by (bit_vector)
    requires
        m == 0x10 || m == 0x20 || m == 0x40 || m == 0x80,
        o == 0x10 || o == 0x20 || o == 0x40 || o == 0x80,
    ensures
        (set_bit(f, m, state) & m == m) == state,
        m != o ==> ((set_bit(f, m, state) & o == o) == (f & o == o)),
        f & 0x0F == 0 ==> set_bit(f, m, state) & 0x0F == 0,
        (f | m) & m == m,
        (f & !m) & m != m,
        m != o ==> ((f | m) & o == o) == (f & o == o),
        m != o ==> ((f & !m) & o == o) == (f & o == o),
        f & 0x0F == 0 ==> (f | m) & 0x0F == 0 && (f & !m) & 0x0F == 0,
{
}

/// The interrupt vector of interrupt `n`: 0x40 + 8n.
pub proof fn lemma_vector(n: u16)
    by (bit_vector)
    requires
        n < 8,
    ensures
        0x0040u16 | (n << 3u16) == 0x40 + n * 8,
{
}

/// Clearing the bits of `bit` in `x` keeps every bit outside it.
pub proof fn lemma_clear_bits(x: u8, bit: u8, other: u8)
    by (bit_vector)
    ensures
        (x & !bit) & bit == 0,
        other & bit == 0 ==> (x & !bit) & other == x & other,
{
}

/// Setting bits already set changes nothing.
pub proof fn lemma_or_idempotent(b: u8, m: u8)
    by (bit_vector)
    ensures
        (b | m) | m == b | m,
{
}

/// A 32-bit count truncated to 16 bits keeps it modulo 2^16.
pub proof fn lemma_truncate_u32(x: u32)
    by (bit_vector)
    ensures
        x as u16 == x % 65536,
{
}

/// The red, green and blue bytes of a 0xRRGGBB colour.
pub proof fn lemma_rgb(x: u32)
    by (bit_vector)
    ensures
        (x & 0xFF0000) >> 16u32 == (x / 65536) % 256,
        (x & 0x00FF00) >> 8u32 == (x / 256) % 256,
        (x & 0x0000FF) >> 0u32 == x % 256,
{
}

/// A BGPI/OBPI byte split into its auto-increment bit and its 6-bit
/// address, and joined again.
pub proof fn lemma_palette_index(v: u8)
    by (bit_vector)
    ensures
        (if v & 0x80 != 0 { 0x80u8 } else { 0u8 }) | (v & 0x3F) == v & 0xBF,
        v & 0x3F < 64,
{
}

/// A byte moved to the high half of a word.
pub proof fn lemma_page(v: u8)
    by (bit_vector)
    ensures
        (v as u16) << 8u16 == (v as u16) * 256,
{
}

/// Bank numbers cut out of a byte stay within their field.
pub proof fn lemma_bank_bits(x: u8)
    by (bit_vector)
    ensures
        x & 0x7F <= 0x7F,
        x & 0x1F <= 0x1F,
        x & 0x0F <= 0x0F,
        (x & 0x60) >> 5u8 <= 3,
        (x & 0x60) | 0x1F <= 0x7F,
{
}

/// MBC5's 9-bit ROM bank stays 9 bits when either half is written.
pub proof fn lemma_mbc5_bank(rb: usize, v: u8)
    by (bit_vector)
    requires
        rb <= 0x1FF,
    ensures
        (rb & 0x100) | (v as usize) <= 0x1FF,
        (rb & 0x0ff) | (((v & 0x01) as usize) << 8usize) <= 0x1FF,
{
}

/// A 64-bit count truncated to 16 bits keeps it modulo 2^16.
pub proof fn lemma_truncate_u64(x: u64)
    by (bit_vector)
    ensures
        x as u16 == x % 65536,
{
}

/// The whole and fractional parts of a 12.20 fixed-point time.
pub proof fn lemma_fixed_whole(x: u32)
    by (bit_vector)
    ensures
        (x as usize) >> 20usize == x / 0x10_0000,
{
}

/// The fractional part of a 12.20 fixed-point time.
pub proof fn lemma_fixed_frac(x: u32)
    by (bit_vector)
    ensures
        x & 0xF_FFFF == x % 0x10_0000,
{
}

/// Bits 15-19 of a fixed-point time select the step's phase; bits 0-14
/// interpolate between two phases.
pub proof fn lemma_phase_bits(x: u32)
    by (bit_vector)
    ensures
        (x >> 15u32) & 31 == (x / 32768) % 32,
        x & 0x7FFF == x % 32768,
{
}

/// Bits 5-19 of a fixed-point time, the step's interpolation fraction.
pub proof fn lemma_interp_bits(x: u32)
    by (bit_vector)
    ensures
        (x >> 5u32) & 0x7FFF == (x / 32) % 32768,
{
}

/// A byte XORed with itself is zero.
pub proof fn lemma_xor_self(x: u8)
    by (bit_vector)
    ensures
        x ^ x == 0,
{
}

/// Setting or clearing bit `n` leaves bit `m` as it was, and decides bit
/// `n` itself.
pub proof fn lemma_bit_pair(v: u8, n: u8, m: u8)
    by (bit_vector)
    requires
        n < 8,
        m < 8,
        m != n,
    ensures
        ((v | (1u8 << n)) & (1u8 << m) == 0) == (v & (1u8 << m) == 0),
        ((v & !(1u8 << n)) & (1u8 << m) == 0) == (v & (1u8 << m) == 0),
        (v | (1u8 << n)) & (1u8 << n) != 0,
        (v & !(1u8 << n)) & (1u8 << n) == 0,
{
}

/// A tile-map coordinate masked to 5 bits stays below 32.
pub proof fn lemma_low5(x: u16)
    by (bit_vector)
    ensures
        x & 31 <= 31,
{
}

/// A pixel colour assembled from one bit of each tile plane is 2 bits wide.
pub proof fn lemma_plane_bits(hi: u8, lo: u8, bit: u8)
    by (bit_vector)
    ensures
        (((hi >> bit) & 1) << 1u8) | ((lo >> bit) & 1) <= 3,
{
}

/// A CGB colour read from palette RAM (low byte, then the high byte's low
/// seven bits) is a 15-bit value.
pub proof fn lemma_cgb_color(lo: u8, hi: u8)
    by (bit_vector)
    ensures
        (lo as u16) | (((hi as u16) << 8u16) & 0x7FFF) <= 0x7FFF,
{
}

/// STAT keeps bits 7, 1 and 0 clear: after a sanitised write, and when the
/// LYC-equals bit is set or cleared.
pub proof fn lemma_stat_bits(x: u8, v: u8)
    by (bit_vector)
    ensures
        0u8 & 0x83 == 0,
        ((v & 0xF8) | (x & 0x04)) & 0x7C & 0x83 == 0,
        x & 0x83 == 0 ==> (x | 0x04) & 0x83 == 0,
        x & 0x83 == 0 ==> (x & 0x78) & 0x83 == 0,
        v & 0x01 <= 1,
{
}

/// Constant masks the emulator starts from.
pub proof fn lemma_constants()
    by (bit_vector)
    ensures
        0xB0u8 & 0x0F == 0,
        0x80u8 & 0x0F == 0,
        flags_byte(true, false, true, true) == 0xB0,
        flags_byte(true, false, false, false) == 0x80,
        0u8 | 0x04u8 == 0x04u8,
        0u8 | 0x06u8 == 6,
        1u8 << 7u8 == 0x80u8,
        0u8 << 7u8 == 0u8,
{
}

/// A byte placed in the top page, or sign-extended to a word.
pub proof fn lemma_byte_widen(z: u8)
    ensures
        z >= 0x80 ==> (z as u16 | 0xFF00) == z + 0xFF00,
        0xFF00u16 | (z as u16) == 0xFF00 + z,
{
    lemma_byte(z);
}

/// Complementing a byte subtracts it from 0xFF.
pub proof fn lemma_byte_not(a: u8)
    ensures
        !a == (255 - a) as u8,
{
    lemma_byte(a);
}

/// The x (bits 7-6), y (bits 5-3) and z (bits 2-0) fields of an opcode, and
/// the p (bits 2-1) and q (bit 0) parts of a 3-bit field.
pub proof fn lemma_opcode_fields(op: u8)
    ensures
        op >> 6u8 == op / 64,
        (op >> 3u8) & 7 == (op / 8) % 8,
        op & 0x07 == op % 8,
        op >> 1u8 == op / 2,
        op & 0x01 == op % 2,
{
    lemma_byte(op);
}

/// DAA builds its correction from 0x06 and 0x60 by OR; on these values OR
/// is addition.
pub proof fn lemma_daa_bits(b: u8)
    ensures
        (b == 0 || b == 0x60) ==> (b | 0x06u8) == b + 6,
        (b == 0 || b == 6) ==> (b | 0x60u8) == b + 0x60,
        (b == 6 || b == 0x66) ==> (b | 0x06u8) == b,
        (b == 0x60 || b == 0x66) ==> (b | 0x60u8) == b,
{
    lemma_byte(b);
}

/// Small masks of one byte.
pub proof fn lemma_byte_masks(x: u8)
    ensures
        x & 0x03 == x % 4,
        x & 0x07 == x % 8,
        x & 0xF0 & 0x0F == 0,
        x <= 1 ==> (x ^ 1) == 1 - x,
{
    lemma_byte(x);
}

/// Bit 7 read by shifting, and a left shift leaving bit 0 free.
pub proof fn lemma_top_bit(a: u8)
    ensures
        ((a & 0x80) >> 7u8 == 0x01) == (a >= 128),
        (a << 1u8) <= 254,
        ((a >> 4u8) | (a << 4u8) == 0) == (a == 0),
{
    lemma_byte(a);
}

} // verus!
