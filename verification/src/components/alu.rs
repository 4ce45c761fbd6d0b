//! What each SM83 arithmetic, logic, rotate and bit operation computes and
//! which flags it leaves, stated over the register file.

use crate::components::registers::{flags_byte, set_bit, Flags, Registers};
use crate::hw::cpu::{AluOp, RotOp};
use crate::bits::{
    lemma_bit_index, lemma_byte, lemma_carry_in, lemma_flag_bits, lemma_flag_mask, lemma_rl, lemma_rlc,
    lemma_rr, lemma_rrc, lemma_sla, lemma_sra, lemma_swap, lemma_word,
};
use vstd::prelude::*;

verus! {

/// Z, N, H and C assigned, in that order.
pub open spec fn with_znhc(reg: Registers, z: bool, n: bool, h: bool, c: bool) -> Registers {
    reg.with_flag(Flags::Z, z).with_flag(Flags::N, n).with_flag(Flags::H, h).with_flag(Flags::C, c)
}

/// Z, N and H assigned, C kept.
pub open spec fn with_znh(reg: Registers, z: bool, n: bool, h: bool) -> Registers {
    reg.with_flag(Flags::Z, z).with_flag(Flags::N, n).with_flag(Flags::H, h)
}

pub open spec fn carry_in(reg: Registers, op: AluOp) -> int {
    if (op == AluOp::Adc || op == AluOp::Sbc) && reg.flag(Flags::C) {
        1
    } else {
        0
    }
}

/// A <- A op v with the flags the operation defines. CP computes the flags of
/// SUB and leaves A alone.
pub open spec fn alu_result(reg: Registers, op: AluOp, v: u8) -> Registers {
    let a = reg.a as int;
    let cin = carry_in(reg, op);
    match op {
        AluOp::Add | AluOp::Adc => {
            let sum = a + v + cin;
            let r = (sum % 256) as u8;
            Registers { a: r, ..with_znhc(reg, r == 0, false, a % 16 + v % 16 + cin > 15, sum > 255) }
        },
        AluOp::Sub | AluOp::Sbc | AluOp::Cp => {
            let r = ((a - v - cin + 512) % 256) as u8;
            let flags = with_znhc(reg, r == 0, true, a % 16 < v % 16 + cin, a < v + cin);
            if op == AluOp::Cp {
                flags
            } else {
                Registers { a: r, ..flags }
            }
        },
        AluOp::And => {
            let r = reg.a & v;
            Registers { a: r, ..with_znhc(reg, r == 0, false, true, false) }
        },
        AluOp::Xor => {
            let r = reg.a ^ v;
            Registers { a: r, ..with_znhc(reg, r == 0, false, false, false) }
        },
        AluOp::Or => {
            let r = reg.a | v;
            Registers { a: r, ..with_znhc(reg, r == 0, false, false, false) }
        },
    }
}

/// 8-bit increment: Z, N = 0, H on a carry out of bit 3; C untouched.
pub open spec fn inc8_result(reg: Registers, v: u8) -> (Registers, u8) {
    let r = ((v + 1) % 256) as u8;
    (with_znh(reg, r == 0, false, v % 16 == 15), r)
}

/// 8-bit decrement: Z, N = 1, H on a borrow into bit 3; C untouched.
pub open spec fn dec8_result(reg: Registers, v: u8) -> (Registers, u8) {
    let r = ((v + 255) % 256) as u8;
    (with_znh(reg, r == 0, true, v % 16 == 0), r)
}

/// ADD HL,rr: Z untouched, N = 0, H out of bit 11, C out of bit 15.
pub open spec fn add_hl_result(reg: Registers, v: u16) -> Registers {
    let hl = reg.hl() as int;
    let sum = hl + v;
    let flagged = reg.with_flag(Flags::N, false).with_flag(Flags::H, hl % 4096 + v % 4096 > 4095)
        .with_flag(Flags::C, sum > 65535);
    let r = (sum % 65536) as u16;
    Registers { h: (r / 256) as u8, l: (r % 256) as u8, ..flagged }
}

/// The signed byte `z` widened to 16 bits.
pub open spec fn sign_extend(z: u8) -> u16 {
    if z < 128 {
        z as u16
    } else {
        (z as int + 0xFF00) as u16
    }
}

/// SP + e8 as used by ADD SP,e and LD HL,SP+e: the sum, and the flags (Z = N
/// = 0, H and C from the unsigned low-byte addition).
pub open spec fn add_sp_e_result(reg: Registers, z: u8) -> (Registers, u16) {
    let sp = reg.sp as int;
    let e = sign_extend(z) as int;
    (
        with_znhc(reg, false, false, sp % 16 + e % 16 > 15, sp % 256 + e % 256 > 255),
        ((sp + e) % 65536) as u16,
    )
}

/// Bit `i` of `v` (i < 8).
pub open spec fn bit_of(v: u8, i: int) -> bool {
    (v as int / pow2(i)) % 2 == 1
}

pub open spec fn pow2(i: int) -> int
    decreases i,
{
    if i <= 0 {
        1
    } else {
        2 * pow2(i - 1)
    }
}

/// A shift/rotate of `v`: the result and the bit shifted out into C.
pub open spec fn rotated(op: RotOp, v: u8, carry: bool) -> (u8, bool) {
    let x = v as int;
    let c = if carry { 1int } else { 0 };
    match op {
        RotOp::Rlc => (((x * 2) % 256 + x / 128) as u8, x >= 128),
        RotOp::Rrc => ((x / 2 + (x % 2) * 128) as u8, x % 2 == 1),
        RotOp::Rl => (((x * 2) % 256 + c) as u8, x >= 128),
        RotOp::Rr => ((x / 2 + c * 128) as u8, x % 2 == 1),
        RotOp::Sla => (((x * 2) % 256) as u8, x >= 128),
        RotOp::Sra => ((x / 2 + (x / 128) * 128) as u8, x % 2 == 1),
        RotOp::Swap => (((x % 16) * 16 + x / 16) as u8, false),
        RotOp::Srl => ((x / 2) as u8, x % 2 == 1),
    }
}

/// CB shift/rotate: Z from the result, N = H = 0, C the bit shifted out.
pub open spec fn rotate_result(reg: Registers, op: RotOp, v: u8) -> (Registers, u8) {
    let (r, c) = rotated(op, v, reg.flag(Flags::C));
    (with_znhc(reg, r == 0, false, false, c), r)
}

/// BIT n,v: Z = !bit, N = 0, H = 1, C untouched.
pub open spec fn bit_result(reg: Registers, n: u8, v: u8) -> Registers {
    with_znh(reg, !bit_of(v, n as int), false, true)
}

/// v with bit n cleared.
pub open spec fn res_result(n: u8, v: u8) -> u8 {
    if bit_of(v, n as int) {
        (v - pow2(n as int)) as u8
    } else {
        v
    }
}

/// v with bit n set.
pub open spec fn set_result(n: u8, v: u8) -> u8 {
    if bit_of(v, n as int) {
        v
    } else {
        (v + pow2(n as int)) as u8
    }
}

/// The correction DAA adds to (or, after a subtraction, takes from) A.
pub open spec fn daa_adjust(reg: Registers) -> int {
    let a = reg.a as int;
    let low = if reg.flag(Flags::H) || (!reg.flag(Flags::N) && a % 16 > 9) { 6int } else { 0 };
    let high = if reg.flag(Flags::C) || (!reg.flag(Flags::N) && a > 0x99) { 0x60int } else { 0 };
    low + high
}

/// DAA: decimal-adjusts A after a BCD addition or subtraction. N untouched,
/// H cleared, C set when the high digit was corrected.
pub open spec fn daa_result(reg: Registers) -> Registers {
    let a = reg.a as int;
    let adj = daa_adjust(reg);
    let r = if reg.flag(Flags::N) {
        ((a - adj + 256) % 256) as u8
    } else {
        ((a + adj) % 256) as u8
    };
    Registers {
        a: r,
        ..reg.with_flag(Flags::Z, r == 0).with_flag(Flags::H, false).with_flag(Flags::C, adj >= 0x60)
    }
}

/// Whether a byte is packed BCD: two decimal digits.
pub open spec fn is_bcd(x: u8) -> bool {
    x / 16 <= 9 && x % 16 <= 9
}

/// The decimal value of a packed-BCD byte.
pub open spec fn bcd_value(x: u8) -> int {
    (x / 16) * 10 + x % 16
}

/// The packed-BCD byte of `n` (0-99).
pub open spec fn bcd_byte(n: int) -> int {
    (n / 10) * 16 + n % 10
}

/// ADD of two BCD numbers `x` and `y` (0-99) then DAA, worked on the values
/// the two instructions see: the adjusted byte is the BCD of the decimal sum
/// (mod 100), with the high adjustment exactly on a decimal carry.
pub open spec fn daa_add_holds(x: int, y: int) -> bool {
    let a = bcd_byte(x);
    let b = bcd_byte(y);
    let sum = a + b;
    let r = sum % 256;
    let low: int = if a % 16 + b % 16 > 15 || r % 16 > 9 { 6 } else { 0 };
    let high: int = if sum > 255 || r > 0x99 { 0x60 } else { 0 };
    &&& (r + low + high) % 256 == bcd_byte((x + y) % 100)
    &&& (low + high >= 0x60) == (x + y > 99)
}

/// SUB of two BCD numbers then DAA: the BCD of the decimal difference
/// (mod 100), with the high adjustment exactly on a decimal borrow.
pub open spec fn daa_sub_holds(x: int, y: int) -> bool {
    let a = bcd_byte(x);
    let b = bcd_byte(y);
    let r = (a - b + 512) % 256;
    let low: int = if a % 16 < b % 16 { 6 } else { 0 };
    let high: int = if a < b { 0x60 } else { 0 };
    &&& (r - (low + high) + 256) % 256 == bcd_byte((x - y + 100) % 100)
    &&& (low + high >= 0x60) == (x < y)
}

/// BCD bytes from digits.
proof fn lemma_bcd_digits(xh: int, xl: int)
    requires
        0 <= xh <= 9,
        0 <= xl <= 9,
    ensures
        bcd_byte(10 * xh + xl) == 16 * xh + xl,
        (16 * xh + xl) % 16 == xl,
{
    let x = 10 * xh + xl;
    assert(x / 10 == xh && x % 10 == xl);
}

/// The add table, digit by digit.
#[verifier::rlimit(40)]
proof fn lemma_daa_add_digits(xh: int, xl: int, yh: int, yl: int)
    requires
        0 <= xh <= 9,
        0 <= xl <= 9,
        0 <= yh <= 9,
        0 <= yl <= 9,
    ensures
        daa_add_holds(10 * xh + xl, 10 * yh + yl),
{
    lemma_bcd_digits(xh, xl);
    lemma_bcd_digits(yh, yl);
    let a = 16 * xh + xl;
    let b = 16 * yh + yl;
    let ls = xl + yl;
    let hsum = xh + yh;
    let sum = a + b;
    assert(sum == 16 * hsum + ls);
    let r = sum % 256;
    let t = xh * 10 + xl + yh * 10 + yl;
    if ls <= 9 {
        let d = if hsum <= 9 { hsum } else { hsum - 10 };
        assert(t % 100 == 10 * d + ls);
        lemma_bcd_digits(d, ls);
        if hsum <= 9 {
            assert(r == sum);
            assert(r % 16 == ls);
        } else {
            assert(r == (if sum > 255 { sum - 256 } else { sum }));
            assert(r % 16 == ls);
        }
    } else {
        let l2 = ls - 10;
        let h2 = hsum + 1;
        let d = if h2 <= 9 { h2 } else { h2 - 10 };
        assert(t % 100 == 10 * d + l2);
        lemma_bcd_digits(d, l2);
        assert(r == (if sum > 255 { sum - 256 } else { sum }));
        assert(r % 16 == (if ls >= 16 { ls - 16 } else { ls }));
    }
}

/// The subtract table, digit by digit.
#[verifier::rlimit(40)]
proof fn lemma_daa_sub_digits(xh: int, xl: int, yh: int, yl: int)
    requires
        0 <= xh <= 9,
        0 <= xl <= 9,
        0 <= yh <= 9,
        0 <= yl <= 9,
    ensures
        daa_sub_holds(10 * xh + xl, 10 * yh + yl),
{
    lemma_bcd_digits(xh, xl);
    lemma_bcd_digits(yh, yl);
    let a = 16 * xh + xl;
    let b = 16 * yh + yl;
    let x = 10 * xh + xl;
    let y = 10 * yh + yl;
    let ld = xl - yl;
    let l2 = if ld < 0 { ld + 10 } else { ld };
    let hd = xh - yh - (if ld < 0 { 1int } else { 0 });
    let h2 = if hd < 0 { hd + 10 } else { hd };
    assert((x - y + 100) % 100 == 10 * h2 + l2);
    lemma_bcd_digits(h2, l2);
    assert(a % 16 < b % 16 <==> ld < 0);
    assert(a < b <==> x < y);
    let r = (a - b + 512) % 256;
    assert(r == (if a >= b { a - b } else { a - b + 256 }));
}

proof fn lemma_daa_table()
    ensures
        forall|x: int, y: int| 0 <= x < 100 && 0 <= y < 100 ==> daa_add_holds(x, y) && daa_sub_holds(x, y),
{
    assert forall|x: int, y: int| 0 <= x < 100 && 0 <= y < 100 implies daa_add_holds(x, y) && daa_sub_holds(x, y) by {
        lemma_daa_add_digits(x / 10, x % 10, y / 10, y % 10);
        lemma_daa_sub_digits(x / 10, x % 10, y / 10, y % 10);
    }
}

/// A packed-BCD byte is the BCD of its value.
proof fn lemma_bcd_round_trip(x: u8)
    requires
        is_bcd(x),
    ensures
        0 <= bcd_value(x) < 100,
        bcd_byte(bcd_value(x)) == x,
{
}

/// ADD A,v then DAA on packed BCD gives the packed BCD of the decimal sum
/// mod 100; C reports the decimal carry, Z a zero result, and H and N are
/// clear.
pub proof fn lemma_daa_after_add(reg: Registers, v: u8)
    requires
        is_bcd(reg.a),
        is_bcd(v),
    ensures
        ({
            let r = daa_result(alu_result(reg, AluOp::Add, v));
            let s = bcd_value(reg.a) + bcd_value(v);
            &&& r.a == bcd_byte(s % 100)
            &&& r.flag(Flags::C) == (s > 99)
            &&& r.flag(Flags::Z) == (r.a == 0)
            &&& !r.flag(Flags::H)
            &&& !r.flag(Flags::N)
        }),
{
    lemma_daa_table();
    lemma_bcd_round_trip(reg.a);
    lemma_bcd_round_trip(v);
    let x = bcd_value(reg.a);
    let y = bcd_value(v);
    assert(daa_add_holds(x, y));
    let r1 = alu_result(reg, AluOp::Add, v);
    lemma_flag_reads_znhc(reg, (((reg.a + v) % 256) as u8) == 0, false, reg.a % 16 + v % 16 > 15, reg.a + v > 255);
    let adj = daa_adjust(r1);
    let out = ((r1.a + adj) % 256) as u8;
    lemma_flag_reads_zhc(r1, out == 0, false, adj >= 0x60);
}

/// SUB A,v then DAA on packed BCD gives the packed BCD of the decimal
/// difference mod 100; C reports the decimal borrow, Z a zero result, H is
/// clear and N set.
pub proof fn lemma_daa_after_sub(reg: Registers, v: u8)
    requires
        is_bcd(reg.a),
        is_bcd(v),
    ensures
        ({
            let r = daa_result(alu_result(reg, AluOp::Sub, v));
            let x = bcd_value(reg.a);
            let y = bcd_value(v);
            &&& r.a == bcd_byte((x - y + 100) % 100)
            &&& r.flag(Flags::C) == (x < y)
            &&& r.flag(Flags::Z) == (r.a == 0)
            &&& !r.flag(Flags::H)
            &&& r.flag(Flags::N)
        }),
{
    lemma_daa_table();
    lemma_bcd_round_trip(reg.a);
    lemma_bcd_round_trip(v);
    let x = bcd_value(reg.a);
    let y = bcd_value(v);
    assert(daa_sub_holds(x, y));
    let r1 = alu_result(reg, AluOp::Sub, v);
    lemma_flag_reads_znhc(reg, (((reg.a - v + 512) % 256) as u8) == 0, true, reg.a % 16 < v % 16, reg.a < v);
    let adj = daa_adjust(r1);
    let out = ((r1.a - adj + 256) % 256) as u8;
    lemma_flag_reads_zhc(r1, out == 0, false, adj >= 0x60);
}

/// The flags read back after Z, N, H and C are assigned.
proof fn lemma_flag_reads_znhc(reg: Registers, z: bool, n: bool, h: bool, c: bool)
    ensures
        with_znhc(reg, z, n, h, c).flag(Flags::Z) == z,
        with_znhc(reg, z, n, h, c).flag(Flags::N) == n,
        with_znhc(reg, z, n, h, c).flag(Flags::H) == h,
        with_znhc(reg, z, n, h, c).flag(Flags::C) == c,
{
    let r1 = reg.with_flag(Flags::Z, z);
    let r2 = r1.with_flag(Flags::N, n);
    let r3 = r2.with_flag(Flags::H, h);
    lemma_with_flag_reads(reg, Flags::Z, Flags::N, z);
    lemma_with_flag_reads(r1, Flags::N, Flags::Z, n);
    lemma_with_flag_reads(r2, Flags::H, Flags::Z, h);
    lemma_with_flag_reads(r2, Flags::H, Flags::N, h);
    lemma_with_flag_reads(r3, Flags::C, Flags::Z, c);
    lemma_with_flag_reads(r3, Flags::C, Flags::N, c);
    lemma_with_flag_reads(r3, Flags::C, Flags::H, c);
}

/// The flags read back after Z, H and C are assigned (N kept).
proof fn lemma_flag_reads_zhc(reg: Registers, z: bool, h: bool, c: bool)
    ensures
        reg.with_flag(Flags::Z, z).with_flag(Flags::H, h).with_flag(Flags::C, c).flag(Flags::Z) == z,
        reg.with_flag(Flags::Z, z).with_flag(Flags::H, h).with_flag(Flags::C, c).flag(Flags::H) == h,
        reg.with_flag(Flags::Z, z).with_flag(Flags::H, h).with_flag(Flags::C, c).flag(Flags::C) == c,
        reg.with_flag(Flags::Z, z).with_flag(Flags::H, h).with_flag(Flags::C, c).flag(Flags::N) == reg.flag(
            Flags::N,
        ),
{
    let r1 = reg.with_flag(Flags::Z, z);
    let r2 = r1.with_flag(Flags::H, h);
    lemma_with_flag_reads(reg, Flags::Z, Flags::N, z);
    lemma_with_flag_reads(r1, Flags::H, Flags::Z, h);
    lemma_with_flag_reads(r1, Flags::H, Flags::N, h);
    lemma_with_flag_reads(r2, Flags::C, Flags::Z, c);
    lemma_with_flag_reads(r2, Flags::C, Flags::H, c);
    lemma_with_flag_reads(r2, Flags::C, Flags::N, c);
}

pub proof fn lemma_nibble(x: u8)
    ensures
        x & 0x0F == x % 16,
        x >> 4 == x / 16,
        x >> 1 == x / 2,
        x & 0x80 == (if x >= 128 { 0x80u8 } else { 0u8 }),
        x & 0x01 == x % 2,
{
    lemma_byte(x);
}

/// With a clean F, assigning all four flags leaves exactly the F byte they
/// spell, whatever F held before.
pub proof fn lemma_znhc_byte(reg: Registers, z: bool, n: bool, h: bool, c: bool)
    requires
        reg.flags_clean(),
    ensures
        with_znhc(reg, z, n, h, c).f == flags_byte(z, n, h, c),
        with_znhc(reg, z, n, h, c).flags_clean(),
{
    lemma_flag_bits(reg.f, z, n, h, c);
}

/// Assigning any flag keeps F clean.
pub proof fn lemma_with_flag_clean(reg: Registers, flag: Flags, state: bool)
    requires
        reg.flags_clean(),
    ensures
        reg.with_flag(flag, state).flags_clean(),
{
    let m = flag.mask();
    assert(m == 0x10 || m == 0x20 || m == 0x40 || m == 0x80);
    lemma_flag_mask(reg.f, m, m, state);
}

/// A flag just assigned reads back as assigned; others read as before.
pub proof fn lemma_with_flag_reads(reg: Registers, flag: Flags, other: Flags, state: bool)
    ensures
        reg.with_flag(flag, state).flag(flag) == state,
        other != flag ==> reg.with_flag(flag, state).flag(other) == reg.flag(other),
{
    let m = flag.mask();
    let o = other.mask();
    assert(m == 0x10 || m == 0x20 || m == 0x40 || m == 0x80);
    assert(o == 0x10 || o == 0x20 || o == 0x40 || o == 0x80);
    if other != flag {
        assert(m != o);
    }
    lemma_flag_mask(reg.f, m, o, state);
}

} // verus!

verus! {

/// The single-bit mask `1 << n` tests, clears and sets bit `n` as
/// `bit_of`, `res_result` and `set_result` say.
pub proof fn lemma_bit_mask(v: u8, n: u8)
    requires
        n < 8,
    ensures
        (v & (1u8 << n) == 0) == !bit_of(v, n as int),
        v & !(1u8 << n) == res_result(n, v),
        v | (1u8 << n) == set_result(n, v),
{
    reveal_with_fuel(pow2, 9);
    lemma_bit_index(v, n);
    assert(pow2(n as int) == (1u8 << n) as int && (v >> n) as int == v as int / pow2(n as int)) by {
        if n == 0 {
        } else if n == 1 {
        } else if n == 2 {
        } else if n == 3 {
        } else if n == 4 {
        } else if n == 5 {
        } else if n == 6 {
        } else {
        }
    }
}

/// The shift/rotate bit patterns compute what `rotated` says.
pub proof fn lemma_rotations(v: u8, c: u8)
    requires
        c <= 1,
    ensures
        (v << 1u8) | (v >> 7u8) == (((v as int * 2) % 256 + v as int / 128) as u8),
        (v >> 1u8) | (v << 7u8) == ((v as int / 2 + (v as int % 2) * 128) as u8),
        (v << 1u8) | c == (((v as int * 2) % 256 + c) as u8),
        (v >> 1u8) | (c << 7u8) == ((v as int / 2 + c * 128) as u8),
        v << 1u8 == (((v as int * 2) % 256) as u8),
        (v >> 1u8) | (v & 0x80) == ((v as int / 2 + (v as int / 128) * 128) as u8),
        (v >> 4u8) | (v << 4u8) == (((v as int % 16) * 16 + v as int / 16) as u8),
        v >> 1u8 == ((v as int / 2) as u8),
        (v & 0x80 != 0) == (v >= 128),
        (v & 0x01 != 0) == (v % 2 == 1),
        (v & 0x80 == 0x80) == (v >= 128),
        (v & 0x01 == 0x01) == (v % 2 == 1),
{
    lemma_byte(v);
    lemma_rlc(v);
    lemma_rrc(v);
    lemma_rl(v, c);
    lemma_rr(v, c);
    lemma_sla(v);
    lemma_sra(v);
    lemma_swap(v);
    lemma_carry_in(v, c);
}

pub proof fn lemma_low_bits16(x: u16)
    ensures
        x & 0x0FFF == x % 4096,
        x & 0x000F == x % 16,
        x & 0x00FF == x % 256,
{
    lemma_word(x);
}

} // verus!

verus! {

/// Flags assigned C, H, N, Z (the reverse order) give the same register file
/// as Z, N, H, C.
pub proof fn lemma_chnz(reg: Registers, z: bool, n: bool, h: bool, c: bool)
    ensures
        reg.with_flag(Flags::C, c).with_flag(Flags::H, h).with_flag(Flags::N, n).with_flag(Flags::Z, z)
            == with_znhc(reg, z, n, h, c),
{
    lemma_flag_bits(reg.f, z, n, h, c);
}

/// H, N, Z in that order equal Z, N, H.
pub proof fn lemma_hnz(reg: Registers, z: bool, n: bool, h: bool)
    ensures
        reg.with_flag(Flags::H, h).with_flag(Flags::N, n).with_flag(Flags::Z, z) == with_znh(reg, z, n, h),
{
    lemma_flag_bits(reg.f, z, n, h, false);
}

/// C, H, N in that order equal N, H, C.
pub proof fn lemma_chn(reg: Registers, n: bool, h: bool, c: bool)
    ensures
        reg.with_flag(Flags::C, c).with_flag(Flags::H, h).with_flag(Flags::N, n) == reg.with_flag(
            Flags::N,
            n,
        ).with_flag(Flags::H, h).with_flag(Flags::C, c),
{
    lemma_flag_bits(reg.f, false, n, h, c);
}

/// C, H, Z in that order equal Z, H, C.
pub proof fn lemma_chz(reg: Registers, z: bool, h: bool, c: bool)
    ensures
        reg.with_flag(Flags::C, c).with_flag(Flags::H, h).with_flag(Flags::Z, z) == reg.with_flag(
            Flags::Z,
            z,
        ).with_flag(Flags::H, h).with_flag(Flags::C, c),
{
    lemma_flag_bits(reg.f, z, false, h, c);
}

/// Flag assignments leave every register other than F alone, and keep F
/// clean.
pub proof fn lemma_chain_clean4(reg: Registers, z: bool, n: bool, h: bool, c: bool)
    requires
        reg.flags_clean(),
    ensures
        with_znhc(reg, z, n, h, c).flags_clean(),
        with_znh(reg, z, n, h).flags_clean(),
        reg.with_flag(Flags::N, n).with_flag(Flags::H, h).with_flag(Flags::C, c).flags_clean(),
        reg.with_flag(Flags::Z, z).with_flag(Flags::H, h).with_flag(Flags::C, c).flags_clean(),
        reg.with_flag(Flags::H, h).with_flag(Flags::N, n).flags_clean(),
        reg.with_flag(Flags::C, c).with_flag(Flags::H, h).with_flag(Flags::N, n).flags_clean(),
{
    lemma_flag_bits(reg.f, z, n, h, c);
}

/// DEC's half-borrow test: bits 0..3 all zero.
pub proof fn lemma_trailing_zeros_nibble(x: u8)
    ensures
        (x.trailing_zeros() >= 4) == (x % 16 == 0),
{
    vstd::std_specs::bits::axiom_u8_trailing_zeros(x);
    let t = x.trailing_zeros();
    if t >= 4 {
        assert((x >> 0u8) & 1u8 == 0u8);
        assert((x >> 1u8) & 1u8 == 0u8);
        assert((x >> 2u8) & 1u8 == 0u8);
        assert((x >> 3u8) & 1u8 == 0u8);
        lemma_byte(x);
    } else {
        let tt = t as u8;
        assert((x >> tt) & 1u8 == 1u8);
        lemma_bit_index(x, tt);
    }
}

/// XOR A clears A and leaves only Z set.
pub proof fn lemma_xor_a_clears(reg: Registers)
    requires
        reg.flags_clean(),
    ensures
        alu_result(reg, AluOp::Xor, reg.a).a == 0,
        alu_result(reg, AluOp::Xor, reg.a).f == 0x80,
{
    crate::bits::lemma_xor_self(reg.a);
    lemma_znhc_byte(reg, true, false, false, false);
    crate::bits::lemma_constants();
}

/// CP sets the flags SUB would and leaves A alone.
pub proof fn lemma_cp_is_discarded_sub(reg: Registers, v: u8)
    ensures
        alu_result(reg, AluOp::Cp, v) == (Registers { a: reg.a, ..alu_result(reg, AluOp::Sub, v) }),
{
}

/// SWAP undoes itself.
pub proof fn lemma_swap_twice(x: u8)
    ensures
        rotated(RotOp::Swap, rotated(RotOp::Swap, x, false).0, false).0 == x,
{
}

/// After SET n the bit reads 1; after RES n it reads 0; other bits keep
/// their values either way.
pub proof fn lemma_set_res_then_bit(v: u8, n: u8, m: u8)
    requires
        n < 8,
        m < 8,
        m != n,
    ensures
        bit_of(set_result(n, v), n as int),
        !bit_of(res_result(n, v), n as int),
        bit_of(set_result(n, v), m as int) == bit_of(v, m as int),
        bit_of(res_result(n, v), m as int) == bit_of(v, m as int),
{
    lemma_bit_mask(v, n);
    lemma_bit_mask(v | (1u8 << n), m);
    lemma_bit_mask(v & !(1u8 << n), m);
    lemma_bit_mask(v, m);
    lemma_bit_mask(v | (1u8 << n), n);
    lemma_bit_mask(v & !(1u8 << n), n);
    crate::bits::lemma_bit_pair(v, n, m);
}

} // verus!
