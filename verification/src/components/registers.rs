pub mod io;

use crate::components::mode::GBMode;
use crate::bits::{lemma_byte_masks, lemma_bytes_pair, lemma_constants, lemma_flag_mask, lemma_word_bytes};
use vstd::prelude::*;

verus! {

/// One of the four condition flags held in the upper nibble of F.
#[derive(Clone, Copy, PartialEq, Eq, Structural, Debug)]
pub enum Flags {
    /// Carry flag (bit 4)
    C,
    /// Half-carry flag (bit 5)
    H,
    /// Subtract flag (bit 6)
    N,
    /// Zero flag (bit 7)
    Z,
}

impl Flags {
    /// The bit of F that holds this flag.
    pub open spec fn mask(self) -> u8 {
        match self {
            Flags::C => 0x10,
            Flags::H => 0x20,
            Flags::N => 0x40,
            Flags::Z => 0x80,
        }
    }

    /// The bit of F that holds this flag.
    pub fn bits(self) -> (r: u8)
        ensures
            r == self.mask(),
    {
        match self {
            Flags::C => 0x10,
            Flags::H => 0x20,
            Flags::N => 0x40,
            Flags::Z => 0x80,
        }
    }
}

/// The SM83 register file.
#[derive(Debug, Clone, Copy, PartialEq, Eq, Structural)]
pub struct Registers {
    pub a: u8,
    pub f: u8,
    pub b: u8,
    pub c: u8,
    pub d: u8,
    pub e: u8,
    pub h: u8,
    pub l: u8,
    pub pc: u16,
    pub sp: u16,
}

/// The 16-bit value whose high byte is `hi` and low byte is `lo`.
pub open spec fn pair(hi: u8, lo: u8) -> u16 {
    (hi as int * 256 + lo as int) as u16
}

impl Registers {
    /// F holds no bits outside the four flags.
    pub open spec fn flags_clean(self) -> bool {
        self.f & 0x0F == 0
    }

    pub open spec fn af(self) -> u16 {
        pair(self.a, self.f)
    }

    pub open spec fn bc(self) -> u16 {
        pair(self.b, self.c)
    }

    pub open spec fn de(self) -> u16 {
        pair(self.d, self.e)
    }

    pub open spec fn hl(self) -> u16 {
        pair(self.h, self.l)
    }

    /// Whether `flag` is set in F.
    pub open spec fn flag(self, flag: Flags) -> bool {
        self.f & flag.mask() == flag.mask()
    }

    /// F with `flag` set to `state`, every other bit kept.
    pub open spec fn with_flag(self, flag: Flags, state: bool) -> Registers {
        Registers { f: set_bit(self.f, flag.mask(), state), ..self }
    }

    /// The register file with all four flags assigned at once.
    pub open spec fn with_flags(self, z: bool, n: bool, h: bool, c: bool) -> Registers {
        Registers { f: flags_byte(z, n, h, c), ..self }
    }

    pub fn get_af(&self) -> (r: u16)
        ensures
            r == self.af(),
    {
        let (a, f) = (self.a, self.f);
        proof { lemma_pair(a, f); }
        ((a as u16) << 8) | (f as u16)
    }

    pub fn get_bc(&self) -> (r: u16)
        ensures
            r == self.bc(),
    {
        let (b, c) = (self.b, self.c);
        proof { lemma_pair(b, c); }
        ((b as u16) << 8) | (c as u16)
    }

    pub fn get_de(&self) -> (r: u16)
        ensures
            r == self.de(),
    {
        let (d, e) = (self.d, self.e);
        proof { lemma_pair(d, e); }
        ((d as u16) << 8) | (e as u16)
    }

    pub fn get_hl(&self) -> (r: u16)
        ensures
            r == self.hl(),
    {
        let (h, l) = (self.h, self.l);
        proof { lemma_pair(h, l); }
        ((h as u16) << 8) | (l as u16)
    }

    /// Loads AF; the low nibble of F always reads back as zero.
    pub fn set_af(&mut self, x: u16)
        ensures
            *final(self) == (Registers { a: high_byte(x), f: low_byte(x) & 0xF0, ..*old(self) }),
    {
        proof { lemma_split(x); }
        self.a = (x >> 8) as u8;
        self.f = (x & 0x00F0) as u8;
        proof { lemma_word_bytes(x); }
    }

    pub fn set_bc(&mut self, x: u16)
        ensures
            *final(self) == (Registers { b: high_byte(x), c: low_byte(x), ..*old(self) }),
    {
        proof { lemma_split(x); }
        self.b = (x >> 8) as u8;
        self.c = (x & 0x00FF) as u8;
    }

    pub fn set_de(&mut self, x: u16)
        ensures
            *final(self) == (Registers { d: high_byte(x), e: low_byte(x), ..*old(self) }),
    {
        proof { lemma_split(x); }
        self.d = (x >> 8) as u8;
        self.e = (x & 0x00FF) as u8;
    }

    pub fn set_hl(&mut self, x: u16)
        ensures
            *final(self) == (Registers { h: high_byte(x), l: low_byte(x), ..*old(self) }),
    {
        proof { lemma_split(x); }
        self.h = (x >> 8) as u8;
        self.l = (x & 0x00FF) as u8;
    }

    /// Reads one flag. F must hold no bits outside the flags, as it does
    /// whenever it was written through `set_af` or `set_flag`.
    pub fn get_flag(&self, flag: Flags) -> (r: bool)
        requires
            self.flags_clean(),
        ensures
            r == self.flag(flag),
    {
        let m = flag.bits();
        self.f & m == m
    }

    pub fn set_flag(&mut self, flag: Flags, state: bool)
        ensures
            *final(self) == old(self).with_flag(flag, state),
    {
        if state {
            self.f |= flag.bits();
        } else {
            self.f &= !flag.bits();
        }
    }

    /// The register values the boot ROM hands over with, per console.
    pub fn new(mode: GBMode) -> (r: Registers)
        ensures
            r == initial_registers(mode),
            r.flags_clean(),
    {
        proof { lemma_constants(); }
        match mode {
            GBMode::DMG => Registers {
                a: 0x01,
                f: 0xB0,
                b: 0x00,
                c: 0x13,
                d: 0x00,
                e: 0xD8,
                h: 0x01,
                l: 0x4D,
                pc: 0x0000,
                sp: 0xFFFE,
            },
            GBMode::CGB => Registers {
                a: 0x11,
                f: 0x80,
                b: 0x00,
                c: 0x00,
                d: 0xFF,
                e: 0x56,
                h: 0x00,
                l: 0x0D,
                pc: 0x0000,
                sp: 0xFFFE,
            },
        }
    }
}

/// The register file at power-up: DMG starts with Z, H and C set, CGB with Z.
pub open spec fn initial_registers(mode: GBMode) -> Registers {
    match mode {
        GBMode::DMG => Registers {
            a: 0x01,
            f: flags_byte(true, false, true, true),
            b: 0x00,
            c: 0x13,
            d: 0x00,
            e: 0xD8,
            h: 0x01,
            l: 0x4D,
            pc: 0x0000,
            sp: 0xFFFE,
        },
        GBMode::CGB => Registers {
            a: 0x11,
            f: flags_byte(true, false, false, false),
            b: 0x00,
            c: 0x00,
            d: 0xFF,
            e: 0x56,
            h: 0x00,
            l: 0x0D,
            pc: 0x0000,
            sp: 0xFFFE,
        },
    }
}

/// The F byte with the given Z, N, H and C flags and a clear low nibble.
pub open spec fn flags_byte(z: bool, n: bool, h: bool, c: bool) -> u8 {
    (if z { 0x80u8 } else { 0u8 }) | (if n { 0x40u8 } else { 0u8 }) | (if h { 0x20u8 } else { 0u8 }) | (
    if c { 0x10u8 } else { 0u8 })
}

/// `f` with the bits of `m` set or cleared.
pub open spec fn set_bit(f: u8, m: u8, state: bool) -> u8 {
    if state { f | m } else { f & !m }
}

pub open spec fn high_byte(x: u16) -> u8 {
    (x / 256) as u8
}

pub open spec fn low_byte(x: u16) -> u8 {
    (x % 256) as u8
}

pub proof fn lemma_pair(hi: u8, lo: u8)
    ensures
        ((hi as u16) << 8) | (lo as u16) == pair(hi, lo),
        high_byte(pair(hi, lo)) == hi,
        low_byte(pair(hi, lo)) == lo,
{
    lemma_bytes_pair(hi, lo);
}

pub proof fn lemma_split(x: u16)
    ensures
        (x >> 8) as u8 == high_byte(x),
        (x & 0x00FF) as u8 == low_byte(x),
        (x as u8) == low_byte(x),
        pair(high_byte(x), low_byte(x)) == x,
{
    lemma_word_bytes(x);
}

/// Reading a register pair gives back exactly what was written to it; for AF
/// the low nibble of F is dropped.
pub proof fn lemma_pair_round_trip(r: Registers, x: u16)
    ensures
        (Registers { b: high_byte(x), c: low_byte(x), ..r }).bc() == x,
        (Registers { d: high_byte(x), e: low_byte(x), ..r }).de() == x,
        (Registers { h: high_byte(x), l: low_byte(x), ..r }).hl() == x,
        (Registers { a: high_byte(x), f: low_byte(x) & 0xF0, ..r }).af() == x & 0xFFF0,
        (Registers { a: high_byte(x), f: low_byte(x) & 0xF0, ..r }).flags_clean(),
{
    lemma_split(x);
    let lo = low_byte(x);
    lemma_byte_masks(lo);
    lemma_word_bytes(x);
}

/// Setting a flag is seen by reading it back, and leaves the other flags and
/// registers as they were.
pub proof fn lemma_flag_round_trip(r: Registers, flag: Flags, other: Flags, state: bool)
    requires
        other != flag,
    ensures
        r.with_flag(flag, state).flag(flag) == state,
        r.with_flag(flag, state).flag(other) == r.flag(other),
        r.flags_clean() ==> r.with_flag(flag, state).flags_clean(),
{
    let f = r.f;
    let m = flag.mask();
    let o = other.mask();
    assert(m == 0x10 || m == 0x20 || m == 0x40 || m == 0x80);
    assert(o == 0x10 || o == 0x20 || o == 0x40 || o == 0x80);
    assert(m != o);
    lemma_flag_mask(f, m, o, state);
}

} // verus!
