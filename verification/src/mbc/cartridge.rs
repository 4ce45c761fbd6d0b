use crate::mbc::mbc1::{mbc1_wf, Mbc1View, MBC1};
use crate::mbc::mbc2::{mbc2_wf, Mbc2View, MBC2};
use crate::mbc::mbc3::{mbc3_wf, rtc_at, Mbc3View, MBC3};
use crate::mbc::mbc5::{mbc5_wf, Mbc5View, MBC5};
use crate::mbc::mode::MBCMode;
use crate::mbc::rom_only::{RomOnlyView, ROMOnly};
use crate::memory::Memory;
use vstd::prelude::*;

verus! {

/// The cartridge's memory bank controller, whichever kind the header names.
pub enum Cartridge {
    RomOnly(ROMOnly),
    Mbc1(MBC1),
    Mbc2(MBC2),
    Mbc3(MBC3),
    Mbc5(MBC5),
}

pub enum CartView {
    RomOnly(RomOnlyView),
    Mbc1(Mbc1View),
    Mbc2(Mbc2View),
    Mbc3(Mbc3View),
    Mbc5(Mbc5View),
}

impl View for Cartridge {
    type V = CartView;

    closed spec fn view(&self) -> CartView {
        match self {
            Cartridge::RomOnly(c) => CartView::RomOnly(c@),
            Cartridge::Mbc1(c) => CartView::Mbc1(c@),
            Cartridge::Mbc2(c) => CartView::Mbc2(c@),
            Cartridge::Mbc3(c) => CartView::Mbc3(c@),
            Cartridge::Mbc5(c) => CartView::Mbc5(c@),
        }
    }
}

/// The controller serves a read of `a`.
pub open spec fn cart_readable(m: CartView, a: u16) -> bool {
    match m {
        CartView::RomOnly(c) => ROMOnly::readable(c, a),
        CartView::Mbc1(c) => MBC1::readable(c, a),
        CartView::Mbc2(c) => MBC2::readable(c, a),
        CartView::Mbc3(c) => MBC3::readable(c, a),
        CartView::Mbc5(c) => MBC5::readable(c, a),
    }
}

/// What a read of `a` returns.
pub open spec fn cart_read(m: CartView, a: u16) -> u8 {
    match m {
        CartView::RomOnly(c) => ROMOnly::peek(c, a),
        CartView::Mbc1(c) => MBC1::peek(c, a),
        CartView::Mbc2(c) => MBC2::peek(c, a),
        CartView::Mbc3(c) => MBC3::peek(c, a),
        CartView::Mbc5(c) => MBC5::peek(c, a),
    }
}

/// The controller serves a write of `v` to `a` (an MBC3 clock latch
/// included).
pub open spec fn cart_writable(m: CartView, a: u16, v: u8) -> bool {
    match m {
        CartView::RomOnly(c) => ROMOnly::writable(c, a, v),
        CartView::Mbc1(c) => MBC1::writable(c, a, v),
        CartView::Mbc2(c) => MBC2::writable(c, a, v),
        CartView::Mbc3(c) => MBC3::writable(c, a, v) || (mbc3_wf(c) && 0x6000 <= a <= 0x7FFF),
        CartView::Mbc5(c) => MBC5::writable(c, a, v),
    }
}

/// A write that latches the MBC3 real-time clock, which reads the host's
/// clock.
pub open spec fn is_clock_latch(m: CartView, a: u16, v: u8) -> bool {
    m is Mbc3 && 0x6000 <= a <= 0x7FFF && v & 0x01 != 0
}

/// The state after any other write.
pub open spec fn cart_written(m: CartView, a: u16, v: u8) -> CartView {
    match m {
        CartView::RomOnly(c) => CartView::RomOnly(ROMOnly::poke(c, a, v)),
        CartView::Mbc1(c) => CartView::Mbc1(MBC1::poke(c, a, v)),
        CartView::Mbc2(c) => CartView::Mbc2(MBC2::poke(c, a, v)),
        CartView::Mbc3(c) => CartView::Mbc3(MBC3::poke(c, a, v)),
        CartView::Mbc5(c) => CartView::Mbc5(MBC5::poke(c, a, v)),
    }
}

/// What a clock latch leaves: the clock registers unchanged, or showing
/// the time some whole number of seconds after their last setting.
pub open spec fn clock_latched(old: CartView, new: CartView) -> bool {
    match (old, new) {
        (CartView::Mbc3(o), CartView::Mbc3(n)) => n == o || exists|d: u64| n == (Mbc3View { rtc: #[trigger] rtc_at(o.rtc, d), ..o }),
        _ => false,
    }
}

impl Cartridge {
    /// The controller the header's cartridge type names, over `rom`; none
    /// for an unsupported cartridge type (or an MBC1 image over 2 MiB).
    pub fn from_rom(rom: Vec<u8>, kind: MBCMode) -> (r: Option<Cartridge>)
        ensures
            r is Some <==> kind == MBCMode::RomOnly || (kind == MBCMode::MBC1 && rom@.len() <= 0x20_0000) || kind
                == MBCMode::MBC2 || kind == MBCMode::MBC3 || kind == MBCMode::MBC5,
            r matches Some(c) ==> match c@ {
                CartView::RomOnly(m) => kind == MBCMode::RomOnly && m.rom == rom@,
                CartView::Mbc1(m) => kind == MBCMode::MBC1 && m.rom.subrange(0, rom@.len() as int) == rom@ && mbc1_wf(m),
                CartView::Mbc2(m) => kind == MBCMode::MBC2 && m.rom == rom@ && mbc2_wf(m),
                CartView::Mbc3(m) => kind == MBCMode::MBC3 && m.rom == rom@ && mbc3_wf(m),
                CartView::Mbc5(m) => kind == MBCMode::MBC5 && m.rom == rom@ && mbc5_wf(m),
            },
    {
        match kind {
            MBCMode::RomOnly => Some(Cartridge::RomOnly(ROMOnly::new(rom))),
            MBCMode::MBC1 => {
                if rom.len() <= 0x20_0000 {
                    let ghost given = rom@;
                    let c = MBC1::new(rom);
                    assert(c@.rom.subrange(0, given.len() as int) =~= given);
                    Some(Cartridge::Mbc1(c))
                } else {
                    None
                }
            },
            MBCMode::MBC2 => Some(Cartridge::Mbc2(MBC2::new(rom))),
            MBCMode::MBC3 => Some(Cartridge::Mbc3(MBC3::new(rom))),
            MBCMode::MBC5 => Some(Cartridge::Mbc5(MBC5::new(rom))),
            _ => None,
        }
    }

    pub fn read(&self, a: u16) -> (r: u8)
        requires
            cart_readable(self@, a),
        ensures
            r == cart_read(self@, a),
    {
        match self {
            Cartridge::RomOnly(c) => c.read(a),
            Cartridge::Mbc1(c) => c.read(a),
            Cartridge::Mbc2(c) => c.read(a),
            Cartridge::Mbc3(c) => c.read(a),
            Cartridge::Mbc5(c) => c.read(a),
        }
    }

    pub fn write(&mut self, a: u16, v: u8)
        requires
            cart_writable(old(self)@, a, v),
        ensures
            !is_clock_latch(old(self)@, a, v) ==> final(self)@ == cart_written(old(self)@, a, v),
            is_clock_latch(old(self)@, a, v) ==> clock_latched(old(self)@, final(self)@),
    {
        match self {
            Cartridge::RomOnly(c) => c.write(a, v),
            Cartridge::Mbc1(c) => c.write(a, v),
            Cartridge::Mbc2(c) => c.write(a, v),
            Cartridge::Mbc3(c) => {
                if 0x6000 <= a && a <= 0x7FFF {
                    c.latch_clock(v);
                } else {
                    c.write(a, v);
                }
            },
            Cartridge::Mbc5(c) => c.write(a, v),
        }
    }
}

impl Cartridge {
    /// Whether the controller serves a read of `a`.
    pub fn serves_read(&self, a: u16) -> (r: bool)
        ensures
            r == cart_readable(self@, a),
    {
        match self {
            Cartridge::RomOnly(c) => c.serves_read(a),
            Cartridge::Mbc1(c) => c.serves_read(a),
            Cartridge::Mbc2(c) => c.serves_read(a),
            Cartridge::Mbc3(c) => c.serves_read(a),
            Cartridge::Mbc5(c) => c.serves_read(a),
        }
    }

    /// Whether the controller serves a write of `v` to `a`.
    pub fn serves_write(&self, a: u16, v: u8) -> (r: bool)
        ensures
            r == cart_writable(self@, a, v),
    {
        match self {
            Cartridge::RomOnly(c) => true,
            Cartridge::Mbc1(c) => c.serves_write(a, v),
            Cartridge::Mbc2(c) => c.serves_write(a, v),
            Cartridge::Mbc3(c) => c.serves_write(a, v),
            Cartridge::Mbc5(c) => c.serves_write(a, v),
        }
    }
}

} // verus!
