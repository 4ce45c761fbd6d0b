use crate::bits::lemma_bank_bits;
use crate::memory::Memory;
use vstd::prelude::*;

verus! {

/// MBC2: up to 16 ROM banks of 16 KiB and 512 half-bytes of built-in RAM.
/// Address bit 8 tells the RAM-enable register (clear) from the ROM-bank
/// register (set).
pub struct MBC2 {
    rom: Vec<u8>,
    ram: Vec<u8>,
    ram_enabled: bool,
    rom_bank: usize,
}

pub struct Mbc2View {
    pub rom: Seq<u8>,
    pub ram: Seq<u8>,
    pub ram_enabled: bool,
    pub rom_bank: usize,
}

impl View for MBC2 {
    type V = Mbc2View;

    closed spec fn view(&self) -> Mbc2View {
        Mbc2View { rom: self.rom@, ram: self.ram@, ram_enabled: self.ram_enabled, rom_bank: self.rom_bank }
    }
}

pub open spec fn mbc2_wf(m: Mbc2View) -> bool {
    m.ram.len() == 512 && m.rom_bank < 16
}

/// The ROM offset a read of `a` (0x0000-0x7FFF) lands on.
pub open spec fn mbc2_rom_offset(m: Mbc2View, a: u16) -> int {
    if a <= 0x3FFF {
        a as int
    } else {
        a + m.rom_bank * 0x4000 - 0x4000
    }
}

impl MBC2 {
    /// The cartridge with its RAM cleared and disabled and bank 1 mapped.
    pub fn new(rom: Vec<u8>) -> (r: Self)
        ensures
            mbc2_wf(r@),
            r@.rom == rom@,
            r@.ram == Seq::new(512, |i: int| 0u8),
            !r@.ram_enabled,
            r@.rom_bank == 1,
    {
        Self { rom, ram: vec![0x00; 512], ram_enabled: false, rom_bank: 1 }
    }
}

impl Memory for MBC2 {
    /// ROM reads need the ROM image to reach the mapped offset; RAM is
    /// 0xA000-0xA1FF.
    open spec fn readable(m: Mbc2View, a: u16) -> bool {
        &&& mbc2_wf(m)
        &&& (a <= 0x7FFF && mbc2_rom_offset(m, a) < m.rom.len()) || (0xA000 <= a <= 0xA1FF)
    }

    /// The registers sit at 0x0000-0x3FFF; 0x4000-0x7FFF takes no writes.
    open spec fn writable(m: Mbc2View, a: u16, v: u8) -> bool {
        mbc2_wf(m) && (a <= 0x3FFF || (0xA000 <= a <= 0xA1FF))
    }

    open spec fn peek(m: Mbc2View, a: u16) -> u8 {
        if a <= 0x7FFF {
            m.rom[mbc2_rom_offset(m, a)]
        } else if m.ram_enabled {
            m.ram[a - 0xA000]
        } else {
            0x00
        }
    }

    /// Only the low nibble of a written byte is kept.
    open spec fn poke(m: Mbc2View, a: u16, v: u8) -> Mbc2View {
        let v = v & 0x0F;
        if a <= 0x1FFF {
            if a & 0x0100 == 0 {
                Mbc2View { ram_enabled: v == 0x0A, ..m }
            } else {
                m
            }
        } else if a <= 0x3FFF {
            if a & 0x0100 != 0 {
                Mbc2View { rom_bank: v as usize, ..m }
            } else {
                m
            }
        } else if m.ram_enabled {
            Mbc2View { ram: m.ram.update(a - 0xA000, v), ..m }
        } else {
            m
        }
    }

    fn read(&self, a: u16) -> (r: u8) {
        if a <= 0x3FFF {
            self.rom[a as usize]
        } else if a <= 0x7FFF {
            self.rom[a as usize + self.rom_bank * 0x4000 - 0x4000]
        } else if self.ram_enabled {
            self.ram[(a - 0xA000) as usize]
        } else {
            0x00
        }
    }

    fn write(&mut self, a: u16, v: u8) {
        let v = v & 0x0F;
        proof { lemma_bank_bits(v); }
        if a <= 0x1FFF {
            if a & 0x0100 == 0 {
                self.ram_enabled = v == 0x0A;
            }
        } else if a <= 0x3FFF {
            if a & 0x0100 != 0 {
                self.rom_bank = v as usize;
            }
        } else {
            if self.ram_enabled {
                self.ram.set((a - 0xa000) as usize, v);
            }
        }
    }
}

/// A nibble written to enabled RAM reads back (the high nibble as 0), and
/// ROM never changes.
pub proof fn lemma_mbc2_ram_read_back(m: Mbc2View, a: u16, v: u8)
    requires
        mbc2_wf(m),
        m.ram_enabled,
        0xA000 <= a <= 0xA1FF,
    ensures
        MBC2::peek(MBC2::poke(m, a, v), a) == v & 0x0F,
        MBC2::poke(m, a, v).rom == m.rom,
{
}

/// Every write keeps the RAM size and a 4-bit ROM bank.
pub proof fn lemma_mbc2_wf_kept(m: Mbc2View, a: u16, v: u8)
    requires
        MBC2::writable(m, a, v),
    ensures
        mbc2_wf(MBC2::poke(m, a, v)),
{
    lemma_bank_bits(v);
}

impl MBC2 {
    /// Whether a read of `a` is served.
    pub fn serves_read(&self, a: u16) -> (r: bool)
        ensures
            r == <MBC2 as Memory>::readable(self@, a),
    {
        if !(self.ram.len() == 512 && self.rom_bank < 16) {
            false
        } else if a <= 0x3FFF {
            (a as usize) < self.rom.len()
        } else if a <= 0x7FFF {
            (a as usize) + self.rom_bank * 0x4000 - 0x4000 < self.rom.len()
        } else {
            0xA000 <= a && a <= 0xA1FF
        }
    }

    /// Whether a write of `v` to `a` is served.
    pub fn serves_write(&self, a: u16, v: u8) -> (r: bool)
        ensures
            r == <MBC2 as Memory>::writable(self@, a, v),
    {
        self.ram.len() == 512 && self.rom_bank < 16 && (a <= 0x3FFF || (0xA000 <= a && a <= 0xA1FF))
    }
}

} // verus!
