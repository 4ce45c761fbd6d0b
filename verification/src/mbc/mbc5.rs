use crate::bits::{lemma_bank_bits, lemma_mbc5_bank};
use crate::memory::Memory;
use vstd::prelude::*;

verus! {

/// MBC5: a 9-bit ROM bank (up to 8 MiB) and a 4-bit RAM bank over 128 KiB of
/// RAM.
pub struct MBC5 {
    rom: Vec<u8>,
    ram: Vec<u8>,
    ram_enabled: bool,
    rom_bank: usize,
    ram_bank: usize,
}

pub struct Mbc5View {
    pub rom: Seq<u8>,
    pub ram: Seq<u8>,
    pub ram_enabled: bool,
    pub rom_bank: usize,
    pub ram_bank: usize,
}

impl View for MBC5 {
    type V = Mbc5View;

    closed spec fn view(&self) -> Mbc5View {
        Mbc5View {
            rom: self.rom@,
            ram: self.ram@,
            ram_enabled: self.ram_enabled,
            rom_bank: self.rom_bank,
            ram_bank: self.ram_bank,
        }
    }
}

pub open spec fn mbc5_wf(m: Mbc5View) -> bool {
    m.ram.len() == 0x2_0000 && m.rom_bank <= 0x1FF && m.ram_bank <= 0x0F
}

pub open spec fn mbc5_rom_offset(m: Mbc5View, a: u16) -> int {
    if a <= 0x3FFF {
        a as int
    } else {
        a + m.rom_bank * 0x4000 - 0x4000
    }
}

impl MBC5 {
    /// The cartridge with 128 KiB of cleared, disabled RAM and bank 0
    /// mapped.
    pub fn new(rom: Vec<u8>) -> (r: Self)
        ensures
            mbc5_wf(r@),
            r@.rom == rom@,
            r@.ram == Seq::new(0x2_0000, |i: int| 0u8),
            !r@.ram_enabled,
            r@.rom_bank == 0,
            r@.ram_bank == 0,
    {
        Self { rom, ram: vec![0x00; 131_072], ram_enabled: false, rom_bank: 0, ram_bank: 0 }
    }
}

impl Memory for MBC5 {
    open spec fn readable(m: Mbc5View, a: u16) -> bool {
        &&& mbc5_wf(m)
        &&& (a <= 0x7FFF && mbc5_rom_offset(m, a) < m.rom.len()) || (0xA000 <= a <= 0xBFFF)
    }

    open spec fn writable(m: Mbc5View, a: u16, v: u8) -> bool {
        mbc5_wf(m) && (a <= 0x7FFF || (0xA000 <= a <= 0xBFFF))
    }

    open spec fn peek(m: Mbc5View, a: u16) -> u8 {
        if a <= 0x7FFF {
            m.rom[mbc5_rom_offset(m, a)]
        } else if m.ram_enabled {
            m.ram[a + m.ram_bank * 0x2000 - 0xA000]
        } else {
            0x00
        }
    }

    /// 0x0000: RAM enable; 0x2000: low 8 ROM-bank bits; 0x3000: ROM-bank
    /// bit 8; 0x4000: RAM bank; 0x6000: ignored; 0xA000: RAM, while enabled.
    open spec fn poke(m: Mbc5View, a: u16, v: u8) -> Mbc5View {
        if a <= 0x1FFF {
            Mbc5View { ram_enabled: v & 0x0F == 0x0A, ..m }
        } else if a <= 0x2FFF {
            Mbc5View { rom_bank: (m.rom_bank & 0x100) | (v as usize), ..m }
        } else if a <= 0x3FFF {
            Mbc5View { rom_bank: (m.rom_bank & 0x0ff) | (((v & 0x01) as usize) << 8usize), ..m }
        } else if a <= 0x5FFF {
            Mbc5View { ram_bank: (v & 0x0f) as usize, ..m }
        } else if a <= 0x7FFF {
            m
        } else if m.ram_enabled {
            Mbc5View { ram: m.ram.update(a + m.ram_bank * 0x2000 - 0xA000, v), ..m }
        } else {
            m
        }
    }

    fn read(&self, a: u16) -> (r: u8) {
        if a <= 0x3FFF {
            self.rom[a as usize]
        } else if a <= 0x7FFF {
            self.rom[a as usize + self.rom_bank * 0x4000 - 0x4000]
        } else if self.ram_enabled {
            self.ram[a as usize + self.ram_bank * 0x2000 - 0xA000]
        } else {
            0x00
        }
    }

    fn write(&mut self, a: u16, v: u8) {
        if a <= 0x1FFF {
            self.ram_enabled = v & 0x0F == 0x0A;
        } else if a <= 0x2FFF {
            self.rom_bank = (self.rom_bank & 0x100) | (v as usize);
        } else if a <= 0x3FFF {
            self.rom_bank = (self.rom_bank & 0x0ff) | (((v & 0x01) as usize) << 8usize);
        } else if a <= 0x5FFF {
            self.ram_bank = (v & 0x0f) as usize;
        } else if a <= 0x7FFF {
            // Unknown writes
        } else {
            if self.ram_enabled {
                self.ram.set(a as usize + self.ram_bank * 0x2000 - 0xA000, v);
            }
        }
    }
}

/// Every write keeps the RAM size and the bank registers in range.
pub proof fn lemma_mbc5_wf_kept(m: Mbc5View, a: u16, v: u8)
    requires
        MBC5::writable(m, a, v),
    ensures
        mbc5_wf(MBC5::poke(m, a, v)),
{
    lemma_bank_bits(v);
    lemma_mbc5_bank(m.rom_bank, v);
}

/// A byte written to enabled RAM reads back, and ROM never changes.
pub proof fn lemma_mbc5_ram_read_back(m: Mbc5View, a: u16, v: u8)
    requires
        mbc5_wf(m),
        m.ram_enabled,
        0xA000 <= a <= 0xBFFF,
    ensures
        MBC5::peek(MBC5::poke(m, a, v), a) == v,
        MBC5::poke(m, a, v).rom == m.rom,
{
}

impl MBC5 {
    /// Whether a read of `a` is served.
    pub fn serves_read(&self, a: u16) -> (r: bool)
        ensures
            r == <MBC5 as Memory>::readable(self@, a),
    {
        if !(self.ram.len() == 0x2_0000 && self.rom_bank <= 0x1FF && self.ram_bank <= 0x0F) {
            false
        } else if a <= 0x3FFF {
            (a as usize) < self.rom.len()
        } else if a <= 0x7FFF {
            (a as usize) + self.rom_bank * 0x4000 - 0x4000 < self.rom.len()
        } else {
            0xA000 <= a && a <= 0xBFFF
        }
    }

    /// Whether a write of `v` to `a` is served.
    pub fn serves_write(&self, a: u16, v: u8) -> (r: bool)
        ensures
            r == <MBC5 as Memory>::writable(self@, a, v),
    {
        self.ram.len() == 0x2_0000 && self.rom_bank <= 0x1FF && self.ram_bank <= 0x0F && (a <= 0x7FFF || (0xA000
            <= a && a <= 0xBFFF))
    }
}

} // verus!
