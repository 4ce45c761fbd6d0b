use crate::bits::lemma_bank_bits;
use crate::memory::Memory;
use vstd::prelude::*;

verus! {

/// MBC1: 2 MiB of ROM in 16 KiB banks and 32 KiB of RAM in 8 KiB banks. A
/// 7-bit bank register holds the low 5 ROM-bank bits and 2 more bits that
/// select the upper ROM banks (ROM mode) or the RAM bank (RAM mode).
pub struct MBC1 {
    rom: Vec<u8>,
    ram: Vec<u8>,
    ram_enabled: bool,
    bank_mode: BankMode,
    bank: u8,
}

/// What the upper two bank bits select.
#[derive(Clone, Copy, PartialEq, Eq, Structural, Debug)]
pub enum BankMode {
    ROM,
    RAM,
}

pub struct Mbc1View {
    pub rom: Seq<u8>,
    pub ram: Seq<u8>,
    pub ram_enabled: bool,
    pub bank_mode: BankMode,
    pub bank: u8,
}

impl View for MBC1 {
    type V = Mbc1View;

    closed spec fn view(&self) -> Mbc1View {
        Mbc1View {
            rom: self.rom@,
            ram: self.ram@,
            ram_enabled: self.ram_enabled,
            bank_mode: self.bank_mode,
            bank: self.bank,
        }
    }
}

/// The ROM size, padded, and the RAM size.
pub open spec fn mbc1_wf(m: Mbc1View) -> bool {
    m.rom.len() == 0x20_0000 && m.ram.len() == 0x8000
}

/// The ROM bank mapped at 0x4000-0x7FFF.
pub open spec fn mbc1_rom_bank(m: Mbc1View) -> int {
    match m.bank_mode {
        BankMode::ROM => (m.bank & 0x7F) as int,
        BankMode::RAM => (m.bank & 0x1F) as int,
    }
}

/// The RAM bank mapped at 0xA000-0xBFFF.
pub open spec fn mbc1_ram_bank(m: Mbc1View) -> int {
    match m.bank_mode {
        BankMode::ROM => 0,
        BankMode::RAM => ((m.bank & 0x60) >> 5u8) as int,
    }
}

/// ROM (0x0000-0x7FFF) and external RAM (0xA000-0xBFFF).
pub open spec fn mbc1_decodes(a: u16) -> bool {
    a <= 0x7FFF || (0xA000 <= a <= 0xBFFF)
}

impl MBC1 {
    /// The cartridge, its ROM zero-padded to 2 MiB, RAM cleared and
    /// disabled, bank 1 mapped.
    pub fn new(rom: Vec<u8>) -> (r: Self)
        requires
            rom.len() <= 0x20_0000,
        ensures
            mbc1_wf(r@),
            r@.rom == rom@ + Seq::new((0x20_0000 - rom.len()) as nat, |i: int| 0u8),
            r@.ram == Seq::new(0x8000, |i: int| 0u8),
            !r@.ram_enabled,
            r@.bank_mode == BankMode::ROM,
            r@.bank == 1,
    {
        let mut padded_rom = rom;
        let ghost given = padded_rom@;
        while padded_rom.len() < 2_097_152
            invariant
                given.len() <= padded_rom.len() <= 2_097_152,
                padded_rom@ == given + Seq::new((padded_rom.len() - given.len()) as nat, |i: int| 0u8),
            decreases 2_097_152 - padded_rom.len(),
        {
            padded_rom.push(0x00);
            assert(padded_rom@ =~= given + Seq::new((padded_rom.len() - given.len()) as nat, |i: int| 0u8));
        }
        let ram = vec![0x00; 32_768];
        Self { rom: padded_rom, ram, ram_enabled: false, bank_mode: BankMode::ROM, bank: 0x01 }
    }

    fn rom_bank(&self) -> (r: usize)
        ensures
            r == mbc1_rom_bank(self@),
            r <= 0x7F,
    {
        proof { lemma_bank_bits(self.bank); }
        let n = match self.bank_mode {
            BankMode::ROM => self.bank & 0x7F,
            BankMode::RAM => self.bank & 0x1F,
        };
        n as usize
    }

    fn ram_bank(&self) -> (r: usize)
        ensures
            r == mbc1_ram_bank(self@),
            r <= 3,
    {
        proof { lemma_bank_bits(self.bank); }
        let n = match self.bank_mode {
            BankMode::ROM => 0x00,
            BankMode::RAM => (self.bank & 0x60) >> 5u8,
        };
        n as usize
    }
}

impl Memory for MBC1 {
    open spec fn readable(m: Mbc1View, a: u16) -> bool {
        mbc1_decodes(a) && mbc1_wf(m)
    }

    /// The bank-mode register takes only 0 (ROM) and 1 (RAM).
    open spec fn writable(m: Mbc1View, a: u16, v: u8) -> bool {
        &&& mbc1_decodes(a)
        &&& mbc1_wf(m)
        &&& (0x6000 <= a <= 0x7FFF ==> v <= 1)
    }

    /// Bank 0 at 0x0000, the selected ROM bank at 0x4000, and the selected
    /// RAM bank at 0xA000 while RAM is enabled (0x00 otherwise).
    open spec fn peek(m: Mbc1View, a: u16) -> u8 {
        if a <= 0x3FFF {
            m.rom[a as int]
        } else if a <= 0x7FFF {
            m.rom[a + mbc1_rom_bank(m) * 0x4000 - 0x4000]
        } else if m.ram_enabled {
            m.ram[a + mbc1_ram_bank(m) * 0x2000 - 0xA000]
        } else {
            0x00
        }
    }

    /// 0x0000: RAM enable (0x_A enables); 0x2000: low 5 bank bits (0 reads
    /// as 1); 0x4000: upper 2 bank bits; 0x6000: bank mode; 0xA000: RAM,
    /// while enabled.
    open spec fn poke(m: Mbc1View, a: u16, v: u8) -> Mbc1View {
        if a <= 0x1FFF {
            Mbc1View { ram_enabled: v & 0xF == 0xA, ..m }
        } else if a <= 0x3FFF {
            let n = if v & 0x1F == 0 { 1u8 } else { v & 0x1F };
            Mbc1View { bank: (m.bank & 0x60) | n, ..m }
        } else if a <= 0x5FFF {
            Mbc1View { bank: m.bank & 0x9F | ((v & 0x03) << 5u8), ..m }
        } else if a <= 0x7FFF {
            Mbc1View { bank_mode: if v == 0 { BankMode::ROM } else { BankMode::RAM }, ..m }
        } else if m.ram_enabled {
            Mbc1View { ram: m.ram.update(a + mbc1_ram_bank(m) * 0x2000 - 0xA000, v), ..m }
        } else {
            m
        }
    }

    fn read(&self, a: u16) -> (r: u8) {
        if a <= 0x3FFF {
            self.rom[a as usize]
        } else if a <= 0x7FFF {
            self.rom[a as usize + self.rom_bank() * 0x4000 - 0x4000]
        } else if self.ram_enabled {
            self.ram[a as usize + self.ram_bank() * 0x2000 - 0xA000]
        } else {
            0x00
        }
    }

    fn write(&mut self, a: u16, v: u8) {
        if a <= 0x1FFF {
            self.ram_enabled = v & 0xF == 0xA;
        } else if a <= 0x3FFF {
            let n = match v & 0x1F {
                0x00 => 0x01,
                n => n,
            };
            self.bank = (self.bank & 0x60) | n;
        } else if a <= 0x5FFF {
            self.bank = self.bank & 0x9F | ((v & 0x03) << 5u8);
        } else if a <= 0x7FFF {
            match v {
                0x00 => self.bank_mode = BankMode::ROM,
                _ => self.bank_mode = BankMode::RAM,
            }
        } else {
            let ram_bank = self.ram_bank();
            if self.ram_enabled {
                self.ram.set(a as usize + ram_bank * 0x2000 - 0xA000, v);
            }
        }
    }
}

/// A byte written to enabled external RAM reads back, and ROM never changes.
pub proof fn lemma_mbc1_ram_read_back(m: Mbc1View, a: u16, v: u8)
    requires
        mbc1_wf(m),
        m.ram_enabled,
        0xA000 <= a <= 0xBFFF,
    ensures
        MBC1::peek(MBC1::poke(m, a, v), a) == v,
        mbc1_wf(MBC1::poke(m, a, v)),
{
    lemma_bank_bits(m.bank);
}

/// No write changes the ROM, and every write keeps the sizes.
pub proof fn lemma_mbc1_rom_fixed(m: Mbc1View, a: u16, v: u8)
    requires
        mbc1_wf(m),
        mbc1_decodes(a),
    ensures
        MBC1::poke(m, a, v).rom == m.rom,
        mbc1_wf(MBC1::poke(m, a, v)),
{
    lemma_bank_bits(m.bank);
}

/// ROM banking mode maps the full 7-bit bank at 0x4000: after `n` (1-31)
/// is written to 0x2000 and `u` (0-3) to 0x4000, a read of 0x4000 + `o`
/// returns byte `o` of ROM bank `u * 32 + n`.
pub proof fn lemma_mbc1_rom_bank_select(m: Mbc1View, n: u8, u: u8, o: u16)
    requires
        mbc1_wf(m),
        m.bank_mode == BankMode::ROM,
        1 <= n <= 31,
        u <= 3,
        o < 0x4000,
    ensures
        MBC1::peek(MBC1::poke(MBC1::poke(m, 0x2000, n), 0x4000, u), (0x4000 + o) as u16) == m.rom[(u
            * 32 + n) * 0x4000 + o],
{
    let bank = m.bank;
    let b1 = (bank & 0x60) | (n & 0x1F);
    let b2 = b1 & 0x9F | ((u & 0x03) << 5u8);
    assert(n & 0x1F == n && n & 0x1F != 0 && b2 & 0x7F == u * 32 + n) by (bit_vector)
        requires
            1 <= n <= 31,
            u <= 3,
            b1 == (bank & 0x60) | (n & 0x1F),
            b2 == b1 & 0x9F | ((u & 0x03) << 5u8),
    ;
}

impl MBC1 {
    /// Whether a read of `a` is served.
    pub fn serves_read(&self, a: u16) -> (r: bool)
        ensures
            r == <MBC1 as Memory>::readable(self@, a),
    {
        self.rom.len() == 0x20_0000 && self.ram.len() == 0x8000 && (a <= 0x7FFF || (0xA000 <= a && a <= 0xBFFF))
    }

    /// Whether a write of `v` to `a` is served.
    pub fn serves_write(&self, a: u16, v: u8) -> (r: bool)
        ensures
            r == <MBC1 as Memory>::writable(self@, a, v),
    {
        self.rom.len() == 0x20_0000 && self.ram.len() == 0x8000 && (a <= 0x7FFF || (0xA000 <= a && a <= 0xBFFF))
            && (!(0x6000 <= a && a <= 0x7FFF) || v <= 1)
    }
}

} // verus!
