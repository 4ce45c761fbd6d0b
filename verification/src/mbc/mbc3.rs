use crate::bits::{lemma_bank_bits, lemma_truncate_u64};
use crate::memory::Memory;
use vstd::prelude::*;

verus! {

#[verifier::external_type_specification]
#[verifier::external_body]
pub struct ExSystemTime(std::time::SystemTime);

#[verifier::external_type_specification]
#[verifier::external_body]
pub struct ExSystemTimeError(std::time::SystemTimeError);

/// `SystemTime::now`: the host's wall-clock time. Nothing is claimed of it.
#[verifier::external_body]
fn system_now() -> std::time::SystemTime {
    std::time::SystemTime::now()
}

/// `SystemTime::duration_since(UNIX_EPOCH)`: how long after the epoch `t`
/// lies, or an error when it lies before. Nothing is claimed of the value.
#[verifier::external_body]
fn since_unix_epoch(t: &std::time::SystemTime) -> Result<std::time::Duration, std::time::SystemTimeError> {
    t.duration_since(std::time::UNIX_EPOCH)
}

/// `Duration::as_secs`: the whole seconds of `d`. Nothing is claimed of the
/// value, `Duration` being opaque here.
#[verifier::external_body]
fn duration_secs(d: &std::time::Duration) -> u64 {
    d.as_secs()
}

/// The MBC3 real-time clock registers: seconds, minutes, hours, and the day
/// counter (low byte, and bit 0 of the high byte with bit 7 the overflow
/// flag), as last latched.
pub struct RTC {
    s: u8,
    m: u8,
    h: u8,
    dl: u8,
    dh: u8,
}

pub struct RtcView {
    pub s: u8,
    pub m: u8,
    pub h: u8,
    pub dl: u8,
    pub dh: u8,
}

impl View for RTC {
    type V = RtcView;

    closed spec fn view(&self) -> RtcView {
        RtcView { s: self.s, m: self.m, h: self.h, dl: self.dl, dh: self.dh }
    }
}

/// The clock latched at `d` seconds after the epoch: the time of day, the
/// day count's low byte, and the day count's bit 8 and overflow flag set
/// (never cleared) in DH.
pub open spec fn rtc_at(r: RtcView, d: u64) -> RtcView {
    let days = ((d / 86400) % 65536) as u16;
    RtcView {
        s: (d % 60) as u8,
        m: (d / 60 % 60) as u8,
        h: (d / 3600 % 24) as u8,
        dl: (days % 256) as u8,
        dh: if days <= 0x00ff {
            r.dh
        } else if days <= 0x01ff {
            r.dh | 0x01
        } else {
            (r.dh | 0x01) | 0x80
        },
    }
}

/// The RTC register a RAM-bank number 0x08-0x0C selects.
pub open spec fn rtc_register(r: RtcView, a: u16) -> u8 {
    if a == 0x08 {
        r.s
    } else if a == 0x09 {
        r.m
    } else if a == 0x0A {
        r.h
    } else if a == 0x0B {
        r.dl
    } else {
        r.dh
    }
}

pub open spec fn rtc_written(r: RtcView, a: u16, v: u8) -> RtcView {
    if a == 0x08 {
        RtcView { s: v, ..r }
    } else if a == 0x09 {
        RtcView { m: v, ..r }
    } else if a == 0x0A {
        RtcView { h: v, ..r }
    } else if a == 0x0B {
        RtcView { dl: v, ..r }
    } else {
        RtcView { dh: v, ..r }
    }
}

impl RTC {
    pub fn new() -> (r: Self)
        ensures
            r@ == (RtcView { s: 0, m: 0, h: 0, dl: 0, dh: 0 }),
    {
        Self { s: 0, m: 0, h: 0, dl: 0, dh: 0 }
    }

    /// Latches the host clock into the registers. Where the host clock reads
    /// before the epoch, the registers stay as they were.
    pub fn tick(&mut self)
        ensures
            final(self)@ == old(self)@ || exists|d: u64| final(self)@ == rtc_at(old(self)@, d),
    {
        let now = system_now();
        match since_unix_epoch(&now) {
            Ok(elapsed) => {
                let d = duration_secs(&elapsed);
                self.set_time(d);
            },
            Err(_) => {},
        }
    }

    /// Sets the registers to the clock at `d` seconds after the epoch.
    pub fn set_time(&mut self, d: u64)
        ensures
            final(self)@ == rtc_at(old(self)@, d),
    {
        self.s = (d % 60) as u8;
        self.m = (d / 60 % 60) as u8;
        self.h = (d / 3600 % 24) as u8;
        let days = (d / 3600 / 24) as u16;
        proof { lemma_truncate_u64(d / 3600 / 24); }
        assert(d / 3600 / 24 == d / 86400) by (nonlinear_arith);
        self.dl = (days % 256) as u8;
        if days <= 0x00ff {
        } else if days <= 0x01ff {
            self.dh |= 0x01;
        } else {
            self.dh |= 0x01;
            self.dh |= 0x80;
        }
    }

    fn read(&self, a: u16) -> (r: u8)
        requires
            0x08 <= a <= 0x0C,
        ensures
            r == rtc_register(self@, a),
    {
        match a {
            0x08 => self.s,
            0x09 => self.m,
            0x0A => self.h,
            0x0B => self.dl,
            _ => self.dh,
        }
    }

    fn write(&mut self, a: u16, v: u8)
        requires
            0x08 <= a <= 0x0C,
        ensures
            final(self)@ == rtc_written(old(self)@, a, v),
    {
        match a {
            0x08 => self.s = v,
            0x09 => self.m = v,
            0x0A => self.h = v,
            0x0B => self.dl = v,
            _ => self.dh = v,
        }
    }
}

/// MBC3: a 7-bit ROM bank, four 8 KiB RAM banks, and the clock registers
/// mapped in place of RAM by bank numbers 0x08-0x0C.
pub struct MBC3 {
    rom: Vec<u8>,
    ram: Vec<u8>,
    rtc: RTC,
    ram_enabled: bool,
    rom_bank: usize,
    ram_bank: usize,
}

pub struct Mbc3View {
    pub rom: Seq<u8>,
    pub ram: Seq<u8>,
    pub rtc: RtcView,
    pub ram_enabled: bool,
    pub rom_bank: usize,
    pub ram_bank: usize,
}

impl View for MBC3 {
    type V = Mbc3View;

    closed spec fn view(&self) -> Mbc3View {
        Mbc3View {
            rom: self.rom@,
            ram: self.ram@,
            rtc: self.rtc@,
            ram_enabled: self.ram_enabled,
            rom_bank: self.rom_bank,
            ram_bank: self.ram_bank,
        }
    }
}

pub open spec fn mbc3_wf(m: Mbc3View) -> bool {
    m.ram.len() == 0x8000 && m.rom_bank <= 0x7F && m.ram_bank <= 0x0F
}

pub open spec fn mbc3_rom_offset(m: Mbc3View, a: u16) -> int {
    if a <= 0x3FFF {
        a as int
    } else {
        a + m.rom_bank * 0x4000 - 0x4000
    }
}

/// An enabled external-RAM access goes to RAM (banks 0-3) or to a clock
/// register (0x08-0x0C); other bank numbers map nothing.
pub open spec fn mbc3_ram_mapped(m: Mbc3View) -> bool {
    !m.ram_enabled || m.ram_bank <= 3 || (0x08 <= m.ram_bank <= 0x0C)
}

impl MBC3 {
    /// The cartridge with 32 KiB of cleared, disabled RAM, the clock at zero
    /// and bank 1 mapped.
    pub fn new(rom: Vec<u8>) -> (r: Self)
        ensures
            mbc3_wf(r@),
            r@.rom == rom@,
            r@.ram == Seq::new(0x8000, |i: int| 0u8),
            r@.rtc == (RtcView { s: 0, m: 0, h: 0, dl: 0, dh: 0 }),
            !r@.ram_enabled,
            r@.rom_bank == 1,
            r@.ram_bank == 0,
    {
        Self { rom, ram: vec![0x00; 32_768], rtc: RTC::new(), ram_enabled: false, rom_bank: 1, ram_bank: 0 }
    }

    /// A write of `v` to the latch register (0x6000-0x7FFF): an odd value
    /// latches the host clock into the clock registers.
    pub fn latch_clock(&mut self, v: u8)
        ensures
            v & 0x01 == 0 ==> final(self)@ == old(self)@,
            v & 0x01 != 0 ==> final(self)@ == old(self)@ || exists|d: u64|
                final(self)@ == (Mbc3View { rtc: #[trigger] rtc_at(old(self)@.rtc, d), ..old(self)@ }),
    {
        let ghost before = self@;
        if v & 0x01 != 0 {
            self.rtc.tick();
            proof {
                if self@ != before {
                    let d = choose|d: u64| self.rtc@ == rtc_at(before.rtc, d);
                    assert(self@ == (Mbc3View { rtc: rtc_at(before.rtc, d), ..before }));
                }
            }
        }
    }
}

impl Memory for MBC3 {
    open spec fn readable(m: Mbc3View, a: u16) -> bool {
        &&& mbc3_wf(m)
        &&& (a <= 0x7FFF && mbc3_rom_offset(m, a) < m.rom.len()) || (0xA000 <= a <= 0xBFFF
            && mbc3_ram_mapped(m))
    }

    /// Latch writes with bit 0 set read the host clock and go through
    /// `latch_clock`; even latch writes change nothing.
    open spec fn writable(m: Mbc3View, a: u16, v: u8) -> bool {
        &&& mbc3_wf(m)
        &&& a <= 0x5FFF || (0x6000 <= a <= 0x7FFF && v & 0x01 == 0) || (0xA000 <= a <= 0xBFFF
            && mbc3_ram_mapped(m))
    }

    open spec fn peek(m: Mbc3View, a: u16) -> u8 {
        if a <= 0x7FFF {
            m.rom[mbc3_rom_offset(m, a)]
        } else if m.ram_enabled {
            if m.ram_bank <= 0x03 {
                m.ram[a + m.ram_bank * 0x2000 - 0xA000]
            } else {
                rtc_register(m.rtc, m.ram_bank as u16)
            }
        } else {
            0x00
        }
    }

    open spec fn poke(m: Mbc3View, a: u16, v: u8) -> Mbc3View {
        if a <= 0x1FFF {
            Mbc3View { ram_enabled: v & 0x0F == 0x0A, ..m }
        } else if a <= 0x3FFF {
            Mbc3View { rom_bank: (if v & 0x7F == 0 { 1u8 } else { v & 0x7F }) as usize, ..m }
        } else if a <= 0x5FFF {
            Mbc3View { ram_bank: (v & 0x0F) as usize, ..m }
        } else if a <= 0x7FFF {
            m
        } else if m.ram_enabled {
            if m.ram_bank <= 0x03 {
                Mbc3View { ram: m.ram.update(a + m.ram_bank * 0x2000 - 0xA000, v), ..m }
            } else {
                Mbc3View { rtc: rtc_written(m.rtc, m.ram_bank as u16, v), ..m }
            }
        } else {
            m
        }
    }

    fn read(&self, a: u16) -> (r: u8) {
        if a <= 0x3FFF {
            self.rom[a as usize]
        } else if a <= 0x7FFF {
            self.rom[a as usize + self.rom_bank * 0x4000 - 0x4000]
        } else if self.ram_enabled {
            if self.ram_bank <= 0x03 {
                self.ram[a as usize + self.ram_bank * 0x2000 - 0xA000]
            } else {
                self.rtc.read(self.ram_bank as u16)
            }
        } else {
            0x00
        }
    }

    fn write(&mut self, a: u16, v: u8) {
        proof { lemma_bank_bits(v); }
        if a <= 0x1FFF {
            self.ram_enabled = v & 0x0F == 0x0A;
        } else if a <= 0x3FFF {
            let n = match v & 0x7F {
                0x00 => 0x01,
                n => n,
            };
            self.rom_bank = n as usize;
        } else if a <= 0x5FFF {
            self.ram_bank = (v & 0x0F) as usize;
        } else if a <= 0x7FFF {
            self.latch_clock(v);
        } else {
            if self.ram_enabled {
                if self.ram_bank <= 0x03 {
                    self.ram.set(a as usize + self.ram_bank * 0x2000 - 0xA000, v);
                } else {
                    self.rtc.write(self.ram_bank as u16, v);
                }
            }
        }
    }
}

/// A byte written to an enabled RAM bank reads back, ROM never changes, and
/// every write keeps the sizes and bank ranges.
pub proof fn lemma_mbc3_ram_read_back(m: Mbc3View, a: u16, v: u8)
    requires
        mbc3_wf(m),
        m.ram_enabled,
        m.ram_bank <= 3,
        0xA000 <= a <= 0xBFFF,
    ensures
        MBC3::peek(MBC3::poke(m, a, v), a) == v,
        MBC3::poke(m, a, v).rom == m.rom,
{
}

/// Every write keeps the RAM size and the bank registers in range.
pub proof fn lemma_mbc3_wf_kept(m: Mbc3View, a: u16, v: u8)
    requires
        MBC3::writable(m, a, v),
    ensures
        mbc3_wf(MBC3::poke(m, a, v)),
{
    lemma_bank_bits(v);
}

impl MBC3 {
    /// Whether a read of `a` is served.
    pub fn serves_read(&self, a: u16) -> (r: bool)
        ensures
            r == <MBC3 as Memory>::readable(self@, a),
    {
        if !(self.ram.len() == 0x8000 && self.rom_bank <= 0x7F && self.ram_bank <= 0x0F) {
            false
        } else if a <= 0x3FFF {
            (a as usize) < self.rom.len()
        } else if a <= 0x7FFF {
            (a as usize) + self.rom_bank * 0x4000 - 0x4000 < self.rom.len()
        } else {
            0xA000 <= a && a <= 0xBFFF && (!self.ram_enabled || self.ram_bank <= 3 || (0x08 <= self.ram_bank
                && self.ram_bank <= 0x0C))
        }
    }

    /// Whether a write of `v` to `a` is served, clock latches included.
    pub fn serves_write(&self, a: u16, v: u8) -> (r: bool)
        ensures
            r == (<MBC3 as Memory>::writable(self@, a, v) || (mbc3_wf(self@) && 0x6000 <= a <= 0x7FFF)),
    {
        self.ram.len() == 0x8000 && self.rom_bank <= 0x7F && self.ram_bank <= 0x0F && (a <= 0x7FFF || (0xA000
            <= a && a <= 0xBFFF && (!self.ram_enabled || self.ram_bank <= 3 || (0x08 <= self.ram_bank
            && self.ram_bank <= 0x0C))))
    }
}

} // verus!
