use super::bus::{BusDir, Pins, Ticked};
use super::interrupt::Interrupts;
use crate::components::joypad::{joypad_updated, Joypad, JoypadButton, JoypadView};
use crate::components::mode::GBMode;
use crate::components::serial::{Serial, SerialView};
use crate::mbc::cartridge::{
    cart_read,
    cart_readable,
    cart_writable,
    cart_written,
    clock_latched,
    is_clock_latch,
    CartView,
    Cartridge,
};
use crate::memory::Memory;
use vstd::prelude::*;

verus! {

/// The untimed part of the address space: the cartridge, the boot ROM
/// overlay, work and high RAM, the joypad and serial ports, and the CGB
/// speed-switch, infrared and WRAM-bank registers.
pub struct SystemBus {
    mbc: Cartridge,
    serial: Serial,
    joypad: Joypad,
    wram: Vec<u8>,
    hram: Vec<u8>,
    wram_bank: usize,
    boot_rom: Vec<u8>,
    boot_rom_enabled: bool,
    boot_just_disabled: bool,
    mode: GBMode,
    double_speed: bool,
    key1_armed: bool,
    rp: u8,
}

pub struct SysView {
    pub cart: CartView,
    pub serial: SerialView,
    pub joypad: JoypadView,
    pub wram: Seq<u8>,
    pub hram: Seq<u8>,
    pub wram_bank: usize,
    pub boot_rom: Seq<u8>,
    pub boot_rom_enabled: bool,
    pub boot_just_disabled: bool,
    pub mode: GBMode,
    pub double_speed: bool,
    pub key1_armed: bool,
    pub rp: u8,
}

impl View for SystemBus {
    type V = SysView;

    closed spec fn view(&self) -> SysView {
        SysView {
            cart: self.mbc@,
            serial: self.serial@,
            joypad: self.joypad@,
            wram: self.wram@,
            hram: self.hram@,
            wram_bank: self.wram_bank,
            boot_rom: self.boot_rom@,
            boot_rom_enabled: self.boot_rom_enabled,
            boot_just_disabled: self.boot_just_disabled,
            mode: self.mode,
            double_speed: self.double_speed,
            key1_armed: self.key1_armed,
            rp: self.rp,
        }
    }
}

impl SysView {
    pub open spec fn wf(self) -> bool {
        &&& self.wram.len() == 0x8000
        &&& self.hram.len() == 0x7F
        &&& self.wram_bank <= 7
        &&& self.boot_rom.len() == 0x900
    }
}

/// The addresses the system bus answers.
pub open spec fn sys_owned(a: u16) -> bool {
    a <= 0x7FFF || (0xA000 <= a <= 0xBFFF) || (0xC000 <= a <= 0xFDFF) || (0xFEA0 <= a <= 0xFEFF) || a
        == 0xFF00 || (0xFF01 <= a <= 0xFF02) || a == 0xFF4D || a == 0xFF50 || a == 0xFF56 || a == 0xFF70 || a
        == 0xFF7F || (0xFF80 <= a <= 0xFFFE)
}

/// The switchable WRAM bank in use: bank 0 selects bank 1.
pub open spec fn wram_bank_used(m: SysView) -> int {
    if m.wram_bank < 1 {
        1
    } else {
        m.wram_bank as int
    }
}

/// Whether `a` reads from the boot ROM overlay: the first 256 bytes while it
/// is mapped, and on a CGB also 0x0200-0x08FF.
pub open spec fn boot_mapped(m: SysView, a: u16) -> bool {
    m.boot_rom_enabled && (a <= 0x00FF || (m.mode != GBMode::DMG && 0x0200 <= a <= 0x08FF))
}

/// The cartridge's part of the address space.
pub open spec fn cart_area(a: u16) -> bool {
    a <= 0x7FFF || (0xA000 <= a <= 0xBFFF)
}

/// A read of `a` is served: cartridge reads need the controller to serve them.
pub open spec fn sys_readable(m: SysView, a: u16) -> bool {
    m.wf() && (cart_area(a) && !boot_mapped(m, a) ==> cart_readable(m.cart, a))
}

/// What a read of `a` returns.
pub open spec fn sys_read(m: SysView, a: u16) -> u8 {
    if boot_mapped(m, a) {
        m.boot_rom[a as int]
    } else if cart_area(a) {
        cart_read(m.cart, a)
    } else if 0xC000 <= a <= 0xCFFF {
        m.wram[a - 0xC000]
    } else if 0xD000 <= a <= 0xDFFF {
        m.wram[a - 0xD000 + 0x1000 * wram_bank_used(m)]
    } else if 0xE000 <= a <= 0xEFFF {
        m.wram[a - 0xE000]
    } else if 0xF000 <= a <= 0xFDFF {
        m.wram[a - 0xF000 + 0x1000 * wram_bank_used(m)]
    } else if 0xFEA0 <= a <= 0xFEFF {
        0xFF
    } else if a == 0xFF00 {
        Joypad::peek(m.joypad, a)
    } else if 0xFF01 <= a <= 0xFF02 {
        Serial::peek(m.serial, a)
    } else if a == 0xFF4D {
        if m.mode == GBMode::DMG {
            0xFF
        } else {
            0x7E | (if m.double_speed { 0x80u8 } else { 0u8 }) | (if m.key1_armed { 0x01u8 } else { 0u8 })
        }
    } else if a == 0xFF56 {
        if m.mode == GBMode::DMG {
            0xFF
        } else {
            m.rp | 0x3E
        }
    } else if a == 0xFF70 {
        if m.mode == GBMode::DMG {
            0xFF
        } else {
            0xF8 | (m.wram_bank as u8)
        }
    } else if 0xFF80 <= a <= 0xFFFE {
        m.hram[a - 0xFF80]
    } else {
        0xFF
    }
}

/// Whether the system bus can serve the transfer on `pins`.
pub open spec fn sys_serves(m: SysView, pins: Pins) -> bool {
    &&& pins.transfer && sys_owned(pins.address) && pins.dir == BusDir::Read ==> sys_readable(m, pins.address)
    &&& pins.transfer && sys_owned(pins.address) && pins.dir == BusDir::Write ==> sys_writable(m, pins.address, pins.data)
}

/// A transfer on the traces as the system bus sees it: a read of its
/// addresses gets its answer, a write changes it (a cartridge clock latch
/// sets the cartridge to `latch`, read from the host clock), anything else
/// passes by. The flag says whether the clock was latched.
pub open spec fn sys_bus(m: SysView, pins: Pins, latch: CartView) -> (SysView, Pins, bool) {
    let a = pins.address;
    if pins.transfer && sys_owned(a) && pins.dir == BusDir::Read {
        (m, Pins { data: sys_read(m, a), ..pins }, false)
    } else if pins.transfer && sys_owned(a) && pins.dir == BusDir::Write {
        if cart_area(a) && is_clock_latch(m.cart, a, pins.data) {
            (SysView { cart: latch, ..m }, pins, true)
        } else {
            (sys_written(m, a, pins.data), pins, false)
        }
    } else {
        (m, pins, false)
    }
}

/// A write of `v` to `a` is served: cartridge writes need the controller
/// to serve them.
pub open spec fn sys_writable(m: SysView, a: u16, v: u8) -> bool {
    m.wf() && (cart_area(a) ==> cart_writable(m.cart, a, v))
}

/// What a write of `v` to `a` leaves (for a cartridge clock latch, see
/// `clock_latched`). 0xFF50 unmaps the boot ROM; KEY1 arms a speed switch;
/// the CGB registers ignore writes on a DMG.
pub open spec fn sys_written(m: SysView, a: u16, v: u8) -> SysView {
    if cart_area(a) {
        SysView { cart: cart_written(m.cart, a, v), ..m }
    } else if 0xC000 <= a <= 0xCFFF {
        SysView { wram: m.wram.update(a - 0xC000, v), ..m }
    } else if 0xD000 <= a <= 0xDFFF {
        SysView { wram: m.wram.update(a - 0xD000 + 0x1000 * wram_bank_used(m), v), ..m }
    } else if 0xE000 <= a <= 0xEFFF {
        SysView { wram: m.wram.update(a - 0xE000, v), ..m }
    } else if 0xF000 <= a <= 0xFDFF {
        SysView { wram: m.wram.update(a - 0xF000 + 0x1000 * wram_bank_used(m), v), ..m }
    } else if a == 0xFF00 {
        SysView { joypad: Joypad::poke(m.joypad, a, v), ..m }
    } else if 0xFF01 <= a <= 0xFF02 {
        SysView { serial: Serial::poke(m.serial, a, v), ..m }
    } else if a == 0xFF4D {
        SysView { key1_armed: v & 0x01 != 0, ..m }
    } else if a == 0xFF50 {
        SysView { boot_rom_enabled: false, boot_just_disabled: true, ..m }
    } else if a == 0xFF56 {
        if m.mode != GBMode::DMG {
            SysView { rp: v & 0xC1, ..m }
        } else {
            m
        }
    } else if a == 0xFF70 {
        if m.mode != GBMode::DMG {
            SysView { wram_bank: (v & 0x07) as usize, ..m }
        } else {
            m
        }
    } else if 0xFF80 <= a <= 0xFFFE {
        SysView { hram: m.hram.update(a - 0xFF80, v), ..m }
    } else {
        m
    }
}

impl SystemBus {
    /// A bus over cartridge `mbc` and a 0x900-byte boot ROM image (mapped),
    /// with cleared RAM, WRAM bank 1 and normal speed.
    pub fn new(mbc: Cartridge, boot_rom: Vec<u8>, print_serial: bool, mode: GBMode) -> (r: Self)
        requires
            boot_rom@.len() == 0x900,
        ensures
            r@.wf(),
            r@.cart == mbc@,
            r@.boot_rom == boot_rom@,
            r@.serial == (SerialView { interrupts: 0, sb: 0, sc: 0, output: Seq::empty(), print: print_serial, mode }),
            r@.joypad == (JoypadView { matrix: 0xFF, select: 0x0F, previous_select: 0x0F, interrupts: 0 }),
            r@.wram == Seq::new(0x8000, |i: int| 0u8),
            r@.hram == Seq::new(0x7F, |i: int| 0u8),
            r@.wram_bank == 1,
            r@.boot_rom_enabled && !r@.boot_just_disabled,
            r@.mode == mode,
            !r@.double_speed && !r@.key1_armed,
            r@.rp == 0,
    {
        let wram = vec![0u8; 0x8000];
        let hram = vec![0u8; 0x7F];
        assert(wram@ =~= Seq::new(0x8000, |i: int| 0u8));
        assert(hram@ =~= Seq::new(0x7F, |i: int| 0u8));
        Self {
            mbc,
            serial: Serial::new(print_serial, mode),
            joypad: Joypad::new(),
            wram,
            hram,
            wram_bank: 0x01,
            boot_rom,
            boot_rom_enabled: true,
            boot_just_disabled: false,
            mode,
            double_speed: false,
            key1_armed: false,
            rp: 0,
        }
    }

    pub fn double_speed(&self) -> (r: bool)
        ensures
            r == self@.double_speed,
    {
        self.double_speed
    }

    /// Executed when the CPU runs STOP; flips the speed if a switch is armed.
    pub fn try_speed_switch(&mut self)
        ensures
            old(self)@.key1_armed ==> final(self)@ == (SysView {
                double_speed: !old(self)@.double_speed,
                key1_armed: false,
                ..old(self)@
            }),
            !old(self)@.key1_armed ==> final(self)@ == old(self)@,
    {
        if self.key1_armed {
            self.double_speed = !self.double_speed;
            self.key1_armed = false;
        }
    }

    /// True once after a write to 0xFF50 (for the PPU hand-off).
    pub fn take_boot_disabled(&mut self) -> (r: bool)
        ensures
            r == old(self)@.boot_just_disabled,
            final(self)@ == (SysView { boot_just_disabled: false, ..old(self)@ }),
    {
        let r = self.boot_just_disabled;
        self.boot_just_disabled = false;
        r
    }

    pub fn joypad_down(&mut self, b: JoypadButton)
        ensures
            final(self)@ == (SysView {
                joypad: joypad_updated(JoypadView { matrix: old(self)@.joypad.matrix & !b.bits, ..old(self)@.joypad }),
                ..old(self)@
            }),
    {
        self.joypad.down(b);
    }

    pub fn joypad_up(&mut self, b: JoypadButton)
        ensures
            final(self)@ == (SysView { joypad: JoypadView { matrix: old(self)@.joypad.matrix | b.bits, ..old(self)@.joypad }, ..old(self)@ }),
    {
        self.joypad.up(b);
    }

    pub fn peek(&self, a: u16) -> (r: u8)
        requires
            sys_readable(self@, a),
        ensures
            r == sys_read(self@, a),
    {
        self.do_read(a)
    }

    pub fn disable_boot(&mut self)
        ensures
            final(self)@ == (SysView { boot_rom_enabled: false, ..old(self)@ }),
    {
        self.boot_rom_enabled = false;
    }

    /// Bytes the program has transmitted over the serial port.
    pub fn serial_output(&self) -> (r: &[u8])
        ensures
            r@ == self@.serial.output,
    {
        self.serial.output()
    }

    /// Whether a read of `a` is served (see `sys_readable`).
    pub fn can_peek(&self, a: u16) -> (r: bool)
        ensures
            r == sys_readable(self@, a),
    {
        let wf = self.wram.len() == 0x8000 && self.hram.len() == 0x7F && self.wram_bank <= 7 && self.boot_rom.len() == 0x900;
        let cart = a <= 0x7FFF || (0xA000 <= a && a <= 0xBFFF);
        let boot = self.boot_rom_enabled && (a <= 0x00FF || (self.mode != GBMode::DMG && 0x0200 <= a && a <= 0x08FF));
        wf && (!cart || boot || self.mbc.serves_read(a))
    }

    /// Whether a transfer on `pins` is one this bus can serve: a read or
    /// write of its own addresses needs its storage in shape and, in the
    /// cartridge's area, the controller to serve it.
    pub fn serves(&self, pins: &Pins) -> (r: bool)
        ensures
            r == ((pins.transfer && sys_owned(pins.address) && pins.dir == BusDir::Read ==> sys_readable(self@, pins.address))
                && (pins.transfer && sys_owned(pins.address) && pins.dir == BusDir::Write ==> sys_writable(self@, pins.address, pins.data))),
    {
        let a = pins.address;
        if !pins.transfer || !Self::owns(a) || pins.dir == BusDir::Idle {
            return true;
        }
        let wf = self.wram.len() == 0x8000 && self.hram.len() == 0x7F && self.wram_bank <= 7 && self.boot_rom.len() == 0x900;
        let cart = a <= 0x7FFF || (0xA000 <= a && a <= 0xBFFF);
        if pins.dir == BusDir::Read {
            let boot = self.boot_rom_enabled && (a <= 0x00FF || (self.mode != GBMode::DMG && 0x0200 <= a && a <= 0x08FF));
            wf && (!cart || boot || self.mbc.serves_read(a))
        } else {
            wf && (!cart || self.mbc.serves_write(a, pins.data))
        }
    }

    fn owns(a: u16) -> (r: bool)
        ensures
            r == sys_owned(a),
    {
        a <= 0x7FFF || (0xA000 <= a && a <= 0xBFFF) || (0xC000 <= a && a <= 0xFDFF) || (0xFEA0 <= a && a
            <= 0xFEFF) || a == 0xFF00 || (0xFF01 <= a && a <= 0xFF02) || a == 0xFF4D || a == 0xFF50 || a
            == 0xFF56 || a == 0xFF70 || a == 0xFF7F || (0xFF80 <= a && a <= 0xFFFE)
    }

    fn bank_used(&self) -> (r: usize)
        ensures
            r == wram_bank_used(self@),
    {
        if self.wram_bank < 1 {
            1
        } else {
            self.wram_bank
        }
    }

    fn do_read(&self, a: u16) -> (r: u8)
        requires
            sys_readable(self@, a),
        ensures
            r == sys_read(self@, a),
    {
        if a <= 0x00FF {
            if self.boot_rom_enabled {
                self.boot_rom[a as usize]
            } else {
                self.mbc.read(a)
            }
        } else if a <= 0x01FF {
            self.mbc.read(a)
        } else if a <= 0x08FF {
            if self.mode != GBMode::DMG && self.boot_rom_enabled {
                self.boot_rom[a as usize]
            } else {
                self.mbc.read(a)
            }
        } else if a <= 0x7FFF || (0xA000 <= a && a <= 0xBFFF) {
            self.mbc.read(a)
        } else if 0xC000 <= a && a <= 0xCFFF {
            self.wram[a as usize - 0xC000]
        } else if 0xD000 <= a && a <= 0xDFFF {
            self.wram[a as usize - 0xD000 + 0x1000 * self.bank_used()]
        } else if 0xE000 <= a && a <= 0xEFFF {
            self.wram[a as usize - 0xE000]
        } else if 0xF000 <= a && a <= 0xFDFF {
            self.wram[a as usize - 0xF000 + 0x1000 * self.bank_used()]
        } else if 0xFEA0 <= a && a <= 0xFEFF {
            0xFF
        } else if a == 0xFF00 {
            self.joypad.read(a)
        } else if 0xFF01 <= a && a <= 0xFF02 {
            self.serial.read(a)
        } else if a == 0xFF4D {
            if self.mode == GBMode::DMG {
                0xFF
            } else {
                0x7E | (if self.double_speed { 0x80u8 } else { 0x00u8 }) | (if self.key1_armed {
                    0x01u8
                } else {
                    0x00u8
                })
            }
        } else if a == 0xFF56 {
            if self.mode == GBMode::DMG {
                0xFF
            } else {
                self.rp | 0x3E
            }
        } else if a == 0xFF70 {
            if self.mode == GBMode::DMG {
                0xFF
            } else {
                0xF8 | self.wram_bank as u8
            }
        } else if 0xFF80 <= a && a <= 0xFFFE {
            self.hram[a as usize - 0xFF80]
        } else {
            0xFF
        }
    }

    fn do_write(&mut self, a: u16, v: u8)
        requires
            sys_writable(old(self)@, a, v),
        ensures
            final(self)@.wf(),
            !(cart_area(a) && is_clock_latch(old(self)@.cart, a, v)) ==> final(self)@ == sys_written(old(self)@, a, v),
            cart_area(a) && is_clock_latch(old(self)@.cart, a, v) ==> final(self)@ == (SysView { cart: final(self)@.cart, ..old(self)@ })
                && clock_latched(old(self)@.cart, final(self)@.cart),
    {
        if a <= 0x7FFF || (0xA000 <= a && a <= 0xBFFF) {
            self.mbc.write(a, v);
        } else if 0xC000 <= a && a <= 0xCFFF {
            self.wram.set(a as usize - 0xC000, v);
        } else if 0xD000 <= a && a <= 0xDFFF {
            let i = a as usize - 0xD000 + 0x1000 * self.bank_used();
            self.wram.set(i, v);
        } else if 0xE000 <= a && a <= 0xEFFF {
            self.wram.set(a as usize - 0xE000, v);
        } else if 0xF000 <= a && a <= 0xFDFF {
            let i = a as usize - 0xF000 + 0x1000 * self.bank_used();
            self.wram.set(i, v);
        } else if a == 0xFF00 {
            self.joypad.write(a, v);
        } else if 0xFF01 <= a && a <= 0xFF02 {
            self.serial.write(a, v);
        } else if a == 0xFF4D {
            self.key1_armed = (v & 0x01) != 0;
        } else if a == 0xFF50 {
            self.boot_rom_enabled = false;
            self.boot_just_disabled = true;
        } else if a == 0xFF56 {
            if self.mode != GBMode::DMG {
                self.rp = v & 0xC1;
            }
        } else if a == 0xFF70 {
            if self.mode != GBMode::DMG {
                proof {
                    lemma_bank3(v);
                }
                self.wram_bank = (v & 0x07) as usize;
            }
        } else if 0xFF80 <= a && a <= 0xFFFE {
            self.hram.set(a as usize - 0xFF80, v);
        }
    }

    /// Drains the serial and joypad ports' interrupt requests.
    pub fn advance(&mut self, base_dot: bool) -> (r: Ticked)
        ensures
            r.irq.bits == (old(self)@.serial.interrupts | old(self)@.joypad.interrupts) & 0x1F,
            !r.hblank_edge,
            final(self)@ == (SysView {
                serial: SerialView { interrupts: 0, ..old(self)@.serial },
                joypad: JoypadView { interrupts: 0, ..old(self)@.joypad },
                ..old(self)@
            }),
    {
        let bits = self.serial.take_interrupts() | self.joypad.take_interrupts();
        Ticked { irq: Interrupts::from_bits_truncate(bits), hblank_edge: false }
    }

    /// Serves a CPU transfer to one of its addresses on the transfer dot.
    pub fn bus(&mut self, pins: &mut Pins) -> (r: Ticked)
        requires
            old(pins).transfer && sys_owned(old(pins).address) && old(pins).dir == BusDir::Read ==> sys_readable(old(self)@, old(pins).address),
            old(pins).transfer && sys_owned(old(pins).address) && old(pins).dir == BusDir::Write ==> sys_writable(old(self)@, old(pins).address, old(pins).data),
        ensures
            r == Ticked::none(),
            final(pins).address == old(pins).address && final(pins).dir == old(pins).dir,
            final(pins).master == old(pins).master && final(pins).transfer == old(pins).transfer,
            (old(pins).transfer && sys_owned(old(pins).address) && old(pins).dir == BusDir::Read)
                ==> final(pins).data == sys_read(old(self)@, old(pins).address) && final(self)@ == old(self)@,
            (old(pins).transfer && sys_owned(old(pins).address) && old(pins).dir == BusDir::Write && !(cart_area(old(pins).address) && is_clock_latch(old(self)@.cart, old(pins).address, old(pins).data)))
                ==> final(self)@ == sys_written(old(self)@, old(pins).address, old(pins).data) && final(pins).data == old(pins).data,
            (old(pins).transfer && sys_owned(old(pins).address) && old(pins).dir == BusDir::Write && cart_area(old(pins).address) && is_clock_latch(old(self)@.cart, old(pins).address, old(pins).data))
                ==> final(self)@ == (SysView { cart: final(self)@.cart, ..old(self)@ }) && clock_latched(old(self)@.cart, final(self)@.cart) && final(pins).data == old(pins).data,
            !(old(pins).transfer && sys_owned(old(pins).address) && old(pins).dir != BusDir::Idle)
                ==> final(self)@ == old(self)@ && final(pins).data == old(pins).data,
    {
        if pins.transfer && Self::owns(pins.address) {
            match pins.dir {
                BusDir::Read => pins.data = self.do_read(pins.address),
                BusDir::Write => self.do_write(pins.address, pins.data),
                BusDir::Idle => {},
            }
        }
        Ticked::default()
    }
}

/// Work RAM (either half) reads back what was written to it.
pub proof fn lemma_wram_read_back(m: SysView, a: u16, v: u8)
    requires
        m.wf(),
        0xC000 <= a <= 0xDFFF,
    ensures
        sys_read(sys_written(m, a, v), a) == v,
{
}

/// Echo RAM mirrors work RAM: a byte written at `a` reads back 0x2000
/// higher.
pub proof fn lemma_echo_ram(m: SysView, a: u16, v: u8)
    requires
        m.wf(),
        0xC000 <= a <= 0xDDFF,
    ensures
        sys_read(sys_written(m, a, v), (a + 0x2000) as u16) == v,
{
}

/// What a side-effect-free read shows: echo RAM mirrors 0xC000-0xDDFF, the
/// unusable region and addresses no register of this bus answers read
/// 0xFF, and while the boot ROM is mapped its first 256 bytes come from it.
pub proof fn lemma_peek_map(m: SysView, a: u16)
    ensures
        0xE000 <= a <= 0xFDFF ==> sys_read(m, a) == sys_read(m, (a - 0x2000) as u16),
        0xFEA0 <= a <= 0xFEFF ==> sys_read(m, a) == 0xFF,
        !sys_owned(a) ==> sys_read(m, a) == 0xFF,
        m.boot_rom_enabled && a <= 0x00FF ==> sys_read(m, a) == m.boot_rom[a as int],
{
}

/// A speed switch on a CGB with KEY1 armed toggles the speed and disarms
/// the switch, so KEY1 reads `0x7E` with bit 7 the new speed; unarmed,
/// nothing changes.
pub proof fn lemma_speed_switch_key1(m: SysView)
    requires
        m.mode != GBMode::DMG,
    ensures
        m.key1_armed ==> sys_read(
            SysView { double_speed: !m.double_speed, key1_armed: false, ..m },
            0xFF4D,
        ) == (0x7E | (if m.double_speed { 0u8 } else { 0x80u8 })),
{
    assert((0x7Eu8 | 0x80u8 | 0u8) == (0x7Eu8 | 0x80u8) && (0x7Eu8 | 0u8 | 0u8) == (0x7Eu8 | 0u8))
        by (bit_vector);
}

/// High RAM reads back what was written to it.
pub proof fn lemma_hram_read_back(m: SysView, a: u16, v: u8)
    requires
        m.wf(),
        0xFF80 <= a <= 0xFFFE,
    ensures
        sys_read(sys_written(m, a, v), a) == v,
{
}

proof fn lemma_bank3(v: u8)
    ensures
        v & 0x07 <= 7,
{
    assert(v & 0x07 <= 7) by (bit_vector);
}

} // verus!
