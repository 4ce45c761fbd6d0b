//! The dot-accurate PPU: LCD registers, VRAM/OAM ports, the per-dot mode
//! sequencer with its STAT interrupt line, pixel priority and colour
//! resolution, and the DMG OAM corruption bug.

use crate::bits::{
    lemma_byte_masks,
    lemma_bytes_pair,
    lemma_cgb_color,
    lemma_palette_index,
    lemma_stat_bits,
    lemma_word_bytes,
};
use crate::components::mode::GBMode;
use crate::components::ppu::bgpi::BGPI;
use crate::components::ppu::fetcher::{dot, line_started, BgPixel, Emit, ObjPixel, Pipeline, PipelineView, Regs};
use crate::components::ppu::structs::{PPUMode, Priority};
use crate::components::registers::io;
use crate::config::{Color, PPUConfig, Palette};
use crate::framebuffer::{blank_frame, fill_byte, with_pixel, FramebufferWriter, FRAMEBUFFER_SIZE};
use crate::hw::interrupt::Interrupts;
use crate::memory::Memory;
use vstd::prelude::*;

verus! {

/// Entries of a colour-correction table: one per 15-bit CGB colour.
pub const GB_COLOR_LUT_LEN: usize = 0x8000;

/// Dots into line 153 after which LY already reads 0.
pub const LY_153_ROLLOVER: u32 = 4;

/// Dots before a line formally starts at which its mode-2 (OAM) STAT source
/// is already asserted, during the tail of the previous line's HBlank.
pub const MODE2_LOOKAHEAD: u32 = 4;

/// Which flavour of the DMG OAM corruption a CPU M-cycle triggers. The row the
/// PPU is scanning is decided by the PPU; this only says how it corrupts.
#[derive(Clone, Copy, PartialEq, Eq, Structural, Debug)]
pub enum OamGlitch {
    /// 16-bit inc/dec (INC/DEC rp, PUSH's dec sp, ...): a write corruption.
    Increase,
    /// An actual OAM store during mode 2: a write corruption.
    Write,
    /// A plain read of OAM during mode 2.
    Read,
    /// A read that shares its M-cycle with the IDU increment: the three-row
    /// "read + write" pattern.
    ReadIncrease,
}

/// The LCD's plain registers. `lcdc` and `lcds` hold the LCDC and STAT bits
/// (STAT without its mode bits); `bgp_glitch` is the DMG BGP write artifact
/// (`old | new`), visible for exactly one dot.
#[derive(Clone, Copy, PartialEq, Eq, Structural, Debug)]
pub struct LcdRegs {
    pub scy: u8,
    pub scx: u8,
    pub ly: u8,
    pub lc: u8,
    pub wy: u8,
    pub wx: u8,
    pub wly: u8,
    pub bgp: u8,
    pub obp0: u8,
    pub obp1: u8,
    pub lcdc: u8,
    pub lcds: u8,
    pub opri: bool,
    pub bgp_glitch: Option<u8>,
}

/// The line sequencer: the mode, the dot within the line, the STAT line and
/// the events raised for the rest of the machine.
#[derive(Clone, Copy, PartialEq, Eq, Structural, Debug)]
pub struct LineState {
    pub ppu_mode: PPUMode,
    pub cycle_count: u32,
    pub stat_line: bool,
    pub interrupts: Interrupts,
    pub entered_hblank: bool,
    /// Latched for the whole line once the window activated during its
    /// Mode 3, so the window line counter advances exactly then.
    pub window_line_active: bool,
    /// The window Y condition: cleared each VBlank, latched at the start of
    /// any line where WY == LY.
    pub window_y_condition: bool,
    /// From LCD enable until the first Mode 3: STAT reads mode 0 and the
    /// mode-2 STAT source is suppressed.
    pub first_line_after_on: bool,
}

/// CGB palette RAM with its two index registers.
pub struct Palettes {
    bcps: BGPI,
    bcpd: Vec<u8>,
    ocps: BGPI,
    ocpd: Vec<u8>,
}

pub struct PalView {
    pub bcps: BGPI,
    pub bcpd: Seq<u8>,
    pub ocps: BGPI,
    pub ocpd: Seq<u8>,
}

impl View for Palettes {
    type V = PalView;

    closed spec fn view(&self) -> PalView {
        PalView { bcps: self.bcps, bcpd: self.bcpd@, ocps: self.ocps, ocpd: self.ocpd@ }
    }
}

impl PalView {
    pub open spec fn wf(self) -> bool {
        &&& self.bcpd.len() == 64
        &&& self.ocpd.len() == 64
        &&& self.bcps.address < 64
        &&& self.ocps.address < 64
    }
}

/// The index register byte: auto-increment in bit 7, address in bits 5-0,
/// bit 6 reading 1.
pub open spec fn index_read(i: BGPI) -> u8 {
    ((if i.auto_increment { 0x80u8 } else { 0u8 }) | i.address) | 0x40
}

/// A palette index register after a data write: it steps (wrapping within
/// 64) when auto-increment is set.
pub open spec fn index_stepped(i: BGPI) -> BGPI {
    if i.auto_increment {
        BGPI { address: ((i.address + 1) as u8) & 0x3F, ..i }
    } else {
        i
    }
}

/// A read of a palette register: 0xFF on a DMG, and data reads 0xFF while
/// drawing.
pub open spec fn palette_read(p: PalView, a: u16, dmg: bool, drawing: bool) -> u8 {
    if dmg {
        0xFF
    } else if a == io::BGPI {
        index_read(p.bcps)
    } else if a == io::BGPD {
        if drawing {
            0xFF
        } else {
            p.bcpd[p.bcps.address as int]
        }
    } else if a == io::OBPI {
        index_read(p.ocps)
    } else if drawing {
        0xFF
    } else {
        p.ocpd[p.ocps.address as int]
    }
}

/// A write to a palette register: data is ignored while drawing, and the
/// index steps either way.
pub open spec fn palette_written(p: PalView, a: u16, v: u8, drawing: bool) -> PalView {
    if a == io::BGPI {
        PalView { bcps: BGPI { auto_increment: v & 0x80 != 0, address: v & 0x3F }, ..p }
    } else if a == io::BGPD {
        PalView {
            bcpd: if drawing {
                p.bcpd
            } else {
                p.bcpd.update(p.bcps.address as int, v)
            },
            bcps: index_stepped(p.bcps),
            ..p
        }
    } else if a == io::OBPI {
        PalView { ocps: BGPI { auto_increment: v & 0x80 != 0, address: v & 0x3F }, ..p }
    } else {
        PalView {
            ocpd: if drawing {
                p.ocpd
            } else {
                p.ocpd.update(p.ocps.address as int, v)
            },
            ocps: index_stepped(p.ocps),
            ..p
        }
    }
}

pub open spec fn is_palette(a: u16) -> bool {
    a == io::BGPI || a == io::BGPD || a == io::OBPI || a == io::OBPD
}

impl Palettes {
    pub fn new() -> (r: Self)
        ensures
            r@.wf(),
            r@.bcps == (BGPI { address: 0, auto_increment: false }),
            r@.ocps == (BGPI { address: 0, auto_increment: false }),
            r@.bcpd == Seq::new(64, |i: int| 0u8),
            r@.ocpd == Seq::new(64, |i: int| 0u8),
    {
        let bcpd = vec![0u8; 64];
        let ocpd = vec![0u8; 64];
        assert(bcpd@ =~= Seq::new(64, |i: int| 0u8));
        assert(ocpd@ =~= Seq::new(64, |i: int| 0u8));
        Self { bcps: BGPI::new(), bcpd, ocps: BGPI::new(), ocpd }
    }

    pub fn read(&self, a: u16, dmg: bool, drawing: bool) -> (r: u8)
        requires
            self@.wf(),
            is_palette(a),
        ensures
            r == palette_read(self@, a, dmg, drawing),
    {
        if dmg {
            0xFF
        } else if a == io::BGPI {
            self.bcps.read() | 0x40
        } else if a == io::BGPD {
            if drawing {
                0xFF
            } else {
                self.bcpd[self.bcps.address as usize]
            }
        } else if a == io::OBPI {
            self.ocps.read() | 0x40
        } else if drawing {
            0xFF
        } else {
            self.ocpd[self.ocps.address as usize]
        }
    }

    pub fn write(&mut self, a: u16, v: u8, drawing: bool)
        requires
            old(self)@.wf(),
            is_palette(a),
        ensures
            final(self)@ == palette_written(old(self)@, a, v, drawing),
            final(self)@.wf(),
    {
        if a == io::BGPI {
            self.bcps.write(v);
        } else if a == io::BGPD {
            if !drawing {
                self.bcpd.set(self.bcps.address as usize, v);
            }
            if self.bcps.auto_increment {
                proof {
                    lemma_palette_index((self.bcps.address + 1) as u8);
                }
                self.bcps.address = self.bcps.address + 1;
                self.bcps.address = self.bcps.address & 0x3F;
            }
        } else if a == io::OBPI {
            self.ocps.write(v);
        } else {
            if !drawing {
                self.ocpd.set(self.ocps.address as usize, v);
            }
            if self.ocps.auto_increment {
                proof {
                    lemma_palette_index((self.ocps.address + 1) as u8);
                }
                self.ocps.address = self.ocps.address + 1;
                self.ocps.address = self.ocps.address & 0x3F;
            }
        }
    }

    /// The 15-bit colour stored at palette-RAM byte `pa` of the BG (or OBJ)
    /// palettes: low byte first, the high byte's bit 7 ignored.
    fn color(&self, obj: bool, pa: usize) -> (c: u16)
        requires
            self@.wf(),
            pa < 63,
        ensures
            c == cgb_color(if obj { self@.ocpd } else { self@.bcpd }, pa as int),
            c <= 0x7FFF,
    {
        let (lo, hi) = if obj {
            (self.ocpd[pa], self.ocpd[pa + 1])
        } else {
            (self.bcpd[pa], self.bcpd[pa + 1])
        };
        proof {
            lemma_cgb_color(lo, hi);
        }
        (lo as u16) | ((hi as u16) << 8u16) & 0x7FFF
    }
}

/// The 15-bit colour at byte `pa` of palette RAM `data`.
pub open spec fn cgb_color(data: Seq<u8>, pa: int) -> u16 {
    (data[pa] as u16) | (((data[pa + 1] as u16) << 8u16) & 0x7FFF)
}

/// The STAT line re-evaluated from the STAT select bits `lcds`: every
/// enabled source feeds one line, and the LCD interrupt fires only on its
/// rising edge. The mode-2 source is suppressed in the first-line readback
/// window.
pub open spec fn stat_updated(l: LineState, lcds: u8) -> LineState {
    let mode2 = l.ppu_mode == PPUMode::OAMScan && !l.first_line_after_on;
    let line = (lcds & 0x40 != 0 && lcds & 0x04 != 0) || (lcds & 0x08 != 0 && l.ppu_mode == PPUMode::HBlank)
        || (lcds & 0x10 != 0 && l.ppu_mode == PPUMode::VBlank) || (lcds & 0x20 != 0 && mode2);
    LineState {
        interrupts: if line && !l.stat_line {
            Interrupts { bits: l.interrupts.bits | 0x02 }
        } else {
            l.interrupts
        },
        stat_line: line,
        ..l
    }
}

impl LineState {
    pub fn update_stat(&mut self, lcds: u8)
        ensures
            *final(self) == stat_updated(*old(self), lcds),
    {
        let mode2 = self.ppu_mode == PPUMode::OAMScan && !self.first_line_after_on;
        let line = (lcds & 0x40 != 0 && lcds & 0x04 != 0) || (lcds & 0x08 != 0 && self.ppu_mode
            == PPUMode::HBlank) || (lcds & 0x10 != 0 && self.ppu_mode == PPUMode::VBlank) || (lcds & 0x20
            != 0 && mode2);
        if line && !self.stat_line {
            self.interrupts = self.interrupts.union(Interrupts::lcd());
        }
        self.stat_line = line;
    }
}

/// A write to one of the plain registers; LY, KEY0 and unmapped addresses
/// ignore it. A BGP write while `dmg_drawing` leaves `old | new` visible for
/// one dot.
pub open spec fn regs_written(r: LcdRegs, a: u16, v: u8, dmg_drawing: bool) -> LcdRegs {
    if a == io::SCY {
        LcdRegs { scy: v, ..r }
    } else if a == io::SCX {
        LcdRegs { scx: v, ..r }
    } else if a == io::BGP {
        LcdRegs {
            bgp_glitch: if dmg_drawing {
                Some(r.bgp | v)
            } else {
                r.bgp_glitch
            },
            bgp: v,
            ..r
        }
    } else if a == io::OBP0 {
        LcdRegs { obp0: v, ..r }
    } else if a == io::OBP1 {
        LcdRegs { obp1: v, ..r }
    } else if a == io::WY {
        LcdRegs { wy: v, ..r }
    } else if a == io::WX {
        LcdRegs { wx: v, ..r }
    } else if a == io::OPRI {
        LcdRegs { opri: v != 0, ..r }
    } else {
        r
    }
}

impl LcdRegs {
    pub fn write(&mut self, a: u16, v: u8, dmg_drawing: bool)
        ensures
            *final(self) == regs_written(*old(self), a, v, dmg_drawing),
    {
        if a == io::SCY {
            self.scy = v;
        } else if a == io::SCX {
            self.scx = v;
        } else if a == io::BGP {
            // DMG: a BGP write landing during Mode 3 leaves `old | new`
            // visible for the single dot the write occupies.
            if dmg_drawing {
                self.bgp_glitch = Some(self.bgp | v);
            }
            self.bgp = v;
        } else if a == io::OBP0 {
            self.obp0 = v;
        } else if a == io::OBP1 {
            self.obp1 = v;
        } else if a == io::WY {
            self.wy = v;
        } else if a == io::WX {
            self.wx = v;
        } else if a == io::OPRI {
            self.opri = v != 0;
        }
    }
}

pub struct PPU {
    mode: GBMode,
    rom_is_cgb: bool,
    boot_rom_enabled: bool,
    ppu_config: PPUConfig,
    /// The colour-correction table of `ppu_config.cc_mode`: (r, g, b) for
    /// each 15-bit CGB colour.
    cc: Vec<(u8, u8, u8)>,
    regs: LcdRegs,
    line: LineState,
    pal: Palettes,
    vram: Vec<u8>,
    vram_bank: usize,
    oam: Vec<u8>,
    framebuffer: FramebufferWriter,
    pipeline: Pipeline,
}

pub struct PpuView {
    pub mode: GBMode,
    pub rom_is_cgb: bool,
    pub boot_rom_enabled: bool,
    pub ppu_config: PPUConfig,
    pub cc: Seq<(u8, u8, u8)>,
    pub regs: LcdRegs,
    pub line: LineState,
    pub pal: PalView,
    pub vram: Seq<u8>,
    pub vram_bank: usize,
    pub oam: Seq<u8>,
    pub frame: Seq<u8>,
    /// The frames submitted to the display so far, oldest first.
    pub sent: Seq<Seq<u8>>,
    pub pipeline: PipelineView,
    /// The pixel pipeline's storage is in shape.
    pub pipeline_ok: bool,
}

impl View for PPU {
    type V = PpuView;

    closed spec fn view(&self) -> PpuView {
        PpuView {
            mode: self.mode,
            rom_is_cgb: self.rom_is_cgb,
            boot_rom_enabled: self.boot_rom_enabled,
            ppu_config: self.ppu_config,
            cc: self.cc@,
            regs: self.regs,
            line: self.line,
            pal: self.pal@,
            vram: self.vram@,
            vram_bank: self.vram_bank,
            oam: self.oam@,
            frame: self.framebuffer@,
            sent: self.framebuffer.sent(),
            pipeline: self.pipeline@,
            pipeline_ok: self.pipeline.inner_wf(),
        }
    }
}

impl PpuView {
    /// Storage sizes, register ranges, and the sequencer's invariants: the
    /// dot counter stays within a line, LY within a frame (the window line
    /// counter never ahead of it), OAM scan and drawing only on visible lines,
    /// and a drawing line's pixel counter short of its end.
    pub open spec fn wf(self) -> bool {
        &&& self.core_wf()
        &&& self.line.ppu_mode == PPUMode::Draw ==> self.pipeline.px < 168
    }

    /// All of `wf` but the bound on a drawing line's pixel counter.
    pub open spec fn core_wf(self) -> bool {
        &&& self.cc.len() == GB_COLOR_LUT_LEN
        &&& self.pal.wf()
        &&& self.vram.len() == 0x4000
        &&& self.oam.len() == 0xA0
        &&& self.frame.len() == FRAMEBUFFER_SIZE
        &&& self.vram_bank <= 1
        &&& self.regs.lcds & 0x83 == 0
        &&& self.line.cycle_count < 456
        &&& self.regs.ly <= 153
        &&& self.regs.wly <= self.regs.ly
        &&& (self.line.ppu_mode == PPUMode::OAMScan || self.line.ppu_mode == PPUMode::Draw) ==> self.regs.ly
            < 144
        &&& self.pipeline_ok
    }
}

/// What colour resolution reads is in shape: the colour table and palette
/// RAM.
pub open spec fn colors_ok(m: PpuView) -> bool {
    m.cc.len() == GB_COLOR_LUT_LEN && m.pal.wf()
}

/// The STAT mode number.
pub open spec fn mode_number(m: PPUMode) -> u8 {
    match m {
        PPUMode::HBlank => 0,
        PPUMode::VBlank => 1,
        PPUMode::OAMScan => 2,
        PPUMode::Draw => 3,
    }
}

/// Whether CGB colour features are in use: always while the boot ROM runs,
/// afterwards only for a CGB cartridge.
pub open spec fn use_cgb(m: PpuView) -> bool {
    if m.boot_rom_enabled {
        true
    } else {
        m.rom_is_cgb
    }
}

/// The byte of VRAM bank `bank` at `a`.
pub open spec fn vram_at(m: PpuView, a: u16, bank: usize) -> u8 {
    m.vram[bank * 0x2000 + a - 0x8000]
}

pub open spec fn is_memory(a: u16) -> bool {
    (0x8000 <= a <= 0x9FFF) || (0xFE00 <= a <= 0xFE9F)
}

pub open spec fn is_control(a: u16) -> bool {
    a == io::LCDC || a == io::STAT || a == io::LYC
}

/// What a CPU read of `a` returns. VRAM is locked while drawing, OAM while
/// scanning or drawing; palette data is locked while drawing; CGB-only
/// registers read 0xFF on a DMG. STAT shows mode 0 in the first-line readback
/// window, and LY reads 0 a few dots into line 153.
pub open spec fn ppu_read(m: PpuView, a: u16) -> u8 {
    if 0x8000 <= a <= 0x9FFF {
        if m.line.ppu_mode != PPUMode::Draw {
            vram_at(m, a, m.vram_bank)
        } else {
            0xFF
        }
    } else if 0xFE00 <= a <= 0xFE9F {
        if m.line.ppu_mode != PPUMode::Draw && m.line.ppu_mode != PPUMode::OAMScan {
            m.oam[a - 0xFE00]
        } else {
            0xFF
        }
    } else if a == io::LCDC {
        m.regs.lcdc
    } else if a == io::STAT {
        let mode = if m.line.first_line_after_on {
            0u8
        } else {
            mode_number(m.line.ppu_mode)
        };
        m.regs.lcds | mode | 0x80
    } else if a == io::SCY {
        m.regs.scy
    } else if a == io::SCX {
        m.regs.scx
    } else if a == io::LY {
        if m.regs.ly == 153 && m.line.cycle_count >= LY_153_ROLLOVER {
            0
        } else {
            m.regs.ly
        }
    } else if a == io::LYC {
        m.regs.lc
    } else if a == io::BGP {
        m.regs.bgp
    } else if a == io::OBP0 {
        m.regs.obp0
    } else if a == io::OBP1 {
        m.regs.obp1
    } else if a == io::WY {
        m.regs.wy
    } else if a == io::WX {
        m.regs.wx
    } else if a == io::VBK {
        if m.mode == GBMode::DMG {
            0xFF
        } else {
            0xFE | (m.vram_bank as u8)
        }
    } else if is_palette(a) {
        palette_read(m.pal, a, m.mode == GBMode::DMG, m.line.ppu_mode == PPUMode::Draw)
    } else if a == io::OPRI {
        0xFE | (if m.regs.opri { 1u8 } else { 0u8 })
    } else {
        0xFF
    }
}

/// The LY=LYC comparator: while the LCD is on it sets or clears the
/// LYC-equals bit and re-evaluates the STAT line; with the LCD off it is
/// frozen.
pub open spec fn lyc_checked(m: PpuView) -> PpuView {
    if m.regs.lcdc & 0x80 == 0 {
        m
    } else {
        let lcds = if m.regs.ly == m.regs.lc {
            m.regs.lcds | 0x04
        } else {
            m.regs.lcds & 0x78
        };
        PpuView { regs: LcdRegs { lcds, ..m.regs }, line: stat_updated(m.line, lcds), ..m }
    }
}

/// A frame painted all in the opaque colour (r, g, b).
pub open spec fn filled_frame(r: u8, g: u8, b: u8) -> Seq<u8> {
    Seq::new(FRAMEBUFFER_SIZE as nat, |i: int| fill_byte(r, g, b, i))
}

/// The red, green and blue bytes of a colour.
pub open spec fn rgb_of(c: Color) -> (u8, u8, u8) {
    (((c.hex / 65536) % 256) as u8, ((c.hex / 256) % 256) as u8, (c.hex % 256) as u8)
}

/// A write to LCDC. Switching the LCD off resets LY, enters HBlank and blanks
/// the screen (the DMG "off" colour, CGB white); switching it on restarts line
/// 0 in OAM scan at dot 5, opens the first-line readback window and re-runs
/// the LY=LYC comparison.
pub open spec fn lcdc_written(m: PpuView, v: u8) -> PpuView {
    let was_on = m.regs.lcdc & 0x80 != 0;
    let regs = LcdRegs { lcdc: v, ..m.regs };
    if v & 0x80 == 0 {
        let frame = match m.mode {
            GBMode::DMG => {
                let (r, g, b) = rgb_of(m.ppu_config.palette.off);
                filled_frame(r, g, b)
            },
            GBMode::CGB => blank_frame(),
        };
        PpuView {
            regs: LcdRegs { ly: 0, wly: 0, ..regs },
            line: LineState { ppu_mode: PPUMode::HBlank, ..m.line },
            frame,
            ..m
        }
    } else if !was_on {
        lyc_checked(
            PpuView {
                regs: LcdRegs { ly: 0, wly: 0, ..regs },
                line: LineState {
                    ppu_mode: PPUMode::OAMScan,
                    cycle_count: 5,
                    first_line_after_on: true,
                    ..m.line
                },
                ..m
            },
        )
    } else {
        PpuView { regs, ..m }
    }
}

/// A CPU write to VRAM (ignored while drawing) or OAM (ignored while
/// scanning or drawing).
pub open spec fn memory_written(m: PpuView, a: u16, v: u8) -> PpuView {
    if 0x8000 <= a <= 0x9FFF {
        if m.line.ppu_mode != PPUMode::Draw {
            PpuView { vram: m.vram.update(m.vram_bank * 0x2000 + a - 0x8000, v), ..m }
        } else {
            m
        }
    } else if m.line.ppu_mode != PPUMode::Draw && m.line.ppu_mode != PPUMode::OAMScan {
        PpuView { oam: m.oam.update(a - 0xFE00, v), ..m }
    } else {
        m
    }
}

/// A write to LCDC, STAT (bits 6-3 only) or LYC.
pub open spec fn control_written(m: PpuView, a: u16, v: u8) -> PpuView {
    if a == io::LCDC {
        lcdc_written(m, v)
    } else if a == io::STAT {
        lyc_checked(PpuView { regs: LcdRegs { lcds: ((v & 0xF8) | (m.regs.lcds & 0x04)) & 0x7C, ..m.regs }, ..m })
    } else {
        lyc_checked(PpuView { regs: LcdRegs { lc: v, ..m.regs }, ..m })
    }
}

/// A write to a palette register, VBK, or one of the plain registers.
pub open spec fn other_written(m: PpuView, a: u16, v: u8) -> PpuView {
    if is_palette(a) {
        PpuView { pal: palette_written(m.pal, a, v, m.line.ppu_mode == PPUMode::Draw), ..m }
    } else if a == io::VBK {
        PpuView { vram_bank: (v & 0x01) as usize, ..m }
    } else {
        PpuView {
            regs: regs_written(m.regs, a, v, m.mode == GBMode::DMG && m.line.ppu_mode == PPUMode::Draw),
            ..m
        }
    }
}

/// What a CPU write of `v` to `a` leaves.
pub open spec fn ppu_written(m: PpuView, a: u16, v: u8) -> PpuView {
    if is_memory(a) {
        memory_written(m, a, v)
    } else if is_control(a) {
        control_written(m, a, v)
    } else {
        other_written(m, a, v)
    }
}

/// The register snapshot the pixel pipeline works from.
pub open spec fn regs_of(m: PpuView) -> Regs {
    Regs {
        mode: m.mode,
        lcdc: m.regs.lcdc,
        scx: m.regs.scx,
        scy: m.regs.scy,
        ly: m.regs.ly,
        wx: m.regs.wx,
        wly: m.regs.wly,
        window_y: m.line.window_y_condition,
        opri: m.regs.opri,
    }
}

/// The 2-bit shade a palette register maps colour `color` to.
pub open spec fn shade(pal: u8, color: u8) -> u8 {
    (pal >> ((color * 2) as u8)) & 0x03
}

/// The DMG colour a palette register gives colour `color`.
pub open spec fn grey(p: Palette, pal: u8, color: u8) -> Color {
    let s = shade(pal, color);
    if s == 0 {
        p.light
    } else if s == 1 {
        p.light_gray
    } else if s == 2 {
        p.dark_gray
    } else {
        p.dark
    }
}

/// The host colour of 15-bit CGB colour `c` after colour correction.
pub open spec fn mapped(m: PpuView, c: u16) -> (u8, u8, u8) {
    m.cc[c as int]
}

/// The background is switched off: on a DMG (or a DMG cartridge on a CGB)
/// with LCDC bit 0 clear.
pub open spec fn bg_disabled(m: PpuView) -> bool {
    !use_cgb(m) && m.regs.lcdc & 0x01 == 0
}

/// The host colour of a background pixel of colour `color` and CGB
/// attributes `attr`.
#[verifier::opaque]
pub open spec fn bg_rgb(m: PpuView, color: u8, attr: u8) -> (u8, u8, u8) {
    if m.mode == GBMode::CGB {
        if bg_disabled(m) {
            mapped(m, 0x7FFF)
        } else {
            let palette_no: int = if use_cgb(m) { (attr & 0x07) as int } else { 0 };
            let final_color: int = if !use_cgb(m) { shade(m.regs.bgp, color) as int } else { color as int };
            mapped(m, cgb_color(m.pal.bcpd, palette_no * 8 + final_color * 2))
        }
    } else {
        let pal = match m.regs.bgp_glitch {
            Some(g) => g,
            None => m.regs.bgp,
        };
        rgb_of(grey(m.ppu_config.palette, pal, color))
    }
}

/// The host colour of a sprite pixel.
#[verifier::opaque]
pub open spec fn obj_rgb(m: PpuView, obj: ObjPixel) -> (u8, u8, u8) {
    let obp = if obj.palette { m.regs.obp1 } else { m.regs.obp0 };
    if m.mode == GBMode::CGB {
        let palette_no: int = if use_cgb(m) {
            (obj.cgb_attr & 0x07) as int
        } else if obj.palette {
            1
        } else {
            0
        };
        let final_color: int = if !use_cgb(m) { shade(obp, obj.color) as int } else { obj.color as int };
        mapped(m, cgb_color(m.pal.ocpd, palette_no * 8 + final_color * 2))
    } else {
        rgb_of(grey(m.ppu_config.palette, obp, obj.color))
    }
}

/// BG-versus-OBJ priority: the background shows where no opaque sprite pixel
/// is enabled; otherwise a sprite loses only to a non-zero background colour
/// when its BG-priority bit is set, and on a CGB with LCDC bit 0 set also to
/// a background tile with the priority attribute.
pub open spec fn bg_wins(m: PpuView, bg: BgPixel, obj: ObjPixel) -> bool {
    let bg_color = if bg_disabled(m) { 0 } else { bg.color };
    let prio = if bg_color == 0 {
        Priority::Color0
    } else if bg.cgb_attr & 0x80 != 0 {
        Priority::Priority
    } else {
        Priority::Normal
    };
    let obj_present = obj.color != 0 && m.regs.lcdc & 0x02 != 0;
    if !obj_present {
        true
    } else {
        match m.mode {
            GBMode::CGB => if m.regs.lcdc & 0x01 != 0 {
                if prio == Priority::Color0 {
                    false
                } else if !obj.bg_prio && prio != Priority::Priority {
                    false
                } else {
                    true
                }
            } else {
                obj.bg_prio && prio != Priority::Color0
            },
            GBMode::DMG => obj.bg_prio && prio != Priority::Color0,
        }
    }
}

/// The host colour shown for an emitted pixel.
#[verifier::opaque]
pub open spec fn pixel_rgb(m: PpuView, bg: BgPixel, obj: ObjPixel) -> (u8, u8, u8) {
    if bg_wins(m, bg, obj) {
        bg_rgb(m, if bg_disabled(m) { 0 } else { bg.color }, bg.cgb_attr)
    } else {
        obj_rgb(m, obj)
    }
}

/// One Mode 3 dot: the pipeline advances, an emitted pixel is painted on line
/// LY, the window line latch picks up a window trigger, the BGP artifact
/// expires, and once all 160 pixels are out the PPU enters HBlank.
#[verifier::opaque]
pub open spec fn mode3_stepped(m: PpuView) -> PpuView {
    let m1 = PpuView { pipeline: dot(m.pipeline, m.vram, regs_of(m)).0, ..m };
    let m2 = match dot(m.pipeline, m.vram, regs_of(m)).1 {
        Some(em) => painted(m1, em),
        None => m1,
    };
    mode3_tail(m2)
}

/// The end of a Mode 3 dot: the window line latch picks up a window
/// trigger, the BGP artifact expires, and once all 160 pixels are out the
/// PPU enters HBlank.
pub open spec fn mode3_tail(m: PpuView) -> PpuView {
    let m1 = PpuView {
        line: LineState { window_line_active: m.line.window_line_active || m.pipeline.window_triggered, ..m.line },
        regs: LcdRegs { bgp_glitch: None, ..m.regs },
        ..m
    };
    if m.pipeline.px >= 168 {
        PpuView {
            line: stat_updated(
                LineState { ppu_mode: PPUMode::HBlank, entered_hblank: true, ..m1.line },
                m1.regs.lcds,
            ),
            ..m1
        }
    } else {
        m1
    }
}

/// An emitted pixel painted at its column on line LY.
#[verifier::opaque]
pub open spec fn painted(m: PpuView, e: Emit) -> PpuView {
    let (r, g, b) = pixel_rgb(m, e.bg, e.obj);
    PpuView { frame: with_pixel(m.frame, r, g, b, e.x as int, m.regs.ly as int), ..m }
}

/// The OAM-scan-to-drawing edge: latch the window Y condition, clear the BGP
/// artifact and reset the pipeline for this line, then re-evaluate STAT.
#[verifier::opaque]
pub open spec fn mode3_started(m: PpuView) -> PpuView {
    let line = LineState {
        ppu_mode: PPUMode::Draw,
        first_line_after_on: false,
        window_line_active: false,
        window_y_condition: m.line.window_y_condition || m.regs.wy == m.regs.ly,
        ..m.line
    };
    let m1 = PpuView { line, regs: LcdRegs { bgp_glitch: None, ..m.regs }, ..m };
    PpuView {
        pipeline: line_started(m1.pipeline, m1.oam, regs_of(m1)),
        line: stat_updated(m1.line, m1.regs.lcds),
        ..m1
    }
}

/// The next line's mode-2 STAT source, asserted early during the tail of the
/// previous line's HBlank.
pub open spec fn early_oam_stat(m: PpuView) -> PpuView {
    if m.regs.lcds & 0x20 != 0 && !m.line.stat_line {
        PpuView {
            line: LineState { interrupts: Interrupts { bits: m.line.interrupts.bits | 0x02 }, stat_line: true, ..m.line },
            ..m
        }
    } else {
        m
    }
}

/// The end of a line: LY (and the window line counter, on a line the window
/// showed) advance; line 144 enters VBlank (interrupt, frame handed over,
/// window Y condition cleared), line 154 wraps to 0 in OAM scan, visible
/// lines start with OAM scan; then LY=LYC is compared.
#[verifier::opaque]
pub open spec fn line_advanced(m: PpuView) -> PpuView {
    lyc_checked(line_moded(ly_bumped(m)))
}

/// LY, and the window line counter on a line the window showed, advance.
pub open spec fn ly_bumped(m: PpuView) -> PpuView {
    let wly = if m.line.window_line_active { (m.regs.wly + 1) as u8 } else { m.regs.wly };
    PpuView {
        regs: LcdRegs { wly, ly: (m.regs.ly + 1) as u8, ..m.regs },
        line: LineState { window_line_active: false, ..m.line },
        ..m
    }
}

/// The mode a new line starts in (see `line_advanced`).
pub open spec fn line_moded(m: PpuView) -> PpuView {
    if m.regs.ly > 153 {
        PpuView {
            regs: LcdRegs { ly: 0, wly: 0, ..m.regs },
            line: LineState { ppu_mode: PPUMode::OAMScan, ..m.line },
            ..m
        }
    } else if m.regs.ly == 144 {
        PpuView {
            line: LineState {
                ppu_mode: PPUMode::VBlank,
                interrupts: Interrupts { bits: m.line.interrupts.bits | 0x01 },
                window_y_condition: false,
                ..m.line
            },
            frame: blank_frame(),
            sent: m.sent.push(m.frame),
            ..m
        }
    } else if m.regs.ly < 144 {
        PpuView { line: LineState { ppu_mode: PPUMode::OAMScan, ..m.line }, ..m }
    } else {
        m
    }
}

/// The state just after LY advanced from a well-formed state.
pub open spec fn bumped_wf(m: PpuView) -> bool {
    &&& colors_ok(m)
    &&& m.vram.len() == 0x4000
    &&& m.oam.len() == 0xA0
    &&& m.frame.len() == FRAMEBUFFER_SIZE
    &&& m.vram_bank <= 1
    &&& m.regs.lcds & 0x83 == 0
    &&& m.line.cycle_count < 456
    &&& 1 <= m.regs.ly <= 154
    &&& m.regs.wly <= m.regs.ly
    &&& (m.line.ppu_mode == PPUMode::OAMScan || m.line.ppu_mode == PPUMode::Draw) ==> m.regs.ly <= 144
    &&& m.line.ppu_mode == PPUMode::Draw ==> m.pipeline.px < 168
    &&& m.pipeline_ok
}

/// One dot of the PPU. Mode 3 runs the pixel pipeline; the dot counter
/// advances; dot 80 of OAM scan starts drawing; dot 452 of an HBlank before
/// line 143 raises the next line's mode-2 STAT source; dot 456 ends the line.
#[verifier::opaque]
pub open spec fn dot_stepped(m: PpuView) -> PpuView {
    counted(if m.line.ppu_mode == PPUMode::Draw { mode3_stepped(m) } else { m })
}

/// The dot counter's part of a dot: the edges at dots 80, 452 and 456.
#[verifier::opaque]
pub open spec fn counted(m1: PpuView) -> PpuView {
    let c = (m1.line.cycle_count + 1) as u32;
    let m2 = PpuView { line: LineState { cycle_count: c, ..m1.line }, ..m1 };
    let m3 = if m2.line.ppu_mode == PPUMode::OAMScan && c == 80 {
        mode3_started(m2)
    } else if m2.line.ppu_mode == PPUMode::HBlank && c == 456 - MODE2_LOOKAHEAD && m2.regs.ly < 143 {
        early_oam_stat(m2)
    } else {
        m2
    };
    if c >= 456 {
        line_advanced(PpuView { line: LineState { cycle_count: 0, ..m3.line }, ..m3 })
    } else {
        m3
    }
}

/// `n` dots from `m`.
pub open spec fn dots(m: PpuView, n: nat) -> PpuView
    decreases n,
{
    if n == 0 {
        m
    } else {
        dot_stepped(dots(m, (n - 1) as nat))
    }
}

/// `cycle(n)`: `n` dots while the LCD is on, nothing while it is off.
pub open spec fn cycled(m: PpuView, n: nat) -> PpuView {
    if m.regs.lcdc & 0x80 == 0 {
        m
    } else {
        dots(m, n)
    }
}

/// The state after a dot's drawing part: Mode 3 runs the pixel pipeline,
/// other modes draw nothing.
pub open spec fn drawn(m: PpuView) -> PpuView {
    if m.line.ppu_mode == PPUMode::Draw {
        mode3_stepped(m)
    } else {
        m
    }
}

/// The frame hand-off: a dot submits exactly one frame, the one drawn so far
/// (this dot's pixel included), when it ends line 143 and LY becomes 144;
/// the back buffer then starts white. Every other dot submits nothing.
pub proof fn lemma_frame_submitted_at_vblank(m: PpuView)
    requires
        m.wf(),
    ensures
        m.regs.ly == 143 && m.line.cycle_count == 455 ==> {
            &&& dot_stepped(m).sent == m.sent.push(drawn(m).frame)
            &&& dot_stepped(m).regs.ly == 144
            &&& dot_stepped(m).frame == blank_frame()
        },
        !(m.regs.ly == 143 && m.line.cycle_count == 455) ==> dot_stepped(m).sent == m.sent,
{
    reveal(dot_stepped);
    reveal(counted);
    reveal(line_advanced);
    reveal(mode3_stepped);
    reveal(painted);
    reveal(mode3_started);
    let m1 = drawn(m);
    assert(m1.sent == m.sent && m1.regs.ly == m.regs.ly && m1.line.cycle_count == m.line.cycle_count);
}

/// Line timing: every dot advances the dot counter; the 456th dot of a
/// line ends it, LY moving to the next line and wrapping from 153 to 0, so
/// a line is 456 dots and a frame 154 lines.
pub proof fn lemma_line_timing(m: PpuView)
    requires
        m.wf(),
    ensures
        m.line.cycle_count + 1 < 456 ==> dot_stepped(m).line.cycle_count == m.line.cycle_count + 1
            && dot_stepped(m).regs.ly == m.regs.ly,
        m.line.cycle_count + 1 >= 456 ==> dot_stepped(m).line.cycle_count == 0 && dot_stepped(m).regs.ly == (
        if m.regs.ly == 153 {
            0
        } else {
            m.regs.ly + 1
        }),
{
    reveal(dot_stepped);
    reveal(counted);
    reveal(line_advanced);
    reveal(mode3_stepped);
    reveal(painted);
    reveal(mode3_started);
    let m1 = drawn(m);
    assert(m1.regs.ly == m.regs.ly && m1.line.cycle_count == m.line.cycle_count);
}

/// A 16-bit OAM word (word `w` of row `r`, little-endian).
pub open spec fn oam_word(oam: Seq<u8>, r: int, w: int) -> u16 {
    (oam[r * 8 + w * 2] as int + oam[r * 8 + w * 2 + 1] as int * 256) as u16
}

/// OAM with word `w` of row `r` set to `v`.
pub open spec fn oam_word_set(oam: Seq<u8>, r: int, w: int, v: u16) -> Seq<u8> {
    oam.update(r * 8 + w * 2, (v % 256) as u8).update(r * 8 + w * 2 + 1, (v / 256) as u8)
}

/// OAM with row `to` replaced by a copy of row `from`.
pub open spec fn row_copied(oam: Seq<u8>, from: int, to: int) -> Seq<u8> {
    Seq::new(oam.len(), |i: int| if to * 8 <= i < to * 8 + 8 { oam[i - to * 8 + from * 8] } else { oam[i] })
}

/// The common tail of the corruptions: word 0 of `row` becomes `w0`, and its
/// other three words are copied from the preceding row.
pub open spec fn glitched_row(oam: Seq<u8>, row: int, w0: u16) -> Seq<u8> {
    let o = oam_word_set(oam, row, 0, w0);
    Seq::new(oam.len(), |i: int| if row * 8 + 2 <= i < row * 8 + 8 { oam[i - 8] } else { o[i] })
}

/// The write corruption of row `row` (rows 1-19; others are untouched).
pub open spec fn write_corrupted(oam: Seq<u8>, row: int) -> Seq<u8> {
    if !(1 <= row < 20) {
        oam
    } else {
        let a = oam_word(oam, row, 0);
        let b = oam_word(oam, row - 1, 0);
        let c = oam_word(oam, row - 1, 2);
        glitched_row(oam, row, ((a ^ c) & (b ^ c)) ^ c)
    }
}

/// The read corruption of row `row` (rows 1-19; others are untouched).
pub open spec fn read_corrupted(oam: Seq<u8>, row: int) -> Seq<u8> {
    if !(1 <= row < 20) {
        oam
    } else {
        let a = oam_word(oam, row, 0);
        let b = oam_word(oam, row - 1, 0);
        let c = oam_word(oam, row - 1, 2);
        glitched_row(oam, row, b | (a & c))
    }
}

/// The read-plus-increase corruption: for rows 4-18 a glitched word 0 of the
/// preceding row is copied over it and the row before it; then the read
/// corruption.
pub open spec fn read_increase_corrupted(oam: Seq<u8>, row: int) -> Seq<u8> {
    let o = if 4 <= row <= 18 {
        let a = oam_word(oam, row - 2, 0);
        let b = oam_word(oam, row - 1, 0);
        let c = oam_word(oam, row, 0);
        let d = oam_word(oam, row - 1, 2);
        let o1 = oam_word_set(oam, row - 1, 0, (b & (a | c | d)) | (a & c & d));
        row_copied(row_copied(o1, row - 1, row), row - 1, row - 2)
    } else {
        oam
    };
    read_corrupted(o, row)
}

/// The OAM row a DMG is scanning, one per M-cycle; none outside OAM scan or
/// on a CGB.
pub open spec fn oam_scan_row(m: PpuView) -> Option<int> {
    if m.mode != GBMode::DMG || m.line.ppu_mode != PPUMode::OAMScan {
        None
    } else {
        Some((m.line.cycle_count / 4) as int)
    }
}

/// OAM after a CPU access of kind `kind` during the current M-cycle.
pub open spec fn oam_corrupted(m: PpuView, kind: OamGlitch) -> Seq<u8> {
    match oam_scan_row(m) {
        None => m.oam,
        Some(row) => match kind {
            OamGlitch::Increase | OamGlitch::Write => write_corrupted(m.oam, row),
            OamGlitch::Read => read_corrupted(m.oam, row),
            OamGlitch::ReadIncrease => read_increase_corrupted(m.oam, row),
        },
    }
}

fn oam_w(oam: &Vec<u8>, r: usize, w: usize) -> (v: u16)
    requires
        oam@.len() == 0xA0,
        r < 20,
        w < 4,
    ensures
        v == oam_word(oam@, r as int, w as int),
{
    let i = r * 8 + w * 2;
    proof {
        lemma_bytes_pair(oam@[i + 1], oam@[i as int]);
    }
    (oam[i] as u16) | ((oam[i + 1] as u16) << 8)
}

fn oam_set_w(oam: &mut Vec<u8>, r: usize, w: usize, v: u16)
    requires
        old(oam)@.len() == 0xA0,
        r < 20,
        w < 4,
    ensures
        final(oam)@ == oam_word_set(old(oam)@, r as int, w as int, v),
{
    let i = r * 8 + w * 2;
    proof {
        lemma_word_bytes(v);
    }
    oam.set(i, v as u8);
    oam.set(i + 1, (v >> 8) as u8);
}

fn oam_copy_row(oam: &mut Vec<u8>, from: usize, to: usize)
    requires
        old(oam)@.len() == 0xA0,
        from < 20,
        to < 20,
        from != to,
    ensures
        final(oam)@ == row_copied(old(oam)@, from as int, to as int),
{
    let ghost o = oam@;
    let mut k: usize = 0;
    while k < 8
        invariant
            k <= 8,
            from < 20,
            to < 20,
            from != to,
            o.len() == 0xA0,
            oam@.len() == 0xA0,
            forall|i: int|
                0 <= i < 0xA0 ==> #[trigger] oam@[i] == (if to * 8 <= i < to * 8 + k {
                    o[i - to * 8 + from * 8]
                } else {
                    o[i]
                }),
        decreases 8 - k,
    {
        let b = oam[from * 8 + k];
        oam.set(to * 8 + k, b);
        k += 1;
    }
    assert(oam@ =~= row_copied(o, from as int, to as int));
}

fn oam_glitch_row(oam: &mut Vec<u8>, row: usize, new_w0: u16)
    requires
        old(oam)@.len() == 0xA0,
        1 <= row < 20,
    ensures
        final(oam)@ == glitched_row(old(oam)@, row as int, new_w0),
{
    let ghost o = oam@;
    oam_set_w(oam, row, 0, new_w0);
    let ghost o1 = oam@;
    let mut w: usize = 1;
    while w < 4
        invariant
            1 <= w <= 4,
            1 <= row < 20,
            o.len() == 0xA0,
            o1 == oam_word_set(o, row as int, 0, new_w0),
            oam@.len() == 0xA0,
            forall|i: int|
                0 <= i < 0xA0 ==> #[trigger] oam@[i] == (if row * 8 + 2 <= i < row * 8 + w * 2 {
                    o[i - 8]
                } else {
                    o1[i]
                }),
        decreases 4 - w,
    {
        let v = oam_w(oam, row - 1, w);
        proof {
            lemma_word_split(v);
        }
        oam_set_w(oam, row, w, v);
        w += 1;
    }
    assert(oam@ =~= glitched_row(o, row as int, new_w0));
}

/// A word's bytes, low then high, rebuild it.
proof fn lemma_word_split(v: u16)
    ensures
        ((v % 256) as int + (v / 256) as int * 256) == v,
{
}

fn oam_write_corrupt(oam: &mut Vec<u8>, row: usize)
    requires
        old(oam)@.len() == 0xA0,
    ensures
        final(oam)@ == write_corrupted(old(oam)@, row as int),
{
    if !(1 <= row && row < 20) {
        return;
    }
    let a = oam_w(oam, row, 0);
    let b = oam_w(oam, row - 1, 0);
    let c = oam_w(oam, row - 1, 2);
    oam_glitch_row(oam, row, ((a ^ c) & (b ^ c)) ^ c);
}

fn oam_read_corrupt(oam: &mut Vec<u8>, row: usize)
    requires
        old(oam)@.len() == 0xA0,
    ensures
        final(oam)@ == read_corrupted(old(oam)@, row as int),
{
    if !(1 <= row && row < 20) {
        return;
    }
    let a = oam_w(oam, row, 0);
    let b = oam_w(oam, row - 1, 0);
    let c = oam_w(oam, row - 1, 2);
    oam_glitch_row(oam, row, b | (a & c));
}

fn oam_read_increase_corrupt(oam: &mut Vec<u8>, row: usize)
    requires
        old(oam)@.len() == 0xA0,
    ensures
        final(oam)@ == read_increase_corrupted(old(oam)@, row as int),
{
    if 4 <= row && row <= 18 {
        let a = oam_w(oam, row - 2, 0);
        let b = oam_w(oam, row - 1, 0);
        let c = oam_w(oam, row, 0);
        let d = oam_w(oam, row - 1, 2);
        oam_set_w(oam, row - 1, 0, (b & (a | c | d)) | (a & c & d));
        oam_copy_row(oam, row - 1, row);
        oam_copy_row(oam, row - 1, row - 2);
    }
    oam_read_corrupt(oam, row);
}

/// The 2-bit shade `pal` maps `color` to.
fn shade_of(pal: u8, color: u8) -> (s: u8)
    requires
        color <= 3,
    ensures
        s == shade(pal, color),
        s <= 3,
{
    proof {
        lemma_byte_masks(pal >> (color * 2));
    }
    (pal >> (color * 2)) & 0x03
}

/// The DMG colour `pal` gives `color`.
fn grey_of(p: Palette, pal: u8, color: u8) -> (c: Color)
    requires
        color <= 3,
    ensures
        c == grey(p, pal, color),
{
    let s = shade_of(pal, color);
    if s == 0 {
        p.light
    } else if s == 1 {
        p.light_gray
    } else if s == 2 {
        p.dark_gray
    } else {
        p.dark
    }
}

impl PPU {
    /// The PPU after power-on: OAM scan of line 0 with the LCD off, all
    /// registers clear but OBP1 = 1 and OPRI set, VRAM/OAM/palettes zeroed.
    /// `cc` is the colour-correction table for `ppu_config.cc_mode`.
    pub fn new(
        mode: GBMode,
        ppu_config: PPUConfig,
        cc: Vec<(u8, u8, u8)>,
        framebuffer: FramebufferWriter,
        rom_is_cgb: bool,
    ) -> (r: Self)
        requires
            cc@.len() == GB_COLOR_LUT_LEN,
            framebuffer@.len() == FRAMEBUFFER_SIZE,
        ensures
            r@.wf(),
            r@.mode == mode,
            r@.rom_is_cgb == rom_is_cgb,
            r@.boot_rom_enabled,
            r@.ppu_config == ppu_config,
            r@.cc == cc@,
            r@.regs == (LcdRegs {
                scy: 0,
                scx: 0,
                ly: 0,
                lc: 0,
                wy: 0,
                wx: 0,
                wly: 0,
                bgp: 0,
                obp0: 0,
                obp1: 1,
                lcdc: 0,
                lcds: 0,
                opri: true,
                bgp_glitch: None,
            }),
            r@.line == (LineState {
                ppu_mode: PPUMode::OAMScan,
                cycle_count: 0,
                stat_line: false,
                interrupts: Interrupts { bits: 0 },
                entered_hblank: false,
                window_line_active: false,
                window_y_condition: false,
                first_line_after_on: false,
            }),
            r@.pal.bcps == (BGPI { address: 0, auto_increment: false }),
            r@.pal.ocps == (BGPI { address: 0, auto_increment: false }),
            r@.pal.bcpd == Seq::new(64, |i: int| 0u8),
            r@.pal.ocpd == Seq::new(64, |i: int| 0u8),
            r@.vram == Seq::new(0x4000, |i: int| 0u8),
            r@.oam == Seq::new(0xA0, |i: int| 0u8),
            r@.vram_bank == 0,
            r@.frame == framebuffer@,
            r@.sent == framebuffer.sent(),
            r@.pipeline.px == 0,
            (r@.pipeline.sprite_fetch is None),
    {
        let vram = vec![0u8; 0x4000];
        let oam = vec![0u8; 0xA0];
        assert(vram@ =~= Seq::new(0x4000, |i: int| 0u8));
        assert(oam@ =~= Seq::new(0xA0, |i: int| 0u8));
        proof {
            lemma_stat_bits(0, 0);
        }
        Self {
            mode,
            rom_is_cgb,
            boot_rom_enabled: true,
            ppu_config,
            cc,
            regs: LcdRegs {
                scy: 0x00,
                scx: 0x00,
                ly: 0x00,
                lc: 0x00,
                wy: 0x00,
                wx: 0x00,
                wly: 0x00,
                bgp: 0x00,
                obp0: 0x00,
                obp1: 0x01,
                lcdc: 0,
                lcds: 0,
                opri: true,
                bgp_glitch: None,
            },
            line: LineState {
                ppu_mode: PPUMode::OAMScan,
                cycle_count: 0,
                stat_line: false,
                interrupts: Interrupts::empty(),
                entered_hblank: false,
                window_line_active: false,
                window_y_condition: false,
                first_line_after_on: false,
            },
            pal: Palettes::new(),
            vram,
            vram_bank: 0,
            oam,
            framebuffer,
            pipeline: Pipeline::new(),
        }
    }

    /// Zeroes both VRAM banks.
    /// The VRAM bank selected for CPU and DMA accesses.
    pub fn vram_bank(&self) -> (r: usize)
        ensures
            r == self@.vram_bank,
    {
        self.vram_bank
    }

    pub fn clear_vram(&mut self)
        requires
            old(self)@.wf(),
        ensures
            final(self)@ == (PpuView { vram: Seq::new(0x4000, |i: int| 0u8), ..old(self)@ }),
    {
        self.vram = vec![0u8; 0x4000];
        assert(self.vram@ =~= Seq::new(0x4000, |i: int| 0u8));
    }

    pub fn disable_boot_rom(&mut self)
        ensures
            final(self)@ == (PpuView { boot_rom_enabled: false, ..old(self)@ }),
    {
        self.boot_rom_enabled = false;
    }

    /// Drains the interrupt requests and the HBlank edge produced since the
    /// last call, clearing them.
    pub fn take_events(&mut self) -> (r: (u8, bool))
        ensures
            r == (old(self)@.line.interrupts.bits, old(self)@.line.entered_hblank),
            final(self)@ == (PpuView {
                line: LineState { interrupts: Interrupts { bits: 0 }, entered_hblank: false, ..old(self)@.line },
                ..old(self)@
            }),
    {
        let irq = self.line.interrupts.bits();
        self.line.interrupts = Interrupts::empty();
        let hblank = self.line.entered_hblank;
        self.line.entered_hblank = false;
        (irq, hblank)
    }

    fn use_cgb_mode(&self) -> (r: bool)
        ensures
            r == use_cgb(self@),
    {
        if self.boot_rom_enabled {
            true
        } else {
            self.rom_is_cgb
        }
    }

    /// OAM write port for the OAM-DMA engine (not gated by the PPU mode).
    pub fn write_oam(&mut self, index: u16, v: u8)
        requires
            old(self)@.wf(),
            index < 0xA0,
        ensures
            final(self)@ == (PpuView { oam: old(self)@.oam.update(index as int, v), ..old(self)@ }),
    {
        self.oam.set(index as usize, v);
    }

    /// VRAM write at the current bank for the HDMA/GPDMA engine, which
    /// drives VRAM directly rather than through the mode-gated CPU port.
    pub fn write_vram_direct(&mut self, a: u16, v: u8)
        requires
            old(self)@.wf(),
            0x8000 <= a,
            old(self)@.vram_bank * 0x2000 + a - 0x8000 < 0x4000,
        ensures
            final(self)@ == (PpuView {
                vram: old(self)@.vram.update(old(self)@.vram_bank * 0x2000 + a - 0x8000, v),
                ..old(self)@
            }),
    {
        let i = (self.vram_bank * 0x2000) + a as usize - 0x8000;
        self.vram.set(i, v);
    }

    /// The register snapshot handed to the pixel pipeline.
    fn regs_snapshot(&self) -> (r: Regs)
        ensures
            r == regs_of(self@),
    {
        Regs {
            mode: self.mode,
            lcdc: self.regs.lcdc,
            scx: self.regs.scx,
            scy: self.regs.scy,
            ly: self.regs.ly,
            wx: self.regs.wx,
            wly: self.regs.wly,
            window_y: self.line.window_y_condition,
            opri: self.regs.opri,
        }
    }

    fn bg_rgb_of(&self, color: u8, attr: u8) -> (c: (u8, u8, u8))
        requires
            colors_ok(self@),
            color <= 3,
        ensures
            c == bg_rgb(self@, color, attr),
    {
        proof {
            reveal(bg_rgb);
        }
        if self.mode == GBMode::CGB {
            let cgb = self.use_cgb_mode();
            if !cgb && self.regs.lcdc & 0x01 == 0 {
                return self.cc[0x7FFF];
            }
            proof {
                lemma_byte_masks(attr);
            }
            let palette_no: usize = if cgb { (attr & 0x07) as usize } else { 0 };
            let final_color: usize = if !cgb { shade_of(self.regs.bgp, color) as usize } else { color as usize };
            let c = self.pal.color(false, palette_no * 8 + final_color * 2);
            self.cc[c as usize]
        } else {
            // The pixel emitted on the dot a BGP write lands shows old|new.
            let pal = match self.regs.bgp_glitch {
                Some(g) => g,
                None => self.regs.bgp,
            };
            let c = grey_of(self.ppu_config.palette, pal, color);
            (c.r(), c.g(), c.b())
        }
    }

    fn obj_rgb_of(&self, obj: ObjPixel) -> (c: (u8, u8, u8))
        requires
            colors_ok(self@),
            obj.color <= 3,
        ensures
            c == obj_rgb(self@, obj),
    {
        proof {
            reveal(obj_rgb);
        }
        let obp = if obj.palette { self.regs.obp1 } else { self.regs.obp0 };
        if self.mode == GBMode::CGB {
            let cgb = self.use_cgb_mode();
            proof {
                lemma_byte_masks(obj.cgb_attr);
            }
            let palette_no: usize = if cgb {
                (obj.cgb_attr & 0x07) as usize
            } else if obj.palette {
                1
            } else {
                0
            };
            let final_color: usize = if !cgb { shade_of(obp, obj.color) as usize } else { obj.color as usize };
            let c = self.pal.color(true, palette_no * 8 + final_color * 2);
            self.cc[c as usize]
        } else {
            let c = grey_of(self.ppu_config.palette, obp, obj.color);
            (c.r(), c.g(), c.b())
        }
    }

    /// Resolves BG-versus-OBJ priority for one pixel and gives its colour.
    fn pixel_rgb_of(&self, bg: BgPixel, obj: ObjPixel) -> (c: (u8, u8, u8))
        requires
            colors_ok(self@),
            bg.color <= 3,
            obj.color <= 3,
        ensures
            c == pixel_rgb(self@, bg, obj),
    {
        proof {
            reveal(pixel_rgb);
        }
        let bg_disabled = !self.use_cgb_mode() && self.regs.lcdc & 0x01 == 0;
        let bg_color = if bg_disabled { 0 } else { bg.color };
        let prio = if bg_color == 0 {
            Priority::Color0
        } else if bg.cgb_attr & 0x80 != 0 {
            Priority::Priority
        } else {
            Priority::Normal
        };
        let obj_present = obj.color != 0 && self.regs.lcdc & 0x02 != 0;
        let bg_wins = if !obj_present {
            true
        } else {
            match self.mode {
                GBMode::CGB => {
                    if self.regs.lcdc & 0x01 != 0 {
                        if prio == Priority::Color0 {
                            false
                        } else if !obj.bg_prio && prio != Priority::Priority {
                            false
                        } else {
                            true
                        }
                    } else {
                        obj.bg_prio && prio != Priority::Color0
                    }
                },
                GBMode::DMG => obj.bg_prio && prio != Priority::Color0,
            }
        };
        if bg_wins {
            self.bg_rgb_of(bg_color, bg.cgb_attr)
        } else {
            self.obj_rgb_of(obj)
        }
    }

    fn paint(&mut self, em: Emit)
        requires
            colors_ok(old(self)@),
            old(self)@.frame.len() == FRAMEBUFFER_SIZE,
            old(self)@.regs.ly < 144,
            em.x < 160,
            em.bg.color <= 3,
            em.obj.color <= 3,
        ensures
            final(self)@ == painted(old(self)@, em),
            final(self)@ == (PpuView { frame: final(self)@.frame, ..old(self)@ }),
            final(self)@.frame.len() == FRAMEBUFFER_SIZE,
    {
        proof {
            reveal(painted);
        }
        let (cr, cg, cb) = self.pixel_rgb_of(em.bg, em.obj);
        self.framebuffer.set_pixel(cr, cg, cb, em.x, self.regs.ly as usize);
    }

    /// Advances the renderer one Mode 3 dot and paints any pixel emitted.
    fn mode3_dot(&mut self)
        requires
            old(self)@.wf(),
            old(self)@.line.ppu_mode == PPUMode::Draw,
        ensures
            final(self)@ == mode3_stepped(old(self)@),
            final(self)@.wf(),
    {
        proof {
            reveal(mode3_stepped);
        }
        let r = self.regs_snapshot();
        let e = self.pipeline.tick(self.vram.as_slice(), r);
        match e {
            Some(em) => self.paint(em),
            None => {},
        }
        self.mode3_finish();
    }

    fn mode3_finish(&mut self)
        requires
            old(self)@.core_wf(),
            old(self)@.line.ppu_mode == PPUMode::Draw,
            old(self)@.pipeline.px <= 168,
        ensures
            final(self)@ == mode3_tail(old(self)@),
            final(self)@.wf(),
    {
        // The window's line counter advances on any line the window
        // activated.
        if self.pipeline.window_triggered() {
            self.line.window_line_active = true;
        }
        // The BGP write artifact lives for exactly the one dot after the write.
        self.regs.bgp_glitch = None;
        if self.pipeline.finished() {
            self.line.ppu_mode = PPUMode::HBlank;
            self.line.entered_hblank = true;
            self.line.update_stat(self.regs.lcds);
        }
    }

    /// Sets up the pixel pipeline for one Mode 3, at the OAM-scan-to-drawing
    /// edge.
    fn start_mode3(&mut self)
        requires
            old(self)@.wf(),
            old(self)@.line.ppu_mode == PPUMode::OAMScan,
        ensures
            final(self)@ == mode3_started(old(self)@),
            final(self)@.wf(),
    {
        proof {
            reveal(mode3_started);
        }
        self.line.ppu_mode = PPUMode::Draw;
        // The first-frame mode-0 readback window ends here.
        self.line.first_line_after_on = false;
        self.line.window_line_active = false;
        // Once WY == LY has been seen this frame the Y condition stays set.
        if self.regs.wy == self.regs.ly {
            self.line.window_y_condition = true;
        }
        self.regs.bgp_glitch = None;
        let r = self.regs_snapshot();
        self.pipeline.start_line(self.oam.as_slice(), r);
        self.line.update_stat(self.regs.lcds);
    }

    fn assert_early_oam_stat(&mut self)
        requires
            old(self)@.wf(),
        ensures
            final(self)@ == early_oam_stat(old(self)@),
            final(self)@.wf(),
    {
        if self.regs.lcds & 0x20 != 0 && !self.line.stat_line {
            self.line.interrupts = self.line.interrupts.union(Interrupts::lcd());
            self.line.stat_line = true;
        }
    }

    /// Advances to the next line (see `line_advanced`).
    fn next_line(&mut self)
        requires
            old(self)@.wf(),
        ensures
            final(self)@ == line_advanced(old(self)@),
            final(self)@.wf(),
    {
        proof {
            reveal(line_advanced);
        }
        if self.line.window_line_active {
            self.regs.wly = self.regs.wly + 1;
        }
        self.line.window_line_active = false;
        self.regs.ly = self.regs.ly + 1;
        self.enter_line_mode();
        self.check_lyc();
    }

    fn enter_line_mode(&mut self)
        requires
            bumped_wf(old(self)@),
        ensures
            final(self)@ == line_moded(old(self)@),
            final(self)@.wf(),
    {
        if self.regs.ly > 153 {
            self.regs.ly = 0;
            self.regs.wly = 0;
            self.line.ppu_mode = PPUMode::OAMScan;
        } else if self.regs.ly == 144 {
            self.line.ppu_mode = PPUMode::VBlank;
            self.line.interrupts = self.line.interrupts.union(Interrupts::v_blank());
            self.framebuffer.submit_frame();
            self.line.window_y_condition = false;
        } else if self.regs.ly < 144 {
            self.line.ppu_mode = PPUMode::OAMScan;
        }
    }

    /// Advances the PPU exactly one dot (see `dot_stepped`).
    fn dot(&mut self)
        requires
            old(self)@.wf(),
        ensures
            final(self)@ == dot_stepped(old(self)@),
            final(self)@.wf(),
    {
        proof {
            reveal(dot_stepped);
        }
        if self.line.ppu_mode == PPUMode::Draw {
            self.mode3_dot();
        }
        self.count_dot();
    }

    #[verifier::spinoff_prover]
    #[verifier::rlimit(40)]
    fn count_dot(&mut self)
        requires
            old(self)@.wf(),
        ensures
            final(self)@ == counted(old(self)@),
            final(self)@.wf(),
    {
        proof {
            reveal(counted);
        }
        self.line.cycle_count = self.line.cycle_count + 1;
        if self.line.ppu_mode == PPUMode::OAMScan && self.line.cycle_count == 80 {
            self.start_mode3();
        } else if self.line.ppu_mode == PPUMode::HBlank && self.line.cycle_count == 456 - MODE2_LOOKAHEAD
            && self.regs.ly < 143 {
            self.assert_early_oam_stat();
        }
        if self.line.cycle_count >= 456 {
            self.line.cycle_count = 0;
            self.next_line();
        }
    }

    /// Runs `cycles` dots while the LCD is on.
    pub fn cycle(&mut self, cycles: u32)
        requires
            old(self)@.wf(),
        ensures
            final(self)@ == cycled(old(self)@, cycles as nat),
            final(self)@.wf(),
    {
        if self.regs.lcdc & 0x80 == 0 {
            return;
        }
        let mut i: u32 = 0;
        while i < cycles
            invariant
                i <= cycles,
                self@.wf(),
                self@ == dots(old(self)@, i as nat),
            decreases cycles - i,
        {
            self.dot();
            i += 1;
        }
    }

    /// Applies the DMG OAM corruption of a CPU access of kind `kind` to the
    /// row being scanned, if any.
    pub fn oam_corrupt(&mut self, kind: OamGlitch)
        requires
            old(self)@.wf(),
        ensures
            final(self)@ == (PpuView { oam: oam_corrupted(old(self)@, kind), ..old(self)@ }),
    {
        if self.mode != GBMode::DMG || self.line.ppu_mode != PPUMode::OAMScan {
            return;
        }
        let row = (self.line.cycle_count / 4) as usize;
        match kind {
            OamGlitch::Increase | OamGlitch::Write => oam_write_corrupt(&mut self.oam, row),
            OamGlitch::Read => oam_read_corrupt(&mut self.oam, row),
            OamGlitch::ReadIncrease => oam_read_increase_corrupt(&mut self.oam, row),
        }
    }

    fn read_reg(&self, a: u16) -> (r: u8)
        requires
            self@.wf(),
        ensures
            r == ppu_read(self@, a),
    {
        if 0x8000 <= a && a <= 0x9FFF {
            if self.line.ppu_mode != PPUMode::Draw {
                self.vram[(self.vram_bank * 0x2000) + a as usize - 0x8000]
            } else {
                0xFF
            }
        } else if 0xFE00 <= a && a <= 0xFE9F {
            if self.line.ppu_mode != PPUMode::Draw && self.line.ppu_mode != PPUMode::OAMScan {
                self.oam[a as usize - 0xFE00]
            } else {
                0xFF
            }
        } else if a == io::LCDC {
            self.regs.lcdc
        } else if a == io::STAT {
            // During the first-line mode-0 readback window the PPU is
            // internally in OAM scan but STAT reports mode 0.
            let mode = if self.line.first_line_after_on {
                PPUMode::HBlank.bits()
            } else {
                self.line.ppu_mode.bits()
            };
            self.regs.lcds | mode | 0x80
        } else if a == io::SCY {
            self.regs.scy
        } else if a == io::SCX {
            self.regs.scx
        } else if a == io::LY {
            if self.regs.ly == 153 && self.line.cycle_count >= LY_153_ROLLOVER {
                0
            } else {
                self.regs.ly
            }
        } else if a == io::LYC {
            self.regs.lc
        } else if a == io::BGP {
            self.regs.bgp
        } else if a == io::OBP0 {
            self.regs.obp0
        } else if a == io::OBP1 {
            self.regs.obp1
        } else if a == io::WY {
            self.regs.wy
        } else if a == io::WX {
            self.regs.wx
        } else if a == io::VBK {
            if self.mode == GBMode::DMG {
                0xFF
            } else {
                0xFE | self.vram_bank as u8
            }
        } else if a == io::BGPI || a == io::BGPD || a == io::OBPI || a == io::OBPD {
            self.pal.read(a, self.mode == GBMode::DMG, self.line.ppu_mode == PPUMode::Draw)
        } else if a == io::OPRI {
            0xFE | (if self.regs.opri { 1u8 } else { 0u8 })
        } else {
            0xFF
        }
    }

    fn check_lyc(&mut self)
        requires
            old(self)@.wf(),
        ensures
            final(self)@ == lyc_checked(old(self)@),
            final(self)@.wf(),
    {
        // The comparator only runs while the PPU is on; with the LCD off
        // the LYC-equals bit is frozen at its last value.
        if self.regs.lcdc & 0x80 == 0 {
            return;
        }
        proof {
            lemma_stat_bits(self.regs.lcds, 0);
        }
        // Set or clear LYC-equals within the defined STAT bits.
        let lcds = if self.regs.ly == self.regs.lc {
            self.regs.lcds | 0x04
        } else {
            self.regs.lcds & 0x78
        };
        self.regs.lcds = lcds;
        self.line.update_stat(lcds);
    }

    fn write_reg(&mut self, a: u16, v: u8)
        requires
            old(self)@.wf(),
        ensures
            final(self)@ == ppu_written(old(self)@, a, v),
            final(self)@.wf(),
    {
        if (0x8000 <= a && a <= 0x9FFF) || (0xFE00 <= a && a <= 0xFE9F) {
            self.write_memory(a, v);
        } else if a == io::LCDC || a == io::STAT || a == io::LYC {
            self.write_control(a, v);
        } else {
            self.write_other(a, v);
        }
    }

    fn write_memory(&mut self, a: u16, v: u8)
        requires
            old(self)@.wf(),
            is_memory(a),
        ensures
            final(self)@ == memory_written(old(self)@, a, v),
            final(self)@.wf(),
    {
        if 0x8000 <= a && a <= 0x9FFF {
            if self.line.ppu_mode != PPUMode::Draw {
                let i = (self.vram_bank * 0x2000) + a as usize - 0x8000;
                self.vram.set(i, v);
            }
        } else if self.line.ppu_mode != PPUMode::Draw && self.line.ppu_mode != PPUMode::OAMScan {
            self.oam.set(a as usize - 0xFE00, v);
        }
    }

    fn write_control(&mut self, a: u16, v: u8)
        requires
            old(self)@.wf(),
            is_control(a),
        ensures
            final(self)@ == control_written(old(self)@, a, v),
            final(self)@.wf(),
    {
        if a == io::LCDC {
            self.write_lcdc(v);
        } else if a == io::STAT {
            proof {
                lemma_stat_bits(self.regs.lcds, v);
            }
            self.regs.lcds = ((v & 0xF8) | (self.regs.lcds & 0x04)) & 0x7C;
            self.check_lyc();
        } else {
            self.regs.lc = v;
            self.check_lyc();
        }
    }

    fn write_other(&mut self, a: u16, v: u8)
        requires
            old(self)@.wf(),
        ensures
            final(self)@ == other_written(old(self)@, a, v),
            final(self)@.wf(),
    {
        if a == io::BGPI || a == io::BGPD || a == io::OBPI || a == io::OBPD {
            let drawing = self.line.ppu_mode == PPUMode::Draw;
            self.pal.write(a, v, drawing);
        } else if a == io::VBK {
            proof {
                lemma_stat_bits(0, v);
            }
            self.vram_bank = (v & 0x01) as usize;
        } else {
            let dmg_drawing = self.mode == GBMode::DMG && self.line.ppu_mode == PPUMode::Draw;
            self.regs.write(a, v, dmg_drawing);
        }
    }

    fn write_lcdc(&mut self, v: u8)
        requires
            old(self)@.wf(),
        ensures
            final(self)@ == lcdc_written(old(self)@, v),
            final(self)@.wf(),
    {
        let was_on = self.regs.lcdc & 0x80 != 0;
        self.regs.lcdc = v;
        if v & 0x80 == 0 {
            self.regs.ly = 0;
            self.regs.wly = 0;
            self.line.ppu_mode = PPUMode::HBlank;
            match self.mode {
                GBMode::DMG => {
                    let color = self.ppu_config.palette.off;
                    let (r, g, b) = (color.r(), color.g(), color.b());
                    self.framebuffer.fill(r, g, b);
                    assert(self.framebuffer@ =~= filled_frame(r, g, b));
                },
                GBMode::CGB => {
                    self.framebuffer.clear();
                },
            }
        } else if !was_on {
            // Enabling the LCD restarts at the beginning of scanline 0, at the
            // dot phase the hardware shows against the CPU's M-cycle grid.
            self.regs.ly = 0;
            self.regs.wly = 0;
            self.line.ppu_mode = PPUMode::OAMScan;
            self.line.cycle_count = 5;
            self.line.first_line_after_on = true;
            self.check_lyc();
        }
    }
}

/// A plain LCD register (scroll, LYC, palettes, window position) reads back
/// the value last written to it.
pub proof fn lemma_ppu_register_read_back(m: PpuView, a: u16, v: u8)
    requires
        m.wf(),
        a == io::SCY || a == io::SCX || a == io::LYC || a == io::BGP || a == io::OBP0 || a == io::OBP1 || a
            == io::WY || a == io::WX,
    ensures
        ppu_read(ppu_written(m, a, v), a) == v,
{
}

/// Outside drawing, a byte written to VRAM reads back from the same address.
pub proof fn lemma_vram_read_back(m: PpuView, a: u16, v: u8)
    requires
        m.wf(),
        0x8000 <= a <= 0x9FFF,
        m.line.ppu_mode != PPUMode::Draw,
    ensures
        ppu_read(ppu_written(m, a, v), a) == v,
{
}

/// In HBlank or VBlank, a byte written to OAM reads back from the same
/// address.
pub proof fn lemma_oam_read_back(m: PpuView, a: u16, v: u8)
    requires
        m.wf(),
        0xFE00 <= a <= 0xFE9F,
        m.line.ppu_mode == PPUMode::HBlank || m.line.ppu_mode == PPUMode::VBlank,
    ensures
        ppu_read(ppu_written(m, a, v), a) == v,
{
}

/// STAT interrupt blocking: while the STAT line is already high, re-evaluating
/// it requests no further LCD interrupt.
pub proof fn lemma_stat_rising_edge_only(l: LineState, lcds: u8)
    requires
        l.stat_line,
    ensures
        stat_updated(l, lcds).interrupts == l.interrupts,
{
}

/// The write corruption changes no byte outside the corrupted row.
pub proof fn lemma_write_corruption_is_local(oam: Seq<u8>, row: int)
    requires
        oam.len() == 0xA0,
    ensures
        write_corrupted(oam, row).len() == 0xA0,
        forall|i: int|
            0 <= i < 0xA0 && !(row * 8 <= i < row * 8 + 8) ==> #[trigger] write_corrupted(oam, row)[i] == oam[i],
{
}

impl Memory for PPU {
    open spec fn readable(m: PpuView, a: u16) -> bool {
        m.wf()
    }

    open spec fn writable(m: PpuView, a: u16, v: u8) -> bool {
        m.wf()
    }

    open spec fn peek(m: PpuView, a: u16) -> u8 {
        ppu_read(m, a)
    }

    open spec fn poke(m: PpuView, a: u16, v: u8) -> PpuView {
        ppu_written(m, a, v)
    }

    fn read(&self, a: u16) -> (r: u8) {
        self.read_reg(a)
    }

    fn write(&mut self, a: u16, v: u8)
        ensures
            final(self)@.wf(),
    {
        self.write_reg(a, v);
    }
}

} // verus!
