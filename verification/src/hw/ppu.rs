use super::bus::{BusDir, Pins, Ticked};
use super::interrupt::Interrupts;
use crate::components::mode::GBMode;
use crate::components::ppu::ppu::{cycled, oam_corrupted, ppu_read, ppu_written, LineState, OamGlitch, PpuView, GB_COLOR_LUT_LEN, PPU as CorePpu};
use crate::config::PPUConfig;
use crate::framebuffer::{FramebufferWriter, FRAMEBUFFER_SIZE};
use crate::memory::Memory;
use vstd::prelude::*;

verus! {

/// The PPU as a peer chip: the dot-accurate renderer adapted to the bus.
pub struct Ppu {
    core: CorePpu,
}

impl View for Ppu {
    type V = PpuView;

    closed spec fn view(&self) -> PpuView {
        self.core@
    }
}

/// The addresses the PPU answers on the bus. 0xFF46 (OAM DMA) and
/// 0xFF4C/0xFF4D are left to the DMA and speed-switch owners.
pub open spec fn ppu_owned(a: u16) -> bool {
    (0x8000 <= a <= 0x9FFF) || (0xFE00 <= a <= 0xFE9F) || (0xFF40 <= a <= 0xFF45) || (0xFF47 <= a <= 0xFF4B)
        || a == 0xFF4F || (0xFF68 <= a <= 0xFF6C)
}

/// The PPU after `n` dots, with its interrupt requests and HBlank edge
/// drained.
pub open spec fn advanced(m: PpuView, n: nat) -> PpuView {
    let c = cycled(m, n);
    PpuView { line: LineState { interrupts: Interrupts { bits: 0 }, entered_hblank: false, ..c.line }, ..c }
}

/// A transfer on the traces as the PPU sees it: a read of its addresses
/// gets its answer, a write changes it, anything else passes by.
pub open spec fn ppu_bus(p: PpuView, pins: Pins) -> (PpuView, Pins) {
    if pins.transfer && ppu_owned(pins.address) && pins.dir == BusDir::Read {
        (p, Pins { data: ppu_read(p, pins.address), ..pins })
    } else if pins.transfer && ppu_owned(pins.address) && pins.dir == BusDir::Write {
        (ppu_written(p, pins.address, pins.data), pins)
    } else {
        (p, pins)
    }
}

impl Ppu {
    pub fn new(
        mode: GBMode,
        ppu_config: PPUConfig,
        cc: Vec<(u8, u8, u8)>,
        framebuffer: FramebufferWriter,
        rom_is_cgb: bool,
    ) -> (r: Self)
        requires
            cc@.len() == GB_COLOR_LUT_LEN,
            framebuffer@.len() == FRAMEBUFFER_SIZE,
        ensures
            r@.wf(),
            r@.mode == mode,
            r@.rom_is_cgb == rom_is_cgb,
            r@.boot_rom_enabled,
            r@.ppu_config == ppu_config,
            r@.cc == cc@,
            r@.frame == framebuffer@,
            r@.sent == framebuffer.sent(),
            r@.regs.lcdc == 0,
    {
        Self { core: CorePpu::new(mode, ppu_config, cc, framebuffer, rom_is_cgb) }
    }

    fn owns(addr: u16) -> (r: bool)
        ensures
            r == ppu_owned(addr),
    {
        (0x8000 <= addr && addr <= 0x9FFF) || (0xFE00 <= addr && addr <= 0xFE9F) || (0xFF40 <= addr && addr
            <= 0xFF45) || (0xFF47 <= addr && addr <= 0xFF4B) || addr == 0xFF4F || (0xFF68 <= addr && addr
            <= 0xFF6C)
    }

    /// The VRAM bank selected for CPU and DMA accesses.
    pub fn vram_bank(&self) -> (r: usize)
        ensures
            r == self@.vram_bank,
    {
        self.core.vram_bank()
    }

    /// The OAM corruption a 16-bit increment or decrement through the OAM
    /// region causes on the DMG while OAM is being scanned.
    pub fn corrupt_oam_inc(&mut self)
        requires
            old(self)@.wf(),
        ensures
            final(self)@ == (PpuView { oam: oam_corrupted(old(self)@, OamGlitch::Increase), ..old(self)@ }),
            final(self)@.wf(),
    {
        self.core.oam_corrupt(OamGlitch::Increase);
    }

    /// OAM write port for the OAM-DMA engine, which drives OAM while holding
    /// the bus (not gated by the PPU mode).
    pub fn write_oam(&mut self, index: u16, value: u8)
        requires
            old(self)@.wf(),
            index < 0xA0,
        ensures
            final(self)@ == (PpuView { oam: old(self)@.oam.update(index as int, value), ..old(self)@ }),
    {
        self.core.write_oam(index, value);
    }

    /// VRAM write port for the HDMA/GPDMA engine (not gated by the PPU mode).
    pub fn write_vram_dma(&mut self, addr: u16, value: u8)
        requires
            old(self)@.wf(),
            0x8000 <= addr,
            old(self)@.vram_bank * 0x2000 + addr - 0x8000 < 0x4000,
        ensures
            final(self)@ == (PpuView {
                vram: old(self)@.vram.update(old(self)@.vram_bank * 0x2000 + addr - 0x8000, value),
                ..old(self)@
            }),
    {
        self.core.write_vram_direct(addr, value);
    }

    /// The boot ROM was unmapped: VRAM is cleared and the boot-time colour
    /// behaviour ends.
    pub fn on_boot_rom_disabled(&mut self)
        requires
            old(self)@.wf(),
        ensures
            final(self)@ == (PpuView {
                vram: Seq::new(0x4000, |i: int| 0u8),
                boot_rom_enabled: false,
                ..old(self)@
            }),
    {
        self.core.clear_vram();
        self.core.disable_boot_rom();
    }
}

impl Ppu {
    /// One dot on a base-clock tick; the interrupt requests and HBlank edge
    /// raised are handed out.
    pub fn advance(&mut self, base_dot: bool) -> (r: Ticked)
        requires
            old(self)@.wf(),
        ensures
            final(self)@.wf(),
            final(self)@ == advanced(old(self)@, if base_dot { 1 } else { 0 }),
            r.irq.bits == cycled(old(self)@, if base_dot { 1 } else { 0 }).line.interrupts.bits & 0x1F,
            r.hblank_edge == cycled(old(self)@, if base_dot { 1 } else { 0 }).line.entered_hblank,
    {
        if base_dot {
            self.core.cycle(1);
        } else {
            assert(self.core@ == cycled(old(self)@, 0));
        }
        let (irq_bits, hblank_edge) = self.core.take_events();
        Ticked { irq: Interrupts::from_bits_truncate(irq_bits), hblank_edge }
    }

    /// Serves a CPU transfer to one of its addresses on the transfer dot.
    pub fn bus(&mut self, pins: &mut Pins) -> (r: Ticked)
        requires
            old(self)@.wf(),
        ensures
            final(self)@.wf(),
            r == Ticked::none(),
            final(pins).address == old(pins).address,
            final(pins).dir == old(pins).dir,
            final(pins).master == old(pins).master,
            final(pins).transfer == old(pins).transfer,
            (old(pins).transfer && ppu_owned(old(pins).address) && old(pins).dir == BusDir::Read)
                ==> final(pins).data == ppu_read(old(self)@, old(pins).address) && final(self)@ == old(self)@,
            (old(pins).transfer && ppu_owned(old(pins).address) && old(pins).dir == BusDir::Write)
                ==> final(self)@ == ppu_written(old(self)@, old(pins).address, old(pins).data) && final(pins).data
                == old(pins).data,
            !(old(pins).transfer && ppu_owned(old(pins).address) && old(pins).dir != BusDir::Idle)
                ==> final(self)@ == old(self)@ && final(pins).data == old(pins).data,
    {
        if pins.transfer && Self::owns(pins.address) {
            match pins.dir {
                BusDir::Read => pins.data = self.core.read(pins.address),
                BusDir::Write => self.core.write(pins.address, pins.data),
                BusDir::Idle => {},
            }
        }
        Ticked::default()
    }
}

} // verus!
