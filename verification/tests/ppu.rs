use tetsuyu::components::ppu::cc::{components, sgb_color, true_color};
use tetsuyu::components::mode::GBMode;
use tetsuyu::components::ppu::ppu::{OamGlitch, GB_COLOR_LUT_LEN, PPU};
use tetsuyu::config::PPUConfig;
use tetsuyu::framebuffer::{Frame, FramebufferWriter};
use tetsuyu::hw::bus::{BusDir, BusMaster, Pins};
use tetsuyu::hw::ppu::Ppu;
use tetsuyu::memory::Memory;

fn make(mode: GBMode) -> (PPU, std::sync::mpsc::Receiver<Frame>) {
    let (tx, rx) = std::sync::mpsc::channel();
    let cc: Vec<(u8, u8, u8)> = (0..GB_COLOR_LUT_LEN).map(|i| ((i & 0x1F) as u8, 0, 0)).collect();
    (PPU::new(mode, PPUConfig::new(), cc, FramebufferWriter::new(tx), false), rx)
}

#[test]
fn ppu_plain_registers_read_back() {
    let (mut p, _rx) = make(GBMode::DMG);
    for (a, v) in [(0xFF42u16, 0x12u8), (0xFF43, 0x34), (0xFF45, 0x56), (0xFF47, 0xE4), (0xFF48, 0x1B), (0xFF49, 0x2C), (0xFF4A, 0x40), (0xFF4B, 0x07)] {
        p.write(a, v);
        assert_eq!(p.read(a), v);
    }
    // LY is read-only.
    p.write(0xFF44, 0x99);
    assert_eq!(p.read(0xFF44), 0);
}

#[test]
fn ppu_power_on_state() {
    let (p, _rx) = make(GBMode::DMG);
    // OAM scan (mode 2), bit 7 set.
    assert_eq!(p.read(0xFF41), 0x82);
    assert_eq!(p.read(0xFF49), 0x01);
    assert_eq!(p.read(0xFF6C), 0xFF);
    // CGB-only registers read 0xFF on a DMG.
    assert_eq!(p.read(0xFF4F), 0xFF);
    assert_eq!(p.read(0xFF68), 0xFF);
    assert_eq!(p.read(0x1234), 0xFF);
}

#[test]
fn ppu_lcd_on_reports_mode_zero_and_lyc() {
    let (mut p, _rx) = make(GBMode::DMG);
    p.write(0xFF40, 0x91);
    // First-line readback: mode 0, and LY (0) == LYC (0) sets bit 2.
    assert_eq!(p.read(0xFF41), 0x84);
    assert_eq!(p.read(0xFF44), 0);
}

#[test]
fn ppu_stat_write_keeps_read_only_bits() {
    let (mut p, _rx) = make(GBMode::DMG);
    p.write(0xFF41, 0xFF);
    // Bits 6-3 are taken; the mode bits and bit 2 are not writable.
    assert_eq!(p.read(0xFF41), 0x80 | 0x78 | 0x02);
}

#[test]
fn ppu_vblank_after_144_lines() {
    let (mut p, rx) = make(GBMode::DMG);
    p.write(0xFF40, 0x91);
    p.take_events();
    // Line 0 starts at dot 5 after the LCD is switched on.
    p.cycle(451 + 143 * 456 - 1);
    let (irq, _) = p.take_events();
    assert_eq!(irq & 0x01, 0);
    assert_eq!(p.read(0xFF44), 143);
    p.cycle(1);
    let (irq, _) = p.take_events();
    assert_eq!(irq & 0x01, 0x01);
    assert_eq!(p.read(0xFF44), 144);
    assert_eq!(p.read(0xFF41) & 0x03, 1);
    assert!(rx.try_recv().is_ok());
}

#[test]
fn ppu_draws_dmg_background() {
    let (mut p, rx) = make(GBMode::DMG);
    // Tile 0, row 0: low plane all set (colour 1); every other row colour 0.
    p.write(0x8000, 0xFF);
    p.write(0xFF47, 0xE4);
    p.write(0xFF40, 0x91);
    p.cycle(451 + 143 * 456);
    let frame = rx.try_recv().unwrap();
    // Colour 1 through BGP 0xE4 is the light grey shade 0x84A563.
    assert_eq!(&frame.data[0..4], &[0x84, 0xA5, 0x63, 0xFF]);
    assert_eq!(&frame.data[159 * 4..160 * 4], &[0x84, 0xA5, 0x63, 0xFF]);
    // Row 1 is colour 0: the lightest shade 0xC6DE8C.
    assert_eq!(&frame.data[640..644], &[0xC6, 0xDE, 0x8C, 0xFF]);
}

#[test]
fn ppu_lcd_off_fills_screen() {
    let (mut p, rx) = make(GBMode::DMG);
    p.write(0xFF40, 0x91);
    p.cycle(100);
    p.write(0xFF40, 0x11);
    // Mode 0, LY reset.
    assert_eq!(p.read(0xFF41) & 0x03, 0);
    assert_eq!(p.read(0xFF44), 0);
    // Nothing runs while the LCD is off.
    p.cycle(1000);
    assert_eq!(p.read(0xFF44), 0);
    assert!(rx.try_recv().is_err());
}

#[test]
fn ppu_vram_locked_while_drawing() {
    let (mut p, _rx) = make(GBMode::DMG);
    p.write(0x8010, 0x5A);
    assert_eq!(p.read(0x8010), 0x5A);
    p.write(0xFF40, 0x91);
    // Dot 80 of line 0 starts drawing; the LCD-on line starts at dot 5.
    p.cycle(80 - 5);
    assert_eq!(p.read(0xFF41) & 0x03, 3);
    assert_eq!(p.read(0x8010), 0xFF);
    p.write(0x8010, 0x00);
    // OAM reads 0xFF while drawing too.
    assert_eq!(p.read(0xFE00), 0xFF);
}

#[test]
fn ppu_cgb_palette_auto_increment() {
    let (mut p, _rx) = make(GBMode::CGB);
    p.write(0xFF68, 0x80);
    p.write(0xFF69, 0x11);
    p.write(0xFF69, 0x22);
    // The index stepped twice.
    assert_eq!(p.read(0xFF68), 0x80 | 0x40 | 0x02);
    p.write(0xFF68, 0x00);
    assert_eq!(p.read(0xFF69), 0x11);
    p.write(0xFF68, 0x01);
    assert_eq!(p.read(0xFF69), 0x22);
    // Wraps within 64 entries.
    p.write(0xFF6A, 0xBF);
    p.write(0xFF6B, 0x77);
    assert_eq!(p.read(0xFF6A), 0x80 | 0x40);
}

#[test]
fn ppu_cgb_vram_bank() {
    let (mut p, _rx) = make(GBMode::CGB);
    assert_eq!(p.read(0xFF4F), 0xFE);
    p.write(0x8000, 0x11);
    p.write(0xFF4F, 0x01);
    assert_eq!(p.read(0xFF4F), 0xFF);
    assert_eq!(p.read(0x8000), 0x00);
    p.write(0x8000, 0x22);
    p.write(0xFF4F, 0x00);
    assert_eq!(p.read(0x8000), 0x11);
}

#[test]
fn ppu_take_events_drains() {
    let (mut p, _rx) = make(GBMode::DMG);
    // LYC select with LY == LYC raises the LCD interrupt when the LCD turns on.
    p.write(0xFF41, 0x40);
    p.write(0xFF40, 0x91);
    assert_eq!(p.take_events(), (0x02, false));
    assert_eq!(p.take_events(), (0x00, false));
}

#[test]
fn ppu_oam_write_corruption() {
    let (mut p, _rx) = make(GBMode::DMG);
    // Row 0: word 0 = 0x1234, word 2 = 0x00FF; row 1: word 0 = 0xF0F0.
    for (i, v) in [(0u16, 0x34u8), (1, 0x12), (2, 0xA1), (3, 0xA2), (4, 0xFF), (5, 0x00), (6, 0xA5), (7, 0xA6), (8, 0xF0), (9, 0xF0)] {
        p.write_oam(i, v);
    }
    p.write(0xFF40, 0x91);
    // Dot 5 of OAM scan: row 1.
    p.oam_corrupt(OamGlitch::Write);
    p.write(0xFF40, 0x11);
    // ((a ^ c) & (b ^ c)) ^ c with a = 0xF0F0, b = 0x1234, c = 0x00FF.
    assert_eq!(p.read(0xFE08), 0xF4);
    assert_eq!(p.read(0xFE09), 0x10);
    // Words 1-3 copied from row 0.
    for k in 2..8u16 {
        assert_eq!(p.read(0xFE08 + k), p.read(0xFE00 + k));
    }
}

#[test]
fn ppu_oam_corruption_only_on_dmg_scan() {
    let (mut p, _rx) = make(GBMode::CGB);
    p.write_oam(8, 0x42);
    p.write(0xFF40, 0x91);
    p.oam_corrupt(OamGlitch::Read);
    p.write(0xFF40, 0x11);
    assert_eq!(p.read(0xFE08), 0x42);
}

#[test]
fn hw_ppu_bus_port() {
    let (tx, _rx) = std::sync::mpsc::channel();
    let cc: Vec<(u8, u8, u8)> = vec![(0, 0, 0); GB_COLOR_LUT_LEN];
    let mut chip = Ppu::new(GBMode::DMG, PPUConfig::new(), cc, FramebufferWriter::new(tx), false);
    let mut pins = Pins { address: 0xFF42, data: 0x77, dir: BusDir::Write, master: BusMaster::Cpu, transfer: true };
    chip.bus(&mut pins);
    let mut read = Pins { address: 0xFF42, data: 0, dir: BusDir::Read, master: BusMaster::Cpu, transfer: true };
    chip.bus(&mut read);
    assert_eq!(read.data, 0x77);
    // OAM DMA's address is not the PPU's.
    let mut dma = Pins { address: 0xFF46, data: 0, dir: BusDir::Read, master: BusMaster::Cpu, transfer: true };
    chip.bus(&mut dma);
    assert_eq!(dma.data, 0);
    // No transfer dot: nothing happens.
    let mut idle = Pins { address: 0xFF42, data: 9, dir: BusDir::Read, master: BusMaster::Cpu, transfer: false };
    chip.bus(&mut idle);
    assert_eq!(idle.data, 9);
    chip.write_oam(0, 0x33);
    chip.write_vram_dma(0x8000, 0x44);
    let mut v = Pins { address: 0x8000, data: 0, dir: BusDir::Read, master: BusMaster::Cpu, transfer: true };
    chip.bus(&mut v);
    assert_eq!(v.data, 0x44);
    chip.on_boot_rom_disabled();
    chip.bus(&mut v);
    assert_eq!(v.data, 0x00);
    // The LCD is off: advancing raises nothing.
    let t = chip.advance(true);
    assert_eq!(t.irq.bits, 0);
    assert!(!t.hblank_edge);
}

#[test]
fn ppu_stat_interrupt_only_on_rising_edge() {
    let (mut p, _rx) = make(GBMode::DMG);
    p.write(0xFF41, 0x40);
    p.write(0xFF40, 0x91);
    assert_eq!(p.take_events().0, 0x02);
    // The line is still high (LY == LYC): no new request.
    p.write(0xFF45, 0x00);
    assert_eq!(p.take_events().0, 0x00);
    // It drops, then rises again.
    p.write(0xFF45, 0x05);
    assert_eq!(p.take_events().0, 0x00);
    p.write(0xFF45, 0x00);
    assert_eq!(p.take_events().0, 0x02);
}

#[test]
fn ppu_oam_read_back_outside_scan() {
    let (mut p, _rx) = make(GBMode::DMG);
    p.write(0xFF40, 0x91);
    // OAM is locked during the OAM scan.
    p.write(0xFE05, 0x66);
    assert_eq!(p.read(0xFE05), 0xFF);
    // With the LCD off the PPU sits in mode 0 and OAM is open.
    p.write(0xFF40, 0x11);
    p.write(0xFE05, 0x66);
    assert_eq!(p.read(0xFE05), 0x66);
}

#[test]
fn ppu_ly_reads_zero_late_in_line_153() {
    let (mut p, _rx) = make(GBMode::DMG);
    p.write(0xFF40, 0x91);
    // To line 153, then four dots into it.
    p.cycle(451 + 152 * 456);
    assert_eq!(p.read(0xFF44), 153);
    p.cycle(4);
    assert_eq!(p.read(0xFF44), 0);
    // The next line is line 0 again.
    p.cycle(452);
    assert_eq!(p.read(0xFF44), 0);
    assert_eq!(p.read(0xFF41) & 0x03, 2);
}

#[test]
fn colour_curves() {
    assert_eq!(components(0x7FFF), (31, 31, 31));
    assert_eq!(components(0x0421), (1, 1, 1));
    assert_eq!(true_color(31, 0, 16), (255, 0, 132));
    assert_eq!(sgb_color(31, 0, 1), (255, 0, 2));
}
