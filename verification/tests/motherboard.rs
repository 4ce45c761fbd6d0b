use tetsuyu::components::mode::GBMode;
use tetsuyu::components::ppu::ppu::GB_COLOR_LUT_LEN;
use tetsuyu::config::PPUConfig;
use tetsuyu::framebuffer::FramebufferWriter;
use tetsuyu::harness::{Harness, RunOutcome, StopCondition};
use tetsuyu::hw::motherboard::{Fault, Motherboard};
use tetsuyu::hw::ppu::Ppu;
use tetsuyu::hw::sysbus::SystemBus;
use tetsuyu::mbc::cartridge::Cartridge;
use tetsuyu::mbc::mode::MBCMode;

/// A ROM-only machine (boot ROM unmapped) running `program` from 0x0000,
/// where the CPU starts.
fn machine(program: &[u8]) -> Harness {
    let mut rom = vec![0u8; 0x8000];
    rom[..program.len()].copy_from_slice(program);
    let cart = Cartridge::from_rom(rom, MBCMode::RomOnly).unwrap();
    let mut sysbus = SystemBus::new(cart, vec![0u8; 0x900], false, GBMode::DMG);
    sysbus.disable_boot();
    let (tx, _rx) = std::sync::mpsc::channel();
    let cc: Vec<(u8, u8, u8)> = vec![(0, 0, 0); GB_COLOR_LUT_LEN];
    let ppu = Ppu::new(GBMode::DMG, PPUConfig::new(), cc, FramebufferWriter::new(tx), false);
    Harness::new(Motherboard::new(GBMode::DMG, ppu, sysbus))
}

#[test]
fn runs_to_magic_breakpoint() {
    // LD A,0x42; LD (0xC000),A; LD B,B; JR -2
    let mut h = machine(&[0x3E, 0x42, 0xEA, 0x00, 0xC0, 0x40, 0x18, 0xFE]);
    assert_eq!(h.run_until(StopCondition::MagicBreak, 10_000), Ok(RunOutcome::Met));
    assert!(h.magic_break());
    assert_eq!(h.peek(0xC000), Some(0x42));
    assert_eq!(h.cpu_regs().a, 0x42);
    // The first fetch, then 2 + 4 + 1 M-cycles up to the fetch after LD B,B.
    assert_eq!(h.cycles(), 32);
}

#[test]
fn register_stop_condition() {
    // LD A,7; LD (0xC010),A; JR -2
    let mut h = machine(&[0x3E, 0x07, 0xEA, 0x10, 0xC0, 0x18, 0xFE]);
    let stop = StopCondition::RegisterEquals { addr: 0xC010, value: 7 };
    assert_eq!(h.run_until(stop, 10_000), Ok(RunOutcome::Met));
    assert_eq!(h.peek(0xC010), Some(7));
}

#[test]
fn halt_without_interrupts_times_out() {
    // HALT with nothing enabled: the CPU never fetches again.
    let mut h = machine(&[0x76]);
    assert_eq!(h.run_until(StopCondition::MagicBreak, 400), Ok(RunOutcome::TimedOut));
    assert!(h.cycles() >= 400);
}

#[test]
fn cycle_stop_condition() {
    // JR -2 forever: three M-cycles an instruction.
    let mut h = machine(&[0x18, 0xFE]);
    assert_eq!(h.run_until(StopCondition::Cycles(100), 1000), Ok(RunOutcome::Met));
    assert!(h.cycles() >= 100 && h.cycles() < 112);
}

#[test]
fn frames_need_the_lcd() {
    // The LCD is off: no frame is handed over however long it runs.
    let mut h = machine(&[0x18, 0xFE]);
    assert_eq!(h.run_until(StopCondition::Frames(1), 80_000), Ok(RunOutcome::TimedOut));
}

#[test]
fn frames_counted_with_lcd_on() {
    // LD A,0x91; LDH (0x40),A; JR -2: one frame is 70224 dots.
    let mut h = machine(&[0x3E, 0x91, 0xE0, 0x40, 0x18, 0xFE]);
    assert_eq!(h.run_until(StopCondition::Frames(2), 200_000), Ok(RunOutcome::Met));
    assert!(h.cycles() > 70_224);
}

#[test]
fn illegal_opcode_faults() {
    let mut h = machine(&[0xD3]);
    assert_eq!(h.run_until(StopCondition::MagicBreak, 1000), Err(Fault::IllegalOpcode(0xD3)));
}
