use tetsuyu::components::apu::period_timer::PeriodTimer;
use tetsuyu::components::joypad::{Joypad, JoypadButton};
use tetsuyu::components::mode::GBMode;
use tetsuyu::components::ppu::bgpi::BGPI;
use tetsuyu::components::ppu::structs::PPUMode;
use tetsuyu::components::serial::Serial;
use tetsuyu::components::timer::Timer;
use tetsuyu::config::{APUConfig, Color, PPUConfig, Palette};
use tetsuyu::hw::bus::{BusDir, Chip, Pins};
use tetsuyu::hw::dma::Dma;
use tetsuyu::hw::interrupt::{InterruptController, Interrupts};
use tetsuyu::memory::Memory;

#[test]
fn period_timer_signals_every_period() {
    let mut t = PeriodTimer::new();
    t.set(4);
    let fired: Vec<bool> = (0..8).map(|_| t.tick(4)).collect();
    assert_eq!(fired, vec![false, false, false, true, false, false, false, true]);
    assert_eq!(t.remaining(), 4);
}

#[test]
fn period_timer_from_zero_fires_at_once() {
    let mut t = PeriodTimer::new();
    assert!(t.tick(10));
    assert_eq!(t.remaining(), 10);
}

#[test]
fn joypad_press_selects_and_interrupts() {
    let mut j = Joypad::new();
    assert_eq!(j.read(0xFF00), 0x0F);
    // Select the buttons (P15 low).
    j.write(0xFF00, 0x10);
    assert_eq!(j.read(0xFF00), 0x10 | 0x0F);
    j.down(JoypadButton::a());
    assert_eq!(j.read(0xFF00), 0x10 | 0x0E);
    assert_eq!(j.interrupts.bits(), 0x10);
    j.up(JoypadButton::a());
    assert_eq!(j.read(0xFF00), 0x1F);
}

#[test]
fn joypad_nothing_selected_reads_released() {
    let mut j = Joypad::new();
    j.write(0xFF00, 0x30);
    // Neither P14 nor P15 low: no input line low, and no interrupt.
    assert_eq!(j.read(0xFF00), 0x3F);
    assert_eq!(j.interrupts.bits(), 0);
    j.down(JoypadButton::a());
    assert_eq!(j.read(0xFF00), 0x3F);
    assert_eq!(j.interrupts.bits(), 0);
}

#[test]
fn serial_transfer_captures_byte() {
    let mut s = Serial::new(false, GBMode::DMG);
    s.write(0xFF01, b'H');
    s.write(0xFF02, 0x81);
    s.write(0xFF01, b'i');
    s.write(0xFF02, 0x01);
    s.write(0xFF02, 0x81);
    assert_eq!(s.output(), b"Hi");
    assert_eq!(s.read(0xFF02), 0x7E | 0x81);
    let c = Serial::new(false, GBMode::CGB);
    assert_eq!(c.read(0xFF02), 0x7C);
}

#[test]
fn legacy_timer_counts_edges() {
    let mut t = Timer::new();
    // Enabled, bit 3 selected: TIMA steps every 16 T-cycles.
    t.write(0xFF07, 0x05);
    t.cycle(1024);
    assert_eq!(t.read(0xFF05), 64);
    assert_eq!(t.div(), 4);
}

#[test]
fn legacy_timer_overflow_reloads_and_interrupts() {
    let mut t = Timer::new();
    t.write(0xFF06, 0xF0);
    t.write(0xFF05, 0xFF);
    t.write(0xFF07, 0x05);
    t.cycle(16);
    assert_eq!(t.read(0xFF05), 0xF0);
    assert_eq!(t.interrupts.bits(), 0x04);
}

#[test]
fn legacy_timer_counts_only_real_edges_across_wrap() {
    let mut t = Timer::new();
    // Timer off: run the counter to 0xFFF0.
    t.cycle(0xFFF0);
    assert_eq!(t.read(0xFF04), 0xFF);
    t.write(0xFF07, 0x05);
    // 0x20 cycles cross the wrap: exactly two falling edges of bit 3.
    t.cycle(0x20);
    assert_eq!(t.read(0xFF05), 2);
    assert_eq!(t.read(0xFF04), 0x00);
    // A batch longer than the counter's range counts every edge.
    t.cycle(0x2_0000);
    assert_eq!(t.read(0xFF05), 2);
    assert_eq!(t.interrupts.bits(), 0x04);
}

#[test]
fn legacy_timer_div_write_resets() {
    let mut t = Timer::new();
    t.cycle(0x1234);
    assert_eq!(t.read(0xFF04), 0x12);
    t.write(0xFF04, 0x99);
    assert_eq!(t.read(0xFF04), 0);
    assert_eq!(t.read(0xFF07), 0xF8);
}

#[test]
fn bgpi_round_trip() {
    let mut b = BGPI::new();
    assert_eq!(b.read(), 0);
    b.write(0xFF);
    assert_eq!(b.read(), 0xBF);
    assert_eq!(b.address, 0x3F);
    b.write(0x05);
    assert_eq!(b.read(), 0x05);
}

#[test]
fn ppu_mode_numbers() {
    assert_eq!(PPUMode::HBlank.bits(), 0);
    assert_eq!(PPUMode::VBlank.bits(), 1);
    assert_eq!(PPUMode::OAMScan.bits(), 2);
    assert_eq!(PPUMode::Draw.bits(), 3);
}

#[test]
fn colour_channels() {
    let c = Color::new(0x84A563);
    assert_eq!((c.r(), c.g(), c.b()), (0x84, 0xA5, 0x63));
    let p = Palette::new();
    assert_eq!(p.dark.hex, 0x081810);
    assert_eq!(p.off.hex, 0xD2E6A6);
    let ppu = PPUConfig::new();
    assert_eq!(ppu.palette.light.hex, 0xC6DE8C);
    let apu = APUConfig::new();
    assert!(apu.master_enabled && apu.ch4_enabled);
}

#[test]
fn interrupt_priority_lowest_bit() {
    let i = Interrupts::from_bits_retain(0b0001_0110);
    let (vector, bit) = i.highest().unwrap();
    assert_eq!(vector, 0x0048);
    assert_eq!(bit.bits(), 0x02);
    assert!(Interrupts::empty().highest().is_none());
    assert_eq!(Interrupts::from_bits_truncate(0xFF).bits(), 0x1F);
}

fn write_pins(address: u16, data: u8) -> Pins {
    let mut p = Pins::new();
    p.address = address;
    p.data = data;
    p.dir = BusDir::Write;
    p.transfer = true;
    p
}

#[test]
fn oam_dma_setup_then_copies() {
    let mut d = Dma::new(GBMode::DMG);
    let mut p = write_pins(0xFF46, 0xC1);
    d.bus(&mut p);
    assert!(d.oam_active);
    assert_eq!(d.oam_next(), None);
    assert_eq!(d.oam_next(), Some(0xC100));
    d.oam_feed(0);
    assert_eq!(d.oam_next(), Some(0xC101));
    assert!(d.oam_conflict(0xFE00));
    assert!(!d.oam_conflict(0xC000));
    for _ in 0..159 {
        d.oam_feed(0);
    }
    assert_eq!(d.oam_next(), None);
    assert!(!d.oam_active);
}

#[test]
fn hdma_general_purpose_request() {
    let mut d = Dma::new(GBMode::CGB);
    d.bus(&mut write_pins(0xFF51, 0x12));
    d.bus(&mut write_pins(0xFF52, 0x3F));
    d.bus(&mut write_pins(0xFF53, 0xFF));
    d.bus(&mut write_pins(0xFF54, 0x41));
    d.bus(&mut write_pins(0xFF55, 0x01));
    assert!(d.take_gpdma());
    assert!(!d.take_gpdma());
    assert_eq!(d.hdma_len(), 0x01);
    let block = d.hdma_block();
    assert_eq!(block.len(), 16);
    assert_eq!(block[0], (0x1230, 0x9F40));
    assert_eq!(block[15], (0x123F, 0x9F4F));
    assert_eq!(d.hdma_len(), 0x00);
    d.hdma_block();
    assert_eq!(d.hdma_len(), 0xFF);
}

#[test]
fn interrupt_controller_request_and_acknowledge() {
    let mut ic = InterruptController::new();
    ic.request(Interrupts::timer());
    ic.request(Interrupts::v_blank());
    // Nothing is enabled yet.
    assert!(ic.pending().is_empty());
    let mut p = Pins::new();
    p.address = 0xFFFF;
    p.data = 0xFF;
    p.dir = BusDir::Write;
    p.transfer = true;
    ic.bus(&mut p);
    assert_eq!(ic.pending().bits(), 0x05);
    let (vector, bit) = ic.pending().highest().unwrap();
    assert_eq!(vector, 0x0040);
    ic.acknowledge(bit);
    assert_eq!(ic.pending().bits(), 0x04);
    // IF reads its unused upper bits as 1.
    let mut r = Pins::new();
    r.address = 0xFF0F;
    r.dir = BusDir::Read;
    r.transfer = true;
    ic.bus(&mut r);
    assert_eq!(r.data, 0xE4);
}
