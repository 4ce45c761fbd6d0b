use tetsuyu::components::joypad::JoypadButton;
use tetsuyu::components::mode::GBMode;
use tetsuyu::hw::bus::{BusDir, BusMaster, Pins};
use tetsuyu::hw::sysbus::SystemBus;
use tetsuyu::mbc::cartridge::Cartridge;
use tetsuyu::mbc::mode::MBCMode;

fn rom() -> Vec<u8> {
    let mut rom = vec![0u8; 4 * 0x4000];
    for b in 0..4 {
        rom[b * 0x4000] = b as u8;
    }
    rom[0x0100] = 0xC3;
    rom
}

fn boot() -> Vec<u8> {
    (0..0x900).map(|i| (i % 251) as u8).collect()
}

fn bus(mode: GBMode) -> SystemBus {
    let cart = Cartridge::from_rom(rom(), MBCMode::MBC5).unwrap();
    SystemBus::new(cart, boot(), false, mode)
}

fn read(b: &mut SystemBus, a: u16) -> u8 {
    let mut p = Pins { address: a, data: 0, dir: BusDir::Read, master: BusMaster::Cpu, transfer: true };
    b.bus(&mut p);
    p.data
}

fn write(b: &mut SystemBus, a: u16, v: u8) {
    let mut p = Pins { address: a, data: v, dir: BusDir::Write, master: BusMaster::Cpu, transfer: true };
    b.bus(&mut p);
}

#[test]
fn cartridge_kinds() {
    assert!(Cartridge::from_rom(rom(), MBCMode::MBC1).is_some());
    let mut plain = Cartridge::from_rom(rom(), MBCMode::RomOnly).unwrap();
    assert_eq!(plain.read(0x4000), 1);
    // Writes go nowhere.
    plain.write(0x2000, 3);
    assert_eq!(plain.read(0x4000), 1);
    assert!(Cartridge::from_rom(rom(), MBCMode::MBC2).is_some());
    assert!(Cartridge::from_rom(rom(), MBCMode::MBC3).is_some());
    assert!(Cartridge::from_rom(rom(), MBCMode::Unsupported).is_none());
    assert!(Cartridge::from_rom(vec![0u8; 0x20_0001], MBCMode::MBC1).is_none());
    let mut c = Cartridge::from_rom(rom(), MBCMode::MBC3).unwrap();
    c.write(0x2000, 2);
    assert_eq!(c.read(0x4000), 2);
    // A clock latch write is served.
    c.write(0x6000, 1);
    assert_eq!(c.read(0x0100), 0xC3);
}

#[test]
fn boot_rom_overlay_until_unmapped() {
    let mut b = bus(GBMode::DMG);
    assert_eq!(read(&mut b, 0x0005), 5);
    // The cartridge header is never overlaid.
    assert_eq!(read(&mut b, 0x0100), 0xC3);
    // On a DMG the upper boot area is the cartridge's.
    assert_eq!(read(&mut b, 0x0200), 0);
    write(&mut b, 0xFF50, 1);
    assert!(b.take_boot_disabled());
    assert!(!b.take_boot_disabled());
    assert_eq!(read(&mut b, 0x0005), 0);
}

#[test]
fn cgb_boot_overlay_covers_upper_area() {
    let mut b = bus(GBMode::CGB);
    assert_eq!(read(&mut b, 0x0200), (0x200 % 251) as u8);
    b.disable_boot();
    assert_eq!(read(&mut b, 0x0200), 0);
}

#[test]
fn wram_banks_and_echo() {
    let mut b = bus(GBMode::CGB);
    write(&mut b, 0xC010, 0x11);
    assert_eq!(read(&mut b, 0xE010), 0x11);
    write(&mut b, 0xD000, 0x21);
    write(&mut b, 0xFF70, 0x03);
    assert_eq!(read(&mut b, 0xFF70), 0xFB);
    assert_eq!(read(&mut b, 0xD000), 0x00);
    write(&mut b, 0xD000, 0x23);
    // Bank 0 selects bank 1.
    write(&mut b, 0xFF70, 0x00);
    assert_eq!(read(&mut b, 0xD000), 0x21);
    assert_eq!(read(&mut b, 0xF000), 0x21);
}

#[test]
fn dmg_ignores_cgb_registers() {
    let mut b = bus(GBMode::DMG);
    write(&mut b, 0xFF70, 0x03);
    assert_eq!(read(&mut b, 0xFF70), 0xFF);
    assert_eq!(read(&mut b, 0xFF4D), 0xFF);
    assert_eq!(read(&mut b, 0xFF56), 0xFF);
    assert_eq!(read(&mut b, 0xFEA0), 0xFF);
}

#[test]
fn speed_switch_needs_arming() {
    let mut b = bus(GBMode::CGB);
    assert_eq!(read(&mut b, 0xFF4D), 0x7E);
    b.try_speed_switch();
    assert!(!b.double_speed());
    write(&mut b, 0xFF4D, 0x01);
    assert_eq!(read(&mut b, 0xFF4D), 0x7F);
    b.try_speed_switch();
    assert!(b.double_speed());
    assert_eq!(read(&mut b, 0xFF4D), 0xFE);
}

#[test]
fn hram_infrared_and_serial() {
    let mut b = bus(GBMode::CGB);
    write(&mut b, 0xFF80, 0x42);
    assert_eq!(b.peek(0xFF80), 0x42);
    write(&mut b, 0xFF56, 0xFF);
    assert_eq!(read(&mut b, 0xFF56), 0xC1 | 0x3E);
    write(&mut b, 0xFF01, b'A');
    write(&mut b, 0xFF02, 0x81);
    assert_eq!(b.serial_output(), b"A");
}

#[test]
fn joypad_through_the_bus() {
    let mut b = bus(GBMode::DMG);
    // Select the buttons; pressing A clears bit 0 and requests an interrupt.
    write(&mut b, 0xFF00, 0x10);
    b.joypad_down(JoypadButton::a());
    assert_eq!(read(&mut b, 0xFF00) & 0x01, 0);
    let t = b.advance(true);
    assert_eq!(t.irq.bits, 0x10);
    assert_eq!(b.advance(true).irq.bits, 0);
    b.joypad_up(JoypadButton::a());
    assert_eq!(read(&mut b, 0xFF00) & 0x01, 1);
}

#[test]
fn bus_ignores_other_addresses() {
    let mut b = bus(GBMode::DMG);
    let mut p = Pins { address: 0xFF40, data: 7, dir: BusDir::Read, master: BusMaster::Cpu, transfer: true };
    b.bus(&mut p);
    assert_eq!(p.data, 7);
}
