use tetsuyu::mbc::header::{CGBFlag, Destination, Header};
use tetsuyu::mbc::licensee::Licensee;
use tetsuyu::mbc::mbc1::MBC1;
use tetsuyu::mbc::mbc2::MBC2;
use tetsuyu::mbc::mbc3::MBC3;
use tetsuyu::mbc::mbc5::MBC5;
use tetsuyu::mbc::mode::{CartTypes, MBCMode};
use tetsuyu::memory::Memory;

/// A ROM whose every 16 KiB bank starts with its own bank number.
fn banked_rom(banks: usize) -> Vec<u8> {
    let mut rom = vec![0u8; banks * 0x4000];
    for b in 0..banks {
        rom[b * 0x4000] = b as u8;
    }
    rom
}

#[test]
fn mbc1_bank_switching() {
    let mut m = MBC1::new(banked_rom(8));
    assert_eq!(m.read(0x0000), 0);
    assert_eq!(m.read(0x4000), 1);
    m.write(0x2000, 0x05);
    assert_eq!(m.read(0x4000), 5);
    // Bank 0 in the low register selects bank 1.
    m.write(0x2000, 0x00);
    assert_eq!(m.read(0x4000), 1);
    // Padding beyond the image reads as 0.
    m.write(0x2000, 0x1F);
    assert_eq!(m.read(0x4001), 0);
}

#[test]
fn mbc1_ram_needs_enable_and_reads_back() {
    let mut m = MBC1::new(banked_rom(2));
    m.write(0xA000, 0x42);
    assert_eq!(m.read(0xA000), 0x00);
    m.write(0x0000, 0x0A);
    m.write(0xA000, 0x42);
    assert_eq!(m.read(0xA000), 0x42);
    // RAM mode with bank 2 selected maps another RAM bank.
    m.write(0x6000, 0x01);
    m.write(0x4000, 0x02);
    assert_eq!(m.read(0xA000), 0x00);
    m.write(0xA000, 0x77);
    m.write(0x4000, 0x00);
    assert_eq!(m.read(0xA000), 0x42);
    m.write(0x4000, 0x02);
    assert_eq!(m.read(0xA000), 0x77);
    m.write(0x0000, 0x00);
    assert_eq!(m.read(0xA000), 0x00);
}

#[test]
fn mbc2_keeps_nibbles() {
    let mut m = MBC2::new(banked_rom(16));
    assert_eq!(m.read(0x4000), 1);
    m.write(0x2100, 0x03);
    assert_eq!(m.read(0x4000), 3);
    m.write(0x0000, 0x0A);
    m.write(0xA010, 0xAB);
    assert_eq!(m.read(0xA010), 0x0B);
}

#[test]
fn mbc3_banks_and_ram() {
    let mut m = MBC3::new(banked_rom(8));
    assert_eq!(m.read(0x4000), 1);
    m.write(0x2000, 0x07);
    assert_eq!(m.read(0x4000), 7);
    m.write(0x0000, 0x0A);
    m.write(0x4000, 0x03);
    m.write(0xB000, 0x99);
    assert_eq!(m.read(0xB000), 0x99);
    // Clock registers: write seconds, read back.
    m.write(0x4000, 0x08);
    m.write(0xA000, 30);
    assert_eq!(m.read(0xA000), 30);
    m.latch_clock(0);
    assert_eq!(m.read(0xA000), 30);
}

#[test]
fn mbc3_latch_reads_host_clock() {
    let mut m = MBC3::new(banked_rom(2));
    m.write(0x0000, 0x0A);
    m.latch_clock(1);
    m.write(0x4000, 0x08);
    assert!(m.read(0xA000) < 60);
    m.write(0x4000, 0x0A);
    assert!(m.read(0xA000) < 24);
}

#[test]
fn mbc5_nine_bit_bank() {
    let mut m = MBC5::new(banked_rom(4));
    assert_eq!(m.read(0x4000), 0);
    m.write(0x2000, 0x03);
    assert_eq!(m.read(0x4000), 3);
    m.write(0x0000, 0x0A);
    m.write(0x4000, 0x0F);
    m.write(0xBFFF, 0x5A);
    assert_eq!(m.read(0xBFFF), 0x5A);
    m.write(0x4000, 0x00);
    assert_eq!(m.read(0xBFFF), 0x00);
}

#[test]
fn cart_type_table() {
    assert_eq!(CartTypes::from_u8(0x13), Some(CartTypes::MBC3RamBat));
    assert_eq!(CartTypes::from_u8(0x04), None);
    assert_eq!(CartTypes::MBC3RamBat.get_mbc(), MBCMode::MBC3);
    assert_eq!(CartTypes::MBC2Bat.get_mbc(), MBCMode::MBC2);
    assert_eq!(CartTypes::HuC3.get_mbc(), MBCMode::Unsupported);
    assert_eq!(CartTypes::MBC1RamBat.name(), "MBC1+RAM+BATTERY");
    assert_eq!(MBCMode::RomOnly.name(), "ROM Only");
}

#[test]
fn licensee_codes() {
    assert_eq!(Licensee::old_licensee(0x01), Some(Licensee::Nintendo));
    assert_eq!(Licensee::old_licensee(0x33), None);
    assert_eq!(Licensee::old_licensee(0x02), Some(Licensee::Unknown));
    assert_eq!(Licensee::new_licensee("01"), Licensee::Nintendo);
    assert_eq!(Licensee::new_licensee("A4"), Licensee::KonamiYuGiOh);
    assert_eq!(Licensee::new_licensee("ZZ"), Licensee::Unknown);
    assert_eq!(Licensee::new_licensee("0"), Licensee::Unknown);
    assert_eq!(Licensee::ElectronicArts.name(), "EA (Electronic Arts)");
    assert_eq!(Licensee::NoneListed.name(), "None");
}

fn header_bytes() -> Vec<u8> {
    let mut rom = vec![0u8; 0x150];
    rom[0x134..0x13A].copy_from_slice(b"TETRIS");
    rom[0x13F..0x143].copy_from_slice(b"ABCD");
    rom[0x143] = 0x80;
    rom[0x144] = b'0';
    rom[0x145] = b'1';
    rom[0x146] = 0x03;
    rom[0x147] = 0x01;
    rom[0x148] = 0x02;
    rom[0x149] = 0x03;
    rom[0x14A] = 0x01;
    rom[0x14B] = 0x33;
    rom
}

#[test]
fn header_parses_fields() {
    let h = Header::new(header_bytes());
    assert_eq!(h.cart_type, CartTypes::MBC1);
    assert_eq!(h.licensee, Licensee::Nintendo);
    assert_eq!(h.destination, Destination::Oveseas);
    assert_eq!((h.rom_size, h.ram_size), (2, 3));
    assert_eq!(h.title, "TETRIS\0\0\0\0\0");
    assert_eq!(h.manufacturer_code, "ABCD");
    assert_eq!(h.cgb_flag, CGBFlag::BackwardsCompatible);
    assert!(h.sgb_flag);
}

#[test]
fn header_old_licensee_and_dmg_flag() {
    let mut rom = header_bytes();
    rom[0x14B] = 0x08;
    rom[0x143] = 0x00;
    rom[0x14A] = 0x00;
    rom[0x146] = 0x00;
    let h = Header::new(rom);
    assert_eq!(h.licensee, Licensee::Capcom);
    assert_eq!(h.cgb_flag, CGBFlag::DMGOnly);
    assert_eq!(h.destination, Destination::Japan);
    assert!(!h.sgb_flag);
}

#[test]
fn header_lossy_title() {
    let mut rom = header_bytes();
    rom[0x134] = 0xFF;
    let h = Header::new(rom);
    assert!(h.title.starts_with('\u{FFFD}'));
}
