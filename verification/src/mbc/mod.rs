pub mod licensee;
pub mod mode;
pub mod mbc1;
pub mod mbc2;
pub mod mbc5;
pub mod mbc3;
pub mod header;
pub mod cartridge;
pub mod rom_only;
