pub mod apu;
pub mod mode;
pub mod ppu;
pub mod ram;
pub mod registers;
pub mod serial;
pub mod timer;
pub mod alu;
pub mod cpu;
pub mod joypad;
