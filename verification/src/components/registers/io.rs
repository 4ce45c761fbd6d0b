//! Addresses of the memory-mapped I/O registers.

use vstd::prelude::*;

verus! {

/// Joypad (R/W)
pub const JOYP: u16 = 0xFF00;
/// Serial transfer data (R/W)
pub const SB: u16 = 0xFF01;
/// Serial Transfer Control (R/W)
pub const SC: u16 = 0xFF02;
/// Divider Register (R/W)
pub const DIV: u16 = 0xFF04;
/// Timer counter (R/W)
pub const TIMA: u16 = 0xFF05;
/// Timer Modulo (R/W)
pub const TMA: u16 = 0xFF06;
/// Timer Control (R/W)
pub const TAC: u16 = 0xFF07;
/// Interrupt Flag (R/W)
pub const IF: u16 = 0xFF0F;
/// Channel 1 Sweep register (R/W)
pub const NR10: u16 = 0xFF10;
/// Channel 1 Sound length/Wave pattern duty (R/W)
pub const NR11: u16 = 0xFF11;
/// Channel 1 Volume Envelope (R/W)
pub const NR12: u16 = 0xFF12;
/// Channel 1 Frequency lo (Write Only)
pub const NR13: u16 = 0xFF13;
/// Channel 1 Frequency hi (R/W)
pub const NR14: u16 = 0xFF14;
/// Channel 2 Sound Length/Wave Pattern Duty (R/W)
pub const NR21: u16 = 0xFF16;
/// Channel 2 Volume Envelope (R/W)
pub const NR22: u16 = 0xFF17;
/// Channel 2 Frequency lo data (W)
pub const NR23: u16 = 0xFF18;
/// Channel 2 Frequency hi data (R/W)
pub const NR24: u16 = 0xFF19;
/// Channel 3 Sound on/off (R/W)
pub const NR30: u16 = 0xFF1A;
/// Channel 3 Sound Length
pub const NR31: u16 = 0xFF1B;
/// Channel 3 Select output level (R/W)
pub const NR32: u16 = 0xFF1C;
/// Channel 3 Frequency's lower data (W)
pub const NR33: u16 = 0xFF1D;
/// Channel 3 Frequency's higher data (R/W)
pub const NR34: u16 = 0xFF1E;
/// Channel 4 Sound Length (R/W)
pub const NR41: u16 = 0xFF20;
/// Channel 4 Volume Envelope (R/W)
pub const NR42: u16 = 0xFF21;
/// Channel 4 Polynomial Counter (R/W)
pub const NR43: u16 = 0xFF22;
/// Channel 4 Counter/consecutive, Initial (R/W)
pub const NR44: u16 = 0xFF23;
/// Channel control / ON-OFF / Volume (R/W)
pub const NR50: u16 = 0xFF24;
/// Selection of Sound output terminal (R/W)
pub const NR51: u16 = 0xFF25;
/// Sound on/off
pub const NR52: u16 = 0xFF26;
/// Wave pattern start
pub const WAV_START: u16 = 0xFF30;
/// Wave pattern end
pub const WAV_END: u16 = 0xFF3F;
/// LCD Control (R/W)
pub const LCDC: u16 = 0xFF40;
/// LCDC Status (R/W)
pub const STAT: u16 = 0xFF41;
/// Scroll Y (R/W)
pub const SCY: u16 = 0xFF42;
/// Scroll X (R/W)
pub const SCX: u16 = 0xFF43;
/// LCDC Y-Coordinate (R)
pub const LY: u16 = 0xFF44;
/// LY Compare (R/W)
pub const LYC: u16 = 0xFF45;
/// DMA Transfer and Start Address (W)
pub const DMA: u16 = 0xFF46;
/// BG Palette Data (R/W) - Non CGB Mode Only
pub const BGP: u16 = 0xFF47;
/// Object Palette 0 Data (R/W) - Non CGB Mode Only
pub const OBP0: u16 = 0xFF48;
/// Object Palette 1 Data (R/W) - Non CGB Mode Only
pub const OBP1: u16 = 0xFF49;
/// Window Y Position (R/W)
pub const WY: u16 = 0xFF4A;
/// Window X Position minus 7 (R/W)
pub const WX: u16 = 0xFF4B;
/// Controls DMG mode and PGB mode
pub const KEY0: u16 = 0xFF4C;
/// CGB Mode Only - Prepare Speed Switch
pub const KEY1: u16 = 0xFF4D;
/// CGB Mode Only - VRAM Bank
pub const VBK: u16 = 0xFF4F;
/// Write to disable the boot ROM mapping
pub const BANK: u16 = 0xFF50;
/// CGB Mode Only - New DMA Source, High
pub const HDMA1: u16 = 0xFF51;
/// CGB Mode Only - New DMA Source, Low
pub const HDMA2: u16 = 0xFF52;
/// CGB Mode Only - New DMA Destination, High
pub const HDMA3: u16 = 0xFF53;
/// CGB Mode Only - New DMA Destination, Low
pub const HDMA4: u16 = 0xFF54;
/// CGB Mode Only - New DMA Length/Mode/Start
pub const HDMA5: u16 = 0xFF55;
/// CGB Mode Only - Infrared Communications Port
pub const RP: u16 = 0xFF56;
/// CGB Mode Only - Background Palette Index
pub const BGPI: u16 = 0xFF68;
/// CGB Mode Only - Background Palette Data
pub const BGPD: u16 = 0xFF69;
/// CGB Mode Only - Object Palette Index
pub const OBPI: u16 = 0xFF6A;
/// CGB Mode Only - Object Palette Data
pub const OBPD: u16 = 0xFF6B;
/// Affects object priority (X based or index based)
pub const OPRI: u16 = 0xFF6C;
/// CGB Mode Only - WRAM Bank
pub const SVBK: u16 = 0xFF70;
/// Palette Selection Mode, controls the PSW and key combo
pub const PSM: u16 = 0xFF71;
/// X position of the palette switching window
pub const PSWX: u16 = 0xFF72;
/// Y position of the palette switching window
pub const PSWY: u16 = 0xFF73;
/// Key combo to trigger the palette switching window
pub const PSW: u16 = 0xFF74;
/// PGB pin control
pub const PGB: u16 = 0xFF75;
/// Channels 1 and 2 amplitudes
pub const PCM12: u16 = 0xFF76;
/// Channels 3 and 4 amplitudes
pub const PCM34: u16 = 0xFF77;

} // verus!
