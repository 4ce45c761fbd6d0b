use crate::bits::lemma_rgb;
use crate::components::mode::CCMode;
use vstd::prelude::*;

verus! {

/// How the PPU turns its colours into host pixels.
#[derive(Debug, Clone, Copy, PartialEq, Eq, Structural)]
pub struct PPUConfig {
    pub palette: Palette,
    pub cc_mode: CCMode,
}

impl PPUConfig {
    pub fn new() -> (r: Self)
        ensures
            r.palette == Palette::default_spec(),
            r.cc_mode == CCMode::CGB,
    {
        Self { palette: Palette::new(), cc_mode: CCMode::CGB }
    }
}

/// The four DMG shades, darkest first, and the colour of a switched-off LCD.
#[derive(Debug, Clone, Copy, PartialEq, Eq, Structural)]
pub struct Palette {
    pub dark: Color,
    pub dark_gray: Color,
    pub light_gray: Color,
    pub light: Color,
    pub off: Color,
}

impl Palette {
    /// The green shades of the original handheld.
    pub open spec fn default_spec() -> Palette {
        Palette {
            dark: Color { hex: 0x081810 },
            dark_gray: Color { hex: 0x396139 },
            light_gray: Color { hex: 0x84A563 },
            light: Color { hex: 0xC6DE8C },
            off: Color { hex: 0xD2E6A6 },
        }
    }

    pub fn new() -> (r: Self)
        ensures
            r == Palette::default_spec(),
    {
        Self {
            dark: Color::new(0x081810),
            dark_gray: Color::new(0x396139),
            light_gray: Color::new(0x84A563),
            light: Color::new(0xC6DE8C),
            off: Color::new(0xD2E6A6),
        }
    }
}

/// A colour written 0xRRGGBB.
#[derive(Debug, Clone, Copy, PartialEq, Eq, Structural)]
pub struct Color {
    pub hex: u32,
}

impl Color {
    pub fn new(hex: u32) -> (r: Self)
        ensures
            r.hex == hex,
    {
        Self { hex }
    }

    pub fn r(&self) -> (r: u8)
        ensures
            r == (self.hex / 65536) % 256,
    {
        proof { lemma_rgb(self.hex); }
        ((self.hex & 0xFF0000) >> 16u32) as u8
    }

    pub fn g(&self) -> (r: u8)
        ensures
            r == (self.hex / 256) % 256,
    {
        proof { lemma_rgb(self.hex); }
        ((self.hex & 0x00FF00) >> 8u32) as u8
    }

    pub fn b(&self) -> (r: u8)
        ensures
            r == self.hex % 256,
    {
        proof { lemma_rgb(self.hex); }
        ((self.hex & 0x0000FF) >> 0u32) as u8
    }
}

/// Which sound channels are mixed, and the master switch.
#[derive(Debug, Clone, Copy, PartialEq, Eq, Structural)]
pub struct APUConfig {
    pub master_enabled: bool,
    pub ch1_enabled: bool,
    pub ch2_enabled: bool,
    pub ch3_enabled: bool,
    pub ch4_enabled: bool,
}

impl APUConfig {
    pub fn new() -> (r: Self)
        ensures
            r.master_enabled && r.ch1_enabled && r.ch2_enabled && r.ch3_enabled && r.ch4_enabled,
    {
        Self { master_enabled: true, ch1_enabled: true, ch2_enabled: true, ch3_enabled: true, ch4_enabled: true }
    }
}

} // verus!
