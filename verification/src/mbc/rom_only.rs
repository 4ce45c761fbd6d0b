use crate::memory::Memory;
use vstd::prelude::*;

verus! {

/// A cartridge without a bank controller: the ROM image mapped as is, and
/// writes (which would go to a controller) ignored.
pub struct ROMOnly {
    rom: Vec<u8>,
}

pub struct RomOnlyView {
    pub rom: Seq<u8>,
}

impl View for ROMOnly {
    type V = RomOnlyView;

    closed spec fn view(&self) -> RomOnlyView {
        RomOnlyView { rom: self.rom@ }
    }
}

impl ROMOnly {
    pub fn new(rom: Vec<u8>) -> (r: Self)
        ensures
            r@.rom == rom@,
    {
        Self { rom }
    }
}

impl Memory for ROMOnly {
    /// A read is served where the image has a byte.
    open spec fn readable(m: RomOnlyView, a: u16) -> bool {
        a < m.rom.len()
    }

    open spec fn writable(m: RomOnlyView, a: u16, v: u8) -> bool {
        true
    }

    open spec fn peek(m: RomOnlyView, a: u16) -> u8 {
        m.rom[a as int]
    }

    open spec fn poke(m: RomOnlyView, a: u16, v: u8) -> RomOnlyView {
        m
    }

    fn read(&self, a: u16) -> (r: u8) {
        self.rom[a as usize]
    }

    fn write(&mut self, a: u16, v: u8) {
    }
}

impl ROMOnly {
    /// Whether a read of `a` is served.
    pub fn serves_read(&self, a: u16) -> (r: bool)
        ensures
            r == <ROMOnly as Memory>::readable(self@, a),
    {
        (a as usize) < self.rom.len()
    }
}

} // verus!
