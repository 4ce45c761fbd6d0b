use vstd::prelude::*;

verus! {

/// How an object pixel ranks against the background under it.
#[derive(Debug, Clone, Copy, PartialEq, Eq, Structural)]
pub enum Priority {
    Color0,
    Priority,
    Normal,
}

/// The PPU mode, as STAT bits 1-0 report it.
#[derive(Debug, Clone, Copy, PartialEq, Eq, Structural)]
pub enum PPUMode {
    OAMScan,
    Draw,
    HBlank,
    VBlank,
}

impl PPUMode {
    pub open spec fn number(self) -> u8 {
        match self {
            PPUMode::HBlank => 0,
            PPUMode::VBlank => 1,
            PPUMode::OAMScan => 2,
            PPUMode::Draw => 3,
        }
    }

    /// The mode number STAT shows: HBlank 0, VBlank 1, OAM scan 2, drawing 3.
    pub fn bits(self) -> (r: u8)
        ensures
            r == self.number(),
    {
        match self {
            PPUMode::HBlank => 0,
            PPUMode::VBlank => 1,
            PPUMode::OAMScan => 2,
            PPUMode::Draw => 3,
        }
    }
}

} // verus!
