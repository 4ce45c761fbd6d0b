use crate::bits::lemma_palette_index;
use vstd::prelude::*;

verus! {

/// A CGB palette index register (BCPS/OCPS): a 6-bit address into palette
/// RAM and whether it steps after each data write.
#[derive(Debug, Clone, Copy, PartialEq, Eq, Structural)]
pub struct BGPI {
    pub address: u8,
    pub auto_increment: bool,
}

impl BGPI {
    pub fn new() -> (r: Self)
        ensures
            r.address == 0,
            !r.auto_increment,
    {
        Self { address: 0, auto_increment: false }
    }

    /// Bit 7 is the auto-increment flag, bits 5-0 the address; bit 6 reads 0.
    pub fn read(&self) -> (r: u8)
        ensures
            r == (if self.auto_increment { 0x80u8 } else { 0u8 }) | self.address,
    {
        let a = if self.auto_increment { 0x80 } else { 0x00 };
        a | self.address
    }

    pub fn write(&mut self, v: u8)
        ensures
            final(self).auto_increment == (v & 0x80 != 0),
            final(self).address == v & 0x3F,
            final(self).address < 64,
    {
        proof { lemma_palette_index(v); }
        self.auto_increment = v & 0x80 != 0x00;
        self.address = v & 0x3F;
    }
}

/// Reading the register back gives what was written, bit 6 aside.
pub proof fn lemma_bgpi_read_back(v: u8)
    ensures
        (if (v & 0x80 != 0) { 0x80u8 } else { 0u8 }) | (v & 0x3F) == v & 0xBF,
{
    lemma_palette_index(v);
}

} // verus!
