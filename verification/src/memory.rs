use crate::components::registers::pair;
use crate::bits::{lemma_bytes_pair, lemma_word_bytes};
use vstd::prelude::*;

verus! {

/// A device on the CPU's address space, seen through its abstract state
/// (`View`): which accesses it serves without fault, what a read returns and
/// what a write leaves behind.
pub trait Memory: View + Sized {
    /// A read of `a` in state `m` is served (the device decodes `a` and,
    /// where it indexes storage, the index is in range).
    spec fn readable(m: Self::V, a: u16) -> bool;

    /// A write of `v` to `a` in state `m` is served.
    spec fn writable(m: Self::V, a: u16, v: u8) -> bool;

    /// The byte a read of `a` returns in state `m`.
    spec fn peek(m: Self::V, a: u16) -> u8;

    /// The state after writing `v` to `a`.
    spec fn poke(m: Self::V, a: u16, v: u8) -> Self::V;

    fn read(&self, a: u16) -> (r: u8)
        requires
            Self::readable(self@, a),
        ensures
            r == Self::peek(self@, a),
    ;

    fn write(&mut self, a: u16, v: u8)
        requires
            Self::writable(old(self)@, a, v),
        ensures
            final(self)@ == Self::poke(old(self)@, a, v),
    ;

    /// Little-endian 16-bit read of `a` and `a + 1`.
    fn read_word(&self, a: u16) -> (r: u16)
        requires
            a < 0xFFFF,
            Self::readable(self@, a),
            Self::readable(self@, (a + 1) as u16),
        ensures
            r == pair(Self::peek(self@, (a + 1) as u16), Self::peek(self@, a)),
    {
        let lo = self.read(a);
        let hi = self.read(a + 1);
        proof { lemma_bytes_pair(hi, lo); }
        (lo as u16) | ((hi as u16) << 8)
    }

    /// Little-endian 16-bit write: the low byte to `a`, then the high byte to
    /// `a + 1`.
    fn write_word(&mut self, a: u16, v: u16)
        requires
            a < 0xFFFF,
            Self::writable(old(self)@, a, (v % 256) as u8),
            Self::writable(Self::poke(old(self)@, a, (v % 256) as u8), (a + 1) as u16, (v / 256) as u8),
        ensures
            final(self)@ == Self::poke(Self::poke(old(self)@, a, (v % 256) as u8), (a + 1) as u16, (v / 256) as u8),
    {
        proof { lemma_word_bytes(v); }
        self.write(a, (v & 0xFF) as u8);
        self.write(a + 1, (v >> 8) as u8);
    }
}

} // verus!
