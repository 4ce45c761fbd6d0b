use crate::components::cpu::semantics::{lemma_push_pop_round_trip, pop16, push16, reads_back, total, CpuState};
use crate::components::registers::{high_byte, low_byte};
use crate::memory::Memory;
use vstd::prelude::*;

verus! {

/// A flat 64 KiB address space of plain RAM: every address reads back the
/// last byte written to it. It serves every access, so the interpreter runs
/// over it unconditionally.
pub struct Ram {
    data: Vec<u8>,
}

impl View for Ram {
    type V = Seq<u8>;

    closed spec fn view(&self) -> Seq<u8> {
        self.data@
    }
}

impl Ram {
    #[verifier::type_invariant]
    spec fn inv(&self) -> bool {
        self.data@.len() == 0x10000
    }

    /// All 65536 bytes zero.
    pub fn new() -> (r: Ram)
        ensures
            r@ == Seq::new(0x10000, |i: int| 0u8),
    {
        let data = vec![0u8; 0x10000];
        assert(data@ =~= Seq::new(0x10000, |i: int| 0u8));
        Ram { data }
    }

    /// The size of the space: 65536 bytes.
    pub fn len(&self) -> (n: usize)
        ensures
            n == 0x10000,
            self@.len() == n,
    {
        proof {
            use_type_invariant(self);
        }
        self.data.len()
    }
}

impl Memory for Ram {
    open spec fn readable(m: Seq<u8>, a: u16) -> bool {
        true
    }

    open spec fn writable(m: Seq<u8>, a: u16, v: u8) -> bool {
        true
    }

    open spec fn peek(m: Seq<u8>, a: u16) -> u8 {
        m[a as int]
    }

    open spec fn poke(m: Seq<u8>, a: u16, v: u8) -> Seq<u8> {
        m.update(a as int, v)
    }

    fn read(&self, a: u16) -> (r: u8) {
        proof {
            use_type_invariant(self);
        }
        self.data[a as usize]
    }

    fn write(&mut self, a: u16, v: u8) {
        proof {
            use_type_invariant(&*self);
        }
        self.data[a as usize] = v;
    }
}

/// Plain RAM serves every access.
pub proof fn lemma_ram_total()
    ensures
        total::<Ram>(),
{
}

/// Plain RAM of 64 KiB reads back what was written, at any two addresses.
pub proof fn lemma_ram_reads_back(m: Seq<u8>, a: u16, b: u16)
    requires
        m.len() == 0x10000,
    ensures
        reads_back::<Ram>(m, a, b),
{
}

/// On plain RAM, PUSH leaves the word's low byte at SP - 2 and its high byte
/// at SP - 1, and POP gives it back with SP restored.
pub proof fn lemma_ram_push_pop(s: CpuState<Seq<u8>>, v: u16)
    requires
        s.mem.len() == 0x10000,
        2 <= s.reg.sp,
    ensures
        Ram::peek(push16::<Ram>(s, v).mem, (s.reg.sp - 2) as u16) == low_byte(v),
        Ram::peek(push16::<Ram>(s, v).mem, (s.reg.sp - 1) as u16) == high_byte(v),
        push16::<Ram>(s, v).reg.sp == s.reg.sp - 2,
        pop16::<Ram>(push16::<Ram>(s, v)).1 == v,
        pop16::<Ram>(push16::<Ram>(s, v)).0.reg.sp == s.reg.sp,
{
    let sp = (s.reg.sp - 2) as u16;
    lemma_ram_reads_back(s.mem, sp, (sp + 1) as u16);
    lemma_ram_reads_back(Ram::poke(s.mem, sp, low_byte(v)), (sp + 1) as u16, sp);
    lemma_push_pop_round_trip::<Ram>(s, v);
}

} // verus!
