use crate::bits::{lemma_byte_masks, lemma_truncate_u32, lemma_word_bytes};
use crate::hw::interrupt::Interrupts;
use crate::hw::timer::{tac_bit, timer_mux};
use crate::memory::Memory;
use vstd::arithmetic::div_mod::lemma_div_is_ordered;
use vstd::arithmetic::power2::{lemma2_to64, pow2};
use vstd::prelude::*;

verus! {

/// DIV/TIMA/TMA/TAC stepped a batch of T-cycles at a time: TIMA counts the
/// falling edges of the counter bit TAC selects, and on overflow reloads
/// from TMA and requests the timer interrupt.
pub struct Timer {
    counter: u16,
    tima: u8,
    tma: u8,
    tac: u8,
    pub interrupts: Interrupts,
}

pub struct TimerState {
    pub counter: u16,
    pub tima: u8,
    pub tma: u8,
    pub tac: u8,
    pub interrupts: u8,
}

impl View for Timer {
    type V = TimerState;

    closed spec fn view(&self) -> TimerState {
        TimerState {
            counter: self.counter,
            tima: self.tima,
            tma: self.tma,
            tac: self.tac,
            interrupts: self.interrupts.bits,
        }
    }
}

/// TIMA after `n` increments, and whether any of them overflowed (each
/// overflow reloads TMA).
pub open spec fn tima_steps(tima: u8, tma: u8, n: nat) -> (u8, bool)
    decreases n,
{
    if n == 0 {
        (tima, false)
    } else {
        let (t, overflowed) = tima_steps(tima, tma, (n - 1) as nat);
        if t == 255 {
            (tma, true)
        } else {
            ((t + 1) as u8, overflowed)
        }
    }
}

/// The timer after `n` TIMA increments.
pub open spec fn tima_incremented(m: TimerState, n: nat) -> TimerState {
    let (t, overflowed) = tima_steps(m.tima, m.tma, n);
    TimerState { tima: t, interrupts: if overflowed { m.interrupts | 0x04 } else { m.interrupts }, ..m }
}

/// The period, in T-cycles, of the counter bit TAC selects: one falling
/// edge of that bit per period.
pub open spec fn edge_period(tac: u8) -> int {
    if tac & 0x03 == 0 {
        1024
    } else if tac & 0x03 == 1 {
        16
    } else if tac & 0x03 == 2 {
        64
    } else {
        256
    }
}

/// The falling edges of the selected counter bit while the counter runs
/// `cycles` T-cycles on from `counter`: floor((C + k) / P) - floor(C / P),
/// also across the counter's wrap.
pub open spec fn timer_edges(counter: u16, cycles: u32, tac: u8) -> nat {
    ((counter + cycles) / edge_period(tac) - (counter as int) / edge_period(tac)) as nat
}

/// The input clock TAC selects, in Hz, with the CPU clocked at 4194304 Hz.
pub open spec fn tac_frequency(tac: u8) -> int {
    if tac % 4 == 0 {
        4096
    } else if tac % 4 == 1 {
        262144
    } else if tac % 4 == 2 {
        65536
    } else {
        16384
    }
}

/// TIMA counts the falling edges of the counter bit the TAC mux selects:
/// that bit falls once every 2^(bit + 1) T-cycles, so a run of `cycles`
/// from `counter` gives floor((C + k) / 2^(bit + 1)) - floor(C / 2^(bit + 1))
/// increments, at the input clock TAC names (4194304 Hz divided by the
/// period).
pub proof fn lemma_timer_rate(counter: u16, cycles: u32, tac: u8)
    ensures
        timer_edges(counter, cycles, tac) == (counter + cycles) / (pow2((tac_bit(tac) + 1) as nat) as int) - (counter as int)
            / (pow2((tac_bit(tac) + 1) as nat) as int),
        edge_period(tac) * tac_frequency(tac) == 4194304,
{
    lemma2_to64();
    assert(tac & 0x03 == tac % 4) by (bit_vector);
    let p = pow2((tac_bit(tac) + 1) as nat) as int;
    assert(edge_period(tac) == p);
    assert((counter + cycles) / edge_period(tac) >= (counter as int) / edge_period(tac)) by {
        lemma_div_is_ordered(counter as int, counter + cycles, edge_period(tac));
    }
}

impl Timer {
    pub fn new() -> (r: Self)
        ensures
            r@ == (TimerState { counter: 0, tima: 0, tma: 0, tac: 0, interrupts: 0 }),
    {
        Self { counter: 0, tima: 0, tma: 0, tac: 0, interrupts: Interrupts::empty() }
    }

    /// DIV: the upper byte of the counter.
    pub fn div(&self) -> (r: u8)
        ensures
            r == self@.counter / 256,
    {
        proof { lemma_word_bytes(self.counter); }
        (self.counter >> 8) as u8
    }

    fn tac_bit(tac: u8) -> (r: u16)
        ensures
            r == tac_bit(tac),
    {
        proof { lemma_byte_masks(tac); }
        match tac & 0b0000_0011 {
            0 => 9,
            1 => 3,
            2 => 5,
            _ => 7,
        }
    }

    fn mux(&self, tac: u8) -> (r: bool)
        ensures
            r == timer_mux(self@.counter, tac),
    {
        (tac & 0b0000_0100 != 0) && (self.counter >> Self::tac_bit(tac)) & 1 != 0
    }

    fn tima_inc(&mut self, times: u32)
        ensures
            final(self)@ == tima_incremented(old(self)@, times as nat),
    {
        let ghost start = self@;
        for i in 0..times
            invariant
                self@ == tima_incremented(start, i as nat),
        {
            let ghost before = self@;
            self.tima = self.tima.wrapping_add(1);
            if self.tima == 0 {
                self.tima = self.tma;
                self.interrupts = self.interrupts.union(Interrupts::timer());
            }
            proof {
                let (t, o) = tima_steps(start.tima, start.tma, i as nat);
                assert(tima_steps(start.tima, start.tma, (i + 1) as nat) == (if t == 255 {
                    (start.tma, true)
                } else {
                    ((t + 1) as u8, o)
                }));
                lemma_or_timer_idempotent(start.interrupts);
            }
        }
    }

    /// The T-cycles between falling edges of the counter bit TAC selects.
    fn edge_period(tac: u8) -> (r: u64)
        ensures
            r == edge_period(tac),
    {
        proof { lemma_byte_masks(tac); }
        match tac & 0b0000_0011 {
            0 => 1024,
            1 => 16,
            2 => 64,
            _ => 256,
        }
    }

    /// Advances the counter by `cycles` T-cycles (mod 2^16) and, with the
    /// timer enabled, clocks TIMA once per falling edge of the selected bit.
    pub fn cycle(&mut self, cycles: u32)
        ensures
            ({
                let counter = ((old(self)@.counter as int + cycles as int) % 65536) as u16;
                let moved = TimerState { counter, ..old(self)@ };
                final(self)@ == if old(self)@.tac & 0x04 != 0 {
                    tima_incremented(moved, timer_edges(old(self)@.counter, cycles, old(self)@.tac))
                } else {
                    moved
                }
            }),
    {
        let old = self.counter;
        let step = cycles as u16;
        proof { lemma_truncate_u32(cycles); }
        self.counter = self.counter.wrapping_add(step);

        if self.tac & 0b0000_0100 != 0 {
            // Count the edges on the unwrapped count, so a counter that wraps
            // during the batch is clocked only for the edges that happened.
            let period = Self::edge_period(self.tac);
            let start = old as u64;
            let end = start + cycles as u64;
            proof {
                lemma_div_is_ordered(start as int, end as int, period as int);
                assert(end / period <= end) by (nonlinear_arith)
                    requires
                        period >= 1;
            }
            let edges = end / period - start / period;
            self.tima_inc(edges as u32);
        }
    }
}

/// Requesting the timer interrupt again changes nothing.
proof fn lemma_or_timer_idempotent(b: u8)
    ensures
        (b | 0x04) | 0x04 == b | 0x04,
{
    crate::bits::lemma_or_idempotent(b, 0x04);
}

impl Memory for Timer {
    open spec fn readable(m: TimerState, a: u16) -> bool {
        0xFF04 <= a <= 0xFF07
    }

    open spec fn writable(m: TimerState, a: u16, v: u8) -> bool {
        0xFF04 <= a <= 0xFF07
    }

    open spec fn peek(m: TimerState, a: u16) -> u8 {
        if a == 0xFF04 {
            (m.counter / 256) as u8
        } else if a == 0xFF05 {
            m.tima
        } else if a == 0xFF06 {
            m.tma
        } else {
            0xF8 | m.tac
        }
    }

    /// Writing DIV clears the counter, and writing TAC may change the
    /// selected bit; either can drop the TIMA clock line from 1 to 0, which
    /// ticks TIMA once.
    open spec fn poke(m: TimerState, a: u16, v: u8) -> TimerState {
        if a == 0xFF04 {
            let ticked = if timer_mux(m.counter, m.tac) { tima_incremented(m, 1) } else { m };
            TimerState { counter: 0, ..ticked }
        } else if a == 0xFF05 {
            TimerState { tima: v, ..m }
        } else if a == 0xFF06 {
            TimerState { tma: v, ..m }
        } else {
            let n = TimerState { tac: v & 0x07, ..m };
            if timer_mux(m.counter, m.tac) && !timer_mux(m.counter, v & 0x07) {
                tima_incremented(n, 1)
            } else {
                n
            }
        }
    }

    fn read(&self, a: u16) -> (r: u8) {
        proof { lemma_word_bytes(self.counter); }
        if a == 0xFF04 {
            (self.counter >> 8) as u8
        } else if a == 0xFF05 {
            self.tima
        } else if a == 0xFF06 {
            self.tma
        } else {
            0xF8 | self.tac
        }
    }

    fn write(&mut self, a: u16, v: u8) {
        if a == 0xFF04 {
            // Resetting DIV can drop the mux output 1->0 and tick TIMA.
            if self.mux(self.tac) {
                self.tima_inc(1);
            }
            self.counter = 0;
        } else if a == 0xFF05 {
            self.tima = v;
        } else if a == 0xFF06 {
            self.tma = v;
        } else {
            // A TAC write that drops the mux output 1->0 also ticks TIMA
            // (covers both the disable case and a frequency change).
            let old_out = self.mux(self.tac);
            self.tac = v & 0x07;
            if old_out && !self.mux(self.tac) {
                self.tima_inc(1);
            }
        }
    }
}

} // verus!
