use super::bus::{BusDir, Chip, Pins, Ticked};
use super::interrupt::Interrupts;
use crate::components::registers::io;
use crate::bits::{lemma_byte_masks, lemma_constants, lemma_word_bytes};
use vstd::prelude::*;

verus! {

/// Where TIMA is in its overflow/reload sequence.
#[derive(Clone, Copy, PartialEq, Eq, Structural, Debug)]
pub enum Reload {
    Idle,
    /// Cycle A: TIMA has wrapped to 0; the reload lands after `dots` more dots.
    Overflowed { dots: u8 },
    /// Cycle B: TIMA is held at TMA for `dots` more dots.
    Reloading { dots: u8 },
}

/// DIV/TIMA/TMA/TAC: a 16-bit dot counter whose selected bit, ANDed with the
/// enable, clocks TIMA on its falling edge.
pub struct Timer {
    counter: u16,
    tima: u8,
    tma: u8,
    tac: u8,
    reload: Reload,
}

pub struct TimerView {
    pub counter: u16,
    pub tima: u8,
    pub tma: u8,
    pub tac: u8,
    pub reload: Reload,
}

impl View for Timer {
    type V = TimerView;

    closed spec fn view(&self) -> TimerView {
        TimerView { counter: self.counter, tima: self.tima, tma: self.tma, tac: self.tac, reload: self.reload }
    }
}

/// Counter bit selected by the low two bits of TAC.
pub open spec fn tac_bit(tac: u8) -> u16 {
    if tac % 4 == 0 {
        9
    } else if tac % 4 == 1 {
        3
    } else if tac % 4 == 2 {
        5
    } else {
        7
    }
}

/// The TIMA clock line: enable bit AND the selected counter bit.
pub open spec fn timer_mux(counter: u16, tac: u8) -> bool {
    (tac & 0x04 != 0) && ((counter >> tac_bit(tac)) & 1 != 0)
}

impl TimerView {
    pub open spec fn wf(self) -> bool {
        &&& self.tac < 8
        &&& match self.reload {
            Reload::Idle => true,
            Reload::Overflowed { dots } => 1 <= dots <= 4,
            Reload::Reloading { dots } => 1 <= dots <= 4,
        }
    }

    /// TIMA counts up by one; wrapping past 0xFF starts the overflow sequence.
    pub open spec fn tima_ticked(self) -> TimerView {
        if self.tima == 0xFF {
            TimerView { tima: 0, reload: Reload::Overflowed { dots: 4 }, ..self }
        } else {
            TimerView { tima: (self.tima + 1) as u8, ..self }
        }
    }

    /// Loads the counter; TIMA ticks when the clock line falls.
    pub open spec fn with_counter(self, value: u16) -> TimerView {
        let next = TimerView { counter: value, ..self };
        if timer_mux(self.counter, self.tac) && !timer_mux(value, self.tac) {
            next.tima_ticked()
        } else {
            next
        }
    }

    /// One dot: step the reload sequence, then count.
    pub open spec fn advanced(self) -> (TimerView, bool) {
        let (stepped, irq) = match self.reload {
            Reload::Overflowed { dots } => if dots == 1 {
                (TimerView { tima: self.tma, reload: Reload::Reloading { dots: 4 }, ..self }, true)
            } else {
                (TimerView { reload: Reload::Overflowed { dots: (dots - 1) as u8 }, ..self }, false)
            },
            Reload::Reloading { dots } => (
                TimerView {
                    tima: self.tma,
                    reload: if dots == 1 { Reload::Idle } else { Reload::Reloading { dots: (dots - 1) as u8 } },
                    ..self
                },
                false,
            ),
            Reload::Idle => (self, false),
        };
        (stepped.with_counter(stepped.counter.wrapping_add(1)), irq)
    }

    /// A bus transfer on the timer's registers.
    pub open spec fn on_bus(self, pins: Pins) -> (TimerView, Pins) {
        if !pins.transfer {
            (self, pins)
        } else if pins.address == 0xFF04 {
            match pins.dir {
                BusDir::Read => (self, Pins { data: (self.counter / 256) as u8, ..pins }),
                BusDir::Write => (self.with_counter(0), pins),
                BusDir::Idle => (self, pins),
            }
        } else if pins.address == 0xFF05 {
            match pins.dir {
                BusDir::Read => (self, Pins { data: self.tima, ..pins }),
                BusDir::Write => match self.reload {
                    Reload::Overflowed { .. } => (TimerView { reload: Reload::Idle, tima: pins.data, ..self }, pins),
                    Reload::Reloading { .. } => (self, pins),
                    Reload::Idle => (TimerView { tima: pins.data, ..self }, pins),
                },
                BusDir::Idle => (self, pins),
            }
        } else if pins.address == 0xFF06 {
            match pins.dir {
                BusDir::Read => (self, Pins { data: self.tma, ..pins }),
                BusDir::Write => if self.reload is Reloading {
                    (TimerView { tma: pins.data, tima: pins.data, ..self }, pins)
                } else {
                    (TimerView { tma: pins.data, ..self }, pins)
                },
                BusDir::Idle => (self, pins),
            }
        } else if pins.address == 0xFF07 {
            match pins.dir {
                BusDir::Read => (self, Pins { data: 0xF8 | self.tac, ..pins }),
                BusDir::Write => {
                    let next = TimerView { tac: pins.data & 0x07, ..self };
                    if timer_mux(self.counter, self.tac) && !timer_mux(self.counter, next.tac) {
                        (next.tima_ticked(), pins)
                    } else {
                        (next, pins)
                    }
                },
                BusDir::Idle => (self, pins),
            }
        } else {
            (self, pins)
        }
    }
}

impl Timer {
    #[verifier::type_invariant]
    spec fn inv(&self) -> bool {
        self@.wf()
    }

    pub fn new() -> (r: Timer)
        ensures
            r@.wf(),
            r@ == (TimerView { counter: 0, tima: 0, tma: 0, tac: 0, reload: Reload::Idle }),
    {
        Timer { counter: 0, tima: 0, tma: 0, tac: 0, reload: Reload::Idle }
    }

    fn tac_bit(tac: u8) -> (r: u16)
        ensures
            r == tac_bit(tac),
    {
        let sel = tac & 0b11;
        proof { lemma_byte_masks(tac); }
        if sel == 0 {
            9
        } else if sel == 1 {
            3
        } else if sel == 2 {
            5
        } else {
            7
        }
    }

    /// The bit whose falling edge (ANDed with timer-enable) clocks TIMA.
    fn mux(&self) -> (r: bool)
        ensures
            r == timer_mux(self.counter, self.tac),
    {
        (self.tac & 0b100 != 0) && ((self.counter >> Self::tac_bit(self.tac)) & 1 != 0)
    }

    fn set_counter(&mut self, value: u16) -> (fell: bool)
        ensures
            final(self)@.wf(),
            fell == (timer_mux(old(self).counter, old(self).tac) && !timer_mux(value, old(self).tac)),
            final(self)@ == (TimerView { counter: value, ..old(self)@ }),
    {
        proof { use_type_invariant(&*self); }
        let before = self.mux();
        self.counter = value;
        before && !self.mux()
    }

    fn tima_tick(&mut self)
        ensures
            final(self)@ == old(self)@.tima_ticked(),
    {
        proof { use_type_invariant(&*self); }
        if self.tima == 0xFF {
            self.tima = 0;
            self.reload = Reload::Overflowed { dots: 4 };
        } else {
            self.tima = self.tima + 1;
        }
    }

    /// DIV register value, for the APU frame sequencer.
    pub fn div(&self) -> (r: u8)
        ensures
            r == self@.counter / 256,
    {
        let c = self.counter;
        proof { lemma_word_bytes(c); }
        (self.counter >> 8) as u8
    }
}

impl Chip for Timer {
    fn advance(&mut self, base_dot: bool) -> (r: Ticked)
        ensures
            final(self)@ == old(self)@.advanced().0,
            r.irq.bits == if old(self)@.advanced().1 { 0x04u8 } else { 0u8 },
            !r.hblank_edge,
    {
        proof { use_type_invariant(&*self); }
        let mut ticked = Ticked::default();
        match self.reload {
            Reload::Overflowed { dots } => {
                let dots = dots - 1;
                if dots == 0 {
                    self.tima = self.tma;
                    ticked.irq = ticked.irq.union(Interrupts::timer());
                    proof { lemma_constants(); }
                    self.reload = Reload::Reloading { dots: 4 };
                } else {
                    self.reload = Reload::Overflowed { dots };
                }
            },
            Reload::Reloading { dots } => {
                self.tima = self.tma;
                let dots = dots - 1;
                self.reload = if dots == 0 {
                    Reload::Idle
                } else {
                    Reload::Reloading { dots }
                };
            },
            Reload::Idle => {},
        }
        if self.set_counter(self.counter.wrapping_add(1)) {
            self.tima_tick();
        }
        ticked
    }

    fn bus(&mut self, pins: &mut Pins) -> (r: Ticked)
        ensures
            (final(self)@, *final(pins)) == old(self)@.on_bus(*old(pins)),
            r == Ticked::none(),
    {
        proof { use_type_invariant(&*self); }
        if pins.address == io::DIV && pins.selected(true) {
            match pins.dir {
                BusDir::Read => {
                    let c = self.counter;
                    proof { lemma_word_bytes(c); }
                    pins.data = (self.counter >> 8) as u8;
                },
                // Writing DIV clears the whole counter; the drop can clock TIMA.
                BusDir::Write => {
                    if self.set_counter(0) {
                        self.tima_tick();
                    }
                },
                BusDir::Idle => {},
            }
        } else if pins.address == io::TIMA && pins.selected(true) {
            match pins.dir {
                BusDir::Read => pins.data = self.tima,
                BusDir::Write => match self.reload {
                    // Cycle A: Write cancels the overflow entirely
                    Reload::Overflowed { .. } => {
                        self.reload = Reload::Idle;
                        self.tima = pins.data;
                    },
                    // Cycle B: Write is ignored
                    Reload::Reloading { .. } => {},
                    Reload::Idle => self.tima = pins.data,
                },
                BusDir::Idle => {},
            }
        } else if pins.address == io::TMA && pins.selected(true) {
            match pins.dir {
                BusDir::Read => pins.data = self.tma,
                BusDir::Write => {
                    self.tma = pins.data;
                    // Cycle B holds TIMA's load line from TMA, so a TMA write
                    // this cycle lands in TIMA on the same cycle.
                    if let Reload::Reloading { .. } = self.reload {
                        self.tima = pins.data;
                    }
                },
                BusDir::Idle => {},
            }
        } else if pins.address == io::TAC && pins.selected(true) {
            match pins.dir {
                BusDir::Read => pins.data = 0xF8 | self.tac,
                BusDir::Write => {
                    let before = self.mux();
                    let d = pins.data;
                    proof { lemma_byte_masks(d); }
                    self.tac = d & 0x07;
                    if before && !self.mux() {
                        self.tima_tick();
                    }
                },
                BusDir::Idle => {},
            }
        }
        Ticked::default()
    }
}

} // verus!
