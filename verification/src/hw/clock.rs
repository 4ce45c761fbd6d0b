use crate::bits::lemma_byte_masks;
use vstd::prelude::*;

verus! {

/// Owns time: counts base-clock dots and halves the rate in double speed.
pub struct Clock {
    dots: u64,
    speed_phase: u8,
}

pub struct ClockView {
    pub dots: u64,
    pub speed_phase: u8,
}

impl View for Clock {
    type V = ClockView;

    closed spec fn view(&self) -> ClockView {
        ClockView { dots: self.dots, speed_phase: self.speed_phase }
    }
}

impl Clock {
    pub closed spec fn wf(&self) -> bool {
        self.speed_phase <= 1
    }

    pub fn new() -> (r: Clock)
        ensures
            r@.dots == 0,
            r@.speed_phase == 0,
            r.wf(),
    {
        Clock { dots: 0, speed_phase: 0 }
    }

    /// Advance one T-cycle; returns whether this was a base-clock dot. In
    /// double speed only every second T-cycle is one.
    pub fn tick(&mut self, double_speed: bool) -> (base: bool)
        requires
            old(self).wf(),
            old(self)@.dots < u64::MAX,
        ensures
            final(self).wf(),
            base == (!double_speed || old(self)@.speed_phase == 1),
            final(self)@.speed_phase == if double_speed { 1 - old(self)@.speed_phase } else { old(self)@.speed_phase as int },
            final(self)@.dots == old(self)@.dots + if base { 1int } else { 0 },
    {
        if double_speed {
            let p = self.speed_phase;
            proof { lemma_byte_masks(p); }
            self.speed_phase = p ^ 1;
            if self.speed_phase == 0 {
                self.dots += 1;
                true
            } else {
                false
            }
        } else {
            self.dots += 1;
            true
        }
    }

    pub fn dots(&self) -> (r: u64)
        ensures
            r == self@.dots,
    {
        self.dots
    }
}

} // verus!
