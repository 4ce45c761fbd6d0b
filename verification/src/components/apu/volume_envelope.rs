use vstd::prelude::*;

verus! {

/// A channel's volume envelope (NRx2). The volume is a whole step 0-15: it
/// starts at the initial volume on a trigger and moves one step up or down
/// every `period` envelope ticks until it reaches the end of its range.
pub struct VolumeEnvelope {
    pub volume: u8,
    pub period: u16,
    pub positive: bool,
    initial_volume: u8,
    period_counter: u16,
    enabled: bool,
}

pub struct EnvelopeView {
    pub volume: u8,
    pub period: u16,
    pub positive: bool,
    pub initial_volume: u8,
    pub period_counter: u16,
    pub enabled: bool,
}

impl View for VolumeEnvelope {
    type V = EnvelopeView;

    closed spec fn view(&self) -> EnvelopeView {
        EnvelopeView {
            volume: self.volume,
            period: self.period,
            positive: self.positive,
            initial_volume: self.initial_volume,
            period_counter: self.period_counter,
            enabled: self.enabled,
        }
    }
}

impl EnvelopeView {
    /// Volumes are 4-bit steps, and the period counter has room to count.
    pub open spec fn wf(self) -> bool {
        self.volume <= 15 && self.initial_volume <= 15 && self.period_counter < 0xFFFF
    }

    /// One envelope tick: while running with a non-zero period, the counter
    /// advances; when it reaches the period it restarts and the volume steps
    /// towards its end of the range, the envelope stopping once it is there.
    pub open spec fn ticked(self) -> EnvelopeView {
        if !self.enabled || self.period == 0 {
            self
        } else if self.period_counter + 1 >= self.period {
            let e = EnvelopeView { period_counter: 0, ..self };
            if self.positive {
                if self.volume < 15 {
                    EnvelopeView { volume: (self.volume + 1) as u8, ..e }
                } else {
                    EnvelopeView { enabled: false, ..e }
                }
            } else {
                if self.volume > 0 {
                    EnvelopeView { volume: (self.volume - 1) as u8, ..e }
                } else {
                    EnvelopeView { enabled: false, ..e }
                }
            }
        } else {
            EnvelopeView { period_counter: (self.period_counter + 1) as u16, ..self }
        }
    }

    /// The NRx2 byte: initial volume in bits 7-4, direction in bit 3, period
    /// in bits 2-0.
    pub open spec fn register(self) -> u8 {
        ((self.initial_volume << 4u8) | ((if self.positive { 1u8 } else { 0u8 }) << 3u8) | ((self.period
            as u8) & 0x07)) as u8
    }

    /// The live volume after an NRx2 write without a trigger ("zombie mode"):
    /// adjusted from the old envelope state before the new setting is stored.
    pub open spec fn zombie_volume(self, v: u8) -> u8 {
        let vol: int = if self.period == 0 && self.enabled {
            self.volume + 1
        } else if !self.positive {
            self.volume + 2
        } else {
            self.volume as int
        };
        let flipped: int = if self.positive != (v & 0x08 != 0) { 16 - vol } else { vol };
        (flipped % 16) as u8
    }
}

impl VolumeEnvelope {
    pub fn new() -> (r: Self)
        ensures
            r@ == (EnvelopeView {
                volume: 0,
                period: 0,
                positive: false,
                initial_volume: 0,
                period_counter: 0,
                enabled: false,
            }),
    {
        Self { volume: 0, period: 0, positive: false, initial_volume: 0, period_counter: 0, enabled: false }
    }

    pub fn tick(&mut self)
        requires
            old(self)@.wf(),
        ensures
            final(self)@ == old(self)@.ticked(),
            final(self)@.wf(),
    {
        if !self.enabled || self.period == 0 {
            return;
        }

        self.period_counter += 1;

        if self.period_counter >= self.period {
            self.period_counter = 0;

            if self.positive {
                if self.volume < 15 {
                    self.volume += 1;
                } else {
                    self.enabled = false;
                }
            } else {
                if self.volume > 0 {
                    self.volume -= 1;
                } else {
                    self.enabled = false;
                }
            }
        }
    }

    /// A trigger: the volume restarts at the initial volume and the envelope
    /// runs.
    pub fn reload(&mut self)
        ensures
            final(self)@ == (EnvelopeView {
                volume: old(self)@.initial_volume,
                period_counter: 0,
                enabled: true,
                ..old(self)@
            }),
    {
        self.volume = self.initial_volume;
        self.period_counter = 0;
        self.enabled = true;
    }

    pub fn read(&self) -> (r: u8)
        requires
            self@.wf(),
        ensures
            r == self@.register(),
    {
        (self.initial_volume << 4u8) | ((if self.positive { 1u8 } else { 0u8 }) << 3u8) | (self.period as u8
            & 0x07)
    }

    /// An NRx2 write: the live volume is adjusted from the old state (see
    /// `zombie_volume`), then the new initial volume, direction and period
    /// are stored.
    pub fn write(&mut self, v: u8)
        requires
            old(self)@.wf(),
        ensures
            final(self)@ == (EnvelopeView {
                volume: old(self)@.zombie_volume(v),
                initial_volume: v / 16,
                positive: v & 0x08 != 0,
                period: (v % 8) as u16,
                ..old(self)@
            }),
            final(self)@.wf(),
    {
        let mut vol = self.volume as i32;

        if self.period == 0 && self.enabled {
            vol += 1;
        } else if !self.positive {
            vol += 2;
        }

        let new_positive = (v & 0x08) != 0;
        if self.positive != new_positive {
            vol = 16 - vol;
        }

        proof {
            lemma_low_nibble(vol);
            lemma_nibbles(v);
        }
        self.volume = (vol & 0x0F) as u8;

        self.initial_volume = (v & 0xF0) >> 4u8;
        self.positive = new_positive;
        self.period = (v & 0x07) as u16;
    }

    pub fn clear(&mut self)
        ensures
            final(self)@ == (EnvelopeView {
                volume: 0,
                period: 0,
                positive: false,
                initial_volume: 0,
                period_counter: 0,
                enabled: false,
            }),
    {
        self.volume = 0;
        self.period = 0;
        self.positive = false;
        self.initial_volume = 0;
        self.period_counter = 0;
        self.enabled = false;
    }
}

proof fn lemma_low_nibble(x: i32)
    requires
        -2 <= x <= 18,
    ensures
        x & 0x0F == x % 16,
{
    assert(-2 <= x <= 18 ==> x & 0x0F == x % 16) by (bit_vector);
}

proof fn lemma_nibbles(v: u8)
    ensures
        (v & 0xF0) >> 4u8 == v / 16,
        v & 0x07 == v % 8,
{
    assert((v & 0xF0) >> 4u8 == v / 16 && v & 0x07 == v % 8) by (bit_vector);
}

} // verus!
