use super::bus::{BusDir, Chip, Pins, Ticked};
use crate::components::registers::io;
use crate::bits::{lemma_byte, lemma_clear_bits};
use vstd::prelude::*;

verus! {

/// A set of interrupt sources, one bit each: V-Blank (bit 0), LCD (1),
/// Timer (2), Serial (3), Joypad (4).
#[derive(Clone, Copy, PartialEq, Eq, Structural, Debug)]
pub struct Interrupts {
    pub bits: u8,
}

impl Interrupts {
    pub fn empty() -> (r: Interrupts)
        ensures
            r.bits == 0,
    {
        Interrupts { bits: 0 }
    }

    pub fn v_blank() -> (r: Interrupts)
        ensures
            r.bits == 0x01,
    {
        Interrupts { bits: 0x01 }
    }

    pub fn lcd() -> (r: Interrupts)
        ensures
            r.bits == 0x02,
    {
        Interrupts { bits: 0x02 }
    }

    pub fn timer() -> (r: Interrupts)
        ensures
            r.bits == 0x04,
    {
        Interrupts { bits: 0x04 }
    }

    pub fn serial() -> (r: Interrupts)
        ensures
            r.bits == 0x08,
    {
        Interrupts { bits: 0x08 }
    }

    pub fn joypad() -> (r: Interrupts)
        ensures
            r.bits == 0x10,
    {
        Interrupts { bits: 0x10 }
    }

    /// Keeps only the five defined sources.
    pub fn from_bits_truncate(v: u8) -> (r: Interrupts)
        ensures
            r.bits == v & 0x1F,
    {
        Interrupts { bits: v & 0x1F }
    }

    /// Keeps every bit, defined or not.
    pub fn from_bits_retain(v: u8) -> (r: Interrupts)
        ensures
            r.bits == v,
    {
        Interrupts { bits: v }
    }

    pub fn bits(&self) -> (r: u8)
        ensures
            r == self.bits,
    {
        self.bits
    }

    pub fn is_empty(&self) -> (r: bool)
        ensures
            r == (self.bits == 0),
    {
        self.bits == 0
    }

    pub fn union(self, other: Interrupts) -> (r: Interrupts)
        ensures
            r.bits == self.bits | other.bits,
    {
        Interrupts { bits: self.bits | other.bits }
    }

    pub fn intersection(self, other: Interrupts) -> (r: Interrupts)
        ensures
            r.bits == self.bits & other.bits,
    {
        Interrupts { bits: self.bits & other.bits }
    }

    pub fn difference(self, other: Interrupts) -> (r: Interrupts)
        ensures
            r.bits == self.bits & !other.bits,
    {
        Interrupts { bits: self.bits & !other.bits }
    }

    pub fn contains(&self, other: Interrupts) -> (r: bool)
        ensures
            r == (self.bits & other.bits == other.bits),
    {
        self.bits & other.bits == other.bits
    }

    /// Vector address for the highest-priority pending interrupt, and the bit
    /// to clear. Priority is V-Blank highest (lowest bit).
    pub fn highest(self) -> (r: Option<(u16, Interrupts)>)
        ensures
            r == highest_pending(self.bits),
    {
        if self.bits & 0x01 == 0x01 {
            Some((0x0040, Interrupts { bits: 0x01 }))
        } else if self.bits & 0x02 == 0x02 {
            Some((0x0048, Interrupts { bits: 0x02 }))
        } else if self.bits & 0x04 == 0x04 {
            Some((0x0050, Interrupts { bits: 0x04 }))
        } else if self.bits & 0x08 == 0x08 {
            Some((0x0058, Interrupts { bits: 0x08 }))
        } else if self.bits & 0x10 == 0x10 {
            Some((0x0060, Interrupts { bits: 0x10 }))
        } else {
            None
        }
    }
}

/// The highest-priority source present in `bits`, with its vector: the lowest
/// of the five source bits that is set.
pub open spec fn highest_pending(bits: u8) -> Option<(u16, Interrupts)> {
    if bits & 0x01 == 0x01 {
        Some((0x0040u16, Interrupts { bits: 0x01 }))
    } else if bits & 0x02 == 0x02 {
        Some((0x0048u16, Interrupts { bits: 0x02 }))
    } else if bits & 0x04 == 0x04 {
        Some((0x0050u16, Interrupts { bits: 0x04 }))
    } else if bits & 0x08 == 0x08 {
        Some((0x0058u16, Interrupts { bits: 0x08 }))
    } else if bits & 0x10 == 0x10 {
        Some((0x0060u16, Interrupts { bits: 0x10 }))
    } else {
        None
    }
}

/// The chosen source is one set bit of the request and every bit below it
/// (every source of higher priority) is clear; with none of the five source
/// bits set, nothing is chosen.
pub proof fn lemma_highest_is_lowest_set_bit(bits: u8)
    ensures
        match highest_pending(bits) {
            Some((vector, bit)) => {
                &&& bits & bit.bits == bit.bits
                &&& bits % bit.bits == 0
            },
            None => bits & 0x1F == 0,
        },
{
    lemma_byte(bits);
    if bits & 0x01 == 0x01 {
    } else if bits & 0x02 == 0x02 {
    } else if bits & 0x04 == 0x04 {
    } else if bits & 0x08 == 0x08 {
    } else if bits & 0x10 == 0x10 {
    } else {
    }
}

/// IF and IE: the requested and the enabled interrupt sources.
pub struct InterruptController {
    iflag: Interrupts,
    ienable: Interrupts,
}

pub struct InterruptControllerView {
    pub iflag: u8,
    pub ienable: u8,
}

impl View for InterruptController {
    type V = InterruptControllerView;

    closed spec fn view(&self) -> InterruptControllerView {
        InterruptControllerView { iflag: self.iflag.bits, ienable: self.ienable.bits }
    }
}

/// The IF/IE port: what a bus transfer does to the registers and the pins.
pub open spec fn interrupt_bus(
    v: InterruptControllerView,
    pins: Pins,
) -> (InterruptControllerView, Pins) {
    if pins.transfer && pins.address == 0xFF0F {
        match pins.dir {
            BusDir::Read => (v, Pins { data: v.iflag | 0xE0, ..pins }),
            BusDir::Write => (InterruptControllerView { iflag: pins.data & 0x1F, ..v }, pins),
            BusDir::Idle => (v, pins),
        }
    } else if pins.transfer && pins.address == 0xFFFF {
        match pins.dir {
            BusDir::Read => (v, Pins { data: v.ienable, ..pins }),
            BusDir::Write => (InterruptControllerView { ienable: pins.data & 0x1F, ..v }, pins),
            BusDir::Idle => (v, pins),
        }
    } else {
        (v, pins)
    }
}

impl InterruptController {
    pub fn new() -> (r: InterruptController)
        ensures
            r@.iflag == 0,
            r@.ienable == 0,
    {
        InterruptController { iflag: Interrupts::empty(), ienable: Interrupts::empty() }
    }

    pub fn request(&mut self, irq: Interrupts)
        ensures
            final(self)@.iflag == old(self)@.iflag | irq.bits,
            final(self)@.ienable == old(self)@.ienable,
    {
        self.iflag = self.iflag.union(irq);
    }

    /// Bits that are both requested and enabled — the CPU's IRQ input.
    pub fn pending(&self) -> (r: Interrupts)
        ensures
            r.bits == self@.iflag & self@.ienable,
    {
        self.iflag.intersection(self.ienable)
    }

    pub fn acknowledge(&mut self, bit: Interrupts)
        ensures
            final(self)@.iflag == old(self)@.iflag & !bit.bits,
            final(self)@.ienable == old(self)@.ienable,
    {
        self.iflag = self.iflag.difference(bit);
    }
}

impl Chip for InterruptController {
    fn bus(&mut self, pins: &mut Pins) -> (r: Ticked)
        ensures
            (final(self)@, *final(pins)) == interrupt_bus(old(self)@, *old(pins)),
            r == Ticked::none(),
    {
        // IF/IE are pure registers; nothing free-running to advance.
        if pins.address == io::IF && pins.selected(true) {
            match pins.dir {
                BusDir::Read => pins.data = self.iflag.bits() | 0xE0,
                BusDir::Write => self.iflag = Interrupts::from_bits_truncate(pins.data),
                BusDir::Idle => {},
            }
        } else if pins.address == 0xFFFF && pins.selected(true) {
            match pins.dir {
                BusDir::Read => pins.data = self.ienable.bits(),
                BusDir::Write => self.ienable = Interrupts::from_bits_truncate(pins.data),
                BusDir::Idle => {},
            }
        }
        Ticked::default()
    }
}

/// Acknowledging the interrupt the CPU takes clears exactly that request and
/// leaves the others, and the enable mask, as they were.
pub proof fn lemma_acknowledge_clears_only_taken(iflag: u8, ienable: u8)
    requires
        highest_pending(iflag & ienable) is Some,
    ensures
        ({
            let bit = highest_pending(iflag & ienable)->Some_0.1.bits;
            &&& (iflag & !bit) & bit == 0
            &&& forall|other: u8| #![auto] other & bit == 0 ==> (iflag & !bit) & other == iflag & other
        }),
{
    let bit = highest_pending(iflag & ienable)->Some_0.1.bits;
    lemma_clear_bits(iflag, bit, bit);
    assert forall|other: u8| #![auto] other & bit == 0 implies (iflag & !bit) & other == iflag & other by {
        lemma_clear_bits(iflag, bit, other);
    }
}

} // verus!
