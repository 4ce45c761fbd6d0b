use super::interrupt::Interrupts;
use vstd::prelude::*;

verus! {

/// Direction the current bus master is driving this M-cycle.
#[derive(Clone, Copy, PartialEq, Eq, Structural, Debug)]
pub enum BusDir {
    /// No transfer this cycle (internal/idle M-cycle).
    Idle,
    Read,
    Write,
}

/// Which chip is driving the address/data traces this M-cycle. During OAM DMA
/// the DMA engine seizes the bus; a CPU access that collides sees open bus.
#[derive(Clone, Copy, PartialEq, Eq, Structural, Debug)]
pub enum BusMaster {
    Cpu,
    OamDma,
}

/// The shared traces. Exactly one master drives them per M-cycle; every chip
/// watches them and asserts data / latches writes only on the transfer dot.
#[derive(Clone, Copy, PartialEq, Eq, Structural, Debug)]
pub struct Pins {
    pub address: u16,
    pub data: u8,
    pub dir: BusDir,
    pub master: BusMaster,
    /// True only on the dot the transfer commits (last dot of the access
    /// M-cycle).
    pub transfer: bool,
}

impl Pins {
    pub fn new() -> (r: Pins)
        ensures
            r == (Pins { address: 0, data: 0xFF, dir: BusDir::Idle, master: BusMaster::Cpu, transfer: false }),
    {
        Pins { address: 0, data: 0xFF, dir: BusDir::Idle, master: BusMaster::Cpu, transfer: false }
    }

    /// A chip calls this in its `tick` to decide whether to respond this dot.
    pub fn selected(&self, in_range: bool) -> (r: bool)
        ensures
            r == (self.transfer && in_range),
    {
        self.transfer && in_range
    }
}

/// What a chip produced on a single dot. The motherboard routes these; chips
/// never reach into one another.
#[derive(Clone, Copy, PartialEq, Eq, Structural, Debug)]
pub struct Ticked {
    pub irq: Interrupts,
    /// PPU entered HBlank on this dot (routes to HDMA). Only the PPU sets it.
    pub hblank_edge: bool,
}

impl Ticked {
    /// Nothing happened: no interrupt request, no HBlank edge.
    pub open spec fn none() -> Ticked {
        Ticked { irq: Interrupts { bits: 0 }, hblank_edge: false }
    }

    pub fn merge(&mut self, other: Ticked)
        ensures
            final(self).irq.bits == old(self).irq.bits | other.irq.bits,
            final(self).hblank_edge == (old(self).hblank_edge || other.hblank_edge),
    {
        self.irq = self.irq.union(other.irq);
        self.hblank_edge = self.hblank_edge || other.hblank_edge;
    }
}

impl Default for Ticked {
    fn default() -> (r: Ticked)
        ensures
            r == Ticked::none(),
    {
        Ticked { irq: Interrupts::empty(), hblank_edge: false }
    }
}

/// A peer on the shared bus: an internal clock (`advance`) and a bus port
/// (`bus`), each reporting what it raised.
pub trait Chip: Sized {
    /// By default a chip has no internal clock: nothing changes and nothing
    /// is raised.
    fn advance(&mut self, base_dot: bool) -> (r: Ticked)
        default_ensures
            r == Ticked::none(),
            *final(self) == *old(self),
    {
        Ticked { irq: Interrupts::empty(), hblank_edge: false }
    }

    /// By default a chip answers no address: the chip and the pins are left
    /// as they are and nothing is raised.
    fn bus(&mut self, pins: &mut Pins) -> (r: Ticked)
        default_ensures
            r == Ticked::none(),
            *final(self) == *old(self),
            *final(pins) == *old(pins),
    {
        Ticked { irq: Interrupts::empty(), hblank_edge: false }
    }
}

} // verus!
