use super::bus::{BusDir, BusMaster, Chip, Pins};
use super::clock::{Clock, ClockView};
use super::cpu::program::{cpu_wf, drained, illegal_opcode, CpuView};
use super::cpu::{completed, offered, power_on, setup_pins, Cpu, MicroOp};
use super::dma::{dma_on_bus, oam_conflicts, oam_step, Dma, DmaView};
use super::interrupt::{interrupt_bus, InterruptController, InterruptControllerView};
use super::ppu::{advanced, ppu_bus, Ppu};
use super::sysbus::{sys_bus, sys_read, sys_readable, sys_serves, SysView, SystemBus};
use super::timer::{Timer, TimerView};
use crate::components::joypad::{JoypadButton, JoypadView};
use crate::components::mode::GBMode;
use crate::components::ppu::ppu::{cycled, oam_corrupted, OamGlitch, PpuView};
use crate::components::registers::Registers;
use crate::components::serial::SerialView;
use crate::mbc::cartridge::{clock_latched, CartView};
use vstd::prelude::*;

verus! {

/// A state the machine cannot go on from: the opcode fetched is one the
/// SM83 does not define, a bus access reaches storage the cartridge does not
/// have, a DMA block lands outside VRAM, the CPU has no bus step queued, or
/// the dot counter is spent.
#[derive(Clone, Copy, PartialEq, Eq, Structural, Debug)]
pub enum Fault {
    IllegalOpcode(u8),
    Unserved(u16),
    VramOutOfRange(u16),
    NoBusStep,
    ClockSpent,
}

/// The mainboard: owns the chips, the clock and the traces. Its logic is
/// arbitration, routing and driving the DMA; each chip decodes its own
/// addresses. The sound unit is not on this board: its register window
/// (0xFF10-0xFF3F) is answered by no chip.
pub struct Motherboard {
    cpu: Cpu,
    clock: Clock,
    pins: Pins,
    ic: InterruptController,
    timer: Timer,
    ppu: Ppu,
    dma: Dma,
    sysbus: SystemBus,
    /// The byte the OAM DMA moved last: what a CPU read colliding with the
    /// DMA sees.
    oam_latch: u8,
    /// Frames the PPU has handed to the display (its VBlank entries).
    frames: u64,
    /// The opcode of the instruction that ended at the latest fetch.
    last_op: u8,
}

/// The board's state: every chip's, the traces, the DMA latch, the frame
/// count and the last opcode.
pub struct BoardView {
    pub cpu: CpuView,
    pub clock: ClockView,
    pub pins: Pins,
    pub ic: InterruptControllerView,
    pub timer: TimerView,
    pub ppu: PpuView,
    pub dma: DmaView,
    pub sys: SysView,
    pub oam_latch: u8,
    pub frames: u64,
    pub last_op: u8,
}

impl View for Motherboard {
    type V = BoardView;

    closed spec fn view(&self) -> BoardView {
        BoardView {
            cpu: self.cpu@,
            clock: self.clock@,
            pins: self.pins,
            ic: self.ic@,
            timer: self.timer@,
            ppu: self.ppu@,
            dma: self.dma@,
            sys: self.sysbus@,
            oam_latch: self.oam_latch,
            frames: self.frames,
            last_op: self.last_op,
        }
    }
}

// ---------------------------------------------------------------------------
// The model: what each part of an M-cycle does to the board. A result
// carries the board after it, whether it faulted, and (for the parts that
// drive the CPU's transfer) whether that transfer latched the cartridge
// clock, whose new value, read from the host clock, is the `latch` given.
// ---------------------------------------------------------------------------

/// A read of `addr` by the DMA engine: the PPU, the DMA registers and the
/// system bus answer it; no chip advances.
#[verifier::opaque]
pub open spec fn bus_read_result(b: BoardView, addr: u16) -> (BoardView, Result<u8, Fault>) {
    let pins0 = Pins { address: addr, dir: BusDir::Read, master: BusMaster::OamDma, transfer: true, data: 0xFF };
    let (p1, pins1) = ppu_bus(b.ppu, pins0);
    let (d1, pins2) = dma_on_bus(b.dma, pins1);
    let b1 = BoardView { ppu: p1, dma: d1, pins: pins2, ..b };
    if !sys_serves(b.sys, pins2) {
        (b1, Err(Fault::Unserved(addr)))
    } else {
        let (s2, pins3, _) = sys_bus(b.sys, pins2, b.sys.cart);
        (
            BoardView { sys: s2, pins: Pins { transfer: false, master: BusMaster::Cpu, ..pins3 }, ..b1 },
            Ok(pins3.data),
        )
    }
}

/// One M-cycle of OAM DMA: the engine's next source byte, if any, is read
/// and written to OAM, and becomes the latch.
#[verifier::opaque]
pub open spec fn oam_dma_result(b: BoardView) -> (BoardView, Result<(), Fault>) {
    let (d1, src) = oam_step(b.dma);
    let b1 = BoardView { dma: d1, ..b };
    match src {
        None => (b1, Ok(())),
        Some(a) => {
            let (b2, r) = bus_read_result(b1, a);
            match r {
                Err(f) => (b2, Err(f)),
                Ok(byte) => (
                    BoardView {
                        ppu: PpuView { oam: b2.ppu.oam.update(b2.dma.oam_progress as int, byte), ..b2.ppu },
                        oam_latch: byte,
                        dma: DmaView { oam_progress: (b2.dma.oam_progress + 1) as u16, ..b2.dma },
                        ..b2
                    },
                    Ok(()),
                ),
            }
        },
    }
}

/// The sixteen (source, destination) pairs of the next HDMA block.
pub open spec fn hdma_pairs(d: DmaView) -> Seq<(u16, u16)> {
    Seq::new(
        0x10,
        |i: int| (((d.hdma_src + i) % 65536) as u16, ((d.hdma_dst + i) % 65536) as u16),
    )
}

/// The DMA registers once a block is taken.
pub open spec fn hdma_taken(d: DmaView) -> DmaView {
    DmaView {
        hdma_src: ((d.hdma_src + 0x10) % 65536) as u16,
        hdma_dst: ((d.hdma_dst + 0x10) % 65536) as u16,
        hdma_len: if d.hdma_len != 0 { (d.hdma_len - 1) as u8 } else { 0xFF },
        ..d
    }
}

/// Copies pairs `i..` of an HDMA block into VRAM.
pub open spec fn hdma_copies(b: BoardView, pairs: Seq<(u16, u16)>, i: int) -> (BoardView, Result<(), Fault>)
    decreases pairs.len() - i,
{
    if i < 0 || i >= pairs.len() {
        (b, Ok(()))
    } else {
        let (src, dst) = pairs[i];
        let (b1, r) = bus_read_result(b, src);
        match r {
            Err(f) => (b1, Err(f)),
            Ok(byte) => {
                let o = b1.ppu.vram_bank * 0x2000 + dst - 0x8000;
                if dst < 0x8000 || o >= 0x4000 {
                    (b1, Err(Fault::VramOutOfRange(dst)))
                } else {
                    hdma_copies(
                        BoardView { ppu: PpuView { vram: b1.ppu.vram.update(o, byte), ..b1.ppu }, ..b1 },
                        pairs,
                        i + 1,
                    )
                }
            },
        }
    }
}

/// One HDMA block: sixteen bytes from the source into VRAM.
#[verifier::opaque]
pub open spec fn hdma_block_result(b: BoardView) -> (BoardView, Result<(), Fault>) {
    hdma_copies(BoardView { dma: hdma_taken(b.dma), ..b }, hdma_pairs(b.dma), 0)
}

/// The transfer of a dot's bus step: the timer, interrupt controller, PPU
/// and DMA see the traces, then the system bus serves them if it can.
/// Returns the board, whether it was served, and whether it latched the
/// cartridge clock (to `latch`).
#[verifier::opaque]
pub open spec fn transfer_result(b: BoardView, latch: CartView) -> (BoardView, bool, bool) {
    let (t, p1) = b.timer.on_bus(b.pins);
    let (ic, p2) = interrupt_bus(b.ic, p1);
    let (pp, p3) = ppu_bus(b.ppu, p2);
    let (d, p4) = dma_on_bus(b.dma, p3);
    let b1 = BoardView { timer: t, ic, ppu: pp, dma: d, pins: p4, ..b };
    if !sys_serves(b.sys, p4) {
        (b1, false, false)
    } else {
        let (s, p5, l) = sys_bus(b.sys, p4, latch);
        (BoardView { sys: s, pins: p5, ..b1 }, true, l)
    }
}

/// The system bus's free-running part: the serial and joypad requests are
/// handed out.
pub open spec fn sys_drained(s: SysView) -> SysView {
    SysView {
        serial: SerialView { interrupts: 0, ..s.serial },
        joypad: JoypadView { interrupts: 0, ..s.joypad },
        ..s
    }
}

/// The clock's tick at the start of a dot: every T-cycle is a base dot,
/// every other one in double speed.
pub open spec fn ticked(b: BoardView) -> (BoardView, bool) {
    let ds = b.sys.double_speed;
    let base = !ds || b.clock.speed_phase == 1;
    let clock1 = ClockView {
        dots: if base { (b.clock.dots + 1) as u64 } else { b.clock.dots },
        speed_phase: if ds { (1 - b.clock.speed_phase) as u8 } else { b.clock.speed_phase },
    };
    (BoardView { clock: clock1, ..b }, base)
}

/// The chips' own clocks in a dot: the timer, the PPU (on base dots) and
/// the system bus advance; their requests go into IF; a PPU VBlank counts a
/// frame; an HBlank edge runs an HBlank HDMA block.
#[verifier::opaque]
pub open spec fn advance_result(b: BoardView, base: bool) -> (BoardView, Result<(), Fault>) {
    let (t3, timer_irq) = b.timer.advanced();
    let n: nat = if base { 1 } else { 0 };
    let c = cycled(b.ppu, n);
    let video_bits = c.line.interrupts.bits & 0x1F;
    let sys_bits = (b.sys.serial.interrupts | b.sys.joypad.interrupts) & 0x1F;
    let bits = ((if timer_irq { 0x04u8 } else { 0u8 }) | video_bits) | sys_bits;
    let b3 = BoardView {
        timer: t3,
        ppu: advanced(b.ppu, n),
        frames: if video_bits & 0x01 != 0 && b.frames < u64::MAX { (b.frames + 1) as u64 } else { b.frames },
        sys: sys_drained(b.sys),
        ic: InterruptControllerView { iflag: b.ic.iflag | bits, ..b.ic },
        ..b
    };
    if c.line.entered_hblank && b3.dma.hdma_len != 0xFF && b3.dma.hdma_hblank {
        hdma_block_result(b3)
    } else {
        (b3, Ok(()))
    }
}

/// Dot `dot` (0-3) of an M-cycle: the clock ticks, the transfer resolves
/// on dot 3 before the chips advance, then the chips' clocks advance.
#[verifier::opaque]
pub open spec fn dot_result(b: BoardView, dot: int, latch: CartView) -> (BoardView, Result<(), Fault>, bool) {
    let b0 = BoardView { pins: Pins { transfer: dot == 3, ..b.pins }, ..b };
    if b0.clock.dots == u64::MAX {
        (b0, Err(Fault::ClockSpent), false)
    } else {
        let (b1, base) = ticked(b0);
        let (b2, served, l) = if dot == 3 {
            transfer_result(b1, latch)
        } else {
            (b1, true, false)
        };
        if !served {
            (b2, Err(Fault::Unserved(b2.pins.address)), false)
        } else {
            let (b3, r) = advance_result(b2, base);
            (b3, r, l)
        }
    }
}

/// The end of an M-cycle's dots: a write that unmapped the boot ROM is
/// passed to the PPU, which clears VRAM.
pub open spec fn boot_handed_over(b: BoardView) -> BoardView {
    let s = SysView { boot_just_disabled: false, ..b.sys };
    if b.sys.boot_just_disabled {
        BoardView {
            sys: s,
            ppu: PpuView { vram: Seq::new(0x4000, |i: int| 0u8), boot_rom_enabled: false, ..b.ppu },
            ..b
        }
    } else {
        BoardView { sys: s, ..b }
    }
}

/// The four dots of an M-cycle, stopping at a fault.
#[verifier::opaque]
pub open spec fn dots_result(b: BoardView, latch: CartView) -> (BoardView, Result<(), Fault>, bool) {
    let (b0, r0, l0) = dot_result(b, 0, latch);
    if r0 is Err {
        (b0, r0, l0)
    } else {
        let (b1, r1, l1) = dot_result(b0, 1, latch);
        if r1 is Err {
            (b1, r1, l0 || l1)
        } else {
            let (b2, r2, l2) = dot_result(b1, 2, latch);
            if r2 is Err {
                (b2, r2, l0 || l1 || l2)
            } else {
                let (b3, r3, l3) = dot_result(b2, 3, latch);
                if r3 is Err {
                    (b3, r3, l0 || l1 || l2 || l3)
                } else {
                    (boot_handed_over(b3), Ok(()), l0 || l1 || l2 || l3)
                }
            }
        }
    }
}

/// An M-cycle in which the CPU drives nothing.
#[verifier::opaque]
pub open spec fn idle_result(b: BoardView, latch: CartView) -> (BoardView, Result<(), Fault>, bool) {
    let (b1, r, l) = dots_result(BoardView { pins: Pins { dir: BusDir::Idle, ..b.pins }, ..b }, latch);
    (BoardView { pins: Pins { transfer: false, ..b1.pins }, ..b1 }, r, l)
}

/// The start of an M-cycle: the CPU's free effects run, and an OAM glitch
/// it noted corrupts OAM (the PPU decides whether it bites).
pub open spec fn effects_run(b: BoardView) -> BoardView {
    let d = drained(b.cpu);
    BoardView {
        cpu: CpuView { oam_glitch: false, ..d },
        ppu: if d.oam_glitch { PpuView { oam: oam_corrupted(b.ppu, OamGlitch::Increase), ..b.ppu } } else { b.ppu },
        ..b
    }
}

/// The end of a CPU M-cycle, after the dots: a read colliding with the DMA
/// sees its latch; an illegal opcode fetched faults; otherwise the step
/// completes, and an opcode fetch may be turned into an interrupt dispatch
/// (the interrupt acknowledged). Returns whether an opcode was fetched.
#[verifier::opaque]
pub open spec fn finish_result(b: BoardView) -> (BoardView, Result<bool, Fault>) {
    let pins6 = if b.pins.dir == BusDir::Read && oam_conflicts(b.dma, b.pins.address) {
        Pins { data: b.oam_latch, ..b.pins }
    } else {
        b.pins
    };
    let at_fetch = b.cpu.micro[0] is Fetch;
    if at_fetch && illegal_opcode(pins6.data) {
        (BoardView { pins: pins6, ..b }, Err(Fault::IllegalOpcode(pins6.data)))
    } else {
        let b7 = BoardView {
            cpu: completed(b.cpu, pins6.data),
            pins: Pins { transfer: false, ..pins6 },
            last_op: if at_fetch { b.cpu.ir } else { b.last_op },
            ..b
        };
        if at_fetch {
            let (c8, taken) = offered(b7.cpu, b7.ic.iflag & b7.ic.ienable);
            let ic8 = match taken {
                Some(bit) => InterruptControllerView { iflag: b7.ic.iflag & !bit.bits, ..b7.ic },
                None => b7.ic,
            };
            (BoardView { cpu: c8, ic: ic8, ..b7 }, Ok(true))
        } else {
            (b7, Ok(false))
        }
    }
}

/// A CPU M-cycle from the OAM DMA on: the DMA moves a byte, the CPU drives
/// its bus step through the four dots, and the step finishes.
#[verifier::opaque]
pub open spec fn bus_cycle_result(b: BoardView, latch: CartView) -> (BoardView, Result<bool, Fault>, bool) {
    let (b3, r3) = oam_dma_result(b);
    if r3 is Err {
        (b3, Err(r3->Err_0), false)
    } else if !(b3.cpu.micro.len() > 0 && !(b3.cpu.micro[0] is Exec)) {
        (b3, Err(Fault::NoBusStep), false)
    } else {
        let b4 = BoardView { pins: setup_pins(b3.cpu, b3.pins), ..b3 };
        let (b5, r5, l5) = dots_result(b4, latch);
        if r5 is Err {
            (b5, Err(r5->Err_0), l5)
        } else {
            let (b6, r6) = finish_result(b5);
            (b6, r6, l5)
        }
    }
}

/// A halted CPU's idle M-cycle: the OAM DMA moves a byte and the dots run
/// with nothing driven; no opcode is fetched.
#[verifier::opaque]
pub open spec fn halted_cycle_result(b: BoardView, latch: CartView) -> (BoardView, Result<bool, Fault>, bool) {
    let (b2, r2) = oam_dma_result(b);
    if r2 is Err {
        (b2, Err(r2->Err_0), false)
    } else {
        let (b3, r3, l3) = idle_result(b2, latch);
        (b3, if r3 is Err { Err(r3->Err_0) } else { Ok(false) }, l3)
    }
}

/// One M-cycle. The CPU's free effects run. A halted CPU with nothing
/// pending idles; with something pending it wakes, arming the HALT bug if
/// HALT itself ran with IME clear, and the M-cycle goes on as a running
/// CPU's: see `bus_cycle_result`.
#[verifier::opaque]
pub open spec fn m_cycle_result(b: BoardView, latch: CartView) -> (BoardView, Result<bool, Fault>, bool) {
    let b1 = effects_run(b);
    let c1 = b1.cpu;
    if c1.halted && b1.ic.iflag & b1.ic.ienable == 0 {
        halted_cycle_result(b1, latch)
    } else {
        let c2 = if c1.halted {
            CpuView { halted: false, halt_bug: if !b.cpu.halted && !c1.ime { true } else { c1.halt_bug }, ..c1 }
        } else {
            c1
        };
        bus_cycle_result(BoardView { cpu: c2, ..b1 }, latch)
    }
}

/// `n` is what one M-cycle from `b` gives with result `r`: the model run
/// with the cartridge clock, if the cycle latched it, at a value the host
/// clock can give.
pub open spec fn m_cycle_ok(b: BoardView, latch: CartView, n: BoardView, r: Result<bool, Fault>) -> bool {
    let (m, mr, l) = m_cycle_result(b, latch);
    &&& m == n
    &&& mr == r
    &&& l ==> clock_latched(b.sys.cart, latch)
}

pub open spec fn m_cycle_step(b: BoardView, n: BoardView, r: Result<bool, Fault>) -> bool {
    exists|latch: CartView| #[trigger] m_cycle_ok(b, latch, n, r)
}

/// `n` is reached from `b` by `k` fault-free M-cycles, the last one
/// fetching an opcode exactly when `fetched` (the earlier ones none).
pub open spec fn m_cycles(b: BoardView, k: nat, n: BoardView, fetched: bool) -> bool
    decreases k,
{
    if k == 0 {
        n == b && !fetched
    } else {
        exists|mid: BoardView|
            #![trigger m_cycle_step(mid, n, Ok(fetched))]
            m_cycles(b, (k - 1) as nat, mid, false) && m_cycle_step(mid, n, Ok(fetched))
    }
}

/// The HDMA blocks `b..blocks` of a general-purpose transfer, each followed
/// by 8 idle M-cycles (16 in double speed).
#[verifier::opaque]
pub open spec fn gpdma_blocks(b: BoardView, k: int, blocks: int) -> (BoardView, Result<(), Fault>)
    decreases blocks - k, 0int,
{
    if k < 0 || k >= blocks {
        (b, Ok(()))
    } else {
        let (b1, r1) = hdma_block_result(b);
        if r1 is Err {
            (b1, r1)
        } else {
            let idles: int = if b1.sys.double_speed { 16 } else { 8 };
            let (b2, r2) = idle_cycles(b1, 0, idles);
            if r2 is Err {
                (b2, r2)
            } else {
                gpdma_blocks(b2, k + 1, blocks)
            }
        }
    }
}

/// Idle M-cycles `i..n`.
#[verifier::opaque]
pub open spec fn idle_cycles(b: BoardView, i: int, n: int) -> (BoardView, Result<(), Fault>)
    decreases n - i,
{
    if i < 0 || i >= n {
        (b, Ok(()))
    } else {
        let (b1, r, _) = idle_result(b, b.sys.cart);
        if r is Err {
            (b1, r)
        } else {
            idle_cycles(b1, i + 1, n)
        }
    }
}

/// What follows an instruction's fetch: a general-purpose HDMA it requested
/// copies at once, and a STOP asks the system bus for a speed switch.
#[verifier::opaque]
pub open spec fn after_fetch(b: BoardView) -> (BoardView, Result<(), Fault>) {
    let d = DmaView { gpdma_request: false, ..b.dma };
    let b1 = BoardView { dma: d, ..b };
    let (b2, r2) = if b.dma.gpdma_request {
        gpdma_blocks(b1, 0, b1.dma.hdma_len + 1)
    } else {
        (b1, Ok(()))
    };
    if r2 is Err {
        (b2, r2)
    } else {
        let c = CpuView { speed_switch: false, ..b2.cpu };
        let s = if b2.cpu.speed_switch && b2.sys.key1_armed {
            SysView { double_speed: !b2.sys.double_speed, key1_armed: false, ..b2.sys }
        } else {
            b2.sys
        };
        (BoardView { cpu: c, sys: s, ..b2 }, Ok(()))
    }
}

/// One call of `step(limit)` from `b` can end in `n` with result `r`: up to
/// `limit` M-cycles until one fetches an opcode; after a fetch, what follows
/// it; a fault in any part ends the step with that fault.
pub open spec fn step_ok(b: BoardView, limit: nat, n: BoardView, r: Result<(u32, bool), Fault>) -> bool {
    &&& r is Ok ==> exists|k: nat, mid: BoardView|
        #![trigger m_cycles(b, k, mid, r->Ok_0.1)]
        {
            &&& 1 <= k <= limit
            &&& r->Ok_0.0 == 4 * k
            &&& m_cycles(b, k, mid, r->Ok_0.1)
            &&& (!r->Ok_0.1 ==> k == limit && n == mid)
            &&& (r->Ok_0.1 ==> after_fetch(mid).0 == n && after_fetch(mid).1 is Ok)
        }
    &&& r is Err ==> {
        ||| exists|k: nat, mid: BoardView|
            k < limit && #[trigger] m_cycles(b, k, mid, false) && m_cycle_step(mid, n, Err(r->Err_0))
        ||| exists|k: nat, mid: BoardView|
            1 <= k <= limit && #[trigger] m_cycles(b, k, mid, true) && after_fetch(mid).0 == n
                && after_fetch(mid).1 == Err::<(), Fault>(r->Err_0)
    }
}

/// Copying an HDMA block reads only: the cartridge is left as it is, and
/// the traces end up as they were or driving a read.
pub proof fn lemma_copies_quiet(b: BoardView, pairs: Seq<(u16, u16)>, i: int)
    ensures
        hdma_copies(b, pairs, i).0.sys.cart == b.sys.cart,
        hdma_copies(b, pairs, i).0.pins.dir == b.pins.dir || hdma_copies(b, pairs, i).0.pins.dir
            == BusDir::Read,
        hdma_copies(b, pairs, i).0.cpu == b.cpu,
    decreases pairs.len() - i,
{
    reveal(bus_read_result);
    if i < 0 || i >= pairs.len() {
    } else {
        let (src, dst) = pairs[i];
        let (b1, r) = bus_read_result(b, src);
        if r is Ok {
            let o = b1.ppu.vram_bank * 0x2000 + dst - 0x8000;
            if !(dst < 0x8000 || o >= 0x4000) {
                lemma_copies_quiet(
                    BoardView { ppu: PpuView { vram: b1.ppu.vram.update(o, r->Ok_0), ..b1.ppu }, ..b1 },
                    pairs,
                    i + 1,
                );
            }
        }
    }
}

/// A transfer with no write on the traces is the same whatever clock latch
/// is given, latches nothing, keeps the cartridge and the CPU, and leaves
/// the traces' direction.
pub proof fn lemma_transfer_quiet(b: BoardView, l: CartView)
    requires
        b.pins.dir != BusDir::Write,
    ensures
        transfer_result(b, l) == transfer_result(b, b.sys.cart),
        !transfer_result(b, l).2,
        transfer_result(b, l).0.sys.cart == b.sys.cart,
        transfer_result(b, l).0.cpu == b.cpu,
        transfer_result(b, l).0.pins.dir == b.pins.dir,
{
    reveal(transfer_result);
}

/// The chips' clocks read only through the bus: the cartridge and the CPU
/// are kept, and the traces end up as they were or driving a read.
pub proof fn lemma_advance_quiet(b: BoardView, base: bool)
    ensures
        advance_result(b, base).0.sys.cart == b.sys.cart,
        advance_result(b, base).0.cpu == b.cpu,
        advance_result(b, base).0.pins.dir == b.pins.dir || advance_result(b, base).0.pins.dir == BusDir::Read,
{
    reveal(advance_result);
    reveal(hdma_block_result);
    let (t3, timer_irq) = b.timer.advanced();
    let n: nat = if base { 1 } else { 0 };
    let c = cycled(b.ppu, n);
    let video_bits = c.line.interrupts.bits & 0x1F;
    let sys_bits = (b.sys.serial.interrupts | b.sys.joypad.interrupts) & 0x1F;
    let bits = ((if timer_irq { 0x04u8 } else { 0u8 }) | video_bits) | sys_bits;
    let b3 = BoardView {
        timer: t3,
        ppu: advanced(b.ppu, n),
        frames: if video_bits & 0x01 != 0 && b.frames < u64::MAX { (b.frames + 1) as u64 } else { b.frames },
        sys: sys_drained(b.sys),
        ic: InterruptControllerView { iflag: b.ic.iflag | bits, ..b.ic },
        ..b
    };
    lemma_copies_quiet(BoardView { dma: hdma_taken(b3.dma), ..b3 }, hdma_pairs(b3.dma), 0);
}

/// A dot with no write on the traces (or no transfer at all) is the same
/// whatever clock latch is given, latches nothing, keeps the cartridge and
/// the CPU, and leaves no write on the traces.
pub proof fn lemma_quiet_dot(b: BoardView, dot: int, l: CartView)
    requires
        dot != 3 || b.pins.dir != BusDir::Write,
    ensures
        dot_result(b, dot, l) == dot_result(b, dot, b.sys.cart),
        !dot_result(b, dot, l).2,
        dot_result(b, dot, l).0.sys.cart == b.sys.cart,
        dot_result(b, dot, l).0.cpu == b.cpu,
        b.pins.dir != BusDir::Write ==> dot_result(b, dot, l).0.pins.dir != BusDir::Write,
{
    reveal(dot_result);
    let b0 = BoardView { pins: Pins { transfer: dot == 3, ..b.pins }, ..b };
    if b0.clock.dots != u64::MAX {
        let (b1, base) = ticked(b0);
        if dot == 3 {
            lemma_transfer_quiet(b1, l);
            lemma_advance_quiet(transfer_result(b1, l).0, base);
        } else {
            lemma_advance_quiet(b1, base);
        }
    }
}

/// The four dots with no write on the traces: the same whatever clock latch
/// is given, latching nothing and keeping the cartridge.
pub proof fn lemma_quiet_dots(b: BoardView, l: CartView)
    requires
        b.pins.dir != BusDir::Write,
    ensures
        dots_result(b, l) == dots_result(b, b.sys.cart),
        !dots_result(b, l).2,
        dots_result(b, l).0.sys.cart == b.sys.cart,
{
    reveal(dots_result);
    lemma_quiet_dot(b, 0, l);
    let b0 = dot_result(b, 0, l).0;
    lemma_quiet_dot(b0, 1, l);
    lemma_quiet_dot(b0, 1, b.sys.cart);
    let b1 = dot_result(b0, 1, l).0;
    lemma_quiet_dot(b1, 2, l);
    lemma_quiet_dot(b1, 2, b.sys.cart);
    let b2 = dot_result(b1, 2, l).0;
    lemma_quiet_dot(b2, 3, l);
    lemma_quiet_dot(b2, 3, b.sys.cart);
}

/// An idle M-cycle latches nothing, keeps the cartridge, and does not
/// depend on the clock latch given.
pub proof fn lemma_quiet_idle(b: BoardView, l: CartView)
    ensures
        idle_result(b, l) == idle_result(b, b.sys.cart),
        !idle_result(b, l).2,
        idle_result(b, l).0.sys.cart == b.sys.cart,
{
    reveal(idle_result);
    lemma_quiet_dots(BoardView { pins: Pins { dir: BusDir::Idle, ..b.pins }, ..b }, l);
}

/// An OAM DMA M-cycle only reads through the system bus.
pub proof fn lemma_oam_dma_quiet(b: BoardView)
    ensures
        oam_dma_result(b).0.sys.cart == b.sys.cart,
        oam_dma_result(b).0.cpu == b.cpu,
{
    reveal(oam_dma_result);
    reveal(bus_read_result);
}

/// The CPU's step finishing leaves the system bus alone.
proof fn lemma_finish_keeps_sys(b: BoardView)
    ensures
        finish_result(b).0.sys == b.sys,
{
    reveal(finish_result);
}

proof fn lemma_m_cycles_extend(b: BoardView, k: nat, mid: BoardView, n: BoardView, f: bool)
    requires
        m_cycles(b, k, mid, false),
        m_cycle_step(mid, n, Ok(f)),
    ensures
        m_cycles(b, k + 1, n, f),
{
    assert(((k + 1) - 1) as nat == k);
    assert(m_cycles(b, ((k + 1) - 1) as nat, mid, false));
    assert(m_cycle_step(mid, n, Ok(f)));
}

proof fn lemma_step_err_cycle(b: BoardView, limit: nat, k: nat, mid: BoardView, n: BoardView, e: Fault)
    requires
        k < limit,
        m_cycles(b, k, mid, false),
        m_cycle_step(mid, n, Err(e)),
    ensures
        step_ok(b, limit, n, Err(e)),
{
    assert(m_cycles(b, k, mid, false));
}

proof fn lemma_step_err_after(b: BoardView, limit: nat, k: nat, mid: BoardView, n: BoardView, e: Fault)
    requires
        1 <= k <= limit,
        m_cycles(b, k, mid, true),
        after_fetch(mid).0 == n,
        after_fetch(mid).1 == Err::<(), Fault>(e),
    ensures
        step_ok(b, limit, n, Err(e)),
{
    assert(m_cycles(b, k, mid, true));
}

proof fn lemma_step_done(b: BoardView, limit: nat, k: nat, mid: BoardView, n: BoardView, fetched: bool, c: u32)
    requires
        1 <= k <= limit,
        c == 4 * k,
        m_cycles(b, k, mid, fetched),
        !fetched ==> k == limit && n == mid,
        fetched ==> after_fetch(mid).0 == n && after_fetch(mid).1 is Ok,
    ensures
        step_ok(b, limit, n, Ok((c, fetched))),
{
    let r = Ok::<(u32, bool), Fault>((c, fetched));
    assert(r->Ok_0.1 == fetched && r->Ok_0.0 == c);
    assert(m_cycles(b, k, mid, r->Ok_0.1));
}

impl Motherboard {
    /// Every chip in shape.
    pub closed spec fn wf(&self) -> bool {
        &&& cpu_wf(self.cpu@)
        &&& self.clock.wf()
        &&& self.ppu@.wf()
        &&& self.dma@.wf()
    }

    /// The board with the CPU at power-on, the clock, timer and interrupt
    /// controller at zero, idle traces, and the DMA engines stopped.
    pub fn new(mode: GBMode, ppu: Ppu, sysbus: SystemBus) -> (r: Self)
        requires
            ppu@.wf(),
        ensures
            r.wf(),
            r@.cpu == power_on(mode),
            r@.clock == (ClockView { dots: 0, speed_phase: 0 }),
            r@.pins == (Pins { address: 0, data: 0xFF, dir: BusDir::Idle, master: BusMaster::Cpu, transfer: false }),
            r@.ic == (InterruptControllerView { iflag: 0, ienable: 0 }),
            r@.timer == (TimerView { counter: 0, tima: 0, tma: 0, tac: 0, reload: super::timer::Reload::Idle }),
            r@.ppu == ppu@,
            r@.dma == (DmaView {
                mode,
                oam_src: 0,
                oam_progress: 0,
                oam_active: false,
                oam_setup: 0,
                oam_pending_src: 0,
                oam_running: false,
                hdma_src: 0,
                hdma_dst: 0x8000,
                hdma_len: 0xFF,
                hdma_hblank: false,
                gpdma_request: false,
            }),
            r@.sys == sysbus@,
            r@.oam_latch == 0xFF,
            r@.frames == 0,
            r@.last_op == 0,
    {
        Self {
            cpu: Cpu::new(mode),
            clock: Clock::new(),
            pins: Pins::new(),
            ic: InterruptController::new(),
            timer: Timer::new(),
            ppu,
            dma: Dma::new(mode),
            sysbus,
            oam_latch: 0xFF,
            frames: 0,
            last_op: 0,
        }
    }

    pub fn joypad_down(&mut self, b: JoypadButton)
        requires
            old(self).wf(),
        ensures
            final(self).wf(),
            final(self)@ == (BoardView { sys: final(self)@.sys, ..old(self)@ }),
    {
        self.sysbus.joypad_down(b);
    }

    pub fn joypad_up(&mut self, b: JoypadButton)
        requires
            old(self).wf(),
        ensures
            final(self).wf(),
            final(self)@ == (BoardView { sys: final(self)@.sys, ..old(self)@ }),
    {
        self.sysbus.joypad_up(b);
    }

    /// Reads a byte the system bus holds, without side effects; `None`
    /// where the cartridge has no storage behind the address.
    pub fn peek(&self, a: u16) -> (r: Option<u8>)
        ensures
            r == (if sys_readable(self@.sys, a) {
                Some(sys_read(self@.sys, a))
            } else {
                None
            }),
    {
        if self.sysbus.can_peek(a) {
            Some(self.sysbus.peek(a))
        } else {
            None
        }
    }

    /// Bytes the program has sent over the serial port.
    pub fn serial_output(&self) -> &[u8] {
        self.sysbus.serial_output()
    }

    /// The CPU registers.
    pub fn cpu_regs(&self) -> (r: Registers)
        ensures
            r == self@.cpu.reg,
    {
        self.cpu.registers()
    }

    /// Frames handed to the display so far.
    pub fn frame_count(&self) -> (r: u64)
        ensures
            r == self@.frames,
    {
        self.frames
    }

    /// Whether the instruction that ended at the latest fetch was `LD B,B`,
    /// the test ROMs' breakpoint.
    pub fn magic_break(&self) -> (r: bool)
        ensures
            r == (self@.last_op == 0x40),
    {
        self.last_op == 0x40
    }

    /// Runs one instruction: M-cycles up to and including the next opcode
    /// fetch, at most `limit` of them (a CPU halted with no interrupt
    /// enabled fetches nothing), then what follows a fetch (see
    /// `after_fetch`). Returns the T-cycles run, four per M-cycle, and
    /// whether the fetch came; a fault ends the step (see `step_ok`).
    pub fn step(&mut self, limit: u32) -> (r: Result<(u32, bool), Fault>)
        requires
            old(self).wf(),
            1 <= limit <= 0x1000_0000,
        ensures
            final(self).wf(),
            step_ok(old(self)@, limit as nat, final(self)@, r),
    {
        let ghost start = self@;
        let mut mcycles: u32 = 0;
        let mut fetched = false;
        while mcycles < limit && !fetched
            invariant
                self.wf(),
                mcycles <= limit <= 0x1000_0000,
                fetched ==> mcycles >= 1,
                start == old(self)@,
                m_cycles(start, mcycles as nat, self@, fetched),
            decreases limit - mcycles,
        {
            let ghost before = self@;
            let r = self.m_cycle();
            proof {
                assert(m_cycle_step(before, self@, r));
            }
            match r {
                Ok(f) => {
                    proof {
                        lemma_m_cycles_extend(start, mcycles as nat, before, self@, f);
                    }
                    fetched = f;
                },
                Err(e) => {
                    proof {
                        lemma_step_err_cycle(start, limit as nat, mcycles as nat, before, self@, e);
                    }
                    return Err(e);
                },
            }
            mcycles += 1;
        }
        let ghost mid = self@;
        let c = mcycles * 4;
        if fetched {
            let r = self.after_fetch();
            proof { assert((self@, r) == after_fetch(mid)); }
            match r {
                Ok(()) => {
                    proof {
                        lemma_step_done(start, limit as nat, mcycles as nat, mid, self@, fetched, c);
                    }
                },
                Err(e) => {
                    proof {
                        lemma_step_err_after(start, limit as nat, mcycles as nat, mid, self@, e);
                    }
                    return Err(e);
                },
            }
        } else {
            proof {
                lemma_step_done(start, limit as nat, mcycles as nat, mid, self@, fetched, c);
            }
        }
        Ok((c, fetched))
    }

    fn after_fetch(&mut self) -> (r: Result<(), Fault>)
        requires
            old(self).wf(),
        ensures
            final(self).wf(),
            (final(self)@, r) == after_fetch(old(self)@),
    {
        proof { reveal(after_fetch); }
        if self.dma.take_gpdma() {
            match self.run_gpdma() {
                Ok(()) => {},
                Err(e) => return Err(e),
            }
        }
        if self.cpu.take_speed_switch() {
            self.sysbus.try_speed_switch();
        }
        Ok(())
    }

    // -- one M-cycle -------------------------------------------------------

    /// One M-cycle (see `m_cycle_result`). Returns whether an opcode was
    /// fetched.
    pub fn m_cycle(&mut self) -> (r: Result<bool, Fault>)
        requires
            old(self).wf(),
        ensures
            final(self).wf(),
            m_cycle_ok(old(self)@, final(self)@.sys.cart, final(self)@, r),
    {
        proof { reveal(m_cycle_result); }
        let ghost b = self@;
        let was_halted = self.cpu.is_halted();
        self.cpu.run_free_acts();
        if self.cpu.take_oam_glitch() {
            self.ppu.corrupt_oam_inc();
        }
        assert(self@ == effects_run(b));
        if self.cpu.is_halted() {
            if !self.ic.pending().is_empty() {
                if !was_halted && !self.cpu.ime() {
                    self.cpu.trigger_halt_bug();
                }
                self.cpu.wake();
            } else {
                return self.halted_cycle();
            }
        }
        self.bus_cycle()
    }

    fn halted_cycle(&mut self) -> (r: Result<bool, Fault>)
        requires
            old(self).wf(),
        ensures
            final(self).wf(),
            ({
                let (n, nr, l) = halted_cycle_result(old(self)@, final(self)@.sys.cart);
                &&& final(self)@ == n
                &&& r == nr
                &&& l ==> clock_latched(old(self)@.sys.cart, final(self)@.sys.cart)
            }),
    {
        proof { reveal(halted_cycle_result); }
        let ghost b = self@;
        match self.step_oam_dma() {
            Ok(()) => {},
            Err(e) => return Err(e),
        }
        proof { lemma_oam_dma_quiet(b); }
        match self.idle_mcycle() {
            Ok(()) => {},
            Err(e) => return Err(e),
        }
        Ok(false)
    }

    fn bus_cycle(&mut self) -> (r: Result<bool, Fault>)
        requires
            old(self).wf(),
        ensures
            final(self).wf(),
            ({
                let (n, nr, l) = bus_cycle_result(old(self)@, final(self)@.sys.cart);
                &&& final(self)@ == n
                &&& r == nr
                &&& l ==> clock_latched(old(self)@.sys.cart, final(self)@.sys.cart)
            }),
    {
        proof { reveal(bus_cycle_result); }
        let ghost b = self@;
        match self.step_oam_dma() {
            Ok(()) => {},
            Err(e) => return Err(e),
        }
        proof { lemma_oam_dma_quiet(b); }
        if !self.cpu.has_bus_op() {
            return Err(Fault::NoBusStep);
        }
        self.cpu.setup(&mut self.pins);
        let ghost b4 = self@;
        match self.run_dots() {
            Ok(()) => {},
            Err(e) => return Err(e),
        }
        let ghost b5 = self@;
        let r = self.finish();
        proof { lemma_finish_keeps_sys(b5); }
        r
    }

    fn finish(&mut self) -> (r: Result<bool, Fault>)
        requires
            old(self).wf(),
            old(self)@.cpu.micro.len() > 0,
            !(old(self)@.cpu.micro[0] is Exec),
        ensures
            final(self).wf(),
            (final(self)@, r) == finish_result(old(self)@),
    {
        proof { reveal(finish_result); }
        if self.pins.dir == BusDir::Read && self.dma.oam_conflict(self.pins.address) {
            self.pins.data = self.oam_latch;
        }
        let at_fetch = self.cpu.at_instruction_boundary();
        if at_fetch && Cpu::is_illegal(self.pins.data) {
            return Err(Fault::IllegalOpcode(self.pins.data));
        }
        if at_fetch {
            self.last_op = self.cpu.ir();
        }
        let fetched = self.cpu.complete(&self.pins);
        self.pins.transfer = false;

        if fetched {
            let pending = self.ic.pending();
            if let Some(bit) = self.cpu.offer_interrupt(pending) {
                self.ic.acknowledge(bit);
            }
        }
        Ok(fetched)
    }

    /// One dot (see `dot_result`).
    fn dot(&mut self, dot: u8) -> (r: Result<(), Fault>)
        requires
            old(self).wf(),
            dot <= 3,
        ensures
            final(self).wf(),
            final(self)@.cpu == old(self)@.cpu,
            ({
                let (n, nr, l) = dot_result(old(self)@, dot as int, final(self)@.sys.cart);
                &&& final(self)@ == n
                &&& r == nr
                &&& l ==> clock_latched(old(self)@.sys.cart, final(self)@.sys.cart)
            }),
    {
        proof { reveal(dot_result); }
        self.pins.transfer = dot == 3;
        if self.clock.dots() == u64::MAX {
            return Err(Fault::ClockSpent);
        }
        let base_dot = self.clock.tick(self.sysbus.double_speed());
        let ghost b1 = self@;
        proof { assert(b1 == ticked(BoardView { pins: Pins { transfer: dot == 3, ..old(self)@.pins }, ..old(self)@ }).0); }
        if dot == 3 {
            let served = self.transfer();
            if !served {
                return Err(Fault::Unserved(self.pins.address));
            }
        }
        let ghost b2 = self@;
        let r = self.advance(base_dot);
        proof { lemma_advance_quiet(b2, base_dot); }
        r
    }

    /// The transfer on the last dot (see `transfer_result`).
    fn transfer(&mut self) -> (served: bool)
        requires
            old(self).wf(),
        ensures
            final(self).wf(),
            final(self)@.cpu == old(self)@.cpu,
            ({
                let (n, sv, l) = transfer_result(old(self)@, final(self)@.sys.cart);
                &&& final(self)@ == n
                &&& served == sv
                &&& l ==> clock_latched(old(self)@.sys.cart, final(self)@.sys.cart)
            }),
    {
        proof { reveal(transfer_result); }
        let _ = self.timer.bus(&mut self.pins);
        let _ = self.ic.bus(&mut self.pins);
        let _ = self.ppu.bus(&mut self.pins);
        let _ = self.dma.bus(&mut self.pins);
        if !self.sysbus.serves(&self.pins) {
            return false;
        }
        let _ = self.sysbus.bus(&mut self.pins);
        true
    }

    /// The chips' clocks in a dot (see `advance_result`).
    fn advance(&mut self, base_dot: bool) -> (r: Result<(), Fault>)
        requires
            old(self).wf(),
        ensures
            final(self).wf(),
            (final(self)@, r) == advance_result(old(self)@, base_dot),
    {
        proof { reveal(advance_result); }
        let t = self.timer.advance(base_dot);
        let video = self.ppu.advance(base_dot);
        if video.irq.bits() & 0x01 != 0 && self.frames < u64::MAX {
            self.frames = self.frames + 1;
        }
        let s = self.sysbus.advance(base_dot);
        self.ic.request(t.irq.union(video.irq).union(s.irq));
        if video.hblank_edge {
            return self.step_hdma_hblank();
        }
        Ok(())
    }

    /// The four dots of an M-cycle (see `dots_result`).
    fn run_dots(&mut self) -> (r: Result<(), Fault>)
        requires
            old(self).wf(),
        ensures
            final(self).wf(),
            final(self)@.cpu == old(self)@.cpu,
            ({
                let (n, nr, l) = dots_result(old(self)@, final(self)@.sys.cart);
                &&& final(self)@ == n
                &&& r == nr
                &&& l ==> clock_latched(old(self)@.sys.cart, final(self)@.sys.cart)
            }),
    {
        proof { reveal(dots_result); }
        let ghost b0 = self@;
        match self.dot(0) {
            Ok(()) => {},
            Err(e) => {
                proof { lemma_quiet_dot(b0, 0, self@.sys.cart); }
                return Err(e);
            },
        }
        let ghost b1 = self@;
        proof { lemma_quiet_dot(b0, 0, b1.sys.cart); }
        match self.dot(1) {
            Ok(()) => {},
            Err(e) => {
                proof { lemma_quiet_dot(b0, 0, self@.sys.cart); lemma_quiet_dot(b1, 1, self@.sys.cart); }
                return Err(e);
            },
        }
        let ghost b2 = self@;
        proof { lemma_quiet_dot(b1, 1, b2.sys.cart); }
        match self.dot(2) {
            Ok(()) => {},
            Err(e) => {
                proof {
                    lemma_quiet_dot(b0, 0, self@.sys.cart);
                    lemma_quiet_dot(b1, 1, self@.sys.cart);
                    lemma_quiet_dot(b2, 2, self@.sys.cart);
                }
                return Err(e);
            },
        }
        let ghost b3 = self@;
        proof { lemma_quiet_dot(b2, 2, b3.sys.cart); }
        match self.dot(3) {
            Ok(()) => {},
            Err(e) => {
                proof {
                    lemma_quiet_dot(b0, 0, self@.sys.cart);
                    lemma_quiet_dot(b1, 1, self@.sys.cart);
                    lemma_quiet_dot(b2, 2, self@.sys.cart);
                }
                return Err(e);
            },
        }
        let ghost b4 = self@;
        if self.sysbus.take_boot_disabled() {
            self.ppu.on_boot_rom_disabled();
        }
        proof {
            lemma_quiet_dot(b0, 0, self@.sys.cart);
            lemma_quiet_dot(b1, 1, self@.sys.cart);
            lemma_quiet_dot(b2, 2, self@.sys.cart);
            assert(self@ == boot_handed_over(b4));
        }
        Ok(())
    }

    fn idle_mcycle(&mut self) -> (r: Result<(), Fault>)
        requires
            old(self).wf(),
        ensures
            final(self).wf(),
            final(self)@.cpu == old(self)@.cpu,
            ({
                let (n, nr, l) = idle_result(old(self)@, final(self)@.sys.cart);
                &&& final(self)@ == n
                &&& r == nr
                &&& l ==> clock_latched(old(self)@.sys.cart, final(self)@.sys.cart)
            }),
    {
        proof { reveal(idle_result); }
        self.pins.dir = BusDir::Idle;
        let r = self.run_dots();
        self.pins.transfer = false;
        r
    }

    // -- DMA driving -------------------------------------------------------

    /// Reads an address as the DMA engine, without advancing any chip.
    fn bus_read(&mut self, addr: u16) -> (r: Result<u8, Fault>)
        requires
            old(self).wf(),
        ensures
            final(self).wf(),
            (final(self)@, r) == bus_read_result(old(self)@, addr),
            final(self)@.dma == old(self)@.dma,
            final(self)@.cpu == old(self)@.cpu,
            final(self)@.sys.cart == old(self)@.sys.cart,
    {
        proof { reveal(bus_read_result); }
        self.pins.address = addr;
        self.pins.dir = BusDir::Read;
        self.pins.master = BusMaster::OamDma;
        self.pins.transfer = true;
        self.pins.data = 0xFF;
        let _ = self.ppu.bus(&mut self.pins);
        let _ = self.dma.bus(&mut self.pins);
        if !self.sysbus.serves(&self.pins) {
            return Err(Fault::Unserved(addr));
        }
        let _ = self.sysbus.bus(&mut self.pins);
        self.pins.transfer = false;
        self.pins.master = BusMaster::Cpu;
        Ok(self.pins.data)
    }

    fn step_oam_dma(&mut self) -> (r: Result<(), Fault>)
        requires
            old(self).wf(),
        ensures
            final(self).wf(),
            (final(self)@, r) == oam_dma_result(old(self)@),
    {
        proof { reveal(oam_dma_result); }
        if let Some(src) = self.dma.oam_next() {
            let byte = match self.bus_read(src) {
                Ok(b) => b,
                Err(e) => return Err(e),
            };
            let offset = self.dma.oam_progress();
            self.ppu.write_oam(offset, byte);
            self.oam_latch = byte;
            self.dma.oam_feed(byte);
        }
        Ok(())
    }

    fn step_hdma_hblank(&mut self) -> (r: Result<(), Fault>)
        requires
            old(self).wf(),
        ensures
            final(self).wf(),
            (final(self)@, r) == (if old(self)@.dma.hdma_len != 0xFF && old(self)@.dma.hdma_hblank {
                hdma_block_result(old(self)@)
            } else {
                (old(self)@, Ok(()))
            }),
            final(self)@.cpu == old(self)@.cpu,
            final(self)@.sys.cart == old(self)@.sys.cart,
    {
        if !self.dma.hdma_hblank_active() {
            return Ok(());
        }
        self.hdma_copy_block()
    }

    fn run_gpdma(&mut self) -> (r: Result<(), Fault>)
        requires
            old(self).wf(),
        ensures
            final(self).wf(),
            (final(self)@, r) == gpdma_blocks(old(self)@, 0, old(self)@.dma.hdma_len + 1),
    {
        proof {
            reveal(gpdma_blocks);
            reveal(idle_cycles);
        }
        let blocks: u16 = self.dma.hdma_len() as u16 + 1;
        let ghost total = gpdma_blocks(self@, 0, blocks as int);
        let mut b: u16 = 0;
        while b < blocks
            invariant
                self.wf(),
                blocks <= 256,
                b <= blocks,
                gpdma_blocks(self@, b as int, blocks as int) == total,
                total == gpdma_blocks(old(self)@, 0, old(self)@.dma.hdma_len + 1),
            decreases blocks - b,
        {
            proof {
                reveal(gpdma_blocks);
                reveal(idle_cycles);
            }
            let ghost block_start = self@;
            match self.hdma_copy_block() {
                Ok(()) => {},
                Err(e) => return Err(e),
            }
            // The bus still advances 8 M-cycles per 16-byte block while the
            // CPU waits (doubled in double speed).
            let idles: u32 = if self.sysbus.double_speed() { 16 } else { 8 };
            let ghost after_block = self@;
            let mut i: u32 = 0;
            while i < idles
                invariant
                    self.wf(),
                    idles <= 16,
                    i <= idles,
                    idle_cycles(self@, i as int, idles as int) == idle_cycles(after_block, 0, idles as int),
                    b < blocks,
                    gpdma_blocks(block_start, b as int, blocks as int) == total,
                    total == gpdma_blocks(old(self)@, 0, old(self)@.dma.hdma_len + 1),
                    hdma_block_result(block_start).0 == after_block,
                    hdma_block_result(block_start).1 is Ok,
                    idles == (if after_block.sys.double_speed { 16u32 } else { 8u32 }),
                decreases idles - i,
            {
                proof {
                    reveal(idle_cycles);
                    reveal(gpdma_blocks);
                }
                let ghost cur = self@;
                let r = self.idle_mcycle();
                proof { lemma_quiet_idle(cur, self@.sys.cart); }
                match r {
                    Ok(()) => {},
                    Err(e) => return Err(e),
                }
                i = i + 1;
            }
            b = b + 1;
        }
        Ok(())
    }

    fn hdma_copy_block(&mut self) -> (r: Result<(), Fault>)
        requires
            old(self).wf(),
        ensures
            final(self).wf(),
            (final(self)@, r) == hdma_block_result(old(self)@),
            final(self)@.cpu == old(self)@.cpu,
            final(self)@.sys.cart == old(self)@.sys.cart,
    {
        proof { reveal(hdma_block_result); }
        let ghost total = hdma_block_result(self@);
        let pairs = self.dma.hdma_block();
        proof {
            assert(pairs@ =~= hdma_pairs(old(self)@.dma));
            assert(self@ == BoardView { dma: hdma_taken(old(self)@.dma), ..old(self)@ });
            lemma_copies_quiet(self@, pairs@, 0);
        }
        let mut i: usize = 0;
        while i < pairs.len()
            invariant
                self.wf(),
                pairs@ == hdma_pairs(old(self)@.dma),
                i <= pairs.len(),
                hdma_copies(self@, pairs@, i as int) == total,
                total == hdma_block_result(old(self)@),
                total.0.cpu == old(self)@.cpu,
                total.0.sys.cart == old(self)@.sys.cart,
            decreases pairs.len() - i,
        {
            let (src, dst) = pairs[i];
            let byte = match self.bus_read(src) {
                Ok(b) => b,
                Err(e) => return Err(e),
            };
            let bank = self.ppu.vram_bank();
            if dst < 0x8000 || bank * 0x2000 + (dst as usize) - 0x8000 >= 0x4000 {
                return Err(Fault::VramOutOfRange(dst));
            }
            self.ppu.write_vram_dma(dst, byte);
            i = i + 1;
        }
        Ok(())
    }
}

} // verus!
