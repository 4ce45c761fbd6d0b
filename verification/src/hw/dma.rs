use super::bus::{BusDir, Chip, Pins, Ticked};
use crate::bits::lemma_page;
use crate::components::mode::GBMode;
use vstd::prelude::*;

verus! {

/// The DMA engines: OAM DMA (0xFF46) copies 160 bytes into OAM one per
/// M-cycle after a 2 M-cycle setup; on CGB, HDMA (0xFF51-0xFF55) copies
/// 16-byte blocks into VRAM, all at once (general purpose) or one block per
/// HBlank.
pub struct Dma {
    mode: GBMode,

    // OAM DMA
    oam_src: u16,
    pub oam_progress: u16,
    pub oam_active: bool,
    oam_setup: u8,
    oam_pending_src: u16,
    oam_running: bool,

    // HDMA (CGB). hdma_len == 0xFF means inactive.
    hdma_src: u16,
    hdma_dst: u16,
    hdma_len: u8,
    hdma_hblank: bool,
    gpdma_request: bool,
}

pub struct DmaView {
    pub mode: GBMode,
    pub oam_src: u16,
    pub oam_progress: u16,
    pub oam_active: bool,
    pub oam_setup: u8,
    pub oam_pending_src: u16,
    pub oam_running: bool,
    pub hdma_src: u16,
    pub hdma_dst: u16,
    pub hdma_len: u8,
    pub hdma_hblank: bool,
    pub gpdma_request: bool,
}

impl View for Dma {
    type V = DmaView;

    closed spec fn view(&self) -> DmaView {
        DmaView {
            mode: self.mode,
            oam_src: self.oam_src,
            oam_progress: self.oam_progress,
            oam_active: self.oam_active,
            oam_setup: self.oam_setup,
            oam_pending_src: self.oam_pending_src,
            oam_running: self.oam_running,
            hdma_src: self.hdma_src,
            hdma_dst: self.hdma_dst,
            hdma_len: self.hdma_len,
            hdma_hblank: self.hdma_hblank,
            gpdma_request: self.gpdma_request,
        }
    }
}

impl DmaView {
    /// OAM DMA sources are page-aligned.
    pub open spec fn wf(self) -> bool {
        &&& self.oam_src % 256 == 0
        &&& self.oam_pending_src % 256 == 0
    }
}

/// The registers this engine answers: DMA and HDMA1-5.
pub open spec fn dma_owns(addr: u16) -> bool {
    addr == 0xFF46 || (0xFF51 <= addr <= 0xFF55)
}

/// One M-cycle of OAM DMA: the engine's next state and the source address
/// to copy from this M-cycle, if any.
pub open spec fn oam_step(m: DmaView) -> (DmaView, Option<u16>) {
    if !m.oam_active {
        (m, None)
    } else if m.oam_setup > 0 {
        let setup = (m.oam_setup - 1) as u8;
        if setup == 0 {
            let n = DmaView { oam_setup: 0, oam_src: m.oam_pending_src, oam_progress: 0, oam_running: true, ..m };
            (n, Some(n.oam_src))
        } else if m.oam_running {
            if m.oam_progress >= 0xA0 {
                (DmaView { oam_setup: setup, oam_running: false, ..m }, None)
            } else {
                (DmaView { oam_setup: setup, ..m }, Some((m.oam_src + m.oam_progress) as u16))
            }
        } else {
            (DmaView { oam_setup: setup, ..m }, None)
        }
    } else if m.oam_progress >= 0xA0 {
        (DmaView { oam_active: false, oam_running: false, ..m }, None)
    } else {
        (m, Some((m.oam_src + m.oam_progress) as u16))
    }
}

/// Whether a CPU access to `addr` collides with a running OAM DMA: OAM
/// itself always, and on CGB any address on the same bus (external or
/// internal) as the source.
pub open spec fn oam_conflicts(m: DmaView, addr: u16) -> bool {
    m.oam_running && ((0xFE00 <= addr <= 0xFE9F) || (m.mode != GBMode::DMG && same_bus(m.oam_src, addr)))
}

pub open spec fn external_bus(a: u16) -> bool {
    a <= 0x7FFF || (0xA000 <= a <= 0xBFFF)
}

pub open spec fn internal_bus(a: u16) -> bool {
    0xC000 <= a <= 0xFDFF
}

pub open spec fn same_bus(src: u16, addr: u16) -> bool {
    (external_bus(src) && external_bus(addr)) || (internal_bus(src) && internal_bus(addr))
}

/// HDMA5 written: clearing bit 7 during an HBlank transfer cancels it;
/// otherwise a transfer of `v & 0x7F` + 1 blocks starts, by HBlank (bit 7
/// set) or all at once.
pub open spec fn hdma_started(m: DmaView, v: u8) -> DmaView {
    if m.hdma_len != 0xFF && v & 0x80 == 0 {
        DmaView { hdma_len: 0xFF, hdma_hblank: false, ..m }
    } else {
        let hblank = v & 0x80 != 0;
        DmaView {
            hdma_len: v & 0x7F,
            hdma_hblank: hblank,
            gpdma_request: if hblank { m.gpdma_request } else { true },
            ..m
        }
    }
}

/// The engine's side of one bus access.
pub open spec fn dma_on_bus(m: DmaView, pins: Pins) -> (DmaView, Pins) {
    let cgb = m.mode != GBMode::DMG;
    let a = pins.address;
    let d = pins.data;
    if !(pins.transfer && dma_owns(a)) {
        (m, pins)
    } else if pins.dir == BusDir::Read {
        if a == 0xFF46 {
            (m, Pins { data: (m.oam_src / 256) as u8, ..pins })
        } else if a == 0xFF55 && cgb {
            (m, Pins { data: m.hdma_len, ..pins })
        } else {
            (m, Pins { data: 0xFF, ..pins })
        }
    } else if pins.dir == BusDir::Write {
        if a == 0xFF46 {
            (DmaView { oam_pending_src: ((d as u16) * 256) as u16, oam_setup: 2, oam_active: true, ..m }, pins)
        } else if !cgb {
            (m, pins)
        } else if a == 0xFF51 {
            (DmaView { hdma_src: (m.hdma_src & 0x00FF) | ((d as u16) << 8u16), ..m }, pins)
        } else if a == 0xFF52 {
            (DmaView { hdma_src: (m.hdma_src & 0xFF00) | (d as u16 & 0xF0), ..m }, pins)
        } else if a == 0xFF53 {
            (DmaView { hdma_dst: 0x8000 | (m.hdma_dst & 0x00FF) | ((d as u16 & 0x1F) << 8u16), ..m }, pins)
        } else if a == 0xFF54 {
            (DmaView { hdma_dst: (m.hdma_dst & 0xFF00) | (d as u16 & 0xF0), ..m }, pins)
        } else {
            (hdma_started(m, d), pins)
        }
    } else {
        (m, pins)
    }
}

impl Dma {
    pub fn new(mode: GBMode) -> (r: Self)
        ensures
            r@ == (DmaView {
                mode,
                oam_src: 0,
                oam_progress: 0,
                oam_active: false,
                oam_setup: 0,
                oam_pending_src: 0,
                oam_running: false,
                hdma_src: 0,
                hdma_dst: 0x8000,
                hdma_len: 0xFF,
                hdma_hblank: false,
                gpdma_request: false,
            }),
            r@.wf(),
    {
        Self {
            mode,
            oam_src: 0,
            oam_progress: 0,
            oam_active: false,
            oam_setup: 0,
            oam_pending_src: 0,
            oam_running: false,
            hdma_src: 0,
            hdma_dst: 0x8000,
            hdma_len: 0xFF,
            hdma_hblank: false,
            gpdma_request: false,
        }
    }

    fn owns(addr: u16) -> (r: bool)
        ensures
            r == dma_owns(addr),
    {
        addr == 0xFF46 || (0xFF51 <= addr && addr <= 0xFF55)
    }

    fn start_oam(&mut self, value: u8)
        ensures
            final(self)@ == (DmaView {
                oam_pending_src: ((value as u16) * 256) as u16,
                oam_setup: 2,
                oam_active: true,
                ..old(self)@
            }),
            final(self)@.oam_pending_src % 256 == 0,
    {
        proof { lemma_page(value); }
        self.oam_pending_src = (value as u16) << 8u16;
        self.oam_setup = 2;
        self.oam_active = true;
    }

    fn start_hdma(&mut self, v: u8)
        ensures
            final(self)@ == hdma_started(old(self)@, v),
    {
        // Clearing bit 7 while an HBlank transfer is active cancels it.
        if self.hdma_len != 0xFF && (v & 0x80) == 0 {
            self.hdma_len = 0xFF;
            self.hdma_hblank = false;
            return;
        }
        self.hdma_len = v & 0x7F;
        self.hdma_hblank = (v & 0x80) != 0;
        if !self.hdma_hblank {
            // General-purpose DMA: the motherboard performs the whole copy at
            // once, halting the CPU.
            self.gpdma_request = true;
        }
    }

    /// Steps OAM DMA one M-cycle and returns the address to copy from now.
    pub fn oam_next(&mut self) -> (r: Option<u16>)
        requires
            old(self)@.wf(),
        ensures
            (final(self)@, r) == oam_step(old(self)@),
            final(self)@.wf(),
    {
        if !self.oam_active {
            return None;
        }

        if self.oam_setup > 0 {
            self.oam_setup -= 1;
            if self.oam_setup == 0 {
                // Setup elapsed: the pending source takes over and the transfer
                // begins moving its first byte this very M-cycle.
                self.oam_src = self.oam_pending_src;
                self.oam_progress = 0;
                self.oam_running = true;
                return Some(self.oam_src + self.oam_progress);
            }
            // Still in setup. A restart's previous transfer keeps running;
            // a fresh start moves nothing yet.
            if self.oam_running {
                if self.oam_progress >= 0xA0 {
                    self.oam_running = false;
                    return None;
                }
                return Some(self.oam_src + self.oam_progress);
            }
            return None;
        }

        if self.oam_progress >= 0xA0 {
            // The 160th byte moved on the previous M-cycle; the conflict held
            // through it, and only now does the engine go idle.
            self.oam_active = false;
            self.oam_running = false;
            return None;
        }
        Some(self.oam_src + self.oam_progress)
    }

    /// Record a byte fetched for OAM DMA and advance. Deactivation is deferred
    /// to the next `oam_next` so the final transfer M-cycle still conflicts.
    /// How many bytes of the current OAM transfer have been moved.
    pub fn oam_progress(&self) -> (r: u16)
        ensures
            r == self@.oam_progress,
    {
        self.oam_progress
    }

    pub fn oam_feed(&mut self, _byte: u8)
        requires
            old(self)@.oam_progress < 0xFFFF,
        ensures
            final(self)@ == (DmaView { oam_progress: (old(self)@.oam_progress + 1) as u16, ..old(self)@ }),
    {
        self.oam_progress += 1;
    }

    pub fn oam_conflict(&self, addr: u16) -> (r: bool)
        ensures
            r == oam_conflicts(self@, addr),
    {
        if !self.oam_running {
            return false;
        }

        // OAM is inaccessible on both models while it is being written.
        if 0xFE00 <= addr && addr <= 0xFE9F {
            return true;
        }

        match self.mode {
            GBMode::DMG => false,
            _ => Self::cgb_same_bus(self.oam_src, addr),
        }
    }

    fn cgb_same_bus(src: u16, addr: u16) -> (r: bool)
        ensures
            r == same_bus(src, addr),
    {
        let src_external = src <= 0x7FFF || (0xA000 <= src && src <= 0xBFFF);
        let addr_external = addr <= 0x7FFF || (0xA000 <= addr && addr <= 0xBFFF);
        let src_internal = 0xC000 <= src && src <= 0xFDFF;
        let addr_internal = 0xC000 <= addr && addr <= 0xFDFF;
        (src_external && addr_external) || (src_internal && addr_internal)
    }

    /// Whether a general-purpose HDMA was requested since the last call;
    /// clears the request.
    pub fn take_gpdma(&mut self) -> (r: bool)
        ensures
            r == old(self)@.gpdma_request,
            final(self)@ == (DmaView { gpdma_request: false, ..old(self)@ }),
    {
        let r = self.gpdma_request;
        self.gpdma_request = false;
        r
    }

    pub fn hdma_hblank_active(&self) -> (r: bool)
        ensures
            r == (self@.hdma_len != 0xFF && self@.hdma_hblank),
    {
        self.hdma_len != 0xFF && self.hdma_hblank
    }

    /// The 16 (source, destination) pairs of the next HDMA block; both
    /// addresses then step by 16, and the remaining length counts down, the
    /// transfer ending after the block at length 0.
    pub fn hdma_block(&mut self) -> (r: Vec<(u16, u16)>)
        ensures
            r@.len() == 0x10,
            forall|i: int|
                0 <= i < 0x10 ==> #[trigger] r@[i] == (
                    ((old(self)@.hdma_src + i) % 65536) as u16,
                    ((old(self)@.hdma_dst + i) % 65536) as u16,
                ),
            final(self)@ == (DmaView {
                hdma_src: ((old(self)@.hdma_src + 0x10) % 65536) as u16,
                hdma_dst: ((old(self)@.hdma_dst + 0x10) % 65536) as u16,
                hdma_len: if old(self)@.hdma_len != 0 { (old(self)@.hdma_len - 1) as u8 } else { 0xFF },
                ..old(self)@
            }),
    {
        let mut pairs: Vec<(u16, u16)> = Vec::new();
        for i in 0..0x10u16
            invariant
                pairs@.len() == i,
                forall|j: int|
                    0 <= j < i ==> #[trigger] pairs@[j] == (
                        ((self@.hdma_src + j) % 65536) as u16,
                        ((self@.hdma_dst + j) % 65536) as u16,
                    ),
        {
            pairs.push((self.hdma_src.wrapping_add(i), self.hdma_dst.wrapping_add(i)));
        }
        self.hdma_src = self.hdma_src.wrapping_add(0x10);
        self.hdma_dst = self.hdma_dst.wrapping_add(0x10);
        if self.hdma_len != 0 {
            self.hdma_len -= 1;
        } else {
            self.hdma_len = 0xFF;
        }
        pairs
    }

    pub fn hdma_len(&self) -> (r: u8)
        ensures
            r == self@.hdma_len,
    {
        self.hdma_len
    }
}

impl Chip for Dma {
    fn bus(&mut self, pins: &mut Pins) -> (r: Ticked)
        ensures
            (final(self)@, *final(pins)) == dma_on_bus(old(self)@, *old(pins)),
            old(self)@.wf() ==> final(self)@.wf(),
            r == Ticked::none(),
    {
        if pins.selected(Self::owns(pins.address)) {
            let cgb = self.mode != GBMode::DMG;
            let a = pins.address;
            match pins.dir {
                BusDir::Read => {
                    if a == 0xFF46 {
                        let s = self.oam_src;
                        proof { crate::bits::lemma_word_bytes(s); }
                        pins.data = (self.oam_src >> 8) as u8;
                    } else if a == 0xFF55 && cgb {
                        pins.data = self.hdma_len;
                    } else {
                        // DMG: inert
                        pins.data = 0xFF;
                    }
                },
                BusDir::Write => {
                    if a == 0xFF46 {
                        self.start_oam(pins.data);
                    } else if cgb {
                        if a == 0xFF51 {
                            self.hdma_src = (self.hdma_src & 0x00FF) | ((pins.data as u16) << 8u16);
                        } else if a == 0xFF52 {
                            self.hdma_src = (self.hdma_src & 0xFF00) | (pins.data as u16 & 0xF0);
                        } else if a == 0xFF53 {
                            self.hdma_dst = 0x8000 | (self.hdma_dst & 0x00FF) | ((pins.data as u16 & 0x1F) << 8u16);
                        } else if a == 0xFF54 {
                            self.hdma_dst = (self.hdma_dst & 0xFF00) | (pins.data as u16 & 0xF0);
                        } else {
                            self.start_hdma(pins.data);
                        }
                    }
                },
                _ => {},
            }
        }
        Ticked::default()
    }
}

/// OAM DMA copies the source page in order: a fresh start spends one
/// M-cycle in setup, then copies from the page start, byte k of the page
/// coming while k bytes have been fed, and the engine goes idle once all
/// 160 have moved.
pub proof fn lemma_oam_dma_order(m: DmaView, k: u16)
    requires
        m.wf(),
    ensures
        ({
            let started = DmaView { oam_setup: 2, oam_active: true, oam_running: false, ..m };
            let (s1, a1) = oam_step(started);
            let (s2, a2) = oam_step(s1);
            &&& a1 is None
            &&& a2 == Some(m.oam_pending_src)
            &&& s2.oam_running && s2.oam_setup == 0 && s2.oam_progress == 0
            &&& s2.oam_src == m.oam_pending_src
        }),
        m.oam_active && m.oam_setup == 0 && k < 0xA0 ==> oam_step(DmaView { oam_progress: k, ..m }).1 == Some(
            (m.oam_src + k) as u16,
        ),
        m.oam_active && m.oam_setup == 0 ==> {
            let (s, a) = oam_step(DmaView { oam_progress: 0xA0, ..m });
            a is None && !s.oam_active && !s.oam_running
        },
{
}

/// One M-cycle of OAM DMA as the board drives it: the engine steps, and a
/// byte it hands out is fed back.
pub open spec fn oam_fed(m: DmaView) -> (DmaView, Option<u16>) {
    let (s, a) = oam_step(m);
    if a is Some {
        (DmaView { oam_progress: (s.oam_progress + 1) as u16, ..s }, a)
    } else {
        (s, a)
    }
}

/// `n` M-cycles of OAM DMA: the engine after them and the sources it read,
/// one entry per M-cycle.
pub open spec fn oam_calls(m: DmaView, n: nat) -> (DmaView, Seq<Option<u16>>)
    decreases n,
{
    if n == 0 {
        (m, Seq::empty())
    } else {
        let (s, a) = oam_fed(m);
        let (f, rest) = oam_calls(s, (n - 1) as nat);
        (f, seq![a] + rest)
    }
}

proof fn lemma_oam_run(m: DmaView)
    requires
        m.wf(),
        m.oam_active,
        m.oam_running,
        m.oam_setup == 0,
        m.oam_progress <= 0xA0,
    ensures
        ({
            let n = (0xA1 - m.oam_progress) as nat;
            let (f, out) = oam_calls(m, n);
            &&& out.len() == n
            &&& forall|j: int| 0 <= j < n - 1 ==> out[j] == Some((m.oam_src + m.oam_progress + j) as u16)
            &&& out[n - 1] is None
            &&& !f.oam_active
            &&& !f.oam_running
        }),
    decreases 0xA0 - m.oam_progress,
{
    let n = (0xA1 - m.oam_progress) as nat;
    let (s, a) = oam_fed(m);
    if m.oam_progress < 0xA0 {
        lemma_oam_run(s);
        let (f, rest) = oam_calls(s, (n - 1) as nat);
        assert(oam_calls(m, n) == (f, seq![a] + rest));
        assert forall|j: int| 0 <= j < n - 1 implies (seq![a] + rest)[j] == Some(
            (m.oam_src + m.oam_progress + j) as u16,
        ) by {
            if j > 0 {
                assert((seq![a] + rest)[j] == rest[j - 1]);
            }
        }
    } else {
        reveal_with_fuel(oam_calls, 2);
    }
}

/// A whole OAM DMA transfer: once a write to DMA starts an idle engine on
/// page `v`, its first M-cycle is setup (no byte), the next 160 read bytes
/// 0..159 of the page in order, and the one after finds the transfer done
/// and stops the engine.
pub proof fn lemma_oam_transfer(m: DmaView, v: u8)
    requires
        m.wf(),
        !m.oam_running,
    ensures
        ({
            let started = DmaView {
                oam_pending_src: ((v as u16) * 256) as u16,
                oam_setup: 2,
                oam_active: true,
                ..m
            };
            let (f, out) = oam_calls(started, 162);
            &&& out.len() == 162
            &&& out[0] is None
            &&& forall|i: int| 1 <= i <= 160 ==> out[i] == Some((v as int * 256 + i - 1) as u16)
            &&& out[161] is None
            &&& !f.oam_active
        }),
{
    let started = DmaView { oam_pending_src: ((v as u16) * 256) as u16, oam_setup: 2, oam_active: true, ..m };
    assert(((v as u16) * 256) as u16 == v as int * 256) by (nonlinear_arith)
        requires v < 256;
    let (s1, a1) = oam_fed(started);
    let (s2, a2) = oam_fed(s1);
    assert(a1 is None);
    assert(s1.oam_setup == 1);
    // The second M-cycle starts the copy at byte 0 and feeds it.
    assert(a2 == Some(started.oam_pending_src));
    assert(s2.oam_progress == 1);
    lemma_oam_run(DmaView { oam_progress: 1, ..s2 });
    let (f, rest) = oam_calls(s2, 160);
    assert(oam_calls(s1, 161) == (f, seq![a2] + rest));
    assert(oam_calls(started, 162) == (f, seq![a1] + (seq![a2] + rest)));
    assert forall|i: int| 1 <= i <= 160 implies (seq![a1] + (seq![a2] + rest))[i] == Some(
        (v as int * 256 + i - 1) as u16,
    ) by {
        if i > 1 {
            assert((seq![a1] + (seq![a2] + rest))[i] == rest[i - 2]);
        }
    }
}

} // verus!
