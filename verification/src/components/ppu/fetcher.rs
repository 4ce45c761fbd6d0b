//! The Mode-3 pixel pipeline: the BG/window tile fetcher, the BG and OBJ
//! FIFOs, the pixel shifter, and the sprite fetch/penalty machinery.

use crate::bits::{lemma_bank_bits, lemma_byte_masks, lemma_low5, lemma_plane_bits};
use crate::components::mode::GBMode;
use vstd::prelude::*;

verus! {

/// A byte of video RAM: bank `bank` (0 or 1) at address `a` (0x8000-0x9FFF).
pub open spec fn vram_byte(vram: Seq<u8>, a: u16, bank: int) -> u8 {
    vram[bank * 0x2000 + (a - 0x8000)]
}

fn rd(vram: &[u8], a: u16, bank: usize) -> (r: u8)
    requires
        0x8000 <= a < 0xA000,
        bank <= 1,
        vram@.len() >= 0x4000,
    ensures
        r == vram_byte(vram@, a, bank as int),
{
    vram[bank * 0x2000 + (a as usize - 0x8000)]
}

/// A background pixel queued in the BG FIFO.
#[derive(Clone, Copy, PartialEq, Eq, Structural, Debug)]
pub struct BgPixel {
    pub color: u8,
    pub cgb_attr: u8,
}

impl Default for BgPixel {
    fn default() -> (r: BgPixel)
        ensures
            r == (BgPixel { color: 0, cgb_attr: 0 }),
    {
        BgPixel { color: 0, cgb_attr: 0 }
    }
}

/// A sprite pixel queued in the OBJ FIFO.
#[derive(Clone, Copy, PartialEq, Eq, Structural, Debug)]
pub struct ObjPixel {
    pub color: u8,
    pub palette: bool,
    pub bg_prio: bool,
    pub cgb_attr: u8,
    pub oam_index: u8,
}

/// The transparent OBJ pixel.
pub open spec fn no_obj() -> ObjPixel {
    ObjPixel { color: 0, palette: false, bg_prio: false, cgb_attr: 0, oam_index: 0 }
}

impl Default for ObjPixel {
    fn default() -> (r: ObjPixel)
        ensures
            r == no_obj(),
    {
        ObjPixel { color: 0, palette: false, bg_prio: false, cgb_attr: 0, oam_index: 0 }
    }
}

/// A sprite chosen during the Mode 2 OAM scan (up to 10 per line); `attr`
/// holds the OAM attribute bits (priority 0x80, Y flip 0x40, X flip 0x20,
/// DMG palette 0x10, CGB bank 0x08).
#[derive(Clone, Copy, PartialEq, Eq, Structural, Debug)]
pub struct SelectedSprite {
    pub oam_index: u8,
    pub x: u8,
    pub y: u8,
    pub tile: u8,
    pub attr: u8,
    pub fetched: bool,
}

/// Register snapshot handed to the pipeline for one dot / one line start;
/// `lcdc` holds the LCDC bits.
#[derive(Clone, Copy, PartialEq, Eq, Structural, Debug)]
pub struct Regs {
    pub mode: GBMode,
    pub lcdc: u8,
    pub scx: u8,
    pub scy: u8,
    pub ly: u8,
    pub wx: u8,
    pub wly: u8,
    pub window_y: bool,
    pub opri: bool,
}

/// One emitted pixel: screen column plus the BG and OBJ pixels to resolve.
pub struct Emit {
    pub x: usize,
    pub bg: BgPixel,
    pub obj: ObjPixel,
}

/// BG pixel FIFO, up to two tiles deep so the fetcher runs a tile ahead of
/// the shifter.
struct BgFifo {
    data: Vec<BgPixel>,
    head: usize,
    len: usize,
}

impl BgFifo {
    spec fn wf(self) -> bool {
        self.data@.len() == 16 && self.head < 16 && self.len <= 16
    }

    /// The queued pixels, oldest first.
    spec fn contents(self) -> Seq<BgPixel> {
        Seq::new(self.len as nat, |k: int| self.data@[(self.head + k) % 16])
    }

    fn new() -> (r: Self)
        ensures
            r.wf(),
            r.contents() == Seq::<BgPixel>::empty(),
    {
        let r = Self { data: vec![BgPixel { color: 0, cgb_attr: 0 }; 16], head: 0, len: 0 };
        assert(r.contents() =~= Seq::<BgPixel>::empty());
        r
    }

    fn clear(&mut self)
        requires
            old(self).wf(),
        ensures
            final(self).wf(),
            final(self).contents() == Seq::<BgPixel>::empty(),
    {
        self.head = 0;
        self.len = 0;
        assert(self.contents() =~= Seq::<BgPixel>::empty());
    }

    fn is_empty(&self) -> (r: bool)
        requires
            self.wf(),
        ensures
            r == (self.contents().len() == 0),
    {
        self.len == 0
    }

    fn push(&mut self, p: BgPixel)
        requires
            old(self).wf(),
            old(self).contents().len() < 16,
        ensures
            final(self).wf(),
            final(self).contents() == old(self).contents().push(p),
    {
        let t = (self.head + self.len) % 16;
        self.data.set(t, p);
        self.len += 1;
        assert(self.contents() =~= old(self).contents().push(p));
    }

    fn pop(&mut self) -> (r: Option<BgPixel>)
        requires
            old(self).wf(),
        ensures
            final(self).wf(),
            old(self).contents().len() == 0 ==> r is None && final(self).contents() == old(self).contents(),
            old(self).contents().len() > 0 ==> r == Some(old(self).contents()[0]) && final(self).contents()
                == old(self).contents().drop_first(),
    {
        if self.len == 0 {
            return None;
        }
        let v = self.data[self.head];
        self.head = (self.head + 1) % 16;
        self.len -= 1;
        assert(self.contents() =~= old(self).contents().drop_first());
        Some(v)
    }

    /// Empties the FIFO and queues eight colour-0 pixels.
    fn fill_blank(&mut self)
        ensures
            final(self).wf(),
            final(self).contents() == Seq::new(8, |k: int| BgPixel { color: 0, cgb_attr: 0 }),
    {
        self.data = vec![BgPixel { color: 0, cgb_attr: 0 }; 16];
        self.head = 0;
        self.len = 8;
        assert(self.contents() =~= Seq::new(8, |k: int| BgPixel { color: 0, cgb_attr: 0 }));
    }

    /// Queues a fetched 8-pixel row into the empty FIFO.
    fn load(&mut self, row: &Vec<BgPixel>)
        requires
            old(self).wf(),
            old(self).contents().len() == 0,
            row@.len() == 8,
        ensures
            final(self).wf(),
            final(self).contents() == row@,
    {
        let mut k: usize = 0;
        while k < 8
            invariant
                k <= 8,
                row@.len() == 8,
                self.wf(),
                self.contents() == row@.subrange(0, k as int),
            decreases 8 - k,
        {
            self.push(row[k]);
            k += 1;
            assert(self.contents() =~= row@.subrange(0, k as int));
        }
        assert(row@.subrange(0, 8) =~= row@);
    }
}

/// OBJ FIFO: an 8-slot shift register aligned to the pixel about to be
/// emitted. A sprite fetch overlays its 8 pixels; each emitted BG pixel shifts
/// one OBJ pixel out in lockstep, backfilling transparent.
struct ObjFifo {
    data: Vec<ObjPixel>,
    head: usize,
}

impl ObjFifo {
    spec fn wf(self) -> bool {
        self.data@.len() == 8 && self.head < 8
    }

    /// The eight slots, the one about to be emitted first.
    spec fn slots(self) -> Seq<ObjPixel> {
        Seq::new(8, |k: int| self.data@[(self.head + k) % 8])
    }

    fn new() -> (r: Self)
        ensures
            r.wf(),
            r.slots() == Seq::new(8, |k: int| no_obj()),
    {
        let r = Self { data: vec![ObjPixel { color: 0, palette: false, bg_prio: false, cgb_attr: 0, oam_index: 0 }; 8], head: 0 };
        assert(r.slots() =~= Seq::new(8, |k: int| no_obj()));
        r
    }

    fn clear(&mut self)
        requires
            old(self).wf(),
        ensures
            final(self).wf(),
            final(self).slots() == Seq::new(8, |k: int| no_obj()),
    {
        self.data = vec![ObjPixel { color: 0, palette: false, bg_prio: false, cgb_attr: 0, oam_index: 0 }; 8];
        self.head = 0;
        assert(self.slots() =~= Seq::new(8, |k: int| no_obj()));
    }

    fn shift_out(&mut self) -> (p: ObjPixel)
        requires
            old(self).wf(),
        ensures
            final(self).wf(),
            p == old(self).slots()[0],
            final(self).slots() == old(self).slots().drop_first().push(no_obj()),
    {
        let p = self.data[self.head];
        self.data.set(self.head, ObjPixel { color: 0, palette: false, bg_prio: false, cgb_attr: 0, oam_index: 0 });
        self.head = (self.head + 1) % 8;
        assert(self.slots() =~= old(self).slots().drop_first().push(no_obj()));
        p
    }

    fn slot(&self, pos: usize) -> (p: ObjPixel)
        requires
            self.wf(),
            pos < 8,
        ensures
            p == self.slots()[pos as int],
    {
        self.data[(self.head + pos) % 8]
    }

    fn set_slot(&mut self, pos: usize, p: ObjPixel)
        requires
            old(self).wf(),
            pos < 8,
        ensures
            final(self).wf(),
            final(self).slots() == old(self).slots().update(pos as int, p),
    {
        self.data.set((self.head + pos) % 8, p);
        assert(self.slots() =~= old(self).slots().update(pos as int, p));
    }

    /// Overlays a sprite row at `offset` (see `overlay_row`).
    fn overlay(&mut self, lo: u8, hi: u8, s: &SelectedSprite, offset: i16, index_priority: bool)
        requires
            old(self).wf(),
        ensures
            final(self).wf(),
            final(self).slots() == overlay_row(old(self).slots(), lo, hi, *s, offset, index_priority),
    {
        let xflip = s.attr & 0x20 != 0;
        let ghost obj0 = self.slots();
        let ghost target = overlay_row(obj0, lo, hi, *s, offset, index_priority);
        let mut i: i32 = 0;
        while i < 8
            invariant
                0 <= i <= 8,
                self.wf(),
                xflip == (s.attr & 0x20 != 0),
                obj0.len() == 8,
                target == overlay_row(obj0, lo, hi, *s, offset, index_priority),
                forall|pos: int|
                    0 <= pos < 8 ==> #[trigger] self.slots()[pos] == (if 0 <= pos - offset < i {
                        target[pos]
                    } else {
                        obj0[pos]
                    }),
            decreases 8 - i,
        {
            let pos: i32 = offset as i32 + i;
            if 0 <= pos && pos < 8 {
                let bit: u8 = if xflip { i as u8 } else { (7 - i) as u8 };
                let color = (((hi >> bit) & 1) << 1u8) | ((lo >> bit) & 1);
                let slot = self.slot(pos as usize);
                if color != 0 && !(slot.color != 0 && !(index_priority && s.oam_index < slot.oam_index)) {
                    self.set_slot(
                        pos as usize,
                        ObjPixel {
                            color,
                            palette: s.attr & 0x10 != 0,
                            bg_prio: s.attr & 0x80 != 0,
                            cgb_attr: s.attr,
                            oam_index: s.oam_index,
                        },
                    );
                }
                assert(self.slots()[pos as int] == target[pos as int]);
            }
            i += 1;
        }
        assert(self.slots() =~= target);
    }
}

/// Where the BG fetcher is in its three 2-dot VRAM reads.
#[derive(Clone, Copy, PartialEq, Eq, Structural, Debug)]
pub enum FetchStep {
    Tile,
    Low,
    High,
}

/// A sprite fetch: aligning the BG fetcher to a tile boundary, then the
/// frozen core dots.
#[derive(Clone, Copy, PartialEq, Eq, Structural, Debug)]
pub enum SpriteStage {
    Align,
    Core(u8),
}

#[derive(Clone, Copy, PartialEq, Eq, Structural, Debug)]
pub struct SpriteFetch {
    pub sprite: SelectedSprite,
    pub offset: i16,
    pub stage: SpriteStage,
}

pub struct Pipeline {
    // BG fetcher
    step: FetchStep,
    sub: u8,
    tile_x: u8,
    fetching_window: bool,
    tile_id: u8,
    tile_attr: u8,
    tile_low: u8,
    tile_high: u8,
    /// A completed tile waiting for the shifter to drain enough to load it.
    pending: Option<Vec<BgPixel>>,
    // FIFOs
    bg: BgFifo,
    obj: ObjFifo,
    /// PX — the single horizontal counter, clocked by the pixel clock. Starts at
    /// 0; visible pixels are gated at PX >= 9 (screen_x = px - 9), so the 8
    /// warm-up shifts (PX 1-8) drain the junk row. Window matches `px == WX`,
    /// objects `px >= SPRITEX + 1`. Terminal at 167.
    px: i16,
    /// POKY: the pixel clock is held until the line's first BG tile is fetched.
    data_ready: bool,
    /// ROXY fine-scroll gate: holds the pixel clock for SCX&7 dots at startup.
    fine: u8,
    /// Window left-edge clip (WX<7): pixels shifted but not emitted.
    clip: u8,
    // window
    window_active: bool,
    window_triggered: bool,
    // sprites
    sprites: Vec<SelectedSprite>,
    sprite_fetch: Option<SpriteFetch>,
}

pub struct PipelineView {
    pub step: FetchStep,
    pub sub: u8,
    pub tile_x: u8,
    pub fetching_window: bool,
    pub tile_id: u8,
    pub tile_attr: u8,
    pub tile_low: u8,
    pub tile_high: u8,
    pub pending: Option<Seq<BgPixel>>,
    pub bg: Seq<BgPixel>,
    pub obj: Seq<ObjPixel>,
    pub px: i16,
    pub data_ready: bool,
    pub fine: u8,
    pub clip: u8,
    pub window_active: bool,
    pub window_triggered: bool,
    pub sprites: Seq<SelectedSprite>,
    pub sprite_fetch: Option<SpriteFetch>,
}

impl View for Pipeline {
    type V = PipelineView;

    closed spec fn view(&self) -> PipelineView {
        PipelineView {
            step: self.step,
            sub: self.sub,
            tile_x: self.tile_x,
            fetching_window: self.fetching_window,
            tile_id: self.tile_id,
            tile_attr: self.tile_attr,
            tile_low: self.tile_low,
            tile_high: self.tile_high,
            pending: match self.pending {
                Some(row) => Some(row@),
                None => None,
            },
            bg: self.bg.contents(),
            obj: self.obj.slots(),
            px: self.px,
            data_ready: self.data_ready,
            fine: self.fine,
            clip: self.clip,
            window_active: self.window_active,
            window_triggered: self.window_triggered,
            sprites: self.sprites@,
            sprite_fetch: self.sprite_fetch,
        }
    }
}

impl PipelineView {
    /// The shapes the pipeline keeps: at most one tile (8 pixels) in the BG
    /// shifter, an 8-pixel pending row, up to 10 sprites, and its counters in
    /// range.
    pub open spec fn wf(self) -> bool {
        &&& self.bg.len() <= 8
        &&& self.obj.len() == 8
        &&& (self.pending matches Some(row) ==> row.len() == 8)
        &&& self.sprites.len() <= 10
        &&& self.sub <= 1
        &&& 0 <= self.px
        &&& forall|k: int| 0 <= k < self.bg.len() ==> (#[trigger] self.bg[k]).color <= 3
        &&& forall|k: int| 0 <= k < self.obj.len() ==> (#[trigger] self.obj[k]).color <= 3
        &&& (self.pending matches Some(row) ==> forall|k: int| 0 <= k < row.len() ==> (#[trigger] row[k]).color
            <= 3)
    }
}

/// Every pixel of an assembled tile row has a 2-bit colour.
pub proof fn lemma_row_colors(v: PipelineView, r: Regs)
    ensures
        forall|k: int| 0 <= k < 8 ==> (#[trigger] assembled_row(v, r)[k]).color <= 3,
{
    assert forall|k: int| 0 <= k < 8 implies (#[trigger] assembled_row(v, r)[k]).color <= 3 by {
        let xflip = r.mode == GBMode::CGB && v.tile_attr & 0x20 != 0;
        let bit: int = if xflip { k } else { 7 - k };
        lemma_plane_bits(v.tile_high, v.tile_low, bit as u8);
    }
}

/// Overlaying a sprite row keeps every OBJ slot's colour 2 bits wide.
pub proof fn lemma_overlay_colors(
    obj: Seq<ObjPixel>,
    lo: u8,
    hi: u8,
    s: SelectedSprite,
    offset: i16,
    index_priority: bool,
)
    requires
        obj.len() == 8,
        forall|k: int| 0 <= k < 8 ==> (#[trigger] obj[k]).color <= 3,
    ensures
        forall|k: int| 0 <= k < 8 ==> (#[trigger] overlay_row(obj, lo, hi, s, offset, index_priority)[k]).color
            <= 3,
{
    assert forall|k: int| 0 <= k < 8 implies (#[trigger] overlay_row(obj, lo, hi, s, offset, index_priority)[
        k]).color <= 3 by {
        let i = k - offset;
        if 0 <= i < 8 {
            let bit: int = if s.attr & 0x20 != 0 { i } else { 7 - i };
            lemma_plane_bits(hi, lo, bit as u8);
        }
    }
}

impl Pipeline {
    /// The FIFOs' storage is in shape and the view is well formed.
    pub closed spec fn inner_wf(&self) -> bool {
        &&& self.bg.wf()
        &&& self.obj.wf()
        &&& self@.wf()
    }
}

/// A byte rotated right through nothing: bit `bit` of `x` (0 or 1).
pub open spec fn bit_at(x: u8, bit: int) -> u8 {
    (x >> (bit as u8)) & 1
}

/// The window takes over when PX reaches WX on a line where it is enabled and
/// its Y condition holds: the fetcher restarts on window tile 0, the BG
/// shifter is emptied, and WX < 7 clips the first pixels.
pub open spec fn window_checked(v: PipelineView, r: Regs) -> PipelineView {
    if v.window_active || v.sprite_fetch is Some {
        v
    } else if r.lcdc & 0x20 == 0 || !r.window_y {
        v
    } else if r.wx >= 167 {
        v
    } else if v.px == r.wx as i16 {
        PipelineView {
            window_active: true,
            window_triggered: true,
            fetching_window: true,
            tile_x: 0,
            pending: None,
            step: FetchStep::Tile,
            sub: 0,
            bg: Seq::empty(),
            clip: if r.wx < 7 { (7 - r.wx) as u8 } else { v.clip },
            ..v
        }
    } else {
        v
    }
}

/// The tile number and (CGB) attributes the fetcher reads from the BG or
/// window tile map for the current column.
pub open spec fn tile_id_read(v: PipelineView, vram: Seq<u8>, r: Regs) -> (u8, u8) {
    let base: u16 = if v.fetching_window {
        if r.lcdc & 0x40 != 0 { 0x9C00 } else { 0x9800 }
    } else {
        if r.lcdc & 0x08 != 0 { 0x9C00 } else { 0x9800 }
    };
    let tx: u16 = if v.fetching_window {
        (v.tile_x as u16) & 31
    } else {
        (((r.scx as u16 / 8) + v.tile_x as u16) as u16) & 31
    };
    let ty: u16 = if v.fetching_window {
        ((r.wly as u16) >> 3u16) & 31
    } else {
        ((r.scy.wrapping_add(r.ly) as u16) >> 3u16) & 31
    };
    let addr = (base + ty * 32 + tx) as u16;
    (vram_byte(vram, addr, 0), if r.mode == GBMode::CGB { vram_byte(vram, addr, 1) } else { 0 })
}

/// The row of the tile being fetched, flipped by the CGB Y-flip attribute.
pub open spec fn tile_row(v: PipelineView, r: Regs) -> u16 {
    let py = if v.fetching_window { r.wly } else { r.scy.wrapping_add(r.ly) };
    let row = (py % 8) as u16;
    if r.mode == GBMode::CGB && v.tile_attr & 0x40 != 0 {
        (7 - row) as u16
    } else {
        row
    }
}

/// The address and bank of the current tile row's low plane: unsigned tile
/// numbers from 0x8000, or signed ones around 0x9000.
pub open spec fn tile_addr(v: PipelineView, r: Regs) -> (u16, int) {
    let base: int = if r.lcdc & 0x10 != 0 { 0x8000 } else { 0x8800 };
    let index: int = if r.lcdc & 0x10 != 0 {
        v.tile_id as int
    } else if v.tile_id < 128 {
        v.tile_id + 128
    } else {
        v.tile_id - 128
    };
    let bank: int = if r.mode == GBMode::CGB && v.tile_attr & 0x08 != 0 { 1 } else { 0 };
    ((base + index * 16 + tile_row(v, r) * 2) as u16, bank)
}

pub open spec fn tile_plane(v: PipelineView, vram: Seq<u8>, r: Regs, plane: u16) -> u8 {
    let (addr, bank) = tile_addr(v, r);
    vram_byte(vram, (addr + plane) as u16, bank)
}

/// The 8 pixels of the fetched row, leftmost first (reversed by the CGB
/// X-flip attribute).
pub open spec fn assembled_row(v: PipelineView, r: Regs) -> Seq<BgPixel> {
    let xflip = r.mode == GBMode::CGB && v.tile_attr & 0x20 != 0;
    Seq::new(
        8,
        |i: int|
            {
                let bit = if xflip { i } else { 7 - i };
                BgPixel { color: (bit_at(v.tile_high, bit) << 1u8) | bit_at(v.tile_low, bit), cgb_attr: v.tile_attr }
            },
    )
}

/// One dot of the BG/window fetch. Three 2-dot accesses assemble a tile
/// into `pending`; it loads into the shifter once the shifter has drained,
/// then the fetcher restarts on the next column.
pub open spec fn bg_fetched(v: PipelineView, vram: Seq<u8>, r: Regs, can_load: bool) -> PipelineView {
    match v.pending {
        Some(row) => if can_load && v.bg.len() == 0 {
            PipelineView {
                bg: row,
                tile_x: v.tile_x.wrapping_add(1),
                pending: None,
                step: FetchStep::Tile,
                sub: 0,
                ..v
            }
        } else {
            v
        },
        None => if v.sub == 0 {
            PipelineView { sub: 1, ..v }
        } else {
            match v.step {
                FetchStep::Tile => {
                    let (id, attr) = tile_id_read(v, vram, r);
                    PipelineView { sub: 0, tile_id: id, tile_attr: attr, step: FetchStep::Low, ..v }
                },
                FetchStep::Low => PipelineView {
                    sub: 0,
                    tile_low: tile_plane(v, vram, r, 0),
                    step: FetchStep::High,
                    ..v
                },
                FetchStep::High => {
                    let v1 = PipelineView { sub: 0, tile_high: tile_plane(v, vram, r, 1), ..v };
                    PipelineView { pending: Some(assembled_row(v1, r)), data_ready: true, ..v1 }
                },
            }
        },
    }
}

/// The sprite due next among the first `n`: not yet fetched, with X + 1 at
/// or left of PX, and of those the one with the least X, then the least OAM
/// index, the first listed on a full tie.
pub open spec fn due_sprite(sprites: Seq<SelectedSprite>, px: i16, n: nat) -> Option<int>
    decreases n,
{
    if n == 0 {
        None
    } else {
        let c = due_sprite(sprites, px, (n - 1) as nat);
        let s = sprites[n - 1];
        if s.fetched || !(s.x + 1 <= px) {
            c
        } else {
            match c {
                None => Some(n - 1),
                Some(j) => {
                    let o = sprites[j];
                    if s.x < o.x || (s.x == o.x && s.oam_index < o.oam_index) {
                        Some(n - 1)
                    } else {
                        c
                    }
                },
            }
        }
    }
}

/// Begins a sprite fetch if a selected object is due at the current emit
/// position (BG shifter non-empty to align against); whether one started.
pub open spec fn sprite_started(v: PipelineView, r: Regs) -> (PipelineView, bool) {
    if r.mode == GBMode::DMG && r.lcdc & 0x02 == 0 {
        (v, false)
    } else if v.bg.len() == 0 {
        (v, false)
    } else {
        match due_sprite(v.sprites, v.px, v.sprites.len()) {
            None => (v, false),
            Some(i) => {
                let s = SelectedSprite { fetched: true, ..v.sprites[i] };
                let offset = (s.x + 1 - v.px) as i16;
                let stage = if v.pending is Some { SpriteStage::Core(0) } else { SpriteStage::Align };
                (
                    PipelineView {
                        sprites: v.sprites.update(i, s),
                        sprite_fetch: Some(SpriteFetch { sprite: s, offset, stage }),
                        ..v
                    },
                    true,
                )
            },
        }
    }
}

/// The two planes of the sprite's row on this line (8 or 16 rows tall,
/// flipped by its Y-flip bit).
pub open spec fn sprite_rows(vram: Seq<u8>, r: Regs, s: SelectedSprite) -> (u8, u8) {
    let size: u8 = if r.lcdc & 0x04 != 0 { 16 } else { 8 };
    let top = s.y.wrapping_sub(16);
    let row0 = r.ly.wrapping_sub(top) & ((size - 1) as u8);
    let row = if s.attr & 0x40 != 0 { (size - 1 - row0) as u8 } else { row0 };
    let tile = if size == 16 { s.tile & 0xFE } else { s.tile };
    let addr = (0x8000 + tile * 16 + row * 2) as u16;
    let bank: int = if r.mode == GBMode::CGB && s.attr & 0x08 != 0 { 1 } else { 0 };
    (vram_byte(vram, addr, bank), vram_byte(vram, (addr + 1) as u16, bank))
}

/// A sprite row (planes `lo`/`hi`) overlaid on the OBJ shifter at `offset`:
/// an opaque sprite pixel lands where the slot is transparent, or, under
/// index priority, where the slot holds a higher OAM index.
pub open spec fn overlay_row(
    obj: Seq<ObjPixel>,
    lo: u8,
    hi: u8,
    s: SelectedSprite,
    offset: i16,
    index_priority: bool,
) -> Seq<ObjPixel> {
    let xflip = s.attr & 0x20 != 0;
    Seq::new(
        8,
        |pos: int|
            {
                let i = pos - offset;
                let slot = obj[pos];
                if 0 <= i < 8 {
                    let bit = if xflip { i } else { 7 - i };
                    let color = (bit_at(hi, bit) << 1u8) | bit_at(lo, bit);
                    if color == 0 || (slot.color != 0 && !(index_priority && s.oam_index < slot.oam_index)) {
                        slot
                    } else {
                        ObjPixel {
                            color,
                            palette: s.attr & 0x10 != 0,
                            bg_prio: s.attr & 0x80 != 0,
                            cgb_attr: s.attr,
                            oam_index: s.oam_index,
                        }
                    }
                } else {
                    slot
                }
            },
    )
}

/// The sprite's row on this line overlaid on the OBJ shifter; OAM-index
/// priority applies only on CGB with OPRI clear.
pub open spec fn overlaid(obj: Seq<ObjPixel>, vram: Seq<u8>, r: Regs, s: SelectedSprite, offset: i16) -> Seq<ObjPixel> {
    let (lo, hi) = sprite_rows(vram, r, s);
    overlay_row(obj, lo, hi, s, offset, r.mode == GBMode::CGB && !r.opri)
}

/// The pixel clock for one dot: held by POKY (no tile fetched yet), by the
/// fine-scroll gate (SCX&7 dots) or by an empty shifter; otherwise one BG
/// and one OBJ pixel shift out and PX advances, and the pixel is clipped
/// (WX<7), part of the warm-up (PX 1-8), or emitted at column PX - 9.
pub open spec fn clocked(v: PipelineView, r: Regs) -> (PipelineView, Option<Emit>) {
    if !v.data_ready {
        (v, None)
    } else if v.fine < r.scx & 7 {
        (PipelineView { fine: (v.fine + 1) as u8, ..v }, None)
    } else if v.bg.len() == 0 {
        (v, None)
    } else {
        let bgp = v.bg[0];
        let objp = v.obj[0];
        let v1 = PipelineView {
            bg: v.bg.drop_first(),
            obj: v.obj.drop_first().push(no_obj()),
            px: (v.px + 1) as i16,
            ..v
        };
        if v1.clip > 0 {
            (PipelineView { clip: (v1.clip - 1) as u8, ..v1 }, None)
        } else if v1.px >= 9 && v1.px - 9 < 160 {
            (v1, Some(Emit { x: (v1.px - 9) as usize, bg: bgp, obj: objp }))
        } else {
            (v1, None)
        }
    }
}

/// The part of a dot after any sprite fetch: the BG fetch, a sprite start
/// (which freezes the pixel clock), then the pixel clock.
pub open spec fn dot_after_sprites(v: PipelineView, vram: Seq<u8>, r: Regs) -> (PipelineView, Option<Emit>) {
    let v3 = bg_fetched(v, vram, r, true);
    let (v4, started) = sprite_started(v3, r);
    if started {
        (v4, None)
    } else {
        clocked(v4, r)
    }
}

/// One dot of Mode 3, and the pixel it emits if any.
#[verifier::opaque]
pub open spec fn dot(v: PipelineView, vram: Seq<u8>, r: Regs) -> (PipelineView, Option<Emit>) {
    let v0 = window_checked(v, r);
    match v0.sprite_fetch {
        Some(sf) => match sf.stage {
            SpriteStage::Align => {
                let v1 = bg_fetched(v0, vram, r, false);
                let stage = if v1.pending is Some && v1.bg.len() > 0 {
                    SpriteStage::Core(1)
                } else {
                    SpriteStage::Align
                };
                (PipelineView { sprite_fetch: Some(SpriteFetch { stage, ..sf }), ..v1 }, None)
            },
            SpriteStage::Core(c) => if c >= 5 {
                let v1 = PipelineView {
                    obj: overlaid(v0.obj, vram, r, sf.sprite, sf.offset),
                    sprite_fetch: None,
                    ..v0
                };
                let (v2, started) = sprite_started(v1, r);
                if started {
                    (v2, None)
                } else {
                    dot_after_sprites(v2, vram, r)
                }
            } else {
                (PipelineView { sprite_fetch: Some(SpriteFetch { stage: SpriteStage::Core((c + 1) as u8), ..sf }), ..v0 }, None)
            },
        },
        None => dot_after_sprites(v0, vram, r),
    }
}

/// Pixel order: a dot moves the pixel counter on by at most one; a pixel
/// is emitted only on a step, at x = counter - 9 (so emitted x values rise
/// one at a time, 0 to 159); a step onto columns 9-168 that emits nothing
/// is a clipped pixel; and a window trigger, once seen, stays for the line.
pub proof fn lemma_pixel_order(v: PipelineView, vram: Seq<u8>, r: Regs)
    requires
        0 <= v.px < 0x100,
    ensures
        ({
            let (n, e) = dot(v, vram, r);
            &&& n.px == v.px || n.px == v.px + 1
            &&& (e matches Some(em) ==> n.px == v.px + 1 && em.x == n.px - 9 && em.x < 160)
            &&& (n.px == v.px + 1 && 9 <= n.px <= 168 && e is None ==> n.clip < v.clip)
            &&& (v.window_triggered ==> n.window_triggered)
        }),
{
    reveal(dot);
}

/// The sprites an OAM scan of the first `n` entries selects for line LY:
/// those whose rows cover the line, in OAM order, at most 10.
pub open spec fn selected_sprites(oam: Seq<u8>, r: Regs, n: nat) -> Seq<SelectedSprite>
    decreases n,
{
    if n == 0 {
        Seq::empty()
    } else {
        let prev = selected_sprites(oam, r, (n - 1) as nat);
        let i = n - 1;
        let size: int = if r.lcdc & 0x04 != 0 { 16 } else { 8 };
        let line = r.ly + 16;
        let y = oam[i * 4] as int;
        if prev.len() < 10 && line >= y && line < y + size {
            prev.push(
                SelectedSprite {
                    oam_index: (i * 4) as u8,
                    x: oam[i * 4 + 1],
                    y: oam[i * 4],
                    tile: oam[i * 4 + 2],
                    attr: oam[i * 4 + 3],
                    fetched: false,
                },
            )
        } else {
            prev
        }
    }
}

/// The pipeline reset for a new Mode 3: fetcher on BG tile 0, a junk tile
/// primed in the BG shifter, empty OBJ shifter, PX 0, pixel clock held, no
/// window, and this line's sprites selected.
pub open spec fn line_started(v: PipelineView, oam: Seq<u8>, r: Regs) -> PipelineView {
    PipelineView {
        step: FetchStep::Tile,
        sub: 0,
        tile_x: 0,
        fetching_window: false,
        pending: None,
        bg: Seq::new(8, |k: int| BgPixel { color: 0, cgb_attr: 0 }),
        obj: Seq::new(8, |k: int| no_obj()),
        px: 0,
        data_ready: false,
        fine: 0,
        clip: 0,
        window_active: false,
        window_triggered: false,
        sprite_fetch: None,
        sprites: selected_sprites(oam, r, 40),
        ..v
    }
}

/// The selection never exceeds 10, and once full it stays as it is.
pub proof fn lemma_selected_full(oam: Seq<u8>, r: Regs, i: nat, n: nat)
    requires
        i <= n,
        selected_sprites(oam, r, i).len() == 10,
    ensures
        selected_sprites(oam, r, n) == selected_sprites(oam, r, i),
    decreases n - i,
{
    if i < n {
        lemma_selected_full(oam, r, i, (n - 1) as nat);
    }
}

/// An OAM scan selects at most ten sprites for a line.
pub proof fn lemma_selected_len(oam: Seq<u8>, r: Regs, n: nat)
    ensures
        selected_sprites(oam, r, n).len() <= 10,
    decreases n,
{
    if n > 0 {
        lemma_selected_len(oam, r, (n - 1) as nat);
    }
}

impl Pipeline {
    pub fn new() -> (r: Self)
        ensures
            r.inner_wf(),
            r@.bg == Seq::<BgPixel>::empty(),
            r@.obj == Seq::new(8, |k: int| no_obj()),
            r@.pending is None,
            r@.sprites == Seq::<SelectedSprite>::empty(),
            r@.sprite_fetch is None,
            r@.step == FetchStep::Tile,
            r@.px == 0,
            !r@.data_ready && !r@.window_active && !r@.window_triggered && !r@.fetching_window,
            r@.sub == 0 && r@.tile_x == 0 && r@.fine == 0 && r@.clip == 0,
            r@.tile_id == 0 && r@.tile_attr == 0 && r@.tile_low == 0 && r@.tile_high == 0,
    {
        Self {
            step: FetchStep::Tile,
            sub: 0,
            tile_x: 0,
            fetching_window: false,
            tile_id: 0,
            tile_attr: 0,
            tile_low: 0,
            tile_high: 0,
            pending: None,
            bg: BgFifo::new(),
            obj: ObjFifo::new(),
            px: 0,
            data_ready: false,
            fine: 0,
            clip: 0,
            window_active: false,
            window_triggered: false,
            sprites: Vec::new(),
            sprite_fetch: None,
        }
    }

    /// Reset all pipeline state for a new Mode 3 and select this line's sprites.
    pub fn start_line(&mut self, oam: &[u8], r: Regs)
        requires
            old(self).inner_wf(),
            oam@.len() >= 160,
        ensures
            final(self).inner_wf(),
            final(self)@ == line_started(old(self)@, oam@, r),
    {
        self.step = FetchStep::Tile;
        self.sub = 0;
        self.tile_x = 0;
        self.fetching_window = false;
        self.pending = None;
        self.obj.clear();
        // Junk-row fill: prime the shifter with a discarded tile (drained across
        // the PX 1-8 warm-up) so the fetcher just runs. The pixel clock stays
        // held (POKY) until the first real tile is fetched.
        self.bg.fill_blank();
        self.px = 0;
        self.data_ready = false;
        self.fine = 0;
        self.clip = 0;
        self.window_active = false;
        self.window_triggered = false;
        self.sprite_fetch = None;
        self.select_sprites(oam, r);
    }

    /// The window activated during this Mode 3 (latched, for the WLY counter).
    pub fn window_triggered(&self) -> (r: bool)
        ensures
            r == self@.window_triggered,
    {
        self.window_triggered
    }

    /// All 160 visible pixels have been emitted (Mode 3 is over). PX terminal is
    /// 167; screen pixel 159 is the last, captured as PX reaches it.
    pub fn finished(&self) -> (r: bool)
        ensures
            r == (self@.px >= 168),
    {
        self.px >= 168
    }

    fn select_sprites(&mut self, oam: &[u8], r: Regs)
        requires
            old(self).inner_wf(),
            oam@.len() >= 160,
        ensures
            final(self).inner_wf(),
            final(self)@ == (PipelineView { sprites: selected_sprites(oam@, r, 40), ..old(self)@ }),
    {
        let mut sel: Vec<SelectedSprite> = Vec::new();
        let size: i32 = if r.lcdc & 0x04 != 0 { 16 } else { 8 };
        let line = r.ly as i32 + 16;
        let mut i: u8 = 0;
        while i < 40 && sel.len() < 10
            invariant
                i <= 40,
                oam@.len() >= 160,
                size == (if r.lcdc & 0x04 != 0 { 16int } else { 8 }),
                line == r.ly + 16,
                sel@ == selected_sprites(oam@, r, i as nat),
            decreases 40 - i,
        {
            proof {
                lemma_selected_len(oam@, r, i as nat);
            }
            let o = i as usize * 4;
            let y = oam[o] as i32;
            if line >= y && line < y + size {
                sel.push(
                    SelectedSprite {
                        oam_index: i * 4,
                        x: oam[o + 1],
                        y: oam[o],
                        tile: oam[o + 2],
                        attr: oam[o + 3],
                        fetched: false,
                    },
                );
            }
            i += 1;
        }
        proof {
            lemma_selected_len(oam@, r, i as nat);
            if i < 40 {
                lemma_selected_full(oam@, r, i as nat, 40);
            }
            lemma_selected_len(oam@, r, 40);
        }
        self.sprites = sel;
    }

    /// Advance the pipeline one dot. Returns a pixel to paint if one was
    /// emitted this dot.
    pub fn tick(&mut self, vram: &[u8], r: Regs) -> (e: Option<Emit>)
        requires
            old(self).inner_wf(),
            vram@.len() >= 0x4000,
            old(self)@.px < 0x7FFF,
        ensures
            final(self).inner_wf(),
            (final(self)@, e) == dot(old(self)@, vram@, r),
            e matches Some(em) ==> em.x < 160 && em.bg.color <= 3 && em.obj.color <= 3,
            final(self)@.px <= old(self)@.px + 1,
    {
        proof {
            reveal(dot);
        }
        self.check_window(r);

        // A sprite fetch freezes the pixel clock. `Align` advances the BG
        // fetcher (without loading — the assembled tile is held) until it
        // reaches a tile boundary. `Core` is the frozen 6-dot data fetch;
        // its final dot overlays and falls through to a normal shift.
        if let Some(sf) = self.sprite_fetch {
            match sf.stage {
                SpriteStage::Align => {
                    self.bg_fetch(vram, r, false);
                    let stage = if self.pending.is_some() && !self.bg.is_empty() {
                        // The fetch-complete dot is the first core dot, not a
                        // separate transition dot — enter at Core(1).
                        SpriteStage::Core(1)
                    } else {
                        SpriteStage::Align
                    };
                    self.sprite_fetch = Some(SpriteFetch { stage, ..sf });
                    return None;
                },
                SpriteStage::Core(c) => {
                    if c >= 5 {
                        self.overlay_sprite(vram, r, &sf.sprite, sf.offset);
                        self.sprite_fetch = None;
                        // A stacked same-position object chains here — before
                        // bg_fetch loads the held tile and before any shift — so
                        // the fetch-complete condition stays satisfied and it
                        // costs exactly its 6-dot core (no fresh alignment).
                        if self.try_start_sprite(r) {
                            return None;
                        }
                    } else {
                        self.sprite_fetch = Some(SpriteFetch { stage: SpriteStage::Core(c + 1), ..sf });
                        return None;
                    }
                },
            }
        }

        self.after_sprites(vram, r)
    }

    fn after_sprites(&mut self, vram: &[u8], r: Regs) -> (e: Option<Emit>)
        requires
            old(self).inner_wf(),
            vram@.len() >= 0x4000,
            old(self)@.px < 0x7FFF,
        ensures
            final(self).inner_wf(),
            (final(self)@, e) == dot_after_sprites(old(self)@, vram@, r),
            e matches Some(em) ==> em.x < 160 && em.bg.color <= 3 && em.obj.color <= 3,
            final(self)@.px <= old(self)@.px + 1,
    {
        self.bg_fetch(vram, r, true);
        if self.try_start_sprite(r) {
            return None;
        }
        self.clock_pixel(r)
    }

    /// The pixel clock (see `clocked`).
    fn clock_pixel(&mut self, r: Regs) -> (e: Option<Emit>)
        requires
            old(self).inner_wf(),
            old(self)@.px < 0x7FFF,
        ensures
            final(self).inner_wf(),
            (final(self)@, e) == clocked(old(self)@, r),
            e matches Some(em) ==> em.x < 160 && em.bg.color <= 3 && em.obj.color <= 3,
            final(self)@.px <= old(self)@.px + 1,
    {
        if !self.data_ready {
            return None;
        }
        if self.fine < (r.scx & 7) {
            self.fine += 1;
            return None;
        }
        if self.bg.is_empty() {
            return None;
        }

        let bg = match self.bg.pop() {
            Some(p) => p,
            None => BgPixel::default(),
        };
        let obj = self.obj.shift_out();
        self.px += 1;

        // WX<7 left-edge clip: the pixel shifted but lies off the screen's left.
        if self.clip > 0 {
            self.clip -= 1;
            return None;
        }

        // PX 1-8 are the warm-up (the junk row), shifted but never shown.
        // Visible output is gated at PX >= 9; screen_x = px - 9.
        if self.px >= 9 {
            let x = (self.px - 9) as usize;
            if x < 160 {
                return Some(Emit { x, bg, obj });
            }
        }
        None
    }

    /// One dot of the BG/window fetch.
    fn bg_fetch(&mut self, vram: &[u8], r: Regs, can_load: bool)
        requires
            old(self).inner_wf(),
            vram@.len() >= 0x4000,
        ensures
            final(self).inner_wf(),
            final(self)@ == bg_fetched(old(self)@, vram@, r, can_load),
    {
        if self.pending.is_some() {
            // Load exactly when the 8-pixel shifter has drained, locking the
            // tile cycle to 8 dots: 6 to assemble + 2 held here.
            if can_load && self.bg.is_empty() {
                let row = match self.pending.take() {
                    Some(row) => row,
                    None => Vec::new(),
                };
                self.bg.load(&row);
                self.tile_x = self.tile_x.wrapping_add(1);
                self.step = FetchStep::Tile;
                self.sub = 0;
            }
            // Whether we loaded, are waiting for room, or are holding the tile
            // through a sprite fetch's alignment, no VRAM access this dot.
            return;
        }

        if self.sub == 0 {
            self.sub = 1;
            return;
        }
        match self.step {
            FetchStep::Tile => {
                self.sub = 0;
                self.fetch_tile_id(vram, r);
                self.step = FetchStep::Low;
            },
            FetchStep::Low => {
                self.sub = 0;
                self.tile_low = self.fetch_plane(vram, r, 0);
                self.step = FetchStep::High;
            },
            FetchStep::High => {
                self.sub = 0;
                self.tile_high = self.fetch_plane(vram, r, 1);
                let row = self.assemble_row(r);
                proof {
                    lemma_row_colors(self@, r);
                }
                self.pending = Some(row);
                // POKY: the first completed BG fetch releases the pixel clock.
                self.data_ready = true;
            },
        }
    }

    fn fetch_tile_id(&mut self, vram: &[u8], r: Regs)
        requires
            old(self).inner_wf(),
            vram@.len() >= 0x4000,
        ensures
            final(self).inner_wf(),
            final(self)@ == (PipelineView {
                tile_id: tile_id_read(old(self)@, vram@, r).0,
                tile_attr: tile_id_read(old(self)@, vram@, r).1,
                ..old(self)@
            }),
    {
        let base: u16 = if self.fetching_window {
            if r.lcdc & 0x40 != 0 { 0x9C00 } else { 0x9800 }
        } else {
            if r.lcdc & 0x08 != 0 { 0x9C00 } else { 0x9800 }
        };
        let tx_raw: u16 = if self.fetching_window {
            self.tile_x as u16
        } else {
            (r.scx as u16 / 8) + self.tile_x as u16
        };
        let ty_raw: u16 = if self.fetching_window {
            r.wly as u16 >> 3u16
        } else {
            r.scy.wrapping_add(r.ly) as u16 >> 3u16
        };
        let tx = tx_raw & 31;
        let ty = ty_raw & 31;
        proof {
            lemma_low5(tx_raw);
            lemma_low5(ty_raw);
        }

        let addr = base + ty * 32 + tx;
        self.tile_id = rd(vram, addr, 0);
        self.tile_attr = if r.mode == GBMode::CGB { rd(vram, addr, 1) } else { 0 };
    }

    fn row_in_tile(&self, r: Regs) -> (row: u16)
        ensures
            row == tile_row(self@, r),
            row <= 7,
    {
        let py = if self.fetching_window { r.wly } else { r.scy.wrapping_add(r.ly) };
        let row = (py % 8) as u16;

        if r.mode == GBMode::CGB && self.tile_attr & 0x40 != 0 {
            7 - row
        } else {
            row
        }
    }

    fn tile_data_addr(&self, r: Regs) -> (res: (u16, usize))
        ensures
            res.0 == tile_addr(self@, r).0,
            res.1 == tile_addr(self@, r).1,
            0x8000 <= res.0 <= 0x97FF - 1,
            res.1 <= 1,
    {
        let base: u16 = if r.lcdc & 0x10 != 0 { 0x8000 } else { 0x8800 };
        let index: u16 = if r.lcdc & 0x10 != 0 {
            self.tile_id as u16
        } else if self.tile_id < 128 {
            self.tile_id as u16 + 128
        } else {
            self.tile_id as u16 - 128
        };
        let bank: usize = if r.mode == GBMode::CGB && self.tile_attr & 0x08 != 0 { 1 } else { 0 };

        (base + index * 16 + self.row_in_tile(r) * 2, bank)
    }

    fn fetch_plane(&self, vram: &[u8], r: Regs, plane: u16) -> (b: u8)
        requires
            vram@.len() >= 0x4000,
            plane <= 1,
        ensures
            b == tile_plane(self@, vram@, r, plane),
    {
        let (addr, bank) = self.tile_data_addr(r);
        rd(vram, addr + plane, bank)
    }

    fn assemble_row(&self, r: Regs) -> (row: Vec<BgPixel>)
        ensures
            row@ == assembled_row(self@, r),
    {
        let xflip = r.mode == GBMode::CGB && self.tile_attr & 0x20 != 0;
        let mut row: Vec<BgPixel> = Vec::new();
        let mut i: u8 = 0;
        while i < 8
            invariant
                i <= 8,
                xflip == (r.mode == GBMode::CGB && self@.tile_attr & 0x20 != 0),
                row@ == assembled_row(self@, r).subrange(0, i as int),
            decreases 8 - i,
        {
            let bit = if xflip { i } else { 7 - i };
            let lo = (self.tile_low >> bit) & 1;
            let hi = (self.tile_high >> bit) & 1;
            row.push(BgPixel { color: (hi << 1u8) | lo, cgb_attr: self.tile_attr });
            i += 1;
            assert(row@ =~= assembled_row(self@, r).subrange(0, i as int));
        }
        assert(row@ =~= assembled_row(self@, r));
        row
    }

    /// Begin a sprite fetch if a selected object is due at the current emit
    /// position (BG FIFO non-empty to align against). Returns whether one
    /// started (which freezes the pixel clock this dot).
    fn try_start_sprite(&mut self, r: Regs) -> (started: bool)
        requires
            old(self).inner_wf(),
        ensures
            final(self).inner_wf(),
            (final(self)@, started) == sprite_started(old(self)@, r),
    {
        if r.mode == GBMode::DMG && r.lcdc & 0x02 == 0 {
            return false;
        }

        if self.bg.is_empty() {
            return false;
        }

        let mut chosen: Option<usize> = None;
        let mut i: usize = 0;
        while i < self.sprites.len()
            invariant
                i <= self.sprites@.len(),
                match chosen {
                    None => due_sprite(self.sprites@, self.px, i as nat) is None,
                    Some(j) => due_sprite(self.sprites@, self.px, i as nat) == Some(j as int) && j < i,
                },
            decreases self.sprites@.len() - i,
        {
            let s = self.sprites[i];
            if !s.fetched && (s.x as i16 + 1) <= self.px {
                match chosen {
                    None => chosen = Some(i),
                    Some(j) => {
                        let o = self.sprites[j];
                        if s.x < o.x || (s.x == o.x && s.oam_index < o.oam_index) {
                            chosen = Some(i);
                        }
                    },
                }
            }
            i += 1;
        }

        if let Some(i) = chosen {
            let mut s = self.sprites[i];
            s.fetched = true;
            self.sprites.set(i, s);
            let offset = (s.x as i16 + 1) - self.px;
            // If the BG fetch is already complete (tile held in `pending`), the
            // trigger and fetch-complete coincide on this dot — it is core dot 1,
            // not a wasted alignment dot.
            let stage = if self.pending.is_some() { SpriteStage::Core(0) } else { SpriteStage::Align };
            self.sprite_fetch = Some(SpriteFetch { sprite: s, offset, stage });
            return true;
        }
        false
    }

    fn overlay_sprite(&mut self, vram: &[u8], r: Regs, s: &SelectedSprite, offset: i16)
        requires
            old(self).inner_wf(),
            vram@.len() >= 0x4000,
        ensures
            final(self).inner_wf(),
            final(self)@ == (PipelineView { obj: overlaid(old(self)@.obj, vram@, r, *s, offset), ..old(self)@ }),
    {
        let (lo, hi) = self.sprite_planes(vram, r, s);
        // OAM-index priority applies only on CGB with OPRI cleared; DMG and
        // OPRI=1 resolve overlaps by fetch (coordinate) order.
        let index_priority = r.mode == GBMode::CGB && !r.opri;
        proof {
            lemma_overlay_colors(self@.obj, lo, hi, *s, offset, index_priority);
        }
        self.obj.overlay(lo, hi, s, offset, index_priority);
    }

    fn sprite_planes(&self, vram: &[u8], r: Regs, s: &SelectedSprite) -> (res: (u8, u8))
        requires
            vram@.len() >= 0x4000,
        ensures
            res == sprite_rows(vram@, r, *s),
    {
        let size: u8 = if r.lcdc & 0x04 != 0 { 16 } else { 8 };
        let top = s.y.wrapping_sub(16);
        let mask: u8 = size - 1;
        let row0 = r.ly.wrapping_sub(top) & mask;
        proof {
            lemma_bank_bits(r.ly.wrapping_sub(top));
            lemma_byte_masks(r.ly.wrapping_sub(top));
        }
        let row = if s.attr & 0x40 != 0 { size - 1 - row0 } else { row0 };

        let tile = if size == 16 { s.tile & 0xFE } else { s.tile };
        let addr = 0x8000u16 + tile as u16 * 16 + row as u16 * 2;
        let bank: usize = if r.mode == GBMode::CGB && s.attr & 0x08 != 0 { 1 } else { 0 };

        (rd(vram, addr, bank), rd(vram, addr + 1, bank))
    }

    fn check_window(&mut self, r: Regs)
        requires
            old(self).inner_wf(),
        ensures
            final(self).inner_wf(),
            final(self)@ == window_checked(old(self)@, r),
    {
        if self.window_active || self.sprite_fetch.is_some() {
            return;
        }

        if r.lcdc & 0x20 == 0 || !r.window_y {
            return;
        }

        if r.wx >= 167 {
            return;
        }

        if self.px == r.wx as i16 {
            self.window_active = true;
            self.window_triggered = true;
            self.fetching_window = true;
            self.tile_x = 0;
            self.pending = None;
            self.step = FetchStep::Tile;
            self.sub = 0;
            self.bg.clear();
            if r.wx < 7 {
                self.clip = 7 - r.wx;
            }
        }
    }
}

} // verus!
