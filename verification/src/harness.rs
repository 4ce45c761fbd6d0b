use crate::components::registers::Registers;
use crate::hw::motherboard::{step_ok, BoardView, Fault, Motherboard};
use crate::hw::sysbus::{sys_read, sys_readable};
use crate::framebuffer::{FRAMEBUFFER_SIZE, SCREEN_H, SCREEN_W};
use vstd::prelude::*;

verus! {

/// Condition that ends a headless run.
#[derive(Debug, Clone, Copy)]
pub enum StopCondition {
    /// A read of `addr` (CPU-addressable memory / sysbus register) equals
    /// `value`. Polled after each instruction.
    RegisterEquals { addr: u16, value: u8 },
    RegistersEqual(Registers),
    /// The CPU executed `LD B,B` (0x40), the test-ROM magic breakpoint.
    MagicBreak,
    /// At least this many frames (VBlanks) have been produced.
    Frames(u64),
    /// At least this many T-cycles have elapsed.
    Cycles(u64),
}

/// Why a run ended.
#[derive(Debug, PartialEq, Eq, Structural, Clone, Copy)]
pub enum RunOutcome {
    /// The stop condition was met.
    Met,
    /// The cycle budget elapsed before the stop condition was met.
    TimedOut,
}

/// A headless machine: a motherboard run with no window, audio or pacing,
/// and the T-cycles it has run.
pub struct Harness {
    mb: Motherboard,
    cycles: u64,
}

/// Whether `stop` holds of the board `b` after `cycles` T-cycles.
pub open spec fn stop_met(b: BoardView, cycles: u64, stop: StopCondition) -> bool {
    match stop {
        StopCondition::RegisterEquals { addr, value } => sys_readable(b.sys, addr) && sys_read(b.sys, addr) == value,
        StopCondition::RegistersEqual(r) => b.cpu.reg == r,
        StopCondition::MagicBreak => b.last_op == 0x40,
        StopCondition::Frames(n) => b.frames >= n,
        StopCondition::Cycles(n) => cycles >= n,
    }
}

/// The M-cycle budget `run_until` gives one step: the whole M-cycles left
/// before `max_cycles` (at least one), capped.
pub open spec fn step_budget(cycles: u64, max_cycles: u64) -> u32 {
    if cycles < max_cycles {
        let rem = (max_cycles - cycles) / 4;
        if rem == 0 {
            1
        } else if rem > 0x1000_0000 {
            0x1000_0000
        } else {
            rem as u32
        }
    } else {
        1
    }
}

/// A run from board `b` at `cycles` T-cycles can end at board `n`, `nc`
/// T-cycles, with result `r`, in at most `k` steps: each step is given the
/// budget left; after each fault-free step the stop condition is tested,
/// then the cycle budget.
pub open spec fn run_ok(
    b: BoardView,
    cycles: u64,
    stop: StopCondition,
    max_cycles: u64,
    n: BoardView,
    nc: u64,
    r: Result<RunOutcome, Fault>,
    k: nat,
) -> bool
    decreases k,
{
    k > 0 && {
        let limit = step_budget(cycles, max_cycles);
        ||| exists|f: Fault| r == Err::<RunOutcome, Fault>(f) && nc == cycles && #[trigger] step_ok(b, limit as nat, n, Err(f))
        ||| exists|m: BoardView, c: u32, fetched: bool| {
            &&& #[trigger] step_ok(b, limit as nat, m, Ok((c, fetched)))
            &&& cycles + c <= u64::MAX
            &&& {
                let mc = (cycles + c) as u64;
                if stop_met(m, mc, stop) {
                    r == Ok::<RunOutcome, Fault>(RunOutcome::Met) && n == m && nc == mc
                } else if mc >= max_cycles {
                    r == Ok::<RunOutcome, Fault>(RunOutcome::TimedOut) && n == m && nc == mc
                } else {
                    run_ok(m, mc, stop, max_cycles, n, nc, r, (k - 1) as nat)
                }
            }
        }
    }
}

impl Harness {
    pub closed spec fn wf(&self) -> bool {
        self.mb.wf()
    }

    /// The T-cycles run so far.
    pub closed spec fn elapsed(&self) -> u64 {
        self.cycles
    }

    /// The machine's state.
    pub closed spec fn board(&self) -> BoardView {
        self.mb@
    }

    pub fn new(mb: Motherboard) -> (r: Self)
        requires
            mb.wf(),
        ensures
            r.wf(),
            r.elapsed() == 0,
            r.board() == mb@,
    {
        Self { mb, cycles: 0 }
    }

    /// Whether `stop` holds now.
    fn met(&self, stop: StopCondition) -> (r: bool)
        ensures
            r == stop_met(self.mb@, self.cycles, stop),
    {
        match stop {
            StopCondition::RegisterEquals { addr, value } => match self.mb.peek(addr) {
                Some(v) => v == value,
                None => false,
            },
            StopCondition::RegistersEqual(r) => self.mb.cpu_regs() == r,
            StopCondition::MagicBreak => self.mb.magic_break(),
            StopCondition::Frames(n) => self.mb.frame_count() >= n,
            StopCondition::Cycles(n) => self.cycles >= n,
        }
    }

    /// Runs one instruction at a time until `stop` holds after an
    /// instruction, or `max_cycles` T-cycles have run in all, whichever
    /// comes first (see `run_ok`); a step that faults ends the run with its
    /// fault, and only that does.
    pub fn run_until(&mut self, stop: StopCondition, max_cycles: u64) -> (r: Result<RunOutcome, Fault>)
        requires
            old(self).wf(),
            old(self).elapsed() <= u64::MAX - 8,
            max_cycles <= u64::MAX - 8,
        ensures
            final(self).wf(),
            exists|k: nat|
                run_ok(
                    old(self).board(),
                    old(self).elapsed(),
                    stop,
                    max_cycles,
                    final(self).board(),
                    final(self).elapsed(),
                    r,
                    k,
                ),
            r == Ok::<RunOutcome, Fault>(RunOutcome::Met) ==> stop_met(final(self).board(), final(self).elapsed(), stop),
            r == Ok::<RunOutcome, Fault>(RunOutcome::TimedOut) ==> final(self).elapsed() >= max_cycles && !stop_met(
                final(self).board(),
                final(self).elapsed(),
                stop,
            ),
    {
        self.run_loop(stop, max_cycles)
    }

    fn run_loop(&mut self, stop: StopCondition, max_cycles: u64) -> (r: Result<RunOutcome, Fault>)
        requires
            old(self).wf(),
            old(self).elapsed() <= u64::MAX - 8,
            max_cycles <= u64::MAX - 8,
        ensures
            final(self).wf(),
            exists|k: nat|
                run_ok(
                    old(self).board(),
                    old(self).elapsed(),
                    stop,
                    max_cycles,
                    final(self).board(),
                    final(self).elapsed(),
                    r,
                    k,
                ),
            r == Ok::<RunOutcome, Fault>(RunOutcome::Met) ==> stop_met(final(self).board(), final(self).elapsed(), stop),
            r == Ok::<RunOutcome, Fault>(RunOutcome::TimedOut) ==> final(self).elapsed() >= max_cycles && !stop_met(
                final(self).board(),
                final(self).elapsed(),
                stop,
            ),
        decreases (if old(self).elapsed() < max_cycles { max_cycles - old(self).elapsed() } else { 0 }), 1int,
    {
        let limit: u32 = if self.cycles < max_cycles {
            let rem = (max_cycles - self.cycles) / 4;
            if rem == 0 {
                1
            } else if rem > 0x1000_0000 {
                0x1000_0000
            } else {
                rem as u32
            }
        } else {
            1
        };
        assert(limit == step_budget(self.cycles, max_cycles));
        let ghost b0 = self.mb@;
        let ghost c0 = self.cycles;
        let (c, fetched) = match self.mb.step(limit) {
            Ok(v) => v,
            Err(e) => {
                proof {
                    assert(step_ok(b0, limit as nat, self.mb@, Err(e)));
                    assert(run_ok(old(self).board(), old(self).elapsed(), stop, max_cycles, self.board(), self.elapsed(), Err(e), 1));
                }
                return Err(e);
            },
        };
        proof {
            lemma_step_cycles(b0, limit as nat, self.mb@, c, fetched);
            assert(step_ok(b0, limit as nat, self.mb@, Ok((c, fetched))));
        }
        let ghost m = self.mb@;
        self.cycles = self.cycles + c as u64;
        if self.met(stop) {
            proof {
                assert(run_ok(old(self).board(), old(self).elapsed(), stop, max_cycles, self.board(), self.elapsed(), Ok(RunOutcome::Met), 1));
            }
            return Ok(RunOutcome::Met);
        }
        if self.cycles >= max_cycles {
            proof {
                assert(run_ok(old(self).board(), old(self).elapsed(), stop, max_cycles, self.board(), self.elapsed(), Ok(RunOutcome::TimedOut), 1));
            }
            return Ok(RunOutcome::TimedOut);
        }
        let mc = self.cycles;
        let r = self.run_loop(stop, max_cycles);
        proof {
            let k = choose|k: nat| run_ok(m, mc, stop, max_cycles, self.mb@, self.cycles, r, k);
            assert(run_ok(old(self).board(), old(self).elapsed(), stop, max_cycles, self.board(), self.elapsed(), r, k + 1));
        }
        r
    }

    /// The T-cycles run so far.
    pub fn cycles(&self) -> (r: u64)
        ensures
            r == self.elapsed(),
    {
        self.cycles
    }

    /// A byte of CPU-addressable memory, read without side effects; `None`
    /// where the cartridge has no storage behind the address.
    pub fn peek(&self, addr: u16) -> (r: Option<u8>)
        ensures
            r == (if sys_readable(self.board().sys, addr) {
                Some(sys_read(self.board().sys, addr))
            } else {
                None
            }),
    {
        self.mb.peek(addr)
    }

    /// Bytes sent over the serial port so far.
    pub fn serial(&self) -> &[u8] {
        self.mb.serial_output()
    }

    /// The CPU registers.
    pub fn cpu_regs(&self) -> (r: Registers)
        ensures
            r == self.board().cpu.reg,
    {
        self.mb.cpu_regs()
    }

    /// Whether the instruction that ended last was the `LD B,B` breakpoint.
    pub fn magic_break(&self) -> (r: bool)
        ensures
            r == (self.board().last_op == 0x40),
    {
        self.mb.magic_break()
    }
}

/// A step that did not fault ran between one M-cycle and its budget.
proof fn lemma_step_cycles(b: BoardView, limit: nat, n: BoardView, c: u32, fetched: bool)
    requires
        step_ok(b, limit, n, Ok((c, fetched))),
    ensures
        4 <= c <= 4 * limit,
        !fetched ==> c == 4 * limit,
{
}

/// A decoded reference image, expanded to 8-bit RGBA.
pub struct RefImage {
    pub width: usize,
    pub height: usize,
    pub rgba: Vec<u8>,
}

/// How the bytes of a decoded 8-bit image hold a pixel.
#[derive(Debug, Clone, Copy, PartialEq, Eq, Structural)]
pub enum PixelLayout {
    Grayscale,
    GrayscaleAlpha,
    Rgb,
    Rgba,
    /// One byte indexing a palette of RGB triples.
    Indexed,
}

pub open spec fn layout_bytes(l: PixelLayout) -> int {
    match l {
        PixelLayout::Grayscale => 1,
        PixelLayout::GrayscaleAlpha => 2,
        PixelLayout::Rgb => 3,
        PixelLayout::Rgba => 4,
        PixelLayout::Indexed => 1,
    }
}

/// Byte `c` (0 red, 1 green, 2 blue, 3 alpha) of pixel `i` of the expanded
/// image; a palette entry past the palette's end reads as 0.
pub open spec fn expanded_byte(l: PixelLayout, raw: Seq<u8>, palette: Seq<u8>, i: int, c: int) -> u8 {
    match l {
        PixelLayout::Grayscale => if c == 3 { 0xFF } else { raw[i] },
        PixelLayout::GrayscaleAlpha => if c == 3 { raw[2 * i + 1] } else { raw[2 * i] },
        PixelLayout::Rgb => if c == 3 { 0xFF } else { raw[3 * i + c] },
        PixelLayout::Rgba => raw[4 * i + c],
        PixelLayout::Indexed => if c == 3 {
            0xFF
        } else if 3 * raw[i] + c < palette.len() {
            palette[3 * raw[i] + c]
        } else {
            0
        },
    }
}

/// What the `png` crate makes of a byte string, decoded with palette and
/// low-bit-depth expansion and 16-bit stripping: width, height, bit depth,
/// colour type code, the pixel bytes of the first frame, and the palette,
/// or nothing where the bytes do not decode.
pub uninterp spec fn png_decoded(bytes: Seq<u8>) -> Option<(usize, usize, u8, u8, Seq<u8>, Option<Seq<u8>>)>;

/// The palette bytes a decoded image carries, as a sequence.
pub open spec fn palette_view(p: Option<Vec<u8>>) -> Option<Seq<u8>> {
    match p {
        Some(v) => Some(v@),
        None => None,
    }
}

/// The `png` crate's decoder (`Decoder::new`, `set_transformations` with
/// `EXPAND | STRIP_16`, `read_info`, `output_buffer_size`, `next_frame`,
/// `Reader::info().palette`) on `bytes`. Claimed: the result is
/// `png_decoded` of the bytes; a bit depth is one of the five PNG depths
/// and a colour type one of the five PNG codes (the crate's enums carry
/// exactly these values).
#[verifier::external_body]
fn png_decode(bytes: &[u8]) -> (r: Option<(usize, usize, u8, u8, Vec<u8>, Option<Vec<u8>>)>)
    ensures
        match r {
            Some(d) => png_decoded(bytes@) == Some((d.0, d.1, d.2, d.3, d.4@, palette_view(d.5))),
            None => png_decoded(bytes@) is None,
        },
        r matches Some(d) ==> (d.2 == 1 || d.2 == 2 || d.2 == 4 || d.2 == 8 || d.2 == 16),
        r matches Some(d) ==> (d.3 == 0 || d.3 == 2 || d.3 == 3 || d.3 == 4 || d.3 == 6),
{
    let mut dec = png::Decoder::new(std::io::Cursor::new(bytes));
    dec.set_transformations(png::Transformations::EXPAND | png::Transformations::STRIP_16);
    let mut rd = dec.read_info().ok()?;
    let mut raw = vec![0u8; rd.output_buffer_size()?];
    let info = rd.next_frame(&mut raw).ok()?;
    raw.truncate(info.buffer_size());
    let pal = rd.info().palette.as_ref().map(|p| p.to_vec());
    Some((info.width as usize, info.height as usize, info.bit_depth as u8, info.color_type as u8, raw, pal))
}

/// Why a reference image was refused.
#[derive(Debug, Clone, Copy, PartialEq, Eq, Structural)]
pub enum DecodeError {
    /// The bytes are not a PNG the decoder reads.
    Undecodable,
    /// The decoded image is not 8 bits per sample.
    BitDepth(u8),
    /// An indexed image without a palette.
    NoPalette,
    /// The pixel data does not cover the image (or its RGBA size does not fit).
    Truncated,
}

/// How the bytes of a pixel are laid out for PNG colour type `code`.
pub open spec fn layout_of(code: u8) -> Option<PixelLayout> {
    if code == 0 {
        Some(PixelLayout::Grayscale)
    } else if code == 2 {
        Some(PixelLayout::Rgb)
    } else if code == 3 {
        Some(PixelLayout::Indexed)
    } else if code == 4 {
        Some(PixelLayout::GrayscaleAlpha)
    } else if code == 6 {
        Some(PixelLayout::Rgba)
    } else {
        None
    }
}

/// `img` is the `w` x `h` image `raw` expands to in layout `l` with `palette`.
pub open spec fn expanded_image(img: RefImage, w: usize, h: usize, l: PixelLayout, raw: Seq<u8>, palette: Seq<u8>) -> bool {
    &&& img.width == w
    &&& img.height == h
    &&& img.rgba@.len() == w * h * 4
    &&& forall|i: int, c: int|
        0 <= i < w * h && 0 <= c < 4 ==> #[trigger] img.rgba@[4 * i + c] == expanded_byte(l, raw, palette, i, c)
}

/// What a reference image decodes to: refused where the bytes do not
/// decode, the depth is not 8 bits, an indexed image has no palette, or the
/// data is short; otherwise the RGBA expansion.
pub open spec fn decode_accepts(d: (usize, usize, u8, u8, Seq<u8>, Option<Seq<u8>>)) -> Result<PixelLayout, DecodeError> {
    let (w, h, depth, code, raw, pal) = d;
    if depth != 8 {
        Err(DecodeError::BitDepth(depth))
    } else {
        match layout_of(code) {
            None => Err(DecodeError::Undecodable),
            Some(l) => if l == PixelLayout::Indexed && pal is None {
                Err(DecodeError::NoPalette)
            } else if w * h * 4 > usize::MAX || raw.len() < w * h * layout_bytes(l) {
                Err(DecodeError::Truncated)
            } else {
                Ok(l)
            },
        }
    }
}

/// The palette an accepted image expands with: its own for an indexed
/// image, none otherwise.
pub open spec fn palette_used(l: PixelLayout, pal: Option<Seq<u8>>) -> Seq<u8> {
    match pal {
        Some(p) => if l == PixelLayout::Indexed { p } else { Seq::empty() },
        None => Seq::empty(),
    }
}

impl RefImage {
    /// Decodes PNG bytes into 8-bit RGBA. Supports the 8-bit grayscale,
    /// RGB, RGBA and palette-indexed encodings of the reference suites.
    pub fn decode(bytes: &[u8]) -> (r: Result<RefImage, DecodeError>)
        ensures
            png_decoded(bytes@) is None ==> r == Err::<RefImage, DecodeError>(DecodeError::Undecodable),
            png_decoded(bytes@) matches Some(d) ==> match decode_accepts(d) {
                Err(e) => r == Err::<RefImage, DecodeError>(e),
                Ok(l) => r matches Ok(img) && expanded_image(img, d.0, d.1, l, d.4, palette_used(l, d.5)),
            },
    {
        let (w, h, depth, code, raw, pal) = match png_decode(bytes) {
            Some(d) => d,
            None => return Err(DecodeError::Undecodable),
        };
        if depth != 8 {
            return Err(DecodeError::BitDepth(depth));
        }
        let layout = if code == 0 {
            PixelLayout::Grayscale
        } else if code == 2 {
            PixelLayout::Rgb
        } else if code == 3 {
            PixelLayout::Indexed
        } else if code == 4 {
            PixelLayout::GrayscaleAlpha
        } else if code == 6 {
            PixelLayout::Rgba
        } else {
            return Err(DecodeError::Undecodable);
        };
        let bytes_per_pixel: usize = match layout {
            PixelLayout::Grayscale => 1,
            PixelLayout::GrayscaleAlpha => 2,
            PixelLayout::Rgb => 3,
            PixelLayout::Rgba => 4,
            PixelLayout::Indexed => 1,
        };
        let palette: Vec<u8> = match layout {
            PixelLayout::Indexed => match pal {
                Some(p) => p,
                None => return Err(DecodeError::NoPalette),
            },
            _ => Vec::new(),
        };
        // `expand` needs the pixel count to fit and the raw data to cover
        // every pixel.
        let px = match w.checked_mul(h) {
            Some(px) => px,
            None => return Err(DecodeError::Truncated),
        };
        let bytes = match px.checked_mul(4) {
            Some(b) => b,
            None => return Err(DecodeError::Truncated),
        };
        let need = match px.checked_mul(bytes_per_pixel) {
            Some(n) => n,
            None => return Err(DecodeError::Truncated),
        };
        if raw.len() < need {
            return Err(DecodeError::Truncated);
        }
        proof {
            assert(bytes == w * h * 4);
        }
        Ok(RefImage::expand(w, h, layout, raw.as_slice(), palette.as_slice()))
    }

    /// Expands `width * height` decoded pixels to RGBA: grey fills R, G and
    /// B; a missing alpha is opaque; an index looks up its palette triple.
    pub fn expand(width: usize, height: usize, layout: PixelLayout, raw: &[u8], palette: &[u8]) -> (r: RefImage)
        requires
            width * height * 4 <= usize::MAX,
            raw@.len() >= width * height * layout_bytes(layout),
        ensures
            r.width == width,
            r.height == height,
            r.rgba@.len() == width * height * 4,
            forall|i: int, c: int|
                0 <= i < width * height && 0 <= c < 4 ==> #[trigger] r.rgba@[4 * i + c] == expanded_byte(
                    layout,
                    raw@,
                    palette@,
                    i,
                    c,
                ),
    {
        let px = width * height;
        let mut rgba: Vec<u8> = Vec::new();
        let mut i: usize = 0;
        while i < px
            invariant
                px == width * height,
                px * 4 <= usize::MAX,
                raw@.len() >= px * layout_bytes(layout),
                i <= px,
                rgba@.len() == 4 * i,
                forall|j: int, c: int|
                    0 <= j < i && 0 <= c < 4 ==> #[trigger] rgba@[4 * j + c] == expanded_byte(
                        layout,
                        raw@,
                        palette@,
                        j,
                        c,
                    ),
            decreases px - i,
        {
            proof {
                assert(i * layout_bytes(layout) + layout_bytes(layout) <= px * layout_bytes(layout))
                    by (nonlinear_arith)
                    requires i < px, layout_bytes(layout) >= 1;
            }
            let ghost before = rgba@;
            match layout {
                PixelLayout::Grayscale => {
                    let g = raw[i];
                    rgba.push(g);
                    rgba.push(g);
                    rgba.push(g);
                    rgba.push(0xFF);
                },
                PixelLayout::GrayscaleAlpha => {
                    let g = raw[i * 2];
                    rgba.push(g);
                    rgba.push(g);
                    rgba.push(g);
                    rgba.push(raw[i * 2 + 1]);
                },
                PixelLayout::Rgb => {
                    rgba.push(raw[i * 3]);
                    rgba.push(raw[i * 3 + 1]);
                    rgba.push(raw[i * 3 + 2]);
                    rgba.push(0xFF);
                },
                PixelLayout::Rgba => {
                    rgba.push(raw[i * 4]);
                    rgba.push(raw[i * 4 + 1]);
                    rgba.push(raw[i * 4 + 2]);
                    rgba.push(raw[i * 4 + 3]);
                },
                PixelLayout::Indexed => {
                    let idx = raw[i] as usize;
                    rgba.push(palette_byte(palette, idx * 3));
                    rgba.push(palette_byte(palette, idx * 3 + 1));
                    rgba.push(palette_byte(palette, idx * 3 + 2));
                    rgba.push(0xFF);
                },
            }
            proof {
                assert forall|j: int, c: int| 0 <= j < i + 1 && 0 <= c < 4 implies #[trigger] rgba@[4 * j + c]
                    == expanded_byte(layout, raw@, palette@, j, c) by {
                    if j < i {
                        assert(rgba@[4 * j + c] == before[4 * j + c]);
                    }
                }
            }
            i += 1;
        }
        RefImage { width, height, rgba }
    }
}

/// The palette byte at `k`, or 0 past its end.
fn palette_byte(palette: &[u8], k: usize) -> (r: u8)
    ensures
        r == (if k < palette@.len() { palette@[k as int] } else { 0 }),
{
    if k < palette.len() {
        palette[k]
    } else {
        0
    }
}

/// Result of comparing a rendered frame to a reference image.
#[derive(Debug, Clone)]
pub struct DiffReport {
    pub total: usize,
    pub matched: usize,
    /// First (x, y) that differs, scanning row-major; `None` when exact.
    pub first_diff: Option<(usize, usize)>,
}

impl DiffReport {
    pub fn is_exact(&self) -> (r: bool)
        ensures
            r == (self.total > 0 && self.first_diff is None),
    {
        self.total > 0 && self.first_diff.is_none()
    }
}

/// Why a frame could not be compared.
#[derive(Debug, Clone, Copy, PartialEq, Eq, Structural)]
pub enum CompareError {
    /// The reference is not 160 x 144.
    ReferenceSize { width: usize, height: usize },
    /// The frame holds fewer than 160 x 144 RGBA pixels.
    FrameTooSmall { len: usize },
}

/// Pixel `p` (row-major) has the same R, G and B in both images.
pub open spec fn pixel_matches(frame: Seq<u8>, reference: Seq<u8>, p: int) -> bool {
    &&& frame[4 * p] == reference[4 * p]
    &&& frame[4 * p + 1] == reference[4 * p + 1]
    &&& frame[4 * p + 2] == reference[4 * p + 2]
}

/// How many of the first `n` pixels match.
pub open spec fn matches_before(frame: Seq<u8>, reference: Seq<u8>, n: nat) -> nat
    decreases n,
{
    if n == 0 {
        0
    } else {
        matches_before(frame, reference, (n - 1) as nat) + if pixel_matches(frame, reference, n - 1) {
            1nat
        } else {
            0
        }
    }
}

/// The first of the first `n` pixels that differs, if any.
pub open spec fn first_mismatch(frame: Seq<u8>, reference: Seq<u8>, n: nat) -> Option<int>
    decreases n,
{
    if n == 0 {
        None
    } else {
        match first_mismatch(frame, reference, (n - 1) as nat) {
            Some(p) => Some(p),
            None => if pixel_matches(frame, reference, n - 1) {
                None
            } else {
                Some(n - 1)
            },
        }
    }
}

/// Compares a rendered RGBA `frame` (160x144) to `reference` by direct RGB
/// equality, pixel by pixel in row-major order.
pub fn compare_frame(frame: &[u8], reference: &RefImage) -> (r: Result<DiffReport, CompareError>)
    requires
        reference.width == SCREEN_W && reference.height == SCREEN_H ==> reference.rgba@.len()
            >= FRAMEBUFFER_SIZE,
    ensures
        reference.width != SCREEN_W || reference.height != SCREEN_H ==> r == Err::<DiffReport, CompareError>(
            CompareError::ReferenceSize { width: reference.width, height: reference.height },
        ),
        reference.width == SCREEN_W && reference.height == SCREEN_H && frame@.len() < FRAMEBUFFER_SIZE ==> r
            == Err::<DiffReport, CompareError>(CompareError::FrameTooSmall { len: frame@.len() as usize }),
        reference.width == SCREEN_W && reference.height == SCREEN_H && frame@.len() >= FRAMEBUFFER_SIZE ==> {
            &&& r is Ok
            &&& r->Ok_0.total == 23040
            &&& r->Ok_0.matched == matches_before(frame@, reference.rgba@, 23040)
            &&& r->Ok_0.first_diff == match first_mismatch(frame@, reference.rgba@, 23040) {
                Some(p) => Some(((p % 160) as usize, (p / 160) as usize)),
                None => None::<(usize, usize)>,
            }
        },
{
    if reference.width != SCREEN_W || reference.height != SCREEN_H {
        return Err(CompareError::ReferenceSize { width: reference.width, height: reference.height });
    }
    if frame.len() < SCREEN_W * SCREEN_H * 4 {
        return Err(CompareError::FrameTooSmall { len: frame.len() });
    }

    let mut matched = 0usize;
    let mut first_diff: Option<(usize, usize)> = None;
    let mut p: usize = 0;
    while p < 23040
        invariant
            p <= 23040,
            frame@.len() >= FRAMEBUFFER_SIZE,
            reference.rgba@.len() >= FRAMEBUFFER_SIZE,
            matched == matches_before(frame@, reference.rgba@, p as nat),
            matched <= p,
            first_diff == match first_mismatch(frame@, reference.rgba@, p as nat) {
                Some(q) => Some(((q % 160) as usize, (q / 160) as usize)),
                None => None::<(usize, usize)>,
            },
        decreases 23040 - p,
    {
        let i = p * 4;
        if frame[i] == reference.rgba[i] && frame[i + 1] == reference.rgba[i + 1] && frame[i + 2]
            == reference.rgba[i + 2] {
            matched += 1;
        } else if first_diff.is_none() {
            first_diff = Some((p % 160, p / 160));
        }
        p += 1;
    }

    Ok(DiffReport { total: SCREEN_W * SCREEN_H, matched, first_diff })
}

} // verus!
