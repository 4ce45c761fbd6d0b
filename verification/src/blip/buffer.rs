use crate::bits::{lemma_fixed_frac, lemma_fixed_whole};
use vstd::prelude::*;

verus! {

/// Band-limited sound synthesis: amplitude changes ("deltas") are added at
/// clock times; each frame converts elapsed clocks into output samples at a
/// fixed-point rate, and reading integrates the deltas into samples.
pub struct BlipBuf {
    factor: u32,
    offset: u32,
    avail: usize,
    size: usize,
    integrator: i32,
    samples: Vec<i32>,
}

pub struct BlipView {
    pub factor: u32,
    pub offset: u32,
    pub avail: usize,
    pub size: usize,
    pub integrator: i32,
    pub samples: Seq<i32>,
}

impl View for BlipBuf {
    type V = BlipView;

    closed spec fn view(&self) -> BlipView {
        BlipView {
            factor: self.factor,
            offset: self.offset,
            avail: self.avail,
            size: self.size,
            integrator: self.integrator,
            samples: self.samples@,
        }
    }
}

/// Samples kept past the end of the buffer for the filter's tail.
pub const BUF_EXTRA: usize = 18;

/// One clock in 12.20 fixed point.
pub const TIME_UNIT: u32 = 0x10_0000;

/// The band-limited step's kernel: for each of 33 phases, the first half of
/// eight taps (the second half is the same read backwards from the mirrored
/// phase).
pub const BL_STEP: [[i32; 8]; 33] = [
    [43, -115, 350, -488, 1136, -914, 5861, 21022],
    [44, -118, 348, -473, 1076, -799, 5274, 21001],
    [45, -121, 344, -454, 1011, -677, 4706, 20936],
    [46, -122, 336, -431, 942, -549, 4156, 20829],
    [47, -123, 327, -404, 868, -418, 3629, 20679],
    [47, -122, 316, -375, 792, -285, 3124, 20488],
    [47, -120, 303, -344, 714, -151, 2644, 20256],
    [46, -117, 289, -310, 634, -17, 2188, 19985],
    [46, -114, 273, -275, 553, 117, 1758, 19675],
    [44, -108, 255, -237, 471, 247, 1356, 19327],
    [43, -103, 237, -199, 390, 373, 981, 18944],
    [42, -98, 218, -160, 310, 495, 633, 18527],
    [40, -91, 198, -121, 231, 611, 314, 18078],
    [38, -84, 178, -81, 153, 722, 22, 17599],
    [36, -76, 157, -43, 80, 824, -241, 17092],
    [34, -68, 135, -3, 8, 919, -476, 16558],
    [32, -61, 115, 34, -60, 1006, -683, 16001],
    [29, -52, 94, 70, -123, 1083, -862, 15422],
    [27, -44, 73, 106, -184, 1152, -1015, 14824],
    [25, -36, 53, 139, -239, 1211, -1142, 14210],
    [22, -27, 34, 170, -290, 1261, -1244, 13582],
    [20, -20, 16, 199, -335, 1301, -1322, 12942],
    [18, -12, -3, 226, -375, 1331, -1376, 12293],
    [15, -4, -19, 250, -410, 1351, -1408, 11638],
    [13, 3, -35, 272, -439, 1361, -1419, 10979],
    [11, 9, -49, 292, -464, 1362, -1410, 10319],
    [9, 16, -63, 309, -483, 1354, -1383, 9660],
    [7, 22, -75, 322, -496, 1337, -1339, 9005],
    [6, 26, -85, 333, -504, 1312, -1280, 8355],
    [4, 31, -94, 341, -507, 1278, -1205, 7713],
    [3, 35, -102, 347, -506, 1238, -1119, 7082],
    [1, 40, -110, 350, -499, 1190, -1021, 6464],
    [0, 43, -115, 350, -488, 1136, -914, 5861],
];

/// The kernel phase of a fixed-point time: its top five fraction bits.
pub open spec fn step_phase(fixed: int) -> int {
    (fixed / 32768) % 32
}

/// How far a fixed-point time lies between two kernel phases, in 1/32768.
pub open spec fn step_interp(fixed: int) -> int {
    fixed % 32768
}

/// The share of `delta` given to the next phase: `delta * interp / 32768`,
/// rounded down.
pub open spec fn step_share(delta: int, interp: int) -> int {
    (delta * interp) / 32768
}

/// What the first half of the kernel adds at tap `k`, with `d1` weighted by
/// phase `p` and `d2` by phase `p + 1`.
pub open spec fn step_rise(p: int, k: int, d1: int, d2: int) -> int {
    BL_STEP[p][k] * d1 + BL_STEP[p + 1][k] * d2
}

/// What the mirrored second half of the kernel adds at tap `k`.
pub open spec fn step_fall(p: int, k: int, d1: int, d2: int) -> int {
    BL_STEP[32 - p][7 - k] * d1 + BL_STEP[31 - p][7 - k] * d2
}

/// `cur + (a * d1 + b * d2)` keeps every product and sum within 32 bits.
pub open spec fn tap_fits(cur: int, a: int, b: int, d1: int, d2: int) -> bool {
    &&& i32::MIN <= a * d1 <= i32::MAX
    &&& i32::MIN <= b * d2 <= i32::MAX
    &&& i32::MIN <= a * d1 + b * d2 <= i32::MAX
    &&& i32::MIN <= cur + a * d1 + b * d2 <= i32::MAX
}

/// Both halves of the kernel add to sample `i + k` within 32 bits.
pub open spec fn step_tap_fits(s: Seq<i32>, i: int, p: int, d1: int, d2: int, k: int) -> bool {
    &&& tap_fits(s[i + k] as int, BL_STEP[p][k] as int, BL_STEP[p + 1][k] as int, d1, d2)
    &&& tap_fits(
        s[i + k] + step_rise(p, k, d1, d2),
        BL_STEP[32 - p][7 - k] as int,
        BL_STEP[31 - p][7 - k] as int,
        d1,
        d2,
    )
}

/// The samples after the first `n` taps of a step at sample `i`.
pub open spec fn stepped(s: Seq<i32>, i: int, p: int, d1: int, d2: int, n: int) -> Seq<i32> {
    Seq::new(
        s.len(),
        |j: int|
            if i <= j < i + n {
                (s[j] + step_rise(p, j - i, d1, d2) + step_fall(p, j - i, d1, d2)) as i32
            } else {
                s[j]
            },
    )
}

/// The output slots per sample: 2 when interleaving stereo.
pub open spec fn blip_step(stereo: bool) -> int {
    if stereo {
        2
    } else {
        1
    }
}

pub open spec fn zeros(n: nat) -> Seq<i32> {
    Seq::new(n, |i: int| 0i32)
}

/// The output sample for an integrator value: its upper bits, clamped to
/// 16-bit range.
pub open spec fn blip_output(sum: int) -> int {
    let s = sum / 32768;
    if s < -32768 {
        -32768
    } else if s > 32767 {
        32767
    } else {
        s
    }
}

/// The integrator after reading `n` samples: each step adds the next delta
/// and takes off a share of the sample it output (a high-pass filter).
pub open spec fn blip_integrated(sum: int, samples: Seq<i32>, n: nat) -> int
    decreases n,
{
    if n == 0 {
        sum
    } else {
        let prev = blip_integrated(sum, samples, (n - 1) as nat);
        prev + samples[n - 1] - blip_output(prev) * 64
    }
}

/// Reading `n` samples keeps the integrator within 32 bits throughout.
pub open spec fn blip_fits(sum: int, samples: Seq<i32>, n: nat) -> bool {
    forall|k: nat|
        k < n ==> {
            let prev = #[trigger] blip_integrated(sum, samples, k);
            &&& i32::MIN <= prev + samples[k as int] <= i32::MAX
            &&& i32::MIN <= prev + samples[k as int] - blip_output(prev) * 64 <= i32::MAX
        }
}

impl BlipBuf {
    /// A buffer for `size` samples, cleared, at the maximum ratio.
    pub fn new(size: usize) -> (r: Self)
        requires
            size <= usize::MAX - BUF_EXTRA,
        ensures
            r@ == (BlipView { factor: 1, offset: 0, avail: 0, size, integrator: 0, samples: zeros((size + 18) as nat) }),
    {
        let samples = vec![0; size + BUF_EXTRA];
        assert(samples@ =~= zeros((size + 18) as nat));
        Self { factor: TIME_UNIT / 0x10_0000, offset: 0, avail: 0, size, integrator: 0, samples }
    }

    /// Empties the buffer and restarts the time fraction at one half step.
    pub fn clear(&mut self)
        requires
            old(self)@.size <= usize::MAX - BUF_EXTRA,
        ensures
            final(self)@ == (BlipView {
                offset: old(self)@.factor / 2,
                avail: 0,
                integrator: 0,
                samples: zeros((old(self)@.size + 18) as nat),
                ..old(self)@
            }),
    {
        self.offset = self.factor / 2;
        self.avail = 0;
        self.integrator = 0;
        let samples = vec![0; self.size + BUF_EXTRA];
        assert(samples@ =~= zeros((self.size + 18) as nat));
        self.samples = samples;
    }

    /// Sets the output samples per clock, in 12.20 fixed point, as the
    /// clock and sample rates give it.
    pub fn set_factor(&mut self, factor: u32)
        ensures
            final(self)@ == (BlipView { factor, ..old(self)@ }),
    {
        self.factor = factor;
    }

    pub fn samples_avail(&self) -> (r: usize)
        ensures
            r == self@.avail,
    {
        self.avail
    }

    /// The clocks to run before `samples` more samples are available.
    pub fn clocks_needed(&self, samples: u32) -> (r: u32)
        requires
            samples * 0x10_0000 <= u32::MAX,
            self@.factor > 0,
            samples * 0x10_0000 >= self@.offset ==> samples * 0x10_0000 - self@.offset + self@.factor
                <= u32::MAX,
        ensures
            r == if samples * 0x10_0000 < self@.offset {
                0
            } else {
                (samples * 0x10_0000 - self@.offset + self@.factor - 1) / self@.factor as int
            },
    {
        let needed: u32 = samples * TIME_UNIT;
        if needed < self.offset {
            return 0;
        }

        (needed - self.offset + self.factor - 1) / self.factor
    }

    /// Ends a frame of `t` clocks: the whole samples it spans become
    /// available and the fraction carries over.
    pub fn end_frame(&mut self, t: u32)
        requires
            t * old(self)@.factor + old(self)@.offset <= u32::MAX,
            old(self)@.avail + (t * old(self)@.factor + old(self)@.offset) / 0x10_0000 <= old(self)@.size,
        ensures
            ({
                let off = t * old(self)@.factor + old(self)@.offset;
                final(self)@ == (BlipView {
                    avail: (old(self)@.avail + off / 0x10_0000) as usize,
                    offset: (off % 0x10_0000) as u32,
                    ..old(self)@
                })
            }),
    {
        let off = t * self.factor + self.offset;
        proof {
            lemma_fixed_whole(off);
            lemma_fixed_frac(off);
        }
        self.avail += off as usize >> 20usize;
        self.offset = off & (TIME_UNIT - 1);
    }

    /// Drops the first `count` samples, shifting the rest down and
    /// zero-filling behind them.
    pub fn remove_samples(&mut self, count: usize)
        requires
            count <= old(self)@.avail,
            old(self)@.avail + BUF_EXTRA <= old(self)@.samples.len(),
        ensures
            final(self)@ == (BlipView {
                avail: (old(self)@.avail - count) as usize,
                samples: old(self)@.samples.subrange(count as int, old(self)@.avail + 18) + zeros(count as nat),
                ..old(self)@
            }),
    {
        let total = self.samples.len();
        let remain = self.avail + BUF_EXTRA - count;
        self.avail -= count;

        let mut kept: Vec<i32> = Vec::new();
        let mut i = count;
        while i < count + remain
            invariant
                count <= i <= count + remain,
                count + remain <= self.samples.len(),
                kept@ == self.samples@.subrange(count as int, i as int),
            decreases count + remain - i,
        {
            kept.push(self.samples[i]);
            i += 1;
        }
        let ghost body = kept@;
        let mut j: usize = 0;
        while j < count
            invariant
                j <= count,
                kept@ == body + zeros(j as nat),
            decreases count - j,
        {
            kept.push(0);
            j += 1;
            assert(kept@ =~= body + zeros(j as nat));
        }
        self.samples = kept;
    }

    /// Reads up to `count` samples into `out` (every other slot when
    /// `stereo`), removes them, and returns how many were read.
    pub fn read_samples(&mut self, out: &mut [i32], count: usize, stereo: bool) -> (n: usize)
        requires
            old(self)@.avail + BUF_EXTRA <= old(self)@.samples.len(),
            blip_fits(
                old(self)@.integrator as int,
                old(self)@.samples,
                (if count <= old(self)@.avail { count } else { old(self)@.avail }) as nat,
            ),
            ({
                let n = if count <= old(self)@.avail { count } else { old(self)@.avail };
                n == 0 || (n - 1) * blip_step(stereo) < old(out)@.len()
            }),
            // A slice of 4-byte samples is far shorter than the address space.
            old(out)@.len() < usize::MAX,
        ensures
            n == (if count <= old(self)@.avail { count } else { old(self)@.avail }),
            final(out)@.len() == old(out)@.len(),
            forall|k: int|
                0 <= k < n ==> #[trigger] final(out)@[k * blip_step(stereo)] == blip_output(
                    blip_integrated(old(self)@.integrator as int, old(self)@.samples, k as nat),
                ),
            forall|i: int|
                0 <= i < old(out)@.len() && (i >= n * blip_step(stereo) || (stereo && i % 2 == 1))
                    ==> #[trigger] final(out)@[i] == old(out)@[i],
            n != 0 ==> final(self)@ == (BlipView {
                avail: (old(self)@.avail - n) as usize,
                integrator: blip_integrated(old(self)@.integrator as int, old(self)@.samples, n as nat) as i32,
                samples: old(self)@.samples.subrange(n as int, old(self)@.avail + 18) + zeros(n as nat),
                ..old(self)@
            }),
            n == 0 ==> final(self)@ == old(self)@,
    {
        let mut count = count;

        if count > self.avail {
            count = self.avail;
        }

        if count != 0 {
            let step: usize = if stereo { 2 } else { 1 };
            let mut sum = self.integrator;
            let mut in_n: usize = 0;
            let mut out_n: usize = 0;
            let ghost start = self@;
            let ghost out0 = out@;

            while in_n != count
                invariant
                    self@ == start,
                    count <= start.avail,
                    start.avail + BUF_EXTRA <= start.samples.len(),
                    blip_fits(start.integrator as int, start.samples, count as nat),
                    (count - 1) * step < out0.len(),
                    out0.len() < usize::MAX,
                    step == (if stereo { 2usize } else { 1 }),
                    in_n <= count,
                    out_n == in_n * step,
                    sum as int == blip_integrated(start.integrator as int, start.samples, in_n as nat),
                    out@.len() == out0.len(),
                    forall|k: int|
                        0 <= k < in_n ==> #[trigger] out@[k * step] == blip_output(
                            blip_integrated(start.integrator as int, start.samples, k as nat),
                        ),
                    forall|i: int|
                        0 <= i < out0.len() && (i >= in_n * step || (stereo && i % 2 == 1)) ==> #[trigger] out@[i]
                            == out0[i],
                decreases count - in_n,
            {
                let ghost prev = sum as int;
                let mut s = floor_delta(sum);

                assert(blip_integrated(start.integrator as int, start.samples, in_n as nat) == prev);
                sum += self.samples[in_n];
                in_n += 1;

                if s < -32768 {
                    s = -32768;
                } else if s > 32767 {
                    s = 32767;
                }
                assert(s as int == blip_output(prev));

                proof {
                    assert(out_n * 1 == out_n);
                    assert((in_n - 1) * step == out_n) by (nonlinear_arith)
                        requires out_n == (in_n - 1) * step;
                    assert(out_n < out0.len()) by (nonlinear_arith)
                        requires out_n == (in_n - 1) * step, 1 <= in_n <= count, (count - 1) * step < out0.len(), step >= 1;
                }
                out[out_n] = s;
                out_n += step;

                // High Pass Filter
                sum -= s * 64;
                proof {
                    assert(out_n == in_n * step) by (nonlinear_arith)
                        requires out_n == (in_n - 1) * step + step;
                    assert forall|k: int| 0 <= k < in_n implies #[trigger] out@[k * step] == blip_output(
                        blip_integrated(start.integrator as int, start.samples, k as nat),
                    ) by {
                        if k < in_n - 1 {
                            assert(k * step != (in_n - 1) * step) by (nonlinear_arith)
                                requires k < in_n - 1, step >= 1;
                        }
                    }
                    assert forall|i: int| 0 <= i < out0.len() && (i >= in_n * step || (stereo && i % 2 == 1))
                        implies #[trigger] out@[i] == out0[i] by {
                        if stereo && i % 2 == 1 {
                            assert(i != (in_n - 1) * 2) by (nonlinear_arith)
                                requires i % 2 == 1;
                        }
                    }
                }
            }
            self.integrator = sum;

            self.remove_samples(count);
        }

        count
    }

    /// The output samples per clock, in 12.20 fixed point.
    pub fn factor(&self) -> (r: u32)
        ensures
            r == self@.factor,
    {
        self.factor
    }

    /// The fraction of a sample carried into the current frame, in 12.20
    /// fixed point.
    pub fn offset(&self) -> (r: u32)
        ensures
            r == self@.offset,
    {
        self.offset
    }

    /// The sample slots held: the buffer's size and the filter's tail.
    pub fn capacity(&self) -> (r: usize)
        ensures
            r == self@.samples.len(),
    {
        self.samples.len()
    }

    /// Adds an amplitude change `delta` with the full band-limited step, at
    /// a clock time already scaled to output samples: `scaled` is the time
    /// times the factor, in 12.20 fixed point. The step spreads over eight
    /// samples, interpolated between the two kernel phases around the time.
    pub fn add_delta_scaled(&mut self, scaled: u32, delta: i32)
        requires
            scaled + old(self)@.offset <= u32::MAX,
            ({
                let fixed = scaled + old(self)@.offset;
                let i = old(self)@.avail + fixed / 0x10_0000;
                let d2 = step_share(delta as int, step_interp(fixed));
                &&& i + 8 <= old(self)@.samples.len()
                &&& i32::MIN <= delta * step_interp(fixed) <= i32::MAX
                &&& forall|k: int|
                    0 <= k < 8 ==> #[trigger] step_tap_fits(
                        old(self)@.samples,
                        i,
                        step_phase(fixed),
                        delta - d2,
                        d2,
                        k,
                    )
            }),
        ensures
            ({
                let fixed = scaled + old(self)@.offset;
                let i = old(self)@.avail + fixed / 0x10_0000;
                let d2 = step_share(delta as int, step_interp(fixed));
                &&& final(self)@ == (BlipView {
                    samples: stepped(old(self)@.samples, i, step_phase(fixed), delta - d2, d2, 8),
                    ..old(self)@
                })
                &&& window_sum(final(self)@.samples, i) == window_sum(old(self)@.samples, i) + delta
                    * 32768
            }),
    {
        let fixed = scaled + self.offset;
        proof {
            lemma_fixed_whole(fixed);
            crate::bits::lemma_phase_bits(fixed);
        }
        let total = self.samples.len();
        let base = self.avail + (fixed as usize >> 20usize);
        let phase = ((fixed >> 15u32) & 31) as usize;
        let interp = fixed & 0x7FFF;
        let delta2 = floor_delta(delta * interp as i32);
        proof { lemma_share_bounds(delta as int, interp as int); }
        let d1 = delta - delta2;
        let ghost s0 = self.samples@;
        let ghost p = phase as int;
        assert(s0 =~= stepped(s0, base as int, p, d1 as int, delta2 as int, 0));
        let mut k: usize = 0;
        while k < 8
            invariant
                k <= 8,
                phase < 32,
                base + 8 <= s0.len(),
                s0.len() == total,
                self.factor == old(self).factor,
                self.offset == old(self).offset,
                self.avail == old(self).avail,
                self.size == old(self).size,
                self.integrator == old(self).integrator,
                s0 == old(self).samples@,
                self.samples@ == stepped(s0, base as int, p, d1 as int, delta2 as int, k as int),
                p == phase,
                forall|j: int|
                    0 <= j < 8 ==> #[trigger] step_tap_fits(s0, base as int, p, d1 as int, delta2 as int, j),
            decreases 8 - k,
        {
            assert(step_tap_fits(s0, base as int, p, d1 as int, delta2 as int, k as int));
            let rise = BL_STEP[phase][k] * d1 + BL_STEP[phase + 1][k] * delta2;
            let v = self.samples[base + k] + rise;
            let fall = BL_STEP[32 - phase][7 - k] * d1 + BL_STEP[31 - phase][7 - k] * delta2;
            self.samples.set(base + k, v + fall);
            k = k + 1;
            assert(self.samples@ =~= stepped(s0, base as int, p, d1 as int, delta2 as int, k as int));
        }
        proof { lemma_step_gain(s0, base as int, p, d1 as int, delta2 as int); }
    }

    /// Adds an amplitude change `delta` at clock `time` with a short,
    /// two-tap step instead of the full band-limited one.
    pub fn add_delta_fast(&mut self, time: u32, delta: i32)
        requires
            time * old(self)@.factor + old(self)@.offset <= u32::MAX,
            old(self)@.avail + (time * old(self)@.factor + old(self)@.offset) / 0x10_0000 + 9 <= old(self)@.samples.len(),
            ({
                let fixed = time * old(self)@.factor + old(self)@.offset;
                let interp = (fixed / 32) % 32768;
                let i = old(self)@.avail + fixed / 0x10_0000;
                &&& i32::MIN <= delta * interp <= i32::MAX
                &&& i32::MIN <= delta * 32768 <= i32::MAX
                &&& i32::MIN <= delta * 32768 - delta * interp <= i32::MAX
                &&& i32::MIN <= old(self)@.samples[i + 7] + delta * 32768 - delta * interp <= i32::MAX
                &&& i32::MIN <= old(self)@.samples[i + 8] + delta * interp <= i32::MAX
            }),
        ensures
            ({
                let fixed = time * old(self)@.factor + old(self)@.offset;
                let interp = (fixed / 32) % 32768;
                let i = old(self)@.avail + fixed / 0x10_0000;
                final(self)@ == (BlipView {
                    samples: old(self)@.samples.update(
                        i + 7,
                        (old(self)@.samples[i + 7] + delta * 32768 - delta * interp) as i32,
                    ).update(i + 8, (old(self)@.samples[i + 8] + delta * interp) as i32),
                    ..old(self)@
                })
            }),
    {
        let fixed = time * self.factor + self.offset;
        proof { lemma_fixed_whole(fixed); }
        let total = self.samples.len();
        let base = self.avail + (fixed as usize >> 20usize);

        let interp = (fixed >> 5u32) & 0x7FFF;
        proof { lemma_interp(fixed); }
        let delta2 = delta * interp as i32;

        let a = self.samples[base + 7] + (delta * 32768 - delta2);
        self.samples.set(base + 7, a);
        let b = self.samples[base + 8] + delta2;
        self.samples.set(base + 8, b);
    }
}

/// `sum >> 15` for a signed 32-bit sum: the floor of `sum / 32768`.
fn floor_delta(sum: i32) -> (s: i32)
    ensures
        s as int == sum as int / 32768,
{
    if sum >= 0 {
        ((sum as u32) / 32768) as i32
    } else {
        let n = (-(sum + 1)) as u32;
        let r = -(((n / 32768) as i32)) - 1;
        assert(r as int == sum as int / 32768) by (nonlinear_arith)
            requires sum < 0, n as int == -(sum + 1), r as int == -((n as int) / 32768) - 1;
        r
    }
}

/// The sum of eight samples from `i` on.
pub open spec fn window_sum(s: Seq<i32>, i: int) -> int {
    s[i] + s[i + 1] + s[i + 2] + s[i + 3] + s[i + 4] + s[i + 5] + s[i + 6] + s[i + 7]
}

/// The sum of the first half of the kernel at phase `p`.
pub open spec fn kernel_half_sum(p: int) -> int {
    BL_STEP[p][0] + BL_STEP[p][1] + BL_STEP[p][2] + BL_STEP[p][3] + BL_STEP[p][4] + BL_STEP[p][5]
        + BL_STEP[p][6] + BL_STEP[p][7]
}

/// At every phase the two halves of the kernel sum to one unit, 32768.
pub proof fn lemma_kernel_unit(p: int)
    requires
        0 <= p <= 32,
    ensures
        kernel_half_sum(p) + kernel_half_sum(32 - p) == 32768,
{
    if p == 0 {
    } else if p == 1 {
    } else if p == 2 {
    } else if p == 3 {
    } else if p == 4 {
    } else if p == 5 {
    } else if p == 6 {
    } else if p == 7 {
    } else if p == 8 {
    } else if p == 9 {
    } else if p == 10 {
    } else if p == 11 {
    } else if p == 12 {
    } else if p == 13 {
    } else if p == 14 {
    } else if p == 15 {
    } else if p == 16 {
    } else if p == 17 {
    } else if p == 18 {
    } else if p == 19 {
    } else if p == 20 {
    } else if p == 21 {
    } else if p == 22 {
    } else if p == 23 {
    } else if p == 24 {
    } else if p == 25 {
    } else if p == 26 {
    } else if p == 27 {
    } else if p == 28 {
    } else if p == 29 {
    } else if p == 30 {
    } else if p == 31 {
    } else {
        assert(p == 32);
    }
}

proof fn lemma_distribute8(a0: int, a1: int, a2: int, a3: int, a4: int, a5: int, a6: int, a7: int, d: int)
    by (nonlinear_arith)
    ensures
        a0 * d + a1 * d + a2 * d + a3 * d + a4 * d + a5 * d + a6 * d + a7 * d == (a0 + a1 + a2 + a3 + a4
            + a5 + a6 + a7) * d,
{
}

/// A band-limited step has unit gain: whatever its phase, the eight samples
/// it touches gain `(d1 + d2) * 32768` in all, that is the delta in the
/// buffer's 1/32768 units.
pub proof fn lemma_step_gain(s: Seq<i32>, i: int, p: int, d1: int, d2: int)
    requires
        0 <= i,
        i + 8 <= s.len(),
        0 <= p < 32,
        forall|k: int| 0 <= k < 8 ==> #[trigger] step_tap_fits(s, i, p, d1, d2, k),
    ensures
        window_sum(stepped(s, i, p, d1, d2, 8), i) == window_sum(s, i) + (d1 + d2) * 32768,
{
    let t = stepped(s, i, p, d1, d2, 8);
    assert forall|k: int| 0 <= k < 8 implies t[i + k] == s[i + k] + step_rise(p, k, d1, d2) + step_fall(p, k, d1, d2) by {
        assert(step_tap_fits(s, i, p, d1, d2, k));
    }
    assert(t[i] == s[i] + step_rise(p, 0, d1, d2) + step_fall(p, 0, d1, d2));
    assert(t[i + 1] == s[i + 1] + step_rise(p, 1, d1, d2) + step_fall(p, 1, d1, d2));
    assert(t[i + 2] == s[i + 2] + step_rise(p, 2, d1, d2) + step_fall(p, 2, d1, d2));
    assert(t[i + 3] == s[i + 3] + step_rise(p, 3, d1, d2) + step_fall(p, 3, d1, d2));
    assert(t[i + 4] == s[i + 4] + step_rise(p, 4, d1, d2) + step_fall(p, 4, d1, d2));
    assert(t[i + 5] == s[i + 5] + step_rise(p, 5, d1, d2) + step_fall(p, 5, d1, d2));
    assert(t[i + 6] == s[i + 6] + step_rise(p, 6, d1, d2) + step_fall(p, 6, d1, d2));
    assert(t[i + 7] == s[i + 7] + step_rise(p, 7, d1, d2) + step_fall(p, 7, d1, d2));
    lemma_kernel_unit(p);
    lemma_kernel_unit(p + 1);
    lemma_distribute8(
        BL_STEP[p][0] as int, BL_STEP[p][1] as int, BL_STEP[p][2] as int, BL_STEP[p][3] as int,
        BL_STEP[p][4] as int, BL_STEP[p][5] as int, BL_STEP[p][6] as int, BL_STEP[p][7] as int, d1,
    );
    lemma_distribute8(
        BL_STEP[p + 1][0] as int, BL_STEP[p + 1][1] as int, BL_STEP[p + 1][2] as int,
        BL_STEP[p + 1][3] as int, BL_STEP[p + 1][4] as int, BL_STEP[p + 1][5] as int,
        BL_STEP[p + 1][6] as int, BL_STEP[p + 1][7] as int, d2,
    );
    lemma_distribute8(
        BL_STEP[32 - p][7] as int, BL_STEP[32 - p][6] as int, BL_STEP[32 - p][5] as int,
        BL_STEP[32 - p][4] as int, BL_STEP[32 - p][3] as int, BL_STEP[32 - p][2] as int,
        BL_STEP[32 - p][1] as int, BL_STEP[32 - p][0] as int, d1,
    );
    lemma_distribute8(
        BL_STEP[31 - p][7] as int, BL_STEP[31 - p][6] as int, BL_STEP[31 - p][5] as int,
        BL_STEP[31 - p][4] as int, BL_STEP[31 - p][3] as int, BL_STEP[31 - p][2] as int,
        BL_STEP[31 - p][1] as int, BL_STEP[31 - p][0] as int, d2,
    );
    let rise = step_rise(p, 0, d1, d2) + step_rise(p, 1, d1, d2) + step_rise(p, 2, d1, d2)
        + step_rise(p, 3, d1, d2) + step_rise(p, 4, d1, d2) + step_rise(p, 5, d1, d2)
        + step_rise(p, 6, d1, d2) + step_rise(p, 7, d1, d2);
    let fall = step_fall(p, 0, d1, d2) + step_fall(p, 1, d1, d2) + step_fall(p, 2, d1, d2)
        + step_fall(p, 3, d1, d2) + step_fall(p, 4, d1, d2) + step_fall(p, 5, d1, d2)
        + step_fall(p, 6, d1, d2) + step_fall(p, 7, d1, d2);
    assert(rise == kernel_half_sum(p) * d1 + kernel_half_sum(p + 1) * d2);
    assert(fall == kernel_half_sum(32 - p) * d1 + kernel_half_sum(31 - p) * d2);
    lemma_unit_pairs(
        kernel_half_sum(p),
        kernel_half_sum(32 - p),
        kernel_half_sum(p + 1),
        kernel_half_sum(31 - p),
        d1,
        d2,
    );
    assert(window_sum(t, i) == window_sum(s, i) + rise + fall);
}

proof fn lemma_unit_pairs(a: int, b: int, c: int, e: int, d1: int, d2: int)
    by (nonlinear_arith)
    requires
        a + b == 32768,
        c + e == 32768,
    ensures
        (a * d1 + c * d2) + (b * d1 + e * d2) == (d1 + d2) * 32768,
{
}

/// The share given to the next phase lies between zero and `delta`.
proof fn lemma_share_bounds(delta: int, interp: int)
    requires
        0 <= interp < 32768,
    ensures
        delta >= 0 ==> 0 <= step_share(delta, interp) <= delta,
        delta < 0 ==> delta <= step_share(delta, interp) <= 0,
{
    if delta >= 0 {
        assert(0 <= delta * interp <= delta * 32768) by (nonlinear_arith)
            requires delta >= 0, 0 <= interp < 32768;
        assert(0 <= (delta * interp) / 32768 <= delta) by (nonlinear_arith)
            requires 0 <= delta * interp <= delta * 32768;
    } else {
        assert(delta * 32768 <= delta * interp <= 0) by (nonlinear_arith)
            requires delta < 0, 0 <= interp < 32768;
        assert(delta <= (delta * interp) / 32768 <= 0) by (nonlinear_arith)
            requires delta * 32768 <= delta * interp <= 0;
    }
}

/// The interpolation fraction of a fixed-point time: bits 5-19.
proof fn lemma_interp(x: u32)
    ensures
        (x >> 5u32) & 0x7FFF == (x / 32) % 32768,
{
    crate::bits::lemma_interp_bits(x);
}

} // verus!
