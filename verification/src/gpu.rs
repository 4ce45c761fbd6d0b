use vstd::prelude::*;

verus! {

/// The LCD register file of the early renderer: scroll, LY/LYC, window
/// position, LCDC and STAT, and 16 KiB of video RAM.
pub struct GPU {
    sy: u8,
    sx: u8,
    ly: u8,
    lyc: u8,
    wy: u8,
    wx: u8,
    lcdc: u8,
    lcds: u8,
    ram: Vec<u8>,
}

pub struct GpuView {
    pub sy: u8,
    pub sx: u8,
    pub ly: u8,
    pub lyc: u8,
    pub wy: u8,
    pub wx: u8,
    pub lcdc: u8,
    pub lcds: u8,
    pub ram: Seq<u8>,
}

impl View for GPU {
    type V = GpuView;

    closed spec fn view(&self) -> GpuView {
        GpuView {
            sy: self.sy,
            sx: self.sx,
            ly: self.ly,
            lyc: self.lyc,
            wy: self.wy,
            wx: self.wx,
            lcdc: self.lcdc,
            lcds: self.lcds,
            ram: self.ram@,
        }
    }
}

/// The LCDC bits the register defines: all but bit 2.
pub open spec fn lcdc_valid(v: u8) -> bool {
    v & 0x04 == 0
}

/// The STAT bits the register defines: bits 2-6.
pub open spec fn lcds_valid(v: u8) -> bool {
    v & 0x83 == 0
}

/// What a read of `a` returns; unmapped addresses read 0.
pub open spec fn gpu_register(m: GpuView, a: u16) -> u8 {
    if a == 0xFF40 {
        m.lcdc
    } else if a == 0xFF41 {
        m.lcds
    } else if a == 0xFF42 {
        m.sy
    } else if a == 0xFF43 {
        m.sx
    } else if a == 0xFF44 {
        m.ly
    } else if a == 0xFF45 {
        m.lyc
    } else if a == 0xFF4A {
        m.wy
    } else if a == 0xFF4B {
        m.wx
    } else {
        0x00
    }
}

/// What a write of `v` to `a` leaves; LY and unmapped addresses keep the
/// state.
pub open spec fn gpu_written(m: GpuView, a: u16, v: u8) -> GpuView {
    if a == 0xFF40 {
        GpuView { lcdc: v, ..m }
    } else if a == 0xFF41 {
        GpuView { lcds: v, ..m }
    } else if a == 0xFF42 {
        GpuView { sy: v, ..m }
    } else if a == 0xFF43 {
        GpuView { sx: v, ..m }
    } else if a == 0xFF45 {
        GpuView { lyc: v, ..m }
    } else if a == 0xFF4A {
        GpuView { wy: v, ..m }
    } else if a == 0xFF4B {
        GpuView { wx: v, ..m }
    } else {
        m
    }
}

impl GPU {
    pub fn new() -> (r: Self)
        ensures
            r@ == (GpuView {
                sy: 0,
                sx: 0,
                ly: 0,
                lyc: 0,
                wy: 0,
                wx: 0,
                lcdc: 0,
                lcds: 0,
                ram: Seq::new(0x4000, |i: int| 0u8),
            }),
    {
        let ram = vec![0; 0x4000];
        assert(ram@ =~= Seq::new(0x4000, |i: int| 0u8));
        Self { sy: 0, sx: 0, ly: 0, lyc: 0, wy: 0, wx: 0, lcdc: 0, lcds: 0, ram }
    }

    pub fn read(&self, a: u16) -> (r: u8)
        ensures
            r == gpu_register(self@, a),
    {
        match a {
            0xFF40 => self.lcdc,
            0xFF41 => self.lcds,
            0xFF42 => self.sy,
            0xFF43 => self.sx,
            0xFF44 => self.ly,
            0xFF45 => self.lyc,
            0xFF4A => self.wy,
            0xFF4B => self.wx,
            _ => 0x00,
        }
    }

    /// Writes a register. LCDC and STAT take only their defined bits; LY is
    /// read-only.
    pub fn write(&mut self, a: u16, v: u8)
        requires
            a == 0xFF40 ==> lcdc_valid(v),
            a == 0xFF41 ==> lcds_valid(v),
        ensures
            final(self)@ == gpu_written(old(self)@, a, v),
    {
        match a {
            0xFF40 => self.lcdc = v,
            0xFF41 => self.lcds = v,
            0xFF42 => self.sy = v,
            0xFF43 => self.sx = v,
            0xFF45 => self.lyc = v,
            0xFF4A => self.wy = v,
            0xFF4B => self.wx = v,
            _ => {},
        }
    }
}

/// A register written with a defined value reads back as written.
pub proof fn lemma_gpu_read_back(m: GpuView, a: u16, v: u8)
    requires
        a == 0xFF40 || a == 0xFF41 || a == 0xFF42 || a == 0xFF43 || a == 0xFF45 || a == 0xFF4A || a
            == 0xFF4B,
    ensures
        gpu_register(gpu_written(m, a, v), a) == v,
{
}

} // verus!
