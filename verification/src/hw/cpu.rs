pub mod program;

use self::program::{
    call_taken, cond_holds, inc16, dec16, in_oam_region, cpu_wf, decoded, decoded_cb, decoded_x0, decoded_x1, decoded_x2,
    decoded_x3, dispatch_program, drained, effect_result, effect_wf, get_r16, get_r8, get_stk16,
    illegal_opcode, lemma_effect_progress, queue_wf, lemma_queue_wf_concat, lemma_queue_wf_drop_first,
    lemma_decoded_wf, lemma_effect_keeps_queue_wf, cb_pending, leading_effects, r8_index, ret_taken, rp2_index, rp_index,
    set_r16, set_r8, alu_index, cc_index, rot_index, CpuView,
};
use super::bus::{BusDir, BusMaster, Pins};
use crate::components::cpu::types::{alu_of, cc_of, r8_of, rot_of, rp2_of, rp_of};
use crate::bits::{
    lemma_byte_masks, lemma_byte_not, lemma_byte_widen, lemma_constants, lemma_daa_bits, lemma_opcode_fields,
};
use super::interrupt::{highest_pending, Interrupts};
use crate::components::alu::{
    add_hl_result, add_sp_e_result, alu_result, bit_of, bit_result, daa_adjust, daa_result,
    dec8_result, inc8_result, lemma_nibble, lemma_with_flag_clean, lemma_with_flag_reads, pow2,
    res_result, rotate_result, rotated, set_result, sign_extend, with_znh, with_znhc, lemma_bit_mask,
    lemma_rotations, lemma_low_bits16, lemma_znhc_byte,
};
use crate::components::mode::GBMode;
use crate::components::registers::{
    high_byte, initial_registers, lemma_pair, lemma_split, low_byte, pair, Flags, Registers,
};
use std::collections::VecDeque;
use vstd::prelude::*;

verus! {

// --------------------------------------------------------------------------
// Operand selectors
// --------------------------------------------------------------------------

#[derive(Clone, Copy, PartialEq, Eq, Structural, Debug)]
pub enum R8 {
    B,
    C,
    D,
    E,
    H,
    L,
    A,
}

#[derive(Clone, Copy, PartialEq, Eq, Structural, Debug)]
pub enum R16 {
    Bc,
    De,
    Hl,
    Sp,
}

#[derive(Clone, Copy, PartialEq, Eq, Structural, Debug)]
pub enum R16Stk {
    Bc,
    De,
    Hl,
    Af,
}

#[derive(Clone, Copy, PartialEq, Eq, Structural, Debug)]
pub enum Cond {
    Nz,
    Z,
    Nc,
    C,
}

#[derive(Clone, Copy, PartialEq, Eq, Structural, Debug)]
pub enum AluOp {
    Add,
    Adc,
    Sub,
    Sbc,
    And,
    Xor,
    Or,
    Cp,
}

#[derive(Clone, Copy, PartialEq, Eq, Structural, Debug)]
pub enum RotOp {
    Rlc,
    Rrc,
    Rl,
    Rr,
    Sla,
    Sra,
    Swap,
    Srl,
}

#[derive(Clone, Copy, PartialEq, Eq, Structural, Debug)]
pub enum Addr {
    Bc,
    De,
    Hl,
    HighZ,
    HighC,
    Wz,
    Sp,
}

#[derive(Clone, Copy, PartialEq, Eq, Structural, Debug)]
pub enum Byte {
    Reg(R8),
    Z,
    PcHigh,
    PcLow,
    SpHigh,
    SpLow,
    StkHigh(R16Stk),
    StkLow(R16Stk),
}


// --------------------------------------------------------------------------
// Micro-ops and free effects
// --------------------------------------------------------------------------

#[derive(Clone, Copy, PartialEq, Eq, Structural, Debug)]
pub enum MicroOp {
    Fetch,
    ImmZ,
    ImmW,
    LoadZ(Addr),
    LoadW(Addr),
    Store(Addr, Byte),
    Internal,
    Exec(Effect),
}

#[derive(Clone, Copy, PartialEq, Eq, Structural, Debug)]
pub enum Effect {
    LdR(R8, R8),
    LdRZ(R8),
    Alu(AluOp, R8),
    AluZ(AluOp),
    IncR(R8),
    DecR(R8),
    IncZ,
    DecZ,
    Inc16(R16),
    Dec16(R16),
    AddHl(R16),
    AccRot(RotOp),
    Rot(RotOp, R8),
    RotZ(RotOp),
    Bit(u8, R8),
    BitZ(u8),
    Res(u8, R8),
    ResZ(u8),
    SetBit(u8, R8),
    SetZ(u8),
    Daa,
    Cpl,
    Scf,
    Ccf,
    LdRpWz(R16),
    SetStkWz(R16Stk),
    SetPcWz,
    SetPcHl,
    SetPc(u16),
    JrZ,
    SpDec,
    SpInc,
    WzInc,
    LdSpHl,
    AddSpE,
    LdHlSpE,
    Ei,
    Di,
    Reti,
    Halt,
    Stop,
    DecodeCb,
    BranchRel(Cond),
    JpCc(Cond),
    CallCc(Cond),
    RetCc(Cond),
}

/// The SM83 as a micro-op sequencer: each instruction decodes into a queue of
/// bus cycles and free effects that the motherboard runs one M-cycle at a
/// time.
pub struct Cpu {
    reg: Registers,
    w: u8,
    z: u8,
    ir: u8,
    ime: bool,
    ime_pending: bool,
    halted: bool,
    halt_bug: bool,
    oam_glitch: bool,
    speed_switch: bool,
    micro: VecDeque<MicroOp>,
}

impl View for Cpu {
    type V = CpuView;

    closed spec fn view(&self) -> CpuView {
        CpuView {
            reg: self.reg,
            w: self.w,
            z: self.z,
            ir: self.ir,
            ime: self.ime,
            ime_pending: self.ime_pending,
            halted: self.halted,
            halt_bug: self.halt_bug,
            oam_glitch: self.oam_glitch,
            speed_switch: self.speed_switch,
            micro: self.micro@,
        }
    }
}

/// The bus request a CPU's next micro-op makes.
pub open spec fn setup_pins(s: CpuView, pins: Pins) -> Pins {
    let pins = Pins { master: BusMaster::Cpu, ..pins };
    match s.micro[0] {
        MicroOp::Fetch | MicroOp::ImmZ | MicroOp::ImmW => Pins { address: s.reg.pc, dir: BusDir::Read, ..pins },
        MicroOp::LoadZ(a) | MicroOp::LoadW(a) => Pins { address: s.address(a), dir: BusDir::Read, ..pins },
        MicroOp::Store(a, b) => Pins { address: s.address(a), data: s.byte(b), dir: BusDir::Write, ..pins },
        _ => Pins { dir: BusDir::Idle, ..pins },
    }
}

/// What finishing the head micro-op with `data` on the bus does.
pub open spec fn completed(s: CpuView, data: u8) -> CpuView {
    let rest = s.micro.drop_first();
    let pc1 = ((s.reg.pc as int + 1) % 65536) as u16;
    match s.micro[0] {
        MicroOp::Fetch => CpuView {
            ir: data,
            reg: if s.halt_bug { s.reg } else { Registers { pc: pc1, ..s.reg } },
            halt_bug: false,
            ime: s.ime || s.ime_pending,
            ime_pending: false,
            micro: rest + decoded(data),
            ..s
        },
        MicroOp::ImmZ => CpuView { z: data, reg: Registers { pc: pc1, ..s.reg }, micro: rest, ..s },
        MicroOp::ImmW => CpuView { w: data, reg: Registers { pc: pc1, ..s.reg }, micro: rest, ..s },
        MicroOp::LoadZ(_) => CpuView { z: data, micro: rest, ..s },
        MicroOp::LoadW(_) => CpuView { w: data, micro: rest, ..s },
        _ => CpuView { micro: rest, ..s },
    }
}

/// The interrupt offer at an instruction boundary: with IME set and the
/// opcode fetch queued, the highest-priority pending source replaces the
/// queue with its dispatch and IME is cleared; otherwise nothing happens.
pub open spec fn offered(s: CpuView, pending: u8) -> (CpuView, Option<Interrupts>) {
    if !s.ime || !(s.micro.len() > 0 && s.micro[0] is Fetch) {
        (s, None)
    } else {
        match highest_pending(pending) {
            None => (s, None),
            Some((vector, bit)) => (CpuView { ime: false, micro: dispatch_program(vector), ..s }, Some(bit)),
        }
    }
}

/// The CPU at power-on in `mode`, its next step the first opcode fetch.
pub open spec fn power_on(mode: GBMode) -> CpuView {
    CpuView {
        reg: initial_registers(mode),
        w: 0,
        z: 0,
        ir: 0,
        ime: false,
        ime_pending: false,
        halted: false,
        halt_bug: false,
        oam_glitch: false,
        speed_switch: false,
        micro: seq![MicroOp::Fetch],
    }
}

impl Cpu {
    pub fn new(mode: GBMode) -> (r: Cpu)
        ensures
            r@ == (CpuView {
                reg: initial_registers(mode),
                w: 0,
                z: 0,
                ir: 0,
                ime: false,
                ime_pending: false,
                halted: false,
                halt_bug: false,
                oam_glitch: false,
                speed_switch: false,
                micro: seq![MicroOp::Fetch],
            }),
            cpu_wf(r@),
    {
        let mut micro = VecDeque::new();
        micro.push_back(MicroOp::Fetch);
        Cpu {
            reg: Registers::new(mode),
            w: 0,
            z: 0,
            ir: 0,
            ime: false,
            ime_pending: false,
            halted: false,
            halt_bug: false,
            oam_glitch: false,
            speed_switch: false,
            micro,
        }
    }

    // -- register / operand access ----------------------------------------

    fn wz(&self) -> (r: u16)
        ensures
            r == self@.wz(),
    {
        let (w, z) = (self.w, self.z);
        proof { lemma_pair(w, z); }
        ((w as u16) << 8) | (z as u16)
    }

    fn r8(&self, r: R8) -> (v: u8)
        ensures
            v == get_r8(self.reg, r),
    {
        match r {
            R8::A => self.reg.a,
            R8::B => self.reg.b,
            R8::C => self.reg.c,
            R8::D => self.reg.d,
            R8::E => self.reg.e,
            R8::H => self.reg.h,
            R8::L => self.reg.l,
        }
    }

    fn set_r8(&mut self, r: R8, v: u8)
        ensures
            final(self)@ == old(self)@.with_reg(set_r8(old(self).reg, r, v)),
    {
        match r {
            R8::A => self.reg.a = v,
            R8::B => self.reg.b = v,
            R8::C => self.reg.c = v,
            R8::D => self.reg.d = v,
            R8::E => self.reg.e = v,
            R8::H => self.reg.h = v,
            R8::L => self.reg.l = v,
        }
    }

    fn r16(&self, r: R16) -> (v: u16)
        ensures
            v == get_r16(self.reg, r),
    {
        match r {
            R16::Bc => self.reg.get_bc(),
            R16::De => self.reg.get_de(),
            R16::Hl => self.reg.get_hl(),
            R16::Sp => self.reg.sp,
        }
    }

    fn set_r16(&mut self, r: R16, v: u16)
        ensures
            final(self)@ == old(self)@.with_reg(set_r16(old(self).reg, r, v)),
    {
        match r {
            R16::Bc => self.reg.set_bc(v),
            R16::De => self.reg.set_de(v),
            R16::Hl => self.reg.set_hl(v),
            R16::Sp => self.reg.sp = v,
        }
    }

    fn stk16(&self, r: R16Stk) -> (v: u16)
        ensures
            v == get_stk16(self.reg, r),
    {
        match r {
            R16Stk::Bc => self.reg.get_bc(),
            R16Stk::De => self.reg.get_de(),
            R16Stk::Hl => self.reg.get_hl(),
            R16Stk::Af => self.reg.get_af(),
        }
    }

    fn addr(&self, a: Addr) -> (v: u16)
        ensures
            v == self@.address(a),
    {
        match a {
            Addr::Bc => self.reg.get_bc(),
            Addr::De => self.reg.get_de(),
            Addr::Hl => self.reg.get_hl(),
            Addr::HighZ => {
                let z = self.z;
                proof { lemma_byte_widen(z); }
                0xFF00 | self.z as u16
            },
            Addr::HighC => {
                let c = self.reg.c;
                proof { lemma_byte_widen(c); }
                0xFF00 | self.reg.c as u16
            },
            Addr::Wz => self.wz(),
            Addr::Sp => self.reg.sp,
        }
    }

    fn byte(&self, b: Byte) -> (v: u8)
        ensures
            v == self@.byte(b),
    {
        match b {
            Byte::Reg(r) => self.r8(r),
            Byte::Z => self.z,
            Byte::PcHigh => {
                proof { lemma_split(self.reg.pc); }
                (self.reg.pc >> 8) as u8
            },
            Byte::PcLow => {
                proof { lemma_split(self.reg.pc); }
                self.reg.pc as u8
            },
            Byte::SpHigh => {
                proof { lemma_split(self.reg.sp); }
                (self.reg.sp >> 8) as u8
            },
            Byte::SpLow => {
                proof { lemma_split(self.reg.sp); }
                self.reg.sp as u8
            },
            Byte::StkHigh(r) => {
                let v = self.stk16(r);
                proof { lemma_split(v); }
                (v >> 8) as u8
            },
            Byte::StkLow(r) => {
                let v = self.stk16(r);
                proof { lemma_split(v); }
                v as u8
            },
        }
    }

    fn flag(&self, f: Flags) -> (r: bool)
        requires
            self.reg.flags_clean(),
        ensures
            r == self.reg.flag(f),
    {
        self.reg.get_flag(f)
    }

    fn cond(&self, c: Cond) -> (r: bool)
        requires
            self.reg.flags_clean(),
        ensures
            r == cond_holds(self.reg, c),
    {
        match c {
            Cond::Nz => !self.flag(Flags::Z),
            Cond::Z => self.flag(Flags::Z),
            Cond::Nc => !self.flag(Flags::C),
            Cond::C => self.flag(Flags::C),
        }
    }
}

} // verus!

verus! {

impl Cpu {
    // -- ALU ---------------------------------------------------------------

    /// A <- A + v + cin, flags Z 0 H C.
    fn alu_add(&mut self, v: u8, cin: u8)
        requires
            old(self).reg.flags_clean(),
            cin <= 1,
        ensures
            final(self)@ == old(self)@.with_reg({
                let a = old(self).reg.a as int;
                let sum = a + v + cin;
                Registers {
                    a: (sum % 256) as u8,
                    ..with_znhc(old(self).reg, sum % 256 == 0, false, a % 16 + v % 16 + cin > 15, sum > 255)
                }
            }),
            final(self).reg.flags_clean(),
    {
        let ghost reg0 = self.reg;
        let a = self.reg.a;
        proof {
            lemma_nibble(a);
            lemma_nibble(v);
        }
        let r = a.wrapping_add(v).wrapping_add(cin);
        assert(r as int == (a + v + cin) % 256);
        let h = (a & 0xF) + (v & 0xF) + cin > 0xF;
        let c = a as u16 + v as u16 + cin as u16 > 0xFF;
        self.reg.set_flag(Flags::Z, r == 0);
        self.reg.set_flag(Flags::N, false);
        self.reg.set_flag(Flags::H, h);
        self.reg.set_flag(Flags::C, c);
        proof { lemma_znhc_byte(reg0, r == 0, false, h, c); }
        self.reg.a = r;
    }

    /// A - v - cin, flags Z 1 H C; A is written back unless `keep` (CP).
    fn alu_sub(&mut self, v: u8, cin: u8, keep: bool)
        requires
            old(self).reg.flags_clean(),
            cin <= 1,
        ensures
            final(self)@ == old(self)@.with_reg({
                let a = old(self).reg.a as int;
                let r = ((a - v - cin + 512) % 256) as u8;
                let flags = with_znhc(old(self).reg, r == 0, true, a % 16 < v % 16 + cin, a < v + cin);
                if keep { flags } else { Registers { a: r, ..flags } }
            }),
            final(self).reg.flags_clean(),
    {
        let ghost reg0 = self.reg;
        let a = self.reg.a;
        proof {
            lemma_nibble(a);
            lemma_nibble(v);
        }
        let r = a.wrapping_sub(v).wrapping_sub(cin);
        assert(r as int == (a - v - cin + 512) % 256);
        let h = (a & 0xF) < (v & 0xF) + cin;
        let c = (a as u16) < v as u16 + cin as u16;
        self.reg.set_flag(Flags::Z, r == 0);
        self.reg.set_flag(Flags::N, true);
        self.reg.set_flag(Flags::H, h);
        self.reg.set_flag(Flags::C, c);
        proof { lemma_znhc_byte(reg0, r == 0, true, h, c); }
        if !keep {
            self.reg.a = r;
        }
    }

    /// A <- r with flags Z 0 h 0 (the bitwise operations).
    fn alu_logic(&mut self, r: u8, h: bool)
        requires
            old(self).reg.flags_clean(),
        ensures
            final(self)@ == old(self)@.with_reg(Registers { a: r, ..with_znhc(old(self).reg, r == 0, false, h, false) }),
            final(self).reg.flags_clean(),
    {
        let ghost reg0 = self.reg;
        self.reg.set_flag(Flags::Z, r == 0);
        self.reg.set_flag(Flags::N, false);
        self.reg.set_flag(Flags::H, h);
        self.reg.set_flag(Flags::C, false);
        proof { lemma_znhc_byte(reg0, r == 0, false, h, false); }
        self.reg.a = r;
    }

    fn alu(&mut self, op: AluOp, v: u8)
        requires
            old(self).reg.flags_clean(),
        ensures
            final(self)@ == old(self)@.with_reg(alu_result(old(self).reg, op, v)),
            final(self).reg.flags_clean(),
    {
        let a = self.reg.a;
        let carry_in: u8 = if self.flag(Flags::C) { 1 } else { 0 };
        match op {
            AluOp::Add => self.alu_add(v, 0),
            AluOp::Adc => self.alu_add(v, carry_in),
            AluOp::Sub => self.alu_sub(v, 0, false),
            AluOp::Sbc => self.alu_sub(v, carry_in, false),
            AluOp::Cp => self.alu_sub(v, 0, true),
            AluOp::And => self.alu_logic(a & v, true),
            AluOp::Xor => self.alu_logic(a ^ v, false),
            AluOp::Or => self.alu_logic(a | v, false),
        }
    }

    fn inc8(&mut self, v: u8) -> (r: u8)
        requires
            old(self).reg.flags_clean(),
        ensures
            (final(self).reg, r) == inc8_result(old(self).reg, v),
            final(self)@ == old(self)@.with_reg(final(self).reg),
            final(self).reg.flags_clean(),
    {
        proof { lemma_nibble(v); }
        let r = v.wrapping_add(1);
        let ghost r0 = self.reg;
        self.reg.set_flag(Flags::Z, r == 0);
        self.reg.set_flag(Flags::N, false);
        self.reg.set_flag(Flags::H, (v & 0xF) + 1 > 0xF);
        proof {
            lemma_with_flag_clean(r0, Flags::Z, r == 0);
            lemma_with_flag_clean(r0.with_flag(Flags::Z, r == 0), Flags::N, false);
            lemma_with_flag_clean(r0.with_flag(Flags::Z, r == 0).with_flag(Flags::N, false), Flags::H, (v & 0xF) + 1 > 0xF);
        }
        r
    }

    fn dec8(&mut self, v: u8) -> (r: u8)
        requires
            old(self).reg.flags_clean(),
        ensures
            (final(self).reg, r) == dec8_result(old(self).reg, v),
            final(self)@ == old(self)@.with_reg(final(self).reg),
            final(self).reg.flags_clean(),
    {
        proof { lemma_nibble(v); }
        let r = v.wrapping_sub(1);
        let ghost r0 = self.reg;
        self.reg.set_flag(Flags::Z, r == 0);
        self.reg.set_flag(Flags::N, true);
        self.reg.set_flag(Flags::H, (v & 0xF) == 0);
        proof {
            lemma_with_flag_clean(r0, Flags::Z, r == 0);
            lemma_with_flag_clean(r0.with_flag(Flags::Z, r == 0), Flags::N, true);
            lemma_with_flag_clean(r0.with_flag(Flags::Z, r == 0).with_flag(Flags::N, true), Flags::H, (v & 0xF) == 0);
        }
        r
    }

    #[verifier::spinoff_prover]
    #[verifier::rlimit(60)]
    fn add_hl(&mut self, v: u16)
        requires
            old(self).reg.flags_clean(),
        ensures
            final(self)@ == old(self)@.with_reg(add_hl_result(old(self).reg, v)),
            final(self).reg.flags_clean(),
    {
        let ghost r0 = self.reg;
        let hl = self.reg.get_hl();
        proof {
            lemma_low_bits16(hl);
            lemma_low_bits16(v);
        }
        let r = hl.wrapping_add(v);
        self.reg.set_flag(Flags::N, false);
        self.reg.set_flag(Flags::H, (hl & 0x0FFF) + (v & 0x0FFF) > 0x0FFF);
        self.reg.set_flag(Flags::C, hl as u32 + v as u32 > 0xFFFF);
        proof {
            lemma_with_flag_clean(r0, Flags::N, false);
            lemma_with_flag_clean(r0.with_flag(Flags::N, false), Flags::H, (hl & 0x0FFF) + (v & 0x0FFF) > 0x0FFF);
            lemma_with_flag_clean(r0.with_flag(Flags::N, false).with_flag(Flags::H, (hl & 0x0FFF) + (v & 0x0FFF) > 0x0FFF), Flags::C, hl as u32 + v as u32 > 0xFFFF);
        }
        self.reg.set_hl(r);
    }

    /// SP plus the signed byte in Z (flags from the unsigned low byte).
    fn add_sp_e(&mut self) -> (r: u16)
        requires
            old(self).reg.flags_clean(),
        ensures
            (final(self).reg, r) == add_sp_e_result(old(self).reg, old(self).z),
            final(self)@ == old(self)@.with_reg(final(self).reg),
            final(self).reg.flags_clean(),
    {
        let ghost r0 = self.reg;
        let sp = self.reg.sp;
        let z = self.z;
        // Sign-extend Z to 16 bits.
        let e: u16 = if z < 0x80 { z as u16 } else { z as u16 | 0xFF00 };
        proof { lemma_byte_widen(z); }
        proof {
            lemma_low_bits16(sp);
            lemma_low_bits16(e);
        }
        self.reg.set_flag(Flags::Z, false);
        self.reg.set_flag(Flags::N, false);
        self.reg.set_flag(Flags::H, (sp & 0xF) + (e & 0xF) > 0xF);
        self.reg.set_flag(Flags::C, (sp & 0xFF) + (e & 0xFF) > 0xFF);
        proof { lemma_znhc_byte(r0, false, false, (sp & 0xF) + (e & 0xF) > 0xF, (sp & 0xFF) + (e & 0xFF) > 0xFF); }
        sp.wrapping_add(e)
    }

    fn rotate(&mut self, op: RotOp, v: u8) -> (r: u8)
        requires
            old(self).reg.flags_clean(),
        ensures
            (final(self).reg, r) == rotate_result(old(self).reg, op, v),
            final(self)@ == old(self)@.with_reg(final(self).reg),
            final(self).reg.flags_clean(),
    {
        let ghost r0 = self.reg;
        let c = self.flag(Flags::C);
        let cb: u8 = if c { 1 } else { 0 };
        proof { lemma_rotations(v, cb); }
        let (r, carry) = match op {
            RotOp::Rlc => ((v << 1u8) | (v >> 7u8), v & 0x80 != 0),
            RotOp::Rrc => ((v >> 1u8) | (v << 7u8), v & 0x01 != 0),
            RotOp::Rl => ((v << 1u8) | cb, v & 0x80 != 0),
            RotOp::Rr => ((v >> 1u8) | (cb << 7u8), v & 0x01 != 0),
            RotOp::Sla => (v << 1u8, v & 0x80 != 0),
            RotOp::Sra => ((v >> 1u8) | (v & 0x80), v & 0x01 != 0),
            RotOp::Swap => ((v >> 4u8) | (v << 4u8), false),
            RotOp::Srl => (v >> 1u8, v & 0x01 != 0),
        };
        self.reg.set_flag(Flags::Z, r == 0);
        self.reg.set_flag(Flags::N, false);
        self.reg.set_flag(Flags::H, false);
        self.reg.set_flag(Flags::C, carry);
        proof { lemma_znhc_byte(r0, r == 0, false, false, carry); }
        r
    }

    fn bit(&mut self, n: u8, v: u8)
        requires
            old(self).reg.flags_clean(),
            n < 8,
        ensures
            final(self)@ == old(self)@.with_reg(bit_result(old(self).reg, n, v)),
            final(self).reg.flags_clean(),
    {
        let ghost r0 = self.reg;
        proof { lemma_bit_mask(v, n); }
        self.reg.set_flag(Flags::Z, v & (1u8 << n) == 0);
        self.reg.set_flag(Flags::N, false);
        self.reg.set_flag(Flags::H, true);
        proof {
            lemma_with_flag_clean(r0, Flags::Z, v & (1u8 << n) == 0);
            lemma_with_flag_clean(r0.with_flag(Flags::Z, v & (1u8 << n) == 0), Flags::N, false);
            lemma_with_flag_clean(r0.with_flag(Flags::Z, v & (1u8 << n) == 0).with_flag(Flags::N, false), Flags::H, true);
        }
    }

    #[verifier::spinoff_prover]
    #[verifier::rlimit(30)]
    fn daa(&mut self)
        requires
            old(self).reg.flags_clean(),
        ensures
            final(self)@ == old(self)@.with_reg(daa_result(old(self).reg)),
            final(self).reg.flags_clean(),
    {
        let ghost r0 = self.reg;
        let mut a = self.reg.a;
        let fh = self.flag(Flags::H);
        let fn_ = self.flag(Flags::N);
        let fc = self.flag(Flags::C);
        let mut adjust = 0u8;
        let mut carry = false;
        proof { lemma_nibble(a); }
        if fh || (!fn_ && (a & 0xF) > 9) {
            proof { lemma_daa_bits(adjust); }
            adjust = adjust | 0x06;
        }
        if fc || (!fn_ && a > 0x99) {
            let before = adjust;
            adjust = adjust | 0x60;
            proof { lemma_daa_bits(before); }
            carry = true;
        }
        assert(adjust == daa_adjust(r0));
        assert(carry == (adjust >= 0x60));
        a = if fn_ {
            a.wrapping_sub(adjust)
        } else {
            a.wrapping_add(adjust)
        };
        assert(a == (if r0.flag(Flags::N) {
            ((r0.a as int - daa_adjust(r0) + 256) % 256) as u8
        } else {
            ((r0.a as int + daa_adjust(r0)) % 256) as u8
        }));
        self.reg.set_flag(Flags::Z, a == 0);
        self.reg.set_flag(Flags::H, false);
        self.reg.set_flag(Flags::C, carry);
        proof {
            lemma_with_flag_clean(r0, Flags::Z, a == 0);
            lemma_with_flag_clean(r0.with_flag(Flags::Z, a == 0), Flags::H, false);
            lemma_with_flag_clean(r0.with_flag(Flags::Z, a == 0).with_flag(Flags::H, false), Flags::C, carry);
        }
        self.reg.a = a;
    }
}

} // verus!

verus! {

impl Cpu {
    // -- queue helpers -----------------------------------------------------

    fn push(&mut self, op: MicroOp)
        ensures
            final(self)@ == old(self)@.with_micro(old(self)@.micro.push(op)),
    {
        self.micro.push_back(op);
    }

    fn push_front(&mut self, op: MicroOp)
        ensures
            final(self)@ == old(self)@.with_micro(seq![op] + old(self)@.micro),
    {
        self.micro.push_front(op);
        assert(self.micro@ =~= seq![op] + old(self)@.micro);
    }

    // The taken path of a conditional call, ahead of what is queued (pushed in
    // reverse).
    fn enqueue_call_front(&mut self)
        ensures
            final(self)@ == old(self)@.with_micro(call_taken() + old(self)@.micro),
    {
        self.push_front(MicroOp::Exec(Effect::SetPcWz));
        self.push_front(MicroOp::Store(Addr::Sp, Byte::PcLow));
        self.push_front(MicroOp::Exec(Effect::SpDec));
        self.push_front(MicroOp::Store(Addr::Sp, Byte::PcHigh));
        self.push_front(MicroOp::Exec(Effect::SpDec));
        self.push_front(MicroOp::Internal);
        assert(self.micro@ =~= call_taken() + old(self)@.micro);
    }

    fn enqueue_ret_front(&mut self)
        ensures
            final(self)@ == old(self)@.with_micro(ret_taken() + old(self)@.micro),
    {
        self.push_front(MicroOp::Exec(Effect::SetPcWz));
        self.push_front(MicroOp::Internal);
        self.push_front(MicroOp::Exec(Effect::SpInc));
        self.push_front(MicroOp::LoadW(Addr::Sp));
        self.push_front(MicroOp::Exec(Effect::SpInc));
        self.push_front(MicroOp::LoadZ(Addr::Sp));
        assert(self.micro@ =~= ret_taken() + old(self)@.micro);
    }

    /// Record that a 16-bit inc/dec acted on an address in the OAM region.
    /// The DMG glitches OAM when this happens during mode 2; the motherboard
    /// forwards the event and the PPU decides whether it corrupts.
    fn note_oam_glitch(&mut self, addr: u16)
        ensures
            final(self)@ == (CpuView {
                oam_glitch: old(self)@.oam_glitch || (0xFE00 <= addr <= 0xFEFF),
                ..old(self)@
            }),
    {
        if 0xFE00 <= addr && addr <= 0xFEFF {
            self.oam_glitch = true;
        }
    }

    // -- decode ------------------------------------------------------------

    fn decode(&mut self)
        requires
            !illegal_opcode(old(self)@.ir),
        ensures
            final(self)@ == old(self)@.with_micro(old(self)@.micro + decoded(old(self)@.ir)),
    {
        let op = self.ir;
        if op == 0xCB {
            self.push(MicroOp::ImmZ);
            self.push(MicroOp::Exec(Effect::DecodeCb));
            assert(self.micro@ =~= old(self)@.micro + decoded(op));
            return;
        }
        let x = op >> 6;
        let y = (op >> 3) & 7;
        let z = op & 7;
        let p = y >> 1;
        let q = y & 1;
        proof { lemma_opcode_fields(op); lemma_opcode_fields(y); }
        let ghost body = if x == 0 {
            decoded_x0(y as int, z as int, p as int, q as int)
        } else if x == 1 {
            decoded_x1(y as int, z as int)
        } else if x == 2 {
            decoded_x2(y as int, z as int)
        } else {
            decoded_x3(y as int, z as int, p as int, q as int)
        };
        if x == 0 {
            self.decode_x0(y, z, p, q);
        } else if x == 1 {
            self.decode_x1(y, z);
        } else if x == 2 {
            self.decode_x2(y, z);
        } else {
            self.decode_x3(y, z, p, q);
        }
        assert(self.micro@ =~= old(self)@.micro + body);
        self.push(MicroOp::Fetch);
        assert(self.micro@ =~= old(self)@.micro + decoded(op));
    }

    /// 8-bit loads and HALT.
    fn decode_x1(&mut self, y: u8, z: u8)
        requires
            y < 8,
            z < 8,
        ensures
            final(self)@ == old(self)@.with_micro(old(self)@.micro + decoded_x1(y as int, z as int)),
    {
        if y == 6 && z == 6 {
            self.push(MicroOp::Exec(Effect::Halt));
        } else if z == 6 {
            // LD r,(HL)
            self.push(MicroOp::LoadZ(Addr::Hl));
            self.push(MicroOp::Exec(Effect::LdRZ(r8_of(y))));
        } else if y == 6 {
            // LD (HL),r
            self.push(MicroOp::Store(Addr::Hl, Byte::Reg(r8_of(z))));
        } else {
            self.push(MicroOp::Exec(Effect::LdR(r8_of(y), r8_of(z))));
        }
        assert(self.micro@ =~= old(self)@.micro + decoded_x1(y as int, z as int));
    }

    /// Accumulator arithmetic on a register or (HL).
    fn decode_x2(&mut self, y: u8, z: u8)
        requires
            y < 8,
            z < 8,
        ensures
            final(self)@ == old(self)@.with_micro(old(self)@.micro + decoded_x2(y as int, z as int)),
    {
        if z == 6 {
            self.push(MicroOp::LoadZ(Addr::Hl));
            self.push(MicroOp::Exec(Effect::AluZ(alu_of(y))));
        } else {
            self.push(MicroOp::Exec(Effect::Alu(alu_of(y), r8_of(z))));
        }
        assert(self.micro@ =~= old(self)@.micro + decoded_x2(y as int, z as int));
    }

    fn decode_x0(&mut self, y: u8, z: u8, p: u8, q: u8)
        requires
            y < 8,
            z < 8,
            p == y / 2,
            q == y % 2,
        ensures
            final(self)@ == old(self)@.with_micro(old(self)@.micro + decoded_x0(y as int, z as int, p as int, q as int)),
    {
        if z == 0 {
            if y == 0 {
                // NOP
            } else if y == 1 {
                // LD (a16),SP
                self.push(MicroOp::ImmZ);
                self.push(MicroOp::ImmW);
                self.push(MicroOp::Store(Addr::Wz, Byte::SpLow));
                self.push(MicroOp::Exec(Effect::WzInc));
                self.push(MicroOp::Store(Addr::Wz, Byte::SpHigh));
            } else if y == 2 {
                // STOP (consumes a padding byte)
                self.push(MicroOp::ImmZ);
                self.push(MicroOp::Exec(Effect::Stop));
            } else if y == 3 {
                // JR e
                self.push(MicroOp::ImmZ);
                self.push(MicroOp::Internal);
                self.push(MicroOp::Exec(Effect::JrZ));
            } else {
                // JR cc,e
                self.push(MicroOp::ImmZ);
                self.push(MicroOp::Exec(Effect::BranchRel(cc_of(y - 4))));
            }
        } else if z == 1 {
            if q == 0 {
                // LD rp,nn
                self.push(MicroOp::ImmZ);
                self.push(MicroOp::ImmW);
                self.push(MicroOp::Exec(Effect::LdRpWz(rp_of(p))));
            } else {
                // ADD HL,rp
                self.push(MicroOp::Internal);
                self.push(MicroOp::Exec(Effect::AddHl(rp_of(p))));
            }
        } else if z == 2 {
            if q == 0 {
                if p == 0 {
                    self.push(MicroOp::Store(Addr::Bc, Byte::Reg(R8::A)));
                } else if p == 1 {
                    self.push(MicroOp::Store(Addr::De, Byte::Reg(R8::A)));
                } else if p == 2 {
                    self.push(MicroOp::Store(Addr::Hl, Byte::Reg(R8::A)));
                    self.push(MicroOp::Exec(Effect::Inc16(R16::Hl)));
                } else {
                    self.push(MicroOp::Store(Addr::Hl, Byte::Reg(R8::A)));
                    self.push(MicroOp::Exec(Effect::Dec16(R16::Hl)));
                }
            } else {
                if p == 0 {
                    self.push(MicroOp::LoadZ(Addr::Bc));
                    self.push(MicroOp::Exec(Effect::LdRZ(R8::A)));
                } else if p == 1 {
                    self.push(MicroOp::LoadZ(Addr::De));
                    self.push(MicroOp::Exec(Effect::LdRZ(R8::A)));
                } else if p == 2 {
                    self.push(MicroOp::LoadZ(Addr::Hl));
                    self.push(MicroOp::Exec(Effect::LdRZ(R8::A)));
                    self.push(MicroOp::Exec(Effect::Inc16(R16::Hl)));
                } else {
                    self.push(MicroOp::LoadZ(Addr::Hl));
                    self.push(MicroOp::Exec(Effect::LdRZ(R8::A)));
                    self.push(MicroOp::Exec(Effect::Dec16(R16::Hl)));
                }
            }
        } else if z == 3 {
            self.push(MicroOp::Internal);
            if q == 0 {
                self.push(MicroOp::Exec(Effect::Inc16(rp_of(p))));
            } else {
                self.push(MicroOp::Exec(Effect::Dec16(rp_of(p))));
            }
        } else if z == 4 {
            if y == 6 {
                self.push(MicroOp::LoadZ(Addr::Hl));
                self.push(MicroOp::Exec(Effect::IncZ));
                self.push(MicroOp::Store(Addr::Hl, Byte::Z));
            } else {
                self.push(MicroOp::Exec(Effect::IncR(r8_of(y))));
            }
        } else if z == 5 {
            if y == 6 {
                self.push(MicroOp::LoadZ(Addr::Hl));
                self.push(MicroOp::Exec(Effect::DecZ));
                self.push(MicroOp::Store(Addr::Hl, Byte::Z));
            } else {
                self.push(MicroOp::Exec(Effect::DecR(r8_of(y))));
            }
        } else if z == 6 {
            if y == 6 {
                self.push(MicroOp::ImmZ);
                self.push(MicroOp::Store(Addr::Hl, Byte::Z));
            } else {
                self.push(MicroOp::ImmZ);
                self.push(MicroOp::Exec(Effect::LdRZ(r8_of(y))));
            }
        } else {
            let eff = match y {
                0 => Effect::AccRot(RotOp::Rlc),
                1 => Effect::AccRot(RotOp::Rrc),
                2 => Effect::AccRot(RotOp::Rl),
                3 => Effect::AccRot(RotOp::Rr),
                4 => Effect::Daa,
                5 => Effect::Cpl,
                6 => Effect::Scf,
                _ => Effect::Ccf,
            };
            self.push(MicroOp::Exec(eff));
        }
        assert(self.micro@ =~= old(self)@.micro + decoded_x0(y as int, z as int, p as int, q as int));
    }

    fn decode_x3(&mut self, y: u8, z: u8, p: u8, q: u8)
        requires
            y < 8,
            z < 8,
            p == y / 2,
            q == y % 2,
            !(z == 3 && 1 <= y <= 5),
            !(z == 4 && y >= 4),
            !(z == 5 && q == 1 && p != 0),
        ensures
            final(self)@ == old(self)@.with_micro(old(self)@.micro + decoded_x3(y as int, z as int, p as int, q as int)),
    {
        if z == 0 {
            if y <= 3 {
                self.push(MicroOp::Internal);
                self.push(MicroOp::Exec(Effect::RetCc(cc_of(y))));
            } else if y == 4 {
                self.push(MicroOp::ImmZ);
                self.push(MicroOp::Store(Addr::HighZ, Byte::Reg(R8::A)));
            } else if y == 5 {
                self.push(MicroOp::ImmZ);
                self.push(MicroOp::Internal);
                self.push(MicroOp::Internal);
                self.push(MicroOp::Exec(Effect::AddSpE));
            } else if y == 6 {
                self.push(MicroOp::ImmZ);
                self.push(MicroOp::LoadZ(Addr::HighZ));
                self.push(MicroOp::Exec(Effect::LdRZ(R8::A)));
            } else {
                self.push(MicroOp::ImmZ);
                self.push(MicroOp::Internal);
                self.push(MicroOp::Exec(Effect::LdHlSpE));
            }
        } else if z == 1 {
            if q == 0 {
                // POP rp2
                self.push(MicroOp::LoadZ(Addr::Sp));
                self.push(MicroOp::Exec(Effect::SpInc));
                self.push(MicroOp::LoadW(Addr::Sp));
                self.push(MicroOp::Exec(Effect::SpInc));
                self.push(MicroOp::Exec(Effect::SetStkWz(rp2_of(p))));
            } else if p == 0 {
                // RET
                self.push(MicroOp::LoadZ(Addr::Sp));
                self.push(MicroOp::Exec(Effect::SpInc));
                self.push(MicroOp::LoadW(Addr::Sp));
                self.push(MicroOp::Exec(Effect::SpInc));
                self.push(MicroOp::Internal);
                self.push(MicroOp::Exec(Effect::SetPcWz));
            } else if p == 1 {
                // RETI
                self.push(MicroOp::LoadZ(Addr::Sp));
                self.push(MicroOp::Exec(Effect::SpInc));
                self.push(MicroOp::LoadW(Addr::Sp));
                self.push(MicroOp::Exec(Effect::SpInc));
                self.push(MicroOp::Internal);
                self.push(MicroOp::Exec(Effect::Reti));
            } else if p == 2 {
                // JP HL
                self.push(MicroOp::Exec(Effect::SetPcHl));
            } else {
                // LD SP,HL
                self.push(MicroOp::Internal);
                self.push(MicroOp::Exec(Effect::LdSpHl));
            }
        } else if z == 2 {
            if y <= 3 {
                self.push(MicroOp::ImmZ);
                self.push(MicroOp::ImmW);
                self.push(MicroOp::Exec(Effect::JpCc(cc_of(y))));
            } else if y == 4 {
                // LDH (C),A
                self.push(MicroOp::Store(Addr::HighC, Byte::Reg(R8::A)));
            } else if y == 5 {
                self.push(MicroOp::ImmZ);
                self.push(MicroOp::ImmW);
                self.push(MicroOp::Store(Addr::Wz, Byte::Reg(R8::A)));
            } else if y == 6 {
                self.push(MicroOp::LoadZ(Addr::HighC));
                self.push(MicroOp::Exec(Effect::LdRZ(R8::A)));
            } else {
                self.push(MicroOp::ImmZ);
                self.push(MicroOp::ImmW);
                self.push(MicroOp::LoadZ(Addr::Wz));
                self.push(MicroOp::Exec(Effect::LdRZ(R8::A)));
            }
        } else if z == 3 {
            if y == 0 {
                // JP nn
                self.push(MicroOp::ImmZ);
                self.push(MicroOp::ImmW);
                self.push(MicroOp::Internal);
                self.push(MicroOp::Exec(Effect::SetPcWz));
            } else if y == 6 {
                self.push(MicroOp::Exec(Effect::Di));
            } else {
                self.push(MicroOp::Exec(Effect::Ei));
            }
        } else if z == 4 {
            self.push(MicroOp::ImmZ);
            self.push(MicroOp::ImmW);
            self.push(MicroOp::Exec(Effect::CallCc(cc_of(y))));
        } else if z == 5 {
            if q == 0 {
                // PUSH rp2
                self.push(MicroOp::Internal);
                self.push(MicroOp::Exec(Effect::SpDec));
                self.push(MicroOp::Store(Addr::Sp, Byte::StkHigh(rp2_of(p))));
                self.push(MicroOp::Exec(Effect::SpDec));
                self.push(MicroOp::Store(Addr::Sp, Byte::StkLow(rp2_of(p))));
            } else {
                // CALL nn
                self.push(MicroOp::ImmZ);
                self.push(MicroOp::ImmW);
                self.push(MicroOp::Internal);
                self.push(MicroOp::Exec(Effect::SpDec));
                self.push(MicroOp::Store(Addr::Sp, Byte::PcHigh));
                self.push(MicroOp::Exec(Effect::SpDec));
                self.push(MicroOp::Store(Addr::Sp, Byte::PcLow));
                self.push(MicroOp::Exec(Effect::SetPcWz));
            }
        } else if z == 6 {
            self.push(MicroOp::ImmZ);
            self.push(MicroOp::Exec(Effect::AluZ(alu_of(y))));
        } else {
            // RST y*8
            let vector = (y as u16) * 8;
            self.push(MicroOp::Internal);
            self.push(MicroOp::Exec(Effect::SpDec));
            self.push(MicroOp::Store(Addr::Sp, Byte::PcHigh));
            self.push(MicroOp::Exec(Effect::SpDec));
            self.push(MicroOp::Store(Addr::Sp, Byte::PcLow));
            self.push(MicroOp::Exec(Effect::SetPc(vector)));
        }
        assert(self.micro@ =~= old(self)@.micro + decoded_x3(y as int, z as int, p as int, q as int));
    }

    // CB-prefixed: the opcode byte is already in Z. Enqueue the operation and
    // the terminal fetch.
    fn decode_cb(&mut self)
        ensures
            final(self)@ == old(self)@.with_micro(old(self)@.micro + decoded_cb(old(self)@.z)),
    {
        let op = self.z;
        let x = op >> 6;
        let y = (op >> 3) & 7;
        let z = op & 7;
        proof { lemma_opcode_fields(op); }
        let on_hl = z == 6;
        if x == 0 {
            let rot = rot_of(y);
            if on_hl {
                self.push(MicroOp::LoadZ(Addr::Hl));
                self.push(MicroOp::Exec(Effect::RotZ(rot)));
                self.push(MicroOp::Store(Addr::Hl, Byte::Z));
            } else {
                self.push(MicroOp::Exec(Effect::Rot(rot, r8_of(z))));
            }
        } else if x == 1 {
            if on_hl {
                self.push(MicroOp::LoadZ(Addr::Hl));
                self.push(MicroOp::Exec(Effect::BitZ(y)));
            } else {
                self.push(MicroOp::Exec(Effect::Bit(y, r8_of(z))));
            }
        } else if x == 2 {
            if on_hl {
                self.push(MicroOp::LoadZ(Addr::Hl));
                self.push(MicroOp::Exec(Effect::ResZ(y)));
                self.push(MicroOp::Store(Addr::Hl, Byte::Z));
            } else {
                self.push(MicroOp::Exec(Effect::Res(y, r8_of(z))));
            }
        } else {
            if on_hl {
                self.push(MicroOp::LoadZ(Addr::Hl));
                self.push(MicroOp::Exec(Effect::SetZ(y)));
                self.push(MicroOp::Store(Addr::Hl, Byte::Z));
            } else {
                self.push(MicroOp::Exec(Effect::SetBit(y, r8_of(z))));
            }
        }
        self.push(MicroOp::Fetch);
        assert(self.micro@ =~= old(self)@.micro + decoded_cb(op));
    }
}

} // verus!

verus! {

/// Every flag update keeps F clean, and popping AF never lets low bits in.
proof fn lemma_clean_after(reg: Registers, flag: Flags, state: bool)
    requires
        reg.flags_clean(),
    ensures
        reg.with_flag(flag, state).flags_clean(),
{
    lemma_with_flag_clean(reg, flag, state);
}

impl Cpu {
    // -- effect execution --------------------------------------------------

    /// Loads, accumulator arithmetic and 8-bit inc/dec.
    #[verifier::spinoff_prover]
    #[verifier::rlimit(40)]
    fn exec_data(&mut self, e: Effect)
        requires
            old(self).reg.flags_clean(),
            effect_wf(e),
            e is LdR || e is LdRZ || e is Alu || e is AluZ || e is IncR || e is DecR || e is IncZ || e is DecZ || e is AddHl,
        ensures
            final(self)@ == effect_result(old(self)@, e),
            final(self).reg.flags_clean(),
    {
        let ghost s0 = self@;
        let ghost r0 = self.reg;
        match e {
            Effect::LdR(d, s) => {
                let v = self.r8(s);
                self.set_r8(d, v);
            },
            Effect::LdRZ(d) => {
                let v = self.z;
                self.set_r8(d, v);
            },
            Effect::Alu(op, s) => {
                let v = self.r8(s);
                self.alu(op, v);
            },
            Effect::AluZ(op) => {
                let v = self.z;
                self.alu(op, v);
            },
            Effect::IncR(r) => {
                let v = self.inc8(self.r8(r));
                self.set_r8(r, v);
            },
            Effect::DecR(r) => {
                let v = self.dec8(self.r8(r));
                self.set_r8(r, v);
            },
            Effect::IncZ => {
                let v = self.inc8(self.z);
                self.z = v;
            },
            Effect::DecZ => {
                let v = self.dec8(self.z);
                self.z = v;
            },
            Effect::AddHl(r) => {
                let v = self.r16(r);
                self.add_hl(v);
            },
            _ => {},
        }
    }

    /// Rotates, bit operations and the flag instructions.
    #[verifier::spinoff_prover]
    #[verifier::rlimit(40)]
    fn exec_bits(&mut self, e: Effect)
        requires
            old(self).reg.flags_clean(),
            effect_wf(e),
            e is AccRot || e is Rot || e is RotZ || e is Bit || e is BitZ || e is Res || e is ResZ || e is SetBit || e is SetZ || e is Daa || e is Cpl || e is Scf || e is Ccf,
        ensures
            final(self)@ == effect_result(old(self)@, e),
            final(self).reg.flags_clean(),
    {
        let ghost s0 = self@;
        let ghost r0 = self.reg;
        match e {
            Effect::AccRot(op) => {
                let v = self.rotate(op, self.reg.a);
                self.reg.a = v;
                proof { lemma_clean_after(self.reg, Flags::Z, false); }
                self.reg.set_flag(Flags::Z, false);
            },
            Effect::Rot(op, r) => {
                let v = self.rotate(op, self.r8(r));
                self.set_r8(r, v);
            },
            Effect::RotZ(op) => {
                let v = self.rotate(op, self.z);
                self.z = v;
            },
            Effect::Bit(n, r) => {
                let v = self.r8(r);
                self.bit(n, v);
            },
            Effect::BitZ(n) => {
                let v = self.z;
                self.bit(n, v);
            },
            Effect::Res(n, r) => {
                let v = self.r8(r);
                proof { lemma_bit_mask(v, n); }
                self.set_r8(r, v & !(1u8 << n));
            },
            Effect::ResZ(n) => {
                let v = self.z;
                proof { lemma_bit_mask(v, n); }
                self.z = v & !(1u8 << n);
            },
            Effect::SetBit(n, r) => {
                let v = self.r8(r);
                proof { lemma_bit_mask(v, n); }
                self.set_r8(r, v | (1u8 << n));
            },
            Effect::SetZ(n) => {
                let v = self.z;
                proof { lemma_bit_mask(v, n); }
                self.z = v | (1u8 << n);
            },
            Effect::Daa => self.daa(),
            Effect::Cpl => {
                let a = self.reg.a;
                proof { lemma_byte_not(a); }
                self.reg.a = !a;
                proof {
                    lemma_clean_after(self.reg, Flags::N, true);
                    lemma_clean_after(self.reg.with_flag(Flags::N, true), Flags::H, true);
                }
                self.reg.set_flag(Flags::N, true);
                self.reg.set_flag(Flags::H, true);
            },
            Effect::Scf => {
                proof {
                    lemma_clean_after(r0, Flags::N, false);
                    lemma_clean_after(r0.with_flag(Flags::N, false), Flags::H, false);
                    lemma_clean_after(r0.with_flag(Flags::N, false).with_flag(Flags::H, false), Flags::C, true);
                }
                self.reg.set_flag(Flags::N, false);
                self.reg.set_flag(Flags::H, false);
                self.reg.set_flag(Flags::C, true);
            },
            Effect::Ccf => {
                let c = self.flag(Flags::C);
                proof {
                    lemma_clean_after(r0, Flags::N, false);
                    lemma_clean_after(r0.with_flag(Flags::N, false), Flags::H, false);
                    lemma_clean_after(r0.with_flag(Flags::N, false).with_flag(Flags::H, false), Flags::C, !c);
                }
                self.reg.set_flag(Flags::N, false);
                self.reg.set_flag(Flags::H, false);
                self.reg.set_flag(Flags::C, !c);
            },
            _ => {},
        }
    }

    /// INC rr / DEC rr on one pair, noting an OAM-region address.
    #[verifier::spinoff_prover]
    #[verifier::rlimit(40)]
    fn step16(&mut self, r: R16, up: bool)
        ensures
            final(self)@ == (CpuView {
                reg: set_r16(old(self).reg, r, if up { inc16(get_r16(old(self).reg, r)) } else { dec16(get_r16(old(self).reg, r)) }),
                oam_glitch: old(self)@.oam_glitch || in_oam_region(get_r16(old(self).reg, r)),
                ..old(self)@
            }),
    {
        let v = self.r16(r);
        self.note_oam_glitch(v);
        let n = if up { v.wrapping_add(1) } else { v.wrapping_sub(1) };
        self.set_r16(r, n);
    }

    /// 16-bit increment and decrement.
    #[verifier::spinoff_prover]
    #[verifier::rlimit(100)]
    fn exec_inc16(&mut self, e: Effect)
        requires
            old(self).reg.flags_clean(),
            effect_wf(e),
            e is Inc16 || e is Dec16,
        ensures
            final(self)@ == effect_result(old(self)@, e),
            final(self).reg.flags_clean(),
    {
        let ghost s0 = self@;
        let ghost r0 = self.reg;
        match e {
            Effect::Inc16(r) => {
                self.step16(r, true);
            },
            Effect::Dec16(r) => {
                self.step16(r, false);
            },
            _ => {},
        }
    }

    /// Register-pair loads from WZ.
    #[verifier::spinoff_prover]
    #[verifier::rlimit(40)]
    fn exec_pairs(&mut self, e: Effect)
        requires
            old(self).reg.flags_clean(),
            effect_wf(e),
            e is LdRpWz || e is SetStkWz,
        ensures
            final(self)@ == effect_result(old(self)@, e),
            final(self).reg.flags_clean(),
    {
        let ghost s0 = self@;
        let ghost r0 = self.reg;
        match e {
            Effect::LdRpWz(r) => {
                let v = self.wz();
                self.set_r16(r, v);
            },
            Effect::SetStkWz(r) => {
                let v = self.wz();
                match r {
                    R16Stk::Bc => self.reg.set_bc(v),
                    R16Stk::De => self.reg.set_de(v),
                    R16Stk::Hl => self.reg.set_hl(v),
                    R16Stk::Af => {
                        self.reg.set_af(v);
                        let ghost lo = low_byte(v);
                        proof { lemma_byte_masks(lo); }
                    },
                }
            },
            _ => {},
        }
    }

    /// SP plus a signed offset.
    #[verifier::spinoff_prover]
    #[verifier::rlimit(40)]
    fn exec_sp_offset(&mut self, e: Effect)
        requires
            old(self).reg.flags_clean(),
            effect_wf(e),
            e is AddSpE || e is LdHlSpE,
        ensures
            final(self)@ == effect_result(old(self)@, e),
            final(self).reg.flags_clean(),
    {
        let ghost s0 = self@;
        let ghost r0 = self.reg;
        match e {
            Effect::AddSpE => {
                let v = self.add_sp_e();
                self.reg.sp = v;
            },
            Effect::LdHlSpE => {
                let v = self.add_sp_e();
                self.reg.set_hl(v);
            },


            _ => {},
        }
    }


    /// Jumps: PC from WZ, HL, a vector, or PC plus a signed offset.
    #[verifier::spinoff_prover]
    #[verifier::rlimit(40)]
    fn exec_jumps(&mut self, e: Effect)
        requires
            old(self).reg.flags_clean(),
            effect_wf(e),
            e is SetPcWz || e is SetPcHl || e is SetPc || e is JrZ,
        ensures
            final(self)@ == effect_result(old(self)@, e),
            final(self).reg.flags_clean(),
    {
        let ghost s0 = self@;
        let ghost r0 = self.reg;
        match e {
            Effect::SetPcWz => self.reg.pc = self.wz(),
            Effect::SetPcHl => self.reg.pc = self.reg.get_hl(),
            Effect::SetPc(v) => self.reg.pc = v,
            Effect::JrZ => {
                let z = self.z;
                let e: u16 = if z < 0x80 { z as u16 } else { z as u16 | 0xFF00 };
                proof { lemma_byte_widen(z); }
                let npc = self.reg.pc.wrapping_add(e);
                assert(e == sign_extend(z));
                assert(npc == ((self.reg.pc as int + sign_extend(z) as int) % 65536) as u16);
                self.reg.pc = npc;
            },
            _ => {},
        }
    }

    /// Stack-pointer and WZ steps.
    #[verifier::spinoff_prover]
    #[verifier::rlimit(40)]
    fn exec_stack(&mut self, e: Effect)
        requires
            old(self).reg.flags_clean(),
            effect_wf(e),
            e is SpDec || e is SpInc || e is WzInc || e is LdSpHl,
        ensures
            final(self)@ == effect_result(old(self)@, e),
            final(self).reg.flags_clean(),
    {
        let ghost s0 = self@;
        let ghost r0 = self.reg;
        match e {
            Effect::SpDec => self.step16(R16::Sp, false),
            Effect::SpInc => self.step16(R16::Sp, true),
            Effect::WzInc => {
                let v = self.wz().wrapping_add(1);
                assert(v == inc16(self@.wz()));
                proof { lemma_split(v); }
                self.w = (v >> 8) as u8;
                self.z = v as u8;
            },
            Effect::LdSpHl => self.reg.sp = self.reg.get_hl(),

            _ => {},
        }
    }


    /// Interrupt enable, halt/stop, CB decode and the conditional branches.
    #[verifier::spinoff_prover]
    #[verifier::rlimit(40)]
    fn exec_ctrl(&mut self, e: Effect)
        requires
            old(self).reg.flags_clean(),
            effect_wf(e),
            e is Ei || e is Di || e is Reti || e is Halt || e is Stop || e is DecodeCb || e is BranchRel || e is JpCc || e is CallCc || e is RetCc,
        ensures
            final(self)@ == effect_result(old(self)@, e),
            final(self).reg.flags_clean(),
    {
        let ghost s0 = self@;
        let ghost r0 = self.reg;
        match e {
            Effect::Ei => self.ime_pending = true,
            Effect::Di => {
                self.ime = false;
                self.ime_pending = false;
            },
            Effect::Reti => {
                self.reg.pc = self.wz();
                self.ime = true;
            },
            Effect::Halt => self.halted = true,
            Effect::Stop => self.speed_switch = true,
            Effect::DecodeCb => self.decode_cb(),
            Effect::BranchRel(c) => {
                if self.cond(c) {
                    self.push_front(MicroOp::Exec(Effect::JrZ));
                    self.push_front(MicroOp::Internal);
                    assert(self.micro@ =~= seq![MicroOp::Internal, MicroOp::Exec(Effect::JrZ)] + s0.micro);
                }
            },
            Effect::JpCc(c) => {
                if self.cond(c) {
                    self.push_front(MicroOp::Exec(Effect::SetPcWz));
                    self.push_front(MicroOp::Internal);
                    assert(self.micro@ =~= seq![MicroOp::Internal, MicroOp::Exec(Effect::SetPcWz)] + s0.micro);
                }
            },
            Effect::CallCc(c) => {
                if self.cond(c) {
                    self.enqueue_call_front();
                }
            },
            Effect::RetCc(c) => {
                if self.cond(c) {
                    self.enqueue_ret_front();
                }
            },

            _ => {},
        }
    }

    fn exec(&mut self, e: Effect)
        requires
            old(self).reg.flags_clean(),
            effect_wf(e),
        ensures
            final(self)@ == effect_result(old(self)@, e),
            final(self).reg.flags_clean(),
    {
        match e {
            Effect::LdR(..) | Effect::LdRZ(..) | Effect::Alu(..) | Effect::AluZ(..) | Effect::IncR(..) | Effect::DecR(..) | Effect::IncZ | Effect::DecZ | Effect::AddHl(..) => self.exec_data(e),
            Effect::AccRot(..) | Effect::Rot(..) | Effect::RotZ(..) | Effect::Bit(..) | Effect::BitZ(..) | Effect::Res(..) | Effect::ResZ(..) | Effect::SetBit(..) | Effect::SetZ(..) | Effect::Daa | Effect::Cpl | Effect::Scf | Effect::Ccf => self.exec_bits(e),
            Effect::Inc16(..) | Effect::Dec16(..) => self.exec_inc16(e),
            Effect::LdRpWz(..) | Effect::SetStkWz(..) => self.exec_pairs(e),
            Effect::AddSpE | Effect::LdHlSpE => self.exec_sp_offset(e),
            Effect::SetPcWz | Effect::SetPcHl | Effect::SetPc(..) | Effect::JrZ => self.exec_jumps(e),
            Effect::SpDec | Effect::SpInc | Effect::WzInc | Effect::LdSpHl => self.exec_stack(e),
            Effect::Ei | Effect::Di | Effect::Reti | Effect::Halt | Effect::Stop | Effect::DecodeCb | Effect::BranchRel(..) | Effect::JpCc(..) | Effect::CallCc(..) | Effect::RetCc(..) => self.exec_ctrl(e),
        }
    }

}

} // verus!

verus! {

impl Cpu {
    // -- boundary / interrupt ---------------------------------------------

    /// The next micro-op is an opcode fetch: the previous instruction is done.
    pub fn at_instruction_boundary(&self) -> (r: bool)
        ensures
            r == (self@.micro.len() > 0 && self@.micro[0] is Fetch),
    {
        self.micro.len() > 0 && matches!(self.micro[0], MicroOp::Fetch)
    }

    /// A bus or internal step is next (the free effects have run).
    pub fn has_bus_op(&self) -> (r: bool)
        ensures
            r == (self@.micro.len() > 0 && !(self@.micro[0] is Exec)),
    {
        self.micro.len() > 0 && !matches!(self.micro[0], MicroOp::Exec(_))
    }

    /// The register file.
    pub fn registers(&self) -> (r: Registers)
        ensures
            r == self@.reg,
    {
        self.reg
    }

    /// Replaces the register file (a debugger's or a test's poke).
    pub fn set_registers(&mut self, r: Registers)
        ensures
            final(self)@ == (CpuView { reg: r, ..old(self)@ }),
    {
        self.reg = r;
    }

    /// The opcode register: the opcode fetched last.
    pub fn ir(&self) -> (r: u8)
        ensures
            r == self@.ir,
    {
        self.ir
    }

    /// Whether `op` is one of the opcodes the SM83 does not define.
    pub fn is_illegal(op: u8) -> (r: bool)
        ensures
            r == illegal_opcode(op),
    {
        op == 0xD3 || op == 0xDB || op == 0xDD || op == 0xE3 || op == 0xE4 || op == 0xEB || op == 0xEC
            || op == 0xED || op == 0xF4 || op == 0xFC || op == 0xFD
    }

    pub fn is_halted(&self) -> (r: bool)
        ensures
            r == self@.halted,
    {
        self.halted
    }

    pub fn wake(&mut self)
        ensures
            final(self)@ == (CpuView { halted: false, ..old(self)@ }),
    {
        self.halted = false;
    }

    /// Arm the HALT bug: the next opcode fetch reads the byte after HALT
    /// without advancing PC, so it is decoded twice.
    pub fn trigger_halt_bug(&mut self)
        ensures
            final(self)@ == (CpuView { halt_bug: true, ..old(self)@ }),
    {
        self.halt_bug = true;
    }

    /// Whether a 16-bit inc/dec touched the OAM region since the last call;
    /// clears the note.
    pub fn take_oam_glitch(&mut self) -> (r: bool)
        ensures
            r == old(self)@.oam_glitch,
            final(self)@ == (CpuView { oam_glitch: false, ..old(self)@ }),
    {
        let v = self.oam_glitch;
        self.oam_glitch = false;
        v
    }

    /// Whether STOP ran since the last call; clears the request.
    pub fn take_speed_switch(&mut self) -> (r: bool)
        ensures
            r == old(self)@.speed_switch,
            final(self)@ == (CpuView { speed_switch: false, ..old(self)@ }),
    {
        let v = self.speed_switch;
        self.speed_switch = false;
        v
    }

    pub fn ime(&self) -> (r: bool)
        ensures
            r == self@.ime,
    {
        self.ime
    }

    /// Take the highest-priority pending interrupt, if IME is set and the CPU
    /// sits on an instruction boundary: the queued fetch is replaced by the
    /// dispatch sequence and IME cleared. Returns the source taken.
    pub fn offer_interrupt(&mut self, pending: Interrupts) -> (r: Option<Interrupts>)
        ensures
            (final(self)@, r) == offered(old(self)@, pending.bits),
            ({
                let s = old(self)@;
                if !s.ime || !(s.micro.len() > 0 && s.micro[0] is Fetch) {
                    r is None && final(self)@ == s
                } else {
                    match highest_pending(pending.bits) {
                        None => r is None && final(self)@ == s,
                        Some((vector, bit)) => r == Some(bit) && final(self)@ == (CpuView {
                            ime: false,
                            micro: dispatch_program(vector),
                            ..s
                        }),
                    }
                }
            }),
    {
        if !self.ime || !self.at_instruction_boundary() {
            return None;
        }
        let (vector, bit) = match pending.highest() {
            Some(p) => p,
            None => return None,
        };
        self.ime = false;
        self.micro.clear();
        // Dispatch is 5 M-cycles on hardware, measured from after the
        // interrupted instruction's opcode fetch; offering here discards that
        // prefetch, so one extra internal cycle stands in for it.
        self.push(MicroOp::Internal);
        self.push(MicroOp::Internal);
        self.push(MicroOp::Internal);
        self.push(MicroOp::Exec(Effect::SpDec));
        self.push(MicroOp::Store(Addr::Sp, Byte::PcHigh));
        self.push(MicroOp::Exec(Effect::SpDec));
        self.push(MicroOp::Store(Addr::Sp, Byte::PcLow));
        self.push(MicroOp::Exec(Effect::SetPc(vector)));
        self.push(MicroOp::Fetch);
        assert(self.micro@ =~= dispatch_program(vector));
        Some(bit)
    }

    // -- M-cycle interface -------------------------------------------------

    /// Run the free effects at the head of the queue until a bus cycle is next.
    pub fn run_free_acts(&mut self)
        requires
            cpu_wf(old(self)@),
        ensures
            final(self)@ == drained(old(self)@),
            cpu_wf(final(self)@),
    {
        while self.micro.len() > 0 && matches!(self.micro[0], MicroOp::Exec(_))
            invariant
                cpu_wf(self@),
                drained(self@) == drained(old(self)@),
            decreases cb_pending(self@.micro), leading_effects(self@.micro),
        {
            let ghost s = self@;
            proof { lemma_effect_progress(s); }
            let op = self.micro.pop_front();
            if let Some(MicroOp::Exec(e)) = op {
                proof {
                    assert(self@ == s.with_micro(s.micro.drop_first()));
                    lemma_queue_wf_drop_first(s.micro);
                    assert(effect_wf(e));
                    lemma_effect_keeps_queue_wf(self@, e);
                }
                self.exec(e);
            }
        }
    }

    /// Drive the bus for the head micro-op.
    pub fn setup(&mut self, pins: &mut Pins)
        requires
            old(self)@.micro.len() > 0,
            !(old(self)@.micro[0] is Exec),
        ensures
            *final(pins) == setup_pins(old(self)@, *old(pins)),
            final(self)@ == old(self)@,
    {
        pins.master = BusMaster::Cpu;
        match self.micro[0] {
            MicroOp::Fetch | MicroOp::ImmZ | MicroOp::ImmW => {
                pins.address = self.reg.pc;
                pins.dir = BusDir::Read;
            },
            MicroOp::LoadZ(a) | MicroOp::LoadW(a) => {
                pins.address = self.addr(a);
                pins.dir = BusDir::Read;
            },
            MicroOp::Store(a, b) => {
                pins.address = self.addr(a);
                pins.data = self.byte(b);
                pins.dir = BusDir::Write;
            },
            _ => pins.dir = BusDir::Idle,
        }
    }

    /// Finish the head micro-op with the data on the bus. Returns whether it
    /// was an opcode fetch (which decodes the next instruction).
    pub fn complete(&mut self, pins: &Pins) -> (fetched: bool)
        requires
            old(self)@.micro.len() > 0,
            !(old(self)@.micro[0] is Exec),
            old(self)@.micro[0] is Fetch ==> !illegal_opcode(pins.data),
            cpu_wf(old(self)@),
        ensures
            fetched == (old(self)@.micro[0] is Fetch),
            final(self)@ == completed(old(self)@, pins.data),
            cpu_wf(final(self)@),
    {
        let ghost s = self@;
        proof { lemma_queue_wf_drop_first(s.micro); }
        let op = self.micro.pop_front();
        match op {
            Some(MicroOp::Fetch) => {
                self.ir = pins.data;
                if self.halt_bug {
                    self.halt_bug = false;
                } else {
                    self.reg.pc = self.reg.pc.wrapping_add(1);
                }
                if self.ime_pending {
                    self.ime_pending = false;
                    self.ime = true;
                }
                proof {
                    lemma_decoded_wf(pins.data);
                    lemma_queue_wf_concat(s.micro.drop_first(), decoded(pins.data));
                }
                self.decode();
                true
            },
            Some(MicroOp::ImmZ) => {
                self.z = pins.data;
                self.reg.pc = self.reg.pc.wrapping_add(1);
                false
            },
            Some(MicroOp::ImmW) => {
                self.w = pins.data;
                self.reg.pc = self.reg.pc.wrapping_add(1);
                false
            },
            Some(MicroOp::LoadZ(_)) => {
                self.z = pins.data;
                false
            },
            Some(MicroOp::LoadW(_)) => {
                self.w = pins.data;
                false
            },
            _ => false,
        }
    }
}

/// The HALT bug: an opcode fetch with the bug armed leaves PC where it is,
/// so the byte is read again by the next fetch, and disarms the bug; an
/// ordinary fetch steps PC past the opcode.
pub proof fn lemma_halt_bug_fetch(s: CpuView, data: u8)
    requires
        s.micro.len() > 0,
        s.micro[0] is Fetch,
    ensures
        s.halt_bug ==> completed(s, data).reg.pc == s.reg.pc,
        !s.halt_bug ==> completed(s, data).reg.pc == (s.reg.pc + 1) % 65536,
        !completed(s, data).halt_bug,
        completed(s, data).micro == s.micro.drop_first() + decoded(data),
{
}

/// The HALT bug repeats a byte: with the bug armed and only the opcode
/// fetch queued, fetching a NOP at PC leaves PC there, so the next fetch
/// drives the same address; that fetch, the bug spent, steps PC past it.
pub proof fn lemma_halt_bug_repeats(s: CpuView, pins: Pins, data: u8)
    requires
        s.micro == seq![MicroOp::Fetch],
        s.halt_bug,
    ensures
        completed(s, 0x00).micro == seq![MicroOp::Fetch],
        setup_pins(completed(s, 0x00), pins).address == s.reg.pc,
        setup_pins(completed(s, 0x00), pins).dir == BusDir::Read,
        completed(completed(s, 0x00), data).reg.pc == (s.reg.pc + 1) % 65536,
{
    let s1 = completed(s, 0x00);
    assert(s.micro.drop_first() =~= Seq::<MicroOp>::empty());
    assert(decoded(0x00) =~= seq![MicroOp::Fetch]);
    assert(s1.micro =~= seq![MicroOp::Fetch]);
}

} // verus!
