//! The CPU as a state machine: the state it keeps, what each free effect does
//! to it, and the micro-op program each opcode decodes to.

use super::{Addr, AluOp, Byte, Cond, Effect, MicroOp, RotOp, R16, R16Stk, R8};
use crate::components::alu::{
    add_hl_result, add_sp_e_result, alu_result, bit_result, daa_result, dec8_result, inc8_result,
    res_result, rotate_result, set_result, sign_extend,
};
use crate::components::registers::{high_byte, low_byte, pair, Flags, Registers};
use vstd::prelude::*;

verus! {

/// Everything the CPU holds: the register file, the WZ temporaries, the
/// instruction register, the interrupt and halt latches, and the queue of
/// micro-ops still to run.
#[verifier::ext_equal]
pub struct CpuView {
    pub reg: Registers,
    pub w: u8,
    pub z: u8,
    pub ir: u8,
    pub ime: bool,
    pub ime_pending: bool,
    pub halted: bool,
    pub halt_bug: bool,
    pub oam_glitch: bool,
    pub speed_switch: bool,
    pub micro: Seq<MicroOp>,
}

pub open spec fn get_r8(reg: Registers, r: R8) -> u8 {
    match r {
        R8::A => reg.a,
        R8::B => reg.b,
        R8::C => reg.c,
        R8::D => reg.d,
        R8::E => reg.e,
        R8::H => reg.h,
        R8::L => reg.l,
    }
}

pub open spec fn set_r8(reg: Registers, r: R8, v: u8) -> Registers {
    match r {
        R8::A => Registers { a: v, ..reg },
        R8::B => Registers { b: v, ..reg },
        R8::C => Registers { c: v, ..reg },
        R8::D => Registers { d: v, ..reg },
        R8::E => Registers { e: v, ..reg },
        R8::H => Registers { h: v, ..reg },
        R8::L => Registers { l: v, ..reg },
    }
}

pub open spec fn get_r16(reg: Registers, r: R16) -> u16 {
    match r {
        R16::Bc => reg.bc(),
        R16::De => reg.de(),
        R16::Hl => reg.hl(),
        R16::Sp => reg.sp,
    }
}

pub open spec fn set_r16(reg: Registers, r: R16, v: u16) -> Registers {
    match r {
        R16::Bc => Registers { b: high_byte(v), c: low_byte(v), ..reg },
        R16::De => Registers { d: high_byte(v), e: low_byte(v), ..reg },
        R16::Hl => Registers { h: high_byte(v), l: low_byte(v), ..reg },
        R16::Sp => Registers { sp: v, ..reg },
    }
}

pub open spec fn get_stk16(reg: Registers, r: R16Stk) -> u16 {
    match r {
        R16Stk::Bc => reg.bc(),
        R16Stk::De => reg.de(),
        R16Stk::Hl => reg.hl(),
        R16Stk::Af => reg.af(),
    }
}

/// POP into a stack pair; POP AF drops the low nibble of F.
pub open spec fn set_stk16(reg: Registers, r: R16Stk, v: u16) -> Registers {
    match r {
        R16Stk::Bc => Registers { b: high_byte(v), c: low_byte(v), ..reg },
        R16Stk::De => Registers { d: high_byte(v), e: low_byte(v), ..reg },
        R16Stk::Hl => Registers { h: high_byte(v), l: low_byte(v), ..reg },
        R16Stk::Af => Registers { a: high_byte(v), f: low_byte(v) & 0xF0, ..reg },
    }
}

pub open spec fn cond_holds(reg: Registers, c: Cond) -> bool {
    match c {
        Cond::Nz => !reg.flag(Flags::Z),
        Cond::Z => reg.flag(Flags::Z),
        Cond::Nc => !reg.flag(Flags::C),
        Cond::C => reg.flag(Flags::C),
    }
}

pub open spec fn inc16(v: u16) -> u16 {
    ((v as int + 1) % 65536) as u16
}

pub open spec fn dec16(v: u16) -> u16 {
    ((v as int + 65535) % 65536) as u16
}

/// A 16-bit inc/dec on this address glitches OAM on the DMG.
pub open spec fn in_oam_region(a: u16) -> bool {
    0xFE00 <= a <= 0xFEFF
}

impl CpuView {
    pub open spec fn wz(self) -> u16 {
        pair(self.w, self.z)
    }

    pub open spec fn address(self, a: Addr) -> u16 {
        match a {
            Addr::Bc => self.reg.bc(),
            Addr::De => self.reg.de(),
            Addr::Hl => self.reg.hl(),
            Addr::HighZ => (0xFF00 + self.z) as u16,
            Addr::HighC => (0xFF00 + self.reg.c) as u16,
            Addr::Wz => self.wz(),
            Addr::Sp => self.reg.sp,
        }
    }

    pub open spec fn byte(self, b: Byte) -> u8 {
        match b {
            Byte::Reg(r) => get_r8(self.reg, r),
            Byte::Z => self.z,
            Byte::PcHigh => high_byte(self.reg.pc),
            Byte::PcLow => low_byte(self.reg.pc),
            Byte::SpHigh => high_byte(self.reg.sp),
            Byte::SpLow => low_byte(self.reg.sp),
            Byte::StkHigh(r) => high_byte(get_stk16(self.reg, r)),
            Byte::StkLow(r) => low_byte(get_stk16(self.reg, r)),
        }
    }

    pub open spec fn with_reg(self, reg: Registers) -> CpuView {
        CpuView { reg, ..self }
    }

    pub open spec fn with_micro(self, micro: Seq<MicroOp>) -> CpuView {
        CpuView { micro, ..self }
    }
}

/// A conditional call's taken path: push PC and jump to WZ.
pub open spec fn call_taken() -> Seq<MicroOp> {
    seq![
        MicroOp::Internal,
        MicroOp::Exec(Effect::SpDec),
        MicroOp::Store(Addr::Sp, Byte::PcHigh),
        MicroOp::Exec(Effect::SpDec),
        MicroOp::Store(Addr::Sp, Byte::PcLow),
        MicroOp::Exec(Effect::SetPcWz),
    ]
}

/// A conditional return's taken path: pop WZ and jump to it.
pub open spec fn ret_taken() -> Seq<MicroOp> {
    seq![
        MicroOp::LoadZ(Addr::Sp),
        MicroOp::Exec(Effect::SpInc),
        MicroOp::LoadW(Addr::Sp),
        MicroOp::Exec(Effect::SpInc),
        MicroOp::Internal,
        MicroOp::Exec(Effect::SetPcWz),
    ]
}

/// Interrupt dispatch: three internal cycles, push PC, jump to the vector.
pub open spec fn dispatch_program(vector: u16) -> Seq<MicroOp> {
    seq![
        MicroOp::Internal,
        MicroOp::Internal,
        MicroOp::Internal,
        MicroOp::Exec(Effect::SpDec),
        MicroOp::Store(Addr::Sp, Byte::PcHigh),
        MicroOp::Exec(Effect::SpDec),
        MicroOp::Store(Addr::Sp, Byte::PcLow),
        MicroOp::Exec(Effect::SetPc(vector)),
        MicroOp::Fetch,
    ]
}

/// What one free effect does to the CPU (the effect already taken off the
/// queue).
pub open spec fn effect_result(s: CpuView, e: Effect) -> CpuView {
    let reg = s.reg;
    match e {
        Effect::LdR(d, src) => s.with_reg(set_r8(reg, d, get_r8(reg, src))),
        Effect::LdRZ(d) => s.with_reg(set_r8(reg, d, s.z)),
        Effect::Alu(op, r) => s.with_reg(alu_result(reg, op, get_r8(reg, r))),
        Effect::AluZ(op) => s.with_reg(alu_result(reg, op, s.z)),
        Effect::IncR(r) => {
            let (flagged, v) = inc8_result(reg, get_r8(reg, r));
            s.with_reg(set_r8(flagged, r, v))
        },
        Effect::DecR(r) => {
            let (flagged, v) = dec8_result(reg, get_r8(reg, r));
            s.with_reg(set_r8(flagged, r, v))
        },
        Effect::IncZ => {
            let (flagged, v) = inc8_result(reg, s.z);
            CpuView { reg: flagged, z: v, ..s }
        },
        Effect::DecZ => {
            let (flagged, v) = dec8_result(reg, s.z);
            CpuView { reg: flagged, z: v, ..s }
        },
        Effect::Inc16(r) => {
            let v = get_r16(reg, r);
            CpuView { reg: set_r16(reg, r, inc16(v)), oam_glitch: s.oam_glitch || in_oam_region(v), ..s }
        },
        Effect::Dec16(r) => {
            let v = get_r16(reg, r);
            CpuView { reg: set_r16(reg, r, dec16(v)), oam_glitch: s.oam_glitch || in_oam_region(v), ..s }
        },
        Effect::AddHl(r) => s.with_reg(add_hl_result(reg, get_r16(reg, r))),
        Effect::AccRot(op) => {
            let (flagged, v) = rotate_result(reg, op, reg.a);
            s.with_reg(Registers { a: v, ..flagged }.with_flag(Flags::Z, false))
        },
        Effect::Rot(op, r) => {
            let (flagged, v) = rotate_result(reg, op, get_r8(reg, r));
            s.with_reg(set_r8(flagged, r, v))
        },
        Effect::RotZ(op) => {
            let (flagged, v) = rotate_result(reg, op, s.z);
            CpuView { reg: flagged, z: v, ..s }
        },
        Effect::Bit(n, r) => s.with_reg(bit_result(reg, n, get_r8(reg, r))),
        Effect::BitZ(n) => s.with_reg(bit_result(reg, n, s.z)),
        Effect::Res(n, r) => s.with_reg(set_r8(reg, r, res_result(n, get_r8(reg, r)))),
        Effect::ResZ(n) => CpuView { z: res_result(n, s.z), ..s },
        Effect::SetBit(n, r) => s.with_reg(set_r8(reg, r, set_result(n, get_r8(reg, r)))),
        Effect::SetZ(n) => CpuView { z: set_result(n, s.z), ..s },
        Effect::Daa => s.with_reg(daa_result(reg)),
        Effect::Cpl => s.with_reg(
            Registers { a: (255 - reg.a) as u8, ..reg }.with_flag(Flags::N, true).with_flag(Flags::H, true),
        ),
        Effect::Scf => s.with_reg(
            reg.with_flag(Flags::N, false).with_flag(Flags::H, false).with_flag(Flags::C, true),
        ),
        Effect::Ccf => s.with_reg(
            reg.with_flag(Flags::N, false).with_flag(Flags::H, false).with_flag(Flags::C, !reg.flag(Flags::C)),
        ),
        Effect::LdRpWz(r) => s.with_reg(set_r16(reg, r, s.wz())),
        Effect::SetStkWz(r) => s.with_reg(set_stk16(reg, r, s.wz())),
        Effect::SetPcWz => s.with_reg(Registers { pc: s.wz(), ..reg }),
        Effect::SetPcHl => s.with_reg(Registers { pc: reg.hl(), ..reg }),
        Effect::SetPc(v) => s.with_reg(Registers { pc: v, ..reg }),
        Effect::JrZ => s.with_reg(
            Registers { pc: ((reg.pc as int + sign_extend(s.z) as int) % 65536) as u16, ..reg },
        ),
        Effect::SpDec => CpuView {
            reg: Registers { sp: dec16(reg.sp), ..reg },
            oam_glitch: s.oam_glitch || in_oam_region(reg.sp),
            ..s
        },
        Effect::SpInc => CpuView {
            reg: Registers { sp: inc16(reg.sp), ..reg },
            oam_glitch: s.oam_glitch || in_oam_region(reg.sp),
            ..s
        },
        Effect::WzInc => {
            let v = inc16(s.wz());
            CpuView { w: high_byte(v), z: low_byte(v), ..s }
        },
        Effect::LdSpHl => s.with_reg(Registers { sp: reg.hl(), ..reg }),
        Effect::AddSpE => {
            let (flagged, v) = add_sp_e_result(reg, s.z);
            s.with_reg(Registers { sp: v, ..flagged })
        },
        Effect::LdHlSpE => {
            let (flagged, v) = add_sp_e_result(reg, s.z);
            s.with_reg(Registers { h: high_byte(v), l: low_byte(v), ..flagged })
        },
        Effect::Ei => CpuView { ime_pending: true, ..s },
        Effect::Di => CpuView { ime: false, ime_pending: false, ..s },
        Effect::Reti => CpuView { reg: Registers { pc: s.wz(), ..reg }, ime: true, ..s },
        Effect::Halt => CpuView { halted: true, ..s },
        Effect::Stop => CpuView { speed_switch: true, ..s },
        Effect::DecodeCb => s.with_micro(s.micro + decoded_cb(s.z)),
        Effect::BranchRel(c) => if cond_holds(reg, c) {
            s.with_micro(seq![MicroOp::Internal, MicroOp::Exec(Effect::JrZ)] + s.micro)
        } else {
            s
        },
        Effect::JpCc(c) => if cond_holds(reg, c) {
            s.with_micro(seq![MicroOp::Internal, MicroOp::Exec(Effect::SetPcWz)] + s.micro)
        } else {
            s
        },
        Effect::CallCc(c) => if cond_holds(reg, c) {
            s.with_micro(call_taken() + s.micro)
        } else {
            s
        },
        Effect::RetCc(c) => if cond_holds(reg, c) {
            s.with_micro(ret_taken() + s.micro)
        } else {
            s
        },
    }
}

/// The register named by a 3-bit operand field (6 is (HL), not a register).
pub open spec fn r8_index(i: int) -> R8 {
    if i == 0 {
        R8::B
    } else if i == 1 {
        R8::C
    } else if i == 2 {
        R8::D
    } else if i == 3 {
        R8::E
    } else if i == 4 {
        R8::H
    } else if i == 5 {
        R8::L
    } else {
        R8::A
    }
}

pub open spec fn rp_index(p: int) -> R16 {
    if p == 0 {
        R16::Bc
    } else if p == 1 {
        R16::De
    } else if p == 2 {
        R16::Hl
    } else {
        R16::Sp
    }
}

pub open spec fn rp2_index(p: int) -> R16Stk {
    if p == 0 {
        R16Stk::Bc
    } else if p == 1 {
        R16Stk::De
    } else if p == 2 {
        R16Stk::Hl
    } else {
        R16Stk::Af
    }
}

pub open spec fn cc_index(y: int) -> Cond {
    if y == 0 {
        Cond::Nz
    } else if y == 1 {
        Cond::Z
    } else if y == 2 {
        Cond::Nc
    } else {
        Cond::C
    }
}

pub open spec fn alu_index(y: int) -> AluOp {
    if y == 0 {
        AluOp::Add
    } else if y == 1 {
        AluOp::Adc
    } else if y == 2 {
        AluOp::Sub
    } else if y == 3 {
        AluOp::Sbc
    } else if y == 4 {
        AluOp::And
    } else if y == 5 {
        AluOp::Xor
    } else if y == 6 {
        AluOp::Or
    } else {
        AluOp::Cp
    }
}

pub open spec fn rot_index(y: int) -> RotOp {
    if y == 0 {
        RotOp::Rlc
    } else if y == 1 {
        RotOp::Rrc
    } else if y == 2 {
        RotOp::Rl
    } else if y == 3 {
        RotOp::Rr
    } else if y == 4 {
        RotOp::Sla
    } else if y == 5 {
        RotOp::Sra
    } else if y == 6 {
        RotOp::Swap
    } else {
        RotOp::Srl
    }
}

/// The eleven opcodes the SM83 does not define (the CPU locks up on them).
pub open spec fn illegal_opcode(op: u8) -> bool {
    let x = op / 64;
    let y = (op / 8) % 8;
    let z = op % 8;
    x == 3 && ((z == 3 && 2 <= y <= 5) || (z == 4 && y >= 4) || (z == 5 && y % 2 == 1 && y / 2 != 0))
}

/// Micro-ops of an unprefixed opcode with x = 0.
pub open spec fn decoded_x0(y: int, z: int, p: int, q: int) -> Seq<MicroOp> {
    if z == 0 {
        if y == 0 {
            seq![]
        } else if y == 1 {
            seq![
                MicroOp::ImmZ,
                MicroOp::ImmW,
                MicroOp::Store(Addr::Wz, Byte::SpLow),
                MicroOp::Exec(Effect::WzInc),
                MicroOp::Store(Addr::Wz, Byte::SpHigh),
            ]
        } else if y == 2 {
            seq![MicroOp::ImmZ, MicroOp::Exec(Effect::Stop)]
        } else if y == 3 {
            seq![MicroOp::ImmZ, MicroOp::Internal, MicroOp::Exec(Effect::JrZ)]
        } else {
            seq![MicroOp::ImmZ, MicroOp::Exec(Effect::BranchRel(cc_index(y - 4)))]
        }
    } else if z == 1 {
        if q == 0 {
            seq![MicroOp::ImmZ, MicroOp::ImmW, MicroOp::Exec(Effect::LdRpWz(rp_index(p)))]
        } else {
            seq![MicroOp::Internal, MicroOp::Exec(Effect::AddHl(rp_index(p)))]
        }
    } else if z == 2 {
        if q == 0 {
            if p == 0 {
                seq![MicroOp::Store(Addr::Bc, Byte::Reg(R8::A))]
            } else if p == 1 {
                seq![MicroOp::Store(Addr::De, Byte::Reg(R8::A))]
            } else if p == 2 {
                seq![MicroOp::Store(Addr::Hl, Byte::Reg(R8::A)), MicroOp::Exec(Effect::Inc16(R16::Hl))]
            } else {
                seq![MicroOp::Store(Addr::Hl, Byte::Reg(R8::A)), MicroOp::Exec(Effect::Dec16(R16::Hl))]
            }
        } else {
            if p == 0 {
                seq![MicroOp::LoadZ(Addr::Bc), MicroOp::Exec(Effect::LdRZ(R8::A))]
            } else if p == 1 {
                seq![MicroOp::LoadZ(Addr::De), MicroOp::Exec(Effect::LdRZ(R8::A))]
            } else if p == 2 {
                seq![
                    MicroOp::LoadZ(Addr::Hl),
                    MicroOp::Exec(Effect::LdRZ(R8::A)),
                    MicroOp::Exec(Effect::Inc16(R16::Hl)),
                ]
            } else {
                seq![
                    MicroOp::LoadZ(Addr::Hl),
                    MicroOp::Exec(Effect::LdRZ(R8::A)),
                    MicroOp::Exec(Effect::Dec16(R16::Hl)),
                ]
            }
        }
    } else if z == 3 {
        if q == 0 {
            seq![MicroOp::Internal, MicroOp::Exec(Effect::Inc16(rp_index(p)))]
        } else {
            seq![MicroOp::Internal, MicroOp::Exec(Effect::Dec16(rp_index(p)))]
        }
    } else if z == 4 {
        if y == 6 {
            seq![MicroOp::LoadZ(Addr::Hl), MicroOp::Exec(Effect::IncZ), MicroOp::Store(Addr::Hl, Byte::Z)]
        } else {
            seq![MicroOp::Exec(Effect::IncR(r8_index(y)))]
        }
    } else if z == 5 {
        if y == 6 {
            seq![MicroOp::LoadZ(Addr::Hl), MicroOp::Exec(Effect::DecZ), MicroOp::Store(Addr::Hl, Byte::Z)]
        } else {
            seq![MicroOp::Exec(Effect::DecR(r8_index(y)))]
        }
    } else if z == 6 {
        if y == 6 {
            seq![MicroOp::ImmZ, MicroOp::Store(Addr::Hl, Byte::Z)]
        } else {
            seq![MicroOp::ImmZ, MicroOp::Exec(Effect::LdRZ(r8_index(y)))]
        }
    } else {
        seq![
            MicroOp::Exec(
                if y == 0 {
                    Effect::AccRot(RotOp::Rlc)
                } else if y == 1 {
                    Effect::AccRot(RotOp::Rrc)
                } else if y == 2 {
                    Effect::AccRot(RotOp::Rl)
                } else if y == 3 {
                    Effect::AccRot(RotOp::Rr)
                } else if y == 4 {
                    Effect::Daa
                } else if y == 5 {
                    Effect::Cpl
                } else if y == 6 {
                    Effect::Scf
                } else {
                    Effect::Ccf
                },
            ),
        ]
    }
}

/// Micro-ops of an unprefixed opcode with x = 1 (8-bit loads and HALT).
pub open spec fn decoded_x1(y: int, z: int) -> Seq<MicroOp> {
    if y == 6 && z == 6 {
        seq![MicroOp::Exec(Effect::Halt)]
    } else if z == 6 {
        seq![MicroOp::LoadZ(Addr::Hl), MicroOp::Exec(Effect::LdRZ(r8_index(y)))]
    } else if y == 6 {
        seq![MicroOp::Store(Addr::Hl, Byte::Reg(r8_index(z)))]
    } else {
        seq![MicroOp::Exec(Effect::LdR(r8_index(y), r8_index(z)))]
    }
}

/// Micro-ops of an unprefixed opcode with x = 2 (accumulator arithmetic).
pub open spec fn decoded_x2(y: int, z: int) -> Seq<MicroOp> {
    if z == 6 {
        seq![MicroOp::LoadZ(Addr::Hl), MicroOp::Exec(Effect::AluZ(alu_index(y)))]
    } else {
        seq![MicroOp::Exec(Effect::Alu(alu_index(y), r8_index(z)))]
    }
}

/// Micro-ops of an unprefixed opcode with x = 3 (control flow, stack,
/// immediate arithmetic, high-page loads).
pub open spec fn decoded_x3(y: int, z: int, p: int, q: int) -> Seq<MicroOp> {
    if z == 0 {
        if y <= 3 {
            seq![MicroOp::Internal, MicroOp::Exec(Effect::RetCc(cc_index(y)))]
        } else if y == 4 {
            seq![MicroOp::ImmZ, MicroOp::Store(Addr::HighZ, Byte::Reg(R8::A))]
        } else if y == 5 {
            seq![MicroOp::ImmZ, MicroOp::Internal, MicroOp::Internal, MicroOp::Exec(Effect::AddSpE)]
        } else if y == 6 {
            seq![MicroOp::ImmZ, MicroOp::LoadZ(Addr::HighZ), MicroOp::Exec(Effect::LdRZ(R8::A))]
        } else {
            seq![MicroOp::ImmZ, MicroOp::Internal, MicroOp::Exec(Effect::LdHlSpE)]
        }
    } else if z == 1 {
        if q == 0 {
            seq![
                MicroOp::LoadZ(Addr::Sp),
                MicroOp::Exec(Effect::SpInc),
                MicroOp::LoadW(Addr::Sp),
                MicroOp::Exec(Effect::SpInc),
                MicroOp::Exec(Effect::SetStkWz(rp2_index(p))),
            ]
        } else if p == 0 {
            seq![
                MicroOp::LoadZ(Addr::Sp),
                MicroOp::Exec(Effect::SpInc),
                MicroOp::LoadW(Addr::Sp),
                MicroOp::Exec(Effect::SpInc),
                MicroOp::Internal,
                MicroOp::Exec(Effect::SetPcWz),
            ]
        } else if p == 1 {
            seq![
                MicroOp::LoadZ(Addr::Sp),
                MicroOp::Exec(Effect::SpInc),
                MicroOp::LoadW(Addr::Sp),
                MicroOp::Exec(Effect::SpInc),
                MicroOp::Internal,
                MicroOp::Exec(Effect::Reti),
            ]
        } else if p == 2 {
            seq![MicroOp::Exec(Effect::SetPcHl)]
        } else {
            seq![MicroOp::Internal, MicroOp::Exec(Effect::LdSpHl)]
        }
    } else if z == 2 {
        if y <= 3 {
            seq![MicroOp::ImmZ, MicroOp::ImmW, MicroOp::Exec(Effect::JpCc(cc_index(y)))]
        } else if y == 4 {
            seq![MicroOp::Store(Addr::HighC, Byte::Reg(R8::A))]
        } else if y == 5 {
            seq![MicroOp::ImmZ, MicroOp::ImmW, MicroOp::Store(Addr::Wz, Byte::Reg(R8::A))]
        } else if y == 6 {
            seq![MicroOp::LoadZ(Addr::HighC), MicroOp::Exec(Effect::LdRZ(R8::A))]
        } else {
            seq![MicroOp::ImmZ, MicroOp::ImmW, MicroOp::LoadZ(Addr::Wz), MicroOp::Exec(Effect::LdRZ(R8::A))]
        }
    } else if z == 3 {
        if y == 0 {
            seq![MicroOp::ImmZ, MicroOp::ImmW, MicroOp::Internal, MicroOp::Exec(Effect::SetPcWz)]
        } else if y == 6 {
            seq![MicroOp::Exec(Effect::Di)]
        } else {
            seq![MicroOp::Exec(Effect::Ei)]
        }
    } else if z == 4 {
        seq![MicroOp::ImmZ, MicroOp::ImmW, MicroOp::Exec(Effect::CallCc(cc_index(y)))]
    } else if z == 5 {
        if q == 0 {
            seq![
                MicroOp::Internal,
                MicroOp::Exec(Effect::SpDec),
                MicroOp::Store(Addr::Sp, Byte::StkHigh(rp2_index(p))),
                MicroOp::Exec(Effect::SpDec),
                MicroOp::Store(Addr::Sp, Byte::StkLow(rp2_index(p))),
            ]
        } else {
            seq![
                MicroOp::ImmZ,
                MicroOp::ImmW,
                MicroOp::Internal,
                MicroOp::Exec(Effect::SpDec),
                MicroOp::Store(Addr::Sp, Byte::PcHigh),
                MicroOp::Exec(Effect::SpDec),
                MicroOp::Store(Addr::Sp, Byte::PcLow),
                MicroOp::Exec(Effect::SetPcWz),
            ]
        }
    } else if z == 6 {
        seq![MicroOp::ImmZ, MicroOp::Exec(Effect::AluZ(alu_index(y)))]
    } else {
        seq![
            MicroOp::Internal,
            MicroOp::Exec(Effect::SpDec),
            MicroOp::Store(Addr::Sp, Byte::PcHigh),
            MicroOp::Exec(Effect::SpDec),
            MicroOp::Store(Addr::Sp, Byte::PcLow),
            MicroOp::Exec(Effect::SetPc((y * 8) as u16)),
        ]
    }
}

/// The micro-op program an unprefixed opcode decodes to. The CB prefix
/// fetches its second byte and decodes it as a free effect; every other
/// opcode ends with the fetch of the next one.
pub open spec fn decoded(op: u8) -> Seq<MicroOp> {
    if op == 0xCB {
        seq![MicroOp::ImmZ, MicroOp::Exec(Effect::DecodeCb)]
    } else {
        let x = op / 64;
        let y = (op / 8) % 8;
        let z = op % 8;
        let body = if x == 0 {
            decoded_x0(y as int, z as int, (y / 2) as int, (y % 2) as int)
        } else if x == 1 {
            decoded_x1(y as int, z as int)
        } else if x == 2 {
            decoded_x2(y as int, z as int)
        } else {
            decoded_x3(y as int, z as int, (y / 2) as int, (y % 2) as int)
        };
        body.push(MicroOp::Fetch)
    }
}

/// The micro-op program of a CB-prefixed opcode, ending with the next fetch.
pub open spec fn decoded_cb(op: u8) -> Seq<MicroOp> {
    let x = op / 64;
    let y = (op / 8) % 8;
    let z = op % 8;
    let body = if z == 6 {
        if x == 0 {
            seq![
                MicroOp::LoadZ(Addr::Hl),
                MicroOp::Exec(Effect::RotZ(rot_index(y as int))),
                MicroOp::Store(Addr::Hl, Byte::Z),
            ]
        } else if x == 1 {
            seq![MicroOp::LoadZ(Addr::Hl), MicroOp::Exec(Effect::BitZ(y))]
        } else if x == 2 {
            seq![MicroOp::LoadZ(Addr::Hl), MicroOp::Exec(Effect::ResZ(y)), MicroOp::Store(Addr::Hl, Byte::Z)]
        } else {
            seq![MicroOp::LoadZ(Addr::Hl), MicroOp::Exec(Effect::SetZ(y)), MicroOp::Store(Addr::Hl, Byte::Z)]
        }
    } else {
        let r = r8_index(z as int);
        if x == 0 {
            seq![MicroOp::Exec(Effect::Rot(rot_index(y as int), r))]
        } else if x == 1 {
            seq![MicroOp::Exec(Effect::Bit(y, r))]
        } else if x == 2 {
            seq![MicroOp::Exec(Effect::Res(y, r))]
        } else {
            seq![MicroOp::Exec(Effect::SetBit(y, r))]
        }
    };
    body.push(MicroOp::Fetch)
}

/// Bit operations name a bit of a byte.
pub open spec fn effect_wf(e: Effect) -> bool {
    match e {
        Effect::Bit(n, _) | Effect::BitZ(n) | Effect::Res(n, _) | Effect::ResZ(n) | Effect::SetBit(n, _) | Effect::SetZ(
            n,
        ) => n < 8,
        _ => true,
    }
}

pub open spec fn queue_wf(q: Seq<MicroOp>) -> bool {
    forall|i: int| 0 <= i < q.len() ==> (#[trigger] q[i] is Exec ==> effect_wf(q[i]->Exec_0))
}

/// The CPU's standing invariant: F holds only flags and every queued bit
/// operation names a bit of a byte.
pub open spec fn cpu_wf(s: CpuView) -> bool {
    s.reg.flags_clean() && queue_wf(s.micro)
}

/// How many CB decodes are still queued.
pub open spec fn cb_pending(q: Seq<MicroOp>) -> nat
    decreases q.len(),
{
    if q.len() == 0 {
        0
    } else {
        (if q[0] == MicroOp::Exec(Effect::DecodeCb) { 1nat } else { 0nat }) + cb_pending(q.drop_first())
    }
}

/// How many free effects stand at the head of the queue.
pub open spec fn leading_effects(q: Seq<MicroOp>) -> nat
    decreases q.len(),
{
    if q.len() > 0 && q[0] is Exec {
        1 + leading_effects(q.drop_first())
    } else {
        0
    }
}

pub proof fn lemma_cb_pending_concat(a: Seq<MicroOp>, b: Seq<MicroOp>)
    ensures
        cb_pending(a + b) == cb_pending(a) + cb_pending(b),
    decreases a.len(),
{
    if a.len() == 0 {
        assert(a + b =~= b);
    } else {
        assert((a + b).drop_first() =~= a.drop_first() + b);
        lemma_cb_pending_concat(a.drop_first(), b);
    }
}

pub proof fn lemma_cb_free(q: Seq<MicroOp>)
    requires
        forall|i: int| 0 <= i < q.len() ==> q[i] != MicroOp::Exec(Effect::DecodeCb),
    ensures
        cb_pending(q) == 0,
    decreases q.len(),
{
    if q.len() > 0 {
        lemma_cb_free(q.drop_first());
    }
}

/// Running one free effect from the head of the queue either retires a queued
/// CB decode, or shrinks the run of effects at the head (an effect that
/// inserts cycles inserts them ahead of its own follow-up effect).
pub proof fn lemma_effect_progress(s: CpuView)
    requires
        s.micro.len() > 0,
        s.micro[0] is Exec,
    ensures
        ({
            let next = effect_result(s.with_micro(s.micro.drop_first()), s.micro[0]->Exec_0);
            ||| cb_pending(next.micro) < cb_pending(s.micro)
            ||| (cb_pending(next.micro) == cb_pending(s.micro) && leading_effects(next.micro)
                < leading_effects(s.micro))
        }),
{
    let e = s.micro[0]->Exec_0;
    let rest = s.micro.drop_first();
    let t = s.with_micro(rest);
    let next = effect_result(t, e);
    assert(cb_pending(s.micro) == (if e == Effect::DecodeCb { 1nat } else { 0nat }) + cb_pending(rest));
    assert(leading_effects(s.micro) == 1 + leading_effects(rest));
    match e {
        Effect::DecodeCb => {
            let added = decoded_cb(s.z);
            lemma_cb_pending_concat(rest, added);
            lemma_cb_free(added);
        },
        Effect::BranchRel(c) => {
            if cond_holds(s.reg, c) {
                let pre = seq![MicroOp::Internal, MicroOp::Exec(Effect::JrZ)];
                lemma_cb_pending_concat(pre, rest);
                lemma_cb_free(pre);
            }
        },
        Effect::JpCc(c) => {
            if cond_holds(s.reg, c) {
                let pre = seq![MicroOp::Internal, MicroOp::Exec(Effect::SetPcWz)];
                lemma_cb_pending_concat(pre, rest);
                lemma_cb_free(pre);
            }
        },
        Effect::CallCc(c) => {
            if cond_holds(s.reg, c) {
                lemma_cb_pending_concat(call_taken(), rest);
                lemma_cb_free(call_taken());
            }
        },
        Effect::RetCc(c) => {
            if cond_holds(s.reg, c) {
                lemma_cb_pending_concat(ret_taken(), rest);
                lemma_cb_free(ret_taken());
            }
        },
        _ => {},
    }
}

/// The CPU after all free effects at the head of the queue have run, in
/// order (including those a CB decode appends).
pub open spec fn drained(s: CpuView) -> CpuView
    decreases cb_pending(s.micro), leading_effects(s.micro),
{
    if s.micro.len() > 0 && s.micro[0] is Exec {
        proof {
            lemma_effect_progress(s);
        }
        drained(effect_result(s.with_micro(s.micro.drop_first()), s.micro[0]->Exec_0))
    } else {
        s
    }
}

} // verus!

verus! {

pub proof fn lemma_queue_wf_concat(a: Seq<MicroOp>, b: Seq<MicroOp>)
    requires
        queue_wf(a),
        queue_wf(b),
    ensures
        queue_wf(a + b),
{
    assert forall|i: int| 0 <= i < (a + b).len() implies (#[trigger] (a + b)[i] is Exec ==> effect_wf(
        (a + b)[i]->Exec_0,
    )) by {
        if i < a.len() {
            assert((a + b)[i] == a[i]);
        } else {
            assert((a + b)[i] == b[i - a.len()]);
        }
    }
}

pub proof fn lemma_queue_wf_drop_first(a: Seq<MicroOp>)
    requires
        queue_wf(a),
        a.len() > 0,
    ensures
        queue_wf(a.drop_first()),
{
    assert forall|i: int| 0 <= i < a.drop_first().len() implies (#[trigger] a.drop_first()[i] is Exec
        ==> effect_wf(a.drop_first()[i]->Exec_0)) by {
        assert(a.drop_first()[i] == a[i + 1]);
    }
}

/// A queue none of whose effects is a bit operation is well formed.
pub proof fn lemma_queue_wf_no_bits(a: Seq<MicroOp>)
    requires
        forall|i: int|
            0 <= i < a.len() ==> !(#[trigger] a[i] matches MicroOp::Exec(e) && (e is Bit || e is BitZ || e is Res
                || e is ResZ || e is SetBit || e is SetZ)),
    ensures
        queue_wf(a),
{
}

pub proof fn lemma_decoded_wf(op: u8)
    ensures
        queue_wf(decoded(op)),
{
    let q = decoded(op);
    assert forall|i: int| 0 <= i < q.len() implies !(#[trigger] q[i] matches MicroOp::Exec(e) && (e is Bit
        || e is BitZ || e is Res || e is ResZ || e is SetBit || e is SetZ)) by {}
    lemma_queue_wf_no_bits(q);
}

pub proof fn lemma_decoded_cb_wf(op: u8)
    ensures
        queue_wf(decoded_cb(op)),
{
    assert((op / 8) % 8 < 8);
}

/// Running a free effect keeps the CPU's invariant on the queue.
pub proof fn lemma_effect_keeps_queue_wf(s: CpuView, e: Effect)
    requires
        queue_wf(s.micro),
    ensures
        queue_wf(effect_result(s, e).micro),
{
    match e {
        Effect::DecodeCb => {
            lemma_decoded_cb_wf(s.z);
            lemma_queue_wf_concat(s.micro, decoded_cb(s.z));
        },
        Effect::BranchRel(c) => {
            lemma_queue_wf_concat(seq![MicroOp::Internal, MicroOp::Exec(Effect::JrZ)], s.micro);
        },
        Effect::JpCc(c) => {
            lemma_queue_wf_concat(seq![MicroOp::Internal, MicroOp::Exec(Effect::SetPcWz)], s.micro);
        },
        Effect::CallCc(c) => {
            lemma_queue_wf_concat(call_taken(), s.micro);
        },
        Effect::RetCc(c) => {
            lemma_queue_wf_concat(ret_taken(), s.micro);
        },
        _ => {},
    }
}

} // verus!
