//! The operand and operation tables of the SM83 opcode map.

pub use crate::hw::cpu::{AluOp, Cond, RotOp, R16, R16Stk, R8};
use crate::hw::cpu::program::{alu_index, cc_index, r8_index, rot_index, rp2_index, rp_index};
use vstd::prelude::*;

verus! {

/// The 8-bit register a 3-bit operand field names; 6 names (HL), which is
/// no register.
pub fn r8_of(idx: u8) -> (r: R8)
    requires
        idx < 8,
        idx != 6,
    ensures
        r == r8_index(idx as int),
{
    match idx {
        0 => R8::B,
        1 => R8::C,
        2 => R8::D,
        3 => R8::E,
        4 => R8::H,
        5 => R8::L,
        _ => R8::A,
    }
}

/// The register pair of a 2-bit field in loads and 16-bit arithmetic.
pub fn rp_of(p: u8) -> (r: R16)
    ensures
        r == rp_index(p as int),
{
    match p {
        0 => R16::Bc,
        1 => R16::De,
        2 => R16::Hl,
        _ => R16::Sp,
    }
}

/// The register pair of a 2-bit field in PUSH and POP.
pub fn rp2_of(p: u8) -> (r: R16Stk)
    ensures
        r == rp2_index(p as int),
{
    match p {
        0 => R16Stk::Bc,
        1 => R16Stk::De,
        2 => R16Stk::Hl,
        _ => R16Stk::Af,
    }
}

/// The branch condition of a 2-bit field.
pub fn cc_of(y: u8) -> (r: Cond)
    ensures
        r == cc_index(y as int),
{
    match y {
        0 => Cond::Nz,
        1 => Cond::Z,
        2 => Cond::Nc,
        _ => Cond::C,
    }
}

/// The accumulator operation of a 3-bit field.
pub fn alu_of(y: u8) -> (r: AluOp)
    ensures
        r == alu_index(y as int),
{
    match y {
        0 => AluOp::Add,
        1 => AluOp::Adc,
        2 => AluOp::Sub,
        3 => AluOp::Sbc,
        4 => AluOp::And,
        5 => AluOp::Xor,
        6 => AluOp::Or,
        _ => AluOp::Cp,
    }
}

/// The shift or rotate of a 3-bit field.
pub fn rot_of(y: u8) -> (r: RotOp)
    ensures
        r == rot_index(y as int),
{
    match y {
        0 => RotOp::Rlc,
        1 => RotOp::Rrc,
        2 => RotOp::Rl,
        3 => RotOp::Rr,
        4 => RotOp::Sla,
        5 => RotOp::Sra,
        6 => RotOp::Swap,
        _ => RotOp::Srl,
    }
}

} // verus!
