//! The instruction-at-a-time interpreter as a state machine: what one
//! instruction (opcode and operands read from memory) does to the registers,
//! the memory and the interrupt latches, and how many M-cycles it takes.

use crate::components::alu::{
    add_hl_result, add_sp_e_result, alu_result, bit_result, daa_result, dec8_result, inc8_result,
    res_result, rotate_result, set_result, sign_extend,
};
use crate::components::registers::{high_byte, lemma_split, low_byte, pair, Flags, Registers};
use crate::hw::cpu::program::{
    alu_index, cc_index, cond_holds, get_r16, get_r8, r8_index, rot_index, rp2_index, rp_index,
    set_r16, set_r8, set_stk16,
};
use crate::hw::cpu::RotOp;
use crate::memory::Memory;
use vstd::std_specs::bits::{axiom_u8_trailing_zeros, u8_trailing_zeros};
use vstd::prelude::*;

verus! {

/// The interpreter's state, with the memory seen through its view.
pub struct CpuState<V> {
    pub reg: Registers,
    pub mem: V,
    pub halted: bool,
    pub ime: bool,
    pub ime_ask: bool,
}

impl<V> CpuState<V> {
    pub open spec fn with_reg(self, reg: Registers) -> CpuState<V> {
        CpuState { reg, ..self }
    }

    pub open spec fn with_mem(self, mem: V) -> CpuState<V> {
        CpuState { mem, ..self }
    }

    pub open spec fn with_pc(self, pc: int) -> CpuState<V> {
        CpuState { reg: Registers { pc: (pc % 65536) as u16, ..self.reg }, ..self }
    }
}

/// Every access to the space is served, whatever the memory's state.
pub open spec fn total<M: Memory>() -> bool {
    &&& forall|m: M::V, a: u16| #[trigger] M::readable(m, a)
    &&& forall|m: M::V, a: u16, v: u8| #[trigger] M::writable(m, a, v)
}

/// Read the byte at PC and step past it.
pub open spec fn fetch8<M: Memory>(s: CpuState<M::V>) -> (CpuState<M::V>, u8) {
    (s.with_pc(s.reg.pc + 1), M::peek(s.mem, s.reg.pc))
}

/// Read the little-endian word at PC and step past it.
pub open spec fn fetch16<M: Memory>(s: CpuState<M::V>) -> (CpuState<M::V>, u16) {
    (
        s.with_pc(s.reg.pc + 2),
        pair(M::peek(s.mem, (s.reg.pc + 1) as u16), M::peek(s.mem, s.reg.pc)),
    )
}

/// SP -= 2, then the word goes to [SP] (low) and [SP + 1] (high).
pub open spec fn push16<M: Memory>(s: CpuState<M::V>, v: u16) -> CpuState<M::V> {
    let sp = ((s.reg.sp + 65534) % 65536) as u16;
    CpuState {
        reg: Registers { sp, ..s.reg },
        mem: M::poke(M::poke(s.mem, sp, low_byte(v)), (sp + 1) as u16, high_byte(v)),
        ..s
    }
}

/// The word at [SP], then SP += 2.
pub open spec fn pop16<M: Memory>(s: CpuState<M::V>) -> (CpuState<M::V>, u16) {
    (
        CpuState { reg: Registers { sp: (s.reg.sp + 2) as u16, ..s.reg }, ..s },
        pair(M::peek(s.mem, (s.reg.sp + 1) as u16), M::peek(s.mem, s.reg.sp)),
    )
}

/// The 3-bit operand field: a register, or (HL) for 6.
pub open spec fn operand<M: Memory>(s: CpuState<M::V>, i: int) -> u8 {
    if i == 6 {
        M::peek(s.mem, s.reg.hl())
    } else {
        get_r8(s.reg, r8_index(i))
    }
}

pub open spec fn store<M: Memory>(s: CpuState<M::V>, i: int, v: u8) -> CpuState<M::V> {
    if i == 6 {
        s.with_mem(M::poke(s.mem, s.reg.hl(), v))
    } else {
        s.with_reg(set_r8(s.reg, r8_index(i), v))
    }
}

pub open spec fn write_byte<M: Memory>(s: CpuState<M::V>, a: u16, v: u8) -> CpuState<M::V> {
    s.with_mem(M::poke(s.mem, a, v))
}

/// The 2-byte window an instruction may need below the stack pointer.
pub open spec fn push_ok(s_sp: u16) -> bool {
    s_sp != 1
}

/// What the CB-prefixed instruction `op` does, PC already past it, and its
/// M-cycles: x = 0 shifts and rotates, 1 tests a bit, 2 clears one, 3 sets
/// one; z names the operand, 6 being (HL).
pub open spec fn cb_exec<M: Memory>(s1: CpuState<M::V>, op: u8) -> (CpuState<M::V>, u32) {
    let x = op / 64;
    let y = (op / 8) % 8;
    let z = (op % 8) as int;
    let v = operand::<M>(s1, z);
    let cycles: u32 = if z != 6 { 2 } else if x == 1 { 3 } else { 4 };
    if x == 0 {
        let (flagged, r) = rotate_result(s1.reg, rot_index(y as int), v);
        (store::<M>(s1.with_reg(flagged), z, r), cycles)
    } else if x == 1 {
        (s1.with_reg(bit_result(s1.reg, y, v)), cycles)
    } else if x == 2 {
        (store::<M>(s1, z, res_result(y, v)), cycles)
    } else {
        (store::<M>(s1, z, set_result(y, v)), cycles)
    }
}

/// What a CB-prefixed instruction does (the prefix already consumed), and
/// its M-cycles.
pub open spec fn cb_result<M: Memory>(s: CpuState<M::V>) -> (CpuState<M::V>, u32) {
    let (s1, op) = fetch8::<M>(s);
    cb_exec::<M>(s1, op)
}

/// A CB-prefixed instruction never faults once its opcode can be fetched.
pub open spec fn cb_safe<M: Memory>(s: CpuState<M::V>) -> bool {
    s.reg.pc < 0xFFFF
}

/// JR with the offset at PC.
pub open spec fn jr_result<M: Memory>(s: CpuState<M::V>, taken: bool) -> (CpuState<M::V>, u32) {
    let (s1, e) = fetch8::<M>(s);
    if taken {
        (s1.with_pc(s1.reg.pc + sign_extend(e)), 3)
    } else {
        (s1, 2)
    }
}

pub open spec fn jp_result<M: Memory>(s: CpuState<M::V>, taken: bool) -> (CpuState<M::V>, u32) {
    let (s1, a) = fetch16::<M>(s);
    if taken {
        (s1.with_pc(a as int), 4)
    } else {
        (s1, 3)
    }
}

pub open spec fn call_result<M: Memory>(s: CpuState<M::V>, taken: bool) -> (CpuState<M::V>, u32) {
    let (s1, a) = fetch16::<M>(s);
    if taken {
        (push16::<M>(s1, s1.reg.pc).with_pc(a as int), 6)
    } else {
        (s1, 3)
    }
}

pub open spec fn ret_result<M: Memory>(s: CpuState<M::V>, taken: bool) -> (CpuState<M::V>, u32) {
    if taken {
        let (s1, a) = pop16::<M>(s);
        (s1.with_pc(a as int), 5)
    } else {
        (s, 2)
    }
}

pub open spec fn rst_result<M: Memory>(s: CpuState<M::V>, vector: int) -> (CpuState<M::V>, u32) {
    (push16::<M>(s, s.reg.pc).with_pc(vector), 4)
}

/// ADD SP,e / LD HL,SP+e: the offset byte from PC and the flagged sum.
pub open spec fn sp_offset<M: Memory>(s: CpuState<M::V>) -> (CpuState<M::V>, u16) {
    let (s1, e) = fetch8::<M>(s);
    let (flagged, v) = add_sp_e_result(s1.reg, e);
    (s1.with_reg(flagged), v)
}

/// The accumulator rotates of x = 0, z = 7 (RLCA, RRCA, RLA, RRA): Z cleared.
pub open spec fn acc_rotate(reg: Registers, op: RotOp) -> Registers {
    let (flagged, v) = rotate_result(reg, op, reg.a);
    Registers { a: v, ..flagged }.with_flag(Flags::Z, false)
}

/// Unprefixed opcodes with x = 0, PC already past the opcode.
pub open spec fn x0_result<M: Memory>(s: CpuState<M::V>, y: int, z: int) -> (CpuState<M::V>, u32) {
    let p = y / 2;
    let q = y % 2;
    let reg = s.reg;
    let hl = reg.hl();
    if z == 0 {
        if y == 0 || y == 2 {
            (s, 1)
        } else if y == 1 {
            let (s1, a) = fetch16::<M>(s);
            (write_byte::<M>(write_byte::<M>(s1, a, low_byte(reg.sp)), (a + 1) as u16, high_byte(reg.sp)), 5)
        } else if y == 3 {
            jr_result::<M>(s, true)
        } else {
            jr_result::<M>(s, cond_holds(reg, cc_index(y - 4)))
        }
    } else if z == 1 {
        if q == 0 {
            let (s1, v) = fetch16::<M>(s);
            (s1.with_reg(set_r16(s1.reg, rp_index(p), v)), 3)
        } else {
            (s.with_reg(add_hl_result(reg, get_r16(reg, rp_index(p)))), 2)
        }
    } else if z == 2 {
        if q == 0 {
            let a = if p == 0 { reg.bc() } else if p == 1 { reg.de() } else { hl };
            let s1 = write_byte::<M>(s, a, reg.a);
            if p == 2 {
                (s1.with_reg(set_r16(reg, rp_index(2), (hl + 1) as u16)), 2)
            } else if p == 3 {
                (s1.with_reg(set_r16(reg, rp_index(2), (hl - 1) as u16)), 2)
            } else {
                (s1, 2)
            }
        } else {
            let a = if p == 0 { reg.bc() } else if p == 1 { reg.de() } else { hl };
            let loaded = Registers { a: M::peek(s.mem, a), ..reg };
            if p == 2 {
                (s.with_reg(set_r16(loaded, rp_index(2), (hl + 1) as u16)), 2)
            } else if p == 3 {
                (s.with_reg(set_r16(loaded, rp_index(2), (hl - 1) as u16)), 2)
            } else {
                (s.with_reg(loaded), 2)
            }
        }
    } else if z == 3 {
        let v = get_r16(reg, rp_index(p)) as int;
        let n = if q == 0 { (v + 1) % 65536 } else { (v + 65535) % 65536 };
        (s.with_reg(set_r16(reg, rp_index(p), n as u16)), 2)
    } else if z == 4 {
        let (flagged, v) = inc8_result(reg, operand::<M>(s, y));
        (store::<M>(s.with_reg(flagged), y, v), if y == 6 { 3 } else { 1 })
    } else if z == 5 {
        let (flagged, v) = dec8_result(reg, operand::<M>(s, y));
        (store::<M>(s.with_reg(flagged), y, v), if y == 6 { 3 } else { 1 })
    } else if z == 6 {
        let (s1, v) = fetch8::<M>(s);
        (store::<M>(s1, y, v), if y == 6 { 3 } else { 2 })
    } else {
        let r = if y <= 3 {
            acc_rotate(reg, rot_index(y))
        } else if y == 4 {
            daa_result(reg)
        } else if y == 5 {
            Registers { a: (255 - reg.a) as u8, ..reg }.with_flag(Flags::H, true).with_flag(Flags::N, true)
        } else if y == 6 {
            reg.with_flag(Flags::C, true).with_flag(Flags::H, false).with_flag(Flags::N, false)
        } else {
            reg.with_flag(Flags::C, !reg.flag(Flags::C)).with_flag(Flags::H, false).with_flag(Flags::N, false)
        };
        (s.with_reg(r), 1)
    }
}

/// Unprefixed opcodes with x = 3, PC already past the opcode.
pub open spec fn x3_result<M: Memory>(s: CpuState<M::V>, y: int, z: int) -> (CpuState<M::V>, u32) {
    let p = y / 2;
    let q = y % 2;
    let reg = s.reg;
    if z == 0 {
        if y <= 3 {
            ret_result::<M>(s, cond_holds(reg, cc_index(y)))
        } else if y == 4 {
            let (s1, n) = fetch8::<M>(s);
            (write_byte::<M>(s1, (0xFF00 + n) as u16, reg.a), 3)
        } else if y == 5 {
            let (s1, v) = sp_offset::<M>(s);
            (s1.with_reg(Registers { sp: v, ..s1.reg }), 4)
        } else if y == 6 {
            let (s1, n) = fetch8::<M>(s);
            (s1.with_reg(Registers { a: M::peek(s1.mem, (0xFF00 + n) as u16), ..s1.reg }), 3)
        } else {
            let (s1, v) = sp_offset::<M>(s);
            (s1.with_reg(set_r16(s1.reg, rp_index(2), v)), 3)
        }
    } else if z == 1 {
        if q == 0 {
            let (s1, v) = pop16::<M>(s);
            (s1.with_reg(set_stk16(s1.reg, rp2_index(p), v)), 3)
        } else if p == 0 {
            let (s1, a) = pop16::<M>(s);
            (s1.with_pc(a as int), 4)
        } else if p == 1 {
            let (s1, a) = pop16::<M>(s);
            (CpuState { ime: true, ..s1.with_pc(a as int) }, 4)
        } else if p == 2 {
            (s.with_pc(reg.hl() as int), 1)
        } else {
            (s.with_reg(Registers { sp: reg.hl(), ..reg }), 2)
        }
    } else if z == 2 {
        if y <= 3 {
            jp_result::<M>(s, cond_holds(reg, cc_index(y)))
        } else if y == 4 {
            (write_byte::<M>(s, (0xFF00 + reg.c) as u16, reg.a), 2)
        } else if y == 5 {
            let (s1, a) = fetch16::<M>(s);
            (write_byte::<M>(s1, a, reg.a), 4)
        } else if y == 6 {
            (s.with_reg(Registers { a: M::peek(s.mem, (0xFF00 + reg.c) as u16), ..reg }), 2)
        } else {
            let (s1, a) = fetch16::<M>(s);
            (s1.with_reg(Registers { a: M::peek(s1.mem, a), ..s1.reg }), 4)
        }
    } else if z == 3 {
        if y == 0 {
            jp_result::<M>(s, true)
        } else if y == 1 {
            cb_result::<M>(s)
        } else if y == 6 {
            (CpuState { ime: false, ime_ask: false, ..s }, 1)
        } else {
            (CpuState { ime_ask: true, ..s }, 1)
        }
    } else if z == 4 {
        call_result::<M>(s, cond_holds(reg, cc_index(y)))
    } else if z == 5 {
        if q == 0 {
            (push16::<M>(s, crate::hw::cpu::program::get_stk16(reg, rp2_index(p))), 4)
        } else {
            let s1 = push16::<M>(s, (reg.pc + 2) as u16);
            let (s2, a) = fetch16::<M>(s1);
            (s2.with_pc(a as int), 6)
        }
    } else if z == 6 {
        let (s1, v) = fetch8::<M>(s);
        (s1.with_reg(alu_result(s1.reg, alu_index(y), v)), 2)
    } else {
        rst_result::<M>(s, y * 8)
    }
}

/// What one unprefixed instruction at PC does, and its M-cycles.
pub open spec fn op_result<M: Memory>(s: CpuState<M::V>) -> (CpuState<M::V>, u32) {
    let (s1, op) = fetch8::<M>(s);
    let x = op / 64;
    let y = ((op / 8) % 8) as int;
    let z = (op % 8) as int;
    if x == 0 {
        x0_result::<M>(s1, y, z)
    } else if x == 1 {
        if y == 6 && z == 6 {
            (CpuState { halted: true, ..s1 }, 1)
        } else {
            (store::<M>(s1, y, operand::<M>(s1, z)), if y == 6 || z == 6 { 2 } else { 1 })
        }
    } else if x == 2 {
        (s1.with_reg(alu_result(s1.reg, alu_index(y), operand::<M>(s1, z))), if z == 6 { 2 } else { 1 })
    } else {
        x3_result::<M>(s1, y, z)
    }
}

/// The opcodes this interpreter does not implement (it stops on them).
pub open spec fn unknown_opcode(op: u8) -> bool {
    op == 0xD3 || op == 0xDB || op == 0xDD || op == 0xE3 || op == 0xE4 || op == 0xEB || op == 0xEC || op
        == 0xED || op == 0xF4 || op == 0xFC || op == 0xFD
}

/// The instruction at PC runs without an arithmetic fault: PC, SP and HL
/// stay inside the address space where the interpreter steps them with
/// plain (non-wrapping) arithmetic, and the opcode is one it implements.
pub open spec fn op_safe<M: Memory>(s: CpuState<M::V>) -> bool {
    let pc = s.reg.pc as int;
    let sp = s.reg.sp as int;
    let hl = s.reg.hl() as int;
    let op = M::peek(s.mem, s.reg.pc);
    let x = op / 64;
    let y = ((op / 8) % 8) as int;
    let z = (op % 8) as int;
    let p = y / 2;
    let q = y % 2;
    let pc1 = pc + 1;
    &&& pc < 0xFFFF
    &&& !unknown_opcode(op)
    &&& x == 0 ==> {
        &&& (z == 0 && y == 1) ==> pc1 <= 0xFFFD && fetch16::<M>(fetch8::<M>(s).0).1 < 0xFFFF
        &&& (z == 0 && y >= 3) ==> pc1 < 0xFFFF
        &&& (z == 1 && q == 0) ==> pc1 <= 0xFFFD
        &&& (z == 2 && p == 2) ==> hl < 0xFFFF
        &&& (z == 2 && p == 3) ==> hl > 0
        &&& z == 6 ==> pc1 < 0xFFFF
    }
    &&& x == 3 ==> {
        &&& (z == 0 && y <= 3 && cond_holds(s.reg, cc_index(y))) ==> sp <= 0xFFFD
        &&& (z == 0 && y >= 4) ==> pc1 < 0xFFFF
        &&& (z == 1) ==> (q == 0 || p <= 1) ==> sp <= 0xFFFD
        &&& (z == 2 && (y <= 3 || y == 5 || y == 7)) ==> pc1 <= 0xFFFD
        &&& (z == 3 && y == 0) ==> pc1 <= 0xFFFD
        &&& (z == 3 && y == 1) ==> pc1 < 0xFFFF
        &&& (z == 4) ==> pc1 <= 0xFFFD && (cond_holds(s.reg, cc_index(y)) ==> push_ok(s.reg.sp))
        &&& (z == 5) ==> push_ok(s.reg.sp)
        &&& (z == 5 && q == 1) ==> pc1 <= 0xFFFD
        &&& z == 6 ==> pc1 < 0xFFFF
        &&& z == 7 ==> push_ok(s.reg.sp)
    }
}

/// Whether one of the five interrupts is both requested in IF (0xFF0F) and
/// enabled in IE (0xFFFF); bits 5-7 name no interrupt.
pub open spec fn irq_pending<M: Memory>(s: CpuState<M::V>) -> bool {
    M::peek(s.mem, 0xFF0F) & M::peek(s.mem, 0xFFFF) & 0x1F != 0
}

/// Interrupt entry, and its M-cycles. A pending interrupt ends HALT; with
/// IME set the CPU also takes the pending interrupt of lowest number: IME
/// off, its IF bit cleared, PC pushed and PC = 0x40 + 8 * number, in 5
/// M-cycles. Only the five interrupt bits (0-4) count. Otherwise no cycles
/// are spent.
pub open spec fn interrupt_result<M: Memory>(s: CpuState<M::V>) -> (CpuState<M::V>, u32) {
    let intf = M::peek(s.mem, 0xFF0F);
    let t = intf & M::peek(s.mem, 0xFFFF) & 0x1F;
    if t == 0 {
        (s, 0)
    } else if !s.ime {
        (CpuState { halted: false, ..s }, 0)
    } else {
        let n = u8_trailing_zeros(t);
        let s1 = CpuState { halted: false, ime: false, ..s };
        let s2 = s1.with_mem(M::poke(s.mem, 0xFF0F, intf & !(1u8 << n)));
        (push16::<M>(s2, s.reg.pc).with_pc(0x40 + 8 * n), 5)
    }
}

/// The state in which the next instruction runs when no interrupt was taken
/// and the CPU is not halted: a pending EI takes effect first.
pub open spec fn ei_applied<V>(s: CpuState<V>) -> CpuState<V> {
    if s.ime_ask && !s.ime {
        CpuState { ime: true, ime_ask: false, ..s }
    } else {
        s
    }
}

/// One step of the interpreter, and its T-cycles: an interrupt, a halted
/// M-cycle, or one instruction.
pub open spec fn cycle_result<M: Memory>(s: CpuState<M::V>) -> (CpuState<M::V>, u32) {
    let (s1, count) = interrupt_result::<M>(s);
    if count != 0 {
        (s1, (count * 4) as u32)
    } else if s1.halted {
        (s1, 4)
    } else {
        let (s2, c) = op_result::<M>(ei_applied(s1));
        (s2, (c * 4) as u32)
    }
}

/// The step runs without a fault: an interrupt it takes can be pushed, and an
/// instruction it runs is one the interpreter implements, with room to step.
pub open spec fn cycle_safe<M: Memory>(s: CpuState<M::V>) -> bool {
    let (s1, count) = interrupt_result::<M>(s);
    &&& (irq_pending::<M>(s) && s.ime) ==> push_ok(s.reg.sp)
    &&& (count == 0 && !s1.halted) ==> op_safe::<M>(ei_applied(s1))
}

/// EI's delay: with IME off (an EI not yet in effect included), a step takes
/// no interrupt, pending or not; it runs the instruction at PC, a pending EI
/// taking effect first.
pub proof fn lemma_no_dispatch_without_ime<M: Memory>(s: CpuState<M::V>)
    requires
        !s.ime,
        !s.halted,
    ensures
        cycle_result::<M>(s) == ({
            let (s2, c) = op_result::<M>(ei_applied(s));
            (s2, (c * 4) as u32)
        }),
{
}

/// With IME on and an interrupt pending, a step dispatches the lowest one:
/// 20 T-cycles, IME off, HALT ended, its IF bit cleared, the old PC pushed,
/// and PC at the vector 0x40 + 8 * number.
pub proof fn lemma_dispatch<M: Memory>(s: CpuState<M::V>)
    requires
        s.ime,
        irq_pending::<M>(s),
    ensures
        ({
            let (s1, cycles) = cycle_result::<M>(s);
            let intf = M::peek(s.mem, 0xFF0F);
            let n = u8_trailing_zeros(intf & M::peek(s.mem, 0xFFFF) & 0x1F);
            &&& cycles == 20
            &&& n < 5
            &&& !s1.ime
            &&& !s1.halted
            &&& s1.reg.pc == 0x40 + 8 * n
            &&& s1 == push16::<M>(
                CpuState { halted: false, ime: false, ..s }.with_mem(M::poke(s.mem, 0xFF0F, intf & !(1u8 << n))),
                s.reg.pc,
            ).with_pc(0x40 + 8 * n)
        }),
{
    let x = M::peek(s.mem, 0xFF0F);
    let y = M::peek(s.mem, 0xFFFF);
    let t = x & y & 0x1F;
    axiom_u8_trailing_zeros(t);
    let n = u8_trailing_zeros(t);
    lemma_low_set_bit(x, y, n as u8);
}

/// EI's delay over two steps: the step after EI runs the next instruction
/// with no dispatch, IME taking effect before it; if that instruction
/// leaves IME on and an interrupt pending, the step after it dispatches the
/// lowest pending one.
pub proof fn lemma_ei_delay<M: Memory>(s: CpuState<M::V>)
    requires
        !s.ime,
        s.ime_ask,
        !s.halted,
        cycle_result::<M>(s).0.ime,
        irq_pending::<M>(cycle_result::<M>(s).0),
    ensures
        cycle_result::<M>(s) == ({
            let (s2, c) = op_result::<M>(CpuState { ime: true, ime_ask: false, ..s });
            (s2, (c * 4) as u32)
        }),
        ({
            let s1 = cycle_result::<M>(s).0;
            let (s2, cycles) = cycle_result::<M>(s1);
            let n = u8_trailing_zeros(M::peek(s1.mem, 0xFF0F) & M::peek(s1.mem, 0xFFFF) & 0x1F);
            &&& cycles == 20
            &&& n < 5
            &&& s2.reg.pc == 0x40 + 8 * n
            &&& !s2.ime
        }),
{
    lemma_no_dispatch_without_ime::<M>(s);
    lemma_dispatch::<M>(cycle_result::<M>(s).0);
}

/// The lowest set bit of a non-zero 5-bit value is one of bits 0-4.
proof fn lemma_low_set_bit(x: u8, y: u8, n: u8)
    requires
        n < 8,
        ((x & y & 0x1F) >> n) & 1u8 == 1u8,
    ensures
        n < 5,
{
    assert(n < 8 && ((x & y & 0x1F) >> n) & 1u8 == 1u8 ==> n < 5) by (bit_vector);
}

/// CALL nn then the RET at nn: control comes back right after the CALL with
/// SP restored and every other register as it was, in 6 + 4 M-cycles. Stated
/// on a memory that reads back the two stack bytes and holds RET at nn once
/// the return address is pushed (the CALL reads nn after pushing).
pub proof fn lemma_call_then_ret<M: Memory>(s: CpuState<M::V>)
    requires
        s.reg.pc <= 0xFFFC,
        2 <= s.reg.sp,
        M::peek(s.mem, s.reg.pc) == 0xCD,
        ({
            let sp = (s.reg.sp - 2) as u16;
            let ret = (s.reg.pc + 3) as u16;
            let m1 = M::poke(M::poke(s.mem, sp, low_byte(ret)), (sp + 1) as u16, high_byte(ret));
            let target = pair(M::peek(m1, (s.reg.pc + 2) as u16), M::peek(m1, (s.reg.pc + 1) as u16));
            &&& reads_back::<M>(s.mem, sp, (sp + 1) as u16)
            &&& reads_back::<M>(M::poke(s.mem, sp, low_byte(ret)), (sp + 1) as u16, sp)
            &&& M::peek(m1, target) == 0xC9
        }),
    ensures
        op_result::<M>(s).1 == 6,
        op_result::<M>(op_result::<M>(s).0).1 == 4,
        op_result::<M>(op_result::<M>(s).0).0.reg == (Registers { pc: (s.reg.pc + 3) as u16, ..s.reg }),
{
    let (s1, op) = fetch8::<M>(s);
    assert(op == 0xCD);
    assert(op / 64 == 3 && (op / 8) % 8 == 1 && op % 8 == 5);
    let ret = (s1.reg.pc + 2) as u16;
    assert(ret == s.reg.pc + 3);
    let pushed = push16::<M>(s1, ret);
    let (s2, target) = fetch16::<M>(pushed);
    let c = s2.with_pc(target as int);
    assert(op_result::<M>(s) == (c, 6u32));
    lemma_push_pop_round_trip::<M>(s1, ret);
    let (c1, op2) = fetch8::<M>(c);
    assert(op2 == 0xC9);
    assert(op2 / 64 == 3 && (op2 / 8) % 8 == 1 && op2 % 8 == 1);
    let (c2, back) = pop16::<M>(c1);
    assert(back == ret);
    assert(op_result::<M>(c) == (c2.with_pc(back as int), 4u32));
    assert(c2.reg.sp == s.reg.sp);
}

/// A memory gives back what was written: a read of `a` after a write to
/// `a` returns the value written, and a write elsewhere does not disturb it.
pub open spec fn reads_back<M: Memory>(m: M::V, a: u16, b: u16) -> bool {
    &&& forall|v: u8| #[trigger] M::peek(M::poke(m, a, v), a) == v
    &&& forall|v: u8, w: u8| a != b ==> #[trigger] M::peek(M::poke(M::poke(m, a, v), b, w), a) == v
    &&& forall|w: u8| #[trigger] M::peek(M::poke(m, b, w), b) == w
}

/// POP undoes PUSH: on a memory that reads back what was written to the two
/// stack bytes, a pushed word pops off unchanged and SP is restored.
pub proof fn lemma_push_pop_round_trip<M: Memory>(s: CpuState<M::V>, v: u16)
    requires
        2 <= s.reg.sp,
        ({
            let sp = (s.reg.sp - 2) as u16;
            reads_back::<M>(s.mem, sp, (sp + 1) as u16) && reads_back::<M>(
                M::poke(s.mem, sp, low_byte(v)),
                (sp + 1) as u16,
                sp,
            )
        }),
    ensures
        pop16::<M>(push16::<M>(s, v)).1 == v,
        pop16::<M>(push16::<M>(s, v)).0.reg.sp == s.reg.sp,
{
    let sp = (s.reg.sp - 2) as u16;
    let m1 = M::poke(s.mem, sp, low_byte(v));
    let m2 = M::poke(m1, (sp + 1) as u16, high_byte(v));
    assert(M::peek(m2, (sp + 1) as u16) == high_byte(v));
    assert(M::peek(m2, sp) == low_byte(v));
    lemma_split(v);
}

} // verus!
