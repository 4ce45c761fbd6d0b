//! The micro-op core checked against the instruction-level interpreter:
//! what the core's decoded program for an opcode does to the registers and
//! memory, run to the next fetch, is what the interpreter's step does.

use super::cpu::program::{
    alu_index, cc_index, cond_holds, dec16, decoded, decoded_x0, decoded_x1, decoded_x2, decoded_x3, effect_result, get_r16,
    get_r8,
    get_stk16, in_oam_region, inc16, r8_index, rp2_index, rp_index, set_r16, set_r8, set_stk16, CpuView,
};
use super::cpu::{completed, Addr, Byte, Effect, MicroOp, R16, R8};
use crate::bits::lemma_flag_bits;
use crate::components::alu::{
    add_hl_result, add_sp_e_result, alu_result, dec8_result, inc8_result, sign_extend,
};
use crate::components::cpu::semantics::{fetch8, op_result, x0_result, x3_result, CpuState};
use crate::components::ram::Ram;
use crate::components::registers::{high_byte, lemma_split, low_byte, pair, Flags, Registers};
use crate::memory::Memory;
use vstd::prelude::*;

verus! {

/// One micro-op of the cycle-level core run against a flat 64 KiB memory:
/// an effect runs, a store writes the memory, a load or immediate read takes
/// its byte from it.
pub open spec fn micro_step(c: CpuView, mem: Seq<u8>) -> (CpuView, Seq<u8>) {
    match c.micro[0] {
        MicroOp::Exec(e) => (effect_result(c.with_micro(c.micro.drop_first()), e), mem),
        MicroOp::Store(a, b) => (completed(c, 0), mem.update(c.address(a) as int, c.byte(b))),
        MicroOp::LoadZ(a) => (completed(c, mem[c.address(a) as int]), mem),
        MicroOp::LoadW(a) => (completed(c, mem[c.address(a) as int]), mem),
        MicroOp::ImmZ => (completed(c, mem[c.reg.pc as int]), mem),
        MicroOp::ImmW => (completed(c, mem[c.reg.pc as int]), mem),
        _ => (completed(c, 0), mem),
    }
}

/// The core's micro-ops run until the next opcode fetch (at most `fuel`).
pub open spec fn run_to_fetch(c: CpuView, mem: Seq<u8>, fuel: nat) -> (CpuView, Seq<u8>)
    decreases fuel,
{
    if fuel == 0 || c.micro.len() == 0 || c.micro[0] is Fetch {
        (c, mem)
    } else {
        let (c1, m1) = micro_step(c, mem);
        run_to_fetch(c1, m1, (fuel - 1) as nat)
    }
}

/// The interpreter's state for the instruction whose opcode the core has
/// just fetched: PC back on the opcode, the same registers and memory.
pub open spec fn at_opcode(c: CpuView, mem: Seq<u8>) -> CpuState<Seq<u8>> {
    CpuState {
        reg: Registers { pc: ((c.reg.pc + 65535) % 65536) as u16, ..c.reg },
        mem,
        halted: false,
        ime: c.ime,
        ime_ask: false,
    }
}

/// The core and the interpreter agree on what an instruction does: the
/// micro-op program the core decoded, run to the next fetch, leaves the
/// registers and memory the interpreter's step from the opcode leaves.
pub open spec fn agrees(c: CpuView, mem: Seq<u8>) -> bool {
    let (c2, m2) = run_to_fetch(c, mem, 10);
    let (s2, _) = op_result::<Ram>(at_opcode(c, mem));
    c2.reg == s2.reg && m2 == s2.mem
}

/// The address the x = 0, z = 2 group reads or writes: BC, DE, then HL for
/// both (HL+) and (HL-).
spec fn indirect_address(reg: Registers, p: int) -> u16 {
    if p == 0 {
        reg.bc()
    } else if p == 1 {
        reg.de()
    } else {
        reg.hl()
    }
}

/// HL after such an access: one up for (HL+), one down for (HL-), wrapping.
spec fn hl_stepped(reg: Registers, p: int) -> Registers {
    if p == 2 {
        set_r16(reg, R16::Hl, inc16(reg.hl()))
    } else if p == 3 {
        set_r16(reg, R16::Hl, dec16(reg.hl()))
    } else {
        reg
    }
}

/// The interpreter's plain `+ 1` and `- 1` on a 16-bit value, cast back to
/// 16 bits, wrap as the core's 16-bit increment and decrement do.
proof fn lemma_wrap16(h: u16)
    ensures
        (h + 1) as u16 == inc16(h),
        (h - 1) as u16 == dec16(h),
        (h + 2) as u16 == inc16(inc16(h)),
{
    assert((h == 0 ==> (h - 1) as u16 == 65535u16) && (h == 65535 ==> (h + 1) as u16 == 0u16) && (h
        == 65534 ==> (h + 2) as u16 == 0u16) && (h == 65535 ==> (h + 2) as u16 == 1u16)) by (bit_vector);
}

/// An opcode below 0x40 is stepped by the x = 0 group of the interpreter.
proof fn lemma_op_result_x0(s: CpuState<Seq<u8>>)
    requires
        Ram::peek(s.mem, s.reg.pc) < 64,
    ensures
        op_result::<Ram>(s) == x0_result::<Ram>(
            fetch8::<Ram>(s).0,
            ((fetch8::<Ram>(s).1 / 8) % 8) as int,
            (fetch8::<Ram>(s).1 % 8) as int,
        ),
{
}

/// A micro-op other than the fetch runs, and the rest of the run goes on
/// from there.
proof fn lemma_peel(c: CpuView, mem: Seq<u8>, fuel: nat)
    requires
        fuel > 0,
        c.micro.len() > 0,
        !(c.micro[0] is Fetch),
    ensures
        run_to_fetch(c, mem, fuel) == run_to_fetch(
            micro_step(c, mem).0,
            micro_step(c, mem).1,
            (fuel - 1) as nat,
        ),
{
}

/// A store of `b` to `a`, then the fetch.
proof fn lemma_run_store(c: CpuView, mem: Seq<u8>, a: Addr, b: Byte)
    requires
        c.micro == seq![MicroOp::Store(a, b), MicroOp::Fetch],
    ensures
        run_to_fetch(c, mem, 10).0.reg == c.reg,
        run_to_fetch(c, mem, 10).1 == mem.update(c.address(a) as int, c.byte(b)),
{
    lemma_peel(c, mem, 10);
    let c1 = micro_step(c, mem).0;
    assert(c1.micro =~= seq![MicroOp::Fetch]);
}

/// A store of A to [HL], a 16-bit step of HL, then the fetch.
proof fn lemma_run_store_step(c: CpuView, mem: Seq<u8>, e: Effect)
    requires
        c.micro == seq![MicroOp::Store(Addr::Hl, Byte::Reg(R8::A)), MicroOp::Exec(e), MicroOp::Fetch],
        e == Effect::Inc16(R16::Hl) || e == Effect::Dec16(R16::Hl),
    ensures
        run_to_fetch(c, mem, 10).0.reg == (if e is Inc16 {
            hl_stepped(c.reg, 2)
        } else {
            hl_stepped(c.reg, 3)
        }),
        run_to_fetch(c, mem, 10).1 == mem.update(c.reg.hl() as int, c.reg.a),
{
    lemma_peel(c, mem, 10);
    let c1 = micro_step(c, mem).0;
    let m1 = micro_step(c, mem).1;
    assert(c1.micro =~= seq![MicroOp::Exec(e), MicroOp::Fetch]);
    lemma_peel(c1, m1, 9);
    let c2 = micro_step(c1, m1).0;
    assert(c2.micro =~= seq![MicroOp::Fetch]);
}

/// A load of A from `a`, then the fetch.
proof fn lemma_run_load(c: CpuView, mem: Seq<u8>, a: Addr)
    requires
        c.micro == seq![MicroOp::LoadZ(a), MicroOp::Exec(Effect::LdRZ(R8::A)), MicroOp::Fetch],
    ensures
        run_to_fetch(c, mem, 10).0.reg == (Registers { a: mem[c.address(a) as int], ..c.reg }),
        run_to_fetch(c, mem, 10).1 == mem,
{
    lemma_peel(c, mem, 10);
    let c1 = micro_step(c, mem).0;
    assert(c1.micro =~= seq![MicroOp::Exec(Effect::LdRZ(R8::A)), MicroOp::Fetch]);
    lemma_peel(c1, mem, 9);
    let c2 = micro_step(c1, mem).0;
    assert(c2.micro =~= seq![MicroOp::Fetch]);
}

/// A load of A from [HL], a 16-bit step of HL, then the fetch.
proof fn lemma_run_load_step(c: CpuView, mem: Seq<u8>, e: Effect)
    requires
        c.micro == seq![
            MicroOp::LoadZ(Addr::Hl),
            MicroOp::Exec(Effect::LdRZ(R8::A)),
            MicroOp::Exec(e),
            MicroOp::Fetch,
        ],
        e == Effect::Inc16(R16::Hl) || e == Effect::Dec16(R16::Hl),
    ensures
        run_to_fetch(c, mem, 10).0.reg == (if e is Inc16 {
            hl_stepped(Registers { a: mem[c.reg.hl() as int], ..c.reg }, 2)
        } else {
            hl_stepped(Registers { a: mem[c.reg.hl() as int], ..c.reg }, 3)
        }),
        run_to_fetch(c, mem, 10).1 == mem,
{
    lemma_peel(c, mem, 10);
    let c1 = micro_step(c, mem).0;
    assert(c1.micro =~= seq![MicroOp::Exec(Effect::LdRZ(R8::A)), MicroOp::Exec(e), MicroOp::Fetch]);
    lemma_peel(c1, mem, 9);
    let c2 = micro_step(c1, mem).0;
    assert(c2.micro =~= seq![MicroOp::Exec(e), MicroOp::Fetch]);
    assert(c2.reg.hl() == c.reg.hl());
    lemma_peel(c2, mem, 8);
    let c3 = micro_step(c2, mem).0;
    assert(c3.micro =~= seq![MicroOp::Fetch]);
}

/// What the x = 0, z = 2 group leaves in the registers and memory, from the
/// registers and memory before it: LD (rr),A for even `y`, LD A,(rr) for odd.
spec fn indirect_result(reg: Registers, mem: Seq<u8>, y: int) -> (Registers, Seq<u8>) {
    let addr = indirect_address(reg, y / 2);
    if y % 2 == 0 {
        (hl_stepped(reg, y / 2), mem.update(addr as int, reg.a))
    } else {
        (hl_stepped(Registers { a: mem[addr as int], ..reg }, y / 2), mem)
    }
}

/// The core's programs for LD (rr),A and LD A,(rr), rr being BC, DE, HL+
/// or HL-, run to the next fetch.
#[verifier::spinoff_prover]
#[verifier::rlimit(40)]
proof fn lemma_core_indirect(c: CpuView, mem: Seq<u8>, y: int)
    requires
        0 <= y < 8,
        c.micro == decoded_x0(y, 2, y / 2, y % 2).push(MicroOp::Fetch),
    ensures
        run_to_fetch(c, mem, 10).0.reg == indirect_result(c.reg, mem, y).0,
        run_to_fetch(c, mem, 10).1 == indirect_result(c.reg, mem, y).1,
{
    let f = MicroOp::Fetch;
    let sa = MicroOp::Store(Addr::Hl, Byte::Reg(R8::A));
    let la = MicroOp::LoadZ(Addr::Hl);
    let za = MicroOp::Exec(Effect::LdRZ(R8::A));
    let inc = Effect::Inc16(R16::Hl);
    let dec = Effect::Dec16(R16::Hl);
    if y == 0 {
        assert(c.micro =~= seq![MicroOp::Store(Addr::Bc, Byte::Reg(R8::A)), f]);
        lemma_run_store(c, mem, Addr::Bc, Byte::Reg(R8::A));
    } else if y == 2 {
        assert(c.micro =~= seq![MicroOp::Store(Addr::De, Byte::Reg(R8::A)), f]);
        lemma_run_store(c, mem, Addr::De, Byte::Reg(R8::A));
    } else if y == 4 {
        assert(y / 2 == 2 && y % 2 == 0);
        assert(c.micro =~= seq![sa, MicroOp::Exec(inc), f]);
        lemma_run_store_step(c, mem, inc);
    } else if y == 6 {
        assert(y / 2 == 3 && y % 2 == 0);
        assert(c.micro =~= seq![sa, MicroOp::Exec(dec), f]);
        lemma_run_store_step(c, mem, dec);
    } else if y == 1 {
        assert(c.micro =~= seq![MicroOp::LoadZ(Addr::Bc), za, f]);
        lemma_run_load(c, mem, Addr::Bc);
    } else if y == 3 {
        assert(y / 2 == 1 && y % 2 == 1);
        assert(c.micro =~= seq![MicroOp::LoadZ(Addr::De), za, f]);
        lemma_run_load(c, mem, Addr::De);
    } else if y == 5 {
        assert(y / 2 == 2 && y % 2 == 1);
        assert(c.micro =~= seq![la, za, MicroOp::Exec(inc), f]);
        lemma_run_load_step(c, mem, inc);
    } else {
        assert(y / 2 == 3 && y % 2 == 1);
        assert(c.micro =~= seq![la, za, MicroOp::Exec(dec), f]);
        lemma_run_load_step(c, mem, dec);
    }
}

/// The interpreter's LD (rr),A and LD A,(rr).
proof fn lemma_interp_indirect(s: CpuState<Seq<u8>>, y: int)
    requires
        s.mem.len() == 0x10000,
        0 <= y < 8,
        s.mem[s.reg.pc as int] == y * 8 + 2,
    ensures
        op_result::<Ram>(s).0.reg == indirect_result(fetch8::<Ram>(s).0.reg, s.mem, y).0,
        op_result::<Ram>(s).0.mem == indirect_result(fetch8::<Ram>(s).0.reg, s.mem, y).1,
{
    lemma_op_result_x0(s);
    let s1 = fetch8::<Ram>(s).0;
    lemma_wrap16(s1.reg.hl());
    assert(s1.reg.hl() == s.reg.hl());
}

/// The interpreter's state at the opcode steps past it to the core's
/// registers, and reads the opcode from the core's memory.
proof fn lemma_at_opcode(c: CpuView, mem: Seq<u8>)
    requires
        mem.len() == 0x10000,
    ensures
        fetch8::<Ram>(at_opcode(c, mem)).0.reg == c.reg,
        at_opcode(c, mem).mem == mem,
        at_opcode(c, mem).mem[at_opcode(c, mem).reg.pc as int] == mem[((c.reg.pc + 65535) % 65536) as int],
{
}

/// LD (BC),A, LD (DE),A, LD (HL+),A, LD (HL-),A and the four loads of A the
/// other way: the core's micro-op program for the opcode does to the
/// registers and memory what the instruction-level interpreter does.
#[verifier::spinoff_prover]
#[verifier::rlimit(40)]
proof fn lemma_agrees_indirect(c: CpuView, mem: Seq<u8>)
    requires
        mem.len() == 0x10000,
        mem[((c.reg.pc + 65535) % 65536) as int] < 0x40,
        mem[((c.reg.pc + 65535) % 65536) as int] % 8 == 2,
        c.micro == decoded(mem[((c.reg.pc + 65535) % 65536) as int]),
    ensures
        agrees(c, mem),
{
    let op = mem[((c.reg.pc + 65535) % 65536) as int];
    let y = (op / 8) as int;
    assert(op == y * 8 + 2);
    let s = at_opcode(c, mem);
    lemma_at_opcode(c, mem);
    assert(op / 64 == 0 && (op / 8) % 8 == y && op % 8 == 2);
    assert(c.micro =~= decoded_x0(y, 2, y / 2, y % 2).push(MicroOp::Fetch));
    lemma_core_indirect(c, mem, y);
    lemma_interp_indirect(s, y);
}

/// What INC rr (even `y`) and DEC rr (odd `y`) leave in the registers: the
/// pair `y / 2` names one up or one down, wrapping at 16 bits.
spec fn step16_result(reg: Registers, y: int) -> Registers {
    let r = rp_index(y / 2);
    if y % 2 == 0 {
        set_r16(reg, r, inc16(get_r16(reg, r)))
    } else {
        set_r16(reg, r, dec16(get_r16(reg, r)))
    }
}

/// An internal cycle, a 16-bit step, then the fetch.
proof fn lemma_run_internal_step(c: CpuView, mem: Seq<u8>, e: Effect)
    requires
        c.micro == seq![MicroOp::Internal, MicroOp::Exec(e), MicroOp::Fetch],
        e is Inc16 || e is Dec16,
    ensures
        run_to_fetch(c, mem, 10).0.reg == (match e {
            Effect::Inc16(r) => set_r16(c.reg, r, inc16(get_r16(c.reg, r))),
            Effect::Dec16(r) => set_r16(c.reg, r, dec16(get_r16(c.reg, r))),
            _ => c.reg,
        }),
        run_to_fetch(c, mem, 10).1 == mem,
{
    lemma_peel(c, mem, 10);
    let c1 = micro_step(c, mem).0;
    assert(c1.micro =~= seq![MicroOp::Exec(e), MicroOp::Fetch]);
    lemma_peel(c1, mem, 9);
    let c2 = micro_step(c1, mem).0;
    assert(c2.micro =~= seq![MicroOp::Fetch]);
}

/// The core's programs for INC rr and DEC rr, run to the next fetch.
#[verifier::spinoff_prover]
#[verifier::rlimit(40)]
proof fn lemma_core_step16(c: CpuView, mem: Seq<u8>, y: int)
    requires
        0 <= y < 8,
        c.micro == decoded_x0(y, 3, y / 2, y % 2).push(MicroOp::Fetch),
    ensures
        run_to_fetch(c, mem, 10).0.reg == step16_result(c.reg, y),
        run_to_fetch(c, mem, 10).1 == mem,
{
    let r = rp_index(y / 2);
    if y % 2 == 0 {
        assert(c.micro =~= seq![MicroOp::Internal, MicroOp::Exec(Effect::Inc16(r)), MicroOp::Fetch]);
        lemma_run_internal_step(c, mem, Effect::Inc16(r));
    } else {
        assert(c.micro =~= seq![MicroOp::Internal, MicroOp::Exec(Effect::Dec16(r)), MicroOp::Fetch]);
        lemma_run_internal_step(c, mem, Effect::Dec16(r));
    }
}

/// The interpreter's INC rr and DEC rr.
#[verifier::spinoff_prover]
#[verifier::rlimit(40)]
proof fn lemma_interp_step16(s: CpuState<Seq<u8>>, y: int)
    requires
        s.mem.len() == 0x10000,
        0 <= y < 8,
        s.mem[s.reg.pc as int] == y * 8 + 3,
    ensures
        op_result::<Ram>(s).0.reg == step16_result(fetch8::<Ram>(s).0.reg, y),
        op_result::<Ram>(s).0.mem == s.mem,
{
    lemma_op_result_x0(s);
}

/// INC BC/DE/HL/SP and DEC BC/DE/HL/SP: the core's micro-op program for the
/// opcode does to the registers and memory what the instruction-level
/// interpreter does.
#[verifier::spinoff_prover]
#[verifier::rlimit(40)]
proof fn lemma_agrees_step16(c: CpuView, mem: Seq<u8>)
    requires
        mem.len() == 0x10000,
        mem[((c.reg.pc + 65535) % 65536) as int] < 0x40,
        mem[((c.reg.pc + 65535) % 65536) as int] % 8 == 3,
        c.micro == decoded(mem[((c.reg.pc + 65535) % 65536) as int]),
    ensures
        agrees(c, mem),
{
    let op = mem[((c.reg.pc + 65535) % 65536) as int];
    let y = (op / 8) as int;
    assert(op == y * 8 + 3);
    let s = at_opcode(c, mem);
    lemma_at_opcode(c, mem);
    assert(op / 64 == 0 && (op / 8) % 8 == y && op % 8 == 3);
    assert(c.micro =~= decoded_x0(y, 3, y / 2, y % 2).push(MicroOp::Fetch));
    lemma_core_step16(c, mem, y);
    lemma_interp_step16(s, y);
}

/// One effect that leaves the queue alone, then the fetch.
proof fn lemma_run_exec(c: CpuView, mem: Seq<u8>, e: Effect)
    requires
        c.micro == seq![MicroOp::Exec(e), MicroOp::Fetch],
        e is LdR || e is Alu || e is Halt || e is IncR || e is DecR || e is AccRot || e is Daa || e is Cpl
            || e is Scf || e is Ccf || e is AddHl || e is SetPcHl || e is LdSpHl || e is Di || e is Ei,
    ensures
        run_to_fetch(c, mem, 10).0.reg == effect_result(c.with_micro(seq![MicroOp::Fetch]), e).reg,
        run_to_fetch(c, mem, 10).1 == mem,
{
    lemma_peel(c, mem, 10);
    assert(c.micro.drop_first() =~= seq![MicroOp::Fetch]);
}

/// A load of [HL] into Z, one effect on it that leaves the queue alone,
/// then the fetch.
proof fn lemma_run_load_exec(c: CpuView, mem: Seq<u8>, e: Effect)
    requires
        c.micro == seq![MicroOp::LoadZ(Addr::Hl), MicroOp::Exec(e), MicroOp::Fetch],
        e is LdRZ || e is AluZ,
    ensures
        run_to_fetch(c, mem, 10).0.reg == effect_result(
            CpuView { z: mem[c.reg.hl() as int], micro: seq![MicroOp::Fetch], ..c },
            e,
        ).reg,
        run_to_fetch(c, mem, 10).1 == mem,
{
    lemma_peel(c, mem, 10);
    let c1 = micro_step(c, mem).0;
    assert(c1.micro =~= seq![MicroOp::Exec(e), MicroOp::Fetch]);
    lemma_peel(c1, mem, 9);
    assert(c1.micro.drop_first() =~= seq![MicroOp::Fetch]);
}

/// What LD r,r' (`y` the destination, `z` the source, 6 being [HL]) and
/// HALT leave in the registers and memory.
spec fn load8_result(reg: Registers, mem: Seq<u8>, y: int, z: int) -> (Registers, Seq<u8>) {
    if y == 6 && z == 6 {
        (reg, mem)
    } else if z == 6 {
        (set_r8(reg, r8_index(y), mem[reg.hl() as int]), mem)
    } else if y == 6 {
        (reg, mem.update(reg.hl() as int, get_r8(reg, r8_index(z))))
    } else {
        (set_r8(reg, r8_index(y), get_r8(reg, r8_index(z))), mem)
    }
}

/// The core's programs for the LD r,r' block and HALT, run to the next fetch.
#[verifier::spinoff_prover]
#[verifier::rlimit(40)]
proof fn lemma_core_load8(c: CpuView, mem: Seq<u8>, y: int, z: int)
    requires
        0 <= y < 8,
        0 <= z < 8,
        c.micro == decoded_x1(y, z).push(MicroOp::Fetch),
    ensures
        run_to_fetch(c, mem, 10).0.reg == load8_result(c.reg, mem, y, z).0,
        run_to_fetch(c, mem, 10).1 == load8_result(c.reg, mem, y, z).1,
{
    let f = MicroOp::Fetch;
    if y == 6 && z == 6 {
        assert(c.micro =~= seq![MicroOp::Exec(Effect::Halt), f]);
        lemma_run_exec(c, mem, Effect::Halt);
    } else if z == 6 {
        let e = Effect::LdRZ(r8_index(y));
        assert(c.micro =~= seq![MicroOp::LoadZ(Addr::Hl), MicroOp::Exec(e), f]);
        lemma_run_load_exec(c, mem, e);
    } else if y == 6 {
        let b = Byte::Reg(r8_index(z));
        assert(c.micro =~= seq![MicroOp::Store(Addr::Hl, b), f]);
        lemma_run_store(c, mem, Addr::Hl, b);
    } else {
        let e = Effect::LdR(r8_index(y), r8_index(z));
        assert(c.micro =~= seq![MicroOp::Exec(e), f]);
        lemma_run_exec(c, mem, e);
    }
}

/// An opcode in 0x40..0x7F is stepped by the x = 1 group of the interpreter.
proof fn lemma_interp_load8(s: CpuState<Seq<u8>>, y: int, z: int)
    requires
        s.mem.len() == 0x10000,
        0 <= y < 8,
        0 <= z < 8,
        s.mem[s.reg.pc as int] == 64 + y * 8 + z,
    ensures
        op_result::<Ram>(s).0.reg == load8_result(fetch8::<Ram>(s).0.reg, s.mem, y, z).0,
        op_result::<Ram>(s).0.mem == load8_result(fetch8::<Ram>(s).0.reg, s.mem, y, z).1,
{
    let op = s.mem[s.reg.pc as int];
    assert(op / 64 == 1 && (op / 8) % 8 == y && op % 8 == z);
}

/// LD r,r' in all its forms (registers, a load from [HL], a store to [HL])
/// and HALT: the core's micro-op program for the opcode does to the
/// registers and memory what the instruction-level interpreter does.
#[verifier::spinoff_prover]
#[verifier::rlimit(40)]
proof fn lemma_agrees_load8(c: CpuView, mem: Seq<u8>)
    requires
        mem.len() == 0x10000,
        0x40 <= mem[((c.reg.pc + 65535) % 65536) as int] < 0x80,
        c.micro == decoded(mem[((c.reg.pc + 65535) % 65536) as int]),
    ensures
        agrees(c, mem),
{
    let op = mem[((c.reg.pc + 65535) % 65536) as int];
    let y = ((op / 8) % 8) as int;
    let z = (op % 8) as int;
    assert(op == 64 + y * 8 + z);
    let s = at_opcode(c, mem);
    lemma_at_opcode(c, mem);
    assert(op / 64 == 1);
    assert(c.micro =~= decoded_x1(y, z).push(MicroOp::Fetch));
    lemma_core_load8(c, mem, y, z);
    lemma_interp_load8(s, y, z);
}

/// What the accumulator arithmetic block (`y` the operation, `z` the
/// operand, 6 being [HL]) leaves in the registers.
spec fn alu8_result(reg: Registers, mem: Seq<u8>, y: int, z: int) -> Registers {
    let v = if z == 6 { mem[reg.hl() as int] } else { get_r8(reg, r8_index(z)) };
    alu_result(reg, alu_index(y), v)
}

/// The core's programs for the accumulator arithmetic block.
#[verifier::spinoff_prover]
#[verifier::rlimit(40)]
proof fn lemma_core_alu8(c: CpuView, mem: Seq<u8>, y: int, z: int)
    requires
        0 <= y < 8,
        0 <= z < 8,
        c.micro == decoded_x2(y, z).push(MicroOp::Fetch),
    ensures
        run_to_fetch(c, mem, 10).0.reg == alu8_result(c.reg, mem, y, z),
        run_to_fetch(c, mem, 10).1 == mem,
{
    let f = MicroOp::Fetch;
    if z == 6 {
        let e = Effect::AluZ(alu_index(y));
        assert(c.micro =~= seq![MicroOp::LoadZ(Addr::Hl), MicroOp::Exec(e), f]);
        lemma_run_load_exec(c, mem, e);
    } else {
        let e = Effect::Alu(alu_index(y), r8_index(z));
        assert(c.micro =~= seq![MicroOp::Exec(e), f]);
        lemma_run_exec(c, mem, e);
    }
}

/// An opcode in 0x80..0xBF is stepped by the x = 2 group of the interpreter.
proof fn lemma_interp_alu8(s: CpuState<Seq<u8>>, y: int, z: int)
    requires
        s.mem.len() == 0x10000,
        0 <= y < 8,
        0 <= z < 8,
        s.mem[s.reg.pc as int] == 128 + y * 8 + z,
    ensures
        op_result::<Ram>(s).0.reg == alu8_result(fetch8::<Ram>(s).0.reg, s.mem, y, z),
        op_result::<Ram>(s).0.mem == s.mem,
{
    let op = s.mem[s.reg.pc as int];
    assert(op / 64 == 2 && (op / 8) % 8 == y && op % 8 == z);
}

/// ADD, ADC, SUB, SBC, AND, XOR, OR and CP of A with a register or [HL]:
/// the core's micro-op program for the opcode does to the registers and
/// memory what the instruction-level interpreter does.
#[verifier::spinoff_prover]
#[verifier::rlimit(40)]
proof fn lemma_agrees_alu8(c: CpuView, mem: Seq<u8>)
    requires
        mem.len() == 0x10000,
        0x80 <= mem[((c.reg.pc + 65535) % 65536) as int] < 0xC0,
        c.micro == decoded(mem[((c.reg.pc + 65535) % 65536) as int]),
    ensures
        agrees(c, mem),
{
    let op = mem[((c.reg.pc + 65535) % 65536) as int];
    let y = ((op / 8) % 8) as int;
    let z = (op % 8) as int;
    assert(op == 128 + y * 8 + z);
    let s = at_opcode(c, mem);
    lemma_at_opcode(c, mem);
    assert(op / 64 == 2);
    assert(c.micro =~= decoded_x2(y, z).push(MicroOp::Fetch));
    lemma_core_alu8(c, mem, y, z);
    lemma_interp_alu8(s, y, z);
}

/// A read of [HL] into Z, an effect on Z, Z written back to [HL], then the
/// fetch.
proof fn lemma_run_rmw(c: CpuView, mem: Seq<u8>, e: Effect)
    requires
        c.micro == seq![
            MicroOp::LoadZ(Addr::Hl),
            MicroOp::Exec(e),
            MicroOp::Store(Addr::Hl, Byte::Z),
            MicroOp::Fetch,
        ],
        e is IncZ || e is DecZ,
    ensures
        ({
            let c2 = effect_result(
                CpuView {
                    z: mem[c.reg.hl() as int],
                    micro: seq![MicroOp::Store(Addr::Hl, Byte::Z), MicroOp::Fetch],
                    ..c
                },
                e,
            );
            &&& run_to_fetch(c, mem, 10).0.reg == c2.reg
            &&& run_to_fetch(c, mem, 10).1 == mem.update(c2.reg.hl() as int, c2.z)
        }),
{
    lemma_peel(c, mem, 10);
    let c1 = micro_step(c, mem).0;
    assert(c1.micro =~= seq![MicroOp::Exec(e), MicroOp::Store(Addr::Hl, Byte::Z), MicroOp::Fetch]);
    lemma_peel(c1, mem, 9);
    assert(c1.micro.drop_first() =~= seq![MicroOp::Store(Addr::Hl, Byte::Z), MicroOp::Fetch]);
    let c2 = micro_step(c1, mem).0;
    lemma_peel(c2, mem, 8);
    let c3 = micro_step(c2, mem).0;
    assert(c3.micro =~= seq![MicroOp::Fetch]);
}

/// An immediate byte read into Z (PC steps past it), a micro-op that uses
/// it, then the fetch.
proof fn lemma_run_imm(c: CpuView, mem: Seq<u8>, m: MicroOp)
    requires
        c.micro == seq![MicroOp::ImmZ, m, MicroOp::Fetch],
        m is Store || (m matches MicroOp::Exec(e) && (e is LdRZ || e is AluZ)),
    ensures
        ({
            let c1 = CpuView {
                z: mem[c.reg.pc as int],
                reg: Registers { pc: ((c.reg.pc + 1) % 65536) as u16, ..c.reg },
                micro: seq![m, MicroOp::Fetch],
                ..c
            };
            run_to_fetch(c, mem, 10) == run_to_fetch(micro_step(c1, mem).0, micro_step(c1, mem).1, 8)
                && micro_step(c1, mem).0.micro =~= seq![MicroOp::Fetch]
        }),
{
    lemma_peel(c, mem, 10);
    let c1 = micro_step(c, mem).0;
    assert(c1.micro =~= seq![m, MicroOp::Fetch]);
    lemma_peel(c1, mem, 9);
    assert(c1.micro.drop_first() =~= seq![MicroOp::Fetch]);
}

/// What INC r (z = 4) and DEC r (z = 5) leave in the registers and memory,
/// `y` naming r, 6 being [HL].
spec fn unary8_result(reg: Registers, mem: Seq<u8>, y: int, z: int) -> (Registers, Seq<u8>) {
    let v0 = if y == 6 { mem[reg.hl() as int] } else { get_r8(reg, r8_index(y)) };
    let (flagged, v) = if z == 4 { inc8_result(reg, v0) } else { dec8_result(reg, v0) };
    if y == 6 {
        (flagged, mem.update(reg.hl() as int, v))
    } else {
        (set_r8(flagged, r8_index(y), v), mem)
    }
}

/// What LD r,n leaves in the registers and memory, PC already past the
/// opcode: n is the byte at PC, and PC steps past it.
spec fn imm8_result(reg: Registers, mem: Seq<u8>, y: int) -> (Registers, Seq<u8>) {
    let n = mem[reg.pc as int];
    let stepped = Registers { pc: ((reg.pc + 1) % 65536) as u16, ..reg };
    if y == 6 {
        (stepped, mem.update(reg.hl() as int, n))
    } else {
        (set_r8(stepped, r8_index(y), n), mem)
    }
}

/// The core's programs for INC r, DEC r and LD r,n.
#[verifier::spinoff_prover]
#[verifier::rlimit(40)]
proof fn lemma_core_unary8(c: CpuView, mem: Seq<u8>, y: int, z: int)
    requires
        0 <= y < 8,
        4 <= z <= 6,
        c.micro == decoded_x0(y, z, y / 2, y % 2).push(MicroOp::Fetch),
    ensures
        z <= 5 ==> run_to_fetch(c, mem, 10).0.reg == unary8_result(c.reg, mem, y, z).0,
        z <= 5 ==> run_to_fetch(c, mem, 10).1 == unary8_result(c.reg, mem, y, z).1,
        z == 6 ==> run_to_fetch(c, mem, 10).0.reg == imm8_result(c.reg, mem, y).0,
        z == 6 ==> run_to_fetch(c, mem, 10).1 == imm8_result(c.reg, mem, y).1,
{
    let f = MicroOp::Fetch;
    if z == 6 {
        let m = if y == 6 {
            MicroOp::Store(Addr::Hl, Byte::Z)
        } else {
            MicroOp::Exec(Effect::LdRZ(r8_index(y)))
        };
        assert(c.micro =~= seq![MicroOp::ImmZ, m, f]);
        lemma_run_imm(c, mem, m);
    } else if y == 6 {
        let e = if z == 4 { Effect::IncZ } else { Effect::DecZ };
        assert(c.micro =~= seq![MicroOp::LoadZ(Addr::Hl), MicroOp::Exec(e), MicroOp::Store(Addr::Hl, Byte::Z), f]);
        lemma_run_rmw(c, mem, e);
    } else {
        let e = if z == 4 { Effect::IncR(r8_index(y)) } else { Effect::DecR(r8_index(y)) };
        assert(c.micro =~= seq![MicroOp::Exec(e), f]);
        lemma_run_exec(c, mem, e);
    }
}

/// The interpreter's INC r, DEC r and LD r,n.
#[verifier::spinoff_prover]
#[verifier::rlimit(40)]
proof fn lemma_interp_unary8(s: CpuState<Seq<u8>>, y: int, z: int)
    requires
        s.mem.len() == 0x10000,
        0 <= y < 8,
        4 <= z <= 6,
        s.mem[s.reg.pc as int] == y * 8 + z,
    ensures
        z <= 5 ==> op_result::<Ram>(s).0.reg == unary8_result(fetch8::<Ram>(s).0.reg, s.mem, y, z).0,
        z <= 5 ==> op_result::<Ram>(s).0.mem == unary8_result(fetch8::<Ram>(s).0.reg, s.mem, y, z).1,
        z == 6 ==> op_result::<Ram>(s).0.reg == imm8_result(fetch8::<Ram>(s).0.reg, s.mem, y).0,
        z == 6 ==> op_result::<Ram>(s).0.mem == imm8_result(fetch8::<Ram>(s).0.reg, s.mem, y).1,
{
    lemma_op_result_x0(s);
}

/// INC r, DEC r and LD r,n, r a register or [HL]: the core's micro-op
/// program for the opcode does to the registers and memory what the
/// instruction-level interpreter does.
#[verifier::spinoff_prover]
#[verifier::rlimit(40)]
proof fn lemma_agrees_unary8(c: CpuView, mem: Seq<u8>)
    requires
        mem.len() == 0x10000,
        mem[((c.reg.pc + 65535) % 65536) as int] < 0x40,
        4 <= mem[((c.reg.pc + 65535) % 65536) as int] % 8 <= 6,
        c.micro == decoded(mem[((c.reg.pc + 65535) % 65536) as int]),
    ensures
        agrees(c, mem),
{
    let op = mem[((c.reg.pc + 65535) % 65536) as int];
    let y = (op / 8) as int;
    let z = (op % 8) as int;
    assert(op == y * 8 + z);
    let s = at_opcode(c, mem);
    lemma_at_opcode(c, mem);
    assert(op / 64 == 0 && (op / 8) % 8 == y);
    assert(c.micro =~= decoded_x0(y, z, y / 2, y % 2).push(MicroOp::Fetch));
    lemma_core_unary8(c, mem, y, z);
    lemma_interp_unary8(s, y, z);
}

/// What RLCA, RRCA, RLA, RRA, DAA, CPL, SCF and CCF leave in the
/// registers, `y` naming the operation.
spec fn acc_result(c: CpuView, y: int) -> Registers {
    effect_result(c.with_micro(seq![MicroOp::Fetch]), decoded_x0(y, 7, y / 2, y % 2)[0]->Exec_0).reg
}

/// The core's programs for the accumulator and carry operations.
#[verifier::spinoff_prover]
#[verifier::rlimit(40)]
proof fn lemma_core_acc(c: CpuView, mem: Seq<u8>, y: int)
    requires
        0 <= y < 8,
        c.micro == decoded_x0(y, 7, y / 2, y % 2).push(MicroOp::Fetch),
    ensures
        run_to_fetch(c, mem, 10).0.reg == acc_result(c, y),
        run_to_fetch(c, mem, 10).1 == mem,
{
    let e = decoded_x0(y, 7, y / 2, y % 2)[0]->Exec_0;
    assert(c.micro =~= seq![MicroOp::Exec(e), MicroOp::Fetch]);
    lemma_run_exec(c, mem, e);
}

/// The interpreter's accumulator and carry operations.
#[verifier::spinoff_prover]
#[verifier::rlimit(40)]
proof fn lemma_interp_acc(s: CpuState<Seq<u8>>, c: CpuView, y: int)
    requires
        s.mem.len() == 0x10000,
        0 <= y < 8,
        s.mem[s.reg.pc as int] == y * 8 + 7,
        c.reg == fetch8::<Ram>(s).0.reg,
    ensures
        op_result::<Ram>(s).0.reg == acc_result(c, y),
        op_result::<Ram>(s).0.mem == s.mem,
{
    lemma_op_result_x0(s);
    let reg = fetch8::<Ram>(s).0.reg;
    lemma_flag_bits(Registers { a: (255 - reg.a) as u8, ..reg }.f, false, true, true, false);
    lemma_flag_bits(reg.f, false, false, false, true);
    lemma_flag_bits(reg.f, false, false, false, !reg.flag(Flags::C));
}

/// RLCA, RRCA, RLA, RRA, DAA, CPL, SCF and CCF: the core's micro-op program
/// for the opcode does to the registers and memory what the
/// instruction-level interpreter does.
#[verifier::spinoff_prover]
#[verifier::rlimit(40)]
proof fn lemma_agrees_acc(c: CpuView, mem: Seq<u8>)
    requires
        mem.len() == 0x10000,
        mem[((c.reg.pc + 65535) % 65536) as int] < 0x40,
        mem[((c.reg.pc + 65535) % 65536) as int] % 8 == 7,
        c.micro == decoded(mem[((c.reg.pc + 65535) % 65536) as int]),
    ensures
        agrees(c, mem),
{
    let op = mem[((c.reg.pc + 65535) % 65536) as int];
    let y = (op / 8) as int;
    assert(op == y * 8 + 7);
    let s = at_opcode(c, mem);
    lemma_at_opcode(c, mem);
    assert(op / 64 == 0 && (op / 8) % 8 == y && op % 8 == 7);
    assert(c.micro =~= decoded_x0(y, 7, y / 2, y % 2).push(MicroOp::Fetch));
    lemma_core_acc(c, mem, y);
    lemma_interp_acc(s, c, y);
}

/// Two immediate bytes read into Z and W (PC steps past both), the word
/// they make loaded into `r`, then the fetch.
proof fn lemma_run_imm16(c: CpuView, mem: Seq<u8>, r: R16)
    requires
        c.micro == seq![MicroOp::ImmZ, MicroOp::ImmW, MicroOp::Exec(Effect::LdRpWz(r)), MicroOp::Fetch],
    ensures
        run_to_fetch(c, mem, 10).0.reg == word_load(c.reg, mem, r),
        run_to_fetch(c, mem, 10).1 == mem,
{
    lemma_peel(c, mem, 10);
    let c1 = micro_step(c, mem).0;
    assert(c1.micro =~= seq![MicroOp::ImmW, MicroOp::Exec(Effect::LdRpWz(r)), MicroOp::Fetch]);
    lemma_peel(c1, mem, 9);
    let c2 = micro_step(c1, mem).0;
    assert(c2.micro =~= seq![MicroOp::Exec(Effect::LdRpWz(r)), MicroOp::Fetch]);
    lemma_peel(c2, mem, 8);
    let c3 = micro_step(c2, mem).0;
    assert(c3.micro =~= seq![MicroOp::Fetch]);
}

/// An internal cycle, ADD HL,`r`, then the fetch.
proof fn lemma_run_add_hl(c: CpuView, mem: Seq<u8>, r: R16)
    requires
        c.micro == seq![MicroOp::Internal, MicroOp::Exec(Effect::AddHl(r)), MicroOp::Fetch],
    ensures
        run_to_fetch(c, mem, 10).0.reg == add_hl_result(c.reg, get_r16(c.reg, r)),
        run_to_fetch(c, mem, 10).1 == mem,
{
    lemma_peel(c, mem, 10);
    let c1 = micro_step(c, mem).0;
    assert(c1.micro =~= seq![MicroOp::Exec(Effect::AddHl(r)), MicroOp::Fetch]);
    lemma_run_exec(c1, mem, Effect::AddHl(r));
    assert(run_to_fetch(c, mem, 10) == run_to_fetch(c1, mem, 9));
    lemma_peel(c1, mem, 9);
    assert(c1.micro.drop_first() =~= seq![MicroOp::Fetch]);
}

/// LD rr,nn, PC already past the opcode: the word at PC (low byte first)
/// goes to `r`, and PC steps past it.
spec fn word_load(reg: Registers, mem: Seq<u8>, r: R16) -> Registers {
    let pc1 = ((reg.pc + 1) % 65536) as u16;
    let pc2 = ((pc1 + 1) % 65536) as u16;
    set_r16(Registers { pc: pc2, ..reg }, r, pair(mem[pc1 as int], mem[reg.pc as int]))
}

/// What LD rr,nn (even `y`) and ADD HL,rr (odd `y`) leave in the registers.
spec fn word_result(reg: Registers, mem: Seq<u8>, y: int) -> Registers {
    if y % 2 == 0 {
        word_load(reg, mem, rp_index(y / 2))
    } else {
        add_hl_result(reg, get_r16(reg, rp_index(y / 2)))
    }
}

/// The core's programs for LD rr,nn and ADD HL,rr.
#[verifier::spinoff_prover]
#[verifier::rlimit(40)]
proof fn lemma_core_word(c: CpuView, mem: Seq<u8>, y: int)
    requires
        0 <= y < 8,
        c.micro == decoded_x0(y, 1, y / 2, y % 2).push(MicroOp::Fetch),
    ensures
        run_to_fetch(c, mem, 10).0.reg == word_result(c.reg, mem, y),
        run_to_fetch(c, mem, 10).1 == mem,
{
    let r = rp_index(y / 2);
    if y % 2 == 0 {
        assert(c.micro =~= seq![MicroOp::ImmZ, MicroOp::ImmW, MicroOp::Exec(Effect::LdRpWz(r)), MicroOp::Fetch]);
        lemma_run_imm16(c, mem, r);
    } else {
        assert(c.micro =~= seq![MicroOp::Internal, MicroOp::Exec(Effect::AddHl(r)), MicroOp::Fetch]);
        lemma_run_add_hl(c, mem, r);
    }
}

/// The interpreter's LD rr,nn and ADD HL,rr.
#[verifier::spinoff_prover]
#[verifier::rlimit(40)]
proof fn lemma_interp_word(s: CpuState<Seq<u8>>, y: int)
    requires
        s.mem.len() == 0x10000,
        0 <= y < 8,
        s.mem[s.reg.pc as int] == y * 8 + 1,
    ensures
        op_result::<Ram>(s).0.reg == word_result(fetch8::<Ram>(s).0.reg, s.mem, y),
        op_result::<Ram>(s).0.mem == s.mem,
{
    lemma_op_result_x0(s);
    let pc = fetch8::<Ram>(s).0.reg.pc;
    lemma_wrap16(pc);
    assert(((pc + 2) % 65536) == (((pc + 1) % 65536) + 1) % 65536);
}

/// LD BC/DE/HL/SP,nn and ADD HL,BC/DE/HL/SP: the core's micro-op program
/// for the opcode does to the registers and memory what the
/// instruction-level interpreter does.
#[verifier::spinoff_prover]
#[verifier::rlimit(40)]
proof fn lemma_agrees_word(c: CpuView, mem: Seq<u8>)
    requires
        mem.len() == 0x10000,
        mem[((c.reg.pc + 65535) % 65536) as int] < 0x40,
        mem[((c.reg.pc + 65535) % 65536) as int] % 8 == 1,
        c.micro == decoded(mem[((c.reg.pc + 65535) % 65536) as int]),
    ensures
        agrees(c, mem),
{
    let op = mem[((c.reg.pc + 65535) % 65536) as int];
    let y = (op / 8) as int;
    assert(op == y * 8 + 1);
    let s = at_opcode(c, mem);
    lemma_at_opcode(c, mem);
    assert(op / 64 == 0 && (op / 8) % 8 == y && op % 8 == 1);
    assert(c.micro =~= decoded_x0(y, 1, y / 2, y % 2).push(MicroOp::Fetch));
    lemma_core_word(c, mem, y);
    lemma_interp_word(s, y);
}

/// Two immediate bytes read into Z and W, PC stepping past both; the run
/// goes on with the rest of the program.
proof fn lemma_peel_imm16(c: CpuView, mem: Seq<u8>, rest: Seq<MicroOp>)
    requires
        c.micro == seq![MicroOp::ImmZ, MicroOp::ImmW] + rest,
        rest.len() > 0,
        !(rest[0] is Fetch),
    ensures
        ({
            let pc1 = ((c.reg.pc + 1) % 65536) as u16;
            let pc2 = ((pc1 + 1) % 65536) as u16;
            run_to_fetch(c, mem, 10) == run_to_fetch(
                CpuView {
                    z: mem[c.reg.pc as int],
                    w: mem[pc1 as int],
                    reg: Registers { pc: pc2, ..c.reg },
                    micro: rest,
                    ..c
                },
                mem,
                8,
            )
        }),
{
    lemma_peel(c, mem, 10);
    let c1 = micro_step(c, mem).0;
    assert(c1.micro =~= seq![MicroOp::ImmW] + rest);
    lemma_peel(c1, mem, 9);
    let c2 = micro_step(c1, mem).0;
    assert(c2.micro =~= rest);
}

/// What the high-page loads, the absolute loads of A, the ALU with an
/// immediate, JP nn, JP HL, LD SP,HL, DI and EI leave in the registers and
/// memory, PC already past the opcode.
spec fn x3_simple_result(reg: Registers, mem: Seq<u8>, y: int, z: int) -> (Registers, Seq<u8>) {
    let pc1 = ((reg.pc + 1) % 65536) as u16;
    let pc2 = ((pc1 + 1) % 65536) as u16;
    let n = mem[reg.pc as int];
    let nn = pair(mem[pc1 as int], n);
    let r1 = Registers { pc: pc1, ..reg };
    let r2 = Registers { pc: pc2, ..reg };
    if z == 6 {
        (alu_result(r1, alu_index(y), n), mem)
    } else if z == 0 && y == 4 {
        (r1, mem.update(0xFF00 + n, reg.a))
    } else if z == 0 {
        (Registers { a: mem[0xFF00 + n], ..r1 }, mem)
    } else if z == 2 && y == 4 {
        (reg, mem.update(0xFF00 + reg.c, reg.a))
    } else if z == 2 && y == 6 {
        (Registers { a: mem[0xFF00 + reg.c], ..reg }, mem)
    } else if z == 2 && y == 5 {
        (r2, mem.update(nn as int, reg.a))
    } else if z == 2 {
        (Registers { a: mem[nn as int], ..r2 }, mem)
    } else if z == 1 && y == 5 {
        (Registers { pc: reg.hl(), ..reg }, mem)
    } else if z == 1 {
        (Registers { sp: reg.hl(), ..reg }, mem)
    } else if y == 0 {
        (Registers { pc: nn, ..reg }, mem)
    } else {
        (reg, mem)
    }
}

/// The opcodes of the 0xC0-0xFF block that `x3_simple_result` covers.
spec fn x3_simple(y: int, z: int) -> bool {
    ||| z == 6
    ||| z == 0 && (y == 4 || y == 6)
    ||| z == 2 && y >= 4
    ||| z == 1 && (y == 5 || y == 7)
    ||| z == 3 && (y == 0 || y == 6 || y == 7)
}

/// The core's programs for the immediate forms: the ALU with an immediate,
/// LDH (n),A and LDH A,(n).
#[verifier::spinoff_prover]
#[verifier::rlimit(40)]
proof fn lemma_core_x3_imm(c: CpuView, mem: Seq<u8>, y: int, z: int)
    requires
        0 <= y < 8,
        0 <= z < 8,
        x3_simple(y, z),
        z == 6 || z == 0,
        c.micro == decoded_x3(y, z, y / 2, y % 2).push(MicroOp::Fetch),
    ensures
        run_to_fetch(c, mem, 10).0.reg == x3_simple_result(c.reg, mem, y, z).0,
        run_to_fetch(c, mem, 10).1 == x3_simple_result(c.reg, mem, y, z).1,
{
    let f = MicroOp::Fetch;
    let lda = MicroOp::Exec(Effect::LdRZ(R8::A));
    let pc1 = ((c.reg.pc + 1) % 65536) as u16;
    let pc2 = ((pc1 + 1) % 65536) as u16;
    let cw = |rest: Seq<MicroOp>| CpuView {
        z: mem[c.reg.pc as int],
        w: mem[pc1 as int],
        reg: Registers { pc: pc2, ..c.reg },
        micro: rest,
        ..c
    };
    if z == 6 {
        let m = MicroOp::Exec(Effect::AluZ(alu_index(y)));
        assert(c.micro =~= seq![MicroOp::ImmZ, m, f]);
        lemma_run_imm(c, mem, m);
    } else if y == 4 {
        let m = MicroOp::Store(Addr::HighZ, Byte::Reg(R8::A));
        assert(c.micro =~= seq![MicroOp::ImmZ, m, f]);
        lemma_run_imm(c, mem, m);
    } else {
        assert(c.micro =~= seq![MicroOp::ImmZ, MicroOp::LoadZ(Addr::HighZ), lda, f]);
        lemma_peel(c, mem, 10);
        let c1 = micro_step(c, mem).0;
        assert(c1.micro =~= seq![MicroOp::LoadZ(Addr::HighZ), lda, f]);
        lemma_run_load_tail(c1, mem, 9, Addr::HighZ);
    }
}

/// The core's programs for LD (C),A, LD A,(C), LD (nn),A and LD A,(nn).
#[verifier::spinoff_prover]
#[verifier::rlimit(40)]
proof fn lemma_core_x3_ld(c: CpuView, mem: Seq<u8>, y: int, z: int)
    requires
        0 <= y < 8,
        0 <= z < 8,
        x3_simple(y, z),
        z == 2,
        c.micro == decoded_x3(y, z, y / 2, y % 2).push(MicroOp::Fetch),
    ensures
        run_to_fetch(c, mem, 10).0.reg == x3_simple_result(c.reg, mem, y, z).0,
        run_to_fetch(c, mem, 10).1 == x3_simple_result(c.reg, mem, y, z).1,
{
    let f = MicroOp::Fetch;
    let lda = MicroOp::Exec(Effect::LdRZ(R8::A));
    let pc1 = ((c.reg.pc + 1) % 65536) as u16;
    let pc2 = ((pc1 + 1) % 65536) as u16;
    let cw = |rest: Seq<MicroOp>| CpuView {
        z: mem[c.reg.pc as int],
        w: mem[pc1 as int],
        reg: Registers { pc: pc2, ..c.reg },
        micro: rest,
        ..c
    };
    if y == 4 {
        assert(c.micro =~= seq![MicroOp::Store(Addr::HighC, Byte::Reg(R8::A)), f]);
        lemma_run_store(c, mem, Addr::HighC, Byte::Reg(R8::A));
    } else if y == 6 {
        assert(c.micro =~= seq![MicroOp::LoadZ(Addr::HighC), lda, f]);
        lemma_run_load(c, mem, Addr::HighC);
    } else if y == 5 {
        let rest = seq![MicroOp::Store(Addr::Wz, Byte::Reg(R8::A)), f];
        assert(c.micro =~= seq![MicroOp::ImmZ, MicroOp::ImmW] + rest);
        lemma_peel_imm16(c, mem, rest);
        lemma_peel(cw(rest), mem, 8);
        assert(micro_step(cw(rest), mem).0.micro =~= seq![f]);
    } else {
        let rest = seq![MicroOp::LoadZ(Addr::Wz), lda, f];
        assert(c.micro =~= seq![MicroOp::ImmZ, MicroOp::ImmW] + rest);
        lemma_peel_imm16(c, mem, rest);
        lemma_run_load_tail(cw(rest), mem, 8, Addr::Wz);
    }
}

/// The core's programs for JP HL, LD SP,HL, JP nn, DI and EI.
#[verifier::spinoff_prover]
#[verifier::rlimit(60)]
proof fn lemma_core_x3_jump(c: CpuView, mem: Seq<u8>, y: int, z: int)
    requires
        0 <= y < 8,
        0 <= z < 8,
        x3_simple(y, z),
        z == 1 || z == 3,
        c.micro == decoded_x3(y, z, y / 2, y % 2).push(MicroOp::Fetch),
    ensures
        run_to_fetch(c, mem, 10).0.reg == x3_simple_result(c.reg, mem, y, z).0,
        run_to_fetch(c, mem, 10).1 == x3_simple_result(c.reg, mem, y, z).1,
{
    let f = MicroOp::Fetch;
    if z == 1 {
        lemma_core_x3_hl(c, mem, y);
    } else if y == 0 {
        assert(c.micro =~= seq![MicroOp::ImmZ, MicroOp::ImmW, MicroOp::Internal, MicroOp::Exec(Effect::SetPcWz), f]);
        lemma_core_jp(c, mem);
    } else if y == 6 {
        assert(c.micro =~= seq![MicroOp::Exec(Effect::Di), f]);
        lemma_run_exec(c, mem, Effect::Di);
    } else {
        assert(c.micro =~= seq![MicroOp::Exec(Effect::Ei), f]);
        lemma_run_exec(c, mem, Effect::Ei);
    }
}

/// The core's program for JP nn.
#[verifier::spinoff_prover]
#[verifier::rlimit(40)]
proof fn lemma_core_jp(c: CpuView, mem: Seq<u8>)
    requires
        c.micro == seq![
            MicroOp::ImmZ,
            MicroOp::ImmW,
            MicroOp::Internal,
            MicroOp::Exec(Effect::SetPcWz),
            MicroOp::Fetch,
        ],
    ensures
        run_to_fetch(c, mem, 10).0.reg == x3_simple_result(c.reg, mem, 0, 3).0,
        run_to_fetch(c, mem, 10).1 == mem,
{
    let f = MicroOp::Fetch;
    let pc1 = ((c.reg.pc + 1) % 65536) as u16;
    let pc2 = ((pc1 + 1) % 65536) as u16;
    let rest = seq![MicroOp::Internal, MicroOp::Exec(Effect::SetPcWz), f];
    assert(c.micro =~= seq![MicroOp::ImmZ, MicroOp::ImmW] + rest);
    lemma_peel_imm16(c, mem, rest);
    let c2 = CpuView {
        z: mem[c.reg.pc as int],
        w: mem[pc1 as int],
        reg: Registers { pc: pc2, ..c.reg },
        micro: rest,
        ..c
    };
    lemma_peel(c2, mem, 8);
    let c3 = micro_step(c2, mem).0;
    assert(c3.micro =~= seq![MicroOp::Exec(Effect::SetPcWz), f]);
    lemma_peel(c3, mem, 7);
    assert(c3.micro.drop_first() =~= seq![f]);
}

/// The core's programs for JP HL and LD SP,HL.
#[verifier::spinoff_prover]
#[verifier::rlimit(40)]
proof fn lemma_core_x3_hl(c: CpuView, mem: Seq<u8>, y: int)
    requires
        y == 5 || y == 7,
        c.micro == decoded_x3(y, 1, y / 2, y % 2).push(MicroOp::Fetch),
    ensures
        run_to_fetch(c, mem, 10).0.reg == x3_simple_result(c.reg, mem, y, 1).0,
        run_to_fetch(c, mem, 10).1 == x3_simple_result(c.reg, mem, y, 1).1,
{
    let f = MicroOp::Fetch;
    if y == 5 {
        assert(c.micro =~= seq![MicroOp::Exec(Effect::SetPcHl), f]);
        lemma_run_exec(c, mem, Effect::SetPcHl);
    } else {
        let e = Effect::LdSpHl;
        assert(c.micro =~= seq![MicroOp::Internal, MicroOp::Exec(e), f]);
        lemma_peel(c, mem, 10);
        let c1 = micro_step(c, mem).0;
        assert(c1.micro =~= seq![MicroOp::Exec(e), f]);
        lemma_peel(c1, mem, 9);
        assert(c1.micro.drop_first() =~= seq![f]);
    }
}

/// A load of A from `a`, then the fetch, with `fuel` micro-ops to go.
proof fn lemma_run_load_tail(c: CpuView, mem: Seq<u8>, fuel: nat, a: Addr)
    requires
        fuel >= 3,
        c.micro == seq![MicroOp::LoadZ(a), MicroOp::Exec(Effect::LdRZ(R8::A)), MicroOp::Fetch],
    ensures
        run_to_fetch(c, mem, fuel).0.reg == (Registers { a: mem[c.address(a) as int], ..c.reg }),
        run_to_fetch(c, mem, fuel).1 == mem,
{
    lemma_peel(c, mem, fuel);
    let c1 = micro_step(c, mem).0;
    assert(c1.micro =~= seq![MicroOp::Exec(Effect::LdRZ(R8::A)), MicroOp::Fetch]);
    lemma_peel(c1, mem, (fuel - 1) as nat);
    let c2 = micro_step(c1, mem).0;
    assert(c2.micro =~= seq![MicroOp::Fetch]);
}

/// The interpreter's versions of those opcodes.
#[verifier::spinoff_prover]
#[verifier::rlimit(60)]
proof fn lemma_interp_x3_simple(s: CpuState<Seq<u8>>, y: int, z: int)
    requires
        s.mem.len() == 0x10000,
        0 <= y < 8,
        0 <= z < 8,
        x3_simple(y, z),
        s.mem[s.reg.pc as int] == 192 + y * 8 + z,
    ensures
        op_result::<Ram>(s).0.reg == x3_simple_result(fetch8::<Ram>(s).0.reg, s.mem, y, z).0,
        op_result::<Ram>(s).0.mem == x3_simple_result(fetch8::<Ram>(s).0.reg, s.mem, y, z).1,
{
    let op = s.mem[s.reg.pc as int];
    assert(op / 64 == 3 && (op / 8) % 8 == y && op % 8 == z);
    lemma_op_result_x3(s);
    let pc = fetch8::<Ram>(s).0.reg.pc;
    lemma_wrap16(pc);
    assert(((pc + 2) % 65536) == (((pc + 1) % 65536) + 1) % 65536);
}

/// An opcode of 0xC0 or above is stepped by the x = 3 group of the
/// interpreter.
proof fn lemma_op_result_x3(s: CpuState<Seq<u8>>)
    requires
        Ram::peek(s.mem, s.reg.pc) >= 192,
    ensures
        op_result::<Ram>(s) == x3_result::<Ram>(
            fetch8::<Ram>(s).0,
            ((fetch8::<Ram>(s).1 / 8) % 8) as int,
            (fetch8::<Ram>(s).1 % 8) as int,
        ),
{
}

/// LDH (n),A, LDH A,(n), LD (C),A, LD A,(C), LD (nn),A, LD A,(nn), the ALU
/// with an immediate, JP nn, JP HL, LD SP,HL, DI and EI: the core's
/// micro-op program for the opcode does to the registers and memory what
/// the instruction-level interpreter does.
#[verifier::spinoff_prover]
#[verifier::rlimit(40)]
proof fn lemma_agrees_x3_simple(c: CpuView, mem: Seq<u8>)
    requires
        mem.len() == 0x10000,
        mem[((c.reg.pc + 65535) % 65536) as int] >= 0xC0,
        x3_simple(
            ((mem[((c.reg.pc + 65535) % 65536) as int] / 8) % 8) as int,
            (mem[((c.reg.pc + 65535) % 65536) as int] % 8) as int,
        ),
        c.micro == decoded(mem[((c.reg.pc + 65535) % 65536) as int]),
    ensures
        agrees(c, mem),
{
    let op = mem[((c.reg.pc + 65535) % 65536) as int];
    let y = ((op / 8) % 8) as int;
    let z = (op % 8) as int;
    assert(op == 192 + y * 8 + z);
    let s = at_opcode(c, mem);
    lemma_at_opcode(c, mem);
    assert(op / 64 == 3 && op != 0xCB);
    assert(c.micro =~= decoded_x3(y, z, y / 2, y % 2).push(MicroOp::Fetch));
    if z == 6 || z == 0 {
        lemma_core_x3_imm(c, mem, y, z);
    } else if z == 2 {
        lemma_core_x3_ld(c, mem, y, z);
    } else {
        lemma_core_x3_jump(c, mem, y, z);
    }
    lemma_interp_x3_simple(s, y, z);
}

/// The core after popping a word off the stack into W (high) and Z (low),
/// SP stepped up twice, with `rest` still queued.
spec fn popped(c: CpuView, mem: Seq<u8>, rest: Seq<MicroOp>) -> CpuView {
    let sp1 = inc16(c.reg.sp);
    CpuView {
        z: mem[c.reg.sp as int],
        w: mem[sp1 as int],
        reg: Registers { sp: inc16(sp1), ..c.reg },
        oam_glitch: c.oam_glitch || in_oam_region(c.reg.sp) || in_oam_region(sp1),
        micro: rest,
        ..c
    }
}

/// Two bytes read off the stack (low first), SP stepped past each.
proof fn lemma_peel_pop(c: CpuView, mem: Seq<u8>, rest: Seq<MicroOp>, fuel: nat)
    requires
        fuel >= 4,
        c.micro == seq![
            MicroOp::LoadZ(Addr::Sp),
            MicroOp::Exec(Effect::SpInc),
            MicroOp::LoadW(Addr::Sp),
            MicroOp::Exec(Effect::SpInc),
        ] + rest,
    ensures
        run_to_fetch(c, mem, fuel) == run_to_fetch(popped(c, mem, rest), mem, (fuel - 4) as nat),
{
    lemma_peel(c, mem, fuel);
    let c1 = micro_step(c, mem).0;
    assert(c1.micro =~= seq![MicroOp::Exec(Effect::SpInc), MicroOp::LoadW(Addr::Sp), MicroOp::Exec(Effect::SpInc)] + rest);
    lemma_peel(c1, mem, (fuel - 1) as nat);
    let c2 = micro_step(c1, mem).0;
    assert(c2.micro =~= seq![MicroOp::LoadW(Addr::Sp), MicroOp::Exec(Effect::SpInc)] + rest);
    lemma_peel(c2, mem, (fuel - 2) as nat);
    let c3 = micro_step(c2, mem).0;
    assert(c3.micro =~= seq![MicroOp::Exec(Effect::SpInc)] + rest);
    lemma_peel(c3, mem, (fuel - 3) as nat);
    let c4 = micro_step(c3, mem).0;
    assert(c4.micro =~= rest);
    assert(c4 == popped(c, mem, rest));
}

/// The core after pushing the bytes `hi` then `lo` below SP, SP stepped
/// down twice, with `rest` still queued.
spec fn pushed(c: CpuView, rest: Seq<MicroOp>) -> CpuView {
    let sp1 = dec16(c.reg.sp);
    CpuView {
        reg: Registers { sp: dec16(sp1), ..c.reg },
        oam_glitch: c.oam_glitch || in_oam_region(c.reg.sp) || in_oam_region(sp1),
        micro: rest,
        ..c
    }
}

/// The memory after that push.
spec fn pushed_mem(c: CpuView, mem: Seq<u8>, hi: Byte, lo: Byte) -> Seq<u8> {
    let sp1 = dec16(c.reg.sp);
    mem.update(sp1 as int, c.byte(hi)).update(dec16(sp1) as int, c.byte(lo))
}

/// SP stepped down and one byte stored there.
proof fn lemma_peel_push_one(c: CpuView, mem: Seq<u8>, b: Byte, rest: Seq<MicroOp>, fuel: nat)
    requires
        fuel >= 2,
        c.micro == seq![MicroOp::Exec(Effect::SpDec), MicroOp::Store(Addr::Sp, b)] + rest,
        b is PcHigh || b is StkHigh || b is PcLow || b is StkLow,
    ensures
        run_to_fetch(c, mem, fuel) == run_to_fetch(
            CpuView {
                reg: Registers { sp: dec16(c.reg.sp), ..c.reg },
                oam_glitch: c.oam_glitch || in_oam_region(c.reg.sp),
                micro: rest,
                ..c
            },
            mem.update(dec16(c.reg.sp) as int, c.byte(b)),
            (fuel - 2) as nat,
        ),
{
    lemma_peel(c, mem, fuel);
    let c1 = micro_step(c, mem).0;
    assert(c1.micro =~= seq![MicroOp::Store(Addr::Sp, b)] + rest);
    assert(c1.byte(b) == c.byte(b));
    lemma_peel(c1, mem, (fuel - 1) as nat);
    let c2 = micro_step(c1, mem).0;
    assert(c2.micro =~= rest);
}

/// An internal cycle, then two bytes pushed below SP (high first).
proof fn lemma_peel_push(c: CpuView, mem: Seq<u8>, hi: Byte, lo: Byte, rest: Seq<MicroOp>)
    requires
        c.micro == seq![
            MicroOp::Internal,
            MicroOp::Exec(Effect::SpDec),
            MicroOp::Store(Addr::Sp, hi),
            MicroOp::Exec(Effect::SpDec),
            MicroOp::Store(Addr::Sp, lo),
        ] + rest,
        hi is PcHigh || hi is StkHigh,
        lo is PcLow || lo is StkLow,
    ensures
        run_to_fetch(c, mem, 10) == run_to_fetch(pushed(c, rest), pushed_mem(c, mem, hi, lo), 5),
{
    let sd = MicroOp::Exec(Effect::SpDec);
    lemma_peel(c, mem, 10);
    let c1 = micro_step(c, mem).0;
    let tail = seq![sd, MicroOp::Store(Addr::Sp, lo)] + rest;
    assert(c1.micro =~= seq![sd, MicroOp::Store(Addr::Sp, hi)] + tail);
    lemma_peel_push_one(c1, mem, hi, tail, 9);
    let c3 = CpuView {
        reg: Registers { sp: dec16(c1.reg.sp), ..c1.reg },
        oam_glitch: c1.oam_glitch || in_oam_region(c1.reg.sp),
        micro: tail,
        ..c1
    };
    let m3 = mem.update(dec16(c1.reg.sp) as int, c1.byte(hi));
    lemma_peel_push_one(c3, m3, lo, rest, 7);
    assert(c3.byte(lo) == c.byte(lo));
    assert(c1.byte(hi) == c.byte(hi));
}

/// What POP rr, RET, RETI, PUSH rr and RST n leave in the registers and
/// memory.
spec fn stack_result(reg: Registers, mem: Seq<u8>, y: int, z: int) -> (Registers, Seq<u8>) {
    let sp = reg.sp;
    let sp1 = inc16(sp);
    let top = pair(mem[sp1 as int], mem[sp as int]);
    let d1 = dec16(sp);
    let d2 = dec16(d1);
    if z == 1 && y % 2 == 0 {
        (set_stk16(Registers { sp: inc16(sp1), ..reg }, rp2_index(y / 2), top), mem)
    } else if z == 1 {
        (Registers { pc: top, sp: inc16(sp1), ..reg }, mem)
    } else if z == 5 {
        let v = get_stk16(reg, rp2_index(y / 2));
        (Registers { sp: d2, ..reg }, mem.update(d1 as int, high_byte(v)).update(d2 as int, low_byte(v)))
    } else {
        (
            Registers { sp: d2, pc: (y * 8) as u16, ..reg },
            mem.update(d1 as int, high_byte(reg.pc)).update(d2 as int, low_byte(reg.pc)),
        )
    }
}

/// The opcodes of the 0xC0-0xFF block that `stack_result` covers.
spec fn x3_stack(y: int, z: int) -> bool {
    ||| z == 1 && (y % 2 == 0 || y == 1 || y == 3)
    ||| z == 5 && y % 2 == 0
    ||| z == 7
}

/// The core's programs for POP rr, RET and RETI.
#[verifier::spinoff_prover]
#[verifier::rlimit(40)]
proof fn lemma_core_pop(c: CpuView, mem: Seq<u8>, y: int)
    requires
        0 <= y < 8,
        y % 2 == 0 || y == 1 || y == 3,
        c.micro == decoded_x3(y, 1, y / 2, y % 2).push(MicroOp::Fetch),
    ensures
        run_to_fetch(c, mem, 10).0.reg == stack_result(c.reg, mem, y, 1).0,
        run_to_fetch(c, mem, 10).1 == stack_result(c.reg, mem, y, 1).1,
{
    let f = MicroOp::Fetch;
    let pre = seq![
        MicroOp::LoadZ(Addr::Sp),
        MicroOp::Exec(Effect::SpInc),
        MicroOp::LoadW(Addr::Sp),
        MicroOp::Exec(Effect::SpInc),
    ];
    if y % 2 == 0 {
        let rest = seq![MicroOp::Exec(Effect::SetStkWz(rp2_index(y / 2))), f];
        assert(c.micro =~= pre + rest);
        lemma_peel_pop(c, mem, rest, 10);
        lemma_peel(popped(c, mem, rest), mem, 6);
        assert(popped(c, mem, rest).micro.drop_first() =~= seq![f]);
    } else {
        let e = if y == 1 { Effect::SetPcWz } else { Effect::Reti };
        let rest = seq![MicroOp::Internal, MicroOp::Exec(e), f];
        assert(c.micro =~= pre + rest);
        lemma_peel_pop(c, mem, rest, 10);
        let p = popped(c, mem, rest);
        lemma_peel(p, mem, 6);
        let p1 = micro_step(p, mem).0;
        assert(p1.micro =~= seq![MicroOp::Exec(e), f]);
        lemma_peel(p1, mem, 5);
        assert(p1.micro.drop_first() =~= seq![f]);
    }
}

/// The core's programs for PUSH rr and RST n.
#[verifier::spinoff_prover]
#[verifier::rlimit(40)]
proof fn lemma_core_push(c: CpuView, mem: Seq<u8>, y: int, z: int)
    requires
        0 <= y < 8,
        z == 5 && y % 2 == 0 || z == 7,
        c.micro == decoded_x3(y, z, y / 2, y % 2).push(MicroOp::Fetch),
    ensures
        run_to_fetch(c, mem, 10).0.reg == stack_result(c.reg, mem, y, z).0,
        run_to_fetch(c, mem, 10).1 == stack_result(c.reg, mem, y, z).1,
{
    let f = MicroOp::Fetch;
    let sd = MicroOp::Exec(Effect::SpDec);
    if z == 5 {
        let r = rp2_index(y / 2);
        let (hi, lo) = (Byte::StkHigh(r), Byte::StkLow(r));
        let rest = seq![f];
        assert(c.micro =~= seq![MicroOp::Internal, sd, MicroOp::Store(Addr::Sp, hi), sd, MicroOp::Store(Addr::Sp, lo)] + rest);
        lemma_peel_push(c, mem, hi, lo, rest);
    } else {
        let (hi, lo) = (Byte::PcHigh, Byte::PcLow);
        let rest = seq![MicroOp::Exec(Effect::SetPc((y * 8) as u16)), f];
        assert(c.micro =~= seq![MicroOp::Internal, sd, MicroOp::Store(Addr::Sp, hi), sd, MicroOp::Store(Addr::Sp, lo)] + rest);
        lemma_peel_push(c, mem, hi, lo, rest);
        let p = pushed(c, rest);
        lemma_peel(p, pushed_mem(c, mem, hi, lo), 5);
        assert(p.micro.drop_first() =~= seq![f]);
    }
}

/// The interpreter's POP rr, RET, RETI, PUSH rr and RST n.
#[verifier::spinoff_prover]
#[verifier::rlimit(60)]
proof fn lemma_interp_stack(s: CpuState<Seq<u8>>, y: int, z: int)
    requires
        s.mem.len() == 0x10000,
        0 <= y < 8,
        0 <= z < 8,
        x3_stack(y, z),
        s.mem[s.reg.pc as int] == 192 + y * 8 + z,
    ensures
        op_result::<Ram>(s).0.reg == stack_result(fetch8::<Ram>(s).0.reg, s.mem, y, z).0,
        op_result::<Ram>(s).0.mem == stack_result(fetch8::<Ram>(s).0.reg, s.mem, y, z).1,
{
    let op = s.mem[s.reg.pc as int];
    assert(op / 64 == 3 && (op / 8) % 8 == y && op % 8 == z);
    lemma_op_result_x3(s);
    let reg = fetch8::<Ram>(s).0.reg;
    let sp = reg.sp;
    lemma_wrap16(sp);
    let d1 = dec16(sp);
    let d2 = dec16(d1);
    lemma_wrap16(d2);
    assert(d2 == ((sp + 65534) % 65536) as u16);
    assert(inc16(d2) == d1);
    assert(d1 != d2);
    let m = s.mem;
    assert forall|hv: u8, lv: u8| m.update(d2 as int, lv).update(d1 as int, hv) =~= #[trigger] m.update(
        d1 as int,
        hv,
    ).update(d2 as int, lv) by {}
}

/// POP BC/DE/HL/AF, RET, RETI, PUSH BC/DE/HL/AF and the eight RSTs: the
/// core's micro-op program for the opcode does to the registers and memory
/// what the instruction-level interpreter does.
#[verifier::spinoff_prover]
#[verifier::rlimit(40)]
proof fn lemma_agrees_stack(c: CpuView, mem: Seq<u8>)
    requires
        mem.len() == 0x10000,
        mem[((c.reg.pc + 65535) % 65536) as int] >= 0xC0,
        x3_stack(
            ((mem[((c.reg.pc + 65535) % 65536) as int] / 8) % 8) as int,
            (mem[((c.reg.pc + 65535) % 65536) as int] % 8) as int,
        ),
        c.micro == decoded(mem[((c.reg.pc + 65535) % 65536) as int]),
    ensures
        agrees(c, mem),
{
    let op = mem[((c.reg.pc + 65535) % 65536) as int];
    let y = ((op / 8) % 8) as int;
    let z = (op % 8) as int;
    assert(op == 192 + y * 8 + z);
    let s = at_opcode(c, mem);
    lemma_at_opcode(c, mem);
    assert(op / 64 == 3 && op != 0xCB);
    assert(c.micro =~= decoded_x3(y, z, y / 2, y % 2).push(MicroOp::Fetch));
    if z == 1 {
        lemma_core_pop(c, mem, y);
    } else {
        lemma_core_push(c, mem, y, z);
    }
    lemma_interp_stack(s, y, z);
}

/// What JR e (`y` = 3) and JR cc,e (`y` = 4-7) leave in the registers, PC
/// already past the opcode: PC steps past the offset byte, and by the
/// sign-extended offset when the branch is taken.
spec fn jr_core_result(reg: Registers, mem: Seq<u8>, y: int) -> Registers {
    let pc1 = ((reg.pc + 1) % 65536) as u16;
    let taken = y == 3 || cond_holds(reg, cc_index(y - 4));
    if taken {
        Registers { pc: ((pc1 + sign_extend(mem[reg.pc as int])) % 65536) as u16, ..reg }
    } else {
        Registers { pc: pc1, ..reg }
    }
}

/// What JP cc,nn (`y` = 0-3) leaves in the registers, PC already past the
/// opcode: PC steps past the address, or takes it when the branch is taken.
spec fn jp_cc_core_result(reg: Registers, mem: Seq<u8>, y: int) -> Registers {
    let pc1 = ((reg.pc + 1) % 65536) as u16;
    let pc2 = ((pc1 + 1) % 65536) as u16;
    if cond_holds(reg, cc_index(y)) {
        Registers { pc: pair(mem[pc1 as int], mem[reg.pc as int]), ..reg }
    } else {
        Registers { pc: pc2, ..reg }
    }
}

/// The core's programs for JR e and JR cc,e.
#[verifier::spinoff_prover]
#[verifier::rlimit(40)]
proof fn lemma_core_jr(c: CpuView, mem: Seq<u8>, y: int)
    requires
        3 <= y < 8,
        c.micro == decoded_x0(y, 0, y / 2, y % 2).push(MicroOp::Fetch),
    ensures
        run_to_fetch(c, mem, 10).0.reg == jr_core_result(c.reg, mem, y),
        run_to_fetch(c, mem, 10).1 == mem,
{
    let f = MicroOp::Fetch;
    if y == 3 {
        assert(c.micro =~= seq![MicroOp::ImmZ, MicroOp::Internal, MicroOp::Exec(Effect::JrZ), f]);
        lemma_core_jr_taken(c, mem, 10);
    } else {
        let e = Effect::BranchRel(cc_index(y - 4));
        assert(c.micro =~= seq![MicroOp::ImmZ, MicroOp::Exec(e), f]);
        lemma_core_jr_cc(c, mem, y);
    }
}

/// The offset byte read, then the relative jump, then the fetch.
#[verifier::spinoff_prover]
#[verifier::rlimit(40)]
proof fn lemma_core_jr_taken(c: CpuView, mem: Seq<u8>, fuel: nat)
    requires
        fuel >= 3,
        c.micro == seq![MicroOp::ImmZ, MicroOp::Internal, MicroOp::Exec(Effect::JrZ), MicroOp::Fetch],
    ensures
        run_to_fetch(c, mem, fuel).0.reg == jr_core_result(c.reg, mem, 3),
        run_to_fetch(c, mem, fuel).1 == mem,
{
    let f = MicroOp::Fetch;
    lemma_peel(c, mem, fuel);
    let c1 = micro_step(c, mem).0;
    assert(c1.micro =~= seq![MicroOp::Internal, MicroOp::Exec(Effect::JrZ), f]);
    lemma_peel(c1, mem, (fuel - 1) as nat);
    let c2 = micro_step(c1, mem).0;
    assert(c2.micro =~= seq![MicroOp::Exec(Effect::JrZ), f]);
    lemma_peel(c2, mem, (fuel - 2) as nat);
    assert(c2.micro.drop_first() =~= seq![f]);
}

/// The core's programs for JR cc,e: the offset byte read, then the branch
/// decided on the flags.
#[verifier::spinoff_prover]
#[verifier::rlimit(40)]
proof fn lemma_core_jr_cc(c: CpuView, mem: Seq<u8>, y: int)
    requires
        4 <= y < 8,
        c.micro == seq![MicroOp::ImmZ, MicroOp::Exec(Effect::BranchRel(cc_index(y - 4))), MicroOp::Fetch],
    ensures
        run_to_fetch(c, mem, 10).0.reg == jr_core_result(c.reg, mem, y),
        run_to_fetch(c, mem, 10).1 == mem,
{
    let f = MicroOp::Fetch;
    let e = Effect::BranchRel(cc_index(y - 4));
    let jr = seq![MicroOp::Internal, MicroOp::Exec(Effect::JrZ), f];
    lemma_peel(c, mem, 10);
    let c1 = micro_step(c, mem).0;
    assert(c1.micro =~= seq![MicroOp::Exec(e), f]);
    lemma_peel(c1, mem, 9);
    let c2 = micro_step(c1, mem).0;
    assert(c1.micro.drop_first() =~= seq![f]);
    if cond_holds(c.reg, cc_index(y - 4)) {
        assert(c2.micro =~= jr);
        lemma_peel(c2, mem, 8);
        let c3 = micro_step(c2, mem).0;
        assert(c3.micro =~= seq![MicroOp::Exec(Effect::JrZ), f]);
        lemma_peel(c3, mem, 7);
        assert(c3.micro.drop_first() =~= seq![f]);
    }
}

/// The core's programs for JP cc,nn.
#[verifier::spinoff_prover]
#[verifier::rlimit(40)]
proof fn lemma_core_jp_cc(c: CpuView, mem: Seq<u8>, y: int)
    requires
        0 <= y < 4,
        c.micro == decoded_x3(y, 2, y / 2, y % 2).push(MicroOp::Fetch),
    ensures
        run_to_fetch(c, mem, 10).0.reg == jp_cc_core_result(c.reg, mem, y),
        run_to_fetch(c, mem, 10).1 == mem,
{
    let f = MicroOp::Fetch;
    let e = Effect::JpCc(cc_index(y));
    let rest = seq![MicroOp::Exec(e), f];
    assert(c.micro =~= seq![MicroOp::ImmZ, MicroOp::ImmW] + rest);
    lemma_peel_imm16(c, mem, rest);
    let pc1 = ((c.reg.pc + 1) % 65536) as u16;
    let pc2 = ((pc1 + 1) % 65536) as u16;
    let c2 = CpuView {
        z: mem[c.reg.pc as int],
        w: mem[pc1 as int],
        reg: Registers { pc: pc2, ..c.reg },
        micro: rest,
        ..c
    };
    lemma_peel(c2, mem, 8);
    let c3 = micro_step(c2, mem).0;
    assert(c2.micro.drop_first() =~= seq![f]);
    if cond_holds(c.reg, cc_index(y)) {
        assert(c3.micro =~= seq![MicroOp::Internal, MicroOp::Exec(Effect::SetPcWz), f]);
        lemma_peel(c3, mem, 7);
        let c4 = micro_step(c3, mem).0;
        assert(c4.micro =~= seq![MicroOp::Exec(Effect::SetPcWz), f]);
        lemma_peel(c4, mem, 6);
        assert(c4.micro.drop_first() =~= seq![f]);
    }
}

/// The interpreter's JR e, JR cc,e and JP cc,nn.
#[verifier::spinoff_prover]
#[verifier::rlimit(60)]
proof fn lemma_interp_branch(s: CpuState<Seq<u8>>, op: u8)
    requires
        s.mem.len() == 0x10000,
        s.mem[s.reg.pc as int] == op,
        0x18 <= op < 0x40 && op % 8 == 0 || 0xC2 <= op < 0xE0 && op % 8 == 2,
    ensures
        op_result::<Ram>(s).0.reg == (if op < 0x40 {
            jr_core_result(fetch8::<Ram>(s).0.reg, s.mem, (op / 8) as int)
        } else {
            jp_cc_core_result(fetch8::<Ram>(s).0.reg, s.mem, ((op / 8) % 8) as int)
        }),
        op_result::<Ram>(s).0.mem == s.mem,
{
    if op < 0x40 {
        lemma_op_result_x0(s);
    } else {
        lemma_op_result_x3(s);
        let pc = fetch8::<Ram>(s).0.reg.pc;
        lemma_wrap16(pc);
        assert(((pc + 2) % 65536) == (((pc + 1) % 65536) + 1) % 65536);
    }
}

/// JR e, JR NZ/Z/NC/C,e and JP NZ/Z/NC/C,nn, branch taken or not: the
/// core's micro-op program for the opcode does to the registers and memory
/// what the instruction-level interpreter does.
#[verifier::spinoff_prover]
#[verifier::rlimit(40)]
proof fn lemma_agrees_branch(c: CpuView, mem: Seq<u8>)
    requires
        mem.len() == 0x10000,
        ({
            let op = mem[((c.reg.pc + 65535) % 65536) as int];
            0x18 <= op < 0x40 && op % 8 == 0 || 0xC2 <= op < 0xE0 && op % 8 == 2
        }),
        c.micro == decoded(mem[((c.reg.pc + 65535) % 65536) as int]),
    ensures
        agrees(c, mem),
{
    let op = mem[((c.reg.pc + 65535) % 65536) as int];
    let y = ((op / 8) % 8) as int;
    let s = at_opcode(c, mem);
    lemma_at_opcode(c, mem);
    if op < 0x40 {
        assert(op / 64 == 0 && op % 8 == 0 && op / 8 == y);
        assert(c.micro =~= decoded_x0(y, 0, y / 2, y % 2).push(MicroOp::Fetch));
        lemma_core_jr(c, mem, y);
    } else {
        assert(op / 64 == 3 && op % 8 == 2 && op != 0xCB);
        assert(c.micro =~= decoded_x3(y, 2, y / 2, y % 2).push(MicroOp::Fetch));
        lemma_core_jp_cc(c, mem, y);
    }
    lemma_interp_branch(s, op);
}

/// What RET cc (`y` = 0-3), ADD SP,e (`y` = 5) and LD HL,SP+e (`y` = 7)
/// leave in the registers, PC already past the opcode.
spec fn x3_z0_result(reg: Registers, mem: Seq<u8>, y: int) -> Registers {
    let sp1 = inc16(reg.sp);
    let r1 = Registers { pc: ((reg.pc + 1) % 65536) as u16, ..reg };
    let (flagged, v) = add_sp_e_result(r1, mem[reg.pc as int]);
    if y <= 3 {
        if cond_holds(reg, cc_index(y)) {
            Registers { pc: pair(mem[sp1 as int], mem[reg.sp as int]), sp: inc16(sp1), ..reg }
        } else {
            reg
        }
    } else if y == 5 {
        Registers { sp: v, ..flagged }
    } else {
        set_r16(flagged, R16::Hl, v)
    }
}

/// The core's programs for RET cc: an internal cycle, the flags decide,
/// and a taken return pops PC.
#[verifier::spinoff_prover]
#[verifier::rlimit(40)]
proof fn lemma_core_ret_cc(c: CpuView, mem: Seq<u8>, y: int)
    requires
        0 <= y < 4,
        c.micro == seq![MicroOp::Internal, MicroOp::Exec(Effect::RetCc(cc_index(y))), MicroOp::Fetch],
    ensures
        run_to_fetch(c, mem, 10).0.reg == x3_z0_result(c.reg, mem, y),
        run_to_fetch(c, mem, 10).1 == mem,
{
    let f = MicroOp::Fetch;
    let e = Effect::RetCc(cc_index(y));
    lemma_peel(c, mem, 10);
    let c1 = micro_step(c, mem).0;
    assert(c1.micro =~= seq![MicroOp::Exec(e), f]);
    lemma_peel(c1, mem, 9);
    let c2 = micro_step(c1, mem).0;
    assert(c1.micro.drop_first() =~= seq![f]);
    if cond_holds(c.reg, cc_index(y)) {
        let rest = seq![MicroOp::Internal, MicroOp::Exec(Effect::SetPcWz), f];
        assert(c2.micro =~= seq![
            MicroOp::LoadZ(Addr::Sp),
            MicroOp::Exec(Effect::SpInc),
            MicroOp::LoadW(Addr::Sp),
            MicroOp::Exec(Effect::SpInc),
        ] + rest);
        lemma_peel_pop(c2, mem, rest, 8);
        let p = popped(c2, mem, rest);
        lemma_peel(p, mem, 4);
        let p1 = micro_step(p, mem).0;
        assert(p1.micro =~= seq![MicroOp::Exec(Effect::SetPcWz), f]);
        lemma_peel(p1, mem, 3);
        assert(p1.micro.drop_first() =~= seq![f]);
    }
}

/// The core's program for ADD SP,e.
#[verifier::spinoff_prover]
#[verifier::rlimit(40)]
proof fn lemma_core_add_sp(c: CpuView, mem: Seq<u8>)
    requires
        c.micro == seq![
            MicroOp::ImmZ,
            MicroOp::Internal,
            MicroOp::Internal,
            MicroOp::Exec(Effect::AddSpE),
            MicroOp::Fetch,
        ],
    ensures
        run_to_fetch(c, mem, 10).0.reg == x3_z0_result(c.reg, mem, 5),
        run_to_fetch(c, mem, 10).1 == mem,
{
    let f = MicroOp::Fetch;
    let i = MicroOp::Internal;
    let e = MicroOp::Exec(Effect::AddSpE);
    lemma_peel(c, mem, 10);
    let c1 = micro_step(c, mem).0;
    assert(c1.micro =~= seq![i, i, e, f]);
    lemma_peel(c1, mem, 9);
    let c2 = micro_step(c1, mem).0;
    assert(c2.micro =~= seq![i, e, f]);
    lemma_peel(c2, mem, 8);
    let c3 = micro_step(c2, mem).0;
    assert(c3.micro =~= seq![e, f]);
    lemma_peel(c3, mem, 7);
    assert(c3.micro.drop_first() =~= seq![f]);
}

/// The core's program for LD HL,SP+e.
#[verifier::spinoff_prover]
#[verifier::rlimit(40)]
proof fn lemma_core_ld_hl_sp(c: CpuView, mem: Seq<u8>)
    requires
        c.micro == seq![MicroOp::ImmZ, MicroOp::Internal, MicroOp::Exec(Effect::LdHlSpE), MicroOp::Fetch],
    ensures
        run_to_fetch(c, mem, 10).0.reg == x3_z0_result(c.reg, mem, 7),
        run_to_fetch(c, mem, 10).1 == mem,
{
    let f = MicroOp::Fetch;
    let i = MicroOp::Internal;
    let e = MicroOp::Exec(Effect::LdHlSpE);
    lemma_peel(c, mem, 10);
    let c1 = micro_step(c, mem).0;
    assert(c1.micro =~= seq![i, e, f]);
    lemma_peel(c1, mem, 9);
    let c2 = micro_step(c1, mem).0;
    assert(c2.micro =~= seq![e, f]);
    lemma_peel(c2, mem, 8);
    assert(c2.micro.drop_first() =~= seq![f]);
}

/// The interpreter's RET cc, ADD SP,e and LD HL,SP+e.
#[verifier::spinoff_prover]
#[verifier::rlimit(60)]
proof fn lemma_interp_x3_z0(s: CpuState<Seq<u8>>, y: int)
    requires
        s.mem.len() == 0x10000,
        0 <= y <= 3 || y == 5 || y == 7,
        s.mem[s.reg.pc as int] == 192 + y * 8,
    ensures
        op_result::<Ram>(s).0.reg == x3_z0_result(fetch8::<Ram>(s).0.reg, s.mem, y),
        op_result::<Ram>(s).0.mem == s.mem,
{
    let op = s.mem[s.reg.pc as int];
    assert(op / 64 == 3 && (op / 8) % 8 == y && op % 8 == 0);
    lemma_op_result_x3(s);
    lemma_wrap16(fetch8::<Ram>(s).0.reg.sp);
}

/// RET NZ/Z/NC/C, taken or not, ADD SP,e and LD HL,SP+e: the core's
/// micro-op program for the opcode does to the registers and memory what
/// the instruction-level interpreter does.
#[verifier::spinoff_prover]
#[verifier::rlimit(40)]
proof fn lemma_agrees_x3_z0(c: CpuView, mem: Seq<u8>)
    requires
        mem.len() == 0x10000,
        ({
            let op = mem[((c.reg.pc + 65535) % 65536) as int];
            op == 0xC0 || op == 0xC8 || op == 0xD0 || op == 0xD8 || op == 0xE8 || op == 0xF8
        }),
        c.micro == decoded(mem[((c.reg.pc + 65535) % 65536) as int]),
    ensures
        agrees(c, mem),
{
    let op = mem[((c.reg.pc + 65535) % 65536) as int];
    let y = ((op / 8) % 8) as int;
    assert(op == 192 + y * 8);
    let s = at_opcode(c, mem);
    lemma_at_opcode(c, mem);
    assert(op / 64 == 3 && op % 8 == 0 && op != 0xCB);
    assert(c.micro =~= decoded_x3(y, 0, y / 2, y % 2).push(MicroOp::Fetch));
    if y <= 3 {
        assert(c.micro =~= seq![MicroOp::Internal, MicroOp::Exec(Effect::RetCc(cc_index(y))), MicroOp::Fetch]);
        lemma_core_ret_cc(c, mem, y);
    } else if y == 5 {
        assert(c.micro =~= seq![
            MicroOp::ImmZ,
            MicroOp::Internal,
            MicroOp::Internal,
            MicroOp::Exec(Effect::AddSpE),
            MicroOp::Fetch,
        ]);
        lemma_core_add_sp(c, mem);
    } else {
        assert(c.micro =~= seq![MicroOp::ImmZ, MicroOp::Internal, MicroOp::Exec(Effect::LdHlSpE), MicroOp::Fetch]);
        lemma_core_ld_hl_sp(c, mem);
    }
    lemma_interp_x3_z0(s, y);
}

/// What LD (nn),SP leaves in the registers and memory, PC already past the
/// opcode: SP's low byte at nn, its high byte at nn + 1, PC past nn.
spec fn store_sp_result(reg: Registers, mem: Seq<u8>) -> (Registers, Seq<u8>) {
    let pc1 = ((reg.pc + 1) % 65536) as u16;
    let nn = pair(mem[pc1 as int], mem[reg.pc as int]);
    (
        Registers { pc: ((pc1 + 1) % 65536) as u16, ..reg },
        mem.update(nn as int, low_byte(reg.sp)).update(inc16(nn) as int, high_byte(reg.sp)),
    )
}

/// The core's program for LD (nn),SP.
#[verifier::spinoff_prover]
#[verifier::rlimit(40)]
proof fn lemma_core_store_sp(c: CpuView, mem: Seq<u8>)
    requires
        c.micro == decoded_x0(1, 0, 0, 1).push(MicroOp::Fetch),
    ensures
        run_to_fetch(c, mem, 10).0.reg == store_sp_result(c.reg, mem).0,
        run_to_fetch(c, mem, 10).1 == store_sp_result(c.reg, mem).1,
{
    let f = MicroOp::Fetch;
    let lo = MicroOp::Store(Addr::Wz, Byte::SpLow);
    let hi = MicroOp::Store(Addr::Wz, Byte::SpHigh);
    let inc = MicroOp::Exec(Effect::WzInc);
    let rest = seq![lo, inc, hi, f];
    assert(c.micro =~= seq![MicroOp::ImmZ, MicroOp::ImmW] + rest);
    lemma_peel_imm16(c, mem, rest);
    let pc1 = ((c.reg.pc + 1) % 65536) as u16;
    let pc2 = ((pc1 + 1) % 65536) as u16;
    let c2 = CpuView {
        z: mem[c.reg.pc as int],
        w: mem[pc1 as int],
        reg: Registers { pc: pc2, ..c.reg },
        micro: rest,
        ..c
    };
    lemma_peel(c2, mem, 8);
    let c3 = micro_step(c2, mem).0;
    let m3 = micro_step(c2, mem).1;
    assert(c3.micro =~= seq![inc, hi, f]);
    lemma_peel(c3, m3, 7);
    let c4 = micro_step(c3, m3).0;
    assert(c4.micro =~= seq![hi, f]);
    lemma_split(inc16(c2.wz()));
    assert(c4.wz() == inc16(c2.wz()));
    lemma_peel(c4, m3, 6);
    let c5 = micro_step(c4, m3).0;
    assert(c5.micro =~= seq![f]);
}

/// The interpreter's LD (nn),SP.
#[verifier::spinoff_prover]
#[verifier::rlimit(60)]
proof fn lemma_interp_store_sp(s: CpuState<Seq<u8>>)
    requires
        s.mem.len() == 0x10000,
        s.mem[s.reg.pc as int] == 0x08,
    ensures
        op_result::<Ram>(s).0.reg == store_sp_result(fetch8::<Ram>(s).0.reg, s.mem).0,
        op_result::<Ram>(s).0.mem == store_sp_result(fetch8::<Ram>(s).0.reg, s.mem).1,
{
    lemma_op_result_x0(s);
    let reg = fetch8::<Ram>(s).0.reg;
    lemma_wrap16(reg.pc);
    assert(((reg.pc + 2) % 65536) == (((reg.pc + 1) % 65536) + 1) % 65536);
    let pc1 = ((reg.pc + 1) % 65536) as u16;
    let nn = pair(s.mem[pc1 as int], s.mem[reg.pc as int]);
    lemma_wrap16(nn);
}

/// LD (nn),SP: the core's micro-op program does to the registers and
/// memory what the instruction-level interpreter does.
#[verifier::spinoff_prover]
#[verifier::rlimit(40)]
proof fn lemma_agrees_store_sp(c: CpuView, mem: Seq<u8>)
    requires
        mem.len() == 0x10000,
        mem[((c.reg.pc + 65535) % 65536) as int] == 0x08,
        c.micro == decoded(0x08),
    ensures
        agrees(c, mem),
{
    let s = at_opcode(c, mem);
    lemma_at_opcode(c, mem);
    assert(c.micro =~= decoded_x0(1, 0, 0, 1).push(MicroOp::Fetch));
    lemma_core_store_sp(c, mem);
    lemma_interp_store_sp(s);
}

/// The opcodes on which the agreement below is proved: the 0x00-0x3F block
/// but STOP (which the core reads with its padding byte and the interpreter
/// without), the
/// LD r,r' block with HALT, the accumulator arithmetic block, and of the
/// 0xC0-0xFF block the high-page and absolute loads of A, the ALU with an
/// immediate, ADD SP,e, LD HL,SP+e, JP nn, JP cc, JP HL, LD SP,HL, DI, EI,
/// PUSH, POP, RET, RET cc, RETI and the RSTs.
pub open spec fn covered_opcode(op: u8) -> bool {
    let y = (op / 8) % 8;
    let z = op % 8;
    if op < 0x40 {
        op != 0x10
    } else if op < 0xC0 {
        true
    } else {
        ||| z == 6
        ||| z == 7
        ||| z == 1
        ||| z == 5 && y % 2 == 0
        ||| z == 0
        ||| z == 2
        ||| z == 3 && (y == 0 || y == 6 || y == 7)
    }
}

/// The cycle-level core and the instruction-level interpreter agree: for
/// every opcode that `covered_opcode` names, the micro-op program that the
/// core decodes for the opcode it has just fetched, run to the next fetch,
/// leaves the registers and memory that the interpreter's step from that
/// opcode leaves.
#[verifier::spinoff_prover]
#[verifier::rlimit(40)]
pub proof fn lemma_decoded_agrees(c: CpuView, mem: Seq<u8>)
    requires
        mem.len() == 0x10000,
        covered_opcode(mem[((c.reg.pc + 65535) % 65536) as int]),
        c.micro == decoded(mem[((c.reg.pc + 65535) % 65536) as int]),
    ensures
        agrees(c, mem),
{
    let op = mem[((c.reg.pc + 65535) % 65536) as int];
    if op >= 0xC0 {
        if x3_stack(((op / 8) % 8) as int, (op % 8) as int) {
            lemma_agrees_stack(c, mem);
        } else if op % 8 == 2 && op < 0xE0 {
            lemma_agrees_branch(c, mem);
        } else if op % 8 == 0 && op != 0xE0 && op != 0xF0 {
            lemma_agrees_x3_z0(c, mem);
        } else {
            lemma_agrees_x3_simple(c, mem);
        }
    } else if op >= 0x80 {
        lemma_agrees_alu8(c, mem);
    } else if op >= 0x40 {
        lemma_agrees_load8(c, mem);
    } else if op % 8 == 0 && op >= 0x18 {
        lemma_agrees_branch(c, mem);
    } else if op == 0x08 {
        lemma_agrees_store_sp(c, mem);
    } else if op == 0 {
        lemma_at_opcode(c, mem);
        assert(c.micro =~= seq![MicroOp::Fetch]);
        lemma_op_result_x0(at_opcode(c, mem));
    } else if op % 8 == 1 {
        lemma_agrees_word(c, mem);
    } else if op % 8 == 2 {
        lemma_agrees_indirect(c, mem);
    } else if op % 8 == 3 {
        lemma_agrees_step16(c, mem);
    } else if op % 8 == 7 {
        lemma_agrees_acc(c, mem);
    } else {
        lemma_agrees_unary8(c, mem);
    }
}

} // verus!
