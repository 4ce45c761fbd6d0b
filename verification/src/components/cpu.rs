pub mod semantics;
pub mod types;

use self::semantics::{
    acc_rotate, call_result, cb_result, cycle_result, cycle_safe, interrupt_result, irq_pending, operand, store, x0_result, x3_result, cb_safe, fetch16, fetch8, jp_result, jr_result, op_result,
    op_safe, pop16, push16, push_ok, ret_result, rst_result, total, CpuState,
};
use crate::components::alu::{
    add_hl_result, add_sp_e_result, alu_result, bit_result, daa_adjust, daa_result, dec8_result,
    inc8_result, lemma_bit_mask, lemma_chain_clean4, lemma_chn, lemma_chnz, lemma_chz, lemma_hnz,
    lemma_low_bits16, lemma_nibble, lemma_with_flag_clean, lemma_rotations, lemma_trailing_zeros_nibble, lemma_znhc_byte,
    res_result, rotate_result, set_result, sign_extend, with_znh, with_znhc,
};
use crate::hw::cpu::program::{cc_index, cond_holds, get_r16, rp_index, set_r16};
use crate::components::registers::{high_byte, lemma_split, low_byte, pair, Flags, Registers};
use crate::bits::{lemma_vector, lemma_opcode_fields, lemma_byte_masks, lemma_byte_not, lemma_byte_widen, lemma_carry_in, lemma_daa_bits, lemma_top_bit};
use crate::hw::cpu::{AluOp, RotOp};
use crate::memory::Memory;
use vstd::prelude::*;
use vstd::std_specs::bits::axiom_u8_trailing_zeros;

verus! {

/// An instruction-at-a-time SM83 interpreter over a memory `M`: each call to
/// `cycle` services an interrupt or runs one whole instruction.
pub struct CPU<M: Memory> {
    pub reg: Registers,
    pub mem: M,
    pub halted: bool,
    // Enabled Interrupts
    pub ime: bool,
    pub ime_ask: bool,
}

impl<M: Memory> View for CPU<M> {
    type V = CpuState<M::V>;

    open spec fn view(&self) -> CpuState<M::V> {
        CpuState { reg: self.reg, mem: self.mem@, halted: self.halted, ime: self.ime, ime_ask: self.ime_ask }
    }
}

impl<M: Memory> CPU<M> {
    /// Starts with interrupts disabled and the CPU running.
    pub fn new(reg: Registers, mem: M) -> (r: CPU<M>)
        ensures
            r@ == (CpuState { reg, mem: mem@, halted: false, ime: false, ime_ask: false }),
    {
        CPU { reg, mem, halted: false, ime: false, ime_ask: false }
    }

    /// Runs one step: takes a pending interrupt, idles one M-cycle while
    /// halted, or runs the instruction at PC (after a pending EI takes
    /// effect). Returns the T-cycles spent.
    pub fn cycle(&mut self) -> (cycles: u32)
        requires
            total::<M>(),
            old(self).reg.flags_clean(),
            cycle_safe::<M>(old(self)@),
        ensures
            (final(self)@, cycles) == cycle_result::<M>(old(self)@),
            final(self).reg.flags_clean(),
    {
        let cycles = {
            let count = self.interrupt();
            if count != 0 {
                count
            } else if self.halted {
                1
            } else {
                if self.ime_ask && !self.ime {
                    self.ime = true;
                    self.ime_ask = false;
                }
                self.op_call()
            }
        };
        cycles * 4
    }

    /// Takes a pending interrupt if IME allows; returns the M-cycles spent.
    fn interrupt(&mut self) -> (cycles: u32)
        requires
            total::<M>(),
            (irq_pending::<M>(old(self)@) && old(self).ime) ==> push_ok(old(self).reg.sp),
        ensures
            (final(self)@, cycles) == interrupt_result::<M>(old(self)@),
            final(self).reg.f == old(self).reg.f,
    {
        let intf = self.mem.read(0xFF0F);
        let inte = self.mem.read(0xFFFF);
        // Only bits 0-4 name interrupts.
        let triggered = intf & inte & 0x1F;
        if triggered == 0 {
            return 0;
        }
        self.halted = false;
        if !self.ime {
            return 0;
        }
        self.ime = false;

        let n = triggered.trailing_zeros();
        proof { axiom_u8_trailing_zeros(triggered); }
        let remaining = intf & !(1u8 << n);
        self.mem.write(0xFF0F, remaining);

        self.push(self.reg.pc);
        proof { lemma_vector(n as u16); }
        self.reg.pc = 0x0040 | ((n as u16) << 3u16);
        // Entry takes 5 M-cycles on hardware.
        5
    }

    pub fn read_byte(&mut self) -> (byte: u8)
        requires
            total::<M>(),
            old(self).reg.pc < 0xFFFF,
        ensures
            (final(self)@, byte) == fetch8::<M>(old(self)@),
    {
        let byte = self.mem.read(self.reg.pc);
        self.reg.pc += 1;
        byte
    }

    pub fn read_word(&mut self) -> (word: u16)
        requires
            total::<M>(),
            old(self).reg.pc <= 0xFFFD,
        ensures
            (final(self)@, word) == fetch16::<M>(old(self)@),
    {
        let word = self.mem.read_word(self.reg.pc);
        self.reg.pc += 2;
        word
    }

    pub fn push(&mut self, v: u16)
        requires
            total::<M>(),
            push_ok(old(self).reg.sp),
        ensures
            final(self)@ == push16::<M>(old(self)@, v),
    {
        self.reg.sp = self.reg.sp.wrapping_sub(2);
        proof { lemma_split(v); }
        self.mem.write_word(self.reg.sp, v);
    }

    pub fn pop(&mut self) -> (word: u16)
        requires
            total::<M>(),
            old(self).reg.sp <= 0xFFFD,
        ensures
            (final(self)@, word) == pop16::<M>(old(self)@),
    {
        let word = self.mem.read_word(self.reg.sp);
        self.reg.sp += 2;
        word
    }


}

impl<M: Memory> CPU<M> {
    /// The 8-bit operand an instruction names by a 3-bit field: B, C, D, E,
    /// H, L, (HL) or A.
    fn operand(&self, i: u8) -> (v: u8)
        requires
            total::<M>(),
            i < 8,
        ensures
            v == operand::<M>(self@, i as int),
    {
        match i {
            0 => self.reg.b,
            1 => self.reg.c,
            2 => self.reg.d,
            3 => self.reg.e,
            4 => self.reg.h,
            5 => self.reg.l,
            6 => self.mem.read(self.reg.get_hl()),
            _ => self.reg.a,
        }
    }

    /// Writes the 8-bit operand named by a 3-bit field.
    fn set_operand(&mut self, i: u8, v: u8)
        requires
            total::<M>(),
            i < 8,
        ensures
            final(self)@ == store::<M>(old(self)@, i as int, v),
    {
        match i {
            0 => self.reg.b = v,
            1 => self.reg.c = v,
            2 => self.reg.d = v,
            3 => self.reg.e = v,
            4 => self.reg.h = v,
            5 => self.reg.l = v,
            6 => {
                let a = self.reg.get_hl();
                self.mem.write(a, v);
            },
            _ => self.reg.a = v,
        }
    }

    /// Runs the CB-prefixed instruction whose opcode byte is at PC. Bits 7-6
    /// of the opcode pick a shift or rotate, BIT, RES or SET; bits 5-3 the
    /// operation or the bit; bits 2-0 the operand.
    pub fn cb_call(&mut self) -> (cycles: u32)
        requires
            total::<M>(),
            old(self).reg.flags_clean(),
            cb_safe::<M>(old(self)@),
        ensures
            (final(self)@, cycles) == cb_result::<M>(old(self)@),
            cycles <= 4,
            final(self).reg.flags_clean(),
    {
        let opcode = self.read_byte();
        let x = opcode >> 6u8;
        let y = (opcode >> 3u8) & 7;
        let z = opcode & 7;
        proof { lemma_opcode_fields(opcode); }
        let v = self.operand(z);
        if x == 0 {
            let r = match y {
                0 => self.alu_rlc(v),
                1 => self.alu_rrc(v),
                2 => self.alu_rl(v),
                3 => self.alu_rr(v),
                4 => self.alu_sla(v),
                5 => self.alu_sra(v),
                6 => self.alu_swap(v),
                _ => self.alu_srl(v),
            };
            self.set_operand(z, r);
        } else if x == 1 {
            self.alu_bit(v, y);
        } else if x == 2 {
            let r = self.alu_res(v, y);
            self.set_operand(z, r);
        } else {
            let r = self.alu_set(v, y);
            self.set_operand(z, r);
        }
        if z != 6 {
            2
        } else if x == 1 {
            3
        } else {
            4
        }
    }
}

impl<M: Memory> CPU<M> {
    /// Runs the unprefixed instruction whose opcode byte is at PC. Bits 7-6
    /// of the opcode split the table into quarters: the miscellaneous loads,
    /// jumps and 8/16-bit arithmetic; the register-to-register loads (and
    /// HALT); the accumulator ALU operations; and the stack, control flow and
    /// immediate operations.
    pub fn op_call(&mut self) -> (cycles: u32)
        requires
            total::<M>(),
            old(self).reg.flags_clean(),
            op_safe::<M>(old(self)@),
        ensures
            (final(self)@, cycles) == op_result::<M>(old(self)@),
            cycles <= 6,
            final(self).reg.flags_clean(),
    {
        let opcode = self.read_byte();
        let x = opcode >> 6u8;
        let y = (opcode >> 3u8) & 7;
        let z = opcode & 7;
        proof { lemma_opcode_fields(opcode); }
        if x == 0 {
            match z {
                0 => self.op_x0_z0(y),
                1 => self.op_x0_z1(y),
                2 => self.op_x0_z2(y),
                3 => self.op_x0_z3(y),
                4 => self.op_x0_z4(y),
                5 => self.op_x0_z5(y),
                6 => self.op_x0_z6(y),
                _ => self.op_x0_z7(y),
            }
        } else if x == 1 {
            if y == 6 && z == 6 {
                self.halted = true;
                1
            } else {
                let v = self.operand(z);
                self.set_operand(y, v);
                if y == 6 || z == 6 {
                    2
                } else {
                    1
                }
            }
        } else if x == 2 {
            let v = self.operand(z);
            match y {
                0 => self.alu_add(v),
                1 => self.alu_adc(v),
                2 => self.alu_sub(v),
                3 => self.alu_sbc(v),
                4 => self.alu_and(v),
                5 => self.alu_xor(v),
                6 => self.alu_or(v),
                _ => self.alu_cp(v),
            }
            if z == 6 {
                2
            } else {
                1
            }
        } else {
            match z {
                0 => self.op_x3_z0(y),
                1 => self.op_x3_z1(y),
                2 => self.op_x3_z2(y),
                3 => self.op_x3_z3(y),
                4 => self.op_x3_z4(y),
                5 => self.op_x3_z5(y),
                6 => self.op_x3_z6(y),
                _ => self.op_x3_z7(y),
            }
        }
    }

    /// NOP, LD (nn),SP, STOP, JR e and JR cc,e.
    #[verifier::spinoff_prover]
    #[verifier::rlimit(50)]
    fn op_x0_z0(&mut self, y: u8) -> (cycles: u32)
        requires
            total::<M>(),
            y < 8,
            y == 1 ==> old(self).reg.pc <= 0xFFFD && fetch16::<M>(old(self)@).1 < 0xFFFF,
            y >= 3 ==> old(self).reg.pc < 0xFFFF,
            old(self).reg.flags_clean(),
        ensures
            (final(self)@, cycles) == x0_result::<M>(old(self)@, y as int, 0),
            cycles <= 6,
            final(self).reg.flags_clean(),
    {
        match y {
            0 => { 1 },
            1 => { let a = self.read_word();
                   self.mem.write_word(a, self.reg.sp);            5 },
            2 => { 1 },
            3 => { self.jr(true);                                  3 },
            4 => { self.jr(!self.reg.get_flag(Flags::Z))             },
            5 => { self.jr(self.reg.get_flag(Flags::Z))              },
            6 => { self.jr(!self.reg.get_flag(Flags::C))             },
            _ => { self.jr(self.reg.get_flag(Flags::C))              },
        }
    }

    /// LD rr,nn and ADD HL,rr.
    #[verifier::spinoff_prover]
    #[verifier::rlimit(50)]
    fn op_x0_z1(&mut self, y: u8) -> (cycles: u32)
        requires
            total::<M>(),
            y < 8,
            y % 2 == 0 ==> old(self).reg.pc <= 0xFFFD,
            old(self).reg.flags_clean(),
        ensures
            (final(self)@, cycles) == x0_result::<M>(old(self)@, y as int, 1),
            cycles <= 6,
            final(self).reg.flags_clean(),
    {
        match y {
            0 => { let v = self.read_word();
                   self.reg.set_bc(v);                             3 },
            1 => { self.alu_add_16(self.reg.get_bc());             2 },
            2 => { let v = self.read_word();
                   self.reg.set_de(v);                             3 },
            3 => { self.alu_add_16(self.reg.get_de());             2 },
            4 => { let v = self.read_word();
                   self.reg.set_hl(v);                             3 },
            5 => { self.alu_add_16(self.reg.get_hl());             2 },
            6 => { let v = self.read_word();
                   self.reg.sp = v;                                3 },
            _ => { self.alu_add_16(self.reg.sp);                   2 },
        }
    }

    /// LD (rr),A and LD A,(rr), with HL stepped after (HL+) and (HL-).
    #[verifier::spinoff_prover]
    #[verifier::rlimit(50)]
    fn op_x0_z2(&mut self, y: u8) -> (cycles: u32)
        requires
            total::<M>(),
            y < 8,
            y / 2 == 2 ==> old(self).reg.hl() < 0xFFFF,
            y / 2 == 3 ==> old(self).reg.hl() > 0,
            old(self).reg.flags_clean(),
        ensures
            (final(self)@, cycles) == x0_result::<M>(old(self)@, y as int, 2),
            cycles <= 6,
            final(self).reg.flags_clean(),
    {
        match y {
            0 => { self.mem.write(self.reg.get_bc(), self.reg.a);  2 },
            1 => { self.reg.a = self.mem.read(self.reg.get_bc());  2 },
            2 => { self.mem.write(self.reg.get_de(), self.reg.a);  2 },
            3 => { self.reg.a = self.mem.read(self.reg.get_de());  2 },
            4 => { let a = self.reg.get_hl();
                   self.mem.write(a, self.reg.a);
                   self.reg.set_hl(a + 1);                         2 },
            5 => { let a = self.reg.get_hl();
                   self.reg.a = self.mem.read(a);
                   self.reg.set_hl(a + 1);                         2 },
            6 => { let a = self.reg.get_hl();
                   self.mem.write(a, self.reg.a);
                   self.reg.set_hl(a - 1);                         2 },
            _ => { let a = self.reg.get_hl();
                   self.reg.a = self.mem.read(a);
                   self.reg.set_hl(a - 1);                         2 },
        }
    }

    /// INC rr and DEC rr: bits 5-4 of the opcode name BC, DE, HL or SP,
    /// bit 3 picks the decrement.
    #[verifier::spinoff_prover]
    #[verifier::rlimit(40)]
    fn op_x0_z3(&mut self, y: u8) -> (cycles: u32)
        requires
            total::<M>(),
            y < 8,
            old(self).reg.flags_clean(),
        ensures
            (final(self)@, cycles) == x0_result::<M>(old(self)@, y as int, 3),
            cycles <= 6,
            final(self).reg.flags_clean(),
    {
        let p = y / 2;
        let v = self.pair(p);
        let n = if y % 2 == 0 {
            v.wrapping_add(1)
        } else {
            v.wrapping_sub(1)
        };
        assert(n as int == if y % 2 == 0 { (v as int + 1) % 65536 } else { (v as int + 65535) % 65536 });
        self.set_pair(p, n);
        2
    }

    /// The register pair BC, DE, HL or SP named by a 2-bit field.
    fn pair(&self, p: u8) -> (v: u16)
        requires
            p < 4,
        ensures
            v == get_r16(self.reg, rp_index(p as int)),
    {
        match p {
            0 => self.reg.get_bc(),
            1 => self.reg.get_de(),
            2 => self.reg.get_hl(),
            _ => self.reg.sp,
        }
    }

    fn set_pair(&mut self, p: u8, v: u16)
        requires
            p < 4,
        ensures
            final(self)@ == old(self)@.with_reg(set_r16(old(self).reg, rp_index(p as int), v)),
    {
        match p {
            0 => self.reg.set_bc(v),
            1 => self.reg.set_de(v),
            2 => self.reg.set_hl(v),
            _ => self.reg.sp = v,
        }
    }

    /// INC r and INC (HL).
    fn op_x0_z4(&mut self, y: u8) -> (cycles: u32)
        requires
            total::<M>(),
            y < 8,
            old(self).reg.flags_clean(),
        ensures
            (final(self)@, cycles) == x0_result::<M>(old(self)@, y as int, 4),
            cycles <= 6,
            final(self).reg.flags_clean(),
    {
        let v = self.operand(y);
        let r = self.alu_inc(v);
        self.set_operand(y, r);
        if y == 6 {
            3
        } else {
            1
        }
    }

    /// DEC r and DEC (HL).
    fn op_x0_z5(&mut self, y: u8) -> (cycles: u32)
        requires
            total::<M>(),
            y < 8,
            old(self).reg.flags_clean(),
        ensures
            (final(self)@, cycles) == x0_result::<M>(old(self)@, y as int, 5),
            cycles <= 6,
            final(self).reg.flags_clean(),
    {
        let v = self.operand(y);
        let r = self.alu_dec(v);
        self.set_operand(y, r);
        if y == 6 {
            3
        } else {
            1
        }
    }

    /// LD r,n and LD (HL),n.
    fn op_x0_z6(&mut self, y: u8) -> (cycles: u32)
        requires
            total::<M>(),
            y < 8,
            old(self).reg.pc < 0xFFFF,
            old(self).reg.flags_clean(),
        ensures
            (final(self)@, cycles) == x0_result::<M>(old(self)@, y as int, 6),
            cycles <= 6,
            final(self).reg.flags_clean(),
    {
        let b = self.read_byte();
        self.set_operand(y, b);
        if y == 6 {
            3
        } else {
            2
        }
    }

    /// The accumulator rotates, DAA, CPL, SCF and CCF.
    #[verifier::spinoff_prover]
    #[verifier::rlimit(50)]
    fn op_x0_z7(&mut self, y: u8) -> (cycles: u32)
        requires
            total::<M>(),
            y < 8,
            old(self).reg.flags_clean(),
        ensures
            (final(self)@, cycles) == x0_result::<M>(old(self)@, y as int, 7),
            cycles <= 6,
            final(self).reg.flags_clean(),
    {
        match y {
            0 => { self.reg.a = self.alu_rlc(self.reg.a);
                   proof { lemma_with_flag_clean(self.reg, Flags::Z, false); }
                   self.reg.set_flag(Flags::Z, false);             1 },
            1 => { self.reg.a = self.alu_rrc(self.reg.a);
                   proof { lemma_with_flag_clean(self.reg, Flags::Z, false); }
                   self.reg.set_flag(Flags::Z, false);             1 },
            2 => { self.reg.a = self.alu_rl(self.reg.a);
                   proof { lemma_with_flag_clean(self.reg, Flags::Z, false); }
                   self.reg.set_flag(Flags::Z, false);             1 },
            3 => { self.reg.a = self.alu_rr(self.reg.a);
                   proof { lemma_with_flag_clean(self.reg, Flags::Z, false); }
                   self.reg.set_flag(Flags::Z, false);             1 },
            4 => { self.alu_daa();                                 1 },
            5 => { self.alu_cpl();                                 1 },
            6 => { self.alu_scf();                                 1 },
            _ => { self.alu_ccf();                                 1 },
        }
    }

    /// RET cc, LDH (n),A, ADD SP,e, LDH A,(n) and LD HL,SP+e.
    #[verifier::spinoff_prover]
    #[verifier::rlimit(50)]
    fn op_x3_z0(&mut self, y: u8) -> (cycles: u32)
        requires
            total::<M>(),
            y < 8,
            y <= 3 && cond_holds(old(self).reg, cc_index(y as int)) ==> old(self).reg.sp <= 0xFFFD,
            y >= 4 ==> old(self).reg.pc < 0xFFFF,
            old(self).reg.flags_clean(),
        ensures
            (final(self)@, cycles) == x3_result::<M>(old(self)@, y as int, 0),
            cycles <= 6,
            final(self).reg.flags_clean(),
    {
        match y {
            0 => { self.ret(!self.reg.get_flag(Flags::Z))             },
            1 => { self.ret(self.reg.get_flag(Flags::Z))              },
            2 => { self.ret(!self.reg.get_flag(Flags::C))             },
            3 => { self.ret(self.reg.get_flag(Flags::C))              },
            4 => { let n = self.read_byte();
                   proof { lemma_byte_widen(n); }
                   let a = 0xFF00 | u16::from(n);
                   self.mem.write(a, self.reg.a);                  3 },
            5 => { self.reg.sp = self.alu_add_16_imm(self.reg.sp); 4 },
            6 => { let n = self.read_byte();
                   proof { lemma_byte_widen(n); }
                   let a = 0xFF00 | u16::from(n);
                   self.reg.a = self.mem.read(a);                  3 },
            _ => { let v = self.alu_add_16_imm(self.reg.sp);
                   self.reg.set_hl(v);                             3 },
        }
    }

    /// POP rr, RET, RETI, JP HL and LD SP,HL.
    #[verifier::spinoff_prover]
    #[verifier::rlimit(50)]
    fn op_x3_z1(&mut self, y: u8) -> (cycles: u32)
        requires
            total::<M>(),
            y < 8,
            (y % 2 == 0 || y / 2 <= 1) ==> old(self).reg.sp <= 0xFFFD,
            old(self).reg.flags_clean(),
        ensures
            (final(self)@, cycles) == x3_result::<M>(old(self)@, y as int, 1),
            cycles <= 6,
            final(self).reg.flags_clean(),
    {
        match y {
            0 => { let v = self.pop();
                   self.reg.set_bc(v);                             3 },
            1 => { self.reg.pc = self.pop();                       4 },
            2 => { let v = self.pop();
                   self.reg.set_de(v);                             3 },
            3 => { self.reg.pc = self.pop();
                   self.ime = true;                                4 },
            4 => { let v = self.pop();
                   self.reg.set_hl(v);                             3 },
            5 => { self.reg.pc = self.reg.get_hl();                1 },
            6 => { let v = self.pop();
                   proof { lemma_byte_masks(low_byte(v)); }
                   self.reg.set_af(v);                             3 },
            _ => { self.reg.sp = self.reg.get_hl();                2 },
        }
    }

    /// JP cc,nn, LD (C),A, LD (nn),A, LD A,(C) and LD A,(nn).
    #[verifier::spinoff_prover]
    #[verifier::rlimit(50)]
    fn op_x3_z2(&mut self, y: u8) -> (cycles: u32)
        requires
            total::<M>(),
            y < 8,
            (y <= 3 || y == 5 || y == 7) ==> old(self).reg.pc <= 0xFFFD,
            old(self).reg.flags_clean(),
        ensures
            (final(self)@, cycles) == x3_result::<M>(old(self)@, y as int, 2),
            cycles <= 6,
            final(self).reg.flags_clean(),
    {
        proof { lemma_byte_widen(self.reg.c); }
        match y {
            0 => { self.jp(!self.reg.get_flag(Flags::Z))             },
            1 => { self.jp(self.reg.get_flag(Flags::Z))              },
            2 => { self.jp(!self.reg.get_flag(Flags::C))             },
            3 => { self.jp(self.reg.get_flag(Flags::C))              },
            4 => { let a = 0xFF00 | u16::from(self.reg.c);
                   self.mem.write(a, self.reg.a);                  2 },
            5 => { let a = self.read_word();
                   self.mem.write(a, self.reg.a);                  4 },
            6 => { let a = 0xFF00 | u16::from(self.reg.c);
                   self.reg.a = self.mem.read(a);                  2 },
            _ => { let a = self.read_word();
                   self.reg.a = self.mem.read(a);                  4 },
        }
    }

    /// JP nn, the CB prefix, DI and EI.
    #[verifier::spinoff_prover]
    #[verifier::rlimit(50)]
    fn op_x3_z3(&mut self, y: u8) -> (cycles: u32)
        requires
            total::<M>(),
            y == 0 || y == 1 || y == 6 || y == 7,
            y == 0 ==> old(self).reg.pc <= 0xFFFD,
            y == 1 ==> old(self).reg.pc < 0xFFFF,
            old(self).reg.flags_clean(),
        ensures
            (final(self)@, cycles) == x3_result::<M>(old(self)@, y as int, 3),
            cycles <= 6,
            final(self).reg.flags_clean(),
    {
        match y {
            0 => { self.reg.pc = self.read_word();                 4 },
            1 => { self.cb_call()                                    },
            6 => { self.ime = false; self.ime_ask = false;         1 },
            _ => { self.ime_ask = true;                            1 },
        }
    }

    /// CALL cc,nn.
    #[verifier::spinoff_prover]
    #[verifier::rlimit(50)]
    fn op_x3_z4(&mut self, y: u8) -> (cycles: u32)
        requires
            total::<M>(),
            y <= 3,
            old(self).reg.pc <= 0xFFFD,
            cond_holds(old(self).reg, cc_index(y as int)) ==> push_ok(old(self).reg.sp),
            old(self).reg.flags_clean(),
        ensures
            (final(self)@, cycles) == x3_result::<M>(old(self)@, y as int, 4),
            cycles <= 6,
            final(self).reg.flags_clean(),
    {
        match y {
            0 => { self.call(!self.reg.get_flag(Flags::Z))           },
            1 => { self.call(self.reg.get_flag(Flags::Z))            },
            2 => { self.call(!self.reg.get_flag(Flags::C))           },
            _ => { self.call(self.reg.get_flag(Flags::C))            },
        }
    }

    /// PUSH rr and CALL nn.
    #[verifier::spinoff_prover]
    #[verifier::rlimit(50)]
    fn op_x3_z5(&mut self, y: u8) -> (cycles: u32)
        requires
            total::<M>(),
            y % 2 == 0 || y == 1,
            push_ok(old(self).reg.sp),
            y == 1 ==> old(self).reg.pc <= 0xFFFD,
            old(self).reg.flags_clean(),
        ensures
            (final(self)@, cycles) == x3_result::<M>(old(self)@, y as int, 5),
            cycles <= 6,
            final(self).reg.flags_clean(),
    {
        match y {
            0 => { self.push(self.reg.get_bc());                   4 },
            1 => { self.push(self.reg.pc + 2);
                   self.reg.pc = self.read_word();                 6 },
            2 => { self.push(self.reg.get_de());                   4 },
            4 => { self.push(self.reg.get_hl());                   4 },
            _ => { self.push(self.reg.get_af());                   4 },
        }
    }

    /// The accumulator ALU operations on an immediate byte.
    #[verifier::spinoff_prover]
    #[verifier::rlimit(50)]
    fn op_x3_z6(&mut self, y: u8) -> (cycles: u32)
        requires
            total::<M>(),
            y < 8,
            old(self).reg.pc < 0xFFFF,
            old(self).reg.flags_clean(),
        ensures
            (final(self)@, cycles) == x3_result::<M>(old(self)@, y as int, 6),
            cycles <= 6,
            final(self).reg.flags_clean(),
    {
        let v = self.read_byte();
        match y {
            0 => self.alu_add(v),
            1 => self.alu_adc(v),
            2 => self.alu_sub(v),
            3 => self.alu_sbc(v),
            4 => self.alu_and(v),
            5 => self.alu_xor(v),
            6 => self.alu_or(v),
            _ => self.alu_cp(v),
        }
        2
    }

    /// RST: a call to the vector y * 8.
    #[verifier::spinoff_prover]
    #[verifier::rlimit(50)]
    fn op_x3_z7(&mut self, y: u8) -> (cycles: u32)
        requires
            total::<M>(),
            y < 8,
            push_ok(old(self).reg.sp),
            old(self).reg.flags_clean(),
        ensures
            (final(self)@, cycles) == x3_result::<M>(old(self)@, y as int, 7),
            cycles <= 6,
            final(self).reg.flags_clean(),
    {
        match y {
            0 => { self.rst(0x00)                                    },
            1 => { self.rst(0x08)                                    },
            2 => { self.rst(0x10)                                    },
            3 => { self.rst(0x18)                                    },
            4 => { self.rst(0x20)                                    },
            5 => { self.rst(0x28)                                    },
            6 => { self.rst(0x30)                                    },
            _ => { self.rst(0x38)                                    },
        }
    }
}

impl<M: Memory> CPU<M> {
    fn jr(&mut self, cond: bool) -> (cycles: u32)
        requires
            total::<M>(),
            old(self).reg.pc < 0xFFFF,
        ensures
            (final(self)@, cycles) == jr_result::<M>(old(self)@, cond),
    {
        let byte = self.read_byte();
        if cond {
            // PC plus the offset byte read as a signed number.
            let e: u16 = if byte < 0x80 { byte as u16 } else { byte as u16 | 0xFF00 };
            proof { lemma_byte_widen(byte); }
            self.reg.pc = self.reg.pc.wrapping_add(e);
            3
        } else {
            2
        }
    }

    fn jp(&mut self, cond: bool) -> (cycles: u32)
        requires
            total::<M>(),
            old(self).reg.pc <= 0xFFFD,
        ensures
            (final(self)@, cycles) == jp_result::<M>(old(self)@, cond),
    {
        let word = self.read_word();
        if cond {
            self.reg.pc = word;
            4
        } else {
            3
        }
    }

    fn call(&mut self, cond: bool) -> (cycles: u32)
        requires
            total::<M>(),
            old(self).reg.pc <= 0xFFFD,
            cond ==> push_ok(old(self).reg.sp),
        ensures
            (final(self)@, cycles) == call_result::<M>(old(self)@, cond),
    {
        let word = self.read_word();
        if cond {
            self.push(self.reg.pc);
            self.reg.pc = word;
            6
        } else {
            3
        }
    }

    fn ret(&mut self, cond: bool) -> (cycles: u32)
        requires
            total::<M>(),
            cond ==> old(self).reg.sp <= 0xFFFD,
        ensures
            (final(self)@, cycles) == ret_result::<M>(old(self)@, cond),
    {
        if cond {
            self.reg.pc = self.pop();
            5
        } else {
            2
        }
    }

    fn rst(&mut self, a: u16) -> (cycles: u32)
        requires
            total::<M>(),
            push_ok(old(self).reg.sp),
        ensures
            (final(self)@, cycles) == rst_result::<M>(old(self)@, a as int),
    {
        self.push(self.reg.pc);
        self.reg.pc = a;
        4
    }

    #[verifier::spinoff_prover]
    #[verifier::rlimit(30)]
    fn alu_add(&mut self, x: u8)
        requires
            old(self).reg.flags_clean(),
        ensures
            final(self)@ == old(self)@.with_reg(alu_result(old(self).reg, AluOp::Add, x)),
            final(self).reg.flags_clean(),
    {
        let ghost r0 = self.reg;
        let a = self.reg.a;
        proof { lemma_nibble(a); lemma_nibble(x); }
        let r = a.wrapping_add(x);
        let (c, h) = (a as u16 + x as u16 > 0xFF, (a & 0x0F) + (x & 0x0F) > 0x0F);
        self.reg.set_flag(Flags::C, c);
        self.reg.set_flag(Flags::H, h);
        self.reg.set_flag(Flags::N, false);
        self.reg.set_flag(Flags::Z, r == 0);
        proof { lemma_chnz(r0, r == 0, false, h, c); lemma_chain_clean4(r0, r == 0, false, h, c); }
        self.reg.a = r;
    }

    #[verifier::spinoff_prover]
    #[verifier::rlimit(30)]
    fn alu_adc(&mut self, x: u8)
        requires
            old(self).reg.flags_clean(),
        ensures
            final(self)@ == old(self)@.with_reg(alu_result(old(self).reg, AluOp::Adc, x)),
            final(self).reg.flags_clean(),
    {
        let ghost r0 = self.reg;
        let a = self.reg.a;
        let c: u8 = if self.reg.get_flag(Flags::C) { 1 } else { 0 };
        proof { lemma_nibble(a); lemma_nibble(x); lemma_nibble(c); }
        let r = a.wrapping_add(x).wrapping_add(c);
        let (cf, h) = (a as u16 + x as u16 + c as u16 > 0xFF, (a & 0x0F) + (x & 0x0F) + (c & 0x0F) > 0x0F);
        self.reg.set_flag(Flags::C, cf);
        self.reg.set_flag(Flags::H, h);
        self.reg.set_flag(Flags::N, false);
        self.reg.set_flag(Flags::Z, r == 0);
        proof { lemma_chnz(r0, r == 0, false, h, cf); lemma_chain_clean4(r0, r == 0, false, h, cf); }
        self.reg.a = r;
    }

    #[verifier::spinoff_prover]
    #[verifier::rlimit(30)]
    fn alu_add_16(&mut self, x: u16)
        requires
            old(self).reg.flags_clean(),
        ensures
            final(self)@ == old(self)@.with_reg(add_hl_result(old(self).reg, x)),
            final(self).reg.flags_clean(),
    {
        let ghost r0 = self.reg;
        let a = self.reg.get_hl();
        proof { lemma_low_bits16(a); lemma_low_bits16(x); }
        let r = a.wrapping_add(x);
        let (c, h) = (a as u32 + x as u32 > 0xFFFF, (a & 0x0FFF) + (x & 0x0FFF) > 0x0FFF);
        self.reg.set_flag(Flags::C, c);
        self.reg.set_flag(Flags::H, h);
        self.reg.set_flag(Flags::N, false);
        proof { lemma_chn(r0, false, h, c); lemma_chain_clean4(r0, false, false, h, c); }
        self.reg.set_hl(r);
    }

    /// `a` plus the signed byte read at PC; Z = N = 0, H and C from the
    /// unsigned low-byte addition.
    #[verifier::spinoff_prover]
    #[verifier::rlimit(30)]
    fn alu_add_16_imm(&mut self, a: u16) -> (r: u16)
        requires
            total::<M>(),
            old(self).reg.pc < 0xFFFF,
            old(self).reg.flags_clean(),
        ensures
            ({
                let (s1, e) = fetch8::<M>(old(self)@);
                let ex = sign_extend(e) as int;
                &&& final(self)@ == s1.with_reg(
                    with_znhc(s1.reg, false, false, a % 16 + ex % 16 > 15, a % 256 + ex % 256 > 255),
                )
                &&& r == ((a + ex) % 65536) as u16
            }),
            final(self).reg.flags_clean(),
    {
        let byte = self.read_byte();
        let ghost r0 = self.reg;
        // The byte as a signed offset, widened to 16 bits.
        let b: u16 = if byte < 0x80 { byte as u16 } else { byte as u16 | 0xFF00 };
        proof { lemma_byte_widen(byte); }
        proof { lemma_low_bits16(a); lemma_low_bits16(b); }
        let (c, h) = ((a & 0x00FF) + (b & 0x00FF) > 0x00FF, (a & 0x000F) + (b & 0x000F) > 0x000F);
        self.reg.set_flag(Flags::C, c);
        self.reg.set_flag(Flags::H, h);
        self.reg.set_flag(Flags::N, false);
        self.reg.set_flag(Flags::Z, false);
        proof { lemma_chnz(r0, false, false, h, c); lemma_chain_clean4(r0, false, false, h, c); }
        a.wrapping_add(b)
    }

    #[verifier::spinoff_prover]
    #[verifier::rlimit(30)]
    fn alu_sub(&mut self, x: u8)
        requires
            old(self).reg.flags_clean(),
        ensures
            final(self)@ == old(self)@.with_reg(alu_result(old(self).reg, AluOp::Sub, x)),
            final(self).reg.flags_clean(),
    {
        let ghost r0 = self.reg;
        let a = self.reg.a;
        proof { lemma_nibble(a); lemma_nibble(x); }
        let r = a.wrapping_sub(x);
        let (c, h) = ((a as u16) < (x as u16), (a & 0xF) < (x & 0xF));
        self.reg.set_flag(Flags::C, c);
        self.reg.set_flag(Flags::H, h);
        self.reg.set_flag(Flags::N, true);
        self.reg.set_flag(Flags::Z, r == 0);
        proof { lemma_chnz(r0, r == 0, true, h, c); lemma_chain_clean4(r0, r == 0, true, h, c); }
        self.reg.a = r;
    }

    #[verifier::spinoff_prover]
    #[verifier::rlimit(30)]
    fn alu_sbc(&mut self, x: u8)
        requires
            old(self).reg.flags_clean(),
        ensures
            final(self)@ == old(self)@.with_reg(alu_result(old(self).reg, AluOp::Sbc, x)),
            final(self).reg.flags_clean(),
    {
        let ghost r0 = self.reg;
        let a = self.reg.a;
        let c: u8 = if self.reg.get_flag(Flags::C) { 1 } else { 0 };
        proof { lemma_nibble(a); lemma_nibble(x); }
        let r = a.wrapping_sub(x).wrapping_sub(c);
        let (cf, h) = ((a as u16) < (x as u16) + (c as u16), (a & 0xF) < (x & 0xF) + c);
        self.reg.set_flag(Flags::C, cf);
        self.reg.set_flag(Flags::H, h);
        self.reg.set_flag(Flags::N, true);
        self.reg.set_flag(Flags::Z, r == 0);
        proof { lemma_chnz(r0, r == 0, true, h, cf); lemma_chain_clean4(r0, r == 0, true, h, cf); }
        self.reg.a = r;
    }

    fn alu_and(&mut self, x: u8)
        requires
            old(self).reg.flags_clean(),
        ensures
            final(self)@ == old(self)@.with_reg(alu_result(old(self).reg, AluOp::And, x)),
            final(self).reg.flags_clean(),
    {
        let ghost r0 = self.reg;
        let r = self.reg.a & x;
        self.reg.set_flag(Flags::C, false);
        self.reg.set_flag(Flags::H, true);
        self.reg.set_flag(Flags::N, false);
        self.reg.set_flag(Flags::Z, r == 0);
        proof { lemma_chnz(r0, r == 0, false, true, false); lemma_chain_clean4(r0, r == 0, false, true, false); }
        self.reg.a = r;
    }

    fn alu_or(&mut self, x: u8)
        requires
            old(self).reg.flags_clean(),
        ensures
            final(self)@ == old(self)@.with_reg(alu_result(old(self).reg, AluOp::Or, x)),
            final(self).reg.flags_clean(),
    {
        let ghost r0 = self.reg;
        let r = self.reg.a | x;
        self.reg.set_flag(Flags::C, false);
        self.reg.set_flag(Flags::H, false);
        self.reg.set_flag(Flags::N, false);
        self.reg.set_flag(Flags::Z, r == 0);
        proof { lemma_chnz(r0, r == 0, false, false, false); lemma_chain_clean4(r0, r == 0, false, false, false); }
        self.reg.a = r;
    }

    fn alu_xor(&mut self, x: u8)
        requires
            old(self).reg.flags_clean(),
        ensures
            final(self)@ == old(self)@.with_reg(alu_result(old(self).reg, AluOp::Xor, x)),
            final(self).reg.flags_clean(),
    {
        let ghost r0 = self.reg;
        let r = self.reg.a ^ x;
        self.reg.set_flag(Flags::C, false);
        self.reg.set_flag(Flags::H, false);
        self.reg.set_flag(Flags::N, false);
        self.reg.set_flag(Flags::Z, r == 0);
        proof { lemma_chnz(r0, r == 0, false, false, false); lemma_chain_clean4(r0, r == 0, false, false, false); }
        self.reg.a = r;
    }

    fn alu_cp(&mut self, x: u8)
        requires
            old(self).reg.flags_clean(),
        ensures
            final(self)@ == old(self)@.with_reg(alu_result(old(self).reg, AluOp::Cp, x)),
            final(self).reg.flags_clean(),
    {
        let r = self.reg.a;
        self.alu_sub(x);
        self.reg.a = r
    }

    fn alu_inc(&mut self, x: u8) -> (r: u8)
        requires
            old(self).reg.flags_clean(),
        ensures
            (final(self).reg, r) == inc8_result(old(self).reg, x),
            final(self)@ == old(self)@.with_reg(final(self).reg),
            final(self).reg.flags_clean(),
    {
        let ghost r0 = self.reg;
        proof { lemma_nibble(x); }
        let r = x.wrapping_add(1);
        let h = (x & 0b0000_1111) + 0b0000_0001 > 0b0000_1111;
        self.reg.set_flag(Flags::H, h);
        self.reg.set_flag(Flags::N, false);
        self.reg.set_flag(Flags::Z, r == 0);
        proof { lemma_hnz(r0, r == 0, false, h); lemma_chain_clean4(r0, r == 0, false, h, false); }
        r
    }

    fn alu_dec(&mut self, x: u8) -> (r: u8)
        requires
            old(self).reg.flags_clean(),
        ensures
            (final(self).reg, r) == dec8_result(old(self).reg, x),
            final(self)@ == old(self)@.with_reg(final(self).reg),
            final(self).reg.flags_clean(),
    {
        let ghost r0 = self.reg;
        proof { lemma_trailing_zeros_nibble(x); }
        let r = x.wrapping_sub(1);
        let h = x.trailing_zeros() >= 4;
        self.reg.set_flag(Flags::H, h);
        self.reg.set_flag(Flags::N, true);
        self.reg.set_flag(Flags::Z, r == 0);
        proof { lemma_hnz(r0, r == 0, true, h); lemma_chain_clean4(r0, r == 0, true, h, false); }
        r
    }

    fn alu_bit(&mut self, a: u8, b: u8)
        requires
            old(self).reg.flags_clean(),
            b < 8,
        ensures
            final(self)@ == old(self)@.with_reg(bit_result(old(self).reg, b, a)),
            final(self).reg.flags_clean(),
    {
        let ghost r0 = self.reg;
        proof { lemma_bit_mask(a, b); }
        let r = a & (1u8 << b) == 0x00;
        self.reg.set_flag(Flags::H, true);
        self.reg.set_flag(Flags::N, false);
        self.reg.set_flag(Flags::Z, r);
        proof { lemma_hnz(r0, r, false, true); lemma_chain_clean4(r0, r, false, true, false); }
    }

    fn alu_set(&mut self, a: u8, b: u8) -> (r: u8)
        requires
            b < 8,
        ensures
            r == set_result(b, a),
            final(self)@ == old(self)@,
    {
        proof { lemma_bit_mask(a, b); }
        a | (1u8 << b)
    }

    fn alu_res(&mut self, a: u8, b: u8) -> (r: u8)
        requires
            b < 8,
        ensures
            r == res_result(b, a),
            final(self)@ == old(self)@,
    {
        proof { lemma_bit_mask(a, b); }
        a & !(1u8 << b)
    }

    /// Sets C, H, N, Z (in that order) as a shift/rotate does.
    fn rot_flags(&mut self, r: u8, c: bool)
        requires
            old(self).reg.flags_clean(),
        ensures
            final(self)@ == old(self)@.with_reg(with_znhc(old(self).reg, r == 0, false, false, c)),
            final(self).reg.flags_clean(),
    {
        let ghost r0 = self.reg;
        self.reg.set_flag(Flags::C, c);
        self.reg.set_flag(Flags::H, false);
        self.reg.set_flag(Flags::N, false);
        self.reg.set_flag(Flags::Z, r == 0);
        proof { lemma_chnz(r0, r == 0, false, false, c); lemma_chain_clean4(r0, r == 0, false, false, c); }
    }

    fn alu_swap(&mut self, a: u8) -> (r: u8)
        requires
            old(self).reg.flags_clean(),
        ensures
            (final(self).reg, r) == rotate_result(old(self).reg, RotOp::Swap, a),
            final(self)@ == old(self)@.with_reg(final(self).reg),
            final(self).reg.flags_clean(),
    {
        proof { lemma_rotations(a, 0); }
        let r = (a >> 4u8) | (a << 4u8);
        proof { lemma_top_bit(a); }
        self.rot_flags(a, false);
        r
    }

    fn alu_srl(&mut self, a: u8) -> (r: u8)
        requires
            old(self).reg.flags_clean(),
        ensures
            (final(self).reg, r) == rotate_result(old(self).reg, RotOp::Srl, a),
            final(self)@ == old(self)@.with_reg(final(self).reg),
            final(self).reg.flags_clean(),
    {
        proof { lemma_rotations(a, 0); }
        let c = a & 0b0000_0001 == 0b0000_0001;
        let r = a >> 1u8;
        self.rot_flags(r, c);
        r
    }

    fn alu_sla(&mut self, a: u8) -> (r: u8)
        requires
            old(self).reg.flags_clean(),
        ensures
            (final(self).reg, r) == rotate_result(old(self).reg, RotOp::Sla, a),
            final(self)@ == old(self)@.with_reg(final(self).reg),
            final(self).reg.flags_clean(),
    {
        proof { lemma_rotations(a, 0); }
        let c = a & 0b1000_0000 == 0b1000_0000;
        let r = a << 1u8;
        self.rot_flags(r, c);
        r
    }

    fn alu_sra(&mut self, a: u8) -> (r: u8)
        requires
            old(self).reg.flags_clean(),
        ensures
            (final(self).reg, r) == rotate_result(old(self).reg, RotOp::Sra, a),
            final(self)@ == old(self)@.with_reg(final(self).reg),
            final(self).reg.flags_clean(),
    {
        proof { lemma_rotations(a, 0); }
        let c = a & 0b0000_0001 == 0b0000_0001;
        let r = (a >> 1u8) | (a & 0b1000_0000);
        self.rot_flags(r, c);
        r
    }

    fn alu_rrc(&mut self, a: u8) -> (r: u8)
        requires
            old(self).reg.flags_clean(),
        ensures
            (final(self).reg, r) == rotate_result(old(self).reg, RotOp::Rrc, a),
            final(self)@ == old(self)@.with_reg(final(self).reg),
            final(self).reg.flags_clean(),
    {
        proof { lemma_rotations(a, 0); }
        let c = a & 0b0000_0001 == 0b0000_0001;
        // Rotate right by one.
        let r = (a >> 1u8) | (a << 7u8);
        self.rot_flags(r, c);
        r
    }

    fn alu_rr(&mut self, a: u8) -> (r: u8)
        requires
            old(self).reg.flags_clean(),
        ensures
            (final(self).reg, r) == rotate_result(old(self).reg, RotOp::Rr, a),
            final(self)@ == old(self)@.with_reg(final(self).reg),
            final(self).reg.flags_clean(),
    {
        let cy = self.reg.get_flag(Flags::C);
        proof { lemma_rotations(a, if cy { 1 } else { 0 }); }
        let c = a & 0b0000_0001 == 0b0000_0001;
        let mut r = a >> 1u8;
        if cy {
            r = r | 0b1000_0000;
        }
        proof { lemma_carry_in(a, if cy { 1 } else { 0 }); }
        self.rot_flags(r, c);
        r
    }

    fn alu_rlc(&mut self, a: u8) -> (r: u8)
        requires
            old(self).reg.flags_clean(),
        ensures
            (final(self).reg, r) == rotate_result(old(self).reg, RotOp::Rlc, a),
            final(self)@ == old(self)@.with_reg(final(self).reg),
            final(self).reg.flags_clean(),
    {
        proof { lemma_rotations(a, 0); }
        let c = a & 0b1000_0000 == 0b1000_0000;
        // Rotate left by one.
        let r = (a << 1u8) | (a >> 7u8);
        self.rot_flags(r, c);
        r
    }

    fn alu_rl(&mut self, a: u8) -> (r: u8)
        requires
            old(self).reg.flags_clean(),
        ensures
            (final(self).reg, r) == rotate_result(old(self).reg, RotOp::Rl, a),
            final(self)@ == old(self)@.with_reg(final(self).reg),
            final(self).reg.flags_clean(),
    {
        let cy: u8 = if self.reg.get_flag(Flags::C) { 1 } else { 0 };
        proof { lemma_rotations(a, cy); }
        let c = (a & 0x80) >> 7u8 == 0x01;
        proof { lemma_top_bit(a); lemma_carry_in(a, cy); }
        let r = (a << 1u8) + cy;
        self.rot_flags(r, c);
        r
    }

    #[verifier::spinoff_prover]
    #[verifier::rlimit(30)]
    fn alu_daa(&mut self)
        requires
            old(self).reg.flags_clean(),
        ensures
            final(self)@ == old(self)@.with_reg(daa_result(old(self).reg)),
            final(self).reg.flags_clean(),
    {
        let ghost r0 = self.reg;
        let mut a = self.reg.a;
        let fc = self.reg.get_flag(Flags::C);
        let fh = self.reg.get_flag(Flags::H);
        let fn_ = self.reg.get_flag(Flags::N);
        proof { lemma_nibble(a); }
        let mut adjust: u8 = if fc { 0x60 } else { 0x00 };
        if fh {
            let before = adjust;
            adjust |= 0x06;
            proof { lemma_daa_bits(before); }
        }
        if !fn_ {
            if a & 0x0F > 0x09 {
                let before = adjust;
                adjust |= 0x06;
                proof { lemma_daa_bits(before); }
            }
            if a > 0x99 {
                let before = adjust;
                adjust |= 0x60;
                proof { lemma_daa_bits(before); }
            }
            a = a.wrapping_add(adjust);
        } else {
            a = a.wrapping_sub(adjust);
        }
        assert(adjust as int == daa_adjust(r0));
        self.reg.set_flag(Flags::C, adjust >= 0x60);
        self.reg.set_flag(Flags::H, false);
        self.reg.set_flag(Flags::Z, a == 0x00);
        proof { lemma_chz(r0, a == 0, false, adjust >= 0x60); lemma_chain_clean4(r0, a == 0, false, false, adjust >= 0x60); }
        self.reg.a = a;
    }

    fn alu_cpl(&mut self)
        requires
            old(self).reg.flags_clean(),
        ensures
            final(self)@ == old(self)@.with_reg(
                Registers { a: (255 - old(self).reg.a) as u8, ..old(self).reg }.with_flag(Flags::H, true).with_flag(
                    Flags::N,
                    true,
                ),
            ),
            final(self).reg.flags_clean(),
    {
        let a = self.reg.a;
        proof { lemma_byte_not(a); }
        self.reg.a = !a;
        proof { lemma_chain_clean4(self.reg, false, true, true, false); }
        self.reg.set_flag(Flags::H, true);
        self.reg.set_flag(Flags::N, true);
    }

    fn alu_ccf(&mut self)
        requires
            old(self).reg.flags_clean(),
        ensures
            final(self)@ == old(self)@.with_reg(
                old(self).reg.with_flag(Flags::C, !old(self).reg.flag(Flags::C)).with_flag(Flags::H, false).with_flag(
                    Flags::N,
                    false,
                ),
            ),
            final(self).reg.flags_clean(),
    {
        let v = !self.reg.get_flag(Flags::C);
        proof { lemma_chain_clean4(self.reg, false, false, false, v); }
        self.reg.set_flag(Flags::C, v);
        self.reg.set_flag(Flags::H, false);
        self.reg.set_flag(Flags::N, false);
    }

    fn alu_scf(&mut self)
        requires
            old(self).reg.flags_clean(),
        ensures
            final(self)@ == old(self)@.with_reg(
                old(self).reg.with_flag(Flags::C, true).with_flag(Flags::H, false).with_flag(Flags::N, false),
            ),
            final(self).reg.flags_clean(),
    {
        proof { lemma_chain_clean4(self.reg, false, false, false, true); }
        self.reg.set_flag(Flags::C, true);
        self.reg.set_flag(Flags::H, false);
        self.reg.set_flag(Flags::N, false);
    }
}

} // verus!
