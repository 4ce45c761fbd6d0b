use tetsuyu::components::cpu::CPU;
use tetsuyu::components::cpu::types::{alu_of, cc_of, r8_of, rot_of, rp2_of, rp_of};
use tetsuyu::components::mode::GBMode;
use tetsuyu::components::registers::{Flags, Registers};
use tetsuyu::hw::cpu::{AluOp, Cond, RotOp, R16, R16Stk, R8};
use tetsuyu::components::ram::Ram;
use tetsuyu::memory::Memory;

/// A CPU at PC = 0x0100 over 64 KiB of RAM holding `program` from 0x0100,
/// with the stack at 0xB000.
fn cpu_with(program: &[u8]) -> CPU<Ram> {
    let mut ram = Ram::new();
    for (i, b) in program.iter().enumerate() {
        ram.write(0x100 + i as u16, *b);
    }
    let mut reg = Registers::new(GBMode::DMG);
    reg.pc = 0x0100;
    reg.sp = 0xB000;
    CPU::new(reg, ram)
}

#[test]
fn register_pairs_round_trip() {
    let mut r = Registers::new(GBMode::DMG);
    r.set_bc(0x1234);
    r.set_de(0xABCD);
    r.set_hl(0x00FF);
    assert_eq!(r.get_bc(), 0x1234);
    assert_eq!(r.get_de(), 0xABCD);
    assert_eq!(r.get_hl(), 0x00FF);
    assert_eq!((r.b, r.c), (0x12, 0x34));
    r.set_af(0x12FF);
    assert_eq!(r.get_af(), 0x12F0);
}

#[test]
fn flags_set_and_read_back() {
    let mut r = Registers::new(GBMode::CGB);
    assert!(r.get_flag(Flags::Z));
    assert!(!r.get_flag(Flags::C));
    r.set_flag(Flags::C, true);
    r.set_flag(Flags::Z, false);
    assert!(r.get_flag(Flags::C));
    assert!(!r.get_flag(Flags::Z));
    assert_eq!(r.f, 0x10);
}

#[test]
fn power_up_registers() {
    let d = Registers::new(GBMode::DMG);
    assert_eq!((d.a, d.f, d.b, d.c, d.d, d.e, d.h, d.l), (0x01, 0xB0, 0x00, 0x13, 0x00, 0xD8, 0x01, 0x4D));
    assert_eq!(d.sp, 0xFFFE);
    let c = Registers::new(GBMode::CGB);
    assert_eq!((c.a, c.f, c.d, c.e, c.l), (0x11, 0x80, 0xFF, 0x56, 0x0D));
}

#[test]
fn load_and_add_immediate() {
    // LD A,0x12 ; ADD A,0x34
    let mut cpu = cpu_with(&[0x3E, 0x12, 0xC6, 0x34]);
    assert_eq!(cpu.op_call(), 2);
    assert_eq!(cpu.reg.a, 0x12);
    assert_eq!(cpu.op_call(), 2);
    assert_eq!(cpu.reg.a, 0x46);
    assert_eq!(cpu.reg.pc, 0x0104);
    assert!(!cpu.reg.get_flag(Flags::Z));
    assert!(!cpu.reg.get_flag(Flags::C));
}

#[test]
fn add_sets_carry_half_carry_and_zero() {
    // LD A,0xFF ; ADD A,0x01
    let mut cpu = cpu_with(&[0x3E, 0xFF, 0xC6, 0x01]);
    cpu.op_call();
    cpu.op_call();
    assert_eq!(cpu.reg.a, 0x00);
    assert!(cpu.reg.get_flag(Flags::Z));
    assert!(cpu.reg.get_flag(Flags::H));
    assert!(cpu.reg.get_flag(Flags::C));
    assert!(!cpu.reg.get_flag(Flags::N));
}

#[test]
fn compare_keeps_accumulator() {
    // LD A,0x10 ; CP 0x10
    let mut cpu = cpu_with(&[0x3E, 0x10, 0xFE, 0x10]);
    cpu.op_call();
    cpu.op_call();
    assert_eq!(cpu.reg.a, 0x10);
    assert!(cpu.reg.get_flag(Flags::Z));
    assert!(cpu.reg.get_flag(Flags::N));
}

#[test]
fn xor_a_clears_accumulator() {
    // XOR A
    let mut cpu = cpu_with(&[0xAF]);
    assert_eq!(cpu.op_call(), 1);
    assert_eq!(cpu.reg.a, 0);
    assert_eq!(cpu.reg.f, 0x80);
}

#[test]
fn cb_swap_and_bit() {
    // LD A,0xF1 ; SWAP A ; BIT 7,A ; BIT 3,A
    let mut cpu = cpu_with(&[0x3E, 0xF1, 0xCB, 0x37, 0xCB, 0x7F, 0xCB, 0x5F]);
    cpu.op_call();
    assert_eq!(cpu.op_call(), 2);
    assert_eq!(cpu.reg.a, 0x1F);
    cpu.op_call();
    assert!(cpu.reg.get_flag(Flags::Z));
    cpu.op_call();
    assert!(!cpu.reg.get_flag(Flags::Z));
    assert!(cpu.reg.get_flag(Flags::H));
}

#[test]
fn cb_set_and_res_on_hl() {
    // LD HL,0xA000 ; SET 2,(HL) ; RES 2,(HL)
    let mut cpu = cpu_with(&[0x21, 0x00, 0xA0, 0xCB, 0xD6, 0xCB, 0x96]);
    cpu.op_call();
    assert_eq!(cpu.op_call(), 4);
    assert_eq!(cpu.mem.read(0xA000), 0x04);
    cpu.op_call();
    assert_eq!(cpu.mem.read(0xA000), 0x00);
}

#[test]
fn call_and_return() {
    // CALL 0x0110 ; ... ; at 0x0110: RET
    let mut program = vec![0u8; 0x11];
    program[0] = 0xCD;
    program[1] = 0x10;
    program[2] = 0x01;
    program[0x10] = 0xC9;
    let mut cpu = cpu_with(&program);
    assert_eq!(cpu.op_call(), 6);
    assert_eq!(cpu.reg.pc, 0x0110);
    assert_eq!(cpu.reg.sp, 0xAFFE);
    assert_eq!(cpu.mem.read_word(0xAFFE), 0x0103);
    assert_eq!(cpu.op_call(), 4);
    assert_eq!(cpu.reg.pc, 0x0103);
    assert_eq!(cpu.reg.sp, 0xB000);
}

#[test]
fn relative_jump_backwards() {
    // NOP ; JR -3 (back to 0x0100)
    let mut cpu = cpu_with(&[0x00, 0x18, 0xFD]);
    cpu.op_call();
    assert_eq!(cpu.op_call(), 3);
    assert_eq!(cpu.reg.pc, 0x0100);
}

#[test]
fn daa_after_bcd_addition() {
    // LD A,0x45 ; ADD A,0x38 ; DAA
    let mut cpu = cpu_with(&[0x3E, 0x45, 0xC6, 0x38, 0x27]);
    cpu.op_call();
    cpu.op_call();
    cpu.op_call();
    assert_eq!(cpu.reg.a, 0x83);
}

#[test]
fn push_pop_af_masks_low_nibble() {
    // LD BC,0x12FF ; PUSH BC ; POP AF
    let mut cpu = cpu_with(&[0x01, 0xFF, 0x12, 0xC5, 0xF1]);
    cpu.op_call();
    assert_eq!(cpu.op_call(), 4);
    assert_eq!(cpu.op_call(), 3);
    assert_eq!(cpu.reg.a, 0x12);
    assert_eq!(cpu.reg.f, 0xF0);
}

#[test]
fn halt_idles_in_cycles() {
    // HALT
    let mut cpu = cpu_with(&[0x76]);
    assert_eq!(cpu.cycle(), 4);
    assert_eq!(cpu.cycle(), 4);
    assert_eq!(cpu.reg.pc, 0x0101);
}

#[test]
fn cycle_counts_t_cycles() {
    // LD BC,0x1234
    let mut cpu = cpu_with(&[0x01, 0x34, 0x12]);
    assert_eq!(cpu.cycle(), 12);
    assert_eq!(cpu.reg.get_bc(), 0x1234);
}

#[test]
fn operand_tables() {
    assert!(r8_of(0) == R8::B);
    assert!(r8_of(7) == R8::A);
    assert!(matches!(rp_of(3), R16::Sp));
    assert!(matches!(rp2_of(3), R16Stk::Af));
    assert!(matches!(cc_of(2), Cond::Nc));
    assert!(matches!(alu_of(5), AluOp::Xor));
    assert!(matches!(rot_of(6), RotOp::Swap));
}

#[test]
fn swap_twice_restores() {
    // LD A,0x9C ; SWAP A ; SWAP A
    let mut cpu = cpu_with(&[0x3E, 0x9C, 0xCB, 0x37, 0xCB, 0x37]);
    cpu.op_call();
    cpu.op_call();
    assert_eq!(cpu.reg.a, 0xC9);
    cpu.op_call();
    assert_eq!(cpu.reg.a, 0x9C);
}

#[test]
fn interrupt_taken_from_if_and_ie() {
    // EI ; NOP ; NOP with the timer interrupt flagged and enabled.
    let mut cpu = cpu_with(&[0xFB, 0x00, 0x00]);
    cpu.mem.write(0xFF0F, 0x04);
    cpu.mem.write(0xFFFF, 0x04);
    // EI takes effect before the following instruction.
    assert_eq!(cpu.cycle(), 4);
    assert_eq!(cpu.cycle(), 4);
    // The interrupt is taken now: 5 M-cycles, PC at the timer vector.
    assert_eq!(cpu.cycle(), 20);
    assert_eq!(cpu.reg.pc, 0x0050);
    assert_eq!(cpu.mem.read(0xFF0F), 0x00);
    assert_eq!(cpu.mem.read_word(cpu.reg.sp), 0x0102);
}

#[test]
fn interrupt_bits_above_four_are_ignored() {
    // EI ; NOP ; NOP with only IF/IE bits 5-7 set: no interrupt exists there.
    let mut cpu = cpu_with(&[0xFB, 0x00, 0x00]);
    cpu.mem.write(0xFF0F, 0xE0);
    cpu.mem.write(0xFFFF, 0xE0);
    assert_eq!(cpu.cycle(), 4);
    assert_eq!(cpu.cycle(), 4);
    assert_eq!(cpu.cycle(), 4);
    assert_eq!(cpu.reg.pc, 0x0103);
}

#[test]
fn bcd_add_and_sub_with_daa() {
    // LD A,0x45 ; LD B,0x38 ; ADD A,B ; DAA
    let mut cpu = cpu_with(&[0x3E, 0x45, 0x06, 0x38, 0x80, 0x27]);
    for _ in 0..4 {
        cpu.cycle();
    }
    assert_eq!(cpu.reg.a, 0x83);
    assert!(!cpu.reg.get_flag(Flags::C));
    // LD A,0x00 ; LD B,0x01 ; SUB B ; DAA
    let mut cpu = cpu_with(&[0x3E, 0x00, 0x06, 0x01, 0x90, 0x27]);
    for _ in 0..4 {
        cpu.cycle();
    }
    assert_eq!(cpu.reg.a, 0x99);
    assert!(cpu.reg.get_flag(Flags::C));
}

#[test]
fn call_then_ret_returns() {
    // CALL 0x0200 ; ... at 0x0200: RET
    let mut cpu = cpu_with(&[0xCD, 0x00, 0x02]);
    cpu.mem.write(0x0200, 0xC9);
    assert_eq!(cpu.cycle(), 24);
    assert_eq!(cpu.reg.pc, 0x0200);
    assert_eq!(cpu.mem.read(0xAFFE), 0x03);
    assert_eq!(cpu.mem.read(0xAFFF), 0x01);
    assert_eq!(cpu.cycle(), 16);
    assert_eq!(cpu.reg.pc, 0x0103);
    assert_eq!(cpu.reg.sp, 0xB000);
}

#[test]
fn bit_hl_keeps_carry() {
    // LD HL,0xC010 ; BIT 0,(HL)
    let mut cpu = cpu_with(&[0x21, 0x10, 0xC0, 0xCB, 0x46]);
    cpu.mem.write(0xC010, 0x01);
    cpu.cycle();
    cpu.reg.f = 0x10;
    assert_eq!(cpu.cycle(), 12);
    assert_eq!(cpu.reg.f, 0x30);
    assert_eq!(cpu.reg.pc, 0x0105);
    assert_eq!(cpu.mem.read(0xC010), 0x01);
}
