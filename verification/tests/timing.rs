use tetsuyu::components::cpu::CPU;
use tetsuyu::components::mode::GBMode;
use tetsuyu::components::ram::Ram;
use tetsuyu::components::registers::Registers;
use tetsuyu::hw::bus::{BusDir, Pins};
use tetsuyu::hw::cpu::Cpu;
use tetsuyu::memory::Memory;

/// The M-cycles the cycle-level core takes for the instruction at 0x0100:
/// counted from after its opcode fetch up to and including the next fetch.
fn core_mcycles(program: &[u8]) -> u32 {
    let mut mem = vec![0u8; 0x10000];
    mem[0x100..0x100 + program.len()].copy_from_slice(program);
    let mut cpu = Cpu::new(GBMode::DMG);
    let mut regs = cpu.registers();
    regs.pc = 0x0100;
    regs.sp = 0xB000;
    cpu.set_registers(regs);
    let mut pins = Pins::new();
    let mut fetches = 0;
    let mut cycles = 0;
    loop {
        cpu.run_free_acts();
        cpu.setup(&mut pins);
        match pins.dir {
            BusDir::Read => pins.data = mem[pins.address as usize],
            BusDir::Write => mem[pins.address as usize] = pins.data,
            BusDir::Idle => {}
        }
        let fetched = cpu.complete(&pins);
        if fetches == 1 {
            cycles += 1;
        }
        if fetched {
            fetches += 1;
            if fetches == 2 {
                return cycles;
            }
        }
    }
}

/// The T-cycles the instruction-level interpreter charges for the same
/// instruction.
fn interpreter_tcycles(program: &[u8]) -> u32 {
    let mut ram = Ram::new();
    for (i, b) in program.iter().enumerate() {
        ram.write(0x100 + i as u16, *b);
    }
    let mut reg = Registers::new(GBMode::DMG);
    reg.pc = 0x0100;
    reg.sp = 0xB000;
    let mut cpu = CPU::new(reg, ram);
    cpu.cycle()
}

#[test]
fn core_and_interpreter_agree_on_timing() {
    let programs: [&[u8]; 10] = [
        &[0x00],             // NOP
        &[0x01, 0x34, 0x12], // LD BC,nn
        &[0x08, 0x00, 0xC2], // LD (nn),SP
        &[0x36, 0x42],       // LD (HL),n
        &[0x34],             // INC (HL)
        &[0xC5],             // PUSH BC
        &[0xC1],             // POP BC
        &[0xCD, 0x00, 0x02], // CALL nn
        &[0xE8, 0x05],       // ADD SP,e
        &[0xFA, 0x00, 0xC0], // LD A,(nn)
    ];
    let expected = [1, 3, 5, 3, 3, 4, 3, 6, 4, 4];
    for (p, m) in programs.iter().zip(expected.iter()) {
        assert_eq!(core_mcycles(p), *m);
        assert_eq!(interpreter_tcycles(p), 4 * m);
    }
}
