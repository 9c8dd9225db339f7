//! End-to-end scenarios: RESET, machine code driven through `step`, and the
//! cycle bookkeeping of the master clock.

use baroness::emu::{EmuError, Emulator};
use baroness::nes::parse_nes_file;

/// Builds an NROM-128 image: header, 16 KiB PRG, 8 KiB CHR, with `program`
/// placed at CPU address `0x8000` and the RESET vector pointing there.
fn make_cart(program: &[u8]) -> Vec<u8> {
    let mut file = vec![0u8; 16 + 0x4000 + 0x2000];
    file[0] = 0x4E;
    file[1] = 0x45;
    file[2] = 0x53;
    file[3] = 0x1A;
    file[4] = 1;
    file[5] = 1;
    for (i, &b) in program.iter().enumerate() {
        file[16 + i] = b;
    }
    // RESET vector at 0xFFFC/0xFFFD -> 0x8000.
    file[16 + 0x3FFC] = 0x00;
    file[16 + 0x3FFD] = 0x80;
    file
}

fn boot(program: &[u8]) -> Emulator {
    let file = make_cart(program);
    let header = parse_nes_file(&file).unwrap();
    let mut emu = Emulator::new(&file, &header).unwrap();
    emu.reset();
    emu
}

#[test]
fn reset_vector_sets_pc() {
    // A cartridge whose PRG ends with 00 00 00 80 00 00: the RESET vector
    // reads 0x8000.
    let mut file = make_cart(&[]);
    let n = file.len();
    let tail = [0x00, 0x00, 0x00, 0x80, 0x00, 0x00];
    for (i, &b) in tail.iter().enumerate() {
        file[n - 0x2000 - 6 + i] = b;
    }
    let header = parse_nes_file(&file).unwrap();
    let mut emu = Emulator::new(&file, &header).unwrap();
    emu.reset();
    assert_eq!(emu.regs.pc, 0x8000);
    assert_eq!(emu.regs.sp, 0xFD);
    assert!(emu.regs.flags.interrupt_disable);
}

#[test]
fn lda_immediate_flags_and_cycles() {
    // A9 00 EA: LDA #$00 then NOP.
    let mut emu = boot(&[0xA9, 0x00, 0xEA]);
    let cycles = emu.step().unwrap();
    assert_eq!(emu.regs.a, 0);
    assert!(emu.regs.flags.zero);
    assert!(!emu.regs.flags.negative);
    assert_eq!(emu.regs.pc, 0x8002);
    assert_eq!(cycles, 2);
}

#[test]
fn jsr_rts_round_trip() {
    // 20 05 80 EA EA 60: JSR 0x8005 lands on the RTS.
    let mut emu = boot(&[0x20, 0x05, 0x80, 0xEA, 0xEA, 0x60]);
    emu.step().unwrap();
    assert_eq!(emu.regs.pc, 0x8005);
    assert_eq!(emu.regs.sp, 0xFB);
    assert_eq!(emu.read(0x01FC), 0x02);
    assert_eq!(emu.read(0x01FD), 0x80);
    emu.step().unwrap();
    assert_eq!(emu.regs.pc, 0x8003);
    assert_eq!(emu.regs.sp, 0xFD);
}

#[test]
fn adc_overflow_scenario() {
    // LDA #$50 then ADC #$50 with carry clear.
    let mut emu = boot(&[0xA9, 0x50, 0x69, 0x50]);
    emu.step().unwrap();
    assert_eq!(emu.regs.a, 0x50);
    assert!(!emu.regs.flags.carry);
    emu.step().unwrap();
    assert_eq!(emu.regs.a, 0xA0);
    assert!(!emu.regs.flags.carry);
    assert!(emu.regs.flags.overflow);
    assert!(emu.regs.flags.negative);
    assert!(!emu.regs.flags.zero);
}

#[test]
fn indirect_jmp_page_bug() {
    // 6C FF 10: JMP ($10FF) with $10FF=0x34, $1000=0x12, $1100=0x56.
    let mut emu = boot(&[0x6C, 0xFF, 0x10]);
    emu.write(0x10FF, 0x34);
    emu.write(0x1000, 0x12);
    emu.write(0x1100, 0x56);
    emu.step().unwrap();
    assert_eq!(emu.regs.pc, 0x1234);
}

#[test]
fn illegal_opcode_is_fatal() {
    // 0x02 is an unpopulated slot.
    let mut emu = boot(&[0x02]);
    assert_eq!(emu.step(), Err(EmuError::IllegalOpcode(0x02)));
}

#[test]
fn step_reports_page_cross_cycle() {
    // LDX #$01 then LDA $80FF,X crosses into page 0x81.
    let mut emu = boot(&[0xA2, 0x01, 0xBD, 0xFF, 0x80]);
    emu.step().unwrap();
    let cycles = emu.step().unwrap();
    assert_eq!(cycles, 5);

    // The same load without crossing costs the base 4 cycles.
    let mut emu = boot(&[0xA2, 0x01, 0xBD, 0x00, 0x80]);
    emu.step().unwrap();
    let cycles = emu.step().unwrap();
    assert_eq!(cycles, 4);
}

#[test]
fn reset_charges_seven_cycles() {
    let mut emu = boot(&[0xEA]);
    assert_eq!(emu.cpu.cycle_debt, 7);
}

#[test]
fn clock_pays_instruction_debt() {
    let mut emu = boot(&[0xA9, 0x07, 0xA9, 0x09]);
    // RESET consumed 7 cycles: the first 7 CPU ticks (21 master ticks) pay
    // that debt and execute nothing.
    assert_eq!(emu.cpu.cycle_debt, 7);
    for _ in 0..21 {
        emu.clock().unwrap();
    }
    assert_eq!(emu.regs.a, 0x00);
    assert_eq!(emu.cpu.cycle_debt, 0);
    // LDA #$07 is 2 cycles: the CPU tick that runs it leaves 1 cycle of
    // debt, so the next CPU tick executes nothing.
    emu.clock().unwrap();
    emu.clock().unwrap();
    emu.clock().unwrap();
    assert_eq!(emu.regs.a, 0x07);
    assert_eq!(emu.cpu.cycle_debt, 1);
    // The next CPU tick only pays the debt.
    emu.clock().unwrap();
    emu.clock().unwrap();
    emu.clock().unwrap();
    assert_eq!(emu.regs.a, 0x07);
    assert_eq!(emu.cpu.cycle_debt, 0);
    // And the one after that runs the second load.
    emu.clock().unwrap();
    emu.clock().unwrap();
    emu.clock().unwrap();
    assert_eq!(emu.regs.a, 0x09);
}

#[test]
fn ram_is_mirrored_across_first_8k() {
    let mut emu = boot(&[]);
    emu.write(0x0005, 0xAB);
    assert_eq!(emu.read(0x0805), 0xAB);
    assert_eq!(emu.read(0x1005), 0xAB);
    assert_eq!(emu.read(0x1805), 0xAB);
    emu.write(0x1807, 0x7F);
    assert_eq!(emu.read(0x0007), 0x7F);
}

#[test]
fn rom_rejects_cpu_writes() {
    let mut emu = boot(&[0xEA]);
    emu.write(0x8000, 0x55);
    assert_eq!(emu.read(0x8000), 0xEA);
}
