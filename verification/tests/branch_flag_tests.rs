//! Branches, flag instructions, and the background rendering path.

use baroness::branch;
use baroness::emu::Emulator;
use baroness::flags;
use baroness::instructions::Operand;
use baroness::nes::parse_nes_file;

fn boot() -> Emulator {
    let mut file = vec![0u8; 16 + 0x4000 + 0x2000];
    file[0] = 0x4E;
    file[1] = 0x45;
    file[2] = 0x53;
    file[3] = 0x1A;
    file[4] = 1;
    file[5] = 1;
    file[16] = 0x4C;
    file[17] = 0x00;
    file[18] = 0x80;
    file[16 + 0x3FFD] = 0x80;
    let header = parse_nes_file(&file).unwrap();
    let mut emu = Emulator::new(&file, &header).unwrap();
    emu.reset();
    emu
}

#[test]
fn branch_not_taken_costs_nothing() {
    let mut emu = boot();
    emu.regs.pc = 0x8002;
    emu.regs.flags.carry = true;
    let extra = branch::bcc(&mut emu, Operand::Relative(0x10));
    assert_eq!(emu.regs.pc, 0x8002);
    assert_eq!(extra, 0);
}

#[test]
fn branch_taken_moves_pc_for_one_cycle() {
    let mut emu = boot();
    emu.regs.pc = 0x8002;
    emu.regs.flags.carry = false;
    let extra = branch::bcc(&mut emu, Operand::Relative(0x10));
    assert_eq!(emu.regs.pc, 0x8012);
    assert_eq!(extra, 1);
}

#[test]
fn branch_backwards_uses_signed_offset() {
    let mut emu = boot();
    emu.regs.pc = 0x8002;
    emu.regs.flags.zero = true;
    let extra = branch::beq(&mut emu, Operand::Relative(0xFE));
    assert_eq!(emu.regs.pc, 0x8000);
    assert_eq!(extra, 1);
}

#[test]
fn branch_across_page_costs_two() {
    let mut emu = boot();
    emu.regs.pc = 0x80F8;
    emu.regs.flags.negative = true;
    let extra = branch::bmi(&mut emu, Operand::Relative(0x10));
    assert_eq!(emu.regs.pc, 0x8108);
    assert_eq!(extra, 2);
}

#[test]
fn remaining_branches_test_their_flag() {
    let mut emu = boot();
    emu.regs.pc = 0x8002;
    emu.regs.flags.carry = true;
    branch::bcs(&mut emu, Operand::Relative(0x02));
    assert_eq!(emu.regs.pc, 0x8004);
    emu.regs.flags.zero = false;
    branch::bne(&mut emu, Operand::Relative(0x02));
    assert_eq!(emu.regs.pc, 0x8006);
    emu.regs.flags.negative = false;
    branch::bpl(&mut emu, Operand::Relative(0x02));
    assert_eq!(emu.regs.pc, 0x8008);
    emu.regs.flags.overflow = false;
    branch::bvc(&mut emu, Operand::Relative(0x02));
    assert_eq!(emu.regs.pc, 0x800A);
    emu.regs.flags.overflow = true;
    branch::bvs(&mut emu, Operand::Relative(0x02));
    assert_eq!(emu.regs.pc, 0x800C);
}

#[test]
fn flag_instructions_set_and_clear() {
    let mut emu = boot();
    flags::sec(&mut emu, Operand::Implied);
    assert!(emu.regs.flags.carry);
    flags::clc(&mut emu, Operand::Implied);
    assert!(!emu.regs.flags.carry);
    flags::sed(&mut emu, Operand::Implied);
    assert!(emu.regs.flags.decimal);
    flags::cld(&mut emu, Operand::Implied);
    assert!(!emu.regs.flags.decimal);
    flags::cli(&mut emu, Operand::Implied);
    assert!(!emu.regs.flags.interrupt_disable);
    flags::sei(&mut emu, Operand::Implied);
    assert!(emu.regs.flags.interrupt_disable);
    emu.regs.flags.overflow = true;
    flags::clv(&mut emu, Operand::Implied);
    assert!(!emu.regs.flags.overflow);
}

#[test]
fn background_pixel_uses_palette_zero_by_default() {
    let mut emu = boot();
    emu.run_frame().unwrap();
    // All pattern bits are zero, so every dot shows master palette entry 0.
    assert_eq!(&emu.framebuffer[0..3], &[84, 84, 84]);
}

#[test]
fn background_pixel_follows_written_palette() {
    let mut emu = boot();
    // Palette entry 0 := 0x20, a bright grey in the master palette.
    emu.write(0x2006, 0x3F);
    emu.write(0x2006, 0x00);
    emu.write(0x2007, 0x20);
    emu.run_frame().unwrap();
    assert_eq!(&emu.framebuffer[0..3], &[236, 238, 236]);
}
