//! Per-instruction behavior, driven through the handlers and the stack.

use baroness::arithmetic;
use baroness::control;
use baroness::emu::Emulator;
use baroness::instructions::Operand;
use baroness::load;
use baroness::logic;
use baroness::nes::parse_nes_file;
use baroness::stack;
use baroness::trans;

fn boot() -> Emulator {
    let mut file = vec![0u8; 16 + 0x4000 + 0x2000];
    file[0] = 0x4E;
    file[1] = 0x45;
    file[2] = 0x53;
    file[3] = 0x1A;
    file[4] = 1;
    file[5] = 1;
    file[16 + 0x3FFD] = 0x80;
    let header = parse_nes_file(&file).unwrap();
    let mut emu = Emulator::new(&file, &header).unwrap();
    emu.reset();
    emu
}

#[test]
fn adc_adds_with_carry_in_and_out() {
    let mut emu = boot();
    emu.regs.a = 0xFF;
    emu.regs.flags.carry = true;
    arithmetic::adc(&mut emu, Operand::Immediate(0x00));
    assert_eq!(emu.regs.a, 0x00);
    assert!(emu.regs.flags.carry);
    assert!(emu.regs.flags.zero);
    assert!(!emu.regs.flags.overflow);
}

#[test]
fn sbc_subtracts_with_borrow() {
    let mut emu = boot();
    emu.regs.a = 0x10;
    emu.regs.flags.carry = true;
    arithmetic::sbc(&mut emu, Operand::Immediate(0x05));
    assert_eq!(emu.regs.a, 0x0B);
    assert!(emu.regs.flags.carry);
}

#[test]
fn cmp_sets_carry_zero_negative() {
    let mut emu = boot();
    emu.regs.a = 0x40;
    arithmetic::cmp(&mut emu, Operand::Immediate(0x41));
    assert!(!emu.regs.flags.carry);
    assert!(!emu.regs.flags.zero);
    assert!(emu.regs.flags.negative);
    arithmetic::cmp(&mut emu, Operand::Immediate(0x40));
    assert!(emu.regs.flags.carry);
    assert!(emu.regs.flags.zero);
}

#[test]
fn cpx_cpy_compare_index_registers() {
    let mut emu = boot();
    emu.regs.x = 0x10;
    emu.regs.y = 0x01;
    arithmetic::cpx(&mut emu, Operand::Immediate(0x0F));
    assert!(emu.regs.flags.carry);
    assert!(!emu.regs.flags.zero);
    arithmetic::cpy(&mut emu, Operand::Immediate(0x02));
    assert!(!emu.regs.flags.carry);
    assert!(emu.regs.flags.negative);
}

#[test]
fn inc_dec_wrap_in_memory() {
    let mut emu = boot();
    emu.write(0x0010, 0xFF);
    arithmetic::inc(&mut emu, Operand::ZeroPage(0x10));
    assert_eq!(emu.read(0x0010), 0x00);
    assert!(emu.regs.flags.zero);
    arithmetic::dec(&mut emu, Operand::ZeroPage(0x10));
    assert_eq!(emu.read(0x0010), 0xFF);
    assert!(emu.regs.flags.negative);
}

#[test]
fn inx_dex_iny_dey_update_flags() {
    let mut emu = boot();
    emu.regs.x = 0xFF;
    arithmetic::inx(&mut emu, Operand::Implied);
    assert_eq!(emu.regs.x, 0x00);
    assert!(emu.regs.flags.zero);
    arithmetic::dex(&mut emu, Operand::Implied);
    assert_eq!(emu.regs.x, 0xFF);
    assert!(emu.regs.flags.negative);
    emu.regs.y = 0x7F;
    arithmetic::iny(&mut emu, Operand::Implied);
    assert_eq!(emu.regs.y, 0x80);
    assert!(emu.regs.flags.negative);
    arithmetic::dey(&mut emu, Operand::Implied);
    assert_eq!(emu.regs.y, 0x7F);
    assert!(!emu.regs.flags.negative);
}

#[test]
fn shifts_move_carry_through() {
    let mut emu = boot();
    emu.regs.a = 0x81;
    logic::asl(&mut emu, Operand::Accumulator);
    assert_eq!(emu.regs.a, 0x02);
    assert!(emu.regs.flags.carry);

    emu.regs.a = 0x01;
    logic::lsr(&mut emu, Operand::Accumulator);
    assert_eq!(emu.regs.a, 0x00);
    assert!(emu.regs.flags.carry);
    assert!(emu.regs.flags.zero);
    assert!(!emu.regs.flags.negative);

    emu.regs.a = 0x80;
    emu.regs.flags.carry = true;
    logic::rol(&mut emu, Operand::Accumulator);
    assert_eq!(emu.regs.a, 0x01);
    assert!(emu.regs.flags.carry);

    emu.regs.a = 0x01;
    emu.regs.flags.carry = true;
    logic::ror(&mut emu, Operand::Accumulator);
    assert_eq!(emu.regs.a, 0x80);
    assert!(emu.regs.flags.carry);
    assert!(emu.regs.flags.negative);
}

#[test]
fn rmw_shifts_hit_memory() {
    let mut emu = boot();
    emu.write(0x0020, 0x41);
    logic::asl(&mut emu, Operand::ZeroPage(0x20));
    assert_eq!(emu.read(0x0020), 0x82);
    assert!(!emu.regs.flags.carry);
    logic::lsr(&mut emu, Operand::ZeroPage(0x20));
    assert_eq!(emu.read(0x0020), 0x41);
    assert!(!emu.regs.flags.carry);
}

#[test]
fn bit_reads_flags_from_memory() {
    let mut emu = boot();
    emu.regs.a = 0x01;
    emu.write(0x0030, 0xC0);
    logic::bit(&mut emu, Operand::ZeroPage(0x30));
    assert!(emu.regs.flags.zero);
    assert!(emu.regs.flags.negative);
    assert!(emu.regs.flags.overflow);
}

#[test]
fn and_ora_eor_set_zn_from_a() {
    let mut emu = boot();
    emu.regs.a = 0x0F;
    logic::and(&mut emu, Operand::Immediate(0xF0));
    assert_eq!(emu.regs.a, 0x00);
    assert!(emu.regs.flags.zero);
    logic::ora(&mut emu, Operand::Immediate(0x80));
    assert_eq!(emu.regs.a, 0x80);
    assert!(emu.regs.flags.negative);
    logic::eor(&mut emu, Operand::Immediate(0x81));
    assert_eq!(emu.regs.a, 0x01);
    assert!(!emu.regs.flags.negative);
}

#[test]
fn stack_round_trips() {
    let mut emu = boot();
    emu.regs.a = 0x3C;
    stack::pha(&mut emu, Operand::Implied);
    emu.regs.a = 0x00;
    stack::pla(&mut emu, Operand::Implied);
    assert_eq!(emu.regs.a, 0x3C);
    assert_eq!(emu.regs.sp, 0xFD);

    emu.regs.flags.carry = true;
    emu.regs.flags.negative = true;
    emu.regs.flags.decimal = true;
    stack::php(&mut emu, Operand::Implied);
    emu.regs.flags.carry = false;
    emu.regs.flags.negative = false;
    emu.regs.flags.decimal = false;
    stack::plp(&mut emu, Operand::Implied);
    assert!(emu.regs.flags.carry);
    assert!(emu.regs.flags.negative);
    assert!(emu.regs.flags.decimal);
    assert!(!emu.regs.flags.break_command);
}

#[test]
fn php_pushes_b_and_bit5_set() {
    let mut emu = boot();
    emu.regs.flags.carry = true;
    stack::php(&mut emu, Operand::Implied);
    let pushed = emu.read(0x01FD);
    assert_eq!(pushed, 0x35);
}

#[test]
fn transfers_copy_and_flag() {
    let mut emu = boot();
    emu.regs.a = 0x80;
    trans::tax(&mut emu, Operand::Implied);
    assert_eq!(emu.regs.x, 0x80);
    assert!(emu.regs.flags.negative);
    trans::tay(&mut emu, Operand::Implied);
    assert_eq!(emu.regs.y, 0x80);
    emu.regs.x = 0x00;
    trans::txa(&mut emu, Operand::Implied);
    assert_eq!(emu.regs.a, 0x00);
    assert!(emu.regs.flags.zero);
    emu.regs.x = 0x13;
    trans::txs(&mut emu, Operand::Implied);
    assert_eq!(emu.regs.sp, 0x13);
    assert!(emu.regs.flags.zero);
    trans::tsx(&mut emu, Operand::Implied);
    assert_eq!(emu.regs.x, 0x13);
    assert!(!emu.regs.flags.zero);
    emu.regs.y = 0x22;
    trans::tya(&mut emu, Operand::Implied);
    assert_eq!(emu.regs.a, 0x22);
}

#[test]
fn stores_copy_without_flags() {
    let mut emu = boot();
    emu.regs.a = 0x11;
    emu.regs.x = 0x22;
    emu.regs.y = 0x33;
    emu.regs.flags.zero = true;
    load::sta(&mut emu, Operand::ZeroPage(0x40));
    load::stx(&mut emu, Operand::ZeroPage(0x41));
    load::sty(&mut emu, Operand::ZeroPage(0x42));
    assert_eq!(emu.read(0x0040), 0x11);
    assert_eq!(emu.read(0x0041), 0x22);
    assert_eq!(emu.read(0x0042), 0x33);
    assert!(emu.regs.flags.zero);
}

#[test]
fn zero_page_indexed_wraps_in_page() {
    let mut emu = boot();
    emu.regs.x = 0x10;
    emu.regs.a = 0x5A;
    // 0xF8 + 0x10 wraps to 0x08, never 0x108.
    load::sta(&mut emu, Operand::ZeroPageIndexedX(0xF8));
    assert_eq!(emu.read(0x0008), 0x5A);
    assert_eq!(emu.read(0x0108), 0x00);
}

#[test]
fn indirect_pointer_wraps_in_zero_page() {
    let mut emu = boot();
    // Pointer at 0xFF wraps: low byte at 0xFF, high byte at 0x00.
    emu.write(0x00FF, 0x34);
    emu.write(0x0000, 0x12);
    emu.regs.y = 0x01;
    emu.write(0x1235, 0x99);
    load::lda(&mut emu, Operand::ZeroPageIndirectIndexedY(0xFF));
    assert_eq!(emu.regs.a, 0x99);
}

#[test]
fn lax_loads_both_registers() {
    let mut emu = boot();
    load::lax(&mut emu, Operand::Immediate(0x80));
    assert_eq!(emu.regs.a, 0x80);
    assert_eq!(emu.regs.x, 0x80);
    assert!(emu.regs.flags.negative);
}

#[test]
fn sax_stores_a_and_x() {
    let mut emu = boot();
    emu.regs.a = 0xF0;
    emu.regs.x = 0x3C;
    load::sax(&mut emu, Operand::ZeroPage(0x50));
    assert_eq!(emu.read(0x0050), 0x30);
}

#[test]
fn unofficial_rmw_combos() {
    let mut emu = boot();
    emu.write(0x0060, 0x80);
    emu.regs.a = 0x01;
    logic::slo(&mut emu, Operand::ZeroPage(0x60));
    assert_eq!(emu.read(0x0060), 0x00);
    assert_eq!(emu.regs.a, 0x01);
    assert!(emu.regs.flags.carry);

    emu.write(0x0061, 0x03);
    emu.regs.a = 0x0F;
    logic::sre(&mut emu, Operand::ZeroPage(0x61));
    assert_eq!(emu.read(0x0061), 0x01);
    assert_eq!(emu.regs.a, 0x0E);
    assert!(emu.regs.flags.carry);

    emu.write(0x0062, 0x05);
    arithmetic::dcp(&mut emu, Operand::ZeroPage(0x62));
    assert_eq!(emu.read(0x0062), 0x04);

    emu.write(0x0063, 0x01);
    emu.regs.a = 0x10;
    emu.regs.flags.carry = true;
    arithmetic::isc(&mut emu, Operand::ZeroPage(0x63));
    assert_eq!(emu.read(0x0063), 0x02);
    assert_eq!(emu.regs.a, 0x0E);
}

#[test]
fn nmi_charges_seven_cycles_and_counts() {
    let mut emu = boot();
    emu.cpu.cycle_debt = 0;
    emu.regs.pc = 0x1234;
    emu.nmi();
    assert_eq!(emu.cpu.cycle_debt, 7);
    assert_eq!(emu.nmi_count, 1);
    // Pushed: PC high, PC low, then the status with B clear.
    assert_eq!(emu.read(0x01FD), 0x12);
    assert_eq!(emu.read(0x01FC), 0x34);
    assert_eq!(emu.read(0x01FB) & 0x10, 0x00);
    assert!(emu.regs.flags.interrupt_disable);
}

#[test]
fn brk_and_rti_round_trip() {
    let mut emu = boot();
    // IRQ/BRK vector at 0xFFFE -> map to PRG offset 0x3FFE: zero there, so
    // install via RAM is impossible; instead check the pushes.
    emu.regs.pc = 0x1234;
    emu.regs.flags.carry = true;
    control::brk(&mut emu, Operand::Implied);
    assert!(emu.regs.flags.interrupt_disable);
    // Pushed: high byte of 0x1235, low byte, then the status with B set.
    assert_eq!(emu.read(0x01FD), 0x12);
    assert_eq!(emu.read(0x01FC), 0x35);
    assert_eq!(emu.read(0x01FB), 0x35);
    control::rti(&mut emu, Operand::Implied);
    assert_eq!(emu.regs.pc, 0x1235);
    assert!(emu.regs.flags.carry);
    assert!(!emu.regs.flags.break_command);
}
