use gbc_core::Cart;
use gbc_core::Cpu;
use gbc_core::GameboyType;
use gbc_core::Gamepad;
use gbc_core::Interconnect;
use gbc_core::Ppu;
use gbc_core::Reg16;
use gbc_core::Reg8;
use gbc_core::Registers;
use gbc_core::Spu;

fn cpu_with_program(code: &[u8]) -> Cpu {
    let mut rom = vec![0u8; 0x8000];
    rom[0x147] = 0x00;
    rom[0x148] = 0x00;
    rom[0x149] = 0x00;
    for (i, b) in code.iter().enumerate() {
        rom[0x100 + i] = *b;
    }
    let cart = Cart::new(rom, None).unwrap();
    let ic = Interconnect::new(GameboyType::Dmg, cart, Ppu::new(), Spu::new(), Gamepad::new());
    Cpu::new(GameboyType::Dmg, ic)
}

#[test]
fn power_on_registers() {
    let cpu = cpu_with_program(&[0x00]);
    assert_eq!(cpu.reg.a, 0x01);
    assert_eq!(cpu.reg.read_u16(Reg16::AF), 0x01b0);
    assert_eq!(cpu.reg.read_u16(Reg16::BC), 0x0013);
    assert_eq!(cpu.reg.read_u16(Reg16::DE), 0x00d8);
    assert_eq!(cpu.reg.read_u16(Reg16::HL), 0x014d);
    assert_eq!(cpu.reg.sp, 0xfffe);
    assert_eq!(cpu.reg.pc, 0x0100);
    assert!(cpu.ime);
}

#[test]
fn flag_register_low_nibble_masked() {
    let mut r = Registers::new(GameboyType::Dmg);
    r.write_u8(Reg8::F, 0xff);
    assert_eq!(r.read_u8(Reg8::F), 0xf0);
    r.write_u8(Reg8::A, 0x12);
    assert_eq!(r.read_u16(Reg16::AF), 0x12f0);
    r.write_u16(Reg16::AF, 0xabcd);
    assert_eq!(r.read_u16(Reg16::AF), 0xabc0);
    assert_eq!(r.read_u8(Reg8::F) & 0x0f, 0);
}

#[test]
fn nop_takes_four_cycles() {
    let mut cpu = cpu_with_program(&[0x00]);
    assert_eq!(cpu.step().unwrap(), 4);
    assert_eq!(cpu.reg.pc, 0x101);
}

#[test]
fn jump_cycle_counts() {
    // JP a16 is 16 cycles and lands on its target.
    let mut cpu = cpu_with_program(&[0xc3, 0x00, 0x02]);
    assert_eq!(cpu.step().unwrap(), 16);
    assert_eq!(cpu.reg.pc, 0x0200);

    // JR taken is 12 cycles, not taken 8.
    let mut cpu = cpu_with_program(&[0x20, 0x10, 0x20, 0x10]);
    cpu.reg.zero = false;
    assert_eq!(cpu.step().unwrap(), 12);
    assert_eq!(cpu.reg.pc, 0x0112);
    let mut cpu = cpu_with_program(&[0x20, 0x10]);
    cpu.reg.zero = true;
    assert_eq!(cpu.step().unwrap(), 8);
    assert_eq!(cpu.reg.pc, 0x0102);

    // CALL is 24 cycles, RET 16, conditional RET taken 20, not taken 8.
    // The subroutine sits in work RAM so the test can place a RET.
    let mut cpu = cpu_with_program(&[0xcd, 0x00, 0xc2]);
    cpu.reg.sp = 0xd000;
    cpu.interconnect.write(0xc200, 0xc9);
    assert_eq!(cpu.step().unwrap(), 24);
    assert_eq!(cpu.reg.pc, 0xc200);
    assert_eq!(cpu.reg.sp, 0xcffe);
    assert_eq!(cpu.step().unwrap(), 16);
    assert_eq!(cpu.reg.pc, 0x0103);
    assert_eq!(cpu.reg.sp, 0xd000);

    let mut cpu = cpu_with_program(&[0xc8]);
    cpu.reg.sp = 0xd000;
    cpu.reg.zero = true;
    assert_eq!(cpu.step().unwrap(), 20);
    let mut cpu = cpu_with_program(&[0xc8]);
    cpu.reg.zero = false;
    assert_eq!(cpu.step().unwrap(), 8);
}

#[test]
fn memory_operand_cycle_counts() {
    // LD (HL), B is 8 cycles; INC (HL) is 12; LD (HL), d8 is 12.
    let mut cpu = cpu_with_program(&[0x70, 0x34, 0x36, 0x7f]);
    cpu.reg.write_u16(Reg16::HL, 0xc000);
    assert_eq!(cpu.step().unwrap(), 8);
    assert_eq!(cpu.step().unwrap(), 12);
    assert_eq!(cpu.step().unwrap(), 12);

    // CB page: SET 7,(HL) is 16, BIT 0,(HL) is 12, RLC B is 8.
    let mut cpu = cpu_with_program(&[0xcb, 0xfe, 0xcb, 0x46, 0xcb, 0x00]);
    cpu.reg.write_u16(Reg16::HL, 0xc000);
    assert_eq!(cpu.step().unwrap(), 16);
    assert_eq!(cpu.step().unwrap(), 12);
    assert_eq!(cpu.step().unwrap(), 8);
}

#[test]
fn add_flags() {
    // ADD A, d8: half-carry and carry per the flag cookbook.
    let mut cpu = cpu_with_program(&[0xc6, 0x0f, 0xc6, 0xf0, 0xc6, 0x01]);
    cpu.reg.a = 0x01;
    cpu.step().unwrap();
    assert_eq!(cpu.reg.a, 0x10);
    assert!(cpu.reg.half_carry && !cpu.reg.carry && !cpu.reg.zero && !cpu.reg.subtract);
    cpu.step().unwrap();
    assert_eq!(cpu.reg.a, 0x00);
    assert!(cpu.reg.zero && cpu.reg.carry && !cpu.reg.half_carry);
    cpu.step().unwrap();
    assert_eq!(cpu.reg.a, 0x01);
    assert!(!cpu.reg.zero && !cpu.reg.carry);
}

#[test]
fn sub_and_compare_flags() {
    let mut cpu = cpu_with_program(&[0xd6, 0x10, 0xfe, 0x01]);
    cpu.reg.a = 0x0f;
    cpu.step().unwrap();
    assert_eq!(cpu.reg.a, 0xff);
    assert!(cpu.reg.carry && cpu.reg.subtract && !cpu.reg.zero);
    cpu.step().unwrap();
    // CP leaves A alone.
    assert_eq!(cpu.reg.a, 0xff);
    assert!(!cpu.reg.carry && cpu.reg.subtract && !cpu.reg.zero);
}

#[test]
fn inc_dec_leave_carry() {
    let mut cpu = cpu_with_program(&[0x3c, 0x3d, 0x3d]);
    cpu.reg.a = 0xff;
    cpu.reg.carry = true;
    cpu.step().unwrap();
    assert_eq!(cpu.reg.a, 0x00);
    assert!(cpu.reg.zero && cpu.reg.half_carry && cpu.reg.carry && !cpu.reg.subtract);
    cpu.step().unwrap();
    assert_eq!(cpu.reg.a, 0xff);
    assert!(cpu.reg.half_carry && cpu.reg.carry && cpu.reg.subtract);
    cpu.step().unwrap();
    assert_eq!(cpu.reg.a, 0xfe);
    assert!(!cpu.reg.half_carry && cpu.reg.carry);
}

#[test]
fn bcd_round_trip_add_daa() {
    // A=0x19; ADD 0x28; DAA leaves A=0x47 with all flags clear.
    let mut cpu = cpu_with_program(&[0x3e, 0x19, 0xc6, 0x28, 0x27]);
    cpu.step().unwrap();
    cpu.step().unwrap();
    assert_eq!(cpu.reg.a, 0x41);
    cpu.step().unwrap();
    assert_eq!(cpu.reg.a, 0x47);
    assert!(!cpu.reg.carry && !cpu.reg.half_carry && !cpu.reg.subtract && !cpu.reg.zero);

    // A=0x50; ADD 0x60; DAA leaves A=0x10 with carry set.
    let mut cpu = cpu_with_program(&[0x3e, 0x50, 0xc6, 0x60, 0x27]);
    cpu.step().unwrap();
    cpu.step().unwrap();
    cpu.step().unwrap();
    assert_eq!(cpu.reg.a, 0x10);
    assert!(cpu.reg.carry);
}

#[test]
fn push_pop_round_trip() {
    let mut cpu = cpu_with_program(&[0xc5, 0xc1, 0xf5, 0xf1]);
    cpu.reg.sp = 0xd000;
    cpu.reg.write_u16(Reg16::BC, 0x1234);
    cpu.step().unwrap();
    assert_eq!(cpu.reg.sp, 0xcffe);
    cpu.reg.write_u16(Reg16::BC, 0x0000);
    cpu.step().unwrap();
    assert_eq!(cpu.reg.read_u16(Reg16::BC), 0x1234);
    assert_eq!(cpu.reg.sp, 0xd000);

    // PUSH AF; POP AF keeps the flag byte's low nibble clear.
    cpu.reg.write_u16(Reg16::AF, 0x55b0);
    cpu.step().unwrap();
    cpu.reg.write_u16(Reg16::AF, 0x0000);
    cpu.step().unwrap();
    assert_eq!(cpu.reg.read_u16(Reg16::AF), 0x55b0);
    assert_eq!(cpu.reg.sp, 0xd000);
}

#[test]
fn rotate_instructions() {
    // RLCA rotates through bit 7 into carry and bit 0.
    let mut cpu = cpu_with_program(&[0x07, 0x17, 0x0f, 0x1f]);
    cpu.reg.a = 0x85;
    cpu.step().unwrap();
    assert_eq!(cpu.reg.a, 0x0b);
    assert!(cpu.reg.carry && !cpu.reg.zero);
    // RLA shifts the old carry in.
    cpu.reg.a = 0x00;
    cpu.step().unwrap();
    assert_eq!(cpu.reg.a, 0x01);
    assert!(!cpu.reg.carry);
    // RRCA.
    cpu.reg.a = 0x01;
    cpu.step().unwrap();
    assert_eq!(cpu.reg.a, 0x80);
    assert!(cpu.reg.carry);
    // RRA shifts the old carry in from the top.
    cpu.reg.a = 0x00;
    cpu.step().unwrap();
    assert_eq!(cpu.reg.a, 0x80);
    assert!(!cpu.reg.carry);
}

#[test]
fn cb_swap_and_srl() {
    let mut cpu = cpu_with_program(&[0xcb, 0x37, 0xcb, 0x3f]);
    cpu.reg.a = 0xf1;
    cpu.step().unwrap();
    assert_eq!(cpu.reg.a, 0x1f);
    assert!(!cpu.reg.carry && !cpu.reg.zero);
    cpu.step().unwrap();
    assert_eq!(cpu.reg.a, 0x0f);
    assert!(cpu.reg.carry);
}

#[test]
fn ld_hl_sp_offset_flags() {
    // LD HL, SP + r8 with a negative offset.
    let mut cpu = cpu_with_program(&[0xf8, 0xff]);
    cpu.reg.sp = 0xd000;
    cpu.step().unwrap();
    assert_eq!(cpu.reg.read_u16(Reg16::HL), 0xcfff);
    assert!(!cpu.reg.zero && !cpu.reg.subtract);
}

#[test]
fn halt_wakes_on_pending_interrupt() {
    // HALT with interrupts disabled; a raised, enabled interrupt wakes
    // the CPU without servicing when IME is clear.
    let mut cpu = cpu_with_program(&[0xf3, 0x76, 0x00]);
    cpu.step().unwrap();
    assert!(!cpu.ime);
    cpu.step().unwrap();
    assert!(cpu.halted);
    // Idle steps cost four cycles each.
    assert_eq!(cpu.step().unwrap(), 4);
    assert!(cpu.halted);
    cpu.interconnect.write(0xffff, 0x04);
    cpu.interconnect.write(0xff0f, 0x04);
    cpu.step().unwrap();
    assert!(!cpu.halted);
    // Not serviced: PC continued past HALT rather than to the handler.
    assert_eq!(cpu.reg.pc, 0x0103);
}

#[test]
fn interrupt_service_sequence() {
    // IME set and an enabled interrupt pending: twenty cycles, IF bit
    // cleared, IME dropped, PC at the vector, return address pushed.
    let mut cpu = cpu_with_program(&[0x00, 0x00]);
    cpu.reg.sp = 0xd000;
    cpu.interconnect.write(0xffff, 0x01);
    cpu.interconnect.int_flags = 0x01;
    assert_eq!(cpu.step().unwrap(), 20);
    assert_eq!(cpu.reg.pc, 0x0040);
    assert!(!cpu.ime);
    assert_eq!(cpu.interconnect.int_flags & 0x01, 0);
    assert_eq!(cpu.reg.sp, 0xcffe);
    assert_eq!(cpu.interconnect.read(0xcffe), 0x00);
    assert_eq!(cpu.interconnect.read(0xcfff), 0x01);
}

#[test]
fn ei_takes_effect_after_following_instruction() {
    let mut cpu = cpu_with_program(&[0xf3, 0xfb, 0x00, 0x00]);
    cpu.step().unwrap(); // DI
    assert!(!cpu.ime);
    cpu.interconnect.write(0xffff, 0x01);
    cpu.interconnect.int_flags = 0x01;
    cpu.step().unwrap(); // EI: not yet effective
    assert!(!cpu.ime);
    cpu.step().unwrap(); // the following instruction runs, then IME rises
    assert!(cpu.ime);
    assert_eq!(cpu.reg.pc, 0x0103);
    // The next step services the pending interrupt.
    assert_eq!(cpu.step().unwrap(), 20);
    assert_eq!(cpu.reg.pc, 0x0040);
}

#[test]
fn unassigned_opcode_faults_with_diagnostic() {
    let mut cpu = cpu_with_program(&[0xd3]);
    let fault = cpu.step().unwrap_err();
    assert_eq!(fault.pc, 0x0100);
    assert_eq!(fault.opcode, 0xd3);
    assert_eq!(fault.regs.pc, 0x0100);
    // The machine is left where it was.
    assert_eq!(cpu.reg.pc, 0x0100);
}

#[test]
fn ldh_forms_reach_high_page() {
    // LDH (a8),A / LDH A,(a8) and LD (C),A / LD A,(C).
    let mut cpu = cpu_with_program(&[0x3e, 0x5a, 0xe0, 0x80, 0x3e, 0x00, 0xf0, 0x80, 0xe2, 0xf2]);
    cpu.step().unwrap();
    cpu.step().unwrap();
    assert_eq!(cpu.interconnect.read(0xff80), 0x5a);
    cpu.step().unwrap();
    cpu.step().unwrap();
    assert_eq!(cpu.reg.a, 0x5a);
    cpu.reg.c = 0x81;
    cpu.step().unwrap();
    assert_eq!(cpu.interconnect.read(0xff81), 0x5a);
    cpu.reg.a = 0;
    cpu.step().unwrap();
    assert_eq!(cpu.reg.a, 0x5a);
}

#[test]
fn ldi_ldd_step_hl() {
    let mut cpu = cpu_with_program(&[0x22, 0x32, 0x2a, 0x3a]);
    cpu.reg.write_u16(Reg16::HL, 0xc100);
    cpu.reg.a = 0x77;
    cpu.step().unwrap();
    assert_eq!(cpu.interconnect.read(0xc100), 0x77);
    assert_eq!(cpu.reg.read_u16(Reg16::HL), 0xc101);
    cpu.reg.a = 0x88;
    cpu.step().unwrap();
    assert_eq!(cpu.interconnect.read(0xc101), 0x88);
    assert_eq!(cpu.reg.read_u16(Reg16::HL), 0xc100);
    cpu.step().unwrap();
    assert_eq!(cpu.reg.a, 0x77);
    assert_eq!(cpu.reg.read_u16(Reg16::HL), 0xc101);
    cpu.step().unwrap();
    assert_eq!(cpu.reg.a, 0x88);
    assert_eq!(cpu.reg.read_u16(Reg16::HL), 0xc100);
}

#[test]
fn add_hl_preserves_zero_flag() {
    let mut cpu = cpu_with_program(&[0x09]);
    cpu.reg.write_u16(Reg16::HL, 0x8a23);
    cpu.reg.write_u16(Reg16::BC, 0x0605);
    cpu.reg.zero = true;
    cpu.step().unwrap();
    assert_eq!(cpu.reg.read_u16(Reg16::HL), 0x9028);
    assert!(cpu.reg.zero && cpu.reg.half_carry && !cpu.reg.carry && !cpu.reg.subtract);
}

#[test]
fn daa_called_directly() {
    // The decimal adjust as its own operation, after a BCD add.
    let mut cpu = cpu_with_program(&[0x00]);
    cpu.reg.a = 0x19;
    cpu.add_8(gbc_core::Operand8::Imm);
    // ADD consumed the byte at PC (0x00 here), so set the state by hand.
    cpu.reg.a = 0x41;
    cpu.reg.subtract = false;
    cpu.reg.half_carry = true;
    cpu.reg.carry = false;
    cpu.daa();
    assert_eq!(cpu.reg.a, 0x47);
    assert!(!cpu.reg.carry && !cpu.reg.half_carry && !cpu.reg.subtract && !cpu.reg.zero);
}

#[test]
fn push_pop_called_directly() {
    let mut cpu = cpu_with_program(&[0x00]);
    cpu.reg.sp = 0xd000;
    cpu.reg.write_u16(Reg16::DE, 0xbeef);
    cpu.push(Reg16::DE);
    assert_eq!(cpu.reg.sp, 0xcffe);
    cpu.reg.write_u16(Reg16::DE, 0);
    cpu.pop(Reg16::DE);
    assert_eq!(cpu.reg.read_u16(Reg16::DE), 0xbeef);
    assert_eq!(cpu.reg.sp, 0xd000);
}

#[test]
fn adc_called_directly() {
    // ADC folds the incoming carry into result, half-carry and carry.
    let mut cpu = cpu_with_program(&[0x0f]);
    cpu.reg.a = 0xf0;
    cpu.reg.carry = true;
    cpu.adc(gbc_core::Operand8::Imm);
    assert_eq!(cpu.reg.a, 0x00);
    assert!(cpu.reg.carry && cpu.reg.half_carry && cpu.reg.zero);
}
