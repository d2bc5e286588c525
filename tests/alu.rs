use gameboy::cpu::registers::Flags::{CARRY, HALF, N, ZERO};
use gameboy::cpu::Cpu;

#[test]
fn it_should_add_hl_with_bc_with_half_carry() {
    let mut cpu = Cpu::new();
    set_first_instruction(0x09, &mut cpu);
    cpu.reg.set_hl(0xFFF);
    cpu.reg.set_bc(0x1);
    cpu.reg.f = 0;

    cpu.step().unwrap();

    assert!(cpu.reg.is_flag(HALF));
    assert_eq!(cpu.reg.hl(), 0x1000);
}

#[test]
fn it_should_add_hl_with_bc_with_carry() {
    let mut cpu = Cpu::new();
    set_first_instruction(0x09, &mut cpu);
    cpu.reg.set_hl(0xFFFF);
    cpu.reg.set_bc(0x1);
    cpu.reg.f = 0;

    cpu.step().unwrap();

    assert!(cpu.reg.is_flag(CARRY));
    assert_eq!(cpu.reg.hl(), 0x0);
}

#[test]
fn it_should_decrement_b_and_set_half_carry() {
    let mut cpu = Cpu::new();
    set_first_instruction(0x05, &mut cpu);
    cpu.reg.b = 0x10;

    cpu.step().unwrap();

    assert!(cpu.reg.is_flag(HALF));
}

#[test]
fn it_should_increment_b() {
    let mut cpu = Cpu::new();
    set_first_instruction(0x04, &mut cpu);
    cpu.reg.b = 0xa;

    cpu.step().unwrap();

    assert_eq!(cpu.reg.b, 0xa + 1);
}

#[test]
fn it_should_add_sp_s8_and_set_half_carry() {
    let mut cpu = Cpu::new();
    set_first_instruction(0xE8, &mut cpu);
    let value: i8 = 1;
    cpu.memory.write_byte(cpu.memory.pc + 1, value as u8);
    cpu.reg.f = 0;
    cpu.reg.sp = 0xFF;

    cpu.step().unwrap();

    assert!(cpu.reg.is_flag(HALF));
}

#[test]
fn it_should_add_sp_s8_and_set_carry() {
    let mut cpu = Cpu::new();
    set_first_instruction(0xE8, &mut cpu);
    let value: i8 = 1;
    cpu.memory.write_byte(cpu.memory.pc + 1, value as u8);
    cpu.reg.f = 0;
    cpu.reg.sp = 0xFFFF;

    cpu.step().unwrap();

    assert!(cpu.reg.is_flag(CARRY));
}

#[test]
fn it_should_add_sp_s8() {
    let mut cpu = Cpu::new();
    set_first_instruction(0xE8, &mut cpu);
    let value: i8 = -5;
    cpu.memory.write_byte(cpu.memory.pc + 1, value as u8);
    cpu.reg.sp = 0xaa;

    cpu.step().unwrap();

    assert_eq!(cpu.reg.sp, 0xaa - 5);
}

#[test]
fn it_should_adc_imm8() {
    let mut cpu = Cpu::new();
    set_first_instruction(0xCE, &mut cpu);
    cpu.memory.write_byte(cpu.memory.pc + 1, 0xa);
    cpu.reg.set_flag(CARRY, true);
    cpu.reg.a = 0xaa;

    cpu.step().unwrap();

    assert_eq!(cpu.reg.a, 0xaa + 0xa + 1);
}

#[test]
fn it_should_sbc_imm8() {
    let mut cpu = Cpu::new();
    set_first_instruction(0xDE, &mut cpu);
    cpu.memory.write_byte(cpu.memory.pc + 1, 0xa);
    cpu.reg.set_flag(CARRY, true);
    cpu.reg.a = 0xaa;

    cpu.step().unwrap();

    assert_eq!(cpu.reg.a, 0xaa - 0xa - 1);
}

#[test]
fn it_should_add_imm8() {
    let mut cpu = Cpu::new();
    set_first_instruction(0xC6, &mut cpu);
    cpu.memory.write_byte(cpu.memory.pc + 1, 0xa);
    cpu.reg.a = 0x5;

    cpu.step().unwrap();

    assert_eq!(cpu.reg.a, 0x5 + 0xa);
}

#[test]
fn it_should_xor() {
    let mut cpu = Cpu::new();
    set_first_instruction(0xAE, &mut cpu);
    cpu.reg.set_flag(CARRY, true);
    cpu.reg.a = 0b_1111_1000;
    let loc = 0x10;
    cpu.memory.write_byte(loc, 0b_0100_1100);
    cpu.reg.set_hl(loc);

    cpu.step().unwrap();

    assert_eq!(cpu.reg.a, 0b_1011_0100);
}

#[test]
fn it_should_or() {
    let mut cpu = Cpu::new();
    set_first_instruction(0xB1, &mut cpu);
    cpu.reg.set_flag(CARRY, true);
    cpu.reg.a = 0b_1111_1000;
    cpu.reg.c = 0b_0100_1100;

    cpu.step().unwrap();

    assert_eq!(cpu.reg.a, 0b_1111_1100);
}

#[test]
fn it_should_and() {
    let mut cpu = Cpu::new();
    set_first_instruction(0xA0, &mut cpu);
    cpu.reg.set_flag(CARRY, true);
    cpu.reg.a = 0b_1111_1000;
    cpu.reg.b = 0b_0100_1111;

    cpu.step().unwrap();

    assert_eq!(cpu.reg.a, 0b_0100_1000);
}

#[test]
fn it_should_sub_0x9a() {
    let mut cpu = Cpu::new();
    set_first_instruction(0x9a, &mut cpu);
    cpu.reg.set_flag(CARRY, true);
    cpu.reg.a = 0xab;
    cpu.reg.d = 0x12;

    cpu.step().unwrap();

    assert_eq!(cpu.reg.a, 0xab - 0x12 - 1);
}

#[test]
fn it_should_sub_0x90() {
    let mut cpu = Cpu::new();
    set_first_instruction(0x90, &mut cpu);
    cpu.reg.a = 0xab;
    cpu.reg.b = 0x12;

    cpu.step().unwrap();

    assert_eq!(cpu.reg.a, 0xab - 0x12);
}

#[test]
fn it_should_sub_and_set_carry_with_carry() {
    let mut cpu = Cpu::new();
    cpu.reg.a = 0x11;
    let _ = cpu.get_sub_result(0x1, 1);

    assert!(cpu.reg.is_flag(HALF));
}

#[test]
fn it_should_sub_and_set_carry() {
    let mut cpu = Cpu::new();
    cpu.reg.a = 0x0;
    let _ = cpu.get_sub_result(0x1, 0);

    assert!(cpu.reg.is_flag(HALF));
}

#[test]
fn it_should_sub_and_set_half_carry_with_carry() {
    let mut cpu = Cpu::new();
    cpu.reg.a = 0x1;
    let _ = cpu.get_sub_result(0x1, 1);

    assert!(cpu.reg.is_flag(HALF));
}

#[test]
fn it_should_sub_and_set_half_carry() {
    let mut cpu = Cpu::new();
    cpu.reg.a = 0x10;
    let _ = cpu.get_sub_result(0x1, 0);

    assert!(cpu.reg.is_flag(HALF));
}

#[test]
fn it_should_sub_and_set_n() {
    let mut cpu = Cpu::new();
    cpu.reg.a = 0xAA;
    let _ = cpu.get_sub_result(0x5, 0);

    assert!(cpu.reg.is_flag(N));
}

#[test]
fn it_should_sub() {
    let mut cpu = Cpu::new();
    cpu.reg.a = 0xAA;
    let res = cpu.get_sub_result(0x5, 0);

    assert_eq!(res, 0xAA - 0x5);
}

#[test]
fn it_should_addc_b_into_a() {
    let mut cpu = Cpu::new();
    cpu.reg.a = 0xAD;
    cpu.reg.b = 0x3;
    cpu.reg.f = 0b_1111_0000;

    set_first_instruction(0x88, &mut cpu);

    cpu.step().unwrap();

    assert_eq!(cpu.reg.a, 0xAD + 0x3 + 0x1);
}

#[test]
fn it_should_addc_b_into_a_and_unset_flag_carry() {
    let mut cpu = Cpu::new();
    cpu.reg.a = 0xFD;
    cpu.reg.b = 0x1;
    cpu.reg.f = 0b_1111_0000;

    set_first_instruction(0x88, &mut cpu);

    cpu.step().unwrap();

    assert!(!cpu.reg.is_flag(CARRY));
}

#[test]
fn it_should_addc_b_into_a_and_unset_flag_h() {
    let mut cpu = Cpu::new();
    cpu.reg.a = 0xD;
    cpu.reg.b = 0x1;
    cpu.reg.f = 0b_1111_0000;

    set_first_instruction(0x88, &mut cpu);

    cpu.step().unwrap();

    assert!(!cpu.reg.is_flag(HALF));
}

#[test]
fn it_should_addc_b_into_a_and_set_flag_h() {
    let mut cpu = Cpu::new();
    cpu.reg.a = 0xE;
    cpu.reg.b = 0x1;
    cpu.reg.f = 0b_1101_0000;

    set_first_instruction(0x88, &mut cpu);

    cpu.step().unwrap();

    assert!(cpu.reg.is_flag(HALF));
}

#[test]
fn it_should_add_b_into_a_and_unset_flag_carry() {
    let mut cpu = Cpu::new();
    cpu.reg.a = 0xFE;
    cpu.reg.b = 0x1;
    cpu.reg.f = 0b_1111_0000;

    set_first_instruction(0x80, &mut cpu);

    cpu.step().unwrap();

    assert!(!cpu.reg.is_flag(CARRY));
}

#[test]
fn it_should_add_b_into_a_and_set_flag_carry() {
    let mut cpu = Cpu::new();
    cpu.reg.a = 0xFF;
    cpu.reg.b = 0x1;
    cpu.reg.f = 0b_1110_0000;

    set_first_instruction(0x80, &mut cpu);

    cpu.step().unwrap();

    assert!(cpu.reg.is_flag(CARRY));
}

#[test]
fn it_should_add_b_into_a_and_unset_flag_h() {
    let mut cpu = Cpu::new();
    cpu.reg.a = 0xE;
    cpu.reg.b = 0x1;
    cpu.reg.f = 0b_1111_0000;

    set_first_instruction(0x80, &mut cpu);

    cpu.step().unwrap();

    assert!(!cpu.reg.is_flag(HALF));
}

#[test]
fn it_should_add_b_into_a_and_set_flag_h() {
    let mut cpu = Cpu::new();
    cpu.reg.a = 0xF;
    cpu.reg.b = 0x1;
    cpu.reg.f = 0b_1101_0000;

    set_first_instruction(0x80, &mut cpu);

    cpu.step().unwrap();

    assert!(cpu.reg.is_flag(HALF));
}

#[test]
fn it_should_add_b_into_a_and_unset_flag_n() {
    let mut cpu = Cpu::new();
    cpu.reg.a = 0x0;
    cpu.reg.b = 0x0;
    cpu.reg.f = 0b_1111_0000;

    set_first_instruction(0x80, &mut cpu);

    cpu.step().unwrap();

    assert!(!cpu.reg.is_flag(N));
}

#[test]
fn it_should_add_b_into_a_and_set_flag_zero() {
    let mut cpu = Cpu::new();
    cpu.reg.a = 0x0;
    cpu.reg.b = 0x0;

    set_first_instruction(0x80, &mut cpu);

    cpu.step().unwrap();

    assert!(cpu.reg.is_flag(ZERO));
}

#[test]
fn it_should_add_b_into_a() {
    let mut cpu = Cpu::new();
    cpu.reg.a = 0xa;
    cpu.reg.b = 0x5;

    set_first_instruction(0x80, &mut cpu);

    cpu.step().unwrap();

    assert_eq!(cpu.reg.a, 0xa + 0x5);
}

#[test]
fn it_should_daa_with_add_adjust_tens_and_units() {
    let mut cpu = Cpu::new();
    set_first_instruction(0x27, &mut cpu);
    cpu.reg.a = 0x58 + 0x63;

    cpu.step().unwrap();
    assert_eq!(cpu.reg.a, 0x21);
}

#[test]
fn it_should_daa_with_add_adjust_tens() {
    let mut cpu = Cpu::new();
    set_first_instruction(0x27, &mut cpu);
    cpu.reg.a = 0x88 + 0x21;

    cpu.step().unwrap();
    assert_eq!(cpu.reg.a, 0x9);
}

#[test]
fn it_should_daa_with_add_adjust_units() {
    let mut cpu = Cpu::new();
    set_first_instruction(0x27, &mut cpu);
    cpu.reg.a = 0x58 + 0x24;

    cpu.step().unwrap();
    assert_eq!(cpu.reg.a, 0x82);
}

#[test]
fn it_should_and_imm8() {
    let mut cpu = Cpu::new();
    set_first_instruction(0xe6, &mut cpu);
    cpu.memory.write(0x1, 4);
    cpu.reg.a = 0xc2;

    cpu.step().unwrap();
    assert_eq!(cpu.reg.a, 0x0);
    assert!(cpu.reg.is_flag(ZERO));
}


fn set_first_instruction(value: u8, cpu: &mut Cpu) {
    let pc = cpu.memory.pc;
    cpu.memory.write_byte(pc, value);
}
