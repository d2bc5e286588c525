use gameboy::cpu::registers::Flags::HALF;
use gameboy::cpu::Cpu;

#[test]
fn ldsp8_should_set_carry() {
    let mut cpu = Cpu::new();
    cpu.reg.sp = 0xFF;
    let value: i8 = 1;
    cpu.reg.set_hl(0x0);
    cpu.memory.write_byte(cpu.memory.pc + 1, value as u8);
    set_first_instruction(0xF8, &mut cpu);

    cpu.step().unwrap();

    assert!(cpu.reg.is_flag(HALF));
}

#[test]
fn ldsp8_should_set_half_carry() {
    let mut cpu = Cpu::new();
    cpu.reg.sp = 0xF;
    let value: i8 = 1;
    cpu.reg.set_hl(0x0);
    cpu.memory.write_byte(cpu.memory.pc + 1, value as u8);
    set_first_instruction(0xF8, &mut cpu);

    cpu.step().unwrap();

    assert!(cpu.reg.is_flag(HALF));
}

#[test]
fn it_should_ld_sp_s8_neg_low_in_hl() {
    let mut cpu = Cpu::new();
    cpu.reg.sp = 0xaabb;
    let value: i8 = -5;
    cpu.reg.set_hl(0x0);
    cpu.memory.write_byte(cpu.memory.pc + 1, value as u8);
    set_first_instruction(0xF8, &mut cpu);

    cpu.step().unwrap();

    assert_eq!(cpu.reg.hl(), 0xaabb - 5)
}

#[test]
fn it_should_ld_hl_low_in_sp() {
    let mut cpu = Cpu::new();
    cpu.reg.sp = 0x0;
    cpu.reg.set_hl(0xabcd);
    set_first_instruction(0xF9, &mut cpu);

    cpu.step().unwrap();

    assert_eq!(cpu.reg.sp, 0xabcd);
}

#[test]
fn it_should_ld_sp_low_in_imm16() {
    let mut cpu = Cpu::new();
    cpu.reg.sp = 0xABCD;
    let loc = 0x10;
    cpu.memory.write_word(cpu.memory.pc + 1, loc);
    set_first_instruction(0x08, &mut cpu);

    cpu.step().unwrap();

    assert_eq!(cpu.memory.fetch_byte(loc), 0xCD);
    assert_eq!(cpu.memory.fetch_byte(loc.wrapping_add(1)), 0xAB);
}

#[test]
fn it_should_mov_c_to_b() {
    let mut cpu = Cpu::new();
    cpu.reg.c = 0xa;
    set_first_instruction(0x41, &mut cpu);

    cpu.step().unwrap();

    assert_eq!(cpu.reg.b, 0xa);
}

#[test]
fn it_should_mov_a_to_mem_hl() {
    let mut cpu = Cpu::new();
    cpu.reg.a = 0xa;

    let loc = 0x10;
    cpu.reg.set_hl(loc);
    set_first_instruction(0x77, &mut cpu);

    cpu.step().unwrap();

    assert_eq!(cpu.memory.fetch_byte(loc), 0xa);
}

#[test]
fn it_should_ld_d8_in_b() {
    let mut cpu = Cpu::new();
    cpu.memory.write_byte(cpu.memory.pc + 1, 0xa);

    set_first_instruction(0x06, &mut cpu);
    cpu.reg.b = 0;

    cpu.step().unwrap();

    assert_eq!(cpu.reg.b, 0xa)
}

#[test]
fn it_should_ld_a_in_zero_page() {
    let mut cpu = Cpu::new();

    set_first_instruction(0xE0, &mut cpu);
    cpu.memory.write_byte(cpu.memory.pc + 1, 0xBD);
    cpu.reg.a = 0xa;

    cpu.step().unwrap();

    assert_eq!(cpu.memory.read(0xFFBD), 0xa)
}

#[test]
fn it_should_ld_zero_page_in_a() {
    let mut cpu = Cpu::new();

    set_first_instruction(0xF0, &mut cpu);
    cpu.memory.write_byte(cpu.memory.pc + 1, 0xBD);
    cpu.memory.write_byte(0xFFBD, 0xb);
    cpu.reg.a = 0x0;

    cpu.step().unwrap();

    assert_eq!(cpu.reg.a, 0xb)
}

#[test]
fn it_should_ld_a_in_zero_pagec() {
    let mut cpu = Cpu::new();

    set_first_instruction(0xE2, &mut cpu);
    cpu.reg.a = 0xa;
    cpu.reg.c = 0xBD;

    cpu.step().unwrap();

    assert_eq!(cpu.memory.read(0xFFBD), 0xa)
}

#[test]
fn it_should_ld_zero_pagec_in_a() {
    let mut cpu = Cpu::new();

    set_first_instruction(0xF2, &mut cpu);
    cpu.memory.write_byte(0xFFBD, 0xb);
    cpu.reg.a = 0x0;
    cpu.reg.c = 0xBD;

    cpu.step().unwrap();

    assert_eq!(cpu.reg.a, 0xb)
}

#[test]
fn it_should_ld_addr_a16_in_a() {
    let mut cpu = Cpu::new();

    set_first_instruction(0xFA, &mut cpu);
    cpu.memory.write_word(cpu.memory.pc + 1, 0xFFBD);
    cpu.memory.write_byte(0xFFBD, 0xb);
    cpu.reg.a = 0x0;

    cpu.step().unwrap();

    assert_eq!(cpu.reg.a, 0xb)
}

#[test]
fn it_should_ld_a_in_addr16() {
    let mut cpu = Cpu::new();

    set_first_instruction(0xEA, &mut cpu);
    cpu.memory.write_word(cpu.memory.pc + 1, 0xFFBD);
    cpu.reg.a = 0xa;

    cpu.step().unwrap();

    assert_eq!(cpu.memory.read(0xFFBD), 0xa)
}

#[test]
fn it_should_ld_imm16_in_bc() {
    let mut cpu = Cpu::new();

    set_first_instruction(0x01, &mut cpu);
    cpu.memory.write_word(cpu.memory.pc + 1, 0xffbd);

    cpu.step().unwrap();

    assert_eq!(cpu.reg.bc(), 0xffbd)
}


fn set_first_instruction(value: u8, cpu: &mut Cpu) {
    let pc = cpu.memory.pc;
    cpu.memory.write_byte(pc, value);
}
