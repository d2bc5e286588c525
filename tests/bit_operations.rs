use gameboy::cpu::registers::Flags::{CARRY, ZERO};
use gameboy::cpu::Cpu;

#[test]
fn it_should_srl() {
    let mut cpu = Cpu::new();
    cpu.reg.e = 0b_1001_1001;
    cpu.reg.set_flag(ZERO, false);
    let pc = cpu.memory.pc;
    cpu.memory.write_byte(pc, 0xCB);
    cpu.memory.write_byte(pc + 1, 0x3B);

    cpu.step().unwrap();

    assert_eq!(cpu.reg.e, 0b_0100_1100);
    assert!(cpu.reg.is_flag(CARRY));
}

#[test]
fn it_should_sra() {
    let mut cpu = Cpu::new();
    cpu.reg.h = 0b_1001_1001;
    cpu.reg.set_flag(ZERO, false);
    let pc = cpu.memory.pc;
    cpu.memory.write_byte(pc, 0xCB);
    cpu.memory.write_byte(pc + 1, 0x2C);

    cpu.step().unwrap();

    assert_eq!(cpu.reg.h, 0b_1100_1100);
    assert!(cpu.reg.is_flag(CARRY));
}

#[test]
fn it_should_sla() {
    let mut cpu = Cpu::new();
    cpu.reg.l = 0b_1001_1011;
    cpu.reg.set_flag(ZERO, false);
    let pc = cpu.memory.pc;
    cpu.memory.write_byte(pc, 0xCB);
    cpu.memory.write_byte(pc + 1, 0x25);

    cpu.step().unwrap();

    assert_eq!(cpu.reg.l, 0b_0011_0110);
    assert!(cpu.reg.is_flag(CARRY));
}

#[test]
fn it_should_bit_0_c() {
    let mut cpu = Cpu::new();
    cpu.reg.c = 0b_1111_1111;
    cpu.reg.set_flag(ZERO, true);
    let pc = cpu.memory.pc;
    cpu.memory.write_byte(pc, 0xCB);
    cpu.memory.write_byte(pc + 1, 0x41);

    cpu.step().unwrap();

    assert!(!cpu.reg.is_flag(ZERO));
}

#[test]
fn it_should_reset_2_a() {
    let mut cpu = Cpu::new();
    cpu.reg.e = 0b_1111_1111;
    let pc = cpu.memory.pc;
    cpu.memory.write_byte(pc, 0xCB);
    cpu.memory.write_byte(pc + 1, 0x93);

    cpu.step().unwrap();

    assert_eq!(cpu.reg.e, 0b1111_1011);
}

#[test]
fn it_should_set_3_a() {
    let mut cpu = Cpu::new();
    cpu.reg.a = 0b_0000_0000;
    let pc = cpu.memory.pc;
    cpu.memory.write_byte(pc, 0xCB);
    cpu.memory.write_byte(pc + 1, 0xDF);

    cpu.step().unwrap();

    assert_eq!(cpu.reg.a, 0b0000_1000);
}

#[test]
fn it_should_rl_a() {
    let mut cpu = Cpu::new();
    cpu.reg.a = 0b_0110_0010;
    cpu.reg.set_flag(CARRY, true);
    let pc = cpu.memory.pc;
    cpu.memory.write_byte(pc, 0xCB);
    cpu.memory.write_byte(pc + 1, 0x17);

    cpu.step().unwrap();

    assert_eq!(cpu.reg.a, 0b1100_0101);
}

#[test]
fn it_should_rr_b() {
    let mut cpu = Cpu::new();
    cpu.reg.b = 0b_0110_0010;
    cpu.reg.set_flag(CARRY, true);
    let pc = cpu.memory.pc;
    cpu.memory.write_byte(pc, 0xCB);
    cpu.memory.write_byte(pc + 1, 0x18);

    cpu.step().unwrap();

    assert_eq!(cpu.reg.b, 0b1011_0001);
}

#[test]
fn it_should_rrc_hl() {
    let mut cpu = Cpu::new();
    cpu.reg.set_hl(0x10);
    cpu.memory.write_byte(0x10, 0b_0100_0011);
    let pc = cpu.memory.pc;
    cpu.memory.write_byte(pc, 0xCB);
    cpu.memory.write_byte(pc + 1, 0x0E);

    cpu.step().unwrap();

    assert_eq!(cpu.memory.fetch_byte(0x10), 0b1010_0001);
}

#[test]
fn it_should_rlc_c() {
    let mut cpu = Cpu::new();
    cpu.reg.c = 0b_1101_0010;
    let pc = cpu.memory.pc;
    cpu.memory.write_byte(pc, 0xCB);
    cpu.memory.write_byte(pc + 1, 0x01);

    cpu.step().unwrap();

    assert_eq!(cpu.reg.c, 0b1010_0101);
    assert!(cpu.reg.is_flag(CARRY));
    assert!(!cpu.reg.is_flag(ZERO));
}

#[test]
fn it_should_rla() {
    let mut cpu = Cpu::new();
    cpu.reg.a = 0b_0101_0010;
    let pc = cpu.memory.pc;
    cpu.reg.set_flag(CARRY, true);
    cpu.memory.write_byte(pc, 0x17);

    cpu.step().unwrap();

    assert_eq!(cpu.reg.a, 0b1010_0101);
    assert!(!cpu.reg.is_flag(ZERO))
}

#[test]
fn it_should_rlca() {
    let mut cpu = Cpu::new();
    cpu.reg.a = 0b_1001_0010;
    let pc = cpu.memory.pc;
    cpu.memory.write_byte(pc, 0x07);

    cpu.step().unwrap();

    assert_eq!(cpu.reg.a, 0b0010_0101);
    assert!(cpu.reg.is_flag(CARRY));
}

#[test]
fn it_should_rlca_no_carry() {
    let mut cpu = Cpu::new();
    cpu.reg.a = 0b_0101_0010;
    let pc = cpu.memory.pc;
    cpu.memory.write_byte(pc, 0x07);

    cpu.step().unwrap();

    assert_eq!(cpu.reg.a, 0b1010_0100);
    assert!(!cpu.reg.is_flag(CARRY));
}

#[test]
fn it_should_swap() {
    let mut cpu = Cpu::new();
    cpu.reg.a = 0b_1001_0110;
    cpu.reg.set_flag(ZERO, false);
    let pc = cpu.memory.pc;
    cpu.memory.write_byte(pc, 0xCB);
    cpu.memory.write_byte(pc + 1, 0x37);

    cpu.step().unwrap();

    assert_eq!(cpu.reg.a, 0b_0110_1001);
    assert!(!cpu.reg.is_flag(ZERO));
}
