use gameboy::cpu::registers::Flags::{CARRY, ZERO};
use gameboy::cpu::Cpu;

#[test]
fn it_should_jp_s8_no_carry() {
    let mut cpu = Cpu::new();
    let pc = cpu.memory.pc;
    cpu.memory.write_byte(pc, 0x30);
    let value = -5;
    cpu.memory.write_byte(pc + 1, value as u8);
    cpu.reg.set_flag(CARRY, false);

    cpu.step().unwrap();
    assert_eq!(cpu.memory.pc, pc + 2 - 5)
}

#[test]
fn it_should_jp_s8_carry() {
    let mut cpu = Cpu::new();
    let pc = cpu.memory.pc;
    cpu.memory.write_byte(pc, 0x38);
    cpu.memory.write_byte(pc + 1, 0x5);
    cpu.reg.set_flag(CARRY, true);

    cpu.step().unwrap();
    assert_eq!(cpu.memory.pc, pc + 2 + 0x5)
}

#[test]
fn it_should_not_jp_s8_carry() {
    let mut cpu = Cpu::new();
    let pc = cpu.memory.pc;
    cpu.memory.write_byte(pc, 0x38);
    cpu.memory.write_byte(pc + 1, 0x5);
    cpu.reg.set_flag(CARRY, false);

    cpu.step().unwrap();
    assert_eq!(cpu.memory.pc, pc + 2)
}

#[test]
fn it_should_jp_a16_zero() {
    let mut cpu = Cpu::new();
    let pc = cpu.memory.pc;
    cpu.memory.write_byte(pc, 0xCA);
    cpu.memory.write_byte(pc + 1, 0x10);
    cpu.memory.write_byte(pc + 2, 0xa);
    cpu.reg.set_flag(ZERO, true);

    cpu.step().unwrap();
    assert_eq!(cpu.memory.pc, 0xa10)
}

#[test]
fn it_should_jp_hl() {
    let mut cpu = Cpu::new();
    let pc = cpu.memory.pc;
    cpu.memory.write_byte(pc, 0xE9);
    cpu.reg.set_hl(0xAA);

    cpu.step().unwrap();
    assert_eq!(cpu.memory.pc, 0xAA)
}
