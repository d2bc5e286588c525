use gameboy::cpu::registers::{test_carry_8, test_half_carry_8, Flags, Registers};

#[test]
fn it_should_set_carry() {
    let mut reg = Registers::new();

    reg.f = 0b_0100_0000;
    reg.set_flag(Flags::CARRY, true);

    assert_eq!(reg.f, 0b_0101_0000)
}

#[test]
fn it_should_unset_carry() {
    let mut reg = Registers::new();

    reg.f = 0b_0101_0000;
    reg.set_flag(Flags::CARRY, false);

    assert_eq!(reg.f, 0b_0100_0000)
}

#[test]
fn it_should_return_zero_flag_is_set() {
    let mut reg = Registers::new();

    reg.f = 0b_1001_0000;
    let res = reg.is_flag(Flags::ZERO);

    assert!(res)
}

#[test]
fn it_should_return_a_format() {
    let mut reg = Registers::new();

    reg.f = 0b_1111_0000;
    let str = reg.to_string();

    assert_eq!(
        str,
        " flags: znhc | a: $01 | bc: $ff13 | de: $00c1 | hl: $8403 | sp: $fffe |"
    )
}

#[test]
fn it_should_return_a_format_with_no_flags() {
    let mut reg = Registers::new();

    reg.f = 0b_0000_0000;
    let str = reg.to_string();

    assert_eq!(
        str,
        " flags: ---- | a: $01 | bc: $ff13 | de: $00c1 | hl: $8403 | sp: $fffe |"
    )
}

#[test]
fn it_should_test_half_carry_8_true() {
    let value = 0xF;
    let addend = 1;
    let test = test_half_carry_8(value, addend, 0);

    assert!(test);
}

#[test]
fn it_should_test_carry_8_true() {
    let value = 0xFF;
    let addend = 1;
    let test = test_carry_8(value, addend, 0);

    assert!(test);
}

#[test]
fn it_should_test_half_carry_8_false() {
    let value = 0xF;
    let addend = 1;
    let test = test_half_carry_8(value, addend, 0);

    assert!(test);
}

#[test]
fn it_should_test_carry_8_false() {
    let value = 0xFF;
    let addend = 1;
    let test = test_carry_8(value, addend, 0);

    assert!(test);
}
