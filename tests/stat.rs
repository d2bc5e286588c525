use gameboy::ppu::config::State::{Mode0, Mode1, Mode2};
use gameboy::ppu::Ppu;

#[test]
fn it_should_trigger_stat_interrupt_mode1() {
    let mut ppu = Ppu::new();

    ppu.stat = 0x10;
    let new_state = Mode1;
    ppu.update_stat(&new_state);

    assert!(ppu.stat_int);
    assert!((ppu.stat & 0x3) == 1);
}

#[test]
fn it_should_trigger_stat_interrupt_mode2() {
    let mut ppu = Ppu::new();

    ppu.stat = 0x20;
    let new_state = Mode2;
    ppu.update_stat(&new_state);

    assert!(ppu.stat_int);
    assert!((ppu.stat & 0b11) == 2);
}

#[test]
fn it_should_trigger_stat_interrupt_mode0() {
    let mut ppu = Ppu::new();

    ppu.stat = 0x8;
    let new_state = Mode0;
    ppu.update_stat(&new_state);

    assert!(ppu.stat_int);
    assert!((ppu.stat & 0b11) == 0);
}

#[test]
fn it_should_not_trigger_stat_interrupt_mode0() {
    let mut ppu = Ppu::new();

    ppu.stat_int = true;
    ppu.stat = 0x8;
    let new_state = Mode0;
    ppu.update_stat(&new_state);

    assert!(!ppu.stat_int)
}
