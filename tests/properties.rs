use gameboy::cartridge::Cartridge;
use gameboy::cpu::interrupt::Interrupt;
use gameboy::cpu::read_write_cpu::Operand;
use gameboy::cpu::registers::Flags::{CARRY, HALF, N, ZERO};
use gameboy::cpu::registers::Reg8;
use gameboy::cpu::timer::Timer;
use gameboy::cpu::{Cpu, InvalidOpcode};
use gameboy::joypad::{JoyKey, Joypad};
use gameboy::memorybus::MemoryBus;
use gameboy::ppu::config::State;
use gameboy::ppu::Ppu;

fn cpu_with_program(program: &[u8]) -> Cpu {
    let mut image = vec![0u8; 0x100];
    image.extend_from_slice(program);
    Cpu::with_cartridge(Cartridge::from_image(&image))
}

#[test]
fn add_half_carry_boundary() {
    let mut cpu = Cpu::new();
    cpu.reg.a = 0x0F;
    cpu.reg.b = 0x01;
    cpu.add(Operand::Reg(Reg8::B));
    assert_eq!(cpu.reg.a, 0x10);
    assert!(cpu.reg.is_flag(HALF));
    assert!(!cpu.reg.is_flag(CARRY));
    assert!(!cpu.reg.is_flag(ZERO));
    assert!(!cpu.reg.is_flag(N));
}

#[test]
fn add_carry_boundary() {
    let mut cpu = Cpu::new();
    cpu.reg.a = 0xFF;
    cpu.reg.b = 0x01;
    cpu.add(Operand::Reg(Reg8::B));
    assert_eq!(cpu.reg.a, 0x00);
    assert!(cpu.reg.is_flag(CARRY));
    assert!(cpu.reg.is_flag(ZERO));
    assert!(cpu.reg.is_flag(HALF));
    assert_eq!(cpu.reg.f, 0b1011_0000);
}

#[test]
fn sub_borrow_flags() {
    let mut cpu = Cpu::new();
    cpu.reg.a = 0x10;
    cpu.reg.b = 0x01;
    cpu.sub(Operand::Reg(Reg8::B));
    assert_eq!(cpu.reg.a, 0x0F);
    assert_eq!(cpu.reg.f, 0b0110_0000);
    cpu.reg.a = 0x00;
    cpu.sub(Operand::Reg(Reg8::B));
    assert_eq!(cpu.reg.a, 0xFF);
    assert_eq!(cpu.reg.f, 0b0111_0000);
}

#[test]
fn cp_keeps_accumulator() {
    let mut cpu = Cpu::new();
    cpu.reg.a = 0x42;
    cpu.reg.c = 0x42;
    cpu.cp(Operand::Reg(Reg8::C));
    assert_eq!(cpu.reg.a, 0x42);
    assert_eq!(cpu.reg.f, 0b1100_0000);
}

#[test]
fn inc_and_dec_nibble_edges_keep_carry() {
    let mut cpu = Cpu::new();
    cpu.reg.f = 0b0001_0000;
    cpu.reg.d = 0x0F;
    cpu.inc(Operand::Reg(Reg8::D));
    assert_eq!(cpu.reg.d, 0x10);
    assert_eq!(cpu.reg.f, 0b0011_0000);
    cpu.dec(Operand::Reg(Reg8::D));
    assert_eq!(cpu.reg.d, 0x0F);
    assert_eq!(cpu.reg.f, 0b0111_0000);
}

#[test]
fn daa_after_subtraction() {
    let mut cpu = Cpu::new();
    cpu.reg.a = 0x47;
    cpu.reg.b = 0x28;
    cpu.sub(Operand::Reg(Reg8::B));
    cpu.daa();
    assert_eq!(cpu.reg.a, 0x19);
}

#[test]
fn push_then_pop_round_trip() {
    let mut cpu = cpu_with_program(&[0xC5, 0xD1]);
    cpu.reg.sp = 0xDFF0;
    cpu.reg.set_bc(0x1234);
    cpu.reg.set_de(0x0000);
    cpu.step().unwrap();
    assert_eq!(cpu.reg.sp, 0xDFEE);
    cpu.step().unwrap();
    assert_eq!(cpu.reg.de(), 0x1234);
    assert_eq!(cpu.reg.sp, 0xDFF0);
}

#[test]
fn reading_twice_gives_the_same_value() {
    let mut bus = MemoryBus::new();
    bus.write(0xC123, 0x5A);
    assert_eq!(bus.read(0xC123), 0x5A);
    assert_eq!(bus.read(0xC123), 0x5A);
    assert_eq!(bus.read(0xE123), 0x5A);
    let first = bus.read(0xFF04);
    assert_eq!(bus.read(0xFF04), first);
}

#[test]
fn unowned_address_reads_sentinel() {
    let mut bus = MemoryBus::new();
    bus.write(0xFF03, 0x12);
    assert_eq!(bus.read(0xFF03), 0xFF);
    assert_eq!(bus.read(0xFEA0), 0xFF);
}

#[test]
fn lowest_pending_source_is_served_first() {
    let mut int = Interrupt::new();
    int.iflag = 0b0001_0001;
    int.ie = 0b0001_0001;
    assert!(int.should_interrupt());
    assert_eq!(int.get_next_interrupt(), 0);
    assert_eq!(int.get_interrupt_addr(), 0x40);
    assert_eq!(int.iflag, 0b0001_0000);
}

#[test]
fn interrupt_registers_keep_five_bits() {
    let mut int = Interrupt::new();
    int.set_iflag(0xFF);
    int.set_ie(0xE3);
    assert_eq!(int.iflag, 0x1F);
    assert_eq!(int.ie, 0x03);
}

#[test]
fn timer_reload_comes_one_tick_late() {
    let mut t = Timer::new();
    t.tac = 0b101;
    t.tima = 0xFF;
    t.tma = 0x42;
    t.div = 0x000C;
    assert!(!t.handle_timer());
    assert_eq!(t.tima, 0x00);
    assert!(t.handle_timer());
    assert_eq!(t.tima, 0x42);
    assert!(!t.handle_timer());
}

#[test]
fn timer_interrupt_reaches_the_bus() {
    let mut bus = MemoryBus::new();
    bus.write(0xFF07, 0b101);
    bus.write(0xFF05, 0xFF);
    bus.write(0xFF06, 0x42);
    bus.timer.div = 0x000C;
    bus.tick();
    assert_eq!(bus.read(0xFF05), 0x00);
    assert_eq!(bus.interrupt.iflag & 0b100, 0);
    bus.tick();
    assert_eq!(bus.read(0xFF05), 0x42);
    assert_eq!(bus.interrupt.iflag & 0b100, 0b100);
}

#[test]
fn divider_write_resets() {
    let mut bus = MemoryBus::new();
    bus.timer.div = 0xABCD;
    assert_eq!(bus.read(0xFF04), 0xAB);
    bus.write(0xFF04, 0x77);
    assert_eq!(bus.read(0xFF04), 0x00);
}

#[test]
fn scanline_timing() {
    let mut ppu = Ppu::new();
    for _ in 0..79 {
        ppu.run_ppu();
    }
    assert_eq!(ppu.state, State::Mode2);
    ppu.run_ppu();
    assert_eq!(ppu.dot, 80);
    assert_eq!(ppu.state, State::Mode3);
    for _ in 80..252 {
        ppu.run_ppu();
    }
    assert_eq!(ppu.state, State::Mode0);
    for _ in 252..455 {
        ppu.run_ppu();
    }
    assert_eq!(ppu.ly, 0);
    ppu.run_ppu();
    assert_eq!(ppu.ly, 1);
    assert_eq!(ppu.state, State::Mode2);
}

#[test]
fn vblank_entered_once_after_last_visible_line() {
    let mut ppu = Ppu::new();
    for _ in 0..(456 * 144 - 1) {
        ppu.run_ppu();
        assert!(!ppu.vblank);
    }
    assert_eq!(ppu.ly, 143);
    assert_eq!(ppu.state, State::Mode0);
    ppu.run_ppu();
    assert_eq!(ppu.state, State::Mode1);
    assert_eq!(ppu.ly, 144);
    assert!(ppu.vblank);
    ppu.vblank = false;
    for _ in 0..(456 * 10 - 1) {
        ppu.run_ppu();
        assert!(!ppu.vblank);
        assert_eq!(ppu.state, State::Mode1);
    }
    ppu.run_ppu();
    assert_eq!(ppu.ly, 0);
    assert_eq!(ppu.dot, 0);
    assert_eq!(ppu.state, State::Mode2);
}

#[test]
fn vblank_interrupt_is_latched_once_per_frame() {
    let mut bus = MemoryBus::new();
    let mut raised = 0;
    for _ in 0..(70224 / 4) {
        bus.tick();
        if bus.interrupt.iflag & 1 == 1 {
            raised += 1;
            bus.interrupt.iflag &= !1;
        }
    }
    assert_eq!(raised, 1);
}

#[test]
fn video_memory_locked_during_transfer() {
    let mut ppu = Ppu::new();
    ppu.write(0x8000, 0x11);
    assert_eq!(ppu.read(0x8000), 0x11);
    for _ in 0..80 {
        ppu.run_ppu();
    }
    assert_eq!(ppu.state, State::Mode3);
    assert_eq!(ppu.read(0x8000), 0xFF);
    ppu.write(0x8000, 0x22);
    assert_eq!(ppu.read(0xFE00), 0xFF);
    for _ in 80..252 {
        ppu.run_ppu();
    }
    assert_eq!(ppu.read(0x8000), 0x11);
}

#[test]
fn tile_cache_follows_video_memory() {
    let mut ppu = Ppu::new();
    ppu.write(0x8010, 0b1010_0000);
    ppu.write(0x8011, 0b1100_0000);
    assert_eq!(ppu.tiles[1][0][0], 3);
    assert_eq!(ppu.tiles[1][0][1], 1);
    assert_eq!(ppu.tiles[1][0][2], 2);
    assert_eq!(ppu.tiles[1][0][3], 0);
}

#[test]
fn display_off_refused_outside_vblank() {
    let mut ppu = Ppu::new();
    ppu.write(0xFF40, 0x00);
    assert_eq!(ppu.read(0xFF40), 0x80);
    for _ in 0..(456 * 144) {
        ppu.run_ppu();
    }
    assert_eq!(ppu.state, State::Mode1);
    ppu.write(0xFF40, 0x00);
    assert_eq!(ppu.read(0xFF40), 0x00);
    assert_eq!(ppu.ly, 0);
}

#[test]
fn stat_mode_bits_follow_state() {
    let mut ppu = Ppu::new();
    for _ in 0..80 {
        ppu.run_ppu();
    }
    assert_eq!(ppu.read(0xFF41) & 0b11, 3);
    ppu.write_stat(0xFF);
    assert_eq!(ppu.read(0xFF41), 0xF8 | 3);
}

#[test]
fn dma_copies_a_page_into_object_memory() {
    let mut bus = MemoryBus::new();
    for i in 0..0xA0u16 {
        bus.write(0xC000 + i, i as u8);
    }
    bus.write(0xFF46, 0xC0);
    for _ in 0..0xA0 {
        bus.tick();
    }
    assert!(!bus.dma);
    assert_eq!(bus.ppu.oam[0], 0);
    assert_eq!(bus.ppu.oam[0x9F], 0x9F);
}

#[test]
fn load_then_register_move() {
    let mut cpu = cpu_with_program(&[0x06, 0x0A, 0x41]);
    cpu.reg.c = 0x05;
    cpu.step().unwrap();
    assert_eq!(cpu.reg.b, 0x0A);
    cpu.step().unwrap();
    assert_eq!(cpu.reg.b, 0x05);
}

#[test]
fn forbidden_opcode_is_refused() {
    let mut cpu = cpu_with_program(&[0xD3]);
    assert_eq!(cpu.step(), Err(InvalidOpcode { opcode: 0xD3 }));
    let pc = cpu.memory.pc;
    assert_eq!(cpu.step(), Err(InvalidOpcode { opcode: 0xD3 }));
    assert_eq!(cpu.memory.pc, pc);
    assert_eq!(cpu.fault, Some(InvalidOpcode { opcode: 0xD3 }));
}

#[test]
fn interrupt_dispatch_pushes_pc_and_jumps() {
    let mut cpu = cpu_with_program(&[0xFB, 0x00, 0x00]);
    cpu.reg.sp = 0xDFF0;
    cpu.memory.write(0xFFFF, 0b0000_0100);
    cpu.step().unwrap();
    cpu.memory.interrupt.iflag = 0b0000_0100;
    cpu.step().unwrap();
    assert_eq!(cpu.memory.pc, 0x102);
    cpu.step().unwrap();
    assert_eq!(cpu.memory.pc, 0x50);
    assert_eq!(cpu.reg.sp, 0xDFEE);
    assert_eq!(cpu.memory.read(0xDFEF), 0x01);
    assert_eq!(cpu.memory.read(0xDFEE), 0x02);
    assert_eq!(cpu.memory.interrupt.iflag & 0b100, 0);
}

#[test]
fn call_and_return() {
    let mut cpu = cpu_with_program(&[0xCD, 0x10, 0x01]);
    cpu.memory.write(0x0110, 0xC9);
    cpu.reg.sp = 0xDFF0;
    cpu.step().unwrap();
    assert_eq!(cpu.memory.pc, 0x0110);
    cpu.step().unwrap();
    assert_eq!(cpu.memory.pc, 0x0103);
    assert_eq!(cpu.reg.sp, 0xDFF0);
}

#[test]
fn image_is_padded_and_cut() {
    let short = Cartridge::from_image(&[1, 2, 3]);
    assert_eq!(short.rom.len(), 0x8000);
    assert_eq!(short.rom[2], 3);
    assert_eq!(short.rom[3], 0);
    let long = Cartridge::from_image(&vec![7u8; 0x9000]);
    assert_eq!(long.rom.len(), 0x8000);
    assert_eq!(long.rom[0x7FFF], 7);
}

#[test]
fn joypad_press_raises_signal() {
    let mut pad = Joypad::new();
    pad.set_joypad(0x20);
    pad.update(&[JoyKey::Left], &[]);
    assert_eq!(pad.get_joypad(), 0xC0 | 0x10 | 0b1101);
    assert!(pad.is_interrupt());
    assert!(!pad.is_interrupt());
    pad.update(&[], &[JoyKey::Left]);
    assert_eq!(pad.get_joypad(), 0xC0 | 0x10 | 0b1111);
    assert!(!pad.is_interrupt());
}

#[test]
fn swap_result_and_zero_flag() {
    let mut cpu = cpu_with_program(&[0xCB, 0x37, 0xCB, 0x37]);
    cpu.reg.a = 0b1001_0110;
    cpu.step().unwrap();
    assert_eq!(cpu.reg.a, 0b0110_1001);
    assert!(!cpu.reg.is_flag(ZERO));
    cpu.reg.a = 0;
    cpu.step().unwrap();
    assert!(cpu.reg.is_flag(ZERO));
}

#[test]
fn header_fields_come_from_the_image() {
    let mut image = vec![0u8; 0x150];
    image[0x134..0x13C].copy_from_slice(b"TETRIS\0\0");
    image[0x147] = 0x01;
    image[0x148] = 0x02;
    image[0x149] = 0x03;
    let h = gameboy::cartridge::header::Header::new(&image);
    assert_eq!(h.title.len(), 16);
    assert!(h.title.starts_with("TETRIS"));
    assert_eq!(h.cartridge_type, 0x01);
    assert_eq!(h.rom_size, 128);
    assert_eq!(h.ram_size, 32);
}

#[test]
fn serial_text_is_collected_until_a_verdict() {
    let mut bus = MemoryBus::new();
    let mut log = gameboy::debug_tools::TestRomLog::new();
    for &c in b"Test Passed" {
        bus.write(0xFF01, c);
        bus.write(0xFF02, 0x81);
        log.update_testrom_message(&mut bus);
        assert_eq!(bus.read(0xFF02), 0);
    }
    log.update_testrom_message(&mut bus);
    assert_eq!(log.message, b"Test Passed".to_vec());
    assert!(log.should_print());
    let mut other = gameboy::debug_tools::TestRomLog::new();
    other.message = b"Pass".to_vec();
    assert!(!other.should_print());
}

#[test]
fn load_sp_into_memory() {
    let mut cpu = cpu_with_program(&[0x08, 0x00, 0xC0]);
    cpu.reg.sp = 0xBEEF;
    cpu.step().unwrap();
    assert_eq!(cpu.memory.read(0xC000), 0xEF);
    assert_eq!(cpu.memory.read(0xC001), 0xBE);
    assert_eq!(cpu.memory.pc, 0x103);
}

#[test]
fn register_description_uses_hex() {
    let mut reg = gameboy::cpu::registers::Registers::new();
    reg.f = 0b1010_0000;
    reg.a = 0xAB;
    assert_eq!(
        reg.to_string(),
        " flags: z-h- | a: $ab | bc: $ff13 | de: $00c1 | hl: $8403 | sp: $fffe |"
    );
}

#[test]
fn background_line_uses_scroll_and_palette() {
    let mut ppu = Ppu::new();
    ppu.write(0xFF47, 0b1110_0100);
    ppu.write(0xFF40, 0x91);
    ppu.write(0x8000 + 16, 0xFF);
    ppu.write(0x8000 + 17, 0xFF);
    ppu.write(0x9800 + 1, 1);
    ppu.write(0xFF43, 8);
    ppu.render();
    assert_eq!(ppu.video_buffer[0], 0x000000);
    assert_eq!(ppu.video_buffer[8], 0xFFFFFF);
}

#[test]
fn flag_register_low_nibble_stays_clear() {
    let mut reg = gameboy::cpu::registers::Registers::new();
    reg.set_af(0x120F);
    assert_eq!(reg.a, 0x12);
    assert_eq!(reg.f, 0x00);
    assert_eq!(reg.af(), 0x1200);
}

#[test]
fn sprites_drawn_over_background() {
    let mut ppu = Ppu::new();
    ppu.write(0xFF47, 0b1110_0100);
    ppu.write(0xFF48, 0b1110_0100);
    ppu.write(0xFF40, 0x93);
    ppu.write(0x8000 + 16, 0xFF);
    ppu.write(0x8000 + 17, 0xFF);
    ppu.oam[0] = 16;
    ppu.oam[1] = 8 + 4;
    ppu.oam[2] = 1;
    ppu.oam[3] = 0;
    ppu.build_objects_list();
    assert_eq!(ppu.objects.len(), 1);
    ppu.render();
    assert_eq!(ppu.video_buffer[3], 0xFFFFFF);
    assert_eq!(ppu.video_buffer[4], 0x000000);
    assert_eq!(ppu.video_buffer[11], 0x000000);
    assert_eq!(ppu.video_buffer[12], 0xFFFFFF);
}

#[test]
fn oam_scan_keeps_first_ten() {
    let mut ppu = Ppu::new();
    for i in 0..12usize {
        ppu.oam[4 * i] = 16;
        ppu.oam[4 * i + 1] = (100 - i) as u8;
    }
    ppu.build_objects_list();
    assert_eq!(ppu.objects.len(), 10);
    assert_eq!(ppu.objects[0].oam_position, 9);
    assert_eq!(ppu.objects[9].oam_position, 0);
}
