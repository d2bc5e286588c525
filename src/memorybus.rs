use vstd::prelude::*;
use crate::apu::{sound_register, Apu};
use crate::cartridge::Cartridge;
use crate::cpu::interrupt::{Interrupt, STAT_BIT, TIMER_BIT, VBLANK_BIT};
use crate::cpu::registers::{combine, pair, split_u16, wrap16};
use crate::cpu::timer::{timer_next, Timer};
use crate::joypad::{joypad_value, select_mode, Joypad};
use crate::ppu::state_handler::{stat_int_after, stat_ly_after, timing_after, vblank_in};
use crate::ppu::Ppu;

verus! {

pub const HRAM_SIZE: usize = 0x7F;
pub const WRAM_SIZE: usize = 0x2000;
/// Bytes moved by one OAM DMA transfer.
pub const DMA_LENGTH: u16 = 0xA0;

/// The address space. It owns every device and advances the shared clock
/// by one unit on each counted access.
pub struct MemoryBus {
    pub ppu: Ppu,
    pub joypad: Joypad,
    pub interrupt: Interrupt,
    pub pc: u16,
    pub cycle: u128,
    pub apu: Apu,
    pub timer: Timer,
    pub cartridge: Cartridge,
    pub hram: [u8; HRAM_SIZE],
    pub wram: [u8; WRAM_SIZE],
    /// Serial data and serial control registers.
    pub serial: [u8; 2],
    pub dma: bool,
    pub dma_addr: u16,
    pub dma_target: u16,
}

/// Addresses backed by plain storage: program storage, working memory and
/// its echo, and the high scratch memory.
pub open spec fn ram_loc(at: u16) -> bool {
    at <= 0x7FFF || 0xC000 <= at <= 0xFDFF || 0xFF80 <= at <= 0xFFFE
}

/// Pending bits that one tick raises: the timer, vertical blank and the
/// status sources.
pub open spec fn raised_flags(timer: bool, vblank: bool, stat: bool) -> u8 {
    (if timer { 4u8 } else { 0u8 }) | (if vblank { 1u8 } else { 0u8 }) | (if stat { 2u8 } else {
        0u8
    })
}

/// The pipeline signals vertical blank during the next tick.
pub open spec fn vblank_signal(p: Ppu) -> bool {
    p.vblank || (p.lcdc_on() && vblank_in((p.state, p.dot, p.ly), 4))
}

/// The pipeline signals a status interrupt during the next tick.
pub open spec fn stat_signal(p: Ppu) -> bool {
    if p.lcdc_on() {
        stat_int_after((p.state, p.dot, p.ly), 4, p.stat_int, p.stat) || stat_ly_after(
            (p.state, p.dot, p.ly),
            4,
            p.stat_int_ly,
            p.lyc,
            p.stat,
        )
    } else {
        p.stat_int || p.stat_int_ly
    }
}

/// Addresses owned by the pixel pipeline: video memory, object memory and
/// the display registers.
pub open spec fn ppu_loc(at: u16) -> bool {
    (0xFF40 <= at <= 0xFF4B) || (0x8000 <= at <= 0x9FFF) || (0xFE00 <= at <= 0xFE9F)
}

/// The storage cell behind a plain-storage address (the echo range shares
/// the cells of working memory).
pub open spec fn ram_cell(at: u16) -> int {
    if at <= 0x7FFF {
        at as int
    } else if 0xC000 <= at <= 0xDFFF {
        0x10000 + at - 0xC000
    } else if 0xE000 <= at <= 0xFDFF {
        0x10000 + at - 0xE000
    } else {
        0x20000 + at - 0xFF80
    }
}

impl MemoryBus {
    pub open spec fn wf(&self) -> bool {
        &&& self.ppu.wf()
        &&& self.cartridge.wf()
        &&& (self.dma ==> 0xFE00 <= self.dma_target < 0xFEA0)
    }

    /// What an uncounted read of `at` returns.
    pub open spec fn peek(&self, at: u16) -> u8 {
        if at <= 0x7FFF {
            self.cartridge.rom@[at as int]
        } else if at == 0xFF00 {
            joypad_value(self.joypad)
        } else if at == 0xFF01 {
            self.serial[0]
        } else if at == 0xFF02 {
            self.serial[1]
        } else if at == 0xFF04 {
            (self.timer.div / 256) as u8
        } else if at == 0xFF05 {
            self.timer.tima
        } else if at == 0xFF06 {
            self.timer.tma
        } else if at == 0xFF07 {
            self.timer.tac
        } else if at == 0xFF0F {
            self.interrupt.iflag
        } else if sound_register(at) {
            self.apu.peek(at)
        } else if (0xFF40 <= at <= 0xFF4B) || (0x8000 <= at <= 0x9FFF) || (0xFE00 <= at
            <= 0xFE9F) {
            self.ppu.peek(at as usize)
        } else if 0xFF80 <= at <= 0xFFFE {
            self.hram[at - 0xFF80]
        } else if 0xC000 <= at <= 0xDFFF {
            self.wram[at - 0xC000]
        } else if 0xE000 <= at <= 0xFDFF {
            self.wram[at - 0xE000]
        } else if at == 0xFFFF {
            self.interrupt.ie
        } else {
            0xFF
        }
    }

    /// `other` holds the same plain storage, sound registers and program
    /// counter as `self`.
    pub open spec fn same_storage(&self, other: &MemoryBus) -> bool {
        &&& self.cartridge == other.cartridge
        &&& self.wram == other.wram
        &&& self.hram == other.hram
        &&& self.apu == other.apu
        &&& self.serial == other.serial
        &&& self.joypad == other.joypad
        &&& self.pc == other.pc
    }

    /// `b` is `a` after one clock tick: the clock, the timer and the pixel
    /// pipeline advanced, raised interrupts were latched (vertical blank
    /// exactly when the pipeline entered it), one byte of a running DMA copy
    /// moved, storage kept.
    pub open spec fn tick_rel(a: MemoryBus, b: MemoryBus) -> bool {
        &&& b.wf()
        &&& b.cycle == a.cycle.wrapping_add(1)
        &&& b.timer == timer_next(a.timer)
        &&& b.interrupt.ie == a.interrupt.ie
        &&& a.interrupt.iflag & !b.interrupt.iflag == 0
        &&& b.interrupt.iflag & !(a.interrupt.iflag | 0x07) == 0
        &&& a.timer.reload_pending ==> b.interrupt.iflag & TIMER_BIT != 0
        &&& b.same_storage(&a)
        &&& !b.ppu.vblank && !b.ppu.stat_int && !b.ppu.stat_int_ly
        &&& b.interrupt.iflag == a.interrupt.iflag | raised_flags(
            a.timer.reload_pending,
            vblank_signal(a.ppu),
            stat_signal(a.ppu),
        )
        &&& (a.ppu.vblank || (a.ppu.lcdc_on() && vblank_in(
            (a.ppu.state, a.ppu.dot, a.ppu.ly),
            4,
        ))) ==> b.interrupt.iflag & VBLANK_BIT != 0
        &&& b.interrupt.iflag & VBLANK_BIT != 0 ==> a.interrupt.iflag & VBLANK_BIT != 0
            || a.ppu.vblank || (a.ppu.lcdc_on() && vblank_in(
            (a.ppu.state, a.ppu.dot, a.ppu.ly),
            4,
        ))
        &&& !a.dma ==> b.ppu.oam == a.ppu.oam && !b.dma
        &&& a.dma ==> {
            &&& b.dma_addr == wrap16(a.dma_addr + 1)
            &&& b.dma_target == a.dma_target + 1
            &&& b.dma == (a.dma_target + 1 < 0xFE00 + DMA_LENGTH)
            &&& b.ppu.oam@ == a.ppu.oam@.update(
                a.dma_target - 0xFE00,
                (MemoryBus {
                    ppu: Ppu { oam: a.ppu.oam, ..b.ppu },
                    dma: a.dma,
                    dma_addr: a.dma_addr,
                    dma_target: a.dma_target,
                    ..b
                }).peek(a.dma_addr),
            )
            &&& ram_loc(a.dma_addr) ==> b.ppu.oam@ == a.ppu.oam@.update(
                a.dma_target - 0xFE00,
                a.peek(a.dma_addr),
            )
        }
        &&& b.ppu.lcdc == a.ppu.lcdc
        &&& (b.ppu.state, b.ppu.dot, b.ppu.ly) == if a.ppu.lcdc_on() {
            timing_after((a.ppu.state, a.ppu.dot, a.ppu.ly), 4)
        } else {
            (a.ppu.state, a.ppu.dot, a.ppu.ly)
        }
    }

    /// `b` is `a` after an uncounted write of `value` to `at`.
    pub open spec fn write_rel(a: MemoryBus, b: MemoryBus, at: u16, value: u8) -> bool {
        &&& b.wf()
        &&& b.cycle == a.cycle
        &&& b.pc == a.pc
        &&& ram_loc(at) ==> {
            &&& forall|l: u16|
                ram_loc(l) ==> #[trigger] b.peek(l) == if ram_cell(l) == ram_cell(at) {
                    value
                } else {
                    a.peek(l)
                }
            &&& b.ppu == a.ppu && b.timer == a.timer && b.interrupt == a.interrupt
            &&& b.apu == a.apu && b.joypad == a.joypad && b.serial == a.serial
            &&& b.dma == a.dma
        }
        &&& !ram_loc(at) ==> b.cartridge == a.cartridge && b.wram == a.wram && b.hram == a.hram
        &&& at == 0xFF04 ==> b.timer == (Timer { div: 0, ..a.timer })
        &&& at == 0xFF05 ==> b.timer == (Timer { tima: value, ..a.timer })
        &&& at == 0xFF06 ==> b.timer == (Timer { tma: value, ..a.timer })
        &&& at == 0xFF07 ==> b.timer == (Timer { tac: value | 0xF8, ..a.timer })
        &&& at == 0xFF0F ==> b.interrupt == (Interrupt { iflag: value % 32, ..a.interrupt })
        &&& at == 0xFFFF ==> b.interrupt == (Interrupt { ie: value % 32, ..a.interrupt })
        &&& ppu_loc(at) ==> Ppu::write_post(a.ppu, b.ppu, at as usize, value)
        &&& !ppu_loc(at) ==> b.ppu == a.ppu
        &&& at == 0xFF46 ==> b.dma && b.dma_addr == (value as int * 256) as u16 && b.dma_target
            == 0xFE00
        &&& at != 0xFF46 ==> b.dma == a.dma && b.dma_addr == a.dma_addr && b.dma_target
            == a.dma_target
        &&& 0xFF10 <= at <= 0xFF3F ==> forall|l: u16|
            #![trigger b.apu.peek(l)]
            b.apu.peek(l) == if l == at && sound_register(at) {
                value
            } else {
                a.apu.peek(l)
            }
        &&& !(0xFF10 <= at <= 0xFF3F) ==> b.apu == a.apu
        &&& at == 0xFF00 ==> b.joypad == (Joypad { mode: select_mode(value), ..a.joypad })
        &&& at != 0xFF00 ==> b.joypad == a.joypad
        &&& at == 0xFF01 ==> b.serial[0] == value && b.serial[1] == a.serial[1]
        &&& at == 0xFF02 ==> b.serial[1] == value && b.serial[0] == a.serial[0]
    }

    /// A bus with zero-filled program storage.
    pub fn new() -> (r: MemoryBus)
        ensures
            r.wf(),
            r.pc == 0x100,
            r.cycle == 0,
            !r.dma,
    {
        Self::with_cartridge(Cartridge::new())
    }

    /// A bus whose program storage is `cartridge`.
    pub fn with_cartridge(cartridge: Cartridge) -> (r: MemoryBus)
        requires
            cartridge.wf(),
        ensures
            r.wf(),
            r.cartridge == cartridge,
            r.pc == 0x100,
            r.cycle == 0,
            !r.dma,
    {
        MemoryBus {
            ppu: Ppu::new(),
            apu: Apu::new(),
            cartridge,
            timer: Timer::new(),
            joypad: Joypad::new(),
            interrupt: Interrupt::new(),
            hram: [0u8; HRAM_SIZE],
            wram: [0u8; WRAM_SIZE],
            pc: 0x100,
            cycle: 0,
            serial: [0u8; 2],
            dma: false,
            dma_addr: 0,
            dma_target: 0xFE00,
        }
    }

    /// Uncounted read; reading leaves the bus as it was.
    pub fn read(&mut self, at: u16) -> (r: u8)
        requires
            old(self).wf(),
        ensures
            r == old(self).peek(at),
            *final(self) == *old(self),
    {
        self.peek_byte(at)
    }

    fn peek_byte(&self, at: u16) -> (r: u8)
        requires
            self.wf(),
        ensures
            r == self.peek(at),
    {
        if at <= 0x7FFF {
            self.cartridge.read(at)
        } else if at == 0xFF00 {
            self.joypad.get_joypad()
        } else if at == 0xFF01 {
            self.serial[0]
        } else if at == 0xFF02 {
            self.serial[1]
        } else if at == 0xFF04 {
            (self.timer.div / 256) as u8
        } else if at == 0xFF05 {
            self.timer.tima
        } else if at == 0xFF06 {
            self.timer.tma
        } else if at == 0xFF07 {
            self.timer.tac
        } else if at == 0xFF0F {
            self.interrupt.iflag
        } else if (0xFF10 <= at && at <= 0xFF14) || (0xFF16 <= at && at <= 0xFF1E) || (0xFF20
            <= at && at <= 0xFF26) || (0xFF30 <= at && at <= 0xFF3F) {
            self.apu.read(at)
        } else if (0xFF40 <= at && at <= 0xFF4B) || (0x8000 <= at && at <= 0x9FFF) || (0xFE00
            <= at && at <= 0xFE9F) {
            self.ppu.read(at as usize)
        } else if 0xFF80 <= at && at <= 0xFFFE {
            self.hram[(at - 0xFF80) as usize]
        } else if 0xC000 <= at && at <= 0xDFFF {
            self.wram[(at - 0xC000) as usize]
        } else if 0xE000 <= at && at <= 0xFDFF {
            self.wram[(at - 0xE000) as usize]
        } else if at == 0xFFFF {
            self.interrupt.ie
        } else {
            0xFF
        }
    }

    /// Uncounted write, routed to the device that owns `at`; addresses that
    /// no device owns ignore it.
    pub fn write(&mut self, at: u16, value: u8)
        requires
            old(self).wf(),
        ensures
            Self::write_rel(*old(self), *final(self), at, value),
    {
        if at <= 0x7FFF {
            self.cartridge.write(at, value);
        } else if at == 0xFF00 {
            self.joypad.set_joypad(value);
        } else if at == 0xFF01 {
            self.serial[0] = value;
        } else if at == 0xFF02 {
            self.serial[1] = value;
        } else if at == 0xFF04 {
            self.timer.div = 0;
        } else if at == 0xFF05 {
            self.timer.tima = value;
        } else if at == 0xFF06 {
            self.timer.tma = value;
        } else if at == 0xFF07 {
            self.timer.tac = value | 0xF8;
        } else if at == 0xFF0F {
            self.interrupt.set_iflag(value);
        } else if at == 0xFF46 {
            self.handle_dma(value);
            self.ppu.write(at as usize, value);
        } else if 0xFF80 <= at && at <= 0xFFFE {
            self.hram[(at - 0xFF80) as usize] = value;
        } else if 0xFF10 <= at && at <= 0xFF3F {
            self.apu.write(at, value);
        } else if (0xFF40 <= at && at <= 0xFF4B) || (0x8000 <= at && at <= 0x9FFF) || (0xFE00
            <= at && at <= 0xFE9F) {
            self.ppu.write(at as usize, value);
        } else if 0xC000 <= at && at <= 0xDFFF {
            self.wram[(at - 0xC000) as usize] = value;
        } else if 0xE000 <= at && at <= 0xFDFF {
            self.wram[(at - 0xE000) as usize] = value;
        } else if at == 0xFFFF {
            self.interrupt.set_ie(value);
        }
    }

    /// Counted read of the byte at the program counter, which then advances.
    pub fn fetch_next_byte(&mut self) -> (r: u8)
        requires
            old(self).wf(),
        ensures
            Self::tick_rel(*old(self), MemoryBus { pc: old(self).pc, ..*final(self) }),
            final(self).pc == wrap16(old(self).pc + 1),
            r == final(self).peek(old(self).pc),
            ram_loc(old(self).pc) ==> r == old(self).peek(old(self).pc),
    {
        self.tick();
        let retval = self.peek_byte(self.pc);
        self.inc_pc();
        retval
    }

    fn inc_pc(&mut self)
        ensures
            *final(self) == (MemoryBus { pc: wrap16(old(self).pc + 1), ..*old(self) }),
    {
        self.pc = self.pc.wrapping_add(1);
    }

    /// Counted read.
    pub fn fetch_byte(&mut self, at: u16) -> (r: u8)
        requires
            old(self).wf(),
        ensures
            Self::tick_rel(*old(self), *final(self)),
            r == final(self).peek(at),
    {
        self.tick();
        self.peek_byte(at)
    }

    /// Counted write.
    pub fn write_byte(&mut self, at: u16, value: u8)
        requires
            old(self).wf(),
        ensures
            exists|mid: MemoryBus|
                Self::tick_rel(*old(self), mid) && #[trigger] Self::write_rel(
                    mid,
                    *final(self),
                    at,
                    value,
                ),
    {
        self.tick();
        let ghost mid = *self;
        self.write(at, value);
        assert(Self::write_rel(mid, *self, at, value));
    }

    /// Starts an OAM DMA copy from page `value`.
    fn handle_dma(&mut self, value: u8)
        ensures
            *final(self) == (MemoryBus {
                dma: true,
                dma_addr: (value as int * 256) as u16,
                dma_target: 0xFE00,
                ..*old(self)
            }),
    {
        self.dma = true;
        self.dma_addr = value as u16 * 256;
        self.dma_target = 0xFE00;
    }

    /// One clock tick: advances the timer and the pixel pipeline, latches
    /// the interrupts they raise, and moves one byte of a running DMA copy.
    #[verifier::spinoff_prover]
    #[verifier::rlimit(60)]
    pub fn tick(&mut self)
        requires
            old(self).wf(),
        ensures
            Self::tick_rel(*old(self), *final(self)),
    {
        let ghost start = self.interrupt.iflag;
        let ghost fired = self.timer.reload_pending;
        self.cycle = self.cycle.wrapping_add(1);
        proof {
            lemma_raise_start(start);
            lemma_bit0(start);
        }
        if self.timer.handle_timer() {
            proof {
                lemma_raise_step(start, self.interrupt.iflag, TIMER_BIT);
            }
            self.interrupt.require_timer();
        }
        let ghost x1 = self.interrupt.iflag;
        self.ppu.step();
        let ghost raised_vblank = self.ppu.vblank;
        let ghost raised_stat = self.ppu.stat_int;
        let ghost raised_ly = self.ppu.stat_int_ly;
        proof {
            lemma_bit0(self.interrupt.iflag);
        }
        if self.ppu.vblank {
            proof {
                lemma_raise_step(start, self.interrupt.iflag, VBLANK_BIT);
            }
            self.interrupt.require_vblank();
            self.ppu.vblank = false;
        }
        proof {
            lemma_bit0(self.interrupt.iflag);
        }
        if self.ppu.stat_int {
            proof {
                lemma_raise_step(start, self.interrupt.iflag, STAT_BIT);
            }
            self.interrupt.require_stat();
            self.ppu.stat_int = false;
        }
        proof {
            lemma_bit0(self.interrupt.iflag);
        }
        if self.ppu.stat_int_ly {
            proof {
                lemma_raise_step(start, self.interrupt.iflag, STAT_BIT);
            }
            self.interrupt.require_stat();
            self.ppu.stat_int_ly = false;
        }
        proof {
            lemma_bit0(self.interrupt.iflag);
            lemma_raise_exact(start, fired, raised_vblank, raised_stat, raised_ly);
        }
        if self.dma {
            let ghost x = *self;
            let value = self.peek_byte(self.dma_addr);
            self.ppu.write_oam(self.dma_target as usize, value);
            self.dma_addr = self.dma_addr.wrapping_add(1);
            self.dma_target = self.dma_target + 1;
            if self.dma_target == 0xFE00 + DMA_LENGTH {
                self.dma = false;
            }
            assert(x == (MemoryBus {
                ppu: Ppu { oam: x.ppu.oam, ..self.ppu },
                dma: x.dma,
                dma_addr: x.dma_addr,
                dma_target: x.dma_target,
                ..*self
            }));
        }
    }

    /// Counted read of two bytes at the program counter, low byte first.
    pub fn fetch_next_word(&mut self) -> (r: u16)
        requires
            old(self).wf(),
        ensures
            final(self).wf(),
            final(self).pc == wrap16(old(self).pc + 2),
            final(self).same_storage(&MemoryBus { pc: final(self).pc, ..*old(self) }),
            ram_loc(old(self).pc) && ram_loc(wrap16(old(self).pc + 1)) ==> r == pair(
                old(self).peek(wrap16(old(self).pc + 1)),
                old(self).peek(old(self).pc),
            ),
    {
        let low = self.fetch_next_byte();
        let high = self.fetch_next_byte();
        combine(high as u16, low as u16)
    }

    /// Counted write of two bytes, low byte at `at`.
    pub fn write_word(&mut self, at: u16, value: u16)
        requires
            old(self).wf(),
        ensures
            final(self).wf(),
            final(self).pc == old(self).pc,
            old(self).cycle < 0x1_0000_0000_0000_0000 ==> final(self).cycle == old(self).cycle + 2,
            ram_loc(at) && ram_loc(wrap16(at + 1)) && ram_cell(at) != ram_cell(wrap16(at + 1))
                ==> pair(final(self).peek(wrap16(at + 1)), final(self).peek(at)) == value,
    {
        let (high, low) = split_u16(value);
        self.write_byte(at, low);
        let ghost m1 = *self;
        let next = at.wrapping_add(1);
        self.write_byte(next, high);
        proof {
            if ram_loc(at) && ram_loc(next) && ram_cell(at) != ram_cell(next) {
                let mid = choose|mid: MemoryBus|
                    Self::tick_rel(m1, mid) && #[trigger] Self::write_rel(mid, *self, next, high);
                assert(mid.peek(at) == m1.peek(at));
                assert(self.peek(at) == low);
                assert(self.peek(next) == high);
            }
        }
    }
}

/// Two counted reads of the same plain-storage address, with no write
/// between them, return the same byte; each spends one clock tick.
pub proof fn lemma_counted_reads_agree(b0: MemoryBus, b1: MemoryBus, b2: MemoryBus, at: u16)
    requires
        MemoryBus::tick_rel(b0, b1),
        MemoryBus::tick_rel(b1, b2),
        ram_loc(at),
    ensures
        b1.peek(at) == b2.peek(at),
        b1.peek(at) == b0.peek(at),
        b0.cycle < 0xFFFF_FFFF_FFFF_FFFF ==> b1.cycle == b0.cycle + 1 && b2.cycle == b0.cycle + 2,
{
}

/// The pending flags after a tick that raised the timer, vertical-blank
/// and status sources as the booleans say.
proof fn lemma_raise_exact(a: u8, t: bool, v: bool, s1: bool, s2: bool)
    by (bit_vector)
    ensures
        ({
            let x1 = if t { a | 4 } else { a };
            let x2 = if v { x1 | 1 } else { x1 };
            let x3 = if s1 { x2 | 2 } else { x2 };
            let x4 = if s2 { x3 | 2 } else { x3 };
            x4 == a | ((if t { 4u8 } else { 0u8 }) | (if v { 1u8 } else { 0u8 }) | (if s1 || s2 {
                2u8
            } else {
                0u8
            }))
        }),
{
}

/// Bit 0 under the settings of bits done by a tick.
proof fn lemma_bit0(x: u8)
    by (bit_vector)
    ensures
        (x | 2) & 1 == x & 1,
        (x | 4) & 1 == x & 1,
        (x | 1) & 1 != 0,
{
}

proof fn lemma_raise_start(a: u8)
    by (bit_vector)
    ensures
        a & !a == 0,
        a & !(a | 0x07) == 0,
{
}

/// Setting one of the three low bits keeps the bits that were set and adds
/// no bit above them; a timer bit once set stays set.
proof fn lemma_raise_step(a: u8, x: u8, m: u8)
    by (bit_vector)
    requires
        a & !x == 0,
        x & !(a | 0x07) == 0,
        m == 1 || m == 2 || m == 4,
    ensures
        a & !(x | m) == 0,
        (x | m) & !(a | 0x07) == 0,
        x & 4 != 0 ==> (x | m) & 4 != 0,
        m == 4 ==> (x | m) & 4 != 0,
{
}

} // verus!
