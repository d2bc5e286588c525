pub mod alu;
pub mod bit_operations;
pub mod execute;
pub mod flow;
pub mod interrupt;
pub mod ld;
pub mod read_write_cpu;
pub mod registers;
pub mod timer;

use vstd::prelude::*;
use crate::cartridge::Cartridge;
use crate::cpu::execute::{execute_post, fetched, is_forbidden};
use crate::cpu::flow::{stack_below, stack_top};
use crate::cpu::interrupt::{
    clear_bit, is_lowest_bit, lemma_mask_unions, lemma_raised_chain, vector_of, JOYPAD_BIT,
};
use crate::cpu::registers::{boot_registers, wrap16, Registers};
use crate::memorybus::MemoryBus;

verus! {

/// An opcode that has no meaning on the hardware; executing it stops the
/// engine.
#[derive(Copy, Clone, Debug, PartialEq, Eq, Structural)]
pub struct InvalidOpcode {
    pub opcode: u8,
}

/// The processor core: registers, the bus it drives, and the interrupt
/// enable state.
pub struct Cpu {
    pub reg: Registers,
    pub memory: MemoryBus,
    /// Interrupts are globally enabled.
    pub ime: bool,
    /// An "enable interrupts" instruction ran; it takes effect after the
    /// next instruction.
    pub prepare_ime: bool,
    pub halted: bool,
    pub pause: bool,
    /// The forbidden opcode that stopped the engine, if one was met.
    pub fault: Option<InvalidOpcode>,
}

/// `c1` is `o` once a step has taken the joypad signal and applied a pending
/// interrupt enable.
pub open spec fn step_start(o: Cpu, c1: Cpu) -> bool {
    &&& c1.wf()
    &&& c1.reg == o.reg
    &&& c1.memory.pc == o.memory.pc
    &&& c1.ime == (o.ime != o.prepare_ime)
    &&& !c1.prepare_ime
    &&& c1.halted == o.halted
    &&& c1.pause == o.pause
    &&& c1.fault == o.fault
    &&& c1.memory.cartridge == o.memory.cartridge
    &&& c1.memory.wram == o.memory.wram
    &&& c1.memory.hram == o.memory.hram
    &&& c1.memory.interrupt.ie == o.memory.interrupt.ie
}

/// `d` is `c` after the fetched opcode `op` ran: a forbidden one stops the
/// engine, any other is executed.
pub open spec fn ran(c: Cpu, d: Cpu, op: u8, r: Result<(), InvalidOpcode>) -> bool {
    &&& is_forbidden(op) ==> r == Err::<(), InvalidOpcode>(InvalidOpcode { opcode: op }) && d == (
    Cpu { fault: Some(InvalidOpcode { opcode: op }), ..c })
    &&& !is_forbidden(op) ==> r.is_ok() && execute_post(c, d, op)
}

impl Cpu {
    pub open spec fn wf(&self) -> bool {
        &&& self.memory.wf()
        &&& self.fault matches Some(e) ==> is_forbidden(e.opcode)
    }

    /// A core with zero-filled program storage, in the state the boot
    /// sequence leaves.
    pub fn new() -> (r: Cpu)
        ensures
            r.wf(),
            r.reg == boot_registers(),
            r.memory.pc == 0x100,
            !r.ime && !r.prepare_ime && !r.halted && !r.pause && r.fault.is_none(),
    {
        Self::with_cartridge(Cartridge::new())
    }

    /// A core running the program stored in `cartridge`.
    pub fn with_cartridge(cartridge: Cartridge) -> (r: Cpu)
        requires
            cartridge.wf(),
        ensures
            r.wf(),
            r.reg == boot_registers(),
            r.memory.cartridge == cartridge,
            r.memory.pc == 0x100,
            !r.ime && !r.prepare_ime && !r.halted && !r.pause && r.fault.is_none(),
    {
        Cpu {
            reg: Registers::new(),
            memory: MemoryBus::with_cartridge(cartridge),
            prepare_ime: false,
            ime: false,
            halted: false,
            pause: false,
            fault: None,
        }
    }

    /// One engine step: wakes from halt, serves an interrupt, or executes
    /// one instruction. An "enable interrupts" that ran in the previous step
    /// takes effect here, after that instruction completed. A forbidden
    /// opcode stops the engine: every later step returns the same error and
    /// changes nothing.
    pub fn step(&mut self) -> (r: Result<(), InvalidOpcode>)
        requires
            old(self).wf(),
        ensures
            final(self).wf(),
            old(self).fault matches Some(e) ==> r == Err::<(), InvalidOpcode>(e) && *final(self)
                == *old(self),
            r matches Err(e) ==> is_forbidden(e.opcode) && final(self).fault == Some(e),
            old(self).fault.is_none() && old(self).pause ==> r.is_ok() && final(self).reg == old(self).reg,
            ({
                let o = *old(self);
                o.fault.is_none() && !o.pause && !o.halted && (!o.ime || (!o.memory.joypad.interrupt
                    && o.memory.interrupt.iflag & o.memory.interrupt.ie == 0)) ==> exists|
                    c1: Cpu,
                    m: Cpu,
                    op: u8,
                |
                    #![trigger step_start(o, c1), fetched(c1, m, op)]
                    step_start(o, c1) && fetched(c1, m, op) && ran(m, *final(self), op, r)
            }),
            ({
                let o = *old(self);
                o.fault.is_none() && !o.pause && o.ime && o.memory.interrupt.iflag
                    & o.memory.interrupt.ie != 0 ==> {
                    &&& r.is_ok()
                    &&& !final(self).ime
                    &&& !final(self).halted
                    &&& final(self).reg == (Registers { sp: wrap16(o.reg.sp - 2), ..o.reg })
                    &&& exists|n: u16, s: u8|
                        #![trigger is_lowest_bit(o.memory.interrupt.ie & s, n)]
                        {
                            &&& n < 8
                            &&& is_lowest_bit(o.memory.interrupt.ie & s, n)
                            &&& o.memory.interrupt.iflag & !s == 0
                            &&& s & !(o.memory.interrupt.iflag | 0x17) == 0
                            &&& vector_of(n) == final(self).memory.pc
                            &&& stack_below(o.reg.sp) ==> clear_bit(s, n) & !final(self).memory.interrupt.iflag == 0
                                && final(self).memory.interrupt.iflag & !(clear_bit(s, n) | 0x07) == 0
                        }
                    &&& stack_below(o.reg.sp) ==> stack_top(final(self).memory, final(self).reg.sp)
                        == o.memory.pc && final(self).memory.interrupt.ie == o.memory.interrupt.ie
                    &&& o.memory.cycle < 0xFFFF_FFFF_FFFE_0000 ==> final(self).memory.cycle
                        == o.memory.cycle + if o.halted { 6int } else { 5int }
                }
            }),
            ({
                let o = *old(self);
                o.fault.is_none() && !o.pause && o.halted && !o.ime ==> {
                    &&& r.is_ok()
                    &&& final(self).reg == o.reg
                    &&& final(self).memory.pc == o.memory.pc
                    &&& o.memory.interrupt.iflag & o.memory.interrupt.ie != 0 ==> !final(self).halted
                }
            }),
            ({
                let o = *old(self);
                o.fault.is_none() && !o.pause && o.halted && o.ime ==> {
                    &&& r.is_ok()
                    &&& final(self).halted ==> final(self).reg == o.reg && final(self).memory.pc
                        == o.memory.pc
                    &&& !final(self).halted ==> !final(self).ime && final(self).reg == (Registers {
                        sp: wrap16(o.reg.sp - 2),
                        ..o.reg
                    }) && exists|n: u16| n < 8 && #[trigger] vector_of(n) == final(self).memory.pc
                }
            }),
    {
        if let Some(e) = self.fault {
            return Err(e);
        }
        if self.pause {
            self.memory.tick();
            return Ok(());
        }
        let ghost iflag0 = self.memory.interrupt.iflag;
        self.handle_joypad();
        proof {
            lemma_or_keeps_pending(iflag0, JOYPAD_BIT, self.memory.interrupt.ie);
            lemma_or_kept(iflag0, JOYPAD_BIT);
        }
        let ime = self.ime;
        if self.prepare_ime {
            self.ime = !self.ime;
            self.prepare_ime = false;
        }
        let ghost c1 = *self;
        assert(step_start(*old(self), c1));
        let ghost c1flag = self.memory.interrupt.iflag;
        proof {
            lemma_within_or(iflag0, JOYPAD_BIT);
        }
        if self.halted {
            let ghost iflag1 = self.memory.interrupt.iflag;
            let ghost cyc = self.memory.cycle;
            self.memory.tick();
            assert(cyc < 0xFFFF_FFFF_FFFE_0000 ==> self.memory.cycle == cyc + 1);
            proof {
                if iflag1 & self.memory.interrupt.ie != 0 {
                    lemma_pending_stays(iflag1, self.memory.interrupt.iflag, self.memory.interrupt.ie);
                }
            }
        }
        if self.halted && !ime && self.memory.interrupt.should_interrupt() {
            self.halted = false;
            Ok(())
        } else if ime && self.memory.interrupt.should_interrupt() {
            self.halted = false;
            let ghost before = self.memory.interrupt.iflag;
            self.handle_interrupt();
            proof {
                let (n, s) = choose|n: u16, s: u8|
                    #![trigger is_lowest_bit(c1.memory.interrupt.ie & s, n)]
                    {
                        &&& n < 8
                        &&& is_lowest_bit(c1.memory.interrupt.ie & s, n)
                        &&& before & !s == 0
                        &&& s & !(before | 0x07) == 0
                        &&& vector_of(n) == self.memory.pc
                        &&& stack_below(c1.reg.sp) ==> clear_bit(s, n) & !self.memory.interrupt.iflag
                            == 0 && self.memory.interrupt.iflag & !(clear_bit(s, n) | 0x07) == 0
                    };
                lemma_mask_unions();
                lemma_within_or(before, 0x07);
                lemma_within_or(c1flag, 0x07);
                lemma_kept_trans(c1flag, before, s);
                lemma_kept_trans(iflag0, c1flag, s);
                lemma_raised_chain(c1flag, before, s, 0x07, 0x07);
                lemma_raised_chain(iflag0, c1flag, s, 0x10, 0x07);
            }
            Ok(())
        } else if !self.halted {
            self.handle_execution()
        } else {
            Ok(())
        }
    }

    fn handle_joypad(&mut self)
        requires
            old(self).wf(),
        ensures
            final(self).wf(),
            final(self).reg == old(self).reg,
            final(self).ime == old(self).ime && final(self).prepare_ime == old(self).prepare_ime,
            final(self).halted == old(self).halted && final(self).pause == old(self).pause,
            final(self).memory.pc == old(self).memory.pc,
            final(self).memory.interrupt.ie == old(self).memory.interrupt.ie,
            final(self).memory.interrupt.iflag == old(self).memory.interrupt.iflag
                || final(self).memory.interrupt.iflag == old(self).memory.interrupt.iflag
                | JOYPAD_BIT,
            !old(self).memory.joypad.interrupt ==> final(self).memory.interrupt.iflag == old(self).memory.interrupt.iflag,
            final(self).fault == old(self).fault,
            final(self).memory.cartridge == old(self).memory.cartridge,
            final(self).memory.wram == old(self).memory.wram,
            final(self).memory.hram == old(self).memory.hram,
            final(self).memory.cycle == old(self).memory.cycle,
    {
        if self.memory.joypad.is_interrupt() {
            self.memory.interrupt.require_joypad();
        }
    }

    fn handle_execution(&mut self) -> (r: Result<(), InvalidOpcode>)
        requires
            old(self).wf(),
        ensures
            final(self).wf(),
            exists|m: Cpu, op: u8|
                #![trigger fetched(*old(self), m, op)]
                fetched(*old(self), m, op) && ran(m, *final(self), op, r),
    {
        let opcode = self.memory.fetch_next_byte();
        let ghost m = *self;
        assert(fetched(*old(self), m, opcode));
        if opcode == 0xD3 || opcode == 0xE3 || opcode == 0xE4 || opcode == 0xF4 || opcode == 0xDB
            || opcode == 0xEB || opcode == 0xEC || opcode == 0xFC || opcode == 0xDD || opcode
            == 0xED || opcode == 0xFD {
            let e = InvalidOpcode { opcode };
            self.fault = Some(e);
            return Err(e);
        }
        self.execute(opcode);
        Ok(())
    }

    /// Interrupt dispatch: disables interrupts, spends two ticks, pushes the
    /// program counter, clears the served pending bit and jumps to its
    /// vector.
    fn handle_interrupt(&mut self)
        requires
            old(self).wf(),
            old(self).memory.interrupt.iflag & old(self).memory.interrupt.ie != 0,
        ensures
            final(self).wf(),
            !final(self).ime,
            final(self).prepare_ime == old(self).prepare_ime,
            final(self).halted == old(self).halted,
            final(self).pause == old(self).pause,
            final(self).reg == (Registers { sp: wrap16(old(self).reg.sp - 2), ..old(self).reg }),
            final(self).fault == old(self).fault,
            exists|n: u16, s: u8|
                #![trigger is_lowest_bit(old(self).memory.interrupt.ie & s, n)]
                {
                    &&& n < 8
                    &&& is_lowest_bit(old(self).memory.interrupt.ie & s, n)
                    &&& old(self).memory.interrupt.iflag & !s == 0
                    &&& s & !(old(self).memory.interrupt.iflag | 0x07) == 0
                    &&& vector_of(n) == final(self).memory.pc
                    &&& stack_below(old(self).reg.sp) ==> clear_bit(s, n) & !final(self).memory.interrupt.iflag == 0 && final(self).memory.interrupt.iflag & !(
                    clear_bit(s, n) | 0x07) == 0
                },
            stack_below(old(self).reg.sp) ==> stack_top(final(self).memory, final(self).reg.sp)
                == old(self).memory.pc && final(self).memory.interrupt.ie == old(self).memory.interrupt.ie,
            old(self).memory.cycle < 0xFFFF_FFFF_FFFF_0000 ==> final(self).memory.cycle == old(self).memory.cycle + 5,
    {
        let ghost ie = self.memory.interrupt.ie;
        let ghost before = self.memory.interrupt.iflag;
        let ghost cyc = self.memory.cycle;
        self.memory.tick();
        let ghost mid = self.memory.interrupt.iflag;
        assert(cyc < 0x1_0000_0000_0000_0000 ==> self.memory.cycle == cyc + 1);
        self.memory.tick();
        assert(cyc < 0x1_0000_0000_0000_0000 ==> self.memory.cycle == cyc + 2);
        proof {
            lemma_pending_stays(before, mid, ie);
            lemma_pending_stays(mid, self.memory.interrupt.iflag, ie);
        }
        self.ime = false;
        let ghost served = self.memory.interrupt.iflag;
        let addr = self.memory.interrupt.get_interrupt_addr();
        let ghost served_after = self.memory.interrupt.iflag;
        let pc = self.memory.pc;
        self.make_push(pc);
        proof {
            reveal(crate::cpu::flow::push_post);
        }
        self.memory.pc = addr;
        proof {
            let n = choose|n: u16|
                #![trigger vector_of(n)]
                {
                    &&& n < 8
                    &&& is_lowest_bit(ie & served, n)
                    &&& addr == vector_of(n)
                    &&& served_after == clear_bit(served, n)
                };
            lemma_kept_trans(before, mid, served);
            lemma_mask_unions();
            lemma_raised_chain(before, mid, served, 0x07, 0x07);
            assert(is_lowest_bit(old(self).memory.interrupt.ie & served, n));
        }
    }
}

proof fn lemma_within_or(a: u8, m: u8)
    by (bit_vector)
    ensures
        (a | m) & !(a | m) == 0,
        a & !(a | m) == 0,
        a & !a == 0,
{
}

proof fn lemma_or_kept(a: u8, m: u8)
    by (bit_vector)
    ensures
        a & !(a | m) == 0,
        a & !a == 0,
{
}

proof fn lemma_kept_trans(a: u8, b: u8, c: u8)
    by (bit_vector)
    requires
        a & !b == 0,
        b & !c == 0,
    ensures
        a & !c == 0,
{
}

proof fn lemma_or_keeps_pending(a: u8, m: u8, ie: u8)
    by (bit_vector)
    ensures
        a & ie != 0 ==> (a | m) & ie != 0,
{
}

proof fn lemma_pending_stays(a: u8, b: u8, ie: u8)
    by (bit_vector)
    requires
        a & !b == 0,
        a & ie != 0,
    ensures
        b & ie != 0,
{
}

} // verus!
