use vstd::prelude::*;
use crate::cpu::registers::{
    flag_of, pair, reg16_value, split_u16, with_reg16, wrap16, Flags, Reg16, Registers,
};
use crate::cpu::Cpu;
use crate::memorybus::{ram_cell, ram_loc, MemoryBus};
use crate::cpu::interrupt::{lemma_kept_chain, lemma_mask_unions, lemma_raised_chain};

verus! {

/// Jump and call conditions.
#[derive(Copy, Clone, Debug, PartialEq, Eq, Structural)]
pub enum Condition {
    NZ,
    NC,
    Z,
    C,
    Always,
}

/// Jump targets: a signed offset from the next instruction, an immediate
/// address, or HL.
#[derive(Copy, Clone, Debug, PartialEq, Eq, Structural)]
pub enum JpAddr {
    S8,
    A16,
    HL,
}

pub open spec fn condition_holds(f: u8, condition: Condition) -> bool {
    match condition {
        Condition::NZ => !flag_of(f, Flags::ZERO),
        Condition::NC => !flag_of(f, Flags::CARRY),
        Condition::Z => flag_of(f, Flags::ZERO),
        Condition::C => flag_of(f, Flags::CARRY),
        Condition::Always => true,
    }
}

/// The two bytes below `sp` are plain storage in distinct cells, so a push
/// there can be read back.
pub open spec fn stack_below(sp: u16) -> bool {
    &&& ram_loc(wrap16(sp - 1))
    &&& ram_loc(wrap16(sp - 2))
    &&& ram_cell(wrap16(sp - 1)) != ram_cell(wrap16(sp - 2))
}

/// The 16-bit value stored at `sp`, low byte first.
pub open spec fn stack_top(m: MemoryBus, sp: u16) -> u16 {
    pair(m.peek(wrap16(sp + 1)), m.peek(sp))
}

/// `d` is `c` after pushing `value`: the stack pointer went down by two,
/// three ticks passed (one of its own, one per byte), and, where the stack
/// is plain storage, `value` sits on top of it.
#[verifier::opaque]
pub open spec fn push_post(c: Cpu, d: Cpu, value: u16) -> bool {
    &&& d.wf()
    &&& d.same_control(&c)
    &&& d.reg == (Registers { sp: wrap16(c.reg.sp - 2), ..c.reg })
    &&& d.memory.pc == c.memory.pc
    &&& stack_below(c.reg.sp) ==> stack_top(d.memory, d.reg.sp) == value
        && d.memory.interrupt.ie == c.memory.interrupt.ie
        && c.memory.interrupt.iflag & !d.memory.interrupt.iflag == 0
        && d.memory.interrupt.iflag & !(c.memory.interrupt.iflag | 0x07) == 0
    &&& c.memory.cycle < 0x1_0000_0000_0000_0000 ==> d.memory.cycle == c.memory.cycle + 3
    &&& keeps_storage_except(c.memory, d.memory, wrap16(c.reg.sp - 1), wrap16(c.reg.sp - 2))
}

/// `b` holds what `a` holds in plain storage, except in the cells of `x`
/// and `y`.
pub open spec fn keeps_storage_except(a: MemoryBus, b: MemoryBus, x: u16, y: u16) -> bool {
    forall|l: u16|
        ram_loc(l) && ram_cell(l) != ram_cell(x) && ram_cell(l) != ram_cell(y) ==> #[trigger] b.peek(
            l,
        ) == a.peek(l)
}

/// `d` is `c` after popping the top of the stack into `target`.
#[verifier::opaque]
pub open spec fn pop_post(c: Cpu, d: Cpu, target: Reg16) -> bool {
    let value = stack_top(c.memory, c.reg.sp);
    &&& d.wf()
    &&& d.same_control(&c)
    &&& d.memory.pc == c.memory.pc
    &&& (ram_loc(c.reg.sp) && ram_loc(wrap16(c.reg.sp + 1))) ==> d.reg == with_reg16(
        Registers { sp: wrap16(c.reg.sp + 2), ..c.reg },
        target,
        value,
    )
}

/// A tick keeps what plain storage holds.
pub proof fn lemma_tick_keeps_storage(a: MemoryBus, b: MemoryBus, l: u16)
    requires
        MemoryBus::tick_rel(a, b),
        ram_loc(l),
    ensures
        b.peek(l) == a.peek(l),
{
}

impl Cpu {
    /// Disable interrupts at once.
    pub fn di(&mut self)
        ensures
            *final(self) == (Cpu { ime: false, ..*old(self) }),
    {
        self.ime = false;
    }

    /// Enable interrupts after the next instruction.
    pub fn ei(&mut self)
        ensures
            *final(self) == (Cpu { prepare_ime: old(self).prepare_ime || !old(self).ime, ..*old(self) }),
    {
        if !self.ime {
            self.prepare_ime = true;
        }
    }

    /// Call to the fixed address `value`.
    pub fn rst(&mut self, value: u8)
        requires
            old(self).wf(),
        ensures
            final(self).wf(),
            final(self).same_control(old(self)),
            final(self).memory.pc == value as u16,
            final(self).reg == (Registers { sp: wrap16(old(self).reg.sp - 2), ..old(self).reg }),
            stack_below(old(self).reg.sp) ==> stack_top(final(self).memory, final(self).reg.sp)
                == old(self).memory.pc,
            keeps_storage_except(
                old(self).memory,
                final(self).memory,
                wrap16(old(self).reg.sp - 1),
                wrap16(old(self).reg.sp - 2),
            ),
    {
        let pc = self.memory.pc;
        self.make_push(pc);
        proof {
            reveal(push_post);
        }
        let ghost pushed = *self;
        self.memory.tick();
        proof {
            reveal(push_post);
            lemma_wrap_back(old(self).reg.sp);
            assert forall|l: u16|
                ram_loc(l) && ram_cell(l) != ram_cell(wrap16(old(self).reg.sp - 1)) && ram_cell(l)
                    != ram_cell(wrap16(old(self).reg.sp - 2)) implies #[trigger] self.memory.peek(
                l,
            ) == old(self).memory.peek(l) by {
                assert(pushed.memory.peek(l) == old(self).memory.peek(l));
                lemma_tick_keeps_storage(pushed.memory, self.memory, l);
            }
            if stack_below(old(self).reg.sp) {
                lemma_tick_keeps_storage(pushed.memory, self.memory, self.reg.sp);
                lemma_tick_keeps_storage(pushed.memory, self.memory, wrap16(self.reg.sp + 1));
            }
        }
        let ghost ticked = self.memory;
        self.memory.pc = value as u16;
        proof {
            assert forall|l: u16|
                ram_loc(l) && ram_cell(l) != ram_cell(wrap16(old(self).reg.sp - 1)) && ram_cell(l)
                    != ram_cell(wrap16(old(self).reg.sp - 2)) implies #[trigger] self.memory.peek(
                l,
            ) == old(self).memory.peek(l) by {
                assert(ticked.peek(l) == old(self).memory.peek(l));
            }
        }
    }

    /// Call to the immediate address when `condition` holds.
    pub fn call(&mut self, condition: Condition)
        requires
            old(self).wf(),
        ensures
            final(self).wf(),
            final(self).same_control(old(self)),
            condition_holds(old(self).reg.f, condition) ==> final(self).reg == (Registers {
                sp: wrap16(old(self).reg.sp - 2),
                ..old(self).reg
            }) && (stack_below(old(self).reg.sp) ==> stack_top(
                final(self).memory,
                final(self).reg.sp,
            ) == wrap16(old(self).memory.pc + 2)),
            !condition_holds(old(self).reg.f, condition) ==> final(self).reg == old(self).reg
                && final(self).memory.pc == wrap16(old(self).memory.pc + 2),
            condition_holds(old(self).reg.f, condition) && ram_loc(old(self).memory.pc) && ram_loc(
                wrap16(old(self).memory.pc + 1),
            ) ==> final(self).memory.pc == pair(
                old(self).memory.peek(wrap16(old(self).memory.pc + 1)),
                old(self).memory.peek(old(self).memory.pc),
            ),
            !condition_holds(old(self).reg.f, condition) ==> final(self).memory.cartridge == old(self).memory.cartridge && final(self).memory.wram == old(self).memory.wram && final(self).memory.hram == old(self).memory.hram,
            condition_holds(old(self).reg.f, condition) ==> keeps_storage_except(
                old(self).memory,
                final(self).memory,
                wrap16(old(self).reg.sp - 1),
                wrap16(old(self).reg.sp - 2),
            ),
    {
        let addr = self.memory.fetch_next_word();
        if self.should_jump(condition) {
            self.make_call(addr);
        }
    }

    fn make_call(&mut self, addr: u16)
        requires
            old(self).wf(),
        ensures
            final(self).wf(),
            final(self).same_control(old(self)),
            final(self).memory.pc == addr,
            final(self).reg == (Registers { sp: wrap16(old(self).reg.sp - 2), ..old(self).reg }),
            stack_below(old(self).reg.sp) ==> stack_top(final(self).memory, final(self).reg.sp)
                == old(self).memory.pc,
            keeps_storage_except(
                old(self).memory,
                final(self).memory,
                wrap16(old(self).reg.sp - 1),
                wrap16(old(self).reg.sp - 2),
            ),
    {
        let pc = self.memory.pc;
        self.make_push(pc);
        proof {
            reveal(push_post);
        }
        let ghost pushed = *self;
        self.jump_to_addr(addr);
        proof {
            reveal(push_post);
            lemma_wrap_back(old(self).reg.sp);
            assert forall|l: u16|
                ram_loc(l) && ram_cell(l) != ram_cell(wrap16(old(self).reg.sp - 1)) && ram_cell(l)
                    != ram_cell(wrap16(old(self).reg.sp - 2)) implies #[trigger] self.memory.peek(
                l,
            ) == old(self).memory.peek(l) by {
                assert(pushed.memory.peek(l) == old(self).memory.peek(l));
                assert(MemoryBus { pc: addr, ..pushed.memory }.peek(l) == pushed.memory.peek(l));
                lemma_tick_keeps_storage(MemoryBus { pc: addr, ..pushed.memory }, self.memory, l);
            }
            if stack_below(old(self).reg.sp) {
                lemma_tick_keeps_storage(
                    MemoryBus { pc: addr, ..pushed.memory },
                    self.memory,
                    self.reg.sp,
                );
                lemma_tick_keeps_storage(
                    MemoryBus { pc: addr, ..pushed.memory },
                    self.memory,
                    wrap16(self.reg.sp + 1),
                );
            }
        }
    }

    /// Return when `condition` holds; a conditional return spends one more
    /// tick on the test.
    pub fn ret(&mut self, condition: Condition)
        requires
            old(self).wf(),
        ensures
            final(self).wf(),
            final(self).same_control(old(self)),
            !condition_holds(old(self).reg.f, condition) ==> final(self).reg == old(self).reg
                && final(self).memory.pc == old(self).memory.pc,
            condition_holds(old(self).reg.f, condition) ==> final(self).reg == (Registers {
                sp: wrap16(old(self).reg.sp + 2),
                ..old(self).reg
            }),
            condition_holds(old(self).reg.f, condition) && ram_loc(old(self).reg.sp) && ram_loc(
                wrap16(old(self).reg.sp + 1),
            ) ==> final(self).memory.pc == stack_top(old(self).memory, old(self).reg.sp),
    {
        if condition != Condition::Always {
            self.memory.tick();
        }
        if self.should_jump(condition) {
            self.make_ret();
        }
    }

    fn make_ret(&mut self)
        requires
            old(self).wf(),
        ensures
            final(self).wf(),
            final(self).same_control(old(self)),
            final(self).reg == (Registers { sp: wrap16(old(self).reg.sp + 2), ..old(self).reg }),
            ram_loc(old(self).reg.sp) && ram_loc(wrap16(old(self).reg.sp + 1))
                ==> final(self).memory.pc == stack_top(old(self).memory, old(self).reg.sp),
    {
        let addr = self.make_pop();
        self.jump_to_addr(addr);
    }

    /// Return from an interrupt handler: a return that also enables
    /// interrupts.
    pub fn reti(&mut self)
        requires
            old(self).wf(),
        ensures
            final(self).wf(),
            final(self).ime,
            final(self).reg == (Registers { sp: wrap16(old(self).reg.sp + 2), ..old(self).reg }),
            ram_loc(old(self).reg.sp) && ram_loc(wrap16(old(self).reg.sp + 1))
                ==> final(self).memory.pc == stack_top(old(self).memory, old(self).reg.sp),
    {
        self.make_ret();
        self.ime = true;
    }

    /// Pops the top of the stack into `target`; popping into AF clears the
    /// unused low nibble of the flags.
    pub fn pop(&mut self, target: Reg16)
        requires
            old(self).wf(),
        ensures
            final(self).wf(),
            final(self).same_control(old(self)),
            pop_post(*old(self), *final(self), target),
    {
        let value = self.make_pop();
        proof {
            reveal(pop_post);
        }
        match target {
            Reg16::AF => self.reg.set_af(value),
            Reg16::BC => self.reg.set_bc(value),
            Reg16::HL => self.reg.set_hl(value),
            Reg16::DE => self.reg.set_de(value),
            Reg16::SP => self.reg.sp = value,
        }
    }

    fn make_pop(&mut self) -> (r: u16)
        requires
            old(self).wf(),
        ensures
            final(self).wf(),
            final(self).same_control(old(self)),
            final(self).reg == (Registers { sp: wrap16(old(self).reg.sp + 2), ..old(self).reg }),
            final(self).memory.pc == old(self).memory.pc,
            ram_loc(old(self).reg.sp) && ram_loc(wrap16(old(self).reg.sp + 1)) ==> r == stack_top(
                old(self).memory,
                old(self).reg.sp,
            ),
    {
        let lo = self.memory.fetch_byte(self.reg.sp);
        proof {
            if ram_loc(old(self).reg.sp) {
                lemma_tick_keeps_storage(old(self).memory, self.memory, old(self).reg.sp);
            }
            if ram_loc(wrap16(old(self).reg.sp + 1)) {
                lemma_tick_keeps_storage(old(self).memory, self.memory, wrap16(old(self).reg.sp + 1));
            }
        }
        self.reg.inc_sp();
        let ghost m1 = self.memory;
        let hi = self.memory.fetch_byte(self.reg.sp);
        proof {
            if ram_loc(wrap16(old(self).reg.sp + 1)) {
                lemma_tick_keeps_storage(m1, self.memory, wrap16(old(self).reg.sp + 1));
            }
        }
        self.reg.inc_sp();
        proof {
            lemma_wrap_add(old(self).reg.sp);
        }
        pair_u16(hi, lo)
    }

    /// Pushes the value of a 16-bit register.
    pub fn push(&mut self, target: Reg16)
        requires
            old(self).wf(),
        ensures
            final(self).wf(),
            final(self).same_control(old(self)),
            push_post(*old(self), *final(self), reg16_value(old(self).reg, target)),
    {
        let value = self.read16(target);
        self.make_push(value);
    }

    /// Spends one tick, then stores `value` below the stack pointer, high
    /// byte first.
    pub fn make_push(&mut self, value: u16)
        requires
            old(self).wf(),
        ensures
            final(self).wf(),
            final(self).same_control(old(self)),
            push_post(*old(self), *final(self), value),
    {
        let (hi, lo) = split_u16(value);
        self.memory.tick();
        let ghost m0 = self.memory;
        self.reg.dec_sp();
        let sp1 = self.reg.sp;
        self.memory.write_byte(sp1, hi);
        let ghost m1 = self.memory;
        self.reg.dec_sp();
        let sp2 = self.reg.sp;
        self.memory.write_byte(sp2, lo);
        proof {
            reveal(push_post);
            lemma_wrap_sub(old(self).reg.sp);
            let mid = choose|mid: MemoryBus|
                MemoryBus::tick_rel(m1, mid) && #[trigger] MemoryBus::write_rel(
                    mid,
                    self.memory,
                    sp2,
                    lo,
                );
            let mid0 = choose|mid0: MemoryBus|
                MemoryBus::tick_rel(m0, mid0) && #[trigger] MemoryBus::write_rel(mid0, m1, sp1, hi);
            assert forall|l: u16|
                ram_loc(l) && ram_cell(l) != ram_cell(sp1) && ram_cell(l) != ram_cell(sp2) implies #[trigger] self.memory.peek(
                l,
            ) == old(self).memory.peek(l) by {
                lemma_tick_keeps_storage(old(self).memory, m0, l);
                lemma_tick_keeps_storage(m0, mid0, l);
                lemma_tick_keeps_storage(m1, mid, l);
            }
            if stack_below(old(self).reg.sp) {
                let mid = choose|mid: MemoryBus|
                    MemoryBus::tick_rel(m1, mid) && #[trigger] MemoryBus::write_rel(
                        mid,
                        self.memory,
                        sp2,
                        lo,
                    );
                lemma_tick_keeps_storage(m1, mid, sp1);
                let f0 = old(self).memory.interrupt.iflag;
                lemma_kept_chain(f0, m0.interrupt.iflag, mid0.interrupt.iflag);
                lemma_kept_chain(f0, mid0.interrupt.iflag, mid.interrupt.iflag);
                lemma_raised_chain(f0, m0.interrupt.iflag, mid0.interrupt.iflag, 0x07, 0x07);
                lemma_mask_unions();
                lemma_raised_chain(f0, mid0.interrupt.iflag, mid.interrupt.iflag, 0x07, 0x07);
                assert(self.memory.peek(sp1) == hi);
                assert(self.memory.peek(sp2) == lo);
                assert(wrap16(sp2 + 1) == sp1);
            }
        }
    }

    pub fn halt(&mut self)
        ensures
            *final(self) == (Cpu { halted: true, ..*old(self) }),
    {
        self.halted = true;
    }

    /// Jump when `condition` holds; the operand is fetched either way.
    pub fn jump(&mut self, condition: Condition, addr: JpAddr)
        requires
            old(self).wf(),
        ensures
            final(self).wf(),
            final(self).same_control(old(self)),
            final(self).reg == old(self).reg,
            addr == JpAddr::HL && condition_holds(old(self).reg.f, condition) ==> final(self).memory.pc == pair(old(self).reg.h, old(self).reg.l),
            addr == JpAddr::S8 && !condition_holds(old(self).reg.f, condition) ==> final(self).memory.pc == wrap16(old(self).memory.pc + 1),
            addr == JpAddr::A16 && !condition_holds(old(self).reg.f, condition) ==> final(self).memory.pc == wrap16(old(self).memory.pc + 2),
            addr == JpAddr::S8 && condition_holds(old(self).reg.f, condition) && ram_loc(
                old(self).memory.pc,
            ) ==> final(self).memory.pc == crate::cpu::alu::sp_plus(
                wrap16(old(self).memory.pc + 1),
                old(self).memory.peek(old(self).memory.pc),
            ),
            addr == JpAddr::A16 && condition_holds(old(self).reg.f, condition) && ram_loc(
                old(self).memory.pc,
            ) && ram_loc(wrap16(old(self).memory.pc + 1)) ==> final(self).memory.pc == pair(
                old(self).memory.peek(wrap16(old(self).memory.pc + 1)),
                old(self).memory.peek(old(self).memory.pc),
            ),
            addr == JpAddr::S8 && condition_holds(old(self).reg.f, condition) ==> exists|v: u8|
                #![trigger crate::cpu::alu::sp_plus(wrap16(old(self).memory.pc + 1), v)]
                final(self).memory.pc == crate::cpu::alu::sp_plus(
                    wrap16(old(self).memory.pc + 1),
                    v,
                ),
    {
        let target = match addr {
            JpAddr::HL => self.reg.hl(),
            JpAddr::S8 => {
                let offset = self.memory.fetch_next_byte();
                let pc = self.memory.pc;
                crate::cpu::alu::add_signed(pc, offset)
            },
            JpAddr::A16 => self.memory.fetch_next_word(),
        };
        if self.should_jump(condition) {
            self.jump_to_addr(target);
        }
    }

    fn should_jump(&self, condition: Condition) -> (r: bool)
        ensures
            r == condition_holds(self.reg.f, condition),
    {
        match condition {
            Condition::NZ => !self.reg.is_flag(Flags::ZERO),
            Condition::NC => !self.reg.is_flag(Flags::CARRY),
            Condition::Z => self.reg.is_flag(Flags::ZERO),
            Condition::C => self.reg.is_flag(Flags::CARRY),
            Condition::Always => true,
        }
    }

    fn jump_to_addr(&mut self, addr: u16)
        requires
            old(self).wf(),
        ensures
            final(self).wf(),
            final(self).same_control(old(self)),
            final(self).reg == old(self).reg,
            final(self).memory.pc == addr,
            MemoryBus::tick_rel(MemoryBus { pc: addr, ..old(self).memory }, final(self).memory),
    {
        self.memory.pc = addr;
        self.memory.tick();
    }
}

fn pair_u16(hi: u8, lo: u8) -> (r: u16)
    ensures
        r == pair(hi, lo),
{
    hi as u16 * 256 + lo as u16
}

proof fn lemma_wrap_sub(sp: u16)
    ensures
        wrap16(wrap16(sp - 1) - 1) == wrap16(sp - 2),
        wrap16(wrap16(sp - 2) + 1) == wrap16(sp - 1),
{
}

proof fn lemma_wrap_add(sp: u16)
    ensures
        wrap16(wrap16(sp + 1) + 1) == wrap16(sp + 2),
{
}

proof fn lemma_wrap_back(sp: u16)
    ensures
        wrap16(wrap16(sp - 2) + 1) == wrap16(sp - 1),
{
}

/// Pushing a register pair and popping it into another register pair moves
/// the value unchanged and brings the stack pointer back, when the two
/// stack bytes are plain storage. Popping into AF drops the four low bits,
/// which hold no flag, so the value must have them clear.
pub proof fn lemma_push_pop_round_trip(c0: Cpu, c1: Cpu, c2: Cpu, source: Reg16, target: Reg16)
    requires
        source != Reg16::SP,
        target != Reg16::SP,
        push_post(c0, c1, reg16_value(c0.reg, source)),
        pop_post(c1, c2, target),
        stack_below(c0.reg.sp),
        target == Reg16::AF ==> reg16_value(c0.reg, source) % 16 == 0,
    ensures
        reg16_value(c2.reg, target) == reg16_value(c0.reg, source),
        c2.reg.sp == c0.reg.sp,
{
    reveal(push_post);
    reveal(pop_post);
    lemma_wrap_back(c0.reg.sp);
    let v = reg16_value(c0.reg, source);
    if target == Reg16::AF {
        let lo = (v % 256) as u8;
        assert(lo & 0xF0 == lo) by (bit_vector)
            requires
                lo % 16 == 0,
        ;
    }
    assert(wrap16(wrap16(c0.reg.sp - 2) + 2) == c0.reg.sp);
}

} // verus!
