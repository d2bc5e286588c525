use vstd::prelude::*;
use crate::cpu::alu::{add_signed, sp_plus};
use crate::cpu::read_write_cpu::{
    after_address, imm_address, imm_ready, is_direct, is_reg_address, operand_value, read_effect,
    reg_address, Addr, Operand,
};
use crate::cpu::registers::{
    flag_bits, pair, reg8_value, test_carry_8, test_half_carry_8, with_reg16, with_reg8, wrap16,
    Reg16, Registers,
};
use crate::cpu::Cpu;
use crate::memorybus::{ram_cell, ram_loc, MemoryBus};

verus! {

impl Cpu {
    /// Stores the stack pointer at the immediate address, low byte first.
    pub fn load_imm16_sp(&mut self)
        requires
            old(self).wf(),
        ensures
            final(self).wf(),
            final(self).same_control(old(self)),
            store_sp_post(*old(self), *final(self)),
    {
        let loc = self.memory.fetch_next_word();
        self.memory.write_word(loc, self.reg.sp);
    }

    /// HL becomes the stack pointer plus the signed immediate byte; the
    /// flags come from the low byte. Takes one extra tick.
    #[verifier::spinoff_prover]
    #[verifier::rlimit(60)]
    pub fn load_hl_sp_imm8(&mut self)
        requires
            old(self).wf(),
        ensures
            final(self).wf(),
            final(self).same_control(old(self)),
            final(self).memory.pc == wrap16(old(self).memory.pc + 1),
            exists|v: u8|
                #![trigger sp_plus(old(self).reg.sp, v)]
                {
                    &&& final(self).reg == hl_sp_regs(old(self).reg, v)
                    &&& ram_loc(old(self).memory.pc) ==> v == old(self).memory.peek(
                        old(self).memory.pc,
                    )
                },
    {
        let addend = self.memory.fetch_next_byte();
        let sp = self.reg.sp;
        let result = add_signed(sp, addend);
        self.reg.set_hl(result);
        self.memory.tick();
        let carry = test_carry_8((sp % 256) as u8, addend, 0);
        let half_carry = test_half_carry_8((sp % 256) as u8, addend, 0);
        self.reg.set_flags(false, false, half_carry, carry);
        assert(sp_plus(old(self).reg.sp, addend) == result);
        assert(self.reg == hl_sp_regs(old(self).reg, addend));
        assert(self.reg == (Registers {
            f: flag_bits(
                false,
                false,
                old(self).reg.sp % 16 + addend % 16 > 15,
                old(self).reg.sp % 256 + addend > 255,
            ),
            ..with_reg16(old(self).reg, Reg16::HL, sp_plus(old(self).reg.sp, addend))
        }));
    }

    /// The stack pointer becomes HL. Takes one extra tick.
    pub fn load_sp_hl(&mut self)
        requires
            old(self).wf(),
        ensures
            final(self).wf(),
            final(self).same_control(old(self)),
            final(self).reg == (Registers { sp: pair(old(self).reg.h, old(self).reg.l), ..old(self).reg }),
            MemoryBus::tick_rel(old(self).memory, final(self).memory),
    {
        self.reg.sp = self.reg.hl();
        self.memory.tick();
    }

    /// Loads the immediate 16-bit value into `target`.
    pub fn load16_imm(&mut self, target: Reg16)
        requires
            old(self).wf(),
        ensures
            final(self).wf(),
            final(self).same_control(old(self)),
            final(self).memory.pc == wrap16(old(self).memory.pc + 2),
            ram_loc(old(self).memory.pc) && ram_loc(wrap16(old(self).memory.pc + 1))
                ==> final(self).reg == with_reg16(
                old(self).reg,
                target,
                pair(
                    old(self).memory.peek(wrap16(old(self).memory.pc + 1)),
                    old(self).memory.peek(old(self).memory.pc),
                ),
            ),
    {
        let value = self.memory.fetch_next_word();
        self.write16(target, value);
    }

    /// Copies an 8-bit operand into another.
    pub fn load(&mut self, target: Operand, src: Operand)
        requires
            old(self).wf(),
        ensures
            final(self).wf(),
            final(self).same_control(old(self)),
            load_post(*old(self), *final(self), target, src),
    {
        let src_value = self.read(src);
        let ghost e = *self;
        self.write(target, src_value);
        proof {
            assert(read_effect(*old(self), e, src));
            reveal(load_post);
            if src matches Operand::Imm(_) && target == Operand::Mem(Addr::HL) && ram_loc(
                old(self).memory.pc,
            ) {
                let mid = choose|mid: MemoryBus|
                    MemoryBus::tick_rel(e.memory, mid) && #[trigger] MemoryBus::write_rel(
                        mid,
                        self.memory,
                        reg_address(e.reg, Addr::HL),
                        src_value,
                    );
                crate::cpu::flow::lemma_tick_keeps_storage(
                    old(self).memory,
                    MemoryBus { pc: old(self).memory.pc, ..e.memory },
                    old(self).memory.pc,
                );
                assert(src_value == old(self).memory.peek(old(self).memory.pc));
                assert(e.memory.same_storage(&MemoryBus { pc: e.memory.pc, ..old(self).memory }));
                assert(MemoryBus::tick_rel(e.memory, mid));
            }
        }
    }
}

/// Registers after HL takes the stack pointer plus the signed byte `v`;
/// the flags come from the low byte.
pub open spec fn hl_sp_regs(r: Registers, v: u8) -> Registers {
    Registers {
        f: flag_bits(false, false, r.sp % 16 + v % 16 > 15, r.sp % 256 + v > 255),
        ..with_reg16(r, Reg16::HL, sp_plus(r.sp, v))
    }
}

/// `d` is `c` after storing the stack pointer at the immediate address:
/// where the operand and the two target bytes are plain storage, the
/// target holds the stack pointer, low byte first.
pub open spec fn store_sp_post(c: Cpu, d: Cpu) -> bool {
    let pc = c.memory.pc;
    let loc = pair(c.memory.peek(wrap16(pc + 1)), c.memory.peek(pc));
    &&& d.reg == c.reg
    &&& d.memory.pc == wrap16(pc + 2)
    &&& ram_loc(pc) && ram_loc(wrap16(pc + 1)) && ram_loc(loc) && ram_loc(wrap16(loc + 1))
        && ram_cell(loc) != ram_cell(wrap16(loc + 1)) ==> pair(
        d.memory.peek(wrap16(loc + 1)),
        d.memory.peek(loc),
    ) == c.reg.sp
}

/// The result of copying `src` into `target`: a register target receives the
/// value read; a register source is stored at the address of a memory
/// target.
#[verifier::opaque]
pub open spec fn load_post(c: Cpu, d: Cpu, target: Operand, src: Operand) -> bool {
    &&& d.wf()
    &&& d.same_control(&c)
    &&& target matches Operand::Reg(t) ==> is_direct(src) ==> exists|e: Cpu|
        #![trigger read_effect(c, e, src)]
        {
            &&& read_effect(c, e, src)
            &&& d.memory == e.memory
            &&& d.reg == with_reg8(e.reg, t, operand_value(c, e, src))
        }
    &&& src matches Operand::Reg(s) ==> target matches Operand::Mem(a) ==> is_reg_address(a) ==> {
        &&& d.reg == after_address(c.reg, a)
        &&& exists|mid: MemoryBus|
            MemoryBus::tick_rel(c.memory, mid) && #[trigger] MemoryBus::write_rel(
                mid,
                d.memory,
                reg_address(c.reg, a),
                reg8_value(c.reg, s),
            )
    }
    &&& src matches Operand::Reg(s) ==> target matches Operand::Mem(a) ==> !is_reg_address(a)
        && imm_ready(c, a) ==> {
        &&& d.reg == c.reg
        &&& exists|m1: MemoryBus, mid: MemoryBus|
            #![trigger MemoryBus::write_rel(mid, d.memory, imm_address(c, a), reg8_value(c.reg, s)), MemoryBus::tick_rel(m1, mid)]
            m1.same_storage(&MemoryBus { pc: m1.pc, ..c.memory }) && MemoryBus::tick_rel(m1, mid)
                && MemoryBus::write_rel(mid, d.memory, imm_address(c, a), reg8_value(c.reg, s))
    }
    &&& src matches Operand::Imm(_) ==> target == Operand::Mem(Addr::HL) ==> ram_loc(c.memory.pc) ==> {
        &&& d.reg == c.reg
        &&& d.memory.pc == wrap16(c.memory.pc + 1)
        &&& exists|m1: MemoryBus, mid: MemoryBus|
            #![trigger MemoryBus::write_rel(mid, d.memory, reg_address(c.reg, Addr::HL), c.memory.peek(c.memory.pc)), MemoryBus::tick_rel(m1, mid)]
            m1.same_storage(&MemoryBus { pc: m1.pc, ..c.memory }) && MemoryBus::tick_rel(m1, mid)
                && MemoryBus::write_rel(
                mid,
                d.memory,
                reg_address(c.reg, Addr::HL),
                c.memory.peek(c.memory.pc),
            )
    }
}

} // verus!
