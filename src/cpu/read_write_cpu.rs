use vstd::prelude::*;
use crate::cpu::registers::{pair, reg8_value, with_reg16, wrap16, Reg16, Reg8, Registers};
use crate::cpu::Cpu;
use crate::memorybus::{ram_loc, MemoryBus};

verus! {

/// Memory operands: through a register pair (`HLI`/`HLD` then step HL up
/// or down), through an immediate 16-bit address, or in the top page at an
/// immediate offset (`ZeroPage`) or at offset C (`ZeroPageC`).
#[derive(Copy, Clone, Debug, PartialEq, Eq, Structural)]
pub enum Addr {
    BC,
    DE,
    HL,
    HLI,
    HLD,
    Imm16,
    ZeroPage,
    ZeroPageC,
}

/// The immediate byte following the opcode.
#[derive(Copy, Clone, Debug, PartialEq, Eq, Structural)]
pub struct Imm8;

/// An 8-bit operand of an instruction.
#[derive(Copy, Clone, Debug, PartialEq, Eq, Structural)]
pub enum Operand {
    Reg(Reg8),
    Mem(Addr),
    Imm(Imm8),
}

/// Address of a memory operand that registers alone determine.
pub open spec fn reg_address(r: Registers, a: Addr) -> u16 {
    match a {
        Addr::BC => pair(r.b, r.c),
        Addr::DE => pair(r.d, r.e),
        Addr::ZeroPageC => (0xFF00 + r.c) as u16,
        _ => pair(r.h, r.l),
    }
}

/// Bytes of immediate address that `a` takes after the opcode.
pub open spec fn imm_length(a: Addr) -> int {
    if a == Addr::Imm16 {
        2
    } else if a == Addr::ZeroPage {
        1
    } else {
        0
    }
}

/// The immediate bytes of `a` lie in plain storage, so their values are
/// those `c` holds.
pub open spec fn imm_ready(c: Cpu, a: Addr) -> bool {
    &&& ram_loc(c.memory.pc)
    &&& a == Addr::Imm16 ==> ram_loc(wrap16(c.memory.pc + 1))
}

/// Address of `a` formed from the immediate bytes after the opcode: a full
/// 16-bit address, low byte first, or an offset into the top page.
pub open spec fn imm_address(c: Cpu, a: Addr) -> u16 {
    if a == Addr::Imm16 {
        pair(c.memory.peek(wrap16(c.memory.pc + 1)), c.memory.peek(c.memory.pc))
    } else {
        (0xFF00 + c.memory.peek(c.memory.pc)) as u16
    }
}

/// Register file after the address of `a` was formed (HL steps for
/// `HLI`/`HLD`).
pub open spec fn after_address(r: Registers, a: Addr) -> Registers {
    match a {
        Addr::HLI => with_reg16(r, Reg16::HL, wrap16(pair(r.h, r.l) + 1)),
        Addr::HLD => with_reg16(r, Reg16::HL, wrap16(pair(r.h, r.l) - 1)),
        _ => r,
    }
}

/// The address of `a` needs no immediate bytes.
pub open spec fn is_reg_address(a: Addr) -> bool {
    a != Addr::Imm16 && a != Addr::ZeroPage
}

/// An operand whose value the contracts below state exactly.
pub open spec fn is_direct(src: Operand) -> bool {
    match src {
        Operand::Mem(a) => is_reg_address(a),
        _ => true,
    }
}

/// Value that reading `src` from state `c` produced, given the state `d`
/// right after the read.
pub open spec fn operand_value(c: Cpu, d: Cpu, src: Operand) -> u8 {
    match src {
        Operand::Reg(r) => reg8_value(c.reg, r),
        Operand::Mem(a) => d.memory.peek(reg_address(c.reg, a)),
        Operand::Imm(_) => d.memory.peek(c.memory.pc),
    }
}

/// Bus and registers after reading `src` from `c`, apart from the value.
pub open spec fn read_effect(c: Cpu, d: Cpu, src: Operand) -> bool {
    match src {
        Operand::Reg(_) => d.memory == c.memory && d.reg == c.reg,
        Operand::Mem(a) => is_reg_address(a) ==> {
            &&& MemoryBus::tick_rel(c.memory, d.memory)
            &&& d.reg == after_address(c.reg, a)
        },
        Operand::Imm(_) => {
            &&& MemoryBus::tick_rel(c.memory, MemoryBus { pc: c.memory.pc, ..d.memory })
            &&& d.memory.pc == wrap16(c.memory.pc + 1)
            &&& d.reg == c.reg
        },
    }
}

impl Cpu {
    /// The interrupt and halt state of `self` and `other` agree.
    pub open spec fn same_control(&self, other: &Cpu) -> bool {
        &&& self.ime == other.ime
        &&& self.prepare_ime == other.prepare_ime
        &&& self.halted == other.halted
        &&& self.pause == other.pause
        &&& self.fault == other.fault
    }

    /// Forms the address of a memory operand, fetching immediate bytes and
    /// stepping HL as the operand asks.
    pub fn address(&mut self, a: Addr) -> (r: u16)
        requires
            old(self).wf(),
        ensures
            final(self).wf(),
            final(self).same_control(old(self)),
            is_reg_address(a) ==> r == reg_address(old(self).reg, a) && final(self).reg
                == after_address(old(self).reg, a) && final(self).memory == old(self).memory,
            !is_reg_address(a) ==> final(self).reg == old(self).reg && final(self).memory.pc
                == wrap16(old(self).memory.pc + imm_length(a)),
            !is_reg_address(a) && imm_ready(*old(self), a) ==> r == imm_address(*old(self), a),
            !is_reg_address(a) ==> final(self).memory.same_storage(
                &MemoryBus { pc: final(self).memory.pc, ..old(self).memory },
            ),
    {
        match a {
            Addr::BC => self.reg.bc(),
            Addr::DE => self.reg.de(),
            Addr::HL => self.reg.hl(),
            Addr::HLI => {
                let hl = self.reg.hl();
                self.reg.set_hl(hl.wrapping_add(1));
                hl
            },
            Addr::HLD => {
                let hl = self.reg.hl();
                self.reg.set_hl(hl.wrapping_sub(1));
                hl
            },
            Addr::Imm16 => self.memory.fetch_next_word(),
            Addr::ZeroPage => {
                let low = self.memory.fetch_next_byte();
                0xFF00 + low as u16
            },
            Addr::ZeroPageC => 0xFF00 + self.reg.c as u16,
        }
    }

    /// Reads an 8-bit operand.
    pub fn read(&mut self, src: Operand) -> (r: u8)
        requires
            old(self).wf(),
        ensures
            final(self).wf(),
            final(self).same_control(old(self)),
            read_effect(*old(self), *final(self), src),
            is_direct(src) ==> r == operand_value(*old(self), *final(self), src),
            src matches Operand::Mem(a) ==> !is_reg_address(a) ==> final(self).reg == old(self).reg
                && (imm_ready(*old(self), a) ==> r == final(self).memory.peek(
                imm_address(*old(self), a),
            )),
    {
        match src {
            Operand::Reg(r) => self.read_reg(r),
            Operand::Mem(a) => {
                let at = self.address(a);
                self.memory.fetch_byte(at)
            },
            Operand::Imm(_) => self.memory.fetch_next_byte(),
        }
    }

    pub fn read_reg(&self, r: Reg8) -> (v: u8)
        ensures
            v == reg8_value(self.reg, r),
    {
        match r {
            Reg8::A => self.reg.a,
            Reg8::B => self.reg.b,
            Reg8::C => self.reg.c,
            Reg8::D => self.reg.d,
            Reg8::E => self.reg.e,
            Reg8::H => self.reg.h,
            Reg8::L => self.reg.l,
        }
    }

    pub fn write_reg(&mut self, r: Reg8, value: u8)
        ensures
            final(self).reg == crate::cpu::registers::with_reg8(old(self).reg, r, value),
            final(self).memory == old(self).memory,
            final(self).same_control(old(self)),
    {
        match r {
            Reg8::A => self.reg.a = value,
            Reg8::B => self.reg.b = value,
            Reg8::C => self.reg.c = value,
            Reg8::D => self.reg.d = value,
            Reg8::E => self.reg.e = value,
            Reg8::H => self.reg.h = value,
            Reg8::L => self.reg.l = value,
        }
    }

    /// Writes an 8-bit operand.
    pub fn write(&mut self, target: Operand, value: u8)
        requires
            old(self).wf(),
        ensures
            final(self).wf(),
            final(self).same_control(old(self)),
            target matches Operand::Reg(r) ==> final(self).reg
                == crate::cpu::registers::with_reg8(old(self).reg, r, value) && final(self).memory
                == old(self).memory,
            target matches Operand::Mem(a) ==> is_reg_address(a) ==> {
                &&& final(self).reg == after_address(old(self).reg, a)
                &&& exists|mid: MemoryBus|
                    MemoryBus::tick_rel(old(self).memory, mid) && #[trigger] MemoryBus::write_rel(
                        mid,
                        final(self).memory,
                        reg_address(old(self).reg, a),
                        value,
                    )
            },
            target matches Operand::Mem(a) ==> !is_reg_address(a) ==> {
                &&& final(self).reg == old(self).reg
                &&& imm_ready(*old(self), a) ==> exists|m1: MemoryBus, mid: MemoryBus|
                    #![trigger MemoryBus::write_rel(mid, final(self).memory, imm_address(*old(self), a), value), MemoryBus::tick_rel(m1, mid)]
                    m1.same_storage(&MemoryBus { pc: m1.pc, ..old(self).memory })
                        && MemoryBus::tick_rel(m1, mid) && MemoryBus::write_rel(
                        mid,
                        final(self).memory,
                        imm_address(*old(self), a),
                        value,
                    )
            },
            target matches Operand::Imm(_) ==> final(self).reg == old(self).reg && exists|
                mid: MemoryBus,
            |
                MemoryBus::tick_rel(old(self).memory, mid) && #[trigger] MemoryBus::write_rel(
                    mid,
                    final(self).memory,
                    old(self).memory.pc,
                    value,
                ),
    {
        match target {
            Operand::Reg(r) => self.write_reg(r, value),
            Operand::Mem(a) => {
                let at = self.address(a);
                let ghost m1 = self.memory;
                self.memory.write_byte(at, value);
                proof {
                    if !is_reg_address(a) && imm_ready(*old(self), a) {
                        let mid = choose|mid: MemoryBus|
                            MemoryBus::tick_rel(m1, mid) && #[trigger] MemoryBus::write_rel(
                                mid,
                                self.memory,
                                at,
                                value,
                            );
                        assert(MemoryBus::tick_rel(m1, mid));
                    }
                }
            },
            Operand::Imm(_) => {
                let pc = self.memory.pc;
                self.memory.write_byte(pc, value);
            },
        }
    }

    /// Reads a 16-bit register.
    pub fn read16(&self, source: Reg16) -> (r: u16)
        ensures
            r == crate::cpu::registers::reg16_value(self.reg, source),
    {
        match source {
            Reg16::BC => self.reg.bc(),
            Reg16::DE => self.reg.de(),
            Reg16::HL => self.reg.hl(),
            Reg16::SP => self.reg.sp,
            Reg16::AF => self.reg.af(),
        }
    }

    /// Writes a 16-bit register.
    pub fn write16(&mut self, target: Reg16, value: u16)
        ensures
            final(self).reg == with_reg16(old(self).reg, target, value),
            final(self).memory == old(self).memory,
            final(self).same_control(old(self)),
    {
        match target {
            Reg16::BC => self.reg.set_bc(value),
            Reg16::DE => self.reg.set_de(value),
            Reg16::HL => self.reg.set_hl(value),
            Reg16::SP => self.reg.sp = value,
            Reg16::AF => self.reg.set_af(value),
        }
    }
}

} // verus!
