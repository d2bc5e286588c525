use vstd::prelude::*;
use crate::cpu::alu::{alu_post, carry_in, AluOp};
use crate::cpu::read_write_cpu::{is_direct, read_effect, reg_address, Addr, Operand};
use crate::cpu::registers::{flag_bits, flag_of, reg8_value, with_reg8, wrap8, Flags, Reg8, Registers};
use crate::cpu::Cpu;
use crate::memorybus::MemoryBus;

verus! {

/// Operand picked by the three low bits of an extended opcode.
pub open spec fn cb_operand(opcode: u8) -> Operand {
    let k = opcode % 8;
    if k == 0 {
        Operand::Reg(Reg8::B)
    } else if k == 1 {
        Operand::Reg(Reg8::C)
    } else if k == 2 {
        Operand::Reg(Reg8::D)
    } else if k == 3 {
        Operand::Reg(Reg8::E)
    } else if k == 4 {
        Operand::Reg(Reg8::H)
    } else if k == 5 {
        Operand::Reg(Reg8::L)
    } else if k == 6 {
        Operand::Mem(Addr::HL)
    } else {
        Operand::Reg(Reg8::A)
    }
}

/// Bit number picked by bits 3 to 5 of an extended opcode.
pub open spec fn cb_bit(opcode: u8) -> u8 {
    ((opcode / 8) % 8) as u8
}

/// The read-modify-write instructions.
#[derive(Copy, Clone, Debug, PartialEq, Eq, Structural)]
pub enum RmwOp {
    Swap,
    SetBit(u8),
    ResetBit(u8),
    Srl,
    Sra,
    Sla,
    Rlc,
    Rl,
    Rrc,
    Rr,
    Inc,
    Dec,
}

/// Value written back and new flag byte of `op` on the value `v` read,
/// with the registers `regs` from before the instruction.
pub open spec fn rmw_out(op: RmwOp, v: u8, regs: Registers) -> (u8, u8) {
    match op {
        RmwOp::Swap => {
            let res = ((v % 16) * 16 + v / 16) as u8;
            (res, shift_flags(res, false))
        },
        RmwOp::SetBit(b) => (v | (1u8 << b), regs.f),
        RmwOp::ResetBit(b) => (v & !(1u8 << b), regs.f),
        RmwOp::Srl => ((v / 2) as u8, shift_flags((v / 2) as u8, v % 2 == 1)),
        RmwOp::Sra => {
            let res = (v / 2 + (v / 128) * 128) as u8;
            (res, shift_flags(res, v % 2 == 1))
        },
        RmwOp::Sla => {
            let res = ((v * 2) % 256) as u8;
            (res, shift_flags(res, v / 128 == 1))
        },
        RmwOp::Rlc => (rlc_value(v), shift_flags(rlc_value(v), v / 128 == 1)),
        RmwOp::Rl => (
            rl_value(v, carry_in(regs)),
            shift_flags(rl_value(v, carry_in(regs)), v / 128 == 1),
        ),
        RmwOp::Rrc => (rrc_value(v), shift_flags(rrc_value(v), v % 2 == 1)),
        RmwOp::Rr => (
            rr_value(v, carry_in(regs)),
            shift_flags(rr_value(v, carry_in(regs)), v % 2 == 1),
        ),
        RmwOp::Inc => {
            let res = wrap8(v + 1);
            (res, flag_bits(res == 0, false, v % 16 == 15, flag_of(regs.f, Flags::CARRY)))
        },
        RmwOp::Dec => {
            let res = wrap8(v - 1);
            (res, flag_bits(res == 0, true, v % 16 == 0, flag_of(regs.f, Flags::CARRY)))
        },
    }
}

/// The result of the read-modify-write instruction `op` on `t`: the value
/// read is replaced by `rmw_out(op, ..).0` and the flag byte becomes
/// `rmw_out(op, ..).1`.
#[verifier::opaque]
pub open spec fn rmw_post(c: Cpu, d: Cpu, t: Operand, op: RmwOp) -> bool {
    &&& d.wf()
    &&& d.same_control(&c)
    &&& match t {
        Operand::Reg(r) => {
            let out = rmw_out(op, reg8_value(c.reg, r), c.reg);
            &&& d.memory == c.memory
            &&& d.reg == (Registers { f: out.1, ..with_reg8(c.reg, r, out.0) })
        },
        Operand::Mem(a) => a == Addr::HL ==> exists|e: Cpu, mid: MemoryBus|
            #![trigger read_effect(c, e, t), MemoryBus::tick_rel(e.memory, mid)]
            {
                let out = rmw_out(op, e.memory.peek(reg_address(c.reg, a)), c.reg);
                &&& read_effect(c, e, t)
                &&& d.reg == (Registers { f: out.1, ..c.reg })
                &&& MemoryBus::tick_rel(e.memory, mid)
                &&& MemoryBus::write_rel(mid, d.memory, reg_address(c.reg, a), out.0)
            },
        Operand::Imm(_) => true,
    }
}

/// Packs the witnesses of a read-modify-write through HL.
proof fn lemma_rmw_hl(c: Cpu, e: Cpu, d: Cpu, op: RmwOp, mid: MemoryBus)
    requires
        d.wf(),
        d.same_control(&c),
        read_effect(c, e, Operand::Mem(Addr::HL)),
        ({
            let out = rmw_out(op, e.memory.peek(reg_address(c.reg, Addr::HL)), c.reg);
            &&& d.reg == (Registers { f: out.1, ..c.reg })
            &&& MemoryBus::tick_rel(e.memory, mid)
            &&& MemoryBus::write_rel(mid, d.memory, reg_address(c.reg, Addr::HL), out.0)
        }),
    ensures
        rmw_post(c, d, Operand::Mem(Addr::HL), op),
{
    reveal(rmw_post);
}

/// Flags of a shift or rotation: Zero from the result, Carry from the bit
/// shifted out.
pub open spec fn shift_flags(res: u8, carry: bool) -> u8 {
    flag_bits(res == 0, false, false, carry)
}

impl Cpu {
    /// Writes `res` back to the operand `t` and sets the flag byte to
    /// `flags`; `c` is the state before the operand was read.
    pub(crate) fn finish_rmw(&mut self, t: Operand, res: u8, flags: u8, c: Ghost<Cpu>, op: Ghost<RmwOp>)
        requires
            old(self).wf(),
            old(self).same_control(&c@),
            read_effect(c@, *old(self), t),
            is_direct(t) ==> (res, flags) == rmw_out(
                op@,
                crate::cpu::read_write_cpu::operand_value(c@, *old(self), t),
                c@.reg,
            ),
        ensures
            final(self).wf(),
            final(self).same_control(old(self)),
            rmw_post(c@, *final(self), t, op@),
    {
        let ghost e = *self;
        self.write(t, res);
        self.reg.f = flags;
        proof {
            reveal(rmw_post);
            if t == Operand::Mem(Addr::HL) {
                let mid = choose|mid: MemoryBus|
                    MemoryBus::tick_rel(e.memory, mid) && #[trigger] MemoryBus::write_rel(
                        mid,
                        self.memory,
                        reg_address(e.reg, Addr::HL),
                        res,
                    );
                lemma_rmw_hl(c@, e, *self, op@, mid);
            }
        }
    }

    /// Swaps the two nibbles of the operand.
    pub fn swap(&mut self, opcode: u8)
        requires
            old(self).wf(),
        ensures
            final(self).wf(),
            final(self).same_control(old(self)),
            rmw_post(*old(self), *final(self), cb_operand(opcode), RmwOp::Swap),
    {
        let value = self.get_target(opcode);
        let res = (value % 16) * 16 + value / 16;
        let flags = shift_flags_exec(res, false);
        self.finish_rmw(cb_operand_exec(opcode), res, flags, Ghost(*old(self)), Ghost(RmwOp::Swap));
    }

    /// Sets bit `cb_bit(opcode)` of the operand.
    pub fn set(&mut self, opcode: u8)
        requires
            old(self).wf(),
        ensures
            final(self).wf(),
            final(self).same_control(old(self)),
            rmw_post(*old(self), *final(self), cb_operand(opcode), RmwOp::SetBit(cb_bit(opcode))),
    {
        let value = self.get_target(opcode);
        let res = value | (1u8 << ((opcode / 8) % 8));
        let flags = self.reg.f;
        self.finish_rmw(cb_operand_exec(opcode), res, flags, Ghost(*old(self)), Ghost(RmwOp::SetBit(cb_bit(opcode))));
    }

    /// Clears bit `cb_bit(opcode)` of the operand.
    pub fn reset(&mut self, opcode: u8)
        requires
            old(self).wf(),
        ensures
            final(self).wf(),
            final(self).same_control(old(self)),
            rmw_post(*old(self), *final(self), cb_operand(opcode), RmwOp::ResetBit(cb_bit(opcode))),
    {
        let value = self.get_target(opcode);
        let res = value & !(1u8 << ((opcode / 8) % 8));
        let flags = self.reg.f;
        self.finish_rmw(cb_operand_exec(opcode), res, flags, Ghost(*old(self)), Ghost(RmwOp::ResetBit(cb_bit(opcode))));
    }

    /// Logical shift right.
    pub fn srl(&mut self, opcode: u8)
        requires
            old(self).wf(),
        ensures
            final(self).wf(),
            final(self).same_control(old(self)),
            rmw_post(*old(self), *final(self), cb_operand(opcode), RmwOp::Srl),
    {
        let value = self.get_target(opcode);
        let res = value / 2;
        let flags = shift_flags_exec(res, value % 2 == 1);
        self.finish_rmw(cb_operand_exec(opcode), res, flags, Ghost(*old(self)), Ghost(RmwOp::Srl));
    }

    /// Arithmetic shift right: bit 7 is kept.
    pub fn sra(&mut self, opcode: u8)
        requires
            old(self).wf(),
        ensures
            final(self).wf(),
            final(self).same_control(old(self)),
            rmw_post(*old(self), *final(self), cb_operand(opcode), RmwOp::Sra),
    {
        let value = self.get_target(opcode);
        let res = value / 2 + (value / 128) * 128;
        let flags = shift_flags_exec(res, value % 2 == 1);
        self.finish_rmw(cb_operand_exec(opcode), res, flags, Ghost(*old(self)), Ghost(RmwOp::Sra));
    }

    /// Shift left.
    pub fn sla(&mut self, opcode: u8)
        requires
            old(self).wf(),
        ensures
            final(self).wf(),
            final(self).same_control(old(self)),
            rmw_post(*old(self), *final(self), cb_operand(opcode), RmwOp::Sla),
    {
        let value = self.get_target(opcode);
        let res = ((value as u16 * 2) % 256) as u8;
        let flags = shift_flags_exec(res, value / 128 == 1);
        self.finish_rmw(cb_operand_exec(opcode), res, flags, Ghost(*old(self)), Ghost(RmwOp::Sla));
    }

    /// Rotate left; bit 7 goes to bit 0 and to Carry.
    pub fn rlc(&mut self, opcode: u8)
        requires
            old(self).wf(),
        ensures
            final(self).wf(),
            final(self).same_control(old(self)),
            rmw_post(*old(self), *final(self), cb_operand(opcode), RmwOp::Rlc),
    {
        let value = self.get_target(opcode);
        let f0 = self.reg.f;
        let res = self.alu_rlc(value);
        let flags = self.reg.f;
        self.reg.f = f0;
        self.finish_rmw(cb_operand_exec(opcode), res, flags, Ghost(*old(self)), Ghost(RmwOp::Rlc));
    }

    /// Rotate left through Carry.
    pub fn rl(&mut self, opcode: u8)
        requires
            old(self).wf(),
        ensures
            final(self).wf(),
            final(self).same_control(old(self)),
            rmw_post(*old(self), *final(self), cb_operand(opcode), RmwOp::Rl),
    {
        let value = self.get_target(opcode);
        let f0 = self.reg.f;
        let res = self.alu_rl(value);
        let flags = self.reg.f;
        self.reg.f = f0;
        self.finish_rmw(cb_operand_exec(opcode), res, flags, Ghost(*old(self)), Ghost(RmwOp::Rl));
    }

    /// Rotate right; bit 0 goes to bit 7 and to Carry.
    pub fn rrc(&mut self, opcode: u8)
        requires
            old(self).wf(),
        ensures
            final(self).wf(),
            final(self).same_control(old(self)),
            rmw_post(*old(self), *final(self), cb_operand(opcode), RmwOp::Rrc),
    {
        let value = self.get_target(opcode);
        let f0 = self.reg.f;
        let res = self.alu_rrc(value);
        let flags = self.reg.f;
        self.reg.f = f0;
        self.finish_rmw(cb_operand_exec(opcode), res, flags, Ghost(*old(self)), Ghost(RmwOp::Rrc));
    }

    /// Rotate right through Carry.
    pub fn rr(&mut self, opcode: u8)
        requires
            old(self).wf(),
        ensures
            final(self).wf(),
            final(self).same_control(old(self)),
            rmw_post(*old(self), *final(self), cb_operand(opcode), RmwOp::Rr),
    {
        let value = self.get_target(opcode);
        let f0 = self.reg.f;
        let res = self.alu_rr(value);
        let flags = self.reg.f;
        self.reg.f = f0;
        self.finish_rmw(cb_operand_exec(opcode), res, flags, Ghost(*old(self)), Ghost(RmwOp::Rr));
    }

    /// Tests bit `cb_bit(opcode)` of the operand: Zero when it is clear.
    pub fn bit(&mut self, opcode: u8)
        requires
            old(self).wf(),
        ensures
            final(self).wf(),
            final(self).same_control(old(self)),
            alu_post(*old(self), *final(self), cb_operand(opcode), AluOp::Bit(cb_bit(opcode))),
    {
        let value = self.get_target(opcode);
        let ghost e = *self;
        let result = value & (1u8 << ((opcode / 8) % 8));
        let c = self.reg.is_flag(Flags::CARRY);
        self.reg.set_flags(result == 0, false, true, c);
        proof {
            assert(read_effect(*old(self), e, cb_operand(opcode)));
            reveal(alu_post);
        }
    }
    fn alu_rlc(&mut self, value: u8) -> (r: u8)
        ensures
            r == rlc_value(value),
            final(self).reg == (Registers { f: shift_flags(r, value / 128 == 1), ..old(self).reg }),
            final(self).memory == old(self).memory,
            final(self).same_control(old(self)),
    {
        let res = ((value as u16 * 2) % 256) as u8 + value / 128;
        self.set_rotation_flags(value / 128, res);
        res
    }
    /// Rotate A left; Zero is cleared.
    pub fn rlca(&mut self)
        ensures
            final(self).reg == (Registers {
                a: rlc_value(old(self).reg.a),
                f: flag_bits(false, false, false, old(self).reg.a / 128 == 1),
                ..old(self).reg
            }),
            final(self).memory == old(self).memory,
            final(self).same_control(old(self)),
    {
        let a = self.reg.a;
        self.reg.a = self.alu_rlc(a);
        let c = self.reg.is_flag(Flags::CARRY);
        proof {
            crate::cpu::registers::lemma_flag_bits(self.reg.a == 0, false, false, a / 128 == 1);
        }
        self.reg.set_flags(false, false, false, c);
    }
    pub fn alu_rl(&mut self, value: u8) -> (r: u8)
        ensures
            r == rl_value(value, carry_in(old(self).reg)),
            final(self).reg == (Registers { f: shift_flags(r, value / 128 == 1), ..old(self).reg }),
            final(self).memory == old(self).memory,
            final(self).same_control(old(self)),
    {
        let c: u8 = if self.reg.is_flag(Flags::CARRY) {
            1
        } else {
            0
        };
        let res = ((value as u16 * 2) % 256) as u8 + c;
        self.set_rotation_flags(value / 128, res);
        res
    }
    /// Rotate A left through Carry; Zero is cleared.
    pub fn rla(&mut self)
        ensures
            final(self).reg == (Registers {
                a: rl_value(old(self).reg.a, carry_in(old(self).reg)),
                f: flag_bits(false, false, false, old(self).reg.a / 128 == 1),
                ..old(self).reg
            }),
            final(self).memory == old(self).memory,
            final(self).same_control(old(self)),
    {
        let a = self.reg.a;
        self.reg.a = self.alu_rl(a);
        let c = self.reg.is_flag(Flags::CARRY);
        proof {
            crate::cpu::registers::lemma_flag_bits(self.reg.a == 0, false, false, a / 128 == 1);
        }
        self.reg.set_flags(false, false, false, c);
    }
    pub fn alu_rrc(&mut self, value: u8) -> (r: u8)
        ensures
            r == rrc_value(value),
            final(self).reg == (Registers { f: shift_flags(r, value % 2 == 1), ..old(self).reg }),
            final(self).memory == old(self).memory,
            final(self).same_control(old(self)),
    {
        let res = value / 2 + (value % 2) * 128;
        self.set_rotation_flags(value % 2, res);
        res
    }
    /// Rotate A right; Zero is cleared.
    pub fn rrca(&mut self)
        ensures
            final(self).reg == (Registers {
                a: rrc_value(old(self).reg.a),
                f: flag_bits(false, false, false, old(self).reg.a % 2 == 1),
                ..old(self).reg
            }),
            final(self).memory == old(self).memory,
            final(self).same_control(old(self)),
    {
        let a = self.reg.a;
        self.reg.a = self.alu_rrc(a);
        let c = self.reg.is_flag(Flags::CARRY);
        proof {
            crate::cpu::registers::lemma_flag_bits(self.reg.a == 0, false, false, a % 2 == 1);
        }
        self.reg.set_flags(false, false, false, c);
    }
    pub fn alu_rr(&mut self, value: u8) -> (r: u8)
        ensures
            r == rr_value(value, carry_in(old(self).reg)),
            final(self).reg == (Registers { f: shift_flags(r, value % 2 == 1), ..old(self).reg }),
            final(self).memory == old(self).memory,
            final(self).same_control(old(self)),
    {
        let c: u8 = if self.reg.is_flag(Flags::CARRY) {
            1
        } else {
            0
        };
        let res = value / 2 + c * 128;
        self.set_rotation_flags(value % 2, res);
        res
    }
    /// Rotate A right through Carry; Zero is cleared.
    pub fn rra(&mut self)
        ensures
            final(self).reg == (Registers {
                a: rr_value(old(self).reg.a, carry_in(old(self).reg)),
                f: flag_bits(false, false, false, old(self).reg.a % 2 == 1),
                ..old(self).reg
            }),
            final(self).memory == old(self).memory,
            final(self).same_control(old(self)),
    {
        let a = self.reg.a;
        self.reg.a = self.alu_rr(a);
        let c = self.reg.is_flag(Flags::CARRY);
        proof {
            crate::cpu::registers::lemma_flag_bits(self.reg.a == 0, false, false, a % 2 == 1);
        }
        self.reg.set_flags(false, false, false, c);
    }

    fn set_rotation_flags(&mut self, value: u8, res: u8)
        ensures
            final(self).reg == (Registers { f: shift_flags(res, value != 0), ..old(self).reg }),
            final(self).memory == old(self).memory,
            final(self).same_control(old(self)),
    {
        self.reg.set_flags(res == 0, false, false, value != 0);
    }

    /// Reads the operand of an extended opcode.
    fn get_target(&mut self, opcode: u8) -> (r: u8)
        requires
            old(self).wf(),
        ensures
            final(self).wf(),
            final(self).same_control(old(self)),
            read_effect(*old(self), *final(self), cb_operand(opcode)),
            r == crate::cpu::read_write_cpu::operand_value(
                *old(self),
                *final(self),
                cb_operand(opcode),
            ),
    {
        self.read(cb_operand_exec(opcode))
    }

}

pub open spec fn rlc_value(v: u8) -> u8 {
    ((v * 2) % 256 + v / 128) as u8
}

pub open spec fn rl_value(v: u8, carry: int) -> u8 {
    ((v * 2) % 256 + carry) as u8
}

pub open spec fn rrc_value(v: u8) -> u8 {
    (v / 2 + (v % 2) * 128) as u8
}

pub open spec fn rr_value(v: u8, carry: int) -> u8 {
    (v / 2 + carry * 128) as u8
}

/// The operand picked by the three low bits of an extended opcode.
pub(crate) fn cb_operand_exec(opcode: u8) -> (r: Operand)
    ensures
        r == cb_operand(opcode),
{
    let k = opcode % 8;
    if k == 0 {
        Operand::Reg(Reg8::B)
    } else if k == 1 {
        Operand::Reg(Reg8::C)
    } else if k == 2 {
        Operand::Reg(Reg8::D)
    } else if k == 3 {
        Operand::Reg(Reg8::E)
    } else if k == 4 {
        Operand::Reg(Reg8::H)
    } else if k == 5 {
        Operand::Reg(Reg8::L)
    } else if k == 6 {
        Operand::Mem(Addr::HL)
    } else {
        Operand::Reg(Reg8::A)
    }
}

fn shift_flags_exec(res: u8, carry: bool) -> (r: u8)
    ensures
        r == shift_flags(res, carry),
{
    let z: u8 = if res == 0 {
        0x80
    } else {
        0
    };
    let c: u8 = if carry {
        0x10
    } else {
        0
    };
    z | 0u8 | 0u8 | c
}

} // verus!
