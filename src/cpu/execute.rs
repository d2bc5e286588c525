use vstd::prelude::*;
use crate::cpu::bit_operations::{cb_bit, cb_operand, cb_operand_exec, rmw_post, RmwOp};
use crate::cpu::alu::{alu_op_of, alu_post, AluOp};
use crate::cpu::registers::wrap16;
use crate::memorybus::MemoryBus;
use crate::cpu::ld::{hl_sp_regs, load_post, store_sp_post};
use crate::cpu::flow::{
    condition_holds, pop_post, push_post, stack_below, stack_top, Condition, JpAddr,
};
use crate::cpu::read_write_cpu::{Addr, Imm8, Operand};
use crate::cpu::registers::{
    flag_bits, flag_of, pair, reg16_value, with_reg16, Flags, Reg16, Reg8, Registers,
};
use crate::cpu::bit_operations::{rl_value, rlc_value, rr_value, rrc_value};
use crate::cpu::alu::{carry_in, daa_regs, sp_add_regs, sp_plus};
use crate::memorybus::ram_loc;
use crate::cpu::Cpu;

verus! {

/// The encodings that have no meaning on the hardware.
pub open spec fn is_forbidden(opcode: u8) -> bool {
    opcode == 0xD3 || opcode == 0xE3 || opcode == 0xE4 || opcode == 0xF4 || opcode == 0xDB
        || opcode == 0xEB || opcode == 0xEC || opcode == 0xFC || opcode == 0xDD || opcode == 0xED
        || opcode == 0xFD
}

/// The shift or rotation of extended opcodes 0x00 to 0x3F, from bits 3-5.
pub open spec fn cb_rotation(o: u8) -> RmwOp {
    let k = o / 8;
    if k == 0 {
        RmwOp::Rlc
    } else if k == 1 {
        RmwOp::Rrc
    } else if k == 2 {
        RmwOp::Rl
    } else if k == 3 {
        RmwOp::Rr
    } else if k == 4 {
        RmwOp::Sla
    } else if k == 5 {
        RmwOp::Sra
    } else if k == 6 {
        RmwOp::Swap
    } else {
        RmwOp::Srl
    }
}

/// Memory operand of the loads 0x02/0x0A, 0x12/0x1A, 0x22/0x2A, 0x32/0x3A.
pub open spec fn pair_address(k: u8) -> Addr {
    if k == 0 {
        Addr::BC
    } else if k == 1 {
        Addr::DE
    } else if k == 2 {
        Addr::HLI
    } else {
        Addr::HLD
    }
}

/// Register pair of PUSH and POP, from bits 4 and 5.
pub open spec fn stack_pair(k: u8) -> Reg16 {
    if k == 0 {
        Reg16::BC
    } else if k == 1 {
        Reg16::DE
    } else if k == 2 {
        Reg16::HL
    } else {
        Reg16::AF
    }
}

/// What opcodes 0x00 to 0x3F do, for the regular groups.
pub open spec fn low_post(c: Cpu, d: Cpu, o: u8) -> bool {
    &&& d.same_control(&c)
    &&& (o == 0x00 || o == 0x10) ==> d == c
    &&& o % 8 == 4 ==> rmw_post(c, d, cb_operand((o / 8) % 8), RmwOp::Inc)
    &&& o % 8 == 5 ==> rmw_post(c, d, cb_operand((o / 8) % 8), RmwOp::Dec)
    &&& o % 8 == 6 ==> load_post(c, d, cb_operand((o / 8) % 8), Operand::Imm(Imm8))
    &&& o % 16 == 2 ==> load_post(c, d, Operand::Mem(pair_address(o / 16)), Operand::Reg(Reg8::A))
    &&& o % 16 == 10 ==> load_post(c, d, Operand::Reg(Reg8::A), Operand::Mem(pair_address(o / 16)))
    &&& o % 16 == 3 ==> MemoryBus::tick_rel(c.memory, d.memory) && d.reg == with_reg16(
        c.reg,
        wide_register(o / 16),
        wrap16(reg16_value(c.reg, wide_register(o / 16)) + 1),
    )
    &&& o % 16 == 11 ==> MemoryBus::tick_rel(c.memory, d.memory) && d.reg == with_reg16(
        c.reg,
        wide_register(o / 16),
        wrap16(reg16_value(c.reg, wide_register(o / 16)) - 1),
    )
    &&& o % 16 == 1 ==> d.memory.pc == wrap16(c.memory.pc + 2) && (ram_loc(c.memory.pc) && ram_loc(
        wrap16(c.memory.pc + 1),
    ) ==> d.reg == with_reg16(
        c.reg,
        wide_register(o / 16),
        pair(c.memory.peek(wrap16(c.memory.pc + 1)), c.memory.peek(c.memory.pc)),
    ))
    &&& o % 16 == 9 ==> MemoryBus::tick_rel(c.memory, d.memory) && ({
        let v = reg16_value(c.reg, Reg16::HL);
        let w = reg16_value(c.reg, wide_register(o / 16));
        let r1 = with_reg16(c.reg, Reg16::HL, wrap16(v + w));
        d.reg == (Registers {
            f: flag_bits(flag_of(r1.f, Flags::ZERO), false, v % 4096 + w % 4096 > 4095, v + w > 65535),
            ..r1
        })
    })
    &&& o == 0x07 ==> d.memory == c.memory && d.reg == (Registers {
        a: rlc_value(c.reg.a),
        f: flag_bits(false, false, false, c.reg.a / 128 == 1),
        ..c.reg
    })
    &&& o == 0x17 ==> d.memory == c.memory && d.reg == (Registers {
        a: rl_value(c.reg.a, carry_in(c.reg)),
        f: flag_bits(false, false, false, c.reg.a / 128 == 1),
        ..c.reg
    })
    &&& o == 0x0F ==> d.memory == c.memory && d.reg == (Registers {
        a: rrc_value(c.reg.a),
        f: flag_bits(false, false, false, c.reg.a % 2 == 1),
        ..c.reg
    })
    &&& o == 0x1F ==> d.memory == c.memory && d.reg == (Registers {
        a: rr_value(c.reg.a, carry_in(c.reg)),
        f: flag_bits(false, false, false, c.reg.a % 2 == 1),
        ..c.reg
    })
    &&& o == 0x27 ==> d.memory == c.memory && d.reg == daa_regs(c.reg)
    &&& o == 0x37 ==> d.memory == c.memory && d.reg == (Registers {
        f: flag_bits(flag_of(c.reg.f, Flags::ZERO), false, false, true),
        ..c.reg
    })
    &&& o == 0x2F ==> d.memory == c.memory && d.reg == (Registers {
        a: (255 - c.reg.a) as u8,
        f: flag_bits(flag_of(c.reg.f, Flags::ZERO), true, true, flag_of(c.reg.f, Flags::CARRY)),
        ..c.reg
    })
    &&& o == 0x3F ==> d.memory == c.memory && d.reg == (Registers {
        f: flag_bits(flag_of(c.reg.f, Flags::ZERO), false, false, !flag_of(c.reg.f, Flags::CARRY)),
        ..c.reg
    })
    &&& o == 0x18 && ram_loc(c.memory.pc) ==> d.reg == c.reg && d.memory.pc == sp_plus(
        wrap16(c.memory.pc + 1),
        c.memory.peek(c.memory.pc),
    )
    &&& (o == 0x20 || o == 0x28 || o == 0x30 || o == 0x38) ==> {
        let cond = condition_of((o / 8) % 4);
        &&& d.reg == c.reg
        &&& condition_holds(c.reg.f, cond) && ram_loc(c.memory.pc) ==> d.memory.pc == sp_plus(
            wrap16(c.memory.pc + 1),
            c.memory.peek(c.memory.pc),
        )
        &&& !condition_holds(c.reg.f, cond) ==> d.memory.pc == wrap16(c.memory.pc + 1)
    }
    &&& o == 0x08 ==> store_sp_post(c, d)
}

/// 16-bit register of the increments, decrements and immediate loads, from
/// bits 4 and 5.
pub open spec fn wide_register(k: u8) -> Reg16 {
    if k == 0 {
        Reg16::BC
    } else if k == 1 {
        Reg16::DE
    } else if k == 2 {
        Reg16::HL
    } else {
        Reg16::SP
    }
}

/// What opcodes 0xC0 to 0xFF do, for the regular groups.
pub open spec fn high_post(c: Cpu, d: Cpu, o: u8) -> bool {
    &&& (o != 0xF3 && o != 0xFB && o != 0xD9) ==> d.same_control(&c)
    &&& o == 0xF3 ==> d == (Cpu { ime: false, ..c })
    &&& o == 0xFB ==> d == (Cpu { prepare_ime: c.prepare_ime || !c.ime, ..c })
    &&& o % 8 == 6 ==> alu_post(c, d, Operand::Imm(Imm8), alu_op_of((o / 8) % 8))
    &&& o % 16 == 5 ==> push_post(c, d, reg16_value(c.reg, stack_pair((o / 16) % 4)))
    &&& o % 16 == 1 ==> pop_post(c, d, stack_pair((o / 16) % 4))
    &&& o == 0xE0 ==> load_post(c, d, Operand::Mem(Addr::ZeroPage), Operand::Reg(Reg8::A))
    &&& o == 0xF0 ==> load_post(c, d, Operand::Reg(Reg8::A), Operand::Mem(Addr::ZeroPage))
    &&& o == 0xE2 ==> load_post(c, d, Operand::Mem(Addr::ZeroPageC), Operand::Reg(Reg8::A))
    &&& o == 0xF2 ==> load_post(c, d, Operand::Reg(Reg8::A), Operand::Mem(Addr::ZeroPageC))
    &&& o == 0xEA ==> load_post(c, d, Operand::Mem(Addr::Imm16), Operand::Reg(Reg8::A))
    &&& o == 0xFA ==> load_post(c, d, Operand::Reg(Reg8::A), Operand::Mem(Addr::Imm16))
    &&& o == 0xCB ==> exists|m: Cpu, x: u8|
        #![trigger fetched(c, m, x)]
        fetched(c, m, x) && cb_post(m, d, x)
    &&& (o == 0xC0 || o == 0xC8 || o == 0xD0 || o == 0xD8 || o == 0xC9) ==> ret_post(
        c,
        d,
        if o == 0xC9 {
            Condition::Always
        } else {
            condition_of((o / 8) % 4)
        },
    )
    &&& o == 0xD9 ==> d.ime && d.reg == (Registers { sp: wrap16(c.reg.sp + 2), ..c.reg }) && (
    ram_loc(c.reg.sp) && ram_loc(wrap16(c.reg.sp + 1)) ==> d.memory.pc == stack_top(
        c.memory,
        c.reg.sp,
    ))
    &&& (o == 0xC2 || o == 0xCA || o == 0xD2 || o == 0xDA || o == 0xC3) ==> d.reg == c.reg && (
    condition_holds(
        c.reg.f,
        if o == 0xC3 {
            Condition::Always
        } else {
            condition_of((o / 8) % 4)
        },
    ) ==> (imm_ready_16(c) ==> d.memory.pc == imm_word(c))) && (!condition_holds(
        c.reg.f,
        if o == 0xC3 {
            Condition::Always
        } else {
            condition_of((o / 8) % 4)
        },
    ) ==> d.memory.pc == wrap16(c.memory.pc + 2))
    &&& o == 0xE9 ==> d.reg == c.reg && d.memory.pc == pair(c.reg.h, c.reg.l)
    &&& (o == 0xC4 || o == 0xCC || o == 0xD4 || o == 0xDC || o == 0xCD) ==> call_post(
        c,
        d,
        if o == 0xCD {
            Condition::Always
        } else {
            condition_of((o / 8) % 4)
        },
    )
    &&& o == 0xF9 ==> MemoryBus::tick_rel(c.memory, d.memory) && d.reg == (Registers {
        sp: pair(c.reg.h, c.reg.l),
        ..c.reg
    })
    &&& o == 0xF8 ==> d.memory.pc == wrap16(c.memory.pc + 1) && (ram_loc(c.memory.pc) ==> d.reg
        == hl_sp_regs(c.reg, c.memory.peek(c.memory.pc)))
    &&& o == 0xE8 ==> d.memory.pc == wrap16(c.memory.pc + 1) && (ram_loc(c.memory.pc) ==> d.reg
        == sp_add_regs(c.reg, c.memory.peek(c.memory.pc)))
    &&& o % 8 == 7 ==> d.memory.pc == (o - 0xC7) as u16 && d.reg == (Registers {
        sp: wrap16(c.reg.sp - 2),
        ..c.reg
    }) && (stack_below(c.reg.sp) ==> stack_top(d.memory, d.reg.sp) == c.memory.pc)
}

/// Condition of the conditional jumps, calls and returns, from bits 3-4.
pub open spec fn condition_of(k: u8) -> Condition {
    if k == 0 {
        Condition::NZ
    } else if k == 1 {
        Condition::Z
    } else if k == 2 {
        Condition::NC
    } else {
        Condition::C
    }
}

/// The two bytes after the opcode lie in plain storage.
pub open spec fn imm_ready_16(c: Cpu) -> bool {
    ram_loc(c.memory.pc) && ram_loc(wrap16(c.memory.pc + 1))
}

/// The 16-bit immediate after the opcode, low byte first.
pub open spec fn imm_word(c: Cpu) -> u16 {
    pair(c.memory.peek(wrap16(c.memory.pc + 1)), c.memory.peek(c.memory.pc))
}

/// `d` is `c` after a return under `cond`.
pub open spec fn ret_post(c: Cpu, d: Cpu, cond: Condition) -> bool {
    &&& !condition_holds(c.reg.f, cond) ==> d.reg == c.reg && d.memory.pc == c.memory.pc
    &&& condition_holds(c.reg.f, cond) ==> d.reg == (Registers {
        sp: wrap16(c.reg.sp + 2),
        ..c.reg
    })
    &&& condition_holds(c.reg.f, cond) && ram_loc(c.reg.sp) && ram_loc(wrap16(c.reg.sp + 1))
        ==> d.memory.pc == stack_top(c.memory, c.reg.sp)
}

/// `d` is `c` after a call to the immediate address under `cond`.
pub open spec fn call_post(c: Cpu, d: Cpu, cond: Condition) -> bool {
    &&& condition_holds(c.reg.f, cond) ==> d.reg == (Registers {
        sp: wrap16(c.reg.sp - 2),
        ..c.reg
    }) && (stack_below(c.reg.sp) ==> stack_top(d.memory, d.reg.sp) == wrap16(c.memory.pc + 2))
    &&& condition_holds(c.reg.f, cond) && imm_ready_16(c) ==> d.memory.pc == imm_word(c)
    &&& !condition_holds(c.reg.f, cond) ==> d.reg == c.reg && d.memory.pc == wrap16(
        c.memory.pc + 2,
    )
}

/// `d` is `c` after executing the opcode `o`, which is not forbidden.
pub open spec fn execute_post(c: Cpu, d: Cpu, o: u8) -> bool {
    &&& d.wf()
    &&& o < 0x40 ==> low_post(c, d, o)
    &&& o == 0x76 ==> d == (Cpu { halted: true, ..c })
    &&& 0x40 <= o < 0x80 && o != 0x76 ==> d.same_control(&c) && load_post(
        c,
        d,
        cb_operand((o / 8) % 8),
        cb_operand(o % 8),
    )
    &&& 0x80 <= o < 0xC0 ==> d.same_control(&c) && alu_post(
        c,
        d,
        cb_operand(o % 8),
        alu_op_of((o / 8) % 8),
    )
    &&& o >= 0xC0 ==> high_post(c, d, o)
}

/// `d` is `c` after the extended opcode `o`.
pub open spec fn cb_post(c: Cpu, d: Cpu, o: u8) -> bool {
    if o < 0x40 {
        rmw_post(c, d, cb_operand(o), cb_rotation(o))
    } else if o < 0x80 {
        alu_post(c, d, cb_operand(o), AluOp::Bit(cb_bit(o)))
    } else if o < 0xC0 {
        rmw_post(c, d, cb_operand(o), RmwOp::ResetBit(cb_bit(o)))
    } else {
        rmw_post(c, d, cb_operand(o), RmwOp::SetBit(cb_bit(o)))
    }
}

/// `m` is `c` after fetching the byte `o` at the program counter.
pub open spec fn fetched(c: Cpu, m: Cpu, o: u8) -> bool {
    &&& m.reg == c.reg
    &&& m.same_control(&c)
    &&& m.memory.pc == wrap16(c.memory.pc + 1)
    &&& MemoryBus::tick_rel(c.memory, MemoryBus { pc: c.memory.pc, ..m.memory })
    &&& o == m.memory.peek(c.memory.pc)
}

impl Cpu {
    /// Executes one instruction whose opcode was just fetched. The forbidden
    /// encodings are left to the caller, which stops the engine on them.
    pub fn execute(&mut self, opcode: u8)
        requires
            old(self).wf(),
            !is_forbidden(opcode),
        ensures
            execute_post(*old(self), *final(self), opcode),
    {
        let block = opcode / 32;
        if block == 0 {
            self.execute_00_1f(opcode);
        } else if block == 1 {
            self.execute_20_3f(opcode);
        } else if block == 2 || block == 3 {
            self.execute_load(opcode);
        } else if block == 4 || block == 5 {
            self.execute_alu(opcode);
        } else if block == 6 {
            self.execute_c0_df(opcode);
        } else {
            self.execute_e0_ff(opcode);
        }
    }

    /// Opcodes 0x00 to 0x1F.
    #[verifier::spinoff_prover]
    #[verifier::rlimit(100)]
    fn execute_00_1f(&mut self, opcode: u8)
        requires
            old(self).wf(),
        ensures
            final(self).wf(),
            opcode < 0x20 ==> low_post(*old(self), *final(self), opcode),
    {
        match opcode {
            0x00 => {},
            0x01 => self.load16_imm(Reg16::BC),
            0x02 => self.load(Operand::Mem(Addr::BC), Operand::Reg(Reg8::A)),
            0x03 => self.inc16(Reg16::BC),
            0x04 => self.inc(Operand::Reg(Reg8::B)),
            0x05 => self.dec(Operand::Reg(Reg8::B)),
            0x06 => self.load(Operand::Reg(Reg8::B), Operand::Imm(Imm8)),
            0x07 => self.rlca(),
            0x08 => self.load_imm16_sp(),
            0x09 => self.add16(Reg16::HL, Reg16::BC),
            0x0A => self.load(Operand::Reg(Reg8::A), Operand::Mem(Addr::BC)),
            0x0B => self.dec16(Reg16::BC),
            0x0C => self.inc(Operand::Reg(Reg8::C)),
            0x0D => self.dec(Operand::Reg(Reg8::C)),
            0x0E => self.load(Operand::Reg(Reg8::C), Operand::Imm(Imm8)),
            0x0F => self.rrca(),
            0x10 => {},
            0x11 => self.load16_imm(Reg16::DE),
            0x12 => self.load(Operand::Mem(Addr::DE), Operand::Reg(Reg8::A)),
            0x13 => self.inc16(Reg16::DE),
            0x14 => self.inc(Operand::Reg(Reg8::D)),
            0x15 => self.dec(Operand::Reg(Reg8::D)),
            0x16 => self.load(Operand::Reg(Reg8::D), Operand::Imm(Imm8)),
            0x17 => self.rla(),
            0x18 => self.jump(Condition::Always, JpAddr::S8),
            0x19 => self.add16(Reg16::HL, Reg16::DE),
            0x1A => self.load(Operand::Reg(Reg8::A), Operand::Mem(Addr::DE)),
            0x1B => self.dec16(Reg16::DE),
            0x1C => self.inc(Operand::Reg(Reg8::E)),
            0x1D => self.dec(Operand::Reg(Reg8::E)),
            0x1E => self.load(Operand::Reg(Reg8::E), Operand::Imm(Imm8)),
            0x1F => self.rra(),
            _ => {},
        }
    }

    /// Opcodes 0x20 to 0x3F.
    #[verifier::spinoff_prover]
    #[verifier::rlimit(100)]
    fn execute_20_3f(&mut self, opcode: u8)
        requires
            old(self).wf(),
        ensures
            final(self).wf(),
            0x20 <= opcode < 0x40 ==> low_post(*old(self), *final(self), opcode),
    {
        match opcode {
            0x20 => self.jump(Condition::NZ, JpAddr::S8),
            0x21 => self.load16_imm(Reg16::HL),
            0x22 => self.load(Operand::Mem(Addr::HLI), Operand::Reg(Reg8::A)),
            0x23 => self.inc16(Reg16::HL),
            0x24 => self.inc(Operand::Reg(Reg8::H)),
            0x25 => self.dec(Operand::Reg(Reg8::H)),
            0x26 => self.load(Operand::Reg(Reg8::H), Operand::Imm(Imm8)),
            0x27 => self.daa(),
            0x28 => self.jump(Condition::Z, JpAddr::S8),
            0x29 => self.add16(Reg16::HL, Reg16::HL),
            0x2A => self.load(Operand::Reg(Reg8::A), Operand::Mem(Addr::HLI)),
            0x2B => self.dec16(Reg16::HL),
            0x2C => self.inc(Operand::Reg(Reg8::L)),
            0x2D => self.dec(Operand::Reg(Reg8::L)),
            0x2E => self.load(Operand::Reg(Reg8::L), Operand::Imm(Imm8)),
            0x2F => self.cpl(),
            0x30 => self.jump(Condition::NC, JpAddr::S8),
            0x31 => self.load16_imm(Reg16::SP),
            0x32 => self.load(Operand::Mem(Addr::HLD), Operand::Reg(Reg8::A)),
            0x33 => self.inc16(Reg16::SP),
            0x34 => self.inc(Operand::Mem(Addr::HL)),
            0x35 => self.dec(Operand::Mem(Addr::HL)),
            0x36 => self.load(Operand::Mem(Addr::HL), Operand::Imm(Imm8)),
            0x37 => self.scf(),
            0x38 => self.jump(Condition::C, JpAddr::S8),
            0x39 => self.add16(Reg16::HL, Reg16::SP),
            0x3A => self.load(Operand::Reg(Reg8::A), Operand::Mem(Addr::HLD)),
            0x3B => self.dec16(Reg16::SP),
            0x3C => self.inc(Operand::Reg(Reg8::A)),
            0x3D => self.dec(Operand::Reg(Reg8::A)),
            0x3E => self.load(Operand::Reg(Reg8::A), Operand::Imm(Imm8)),
            0x3F => self.ccf(),
            _ => {},
        }
    }

    /// Opcodes 0x40 to 0x7F: copy between the registers and (HL) named by
    /// bits 3-5 (target) and bits 0-2 (source); 0x76 is HALT.
    fn execute_load(&mut self, opcode: u8)
        requires
            old(self).wf(),
        ensures
            final(self).wf(),
            opcode != 0x76 ==> final(self).same_control(old(self)),
            opcode != 0x76 ==> load_post(
                *old(self),
                *final(self),
                cb_operand((opcode / 8) % 8),
                cb_operand(opcode % 8),
            ),
            opcode == 0x76 ==> *final(self) == (Cpu { halted: true, ..*old(self) }),
    {
        if opcode == 0x76 {
            self.halt();
        } else {
            let target = cb_operand_exec((opcode / 8) % 8);
            let src = cb_operand_exec(opcode % 8);
            self.load(target, src);
        }
    }

    /// Opcodes 0x80 to 0xBF: the operation named by bits 3-5 between A and
    /// the register or (HL) named by bits 0-2.
    fn execute_alu(&mut self, opcode: u8)
        requires
            old(self).wf(),
        ensures
            final(self).wf(),
            final(self).same_control(old(self)),
            alu_post(*old(self), *final(self), cb_operand(opcode % 8), alu_op_of((opcode / 8) % 8)),
    {
        let src = cb_operand_exec(opcode % 8);
        let operation = (opcode / 8) % 8;
        if operation == 0 {
            self.add(src);
        } else if operation == 1 {
            self.addc(src);
        } else if operation == 2 {
            self.sub(src);
        } else if operation == 3 {
            self.subc(src);
        } else if operation == 4 {
            self.and(src);
        } else if operation == 5 {
            self.xor(src);
        } else if operation == 6 {
            self.or(src);
        } else {
            self.cp(src);
        }
    }

    /// Opcodes 0xC0 to 0xDF.
    #[verifier::spinoff_prover]
    #[verifier::rlimit(100)]
    fn execute_c0_df(&mut self, opcode: u8)
        requires
            old(self).wf(),
        ensures
            final(self).wf(),
            0xC0 <= opcode < 0xE0 ==> high_post(*old(self), *final(self), opcode),
    {
        match opcode {
            0xC0 => self.ret(Condition::NZ),
            0xC1 => self.pop(Reg16::BC),
            0xC2 => self.jump(Condition::NZ, JpAddr::A16),
            0xC3 => self.jump(Condition::Always, JpAddr::A16),
            0xC4 => self.call(Condition::NZ),
            0xC5 => self.push(Reg16::BC),
            0xC6 => self.add(Operand::Imm(Imm8)),
            0xC7 => self.rst(0),
            0xC8 => self.ret(Condition::Z),
            0xC9 => self.ret(Condition::Always),
            0xCA => self.jump(Condition::Z, JpAddr::A16),
            0xCB => self.execute_cb(),
            0xCC => self.call(Condition::Z),
            0xCD => self.call(Condition::Always),
            0xCE => self.addc(Operand::Imm(Imm8)),
            0xCF => self.rst(0x8),
            0xD0 => self.ret(Condition::NC),
            0xD1 => self.pop(Reg16::DE),
            0xD2 => self.jump(Condition::NC, JpAddr::A16),
            0xD4 => self.call(Condition::NC),
            0xD5 => self.push(Reg16::DE),
            0xD6 => self.sub(Operand::Imm(Imm8)),
            0xD7 => self.rst(0x10),
            0xD8 => self.ret(Condition::C),
            0xD9 => self.reti(),
            0xDA => self.jump(Condition::C, JpAddr::A16),
            0xDC => self.call(Condition::C),
            0xDE => self.subc(Operand::Imm(Imm8)),
            0xDF => self.rst(0x18),
            _ => {},
        }
    }

    /// Opcodes 0xE0 to 0xFF.
    #[verifier::spinoff_prover]
    #[verifier::rlimit(100)]
    fn execute_e0_ff(&mut self, opcode: u8)
        requires
            old(self).wf(),
        ensures
            final(self).wf(),
            0xE0 <= opcode ==> high_post(*old(self), *final(self), opcode),
    {
        match opcode {
            0xE0 => self.load(Operand::Mem(Addr::ZeroPage), Operand::Reg(Reg8::A)),
            0xE1 => self.pop(Reg16::HL),
            0xE2 => self.load(Operand::Mem(Addr::ZeroPageC), Operand::Reg(Reg8::A)),
            0xE5 => self.push(Reg16::HL),
            0xE6 => self.and(Operand::Imm(Imm8)),
            0xE7 => self.rst(0x20),
            0xE8 => self.add_sp_s8(),
            0xE9 => self.jump(Condition::Always, JpAddr::HL),
            0xEA => self.load(Operand::Mem(Addr::Imm16), Operand::Reg(Reg8::A)),
            0xEE => self.xor(Operand::Imm(Imm8)),
            0xEF => self.rst(0x28),
            0xF0 => self.load(Operand::Reg(Reg8::A), Operand::Mem(Addr::ZeroPage)),
            0xF1 => self.pop(Reg16::AF),
            0xF2 => self.load(Operand::Reg(Reg8::A), Operand::Mem(Addr::ZeroPageC)),
            0xF3 => self.di(),
            0xF5 => self.push(Reg16::AF),
            0xF6 => self.or(Operand::Imm(Imm8)),
            0xF7 => self.rst(0x30),
            0xF8 => self.load_hl_sp_imm8(),
            0xF9 => self.load_sp_hl(),
            0xFA => self.load(Operand::Reg(Reg8::A), Operand::Mem(Addr::Imm16)),
            0xFB => self.ei(),
            0xFE => self.cp(Operand::Imm(Imm8)),
            0xFF => self.rst(0x38),
            _ => {},
        }
    }

    /// Fetches the second byte of an extended opcode and executes it.
    fn execute_cb(&mut self)
        requires
            old(self).wf(),
        ensures
            final(self).wf(),
            final(self).same_control(old(self)),
            exists|m: Cpu, o: u8|
                #![trigger fetched(*old(self), m, o)]
                fetched(*old(self), m, o) && cb_post(m, *final(self), o),
    {
        let opcode = self.memory.fetch_next_byte();
        let ghost m = *self;
        assert(fetched(*old(self), m, opcode));
        if opcode <= 0x07 {
            self.rlc(opcode);
        } else if opcode <= 0x0F {
            self.rrc(opcode);
        } else if opcode <= 0x17 {
            self.rl(opcode);
        } else if opcode <= 0x1F {
            self.rr(opcode);
        } else if opcode <= 0x27 {
            self.sla(opcode);
        } else if opcode <= 0x2F {
            self.sra(opcode);
        } else if opcode <= 0x37 {
            self.swap(opcode);
        } else if opcode <= 0x3F {
            self.srl(opcode);
        } else if opcode <= 0x7F {
            self.bit(opcode);
        } else if opcode <= 0xBF {
            self.reset(opcode);
        } else {
            self.set(opcode);
        }
    }
}

} // verus!
