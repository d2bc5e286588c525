use vstd::prelude::*;
use crate::cpu::read_write_cpu::{is_direct, operand_value, read_effect, Operand};
use crate::cpu::registers::{
    flag_bits, flag_of, lemma_flag_bits, reg16_value, test_carry_8, test_half_carry_8, with_reg16, wrap16, wrap8,
    Flags, Reg16, Registers,
};
use crate::cpu::bit_operations::{rmw_post, RmwOp};
use crate::cpu::Cpu;
use crate::memorybus::ram_loc;
use crate::memorybus::MemoryBus;

verus! {

/// Accumulator and flags after adding `v` and `carry` to `a`.
pub open spec fn add_regs(r: Registers, v: u8, carry: int) -> Registers {
    let res = wrap8(r.a + v + carry);
    Registers {
        a: res,
        f: flag_bits(res == 0, false, r.a % 16 + v % 16 + carry > 15, r.a + v + carry > 255),
        ..r
    }
}

/// Result and flags of subtracting `v` and `carry` from `a`.
pub open spec fn sub_value(a: u8, v: u8, carry: int) -> (u8, u8) {
    let res = wrap8(a - v - carry);
    (res, flag_bits(res == 0, true, a % 16 < v % 16 + carry, a < v + carry))
}

pub open spec fn carry_in(r: Registers) -> int {
    if flag_of(r.f, Flags::CARRY) {
        1
    } else {
        0
    }
}

/// Accumulator and flags after decimal adjustment.
pub open spec fn daa_regs(r: Registers) -> Registers {
    let sub = flag_of(r.f, Flags::N);
    let low = (!sub && r.a % 16 > 9) || flag_of(r.f, Flags::HALF);
    let high = (!sub && r.a > 0x99) || flag_of(r.f, Flags::CARRY);
    let adjust = (if low { 0x06int } else { 0 }) + (if high { 0x60int } else { 0 });
    let res = if sub { wrap8(r.a - adjust) } else { wrap8(r.a + adjust) };
    Registers { a: res, f: flag_bits(res == 0, sub, false, high), ..r }
}

/// The instructions that read an operand and compute with A and the flags.
#[derive(Copy, Clone, Debug, PartialEq, Eq, Structural)]
pub enum AluOp {
    Add,
    Adc,
    Sub,
    Sbc,
    And,
    Xor,
    Or,
    Cp,
    /// Test of the given bit.
    Bit(u8),
}

/// Registers after `op` on the registers `r` and the operand value `v`.
pub open spec fn alu_regs(op: AluOp, r: Registers, v: u8) -> Registers {
    match op {
        AluOp::Add => add_regs(r, v, 0),
        AluOp::Adc => add_regs(r, v, carry_in(r)),
        AluOp::Sub => Registers { a: sub_value(r.a, v, 0).0, f: sub_value(r.a, v, 0).1, ..r },
        AluOp::Sbc => Registers {
            a: sub_value(r.a, v, carry_in(r)).0,
            f: sub_value(r.a, v, carry_in(r)).1,
            ..r
        },
        AluOp::And => Registers { a: r.a & v, f: flag_bits(r.a & v == 0, false, true, false), ..r },
        AluOp::Xor => Registers {
            a: r.a ^ v,
            f: flag_bits(r.a ^ v == 0, false, false, false),
            ..r
        },
        AluOp::Or => Registers { a: r.a | v, f: flag_bits(r.a | v == 0, false, false, false), ..r },
        AluOp::Cp => Registers { f: sub_value(r.a, v, 0).1, ..r },
        AluOp::Bit(b) => Registers {
            f: flag_bits(v & (1u8 << b) == 0, false, true, flag_of(r.f, Flags::CARRY)),
            ..r
        },
    }
}

/// The operation of opcodes 0x80 to 0xBF, from bits 3 to 5.
pub open spec fn alu_op_of(k: u8) -> AluOp {
    if k == 0 {
        AluOp::Add
    } else if k == 1 {
        AluOp::Adc
    } else if k == 2 {
        AluOp::Sub
    } else if k == 3 {
        AluOp::Sbc
    } else if k == 4 {
        AluOp::And
    } else if k == 5 {
        AluOp::Xor
    } else if k == 6 {
        AluOp::Or
    } else {
        AluOp::Cp
    }
}

/// The result of the read-then-compute instruction `op` on `src`: the
/// operand was read as the read contract says and the registers become
/// `alu_regs(op, ..)` of the value read.
#[verifier::opaque]
pub open spec fn alu_post(c: Cpu, d: Cpu, src: Operand, op: AluOp) -> bool {
    &&& d.wf()
    &&& d.same_control(&c)
    &&& is_direct(src) ==> exists|e: Cpu|
        #![trigger read_effect(c, e, src)]
        {
            &&& read_effect(c, e, src)
            &&& d.memory == e.memory
            &&& d.reg == alu_regs(op, e.reg, operand_value(c, e, src))
        }
}

impl Cpu {
    /// Set carry.
    pub fn scf(&mut self)
        ensures
            final(self).reg == (Registers {
                f: flag_bits(flag_of(old(self).reg.f, Flags::ZERO), false, false, true),
                ..old(self).reg
            }),
            final(self).memory == old(self).memory,
            final(self).same_control(old(self)),
    {
        let z = self.reg.is_flag(Flags::ZERO);
        self.reg.set_flags(z, false, false, true);
    }

    /// Complement the accumulator.
    pub fn cpl(&mut self)
        ensures
            final(self).reg == (Registers {
                a: (255 - old(self).reg.a) as u8,
                f: flag_bits(
                    flag_of(old(self).reg.f, Flags::ZERO),
                    true,
                    true,
                    flag_of(old(self).reg.f, Flags::CARRY),
                ),
                ..old(self).reg
            }),
            final(self).memory == old(self).memory,
            final(self).same_control(old(self)),
    {
        self.reg.a = 255 - self.reg.a;
        let z = self.reg.is_flag(Flags::ZERO);
        let c = self.reg.is_flag(Flags::CARRY);
        self.reg.set_flags(z, true, true, c);
    }

    /// Complement carry.
    pub fn ccf(&mut self)
        ensures
            final(self).reg == (Registers {
                f: flag_bits(
                    flag_of(old(self).reg.f, Flags::ZERO),
                    false,
                    false,
                    !flag_of(old(self).reg.f, Flags::CARRY),
                ),
                ..old(self).reg
            }),
            final(self).memory == old(self).memory,
            final(self).same_control(old(self)),
    {
        let z = self.reg.is_flag(Flags::ZERO);
        let carry = self.reg.is_flag(Flags::CARRY);
        self.reg.set_flags(z, false, false, !carry);
    }

    /// Decimal adjust: re-encodes the accumulator as packed BCD after an
    /// addition or a subtraction.
    pub fn daa(&mut self)
        ensures
            final(self).reg == daa_regs(old(self).reg),
            final(self).memory == old(self).memory,
            final(self).same_control(old(self)),
    {
        let a = self.reg.a;
        let sub = self.reg.is_flag(Flags::N);
        let low = (!sub && a % 16 > 9) || self.reg.is_flag(Flags::HALF);
        let high = (!sub && a > 0x99) || self.reg.is_flag(Flags::CARRY);
        let mut adjust: u8 = 0;
        if low {
            adjust = adjust + 0x06;
        }
        if high {
            adjust = adjust + 0x60;
        }
        if sub {
            self.reg.a = a.wrapping_sub(adjust);
        } else {
            self.reg.a = a.wrapping_add(adjust);
        }
        let zero = self.reg.a == 0;
        self.reg.set_flags(zero, sub, false, high);
    }

    /// 16-bit add into `target`; Zero is kept, carries come out of bits 11
    /// and 15. Takes one extra tick.
    #[verifier::spinoff_prover]
    pub fn add16(&mut self, target: Reg16, source: Reg16)
        requires
            old(self).wf(),
        ensures
            final(self).wf(),
            final(self).same_control(old(self)),
            ({
                let v = reg16_value(old(self).reg, target);
                let w = reg16_value(old(self).reg, source);
                let r1 = with_reg16(old(self).reg, target, wrap16(v + w));
                final(self).reg == (Registers {
                    f: flag_bits(
                        flag_of(r1.f, Flags::ZERO),
                        false,
                        v % 4096 + w % 4096 > 4095,
                        v + w > 65535,
                    ),
                    ..r1
                })
            }),
            MemoryBus::tick_rel(old(self).memory, final(self).memory),
    {
        let addend = self.read16(source);
        let value = self.read16(target);
        let res = value.wrapping_add(addend);
        assert(res == wrap16(value + addend));
        self.write16(target, res);
        let z = self.reg.is_flag(Flags::ZERO);
        self.reg.set_flags(
            z,
            false,
            (value % 4096) + (addend % 4096) > 4095,
            (value as u32) + (addend as u32) > 65535,
        );
        self.memory.tick();
    }

    pub fn dec16(&mut self, target: Reg16)
        requires
            old(self).wf(),
        ensures
            final(self).wf(),
            final(self).same_control(old(self)),
            final(self).reg == with_reg16(
                old(self).reg,
                target,
                wrap16(reg16_value(old(self).reg, target) - 1),
            ),
            MemoryBus::tick_rel(old(self).memory, final(self).memory),
    {
        let value = self.read16(target);
        self.write16(target, value.wrapping_sub(1));
        self.memory.tick();
    }

    pub fn inc16(&mut self, target: Reg16)
        requires
            old(self).wf(),
        ensures
            final(self).wf(),
            final(self).same_control(old(self)),
            final(self).reg == with_reg16(
                old(self).reg,
                target,
                wrap16(reg16_value(old(self).reg, target) + 1),
            ),
            MemoryBus::tick_rel(old(self).memory, final(self).memory),
    {
        let value = self.read16(target);
        self.write16(target, value.wrapping_add(1));
        self.memory.tick();
    }

    pub fn dec(&mut self, target: Operand)
        requires
            old(self).wf(),
        ensures
            final(self).wf(),
            final(self).same_control(old(self)),
            rmw_post(*old(self), *final(self), target, RmwOp::Dec),
    {
        let value = self.read(target);
        let res = value.wrapping_sub(1);
        let c = self.reg.is_flag(Flags::CARRY);
        let flags = flag_bits_exec(res == 0, true, value % 16 == 0, c);
        self.finish_rmw(target, res, flags, Ghost(*old(self)), Ghost(RmwOp::Dec));
    }

    pub fn inc(&mut self, target: Operand)
        requires
            old(self).wf(),
        ensures
            final(self).wf(),
            final(self).same_control(old(self)),
            rmw_post(*old(self), *final(self), target, RmwOp::Inc),
    {
        let value = self.read(target);
        let res = value.wrapping_add(1);
        let c = self.reg.is_flag(Flags::CARRY);
        let flags = flag_bits_exec(res == 0, false, value % 16 == 15, c);
        self.finish_rmw(target, res, flags, Ghost(*old(self)), Ghost(RmwOp::Inc));
    }

    /// Adds the signed immediate byte to the stack pointer; the flags come
    /// from the low byte. Takes two extra ticks.
    pub fn add_sp_s8(&mut self)
        requires
            old(self).wf(),
        ensures
            final(self).wf(),
            final(self).same_control(old(self)),
            final(self).memory.pc == wrap16(old(self).memory.pc + 1),
            exists|v: u8|
                #![trigger sp_plus(old(self).reg.sp, v)]
                final(self).reg == sp_add_regs(old(self).reg, v) && (ram_loc(old(self).memory.pc)
                    ==> v == old(self).memory.peek(old(self).memory.pc)),
    {
        let value = self.memory.fetch_next_byte();
        let sp = self.reg.sp;
        self.reg.sp = add_signed(sp, value);
        self.memory.tick();
        self.memory.tick();
        let carry = (sp % 256) + (value as u16) > 255;
        let half = (sp % 16) + (value as u16 % 16) > 15;
        self.reg.set_flags(false, false, half, carry);
        assert(sp_plus(sp, value) == self.reg.sp);
        assert(self.reg == sp_add_regs(old(self).reg, value));
    }

    #[verifier::spinoff_prover]
    pub fn and(&mut self, source: Operand)
        requires
            old(self).wf(),
        ensures
            final(self).wf(),
            final(self).same_control(old(self)),
            alu_post(*old(self), *final(self), source, AluOp::And),
    {
        let value = self.read(source);
        let ghost e = *self;
        let acc = self.reg.a;
        self.reg.a = value & acc;
        let zero = self.reg.a == 0;
        self.reg.set_flags(zero, false, true, false);
        proof {
            assert(value & acc == acc & value) by (bit_vector);
            assert(read_effect(*old(self), e, source));
            reveal(alu_post);
        }
    }

    #[verifier::spinoff_prover]
    pub fn xor(&mut self, source: Operand)
        requires
            old(self).wf(),
        ensures
            final(self).wf(),
            final(self).same_control(old(self)),
            alu_post(*old(self), *final(self), source, AluOp::Xor),
    {
        let value = self.read(source);
        let ghost e = *self;
        let acc = self.reg.a;
        self.reg.a = value ^ acc;
        let zero = self.reg.a == 0;
        self.reg.set_flags(zero, false, false, false);
        proof {
            assert(value ^ acc == acc ^ value) by (bit_vector);
            assert(read_effect(*old(self), e, source));
            reveal(alu_post);
        }
    }

    #[verifier::spinoff_prover]
    pub fn or(&mut self, source: Operand)
        requires
            old(self).wf(),
        ensures
            final(self).wf(),
            final(self).same_control(old(self)),
            alu_post(*old(self), *final(self), source, AluOp::Or),
    {
        let value = self.read(source);
        let ghost e = *self;
        let acc = self.reg.a;
        self.reg.a = value | acc;
        let zero = self.reg.a == 0;
        self.reg.set_flags(zero, false, false, false);
        proof {
            assert(value | acc == acc | value) by (bit_vector);
            assert(read_effect(*old(self), e, source));
            reveal(alu_post);
        }
    }

    /// Compare: the flags of a subtraction, the accumulator kept.
    #[verifier::spinoff_prover]
    pub fn cp(&mut self, source: Operand)
        requires
            old(self).wf(),
        ensures
            final(self).wf(),
            final(self).same_control(old(self)),
            alu_post(*old(self), *final(self), source, AluOp::Cp),
    {
        let subend = self.read(source);
        let ghost e = *self;
        self.get_sub_result(subend, 0);
        proof {
            assert(read_effect(*old(self), e, source));
            reveal(alu_post);
        }
    }

    #[verifier::spinoff_prover]
    pub fn sub(&mut self, source: Operand)
        requires
            old(self).wf(),
        ensures
            final(self).wf(),
            final(self).same_control(old(self)),
            alu_post(*old(self), *final(self), source, AluOp::Sub),
    {
        let subend = self.read(source);
        let ghost e = *self;
        self.reg.a = self.get_sub_result(subend, 0);
        proof {
            assert(read_effect(*old(self), e, source));
            reveal(alu_post);
        }
    }

    /// Subtract with carry.
    #[verifier::spinoff_prover]
    pub fn subc(&mut self, source: Operand)
        requires
            old(self).wf(),
        ensures
            final(self).wf(),
            final(self).same_control(old(self)),
            alu_post(*old(self), *final(self), source, AluOp::Sbc),
    {
        let subend = self.read(source);
        let ghost e = *self;
        let carry: u8 = if self.reg.is_flag(Flags::CARRY) {
            1
        } else {
            0
        };
        self.reg.a = self.get_sub_result(subend, carry);
        proof {
            assert(read_effect(*old(self), e, source));
            reveal(alu_post);
        }
    }

    /// Subtracts `value` and `carry` from the accumulator, sets the flags,
    /// and returns the difference without storing it.
    pub fn get_sub_result(&mut self, value: u8, carry: u8) -> (r: u8)
        requires
            carry <= 1,
        ensures
            r == sub_value(old(self).reg.a, value, carry as int).0,
            final(self).reg == (Registers {
                f: sub_value(old(self).reg.a, value, carry as int).1,
                ..old(self).reg
            }),
            final(self).memory == old(self).memory,
            final(self).same_control(old(self)),
    {
        let acc = self.reg.a;
        let res = acc.wrapping_sub(value).wrapping_sub(carry);
        let carry_f = (acc as u16) < (value as u16) + (carry as u16);
        let half_f = (acc % 16) < (value % 16) + carry;
        self.reg.set_flags(res == 0, true, half_f, carry_f);
        res
    }

    #[verifier::spinoff_prover]
    pub fn add(&mut self, source: Operand)
        requires
            old(self).wf(),
        ensures
            final(self).wf(),
            final(self).same_control(old(self)),
            alu_post(*old(self), *final(self), source, AluOp::Add),
    {
        let addend = self.read(source);
        let ghost e = *self;
        let acc = self.reg.a;
        let res = acc.wrapping_add(addend);
        self.reg.a = res;
        self.set_add_flag(acc, addend, res, 0);
        proof {
            assert(read_effect(*old(self), e, source));
            reveal(alu_post);
        }
    }

    /// Add with carry.
    #[verifier::spinoff_prover]
    #[verifier::rlimit(40)]
    pub fn addc(&mut self, source: Operand)
        requires
            old(self).wf(),
        ensures
            final(self).wf(),
            final(self).same_control(old(self)),
            alu_post(*old(self), *final(self), source, AluOp::Adc),
    {
        let addend = self.read(source);
        let ghost e = *self;
        let acc = self.reg.a;
        let carry_value: u8 = if self.reg.is_flag(Flags::CARRY) {
            1
        } else {
            0
        };
        let res = acc.wrapping_add(addend).wrapping_add(carry_value);
        assert(res == wrap8(acc + addend + carry_value));
        assert(carry_value == carry_in(e.reg));
        self.reg.a = res;
        self.set_add_flag(acc, addend, res, carry_value);
        proof {
            assert(self.reg == alu_regs(AluOp::Adc, e.reg, addend));
            assert(read_effect(*old(self), e, source));
            reveal(alu_post);
        }
    }

    fn set_add_flag(&mut self, acc: u8, addend: u8, res: u8, carry_value: u8)
        requires
            carry_value <= 1,
        ensures
            final(self).reg == (Registers {
                f: flag_bits(
                    res == 0,
                    false,
                    acc % 16 + addend % 16 + carry_value > 15,
                    acc + addend + carry_value > 255,
                ),
                ..old(self).reg
            }),
            final(self).memory == old(self).memory,
            final(self).same_control(old(self)),
    {
        let carry = test_carry_8(acc, addend, carry_value);
        let half = test_half_carry_8(acc, addend, carry_value);
        self.reg.set_flags(res == 0, false, half, carry);
    }
}

fn flag_bits_exec(z: bool, n: bool, h: bool, c: bool) -> (r: u8)
    ensures
        r == flag_bits(z, n, h, c),
{
    let zb: u8 = if z { 0x80 } else { 0 };
    let nb: u8 = if n { 0x40 } else { 0 };
    let hb: u8 = if h { 0x20 } else { 0 };
    let cb: u8 = if c { 0x10 } else { 0 };
    zb | nb | hb | cb
}

/// Flags after an 8-bit addition or subtraction, read back one by one:
/// Half-carry from bit 3 and Carry from bit 7 (computed without wrapping),
/// with the borrow forms for subtraction.
pub proof fn lemma_arithmetic_flags(r: Registers, v: u8, carry: int)
    requires
        0 <= carry <= 1,
    ensures
        ({
            let f = add_regs(r, v, carry).f;
            &&& flag_of(f, Flags::ZERO) == (wrap8(r.a + v + carry) == 0)
            &&& !flag_of(f, Flags::N)
            &&& flag_of(f, Flags::HALF) == (r.a % 16 + v % 16 + carry > 0xF)
            &&& flag_of(f, Flags::CARRY) == (r.a + v + carry > 0xFF)
        }),
        ({
            let f = sub_value(r.a, v, carry).1;
            &&& flag_of(f, Flags::ZERO) == (wrap8(r.a - v - carry) == 0)
            &&& flag_of(f, Flags::N)
            &&& flag_of(f, Flags::HALF) == (r.a % 16 < v % 16 + carry)
            &&& flag_of(f, Flags::CARRY) == (r.a < v + carry)
        }),
{
    let res = wrap8(r.a + v + carry);
    lemma_flag_bits(res == 0, false, r.a % 16 + v % 16 + carry > 15, r.a + v + carry > 255);
    let d = wrap8(r.a - v - carry);
    lemma_flag_bits(d == 0, true, r.a % 16 < v % 16 + carry, r.a < v + carry);
}

/// Registers after adding the signed byte `v` to the stack pointer; the
/// flags come from the low byte.
pub open spec fn sp_add_regs(r: Registers, v: u8) -> Registers {
    Registers {
        sp: sp_plus(r.sp, v),
        f: flag_bits(false, false, r.sp % 16 + v % 16 > 15, r.sp % 256 + v > 255),
        ..r
    }
}

/// `sp` plus the signed byte `v`, wrapping.
pub open spec fn sp_plus(sp: u16, v: u8) -> u16 {
    if v < 128 {
        wrap16(sp + v)
    } else {
        wrap16(sp + v - 256)
    }
}

/// Adds the two's-complement byte `value` to `sp`, wrapping.
pub fn add_signed(sp: u16, value: u8) -> (r: u16)
    ensures
        r == sp_plus(sp, value),
{
    if value < 128 {
        sp.wrapping_add(value as u16)
    } else {
        sp.wrapping_sub(256 - value as u16)
    }
}

} // verus!
