use vstd::prelude::*;
use crate::text::{hex_byte, hex_word, push_char, push_hex_byte, push_hex_word};
use vstd::string::StringExecFns;

verus! {

/// Bit of the flag register that holds the Zero flag.
pub const ZERO_MASK: u8 = 0x80;
/// Bit of the flag register that holds the Subtract flag.
pub const N_MASK: u8 = 0x40;
/// Bit of the flag register that holds the Half-carry flag.
pub const HALF_MASK: u8 = 0x20;
/// Bit of the flag register that holds the Carry flag.
pub const CARRY_MASK: u8 = 0x10;

#[derive(Copy, Clone, Debug, PartialEq, Eq, Structural)]
pub enum Reg8 {
    A,
    B,
    C,
    D,
    E,
    H,
    L,
}

#[derive(Copy, Clone, Debug, PartialEq, Eq, Structural)]
pub enum Reg16 {
    BC,
    DE,
    HL,
    SP,
    AF,
}

#[allow(non_camel_case_types)]
#[derive(Copy, Clone, Debug, PartialEq, Eq, Structural)]
pub enum Flags {
    ZERO,
    N,
    CARRY,
    HALF,
}

/// The register file: seven 8-bit general registers, the flag register and
/// the stack pointer. The program counter lives on the memory bus.
#[derive(Copy, Clone, Debug)]
pub struct Registers {
    pub a: u8,
    pub b: u8,
    pub c: u8,
    pub d: u8,
    pub e: u8,
    pub f: u8,
    pub h: u8,
    pub l: u8,
    pub sp: u16,
}

pub open spec fn flag_mask(flag: Flags) -> u8 {
    match flag {
        Flags::ZERO => 0x80u8,
        Flags::N => 0x40u8,
        Flags::HALF => 0x20u8,
        Flags::CARRY => 0x10u8,
    }
}

/// Whether `flag` is set in the flag byte `f`.
pub open spec fn flag_of(f: u8, flag: Flags) -> bool {
    f & flag_mask(flag) != 0
}

/// `f` with the bit of `flag` set to `value`, the other bits kept.
pub open spec fn with_flag(f: u8, flag: Flags, value: bool) -> u8 {
    if value {
        f | flag_mask(flag)
    } else {
        f & !flag_mask(flag)
    }
}

/// The flag byte holding exactly the four given flags, low nibble clear.
pub open spec fn flag_bits(z: bool, n: bool, h: bool, c: bool) -> u8 {
    (if z { 0x80u8 } else { 0u8 }) | (if n { 0x40u8 } else { 0u8 }) | (if h { 0x20u8 } else {
        0u8
    }) | (if c { 0x10u8 } else { 0u8 })
}

/// `x` reduced to 16 bits, as wrapping arithmetic does.
pub open spec fn wrap16(x: int) -> u16 {
    (x % 65536) as u16
}

/// `x` reduced to 8 bits, as wrapping arithmetic does.
pub open spec fn wrap8(x: int) -> u8 {
    (x % 256) as u8
}

/// The 16-bit value of a register pair.
pub open spec fn pair(high: u8, low: u8) -> u16 {
    (high as int * 256 + low as int) as u16
}

pub open spec fn reg8_value(r: Registers, which: Reg8) -> u8 {
    match which {
        Reg8::A => r.a,
        Reg8::B => r.b,
        Reg8::C => r.c,
        Reg8::D => r.d,
        Reg8::E => r.e,
        Reg8::H => r.h,
        Reg8::L => r.l,
    }
}

/// `r` with the 8-bit register `which` replaced by `v`.
pub open spec fn with_reg8(r: Registers, which: Reg8, v: u8) -> Registers {
    match which {
        Reg8::A => Registers { a: v, ..r },
        Reg8::B => Registers { b: v, ..r },
        Reg8::C => Registers { c: v, ..r },
        Reg8::D => Registers { d: v, ..r },
        Reg8::E => Registers { e: v, ..r },
        Reg8::H => Registers { h: v, ..r },
        Reg8::L => Registers { l: v, ..r },
    }
}

pub open spec fn reg16_value(r: Registers, which: Reg16) -> u16 {
    match which {
        Reg16::BC => pair(r.b, r.c),
        Reg16::DE => pair(r.d, r.e),
        Reg16::HL => pair(r.h, r.l),
        Reg16::SP => r.sp,
        Reg16::AF => pair(r.a, r.f),
    }
}

/// `r` with the 16-bit register `which` replaced by `v`; the low nibble of
/// the flag byte always stays clear.
pub open spec fn with_reg16(r: Registers, which: Reg16, v: u16) -> Registers {
    let hi = (v / 256) as u8;
    let lo = (v % 256) as u8;
    match which {
        Reg16::BC => Registers { b: hi, c: lo, ..r },
        Reg16::DE => Registers { d: hi, e: lo, ..r },
        Reg16::HL => Registers { h: hi, l: lo, ..r },
        Reg16::SP => Registers { sp: v, ..r },
        Reg16::AF => Registers { a: hi, f: lo & 0xF0, ..r },
    }
}

/// Setting one flag leaves the other three as they were.
pub proof fn lemma_with_flag(f: u8, flag: Flags, value: bool, other: Flags)
    ensures
        flag_of(with_flag(f, flag, value), other) == if flag == other {
            value
        } else {
            flag_of(f, other)
        },
        with_flag(f, flag, value) & 0x0F == f & 0x0F,
{
    let m = flag_mask(flag);
    let k = flag_mask(other);
    lemma_bit_update(f, m, k, value);
}

proof fn lemma_bit_update(f: u8, m: u8, k: u8, v: bool)
    by (bit_vector)
    requires
        m == 0x80 || m == 0x40 || m == 0x20 || m == 0x10,
        k == 0x80 || k == 0x40 || k == 0x20 || k == 0x10,
    ensures
        ((if v { f | m } else { f & !m }) & k != 0) == (if m == k { v } else { f & k != 0 }),
        (if v { f | m } else { f & !m }) & 0x0F == f & 0x0F,
{
}

/// Reading back a flag byte built from four flags gives those flags.
pub proof fn lemma_flag_bits(z: bool, n: bool, h: bool, c: bool)
    ensures
        flag_of(flag_bits(z, n, h, c), Flags::ZERO) == z,
        flag_of(flag_bits(z, n, h, c), Flags::N) == n,
        flag_of(flag_bits(z, n, h, c), Flags::HALF) == h,
        flag_of(flag_bits(z, n, h, c), Flags::CARRY) == c,
        flag_bits(z, n, h, c) & 0x0F == 0,
{
    lemma_flag_bits_bv(z, n, h, c);
}

proof fn lemma_flag_bits_bv(z: bool, n: bool, h: bool, c: bool)
    by (bit_vector)
    ensures
        (((if z { 0x80u8 } else { 0u8 }) | (if n { 0x40u8 } else { 0u8 }) | (if h { 0x20u8 } else {
            0u8
        }) | (if c { 0x10u8 } else { 0u8 })) & 0x80u8 != 0) == z,
        (((if z { 0x80u8 } else { 0u8 }) | (if n { 0x40u8 } else { 0u8 }) | (if h { 0x20u8 } else {
            0u8
        }) | (if c { 0x10u8 } else { 0u8 })) & 0x40u8 != 0) == n,
        (((if z { 0x80u8 } else { 0u8 }) | (if n { 0x40u8 } else { 0u8 }) | (if h { 0x20u8 } else {
            0u8
        }) | (if c { 0x10u8 } else { 0u8 })) & 0x20u8 != 0) == h,
        (((if z { 0x80u8 } else { 0u8 }) | (if n { 0x40u8 } else { 0u8 }) | (if h { 0x20u8 } else {
            0u8
        }) | (if c { 0x10u8 } else { 0u8 })) & 0x10u8 != 0) == c,
        ((if z { 0x80u8 } else { 0u8 }) | (if n { 0x40u8 } else { 0u8 }) | (if h { 0x20u8 } else {
            0u8
        }) | (if c { 0x10u8 } else { 0u8 })) & 0x0Fu8 == 0,
{
}

/// The register values left by the boot sequence.
pub open spec fn boot_registers() -> Registers {
    Registers { a: 0x01, f: 0x00, b: 0xff, c: 0x13, d: 0x00, e: 0xc1, h: 0x84, l: 0x03, sp: 0xfffe }
}

impl Registers {
    /// The register values left by the boot sequence.
    pub fn new() -> (r: Registers)
        ensures
            r == boot_registers(),
    {
        Registers { a: 0x01, f: 0x00, b: 0xff, c: 0x13, d: 0x00, e: 0xc1, h: 0x84, l: 0x03, sp: 0xfffe }
    }

    pub fn inc_sp(&mut self)
        ensures
            *final(self) == (Registers { sp: wrap16(old(self).sp as int + 1), ..*old(self) }),
    {
        self.sp = self.sp.wrapping_add(1);
    }

    pub fn dec_sp(&mut self)
        ensures
            *final(self) == (Registers { sp: wrap16(old(self).sp as int - 1), ..*old(self) }),
    {
        self.sp = self.sp.wrapping_sub(1);
    }

    pub fn af(&self) -> (r: u16)
        ensures
            r == pair(self.a, self.f),
    {
        combine(self.a as u16, self.f as u16)
    }

    pub fn hl(&self) -> (r: u16)
        ensures
            r == pair(self.h, self.l),
    {
        combine(self.h as u16, self.l as u16)
    }

    pub fn bc(&self) -> (r: u16)
        ensures
            r == pair(self.b, self.c),
    {
        combine(self.b as u16, self.c as u16)
    }

    pub fn de(&self) -> (r: u16)
        ensures
            r == pair(self.d, self.e),
    {
        combine(self.d as u16, self.e as u16)
    }

    pub fn set_bc(&mut self, value: u16)
        ensures
            *final(self) == with_reg16(*old(self), Reg16::BC, value),
    {
        let (h, l) = split_u16(value);
        self.b = h;
        self.c = l;
    }

    pub fn set_de(&mut self, value: u16)
        ensures
            *final(self) == with_reg16(*old(self), Reg16::DE, value),
    {
        let (h, l) = split_u16(value);
        self.d = h;
        self.e = l;
    }

    pub fn set_hl(&mut self, value: u16)
        ensures
            *final(self) == with_reg16(*old(self), Reg16::HL, value),
    {
        let (h, l) = split_u16(value);
        self.h = h;
        self.l = l;
    }

    /// Sets A and F; the four low bits of F hold no flag and stay clear.
    pub fn set_af(&mut self, value: u16)
        ensures
            *final(self) == with_reg16(*old(self), Reg16::AF, value),
            final(self).f == (value % 256) as u8 & 0xF0,
    {
        let (h, l) = split_u16(value);
        self.a = h;
        self.f = l & 0xF0;
    }

    pub fn is_flag(&self, flag: Flags) -> (r: bool)
        ensures
            r == flag_of(self.f, flag),
    {
        match flag {
            Flags::ZERO => (self.f & ZERO_MASK) != 0,
            Flags::N => (self.f & N_MASK) != 0,
            Flags::CARRY => (self.f & CARRY_MASK) != 0,
            Flags::HALF => (self.f & HALF_MASK) != 0,
        }
    }

    pub fn set_flag(&mut self, flag: Flags, value: bool)
        ensures
            *final(self) == (Registers { f: with_flag(old(self).f, flag, value), ..*old(self) }),
    {
        match flag {
            Flags::ZERO => self.set_flag_value(ZERO_MASK, value),
            Flags::N => self.set_flag_value(N_MASK, value),
            Flags::CARRY => self.set_flag_value(CARRY_MASK, value),
            Flags::HALF => self.set_flag_value(HALF_MASK, value),
        }
    }

    fn set_flag_value(&mut self, set: u8, value: bool)
        ensures
            *final(self) == (Registers {
                f: if value { old(self).f | set } else { old(self).f & !set },
                ..*old(self)
            }),
    {
        if value {
            self.f = self.f | set;
        } else {
            self.f = self.f & !set;
        }
    }

    /// Writes all four flags at once; the unused low nibble is cleared.
    pub fn set_flags(&mut self, z: bool, n: bool, h: bool, c: bool)
        ensures
            *final(self) == (Registers { f: flag_bits(z, n, h, c), ..*old(self) }),
    {
        let zb: u8 = if z { ZERO_MASK } else { 0 };
        let nb: u8 = if n { N_MASK } else { 0 };
        let hb: u8 = if h { HALF_MASK } else { 0 };
        let cb: u8 = if c { CARRY_MASK } else { 0 };
        self.f = zb | nb | hb | cb;
    }
}

/// The four flags as letters, `-` for a clear flag.
pub open spec fn flag_text(f: u8) -> Seq<char> {
    seq![
        if flag_of(f, Flags::ZERO) { 'z' } else { '-' },
        if flag_of(f, Flags::N) { 'n' } else { '-' },
        if flag_of(f, Flags::HALF) { 'h' } else { '-' },
        if flag_of(f, Flags::CARRY) { 'c' } else { '-' },
    ]
}

/// One-line description of the register file.
pub open spec fn register_line(r: Registers) -> Seq<char> {
    " flags: "@ + flag_text(r.f) + " | a: $"@ + hex_byte(r.a) + " | bc: $"@ + hex_word(
        pair(r.b, r.c),
    ) + " | de: $"@ + hex_word(pair(r.d, r.e)) + " | hl: $"@ + hex_word(pair(r.h, r.l))
        + " | sp: $"@ + hex_word(r.sp) + " |"@
}

impl Registers {
    /// The flags, the accumulator, the pairs and the stack pointer, in hex.
    pub fn to_string(&self) -> (r: String)
        ensures
            r@ == register_line(*self),
    {
        let mut s = String::new();
        s.append(" flags: ");
        let z = if self.is_flag(Flags::ZERO) { 'z' } else { '-' };
        let n = if self.is_flag(Flags::N) { 'n' } else { '-' };
        let h = if self.is_flag(Flags::HALF) { 'h' } else { '-' };
        let c = if self.is_flag(Flags::CARRY) { 'c' } else { '-' };
        push_char(&mut s, z);
        push_char(&mut s, n);
        push_char(&mut s, h);
        push_char(&mut s, c);
        s.append(" | a: $");
        push_hex_byte(&mut s, self.a);
        s.append(" | bc: $");
        push_hex_word(&mut s, self.bc());
        s.append(" | de: $");
        push_hex_word(&mut s, self.de());
        s.append(" | hl: $");
        push_hex_word(&mut s, self.hl());
        s.append(" | sp: $");
        push_hex_word(&mut s, self.sp);
        s.append(" |");
        assert(s@ =~= register_line(*self));
        s
    }
}

/// Carry out of bit 3 when adding `value`, `addend` and `carry`.
pub fn test_half_carry_8(value: u8, addend: u8, carry: u8) -> (r: bool)
    requires
        carry <= 1,
    ensures
        r == (value as int % 16 + addend as int % 16 + carry as int > 15),
{
    (value as u16 % 16) + (addend as u16 % 16) + carry as u16 > 15
}

/// Carry out of bit 7 when adding `value`, `addend` and `carry`.
pub fn test_carry_8(value: u8, addend: u8, carry: u8) -> (r: bool)
    requires
        carry <= 1,
    ensures
        r == (value as int + addend as int + carry as int > 255),
{
    (value as u16) + (addend as u16) + carry as u16 > 255
}

/// Joins a high and a low byte into a 16-bit value.
pub fn combine(high: u16, low: u16) -> (r: u16)
    requires
        high <= 0xFF,
        low <= 0xFF,
    ensures
        r == high as int * 256 + low as int,
        r == pair(high as u8, low as u8),
{
    high * 256 + low
}

/// Splits a 16-bit value into its high and its low byte.
pub fn split_u16(value: u16) -> (r: (u8, u8))
    ensures
        r.0 == value as int / 256,
        r.1 == value as int % 256,
        pair(r.0, r.1) == value,
{
    ((value / 256) as u8, (value % 256) as u8)
}

} // verus!
