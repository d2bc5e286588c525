use vstd::prelude::*;

verus! {

/// The sound registers, kept as a plain bank of bytes: writes are stored
/// and read back, nothing is synthesised.
pub struct Apu {
    pub regs: [u8; 0x30],
}

/// The addresses of the sound register bank (channel registers, master
/// controls and wave memory).
pub open spec fn sound_register(loc: u16) -> bool {
    ||| 0xFF10 <= loc <= 0xFF14
    ||| 0xFF16 <= loc <= 0xFF1E
    ||| 0xFF20 <= loc <= 0xFF26
    ||| 0xFF30 <= loc <= 0xFF3F
}

impl Apu {
    /// What a read of `loc` returns: the stored byte of a sound register,
    /// 0xFF elsewhere.
    pub open spec fn peek(&self, loc: u16) -> u8 {
        if sound_register(loc) {
            self.regs[loc - 0xFF10]
        } else {
            0xFF
        }
    }

    pub fn new() -> (r: Apu)
        ensures
            forall|loc: u16| sound_register(loc) ==> r.peek(loc) == 0,
    {
        Apu { regs: [0u8; 0x30] }
    }

    pub fn read(&self, loc: u16) -> (r: u8)
        ensures
            r == self.peek(loc),
    {
        if (0xFF10 <= loc && loc <= 0xFF14) || (0xFF16 <= loc && loc <= 0xFF1E) || (0xFF20 <= loc
            && loc <= 0xFF26) || (0xFF30 <= loc && loc <= 0xFF3F) {
            self.regs[(loc - 0xFF10) as usize]
        } else {
            0xFF
        }
    }

    /// Stores `value` into the sound register at `loc`; other addresses are
    /// ignored.
    pub fn write(&mut self, loc: u16, value: u8)
        ensures
            forall|l: u16|
                #![trigger final(self).peek(l)]
                final(self).peek(l) == if l == loc && sound_register(loc) {
                    value
                } else {
                    old(self).peek(l)
                },
    {
        if (0xFF10 <= loc && loc <= 0xFF14) || (0xFF16 <= loc && loc <= 0xFF1E) || (0xFF20 <= loc
            && loc <= 0xFF26) || (0xFF30 <= loc && loc <= 0xFF3F) {
            self.regs[(loc - 0xFF10) as usize] = value;
        }
    }
}

} // verus!
