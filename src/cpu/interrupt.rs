use vstd::prelude::*;

verus! {

/// Pending-flag bit of the vertical-blank interrupt.
pub const VBLANK_BIT: u8 = 0b0000_0001;
/// Pending-flag bit of the display-status interrupt.
pub const STAT_BIT: u8 = 0b0000_0010;
/// Pending-flag bit of the timer interrupt.
pub const TIMER_BIT: u8 = 0b0000_0100;
/// Pending-flag bit of the joypad interrupt.
pub const JOYPAD_BIT: u8 = 0b0001_0000;

/// Pending flags (`iflag`) and enable mask (`ie`); bit `i` is the source
/// with priority `i` (0 is served first) and vector `0x40 + 8 * i`.
#[derive(Copy, Clone, Debug)]
pub struct Interrupt {
    pub iflag: u8,
    pub ie: u8,
}

/// Whether bit `i` of `x` is set.
pub open spec fn bit_set(x: u8, i: u16) -> bool {
    (x >> i) & 1 == 1
}

/// `x` with bit `i` cleared.
pub open spec fn clear_bit(x: u8, i: u16) -> u8 {
    x & !(1u8 << i)
}

/// `n` is the index of the lowest set bit of `x`, or 8 when `x` is zero.
pub open spec fn is_lowest_bit(x: u8, n: u16) -> bool {
    &&& n <= 8
    &&& forall|j: u16| j < n ==> !bit_set(x, j)
    &&& n < 8 ==> bit_set(x, n)
}

/// Service vector of interrupt source `i`.
pub open spec fn vector_of(i: u16) -> u16 {
    (0x40 + 8 * i) as u16
}

impl Interrupt {
    pub fn new() -> (r: Interrupt)
        ensures
            r.iflag == 0 && r.ie == 0,
    {
        Interrupt { iflag: 0, ie: 0 }
    }

    pub fn require_vblank(&mut self)
        ensures
            final(self).iflag == old(self).iflag | VBLANK_BIT,
            final(self).ie == old(self).ie,
    {
        self.iflag = self.iflag | VBLANK_BIT;
    }

    pub fn require_stat(&mut self)
        ensures
            final(self).iflag == old(self).iflag | STAT_BIT,
            final(self).ie == old(self).ie,
    {
        self.iflag = self.iflag | STAT_BIT;
    }

    pub fn require_timer(&mut self)
        ensures
            final(self).iflag == old(self).iflag | TIMER_BIT,
            final(self).ie == old(self).ie,
    {
        self.iflag = self.iflag | TIMER_BIT;
    }

    pub fn require_joypad(&mut self)
        ensures
            final(self).iflag == old(self).iflag | JOYPAD_BIT,
            final(self).ie == old(self).ie,
    {
        self.iflag = self.iflag | JOYPAD_BIT;
    }

    /// Writes the pending flags; only the five low bits are kept.
    pub fn set_iflag(&mut self, value: u8)
        ensures
            final(self).iflag == value % 32,
            final(self).ie == old(self).ie,
    {
        self.iflag = value % 32;
    }

    /// Writes the enable mask; only the five low bits are kept.
    pub fn set_ie(&mut self, value: u8)
        ensures
            final(self).ie == value % 32,
            final(self).iflag == old(self).iflag,
    {
        self.ie = value % 32;
    }

    /// Whether some enabled interrupt is pending.
    pub fn should_interrupt(&self) -> (r: bool)
        ensures
            r == (self.iflag & self.ie != 0),
    {
        self.iflag & self.ie != 0
    }

    /// Index of the pending and enabled source of highest priority
    /// (8 when there is none).
    pub fn get_next_interrupt(&self) -> (r: u16)
        ensures
            is_lowest_bit(self.ie & self.iflag, r),
    {
        let pending = self.ie & self.iflag;
        let mut i: u16 = 0;
        while i < 8
            invariant
                i <= 8,
                pending == self.ie & self.iflag,
                forall|j: u16| j < i ==> !bit_set(pending, j),
            decreases 8 - i,
        {
            if (pending >> i) & 1 == 1 {
                return i;
            }
            i = i + 1;
        }
        8
    }

    /// Serves the pending source of highest priority: clears its pending bit
    /// and returns its vector.
    pub fn get_interrupt_addr(&mut self) -> (r: u16)
        requires
            old(self).iflag & old(self).ie != 0,
        ensures
            exists|n: u16|
                #![trigger vector_of(n)]
                {
                    &&& n < 8
                    &&& is_lowest_bit(old(self).ie & old(self).iflag, n)
                    &&& r == vector_of(n)
                    &&& final(self).iflag == clear_bit(old(self).iflag, n)
                },
            final(self).ie == old(self).ie,
    {
        let idx = self.get_next_interrupt();
        proof {
            lemma_lowest_pending_exists(self.ie, self.iflag, idx);
        }
        self.reset_int(idx);
        let r = 0x40 + (idx * 8);
        assert(r == vector_of(idx));
        r
    }

    fn reset_int(&mut self, idx: u16)
        requires
            idx < 8,
        ensures
            final(self).iflag == clear_bit(old(self).iflag, idx),
            final(self).ie == old(self).ie,
    {
        self.iflag = self.iflag & !(1u8 << idx);
    }
}

proof fn lemma_lowest_pending_exists(ie: u8, iflag: u8, n: u16)
    requires
        iflag & ie != 0,
        is_lowest_bit(ie & iflag, n),
    ensures
        n < 8,
{
    let x = ie & iflag;
    if n == 8 {
        assert(!bit_set(x, 0) && !bit_set(x, 1) && !bit_set(x, 2) && !bit_set(x, 3));
        assert(!bit_set(x, 4) && !bit_set(x, 5) && !bit_set(x, 6) && !bit_set(x, 7));
        lemma_no_bits_is_zero(ie, iflag, x);
    }
}

proof fn lemma_no_bits_is_zero(ie: u8, iflag: u8, x: u8)
    by (bit_vector)
    requires
        x == ie & iflag,
        (x >> 0u16) & 1 != 1,
        (x >> 1u16) & 1 != 1,
        (x >> 2u16) & 1 != 1,
        (x >> 3u16) & 1 != 1,
        (x >> 4u16) & 1 != 1,
        (x >> 5u16) & 1 != 1,
        (x >> 6u16) & 1 != 1,
        (x >> 7u16) & 1 != 1,
    ensures
        iflag & ie == 0,
{
}

/// Pending flags that only gain bits, across two updates.
pub proof fn lemma_kept_chain(a: u8, b: u8, c: u8)
    by (bit_vector)
    requires
        a & !b == 0,
        b & !c == 0,
    ensures
        a & !c == 0,
{
}

/// Bits raised across two updates, each within its own mask.
pub proof fn lemma_raised_chain(a: u8, b: u8, c: u8, m1: u8, m2: u8)
    by (bit_vector)
    requires
        b & !(a | m1) == 0,
        c & !(b | m2) == 0,
    ensures
        c & !(a | (m1 | m2)) == 0,
{
}

/// Constant unions of the masks used above.
pub proof fn lemma_mask_unions()
    by (bit_vector)
    ensures
        (0x07u8 | 0x07u8) == 0x07u8,
        (0x10u8 | 0x07u8) == 0x17u8,
        (0x17u8 | 0x07u8) == 0x17u8,
        (0x00u8 | 0x07u8) == 0x07u8,
{
}

/// With sources 0 and 4 both pending and enabled, source 0 is the one of
/// highest priority, its vector is 0x40, and serving it clears bit 0 and no
/// other pending bit.
pub proof fn lemma_lowest_source_served_first(iflag: u8, ie: u8)
    requires
        bit_set(iflag, 0),
        bit_set(iflag, 4),
        bit_set(ie, 0),
        bit_set(ie, 4),
    ensures
        forall|n: u16| is_lowest_bit(ie & iflag, n) ==> n == 0,
        vector_of(0) == 0x40,
        !bit_set(clear_bit(iflag, 0), 0),
        forall|i: u16| 1 <= i < 8 ==> bit_set(clear_bit(iflag, 0), i) == bit_set(iflag, i),
{
    assert(bit_set(ie & iflag, 0)) by (bit_vector)
        requires
            (iflag >> 0u16) & 1 == 1,
            (ie >> 0u16) & 1 == 1,
    ;
    assert forall|n: u16| is_lowest_bit(ie & iflag, n) implies n == 0 by {
        if n > 0 {
            assert(!bit_set(ie & iflag, 0));
        }
    }
    lemma_clear_bit_zero(iflag);
}

proof fn lemma_clear_bit_zero(x: u8)
    by (bit_vector)
    ensures
        ((x & !(1u8 << 0u16)) >> 0u16) & 1 != 1,
        forall|i: u16| 1 <= i < 8 ==> ((x & !(1u8 << 0u16)) >> i) & 1 == (x >> i) & 1,
{
}

} // verus!
