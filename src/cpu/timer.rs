use vstd::prelude::*;
use crate::cpu::registers::wrap16;

verus! {

pub const DIV: u16 = 0xFF04;
pub const TIMA: u16 = 0xFF05;
pub const TMA: u16 = 0xFF06;
pub const TAC: u16 = 0xFF07;

/// Divider, counter, modulo and control registers. `reload_pending` records
/// that the counter overflowed on the previous tick: the reload from the
/// modulo register and the interrupt come one tick after the overflow.
#[derive(Copy, Clone, Debug)]
pub struct Timer {
    pub div: u16,
    pub tima: u8,
    pub tac: u8,
    pub tma: u8,
    pub reload_pending: bool,
}

/// The divider bit that clocks the counter, selected by the control register.
pub open spec fn tap_bit(tac: u8) -> u16 {
    if tac % 4 == 0 {
        0x200
    } else if tac % 4 == 1 {
        0x8
    } else if tac % 4 == 2 {
        0x20
    } else {
        0x80
    }
}

pub open spec fn counting(tac: u8) -> bool {
    (tac / 4) % 2 == 1
}

/// The divider advance of one tick takes the selected tap from set to clear
/// while counting is on.
pub open spec fn falling_edge(t: Timer) -> bool {
    &&& counting(t.tac)
    &&& t.div & tap_bit(t.tac) != 0
    &&& wrap16(t.div + 4) & tap_bit(t.tac) == 0
}

/// The timer after one tick.
pub open spec fn timer_next(t: Timer) -> Timer {
    let tima = if t.reload_pending { t.tma } else { t.tima };
    let div = wrap16(t.div + 4);
    if falling_edge(t) {
        if tima == 0xFF {
            Timer { div, tima: 0, reload_pending: true, ..t }
        } else {
            Timer { div, tima: (tima + 1) as u8, reload_pending: false, ..t }
        }
    } else {
        Timer { div, tima, reload_pending: false, ..t }
    }
}

impl Timer {
    pub fn new() -> (r: Timer)
        ensures
            r.div == 0x8 && r.tima == 0 && r.tac == 0 && r.tma == 0 && !r.reload_pending,
    {
        Timer { div: 0x8, tima: 0, tac: 0, tma: 0, reload_pending: false }
    }

    /// Advances the timer by one tick; returns whether the timer interrupt is
    /// raised, which happens on the tick after the counter overflowed.
    pub fn handle_timer(&mut self) -> (r: bool)
        ensures
            *final(self) == timer_next(*old(self)),
            r == old(self).reload_pending,
    {
        let fire = self.reload_pending;
        if self.reload_pending {
            self.tima = self.tma;
            self.reload_pending = false;
        }
        if self.handle_div() {
            self.handle_tima();
        }
        fire
    }

    fn handle_div(&mut self) -> (r: bool)
        ensures
            *final(self) == (Timer { div: wrap16(old(self).div + 4), ..*old(self) }),
            r == falling_edge(*old(self)),
    {
        let frequ = self.freq_bit();
        let before = ((self.div & frequ) != 0) && self.is_tima_on();
        self.div = self.div.wrapping_add(4);
        before && ((self.div & frequ) == 0)
    }

    fn freq_bit(&self) -> (r: u16)
        ensures
            r == tap_bit(self.tac),
    {
        let sel = self.tac % 4;
        if sel == 0 {
            0x200
        } else if sel == 1 {
            0x8
        } else if sel == 2 {
            0x20
        } else {
            0x80
        }
    }

    fn is_tima_on(&self) -> (r: bool)
        ensures
            r == counting(self.tac),
    {
        (self.tac / 4) % 2 == 1
    }

    fn handle_tima(&mut self)
        ensures
            old(self).tima == 0xFF ==> *final(self) == (Timer {
                tima: 0,
                reload_pending: true,
                ..*old(self)
            }),
            old(self).tima != 0xFF ==> *final(self) == (Timer {
                tima: (old(self).tima + 1) as u8,
                ..*old(self)
            }),
    {
        if self.tima == 0xFF {
            self.tima = 0;
            self.reload_pending = true;
        } else {
            self.tima = self.tima + 1;
        }
    }
}

/// With counting on and the fastest tap selected, a counter at 0xFF that
/// sees a falling edge reads 0 right after it and no interrupt is raised;
/// one tick later it holds the modulo value and the interrupt is raised.
pub proof fn lemma_delayed_reload(t: Timer)
    requires
        counting(t.tac),
        t.tac % 4 == 1,
        t.tima == 0xFF,
        !t.reload_pending,
        falling_edge(t),
    ensures
        timer_next(t).tima == 0,
        !t.reload_pending,
        timer_next(t).reload_pending,
        timer_next(timer_next(t)).tima == t.tma,
        !timer_next(timer_next(t)).reload_pending,
{
    let t1 = timer_next(t);
    assert(t1.div & tap_bit(t1.tac) == 0);
    assert(!falling_edge(t1));
}

} // verus!
