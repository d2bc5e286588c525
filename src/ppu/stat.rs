use vstd::prelude::*;
use crate::ppu::config::State;
use crate::ppu::Ppu;

verus! {

/// The mode number that the status register reports for a state.
pub open spec fn mode_bits(s: State) -> u8 {
    match s {
        State::Mode0 => 0,
        State::Mode1 => 1,
        State::Mode2 => 2,
        State::Mode3 => 3,
    }
}

/// Entering state `s` meets a status-interrupt source enabled in `stat`.
pub open spec fn stat_source(stat: u8, s: State) -> bool {
    ||| (s == State::Mode2 && stat & 0x20 != 0)
    ||| (s == State::Mode1 && stat & 0x10 != 0)
    ||| (s == State::Mode0 && stat & 0x08 != 0)
}

impl Ppu {
    /// Writes the status register; the three low bits are read-only.
    pub fn write_stat(&mut self, value: u8)
        ensures
            *final(self) == (Ppu { stat: (value & 0xF8) | (old(self).stat & 0x07), ..*old(self) }),
    {
        let before = self.stat & 0b0000_0111;
        self.stat = (value & 0b1111_1000) | before;
    }

    /// Reports the mode of `new_state` in the status register and raises the
    /// status signal on entry into an enabled mode, unless it was already up.
    pub fn update_stat(&mut self, new_state: &State)
        ensures
            *final(self) == (Ppu {
                stat: (old(self).stat & 0xFC) | mode_bits(*new_state),
                stat_int: !old(self).stat_int && stat_source(
                    (old(self).stat & 0xFC) | mode_bits(*new_state),
                    *new_state,
                ),
                ..*old(self)
            }),
    {
        let bits: u8 = match new_state {
            State::Mode0 => 0,
            State::Mode1 => 1,
            State::Mode2 => 2,
            State::Mode3 => 3,
        };
        self.stat = (self.stat & 0xFC) | bits;
        self.handle_stat_interrupt(new_state);
    }

    fn handle_stat_interrupt(&mut self, new_state: &State)
        ensures
            *final(self) == (Ppu {
                stat_int: !old(self).stat_int && stat_source(old(self).stat, *new_state),
                ..*old(self)
            }),
    {
        let before = self.stat_int;
        let cond = (self.stat & 0x20 != 0 && *new_state == State::Mode2) || (self.stat & 0x10 != 0
            && *new_state == State::Mode1) || (self.stat & 0x08 != 0 && *new_state
            == State::Mode0);
        self.stat_int = !before && cond;
    }
}

} // verus!
