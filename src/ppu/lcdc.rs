use vstd::prelude::*;
use crate::ppu::config::State;
use crate::ppu::Ppu;

verus! {

impl Ppu {
    pub open spec fn lcdc_on(&self) -> bool {
        self.lcdc & 0x80 != 0
    }

    /// Writes the display-control register. Turning the display off is only
    /// accepted during vertical blank; elsewhere the write is ignored. When
    /// the display goes off, the line counter and the dot counter restart.
    pub fn write_lcdc(&mut self, value: u8)
        requires
            old(self).wf(),
        ensures
            final(self).wf(),
            old(self).lcdc_on() && value & 0x80 == 0 && old(self).state != State::Mode1 ==> *final(self) == *old(self),
            old(self).lcdc_on() && value & 0x80 == 0 && old(self).state == State::Mode1 ==> *final(self) == (Ppu {
                lcdc: value,
                ly: 0,
                dot: 0,
                state: State::Mode0,
                stat: old(self).stat & 0xFC,
                ..*old(self)
            }),
            !(old(self).lcdc_on() && value & 0x80 == 0) ==> *final(self) == (Ppu {
                lcdc: value,
                ..*old(self)
            }),
    {
        if self.is_lcd_active() && value & 0x80 == 0 {
            if self.state != State::Mode1 {
                return;
            }
            self.ly = 0;
            self.dot = 0;
            self.state = State::Mode0;
            self.stat = self.stat & 0xFC;
            proof {
                crate::ppu::state_handler::lemma_stat_bits(old(self).stat, 0);
            }
        }
        self.lcdc = value;
    }

    pub fn is_lcd_active(&self) -> (r: bool)
        ensures
            r == self.lcdc_on(),
    {
        self.lcdc & 0x80 != 0
    }

    pub fn is_bg_window_active(&self) -> (r: bool)
        ensures
            r == (self.lcdc & 0x01 != 0),
    {
        self.lcdc & 0x01 != 0
    }

    pub fn is_obj_active(&self) -> (r: bool)
        ensures
            r == (self.lcdc & 0x02 != 0),
    {
        self.lcdc & 0x02 != 0
    }

    /// Sprites are 8x16 rather than 8x8.
    pub fn is_obj_16(&self) -> (r: bool)
        ensures
            r == (self.lcdc & 0x04 != 0),
    {
        self.lcdc & 0x04 != 0
    }

    pub fn is_window(&self) -> (r: bool)
        ensures
            r == (self.lcdc & 0x20 != 0),
    {
        self.lcdc & 0x20 != 0
    }

    pub fn is_bg_tilemap2(&self) -> (r: bool)
        ensures
            r == (self.lcdc & 0x08 != 0),
    {
        self.lcdc & 0x08 != 0
    }

    pub fn is_window_tilemap2(&self) -> (r: bool)
        ensures
            r == (self.lcdc & 0x40 != 0),
    {
        self.lcdc & 0x40 != 0
    }

    /// Tile data is addressed unsigned from 0 rather than signed around 128.
    pub fn is_tiledata1(&self) -> (r: bool)
        ensures
            r == (self.lcdc & 0x10 != 0),
    {
        self.lcdc & 0x10 != 0
    }
}

} // verus!
