use vstd::prelude::*;
use crate::ppu::config::{State, Tile};
use crate::ppu::Ppu;

verus! {

/// Color index of pixel `px` (0 leftmost) of a tile row stored as two bytes.
pub open spec fn tile_pixel(byte1: u8, byte2: u8, px: int) -> u8 {
    let lsb = byte1 & (1u8 << (7 - px) as u8) != 0;
    let msb = byte2 & (1u8 << (7 - px) as u8) != 0;
    if lsb && msb {
        3
    } else if lsb {
        2
    } else if msb {
        1
    } else {
        0
    }
}

impl Ppu {
    /// Video memory is open to the bus except during pixel transfer.
    pub open spec fn vram_open(&self) -> bool {
        self.state != State::Mode3 || !self.lcdc_on()
    }

    /// Object memory is open to the bus only during the blanking modes.
    pub open spec fn oam_open(&self) -> bool {
        self.state == State::Mode0 || self.state == State::Mode1 || !self.lcdc_on()
    }

    /// What a bus read of `loc` returns.
    pub open spec fn peek(&self, loc: usize) -> u8 {
        if 0x8000 <= loc <= 0x9FFF {
            if self.vram_open() {
                self.vram[loc - 0x8000]
            } else {
                0xFF
            }
        } else if 0xFE00 <= loc <= 0xFE9F {
            if self.oam_open() {
                self.oam[loc - 0xFE00]
            } else {
                0xFF
            }
        } else if loc == 0xFF40 {
            self.lcdc
        } else if loc == 0xFF41 {
            self.stat
        } else if loc == 0xFF42 {
            self.scy
        } else if loc == 0xFF43 {
            self.scx
        } else if loc == 0xFF44 {
            self.ly
        } else if loc == 0xFF45 {
            self.lyc
        } else if loc == 0xFF46 {
            self.dma
        } else if loc == 0xFF47 {
            self.bgp
        } else if loc == 0xFF48 {
            self.obp0
        } else if loc == 0xFF49 {
            self.obp1
        } else if loc == 0xFF4A {
            self.wy
        } else if loc == 0xFF4B {
            self.wx
        } else {
            0xFF
        }
    }

    pub fn read(&self, loc: usize) -> (r: u8)
        ensures
            r == self.peek(loc),
    {
        if 0x8000 <= loc && loc <= 0x9FFF {
            if self.state != State::Mode3 || !self.is_lcd_active() {
                self.vram[loc - 0x8000]
            } else {
                0xFF
            }
        } else if 0xFE00 <= loc && loc <= 0xFE9F {
            if self.state == State::Mode0 || self.state == State::Mode1 || !self.is_lcd_active() {
                self.oam[loc - 0xFE00]
            } else {
                0xFF
            }
        } else if loc == 0xFF40 {
            self.lcdc
        } else if loc == 0xFF41 {
            self.stat
        } else if loc == 0xFF42 {
            self.scy
        } else if loc == 0xFF43 {
            self.scx
        } else if loc == 0xFF44 {
            self.ly
        } else if loc == 0xFF45 {
            self.lyc
        } else if loc == 0xFF46 {
            self.dma
        } else if loc == 0xFF47 {
            self.bgp
        } else if loc == 0xFF48 {
            self.obp0
        } else if loc == 0xFF49 {
            self.obp1
        } else if loc == 0xFF4A {
            self.wy
        } else if loc == 0xFF4B {
            self.wx
        } else {
            0xFF
        }
    }

    /// Stores a byte into object memory whatever the mode (the DMA path).
    pub fn write_oam(&mut self, loc: usize, value: u8)
        requires
            0xFE00 <= loc <= 0xFE9F,
        ensures
            *final(self) == (Ppu { oam: final(self).oam, ..*old(self) }),
            final(self).oam@ == old(self).oam@.update(loc - 0xFE00, value),
    {
        self.oam[loc - 0xFE00] = value;
    }

    /// A bus write. Locked video or object memory ignores it; a write into
    /// tile data refreshes the decoded row it belongs to.
    /// `b` is `a` after a bus write of `value` to `loc`.
    pub open spec fn write_post(a: Ppu, b: Ppu, loc: usize, value: u8) -> bool {
        &&& (b == Ppu {
            vram: b.vram,
            oam: b.oam,
            tiles: b.tiles,
            lcdc: b.lcdc,
            stat: b.stat,
            ly: b.ly,
            dot: b.dot,
            state: b.state,
            scy: b.scy,
            scx: b.scx,
            lyc: b.lyc,
            dma: b.dma,
            bgp: b.bgp,
            obp0: b.obp0,
            obp1: b.obp1,
            wy: b.wy,
            wx: b.wx,
            ..a
        })
        &&& ((0x8000 <= loc <= 0x9FFF && !a.vram_open()) || (0xFE00 <= loc <= 0xFE9F
            && !a.oam_open())) ==> b == a
        &&& (0x8000 <= loc <= 0x9FFF && a.vram_open() ==> b.vram@ == a.vram@.update(loc - 0x8000, value))
        &&& (!(0x8000 <= loc <= 0x9FFF && a.vram_open()) ==> b.vram == a.vram)
        &&& (0xFE00 <= loc <= 0xFE9F && a.oam_open() ==> b.oam@ == a.oam@.update(loc - 0xFE00, value))
        &&& (!(0xFE00 <= loc <= 0xFE9F && a.oam_open()) ==> b.oam == a.oam)
        &&& (b.scy == if loc == 0xFF42 { value } else { a.scy })
        &&& (b.scx == if loc == 0xFF43 { value } else { a.scx })
        &&& (b.lyc == if loc == 0xFF45 { value } else { a.lyc })
        &&& (b.dma == if loc == 0xFF46 { value } else { a.dma })
        &&& (b.bgp == if loc == 0xFF47 { value } else { a.bgp })
        &&& (b.obp0 == if loc == 0xFF48 { value } else { a.obp0 })
        &&& (b.obp1 == if loc == 0xFF49 { value } else { a.obp1 })
        &&& (b.wy == if loc == 0xFF4A { value } else { a.wy })
        &&& (b.wx == if loc == 0xFF4B { value } else { a.wx })
        &&& (loc == 0xFF41 ==> b.stat == (value & 0xF8) | (a.stat & 0x07))
        &&& (loc != 0xFF41 && loc != 0xFF40 ==> b.stat == a.stat)
        &&& (loc != 0xFF40 ==> b.lcdc == a.lcdc)
        &&& (loc != 0xFF40 ==> b.state == a.state && b.ly == a.ly && b.dot == a.dot)
        &&& (b.vblank == a.vblank)
        &&& (b.stat_int == a.stat_int)
        &&& (b.stat_int_ly == a.stat_int_ly)
        &&& (loc == 0xFF40 ==> (a.lcdc_on() && value & 0x80 == 0 && a.state
                != State::Mode1 ==> b == a))
        &&& (loc == 0xFF40 ==> (a.lcdc_on() && value & 0x80 == 0 && a.state
                == State::Mode1 ==> b == (Ppu {
                lcdc: value,
                ly: 0,
                dot: 0,
                state: State::Mode0,
                stat: a.stat & 0xFC,
                ..a
            })))
        &&& (loc == 0xFF40 && !(a.lcdc_on() && value & 0x80 == 0) ==> b == (Ppu {
                lcdc: value,
                ..a
            }))
        &&& (0x8000 <= loc <= 0x97FF && a.vram_open() ==> ({
                let i = (loc - 0x8000) as int;
                let base = i - i % 2;
                &&& b.tiles@ == a.tiles@.update(i / 16, b.tiles@[i / 16])
                &&& forall|px: int|
                    0 <= px < 8 ==> #[trigger] b.tiles@[i / 16][(i % 16) / 2][px]
                        == tile_pixel(b.vram[base], b.vram[base + 1], px)
                &&& forall|r: int|
                    0 <= r < 8 && r != (i % 16) / 2 ==> #[trigger] b.tiles@[i / 16][r]
                        == a.tiles@[i / 16][r]
            }))
        &&& (!(0x8000 <= loc <= 0x97FF && a.vram_open()) && loc != 0xFF40 ==> b.tiles
                == a.tiles)
    }

    pub fn write(&mut self, loc: usize, value: u8)
        requires
            old(self).wf(),
        ensures
            final(self).wf(),
            Self::write_post(*old(self), *final(self), loc, value),
    {
        proof {
            crate::ppu::state_handler::lemma_stat_bits(old(self).stat, 0);
        }
        if 0x8000 <= loc && loc <= 0x9FFF {
            if self.state != State::Mode3 || !self.is_lcd_active() {
                self.vram[loc - 0x8000] = value;
                if loc <= 0x97FF {
                    self.write_tiles(loc - 0x8000);
                }
            }
        } else if 0xFE00 <= loc && loc <= 0xFE9F {
            if self.state == State::Mode0 || self.state == State::Mode1 || !self.is_lcd_active() {
                self.oam[loc - 0xFE00] = value;
            }
        } else if loc == 0xFF40 {
            self.write_lcdc(value);
        } else if loc == 0xFF41 {
            self.write_stat(value);
        } else if loc == 0xFF42 {
            self.scy = value;
        } else if loc == 0xFF43 {
            self.scx = value;
        } else if loc == 0xFF4A {
            self.wy = value;
        } else if loc == 0xFF4B {
            self.wx = value;
        } else if loc == 0xFF45 {
            self.lyc = value;
        } else if loc == 0xFF46 {
            self.dma = value;
        } else if loc == 0xFF47 {
            self.bgp = value;
        } else if loc == 0xFF48 {
            self.obp0 = value;
        } else if loc == 0xFF49 {
            self.obp1 = value;
        }
    }

    /// Decodes again the tile row that holds video-memory byte `loc`.
    fn write_tiles(&mut self, loc: usize)
        requires
            old(self).wf(),
            loc < 0x1800,
        ensures
            final(self).wf(),
            *final(self) == (Ppu { tiles: final(self).tiles, ..*old(self) }),
            ({
                let base = (loc - loc % 2) as int;
                let row = (loc % 16) / 2;
                final(self).tiles@ == old(self).tiles@.update(
                    loc as int / 16,
                    final(self).tiles@[loc as int / 16],
                ) && (forall|px: int|
                    0 <= px < 8 ==> #[trigger] final(self).tiles@[loc as int / 16][row as int][px]
                        == tile_pixel(old(self).vram[base], old(self).vram[base + 1], px))
                    && (forall|r: int|
                    0 <= r < 8 && r != row ==> #[trigger] final(self).tiles@[loc as int / 16][r] == old(self).tiles@[loc as int / 16][r])
            }),
    {
        let normalized_loc = loc - loc % 2;
        let tile_loc = loc / 16;
        let row_loc = (loc % 16) / 2;
        let byte1 = self.vram[normalized_loc];
        let byte2 = self.vram[normalized_loc + 1];
        let mut tile: Tile = self.tiles[tile_loc];
        let ghost before = tile;
        let mut pixel_index: usize = 0;
        while pixel_index < 8
            invariant
                pixel_index <= 8,
                row_loc < 8,
                forall|px: int|
                    0 <= px < pixel_index ==> #[trigger] tile[row_loc as int][px] == tile_pixel(
                        byte1,
                        byte2,
                        px,
                    ),
                forall|r: int| 0 <= r < 8 && r != row_loc ==> tile[r] == before[r],
            decreases 8 - pixel_index,
        {
            let mask: u8 = 1u8 << (7 - pixel_index) as u8;
            let lsb = byte1 & mask;
            let msb = byte2 & mask;
            let value: u8 = if lsb != 0 && msb != 0 {
                3
            } else if lsb != 0 {
                2
            } else if msb != 0 {
                1
            } else {
                0
            };
            let mut row = tile[row_loc];
            row[pixel_index] = value;
            tile[row_loc] = row;
            pixel_index = pixel_index + 1;
        }
        self.tiles.set(tile_loc, tile);
    }
}

} // verus!
