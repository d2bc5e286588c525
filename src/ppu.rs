pub mod color;
pub mod config;
pub mod lcdc;
pub mod object;
pub mod renderer;
pub mod stat;
pub mod state_handler;
pub mod vram;

use vstd::prelude::*;
use crate::ppu::color::{from_u8_rgb, get_u32_color, shade_color, rgb};
use crate::ppu::config::{
    State, Tile, DEBUG_BUFFER, DEBUG_HEIGHT, DEBUG_WIDTH, OAM_SIZE, TILE_COUNT, VIDEO_BUFFER,
    VRAM_SIZE,
};
use crate::ppu::object::Object;
use crate::ppu::state_handler::{
    lemma_stat_bits, lemma_stat_sources, stat_int_after, stat_ly_after, timing_after, vblank_in,
};
use crate::ppu::stat::mode_bits;

verus! {

/// The pixel pipeline: scanline state machine, video and object memory,
/// decoded tile cache and the frame being drawn.
pub struct Ppu {
    /// One-shot signal: vertical blank was entered.
    pub vblank: bool,
    /// One-shot signal: a mode-entry status interrupt condition was met.
    pub stat_int: bool,
    /// One-shot signal: the line counter matched the comparison target.
    pub stat_int_ly: bool,
    /// Dots since the start of the frame.
    pub dot: u32,
    pub video_buffer: Vec<u32>,
    /// Background and window colors of the frame, for sprite priority.
    pub bg_trace: Vec<u32>,
    /// Sprites of the current line, in drawing priority order.
    pub objects: Vec<Object>,
    pub frame_drawn: bool,
    pub window_ly: u8,
    /// The window's vertical trigger was reached in this frame.
    pub window_latched: bool,
    pub scanline_drawn: bool,
    pub x: u8,
    pub ly: u8,
    pub lyc: u8,
    pub state: State,
    pub debug_tiles: Vec<u32>,
    pub vram: [u8; VRAM_SIZE],
    pub tiles: Vec<Tile>,
    pub oam: [u8; OAM_SIZE],
    pub dma: u8,
    pub lcdc: u8,
    pub stat: u8,
    pub scy: u8,
    pub scx: u8,
    pub wy: u8,
    pub wx: u8,
    pub bgp: u8,
    pub obp0: u8,
    pub obp1: u8,
}

/// Where the dot counter may stand in each mode: every visible line spends
/// its first 80 dots in OAM scan and the next 172 in pixel transfer.
pub open spec fn timing_ok(state: State, dot: u32, ly: u8) -> bool {
    let start = 456 * ly as int;
    &&& ly <= 153
    &&& start <= dot < start + 456
    &&& match state {
        State::Mode2 => ly < 144 && dot < start + 80,
        State::Mode3 => ly < 144 && start + 80 <= dot < start + 252,
        State::Mode0 => ly < 144,
        State::Mode1 => ly >= 144,
    }
}

impl Ppu {
    /// The buffers have their fixed sizes.
    pub open spec fn buffers_ok(&self) -> bool {
        &&& self.video_buffer.len() == VIDEO_BUFFER
        &&& self.bg_trace.len() == VIDEO_BUFFER
        &&& self.tiles.len() == TILE_COUNT
        &&& self.debug_tiles.len() == DEBUG_BUFFER
        &&& self.objects.len() <= 10
    }

    /// The buffers have their sizes, the counters are where the mode puts
    /// them, and the status register reports the mode.
    pub open spec fn wf(&self) -> bool {
        &&& self.buffers_ok()
        &&& timing_ok(self.state, self.dot, self.ly)
        &&& self.stat & 0x03 == mode_bits(self.state)
    }

    pub fn new() -> (r: Ppu)
        ensures
            r.wf(),
            r.state == State::Mode2 && r.dot == 0 && r.ly == 0,
            r.lcdc == 0x80 && r.stat == 0b10,
            !r.vblank && !r.stat_int && !r.stat_int_ly && !r.frame_drawn,
            r.window_ly == 0 && !r.window_latched,
            forall|i: int| 0 <= i < VIDEO_BUFFER ==> r.video_buffer@[i] == 0,
            forall|i: int| 0 <= i < VIDEO_BUFFER ==> r.bg_trace@[i] == 0,
    {
        proof {
            lemma_stat_bits(0, 0);
        }
        Ppu {
            vblank: false,
            stat_int: false,
            stat_int_ly: false,
            video_buffer: vec![0u32; VIDEO_BUFFER],
            bg_trace: vec![0u32; VIDEO_BUFFER],
            dot: 0,
            frame_drawn: false,
            window_ly: 0,
            window_latched: false,
            scanline_drawn: false,
            state: State::Mode2,
            ly: 0,
            lyc: 0,
            x: 0,
            debug_tiles: vec![0u32; DEBUG_BUFFER],
            vram: [0u8; VRAM_SIZE],
            tiles: vec![[[0u8; 8]; 8]; TILE_COUNT],
            oam: [0u8; OAM_SIZE],
            objects: Vec::new(),
            dma: 0,
            lcdc: 0x80,
            stat: 0b0000_0010,
            scy: 0,
            scx: 0,
            wy: 0,
            wx: 0,
            bgp: 0,
            obp0: 0,
            obp1: 0,
        }
    }

    /// One bus tick: four dots while the display is on, nothing otherwise.
    pub fn step(&mut self)
        requires
            old(self).wf(),
        ensures
            final(self).wf(),
            !old(self).lcdc_on() ==> *final(self) == *old(self),
            old(self).lcdc_on() ==> (final(self).state, final(self).dot, final(self).ly)
                == timing_after((old(self).state, old(self).dot, old(self).ly), 4),
            final(self).lcdc == old(self).lcdc,
            final(self).oam == old(self).oam,
            final(self).vblank == (old(self).vblank || (old(self).lcdc_on() && vblank_in(
                (old(self).state, old(self).dot, old(self).ly),
                4,
            ))),
            old(self).lcdc_on() ==> final(self).stat_int == stat_int_after(
                (old(self).state, old(self).dot, old(self).ly),
                4,
                old(self).stat_int,
                old(self).stat,
            ) && final(self).stat_int_ly == stat_ly_after(
                (old(self).state, old(self).dot, old(self).ly),
                4,
                old(self).stat_int_ly,
                old(self).lyc,
                old(self).stat,
            ),
    {
        if !self.is_lcd_active() {
            return;
        }
        let mut i: usize = 0;
        while i < 4
            invariant
                self.wf(),
                i <= 4,
                self.lcdc == old(self).lcdc,
                (self.state, self.dot, self.ly) == timing_after(
                    (old(self).state, old(self).dot, old(self).ly),
                    i as nat,
                ),
                self.oam == old(self).oam,
                self.vblank == (old(self).vblank || vblank_in(
                    (old(self).state, old(self).dot, old(self).ly),
                    i as nat,
                )),
                self.lyc == old(self).lyc,
                self.stat & 0x78 == old(self).stat & 0x78,
                self.stat_int == stat_int_after(
                    (old(self).state, old(self).dot, old(self).ly),
                    i as nat,
                    old(self).stat_int,
                    old(self).stat,
                ),
                self.stat_int_ly == stat_ly_after(
                    (old(self).state, old(self).dot, old(self).ly),
                    i as nat,
                    old(self).stat_int_ly,
                    old(self).lyc,
                    old(self).stat,
                ),
            decreases 4 - i,
        {
            let ghost before = *self;
            self.run_ppu();
            proof {
                lemma_stat_sources(self.stat, old(self).stat);
                lemma_stat_sources(before.stat, old(self).stat);
            }
            i = i + 1;
        }
    }

    pub fn get_video_buffer(&self) -> (r: &[u32])
        ensures
            r@ == self.video_buffer@,
    {
        self.video_buffer.as_slice()
    }

    /// Draws every cached tile, 32 per row with a one-pixel gap, into the
    /// debug picture and returns it.
    pub fn get_tiles_memory(&mut self) -> (r: &[u32])
        requires
            old(self).wf(),
        ensures
            final(self).wf(),
            r@ == final(self).debug_tiles@,
    {
        let mut y: usize = 0;
        let mut x: usize = 0;
        self.cover_with_red();
        let mut t: usize = 0;
        while t < TILE_COUNT && y < DEBUG_HEIGHT
            invariant
                self.wf(),
                x < DEBUG_WIDTH,
                y < DEBUG_HEIGHT + 12,
            decreases TILE_COUNT - t,
        {
            let tile = self.tiles[t];
            if x + 8 <= DEBUG_WIDTH && y + 8 <= DEBUG_HEIGHT {
                write_tile_in_debug_buffer(&tile, &mut self.debug_tiles, x, y);
            }
            x = x + 9;
            if x >= DEBUG_WIDTH {
                x = 0;
                y = y + 9;
            }
            if y == 6 * 9 || y == (9 * 9 + 3) {
                y = y + 3;
            }
            t = t + 1;
        }
        self.debug_tiles.as_slice()
    }

    fn cover_with_red(&mut self)
        requires
            old(self).wf(),
        ensures
            final(self).wf(),
            forall|i: int|
                0 <= i < DEBUG_BUFFER ==> final(self).debug_tiles@[i] == rgb(255, 0, 0),
    {
        let mut index: usize = 0;
        while index < DEBUG_BUFFER
            invariant
                self.wf(),
                forall|i: int| 0 <= i < index ==> self.debug_tiles@[i] == rgb(255, 0, 0),
            decreases DEBUG_BUFFER - index,
        {
            self.debug_tiles.set(index, from_u8_rgb(255, 0, 0));
            index = index + 1;
        }
    }
}

fn write_tile_in_debug_buffer(tile: &Tile, buffer: &mut Vec<u32>, x: usize, y: usize)
    requires
        old(buffer).len() == DEBUG_BUFFER,
        x + 8 <= DEBUG_WIDTH,
        y + 8 <= DEBUG_HEIGHT,
    ensures
        final(buffer).len() == DEBUG_BUFFER,
        forall|yd: int, xd: int|
            0 <= yd < 8 && 0 <= xd < 8 ==> final(buffer)@[(y + yd) * DEBUG_WIDTH + x + xd]
                == shade_color(tile[yd][xd]),
{
    let mut yd: usize = 0;
    while yd < 8
        invariant
            buffer.len() == DEBUG_BUFFER,
            x + 8 <= DEBUG_WIDTH,
            y + 8 <= DEBUG_HEIGHT,
            yd <= 8,
            forall|a: int, b: int|
                0 <= a < yd && 0 <= b < 8 ==> buffer@[(y + a) * DEBUG_WIDTH + x + b]
                    == shade_color(tile[a][b]),
        decreases 8 - yd,
    {
        let mut xd: usize = 0;
        while xd < 8
            invariant
                buffer.len() == DEBUG_BUFFER,
                x + 8 <= DEBUG_WIDTH,
                y + 8 <= DEBUG_HEIGHT,
                yd < 8,
                xd <= 8,
                forall|a: int, b: int|
                    0 <= a < yd && 0 <= b < 8 ==> buffer@[(y + a) * DEBUG_WIDTH + x + b]
                        == shade_color(tile[a][b]),
                forall|b: int|
                    0 <= b < xd ==> buffer@[(y + yd) * DEBUG_WIDTH + x + b] == shade_color(
                        tile[yd as int][b],
                    ),
            decreases 8 - xd,
        {
            let idx = (y + yd) * DEBUG_WIDTH + xd + x;
            buffer.set(idx, get_u32_color(tile[yd][xd]));
            proof {
                assert forall|a: int, b: int|
                    0 <= a < yd && 0 <= b < 8 implies buffer@[(y + a) * DEBUG_WIDTH + x + b]
                    == shade_color(tile[a][b]) by {
                    assert((y + a) * DEBUG_WIDTH + x + b != idx) by (nonlinear_arith)
                        requires
                            a < yd,
                            0 <= b < 8,
                            idx == (y + yd) * 288 + xd + x,
                            xd < 8,
                            DEBUG_WIDTH == 288,
                    ;
                }
            }
            xd = xd + 1;
        }
        yd = yd + 1;
    }
}

} // verus!
