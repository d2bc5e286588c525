use vstd::prelude::*;
use crate::ppu::color::{get_u32_color, palette_shade, shade_color, sprite_shade};
use crate::ppu::config::{Tile, HEIGHT, VIDEO_BUFFER, WIDTH};
use crate::ppu::object::{
    flip_tile_if_flag, flip_tile_if_flag_16, flipped_pixel, flipped_pixel_16, obj_before, Object,
};
use crate::ppu::Ppu;

verus! {

/// Index into the tile cache of a tile-map entry: unsigned from 0, or
/// signed around 128.
pub open spec fn tile_index(lcdc: u8, entry: u8) -> int {
    if lcdc & 0x10 != 0 {
        entry as int
    } else {
        128 + (entry as int + 128) % 256
    }
}

/// Offset in video memory of the tile map picked by `second`.
pub open spec fn map_base(second: bool) -> int {
    if second {
        0x1c00
    } else {
        0x1800
    }
}

/// Color index of the map pixel at `(mx, my)` of the map at `base`.
pub open spec fn map_pixel(p: Ppu, base: int, mx: int, my: int) -> u8 {
    let entry = p.vram[base + (my / 8) * 32 + mx / 8];
    p.tiles@[tile_index(p.lcdc, entry)][my % 8][mx % 8]
}

/// Color index of the background at screen column `sx` of the current line.
pub open spec fn bg_pixel(p: Ppu, sx: int) -> u8 {
    map_pixel(
        p,
        map_base(p.lcdc & 0x08 != 0),
        (sx + p.scx) % 256,
        (p.ly + p.scy) % 256,
    )
}

/// The window covers screen column `sx` (its left edge is at `wx - 7`).
pub open spec fn window_covers(p: Ppu, sx: int) -> bool {
    sx + 7 >= p.wx
}

/// Color index of the window at screen column `sx` of the current line.
pub open spec fn window_pixel(p: Ppu, sx: int) -> u8 {
    map_pixel(p, map_base(p.lcdc & 0x40 != 0), sx + 7 - p.wx, p.window_ly as int)
}

/// Sprite with top edge `y - 16` covers line `ly`.
pub open spec fn visible_spec(y: u8, ly: u8, big_sprite: bool) -> bool {
    &&& y <= 160
    &&& ly + 16 >= y
    &&& ly + 16 < y + if big_sprite {
        16int
    } else {
        8int
    }
}

/// Sprite descriptor `i` of object memory.
pub open spec fn oam_object(oam: [u8; 160], i: int) -> Object {
    Object {
        y: oam[4 * i],
        x: oam[4 * i + 1],
        index: oam[4 * i + 2],
        flags: oam[4 * i + 3],
        oam_position: i as u8,
    }
}

pub open spec fn sorted_objects(s: Seq<Object>) -> bool {
    forall|i: int, j: int| 0 <= i < j < s.len() ==> obj_before(s[i], s[j])
}

/// The sprites picked for line `ly`: at most ten, each a visible entry of
/// object memory, in drawing order.
pub open spec fn line_objects(s: Seq<Object>, oam: [u8; 160], ly: u8, big: bool) -> bool {
    &&& s.len() <= 10
    &&& sorted_objects(s)
    &&& forall|i: int|
        0 <= i < s.len() ==> {
            &&& #[trigger] s[i].oam_position < 40
            &&& s[i] == oam_object(oam, s[i].oam_position as int)
            &&& visible_spec(s[i].y, ly, big)
        }
}

/// Color that drawing row `ly + 16 - (obj.y + y_offset)` of `sprite` puts
/// at screen column `x` of the current line: none where the sprite does not
/// cover the column, where its pixel has color 0, or where it is behind a
/// background color other than shade 0.
pub open spec fn sprite_pixel_at(p: Ppu, sprite: Tile, obj: Object, y_offset: u8, x: int) -> Option<
    u32,
> {
    let row = p.ly + 16 - (obj.y + y_offset);
    let xd = x + 8 - obj.x;
    if 0 <= row < 8 && 0 <= xd < 8 && 0 <= x < 160 {
        let pixel = sprite[row][xd];
        if pixel != 0 && !(obj.flags & 0x80 == 0x80 && p.bg_trace@[p.ly * 160 + x] != shade_color(
            0,
        )) {
            Some(shade_color(sprite_shade(p.obp0, p.obp1, pixel, obj.flags)))
        } else {
            None
        }
    } else {
        None
    }
}

/// Color that sprite `obj` puts at screen column `x` of line `ly`, given the
/// background color `bgc` drawn there: none where it does not cover the
/// column, where its (flipped) pixel has color 0, or where it stays behind a
/// background color other than shade 0.
pub open spec fn object_pixel(
    tiles: Seq<Tile>,
    lcdc: u8,
    ly: u8,
    obp0: u8,
    obp1: u8,
    bgc: u32,
    obj: Object,
    x: int,
) -> Option<u32> {
    let big = lcdc & 0x04 != 0;
    let row = ly + 16 - obj.y;
    let xd = x + 8 - obj.x;
    let top = obj.index - obj.index % 2;
    if 0 <= row < (if big { 16int } else { 8int }) && 0 <= xd < 8 && 0 <= x < 160 {
        let pixel = if big {
            flipped_pixel_16(tiles[top], tiles[top + 1], obj.flags, row, xd)
        } else {
            flipped_pixel(tiles[obj.index as int], obj.flags, row, xd)
        };
        if pixel != 0 && !(obj.flags & 0x80 == 0x80 && bgc != shade_color(0)) {
            Some(shade_color(sprite_shade(obp0, obp1, pixel, obj.flags)))
        } else {
            None
        }
    } else {
        None
    }
}

/// Color that the sprites `objs` put at column `x`: that of the first one,
/// in drawing order, that shows a pixel there.
pub open spec fn objects_pixel(
    tiles: Seq<Tile>,
    lcdc: u8,
    ly: u8,
    obp0: u8,
    obp1: u8,
    bgc: u32,
    objs: Seq<Object>,
    x: int,
) -> Option<u32>
    decreases objs.len(),
{
    if objs.len() == 0 {
        None
    } else {
        match object_pixel(tiles, lcdc, ly, obp0, obp1, bgc, objs[0], x) {
            Some(c) => Some(c),
            None => objects_pixel(tiles, lcdc, ly, obp0, obp1, bgc, objs.drop_first(), x),
        }
    }
}

/// The sprites of `p`'s line at column `x`, over the background color that
/// `p.bg_trace` holds there.
pub open spec fn sprites_at(p: Ppu, objs: Seq<Object>, x: int) -> Option<u32> {
    objects_pixel(p.tiles@, p.lcdc, p.ly, p.obp0, p.obp1, p.bg_trace@[p.ly * 160 + x], objs, x)
}

/// Color of the background, window, or blank line at column `sx` of the
/// current line, before sprites.
pub open spec fn base_color(p: Ppu, sx: int) -> u32 {
    if p.lcdc & 0x01 != 0 {
        if window_on_line(p) && window_covers(p, sx) {
            shade_color(palette_shade(p.bgp, window_pixel(p, sx)))
        } else {
            shade_color(palette_shade(p.bgp, bg_pixel(p, sx)))
        }
    } else {
        shade_color(palette_shade(p.bgp, 0))
    }
}


pub open spec fn window_on_line(p: Ppu) -> bool {
    p.lcdc & 0x20 != 0 && p.wx < WIDTH + 7 && (p.window_latched || (p.wy < HEIGHT && p.wy <= p.ly))
}

/// Line `ly` of the frame: pixels `ly * 160` to `ly * 160 + 159`.
pub open spec fn on_line(i: int, ly: int) -> bool {
    ly * 160 <= i < ly * 160 + 160
}

impl Ppu {
    /// Draws the current line: background and window (or blank when both are
    /// off), then sprites.
    pub fn render(&mut self)
        requires
            old(self).buffers_ok(),
            old(self).ly < 144,
        ensures
            final(self).buffers_ok(),
            final(self).same_but_pixels(old(self)),
            forall|i: int|
                0 <= i < VIDEO_BUFFER && !on_line(i, old(self).ly as int) ==> final(self).video_buffer@[i] == old(self).video_buffer@[i] && final(self).bg_trace@[i]
                    == old(self).bg_trace@[i],
            forall|sx: int|
                0 <= sx < WIDTH ==> #[trigger] final(self).bg_trace@[old(self).ly * 160 + sx] == if old(self).lcdc & 0x01 != 0 {
                    base_color(*old(self), sx)
                } else {
                    old(self).bg_trace@[old(self).ly * 160 + sx]
                },
            forall|sx: int|
                0 <= sx < WIDTH ==> #[trigger] final(self).video_buffer@[old(self).ly * 160 + sx]
                    == if old(self).lcdc & 0x02 != 0 {
                    match sprites_at(*final(self), old(self).objects@, sx) {
                        Some(c) => c,
                        None => base_color(*old(self), sx),
                    }
                } else {
                    base_color(*old(self), sx)
                },
    {
        let ghost start = *self;
        if self.is_bg_window_active() {
            self.render_back();
            let ghost back = *self;
            if self.window_visible() {
                self.render_window();
                proof {
                    assert forall|sx: int| 0 <= sx < WIDTH implies #[trigger] self.video_buffer@[start.ly
                        * 160 + sx] == base_color(start, sx) && self.bg_trace@[start.ly * 160 + sx]
                        == base_color(start, sx) by {
                        assert(window_on_line(start));
                        assert(window_pixel(back, sx) == window_pixel(start, sx));
                        assert(back.video_buffer@[start.ly * 160 + sx] == shade_color(
                            palette_shade(start.bgp, bg_pixel(start, sx)),
                        ));
                        assert(back.bg_trace@[start.ly * 160 + sx] == shade_color(
                            palette_shade(start.bgp, bg_pixel(start, sx)),
                        ));
                        if window_covers(start, sx) {
                            assert(window_covers(back, sx));
                            assert(self.video_buffer@[back.ly * 160 + sx] == shade_color(
                                palette_shade(back.bgp, window_pixel(back, sx)),
                            ));
                            assert(self.bg_trace@[back.ly * 160 + sx] == shade_color(
                                palette_shade(back.bgp, window_pixel(back, sx)),
                            ));
                        } else {
                            let i = start.ly * 160 + sx;
                            assert(i - back.ly * 160 == sx);
                            assert(!window_covers(back, i - back.ly * 160));
                            assert(0 <= i < VIDEO_BUFFER);
                            assert(self.video_buffer@[i] == back.video_buffer@[i]);
                            assert(self.bg_trace@[i] == back.bg_trace@[i]);
                        }
                    }
                }
            } else {
                proof {
                    assert forall|sx: int| 0 <= sx < WIDTH implies #[trigger] self.video_buffer@[start.ly
                        * 160 + sx] == base_color(start, sx) && self.bg_trace@[start.ly * 160 + sx]
                        == base_color(start, sx) by {
                    }
                }
            }
        } else {
            self.paint_white();
            proof {
                assert forall|sx: int| 0 <= sx < WIDTH implies #[trigger] self.video_buffer@[start.ly
                    * 160 + sx] == base_color(start, sx) && self.bg_trace@[start.ly * 160 + sx]
                    == start.bg_trace@[start.ly * 160 + sx] by {}
            }
        }
        let ghost mid = *self;
        assert forall|sx: int| 0 <= sx < WIDTH implies #[trigger] mid.video_buffer@[start.ly * 160 + sx]
            == base_color(start, sx) && mid.bg_trace@[start.ly * 160 + sx] == if start.lcdc & 0x01
            != 0 {
            base_color(start, sx)
        } else {
            start.bg_trace@[start.ly * 160 + sx]
        } by {}
        if self.is_obj_active() {
            self.render_obj();
            proof {
                assert forall|sx: int| 0 <= sx < WIDTH implies #[trigger] self.video_buffer@[start.ly
                    * 160 + sx] == match sprites_at(*self, start.objects@, sx) {
                    Some(c) => c,
                    None => base_color(start, sx),
                } by {
                    assert(sprites_at(mid, mid.objects@, sx) == sprites_at(*self, start.objects@, sx));
                    assert(mid.video_buffer@[start.ly * 160 + sx] == base_color(start, sx));
                }
                assert forall|sx: int| 0 <= sx < WIDTH implies #[trigger] self.bg_trace@[start.ly * 160
                    + sx] == mid.bg_trace@[start.ly * 160 + sx] by {}
            }
        }
    }

    fn render_back(&mut self)
        requires
            old(self).buffers_ok(),
            old(self).ly < 144,
        ensures
            final(self).buffers_ok(),
            final(self).same_but_pixels(old(self)),
            forall|sx: int|
                0 <= sx < WIDTH ==> {
                    let c = shade_color(palette_shade(old(self).bgp, #[trigger] bg_pixel(*old(self), sx)));
                    final(self).video_buffer@[old(self).ly * 160 + sx] == c
                        && final(self).bg_trace@[old(self).ly * 160 + sx] == c
                },
            forall|i: int|
                0 <= i < VIDEO_BUFFER && !on_line(i, old(self).ly as int) ==> final(self).video_buffer@[i] == old(self).video_buffer@[i] && final(self).bg_trace@[i]
                    == old(self).bg_trace@[i],
    {
        let ghost start = *self;
        let line = self.ly as usize * WIDTH;
        let by = self.ly.wrapping_add(self.scy);
        let base = self.get_base_index();
        let mut sx: usize = 0;
        while sx < WIDTH
            invariant
                self.buffers_ok(),
                self.same_but_pixels(&start),
                start.buffers_ok(),
                start.ly < 144,
                line == start.ly * 160,
                by == (start.ly + start.scy) % 256,
                base == map_base(start.lcdc & 0x08 != 0),
                sx <= WIDTH,
                forall|x: int|
                    0 <= x < sx ==> {
                        let c = shade_color(palette_shade(start.bgp, #[trigger] bg_pixel(start, x)));
                        self.video_buffer@[line + x] == c && self.bg_trace@[line + x] == c
                    },
                forall|i: int|
                    0 <= i < VIDEO_BUFFER && !on_line(i, start.ly as int) ==> self.video_buffer@[i]
                        == start.video_buffer@[i] && self.bg_trace@[i] == start.bg_trace@[i],
            decreases WIDTH - sx,
        {
            let bx = (sx as u8).wrapping_add(self.scx);
            let pixel = self.map_pixel_at(base, bx, by);
            let color = get_u32_color(self.get_color_from_bg_palette(pixel));
            self.video_buffer.set(line + sx, color);
            self.bg_trace.set(line + sx, color);
            sx = sx + 1;
        }
    }

    /// Draws row `y % 8` of `tile` through the background palette at tile
    /// column `x` of line `y`, in the frame and in the background trace.
    pub fn write_tile_in_video_buffer(&mut self, tile: &Tile, x: usize, y: usize)
        requires
            old(self).buffers_ok(),
            x < WIDTH / 8,
            y < HEIGHT,
        ensures
            final(self).buffers_ok(),
            final(self).same_but_pixels(old(self)),
            forall|xd: int|
                0 <= xd < 8 ==> {
                    let c = shade_color(palette_shade(old(self).bgp, tile[y as int % 8][xd]));
                    &&& #[trigger] final(self).video_buffer@[y * 160 + x * 8 + xd] == c
                    &&& final(self).bg_trace@[y * 160 + x * 8 + xd] == c
                },
            forall|i: int|
                0 <= i < VIDEO_BUFFER && !(y * 160 + x * 8 <= i < y * 160 + x * 8 + 8) ==> final(self).video_buffer@[i] == old(self).video_buffer@[i] && final(self).bg_trace@[i]
                    == old(self).bg_trace@[i],
    {
        let ghost start = *self;
        let mut xd: usize = 0;
        while xd < 8
            invariant
                self.buffers_ok(),
                self.same_but_pixels(&start),
                x < WIDTH / 8,
                y < HEIGHT,
                xd <= 8,
                forall|k: int|
                    0 <= k < xd ==> {
                        let c = shade_color(palette_shade(start.bgp, tile[y as int % 8][k]));
                        &&& #[trigger] self.video_buffer@[y * 160 + x * 8 + k] == c
                        &&& self.bg_trace@[y * 160 + x * 8 + k] == c
                    },
                forall|i: int|
                    0 <= i < VIDEO_BUFFER && !(y * 160 + x * 8 <= i < y * 160 + x * 8 + xd)
                        ==> self.video_buffer@[i] == start.video_buffer@[i] && self.bg_trace@[i]
                        == start.bg_trace@[i],
            decreases 8 - xd,
        {
            let pixel = tile[y % 8][xd];
            let color = get_u32_color(self.get_color_from_bg_palette(pixel));
            self.video_buffer.set(y * WIDTH + x * 8 + xd, color);
            self.bg_trace.set(y * WIDTH + x * 8 + xd, color);
            xd = xd + 1;
        }
    }

    /// Color index of the pixel at `(mx, my)` of the tile map at `base`.
    fn map_pixel_at(&self, base: usize, mx: u8, my: u8) -> (r: u8)
        requires
            self.buffers_ok(),
            base == 0x1800 || base == 0x1c00,
        ensures
            r == map_pixel(*self, base as int, mx as int, my as int),
    {
        let entry = self.vram[base + (my / 8) as usize * 32 + (mx / 8) as usize];
        let index = self.get_base_index_data(entry);
        let tile: Tile = self.tiles[index];
        tile[(my % 8) as usize][(mx % 8) as usize]
    }

    fn get_base_index(&self) -> (r: usize)
        ensures
            r == map_base(self.lcdc & 0x08 != 0),
    {
        if self.is_bg_tilemap2() {
            0x1c00
        } else {
            0x1800
        }
    }

    fn get_base_index_data(&self, offset: u8) -> (r: usize)
        ensures
            r == tile_index(self.lcdc, offset),
            r < 384,
    {
        if self.is_tiledata1() {
            offset as usize
        } else {
            128 + (offset.wrapping_add(128) as usize)
        }
    }

    fn render_window(&mut self)
        requires
            old(self).buffers_ok(),
            old(self).ly < 144,
        ensures
            final(self).buffers_ok(),
            final(self).same_but_pixels(old(self)),
            forall|sx: int|
                0 <= sx < WIDTH && window_covers(*old(self), sx) ==> {
                    let c = shade_color(
                        palette_shade(old(self).bgp, #[trigger] window_pixel(*old(self), sx)),
                    );
                    final(self).video_buffer@[old(self).ly * 160 + sx] == c
                        && final(self).bg_trace@[old(self).ly * 160 + sx] == c
                },
            forall|i: int|
                #![trigger final(self).video_buffer@[i]]
                #![trigger final(self).bg_trace@[i]]
                0 <= i < VIDEO_BUFFER && !(on_line(i, old(self).ly as int) && window_covers(
                    *old(self),
                    i - old(self).ly * 160,
                )) ==> final(self).video_buffer@[i] == old(self).video_buffer@[i] && final(self).bg_trace@[i] == old(self).bg_trace@[i],
    {
        let ghost start = *self;
        let line = self.ly as usize * WIDTH;
        let base = self.get_window_base_index();
        let my = self.window_ly;
        let mut sx: usize = 0;
        while sx < WIDTH
            invariant
                self.buffers_ok(),
                self.same_but_pixels(&start),
                start.buffers_ok(),
                start.ly < 144,
                line == start.ly * 160,
                my == start.window_ly,
                base == map_base(start.lcdc & 0x40 != 0),
                sx <= WIDTH,
                forall|x: int|
                    0 <= x < sx && window_covers(start, x) ==> {
                        let c = shade_color(palette_shade(start.bgp, #[trigger] window_pixel(start, x)));
                        self.video_buffer@[line + x] == c && self.bg_trace@[line + x] == c
                    },
                forall|i: int|
                    0 <= i < VIDEO_BUFFER && !(on_line(i, start.ly as int) && window_covers(
                        start,
                        i - line,
                    )) ==> self.video_buffer@[i]
                        == start.video_buffer@[i] && self.bg_trace@[i] == start.bg_trace@[i],
            decreases WIDTH - sx,
        {
            if sx + 7 >= self.wx as usize {
                let mx = (sx + 7 - self.wx as usize) as u8;
                let pixel = self.map_pixel_at(base, mx, my);
                let color = get_u32_color(self.get_color_from_bg_palette(pixel));
                self.video_buffer.set(line + sx, color);
                self.bg_trace.set(line + sx, color);
            }
            sx = sx + 1;
        }
    }

    fn get_window_base_index(&self) -> (r: usize)
        ensures
            r == map_base(self.lcdc & 0x40 != 0),
    {
        if self.is_window_tilemap2() {
            0x1c00
        } else {
            0x1800
        }
    }

    /// Blanks the current line with shade 0 of the background palette.
    fn paint_white(&mut self)
        requires
            old(self).buffers_ok(),
            old(self).ly < 144,
        ensures
            final(self).buffers_ok(),
            final(self).same_but_pixels(old(self)),
            forall|sx: int|
                0 <= sx < WIDTH ==> #[trigger] final(self).video_buffer@[old(self).ly * 160 + sx]
                    == shade_color(palette_shade(old(self).bgp, 0)),
            final(self).bg_trace == old(self).bg_trace,
            forall|i: int|
                0 <= i < VIDEO_BUFFER && !on_line(i, old(self).ly as int) ==> final(self).video_buffer@[i] == old(self).video_buffer@[i],
    {
        let ghost start = *self;
        let color = get_u32_color(self.get_color_from_bg_palette(0));
        let line = self.ly as usize * WIDTH;
        let mut x: usize = 0;
        while x < WIDTH
            invariant
                self.buffers_ok(),
                self.same_but_pixels(&start),
                self.bg_trace == start.bg_trace,
                start.ly < 144,
                line == start.ly * 160,
                color == shade_color(palette_shade(start.bgp, 0)),
                x <= WIDTH,
                forall|sx: int| 0 <= sx < x ==> #[trigger] self.video_buffer@[line + sx] == color,
                forall|i: int|
                    0 <= i < VIDEO_BUFFER && !on_line(i, start.ly as int)
                        ==> self.video_buffer@[i] == start.video_buffer@[i],
            decreases WIDTH - x,
        {
            self.video_buffer.set(line + x, color);
            x = x + 1;
        }
    }

    /// Draws the sprites of the line, the last in drawing order first, so
    /// that the first one ends up in front.
    fn render_obj(&mut self)
        requires
            old(self).buffers_ok(),
            old(self).ly < 144,
        ensures
            final(self).buffers_ok(),
            final(self).same_but_pixels(old(self)),
            final(self).bg_trace == old(self).bg_trace,
            forall|i: int|
                0 <= i < VIDEO_BUFFER && !on_line(i, old(self).ly as int) ==> final(self).video_buffer@[i] == old(self).video_buffer@[i],
            forall|x: int|
                0 <= x < WIDTH ==> final(self).video_buffer@[old(self).ly * 160 + x] == match
                    #[trigger] sprites_at(*old(self), old(self).objects@, x) {
                    Some(c) => c,
                    None => old(self).video_buffer@[old(self).ly * 160 + x],
                },
    {
        let ghost start = *self;
        let line = self.ly as usize * WIDTH;
        let mut i: usize = self.objects.len();
        while i > 0
            invariant
                self.buffers_ok(),
                self.same_but_pixels(&start),
                self.bg_trace == start.bg_trace,
                start.ly < 144,
                line == start.ly * 160,
                i <= self.objects.len(),
                forall|k: int|
                    0 <= k < VIDEO_BUFFER && !on_line(k, start.ly as int)
                        ==> self.video_buffer@[k] == start.video_buffer@[k],
                forall|x: int|
                    0 <= x < WIDTH ==> self.video_buffer@[line + x] == match #[trigger] sprites_at(
                        start,
                        start.objects@.subrange(i as int, start.objects@.len() as int),
                        x,
                    ) {
                        Some(c) => c,
                        None => start.video_buffer@[line + x],
                    },
            decreases i,
        {
            let obj = self.objects[i - 1];
            let ghost before = *self;
            self.render_object(&obj);
            proof {
                let rest = start.objects@.subrange(i as int, start.objects@.len() as int);
                let more = start.objects@.subrange(i - 1, start.objects@.len() as int);
                assert(more.drop_first() =~= rest);
                assert(more[0] == obj);
                assert forall|x: int| 0 <= x < WIDTH implies self.video_buffer@[line + x] == match
                    #[trigger] sprites_at(start, more, x) {
                    Some(c) => c,
                    None => start.video_buffer@[line + x],
                } by {
                    assert(sprites_at(start, rest, x) == sprites_at(start, rest, x));
                }
            }
            i = i - 1;
        }
        proof {
            assert(start.objects@.subrange(0, start.objects@.len() as int) =~= start.objects@);
        }
    }

    fn render_object(&mut self, obj: &Object)
        requires
            old(self).buffers_ok(),
            old(self).ly < 144,
        ensures
            final(self).buffers_ok(),
            final(self).same_but_pixels(old(self)),
            final(self).bg_trace == old(self).bg_trace,
            forall|i: int|
                0 <= i < VIDEO_BUFFER && !on_line(i, old(self).ly as int) ==> final(self).video_buffer@[i] == old(self).video_buffer@[i],
            forall|x: int|
                0 <= x < WIDTH ==> final(self).video_buffer@[old(self).ly * 160 + x] == match
                    #[trigger] object_pixel(
                    old(self).tiles@,
                    old(self).lcdc,
                    old(self).ly,
                    old(self).obp0,
                    old(self).obp1,
                    old(self).bg_trace@[old(self).ly * 160 + x],
                    *obj,
                    x,
                ) {
                    Some(c) => c,
                    None => old(self).video_buffer@[old(self).ly * 160 + x],
                },
    {
        if self.is_obj_16() {
            let top_index = (obj.index - obj.index % 2) as usize;
            let tile = self.tiles[top_index];
            let tile2 = self.tiles[top_index + 1];
            let (sprite1, sprite2) = flip_tile_if_flag_16(tile, tile2, obj.flags);
            let ghost s0 = *self;
            self.render_obj_8(sprite2, obj, 8);
            let ghost s1 = *self;
            self.render_obj_8(sprite1, obj, 0);
            proof {
                assert forall|x: int| 0 <= x < WIDTH implies self.video_buffer@[s0.ly * 160 + x]
                    == match #[trigger] object_pixel(
                    s0.tiles@,
                    s0.lcdc,
                    s0.ly,
                    s0.obp0,
                    s0.obp1,
                    s0.bg_trace@[s0.ly * 160 + x],
                    *obj,
                    x,
                ) {
                    Some(c) => c,
                    None => s0.video_buffer@[s0.ly * 160 + x],
                } by {
                    let row = s0.ly + 16 - obj.y;
                    let xd = x + 8 - obj.x;
                    if 0 <= row < 8 && 0 <= xd < 8 {
                        assert(sprite1[row][xd] == flipped_pixel_16(tile, tile2, obj.flags, row, xd));
                    }
                    if 8 <= row < 16 && 0 <= xd < 8 {
                        assert(sprite2[row - 8][xd] == flipped_pixel_16(
                            tile,
                            tile2,
                            obj.flags,
                            row - 8 + 8,
                            xd,
                        ));
                    }
                    assert(sprite_pixel_at(s0, sprite2, *obj, 8, x) == sprite_pixel_at(
                        s0,
                        sprite2,
                        *obj,
                        8,
                        x,
                    ));
                    assert(sprite_pixel_at(s1, sprite1, *obj, 0, x) == sprite_pixel_at(
                        s1,
                        sprite1,
                        *obj,
                        0,
                        x,
                    ));
                }
            }
        } else {
            let tile = self.tiles[obj.index as usize];
            let sprite = flip_tile_if_flag(tile, obj.flags);
            let ghost s0 = *self;
            self.render_obj_8(sprite, obj, 0);
            proof {
                assert forall|x: int| 0 <= x < WIDTH implies self.video_buffer@[s0.ly * 160 + x]
                    == match #[trigger] object_pixel(
                    s0.tiles@,
                    s0.lcdc,
                    s0.ly,
                    s0.obp0,
                    s0.obp1,
                    s0.bg_trace@[s0.ly * 160 + x],
                    *obj,
                    x,
                ) {
                    Some(c) => c,
                    None => s0.video_buffer@[s0.ly * 160 + x],
                } by {
                    let row = s0.ly + 16 - obj.y;
                    let xd = x + 8 - obj.x;
                    if 0 <= row < 8 && 0 <= xd < 8 {
                        assert(sprite[row][xd] == flipped_pixel(tile, obj.flags, row, xd));
                    }
                    assert(s0.lcdc & 0x04 == 0);
                    assert(tile == s0.tiles@[obj.index as int]);
                    assert(self.video_buffer@[s0.ly * 160 + x] == match sprite_pixel_at(s0, sprite, *obj, 0, x) {
                        Some(c) => c,
                        None => s0.video_buffer@[s0.ly * 160 + x],
                    });
                    assert(sprite_pixel_at(s0, sprite, *obj, 0, x) == object_pixel(
                        s0.tiles@,
                        s0.lcdc,
                        s0.ly,
                        s0.obp0,
                        s0.obp1,
                        s0.bg_trace@[s0.ly * 160 + x],
                        *obj,
                        x,
                    ));
                }
            }
        }
    }

    /// Draws the row of `sprite` (placed `y_offset` lines below the sprite's
    /// top) that falls on the current line. Color 0 is transparent; with
    /// flag bit 7 the sprite stays behind background colors other than 0.
    fn render_obj_8(&mut self, sprite: Tile, obj: &Object, y_offset: u8)
        requires
            old(self).buffers_ok(),
            old(self).ly < 144,
            y_offset <= 8,
        ensures
            final(self).buffers_ok(),
            final(self).same_but_pixels(old(self)),
            final(self).bg_trace == old(self).bg_trace,
            forall|i: int|
                0 <= i < VIDEO_BUFFER && !on_line(i, old(self).ly as int) ==> final(self).video_buffer@[i] == old(self).video_buffer@[i],
            forall|x: int|
                0 <= x < WIDTH ==> final(self).video_buffer@[old(self).ly * 160 + x] == match
                    #[trigger] sprite_pixel_at(*old(self), sprite, *obj, y_offset, x) {
                    Some(c) => c,
                    None => old(self).video_buffer@[old(self).ly * 160 + x],
                },
    {
        let ghost start = *self;
        let top = obj.y as usize + y_offset as usize;
        let ly16 = self.ly as usize + 16;
        if ly16 < top || ly16 >= top + 8 {
            return;
        }
        let row = ly16 - top;
        let line = self.ly as usize * WIDTH;
        let mut xd: usize = 0;
        while xd < 8
            invariant
                self.buffers_ok(),
                self.same_but_pixels(&start),
                self.bg_trace == start.bg_trace,
                start.ly < 144,
                line == start.ly * 160,
                row < 8,
                row == start.ly + 16 - (obj.y + y_offset),
                xd <= 8,
                forall|k: int|
                    0 <= k < VIDEO_BUFFER && !on_line(k, start.ly as int)
                        ==> self.video_buffer@[k] == start.video_buffer@[k],
                forall|x: int|
                    0 <= x < WIDTH ==> self.video_buffer@[line + x] == if x + 8 - obj.x < xd {
                        match #[trigger] sprite_pixel_at(start, sprite, *obj, y_offset, x) {
                            Some(c) => c,
                            None => start.video_buffer@[line + x],
                        }
                    } else {
                        start.video_buffer@[line + x]
                    },
            decreases 8 - xd,
        {
            let sx = obj.x as usize + xd;
            if sx >= 8 && sx - 8 < WIDTH {
                let x = sx - 8;
                let pixel = sprite[row][xd];
                if pixel != 0 {
                    let behind = obj.flags & 0x80 == 0x80 && self.is_bg_window_collision(
                        x,
                        self.ly as usize,
                    );
                    if !behind {
                        let color = self.get_sprite_color(pixel, obj.flags);
                        self.video_buffer.set(line + x, get_u32_color(color));
                    }
                }
            }
            xd = xd + 1;
        }
    }

    /// The background or window drew a color other than shade 0 at `(x, y)`.
    fn is_bg_window_collision(&self, x: usize, y: usize) -> (r: bool)
        requires
            self.buffers_ok(),
            x < WIDTH,
            y < HEIGHT,
        ensures
            r == (self.bg_trace@[y * 160 + x] != shade_color(0)),
    {
        let color = self.bg_trace[y * WIDTH + x];
        color != get_u32_color(0)
    }

    /// OAM scan: the first ten sprites of object memory that cover the
    /// current line, in drawing order.
    fn get_object_to_display(&self) -> (r: Vec<Object>)
        ensures
            line_objects(r@, self.oam, self.ly, self.lcdc & 0x04 != 0),
            scan_complete(r@, self.oam, self.ly, self.lcdc & 0x04 != 0),
    {
        let mut retval: Vec<Object> = Vec::new();
        let size = self.is_obj_16();
        let ghost big = self.lcdc & 0x04 != 0;
        let mut i: usize = 0;
        while i < 40 && retval.len() < 10
            invariant
                i <= 40,
                size == big,
                big == (self.lcdc & 0x04 != 0),
                line_objects(retval@, self.oam, self.ly, size),
                forall|k: int| 0 <= k < retval.len() ==> #[trigger] retval@[k].oam_position < i,
                retval.len() == visible_before(self.oam, self.ly, size, i as int),
                forall|j: int|
                    0 <= j < i && oam_visible(self.oam, self.ly, size, j) ==> #[trigger] listed(
                        retval@,
                        j,
                    ),
            decreases 40 - i,
        {
            let object = Object {
                y: self.oam[4 * i],
                x: self.oam[4 * i + 1],
                index: self.oam[4 * i + 2],
                flags: self.oam[4 * i + 3],
                oam_position: i as u8,
            };
            let ghost before = retval@;
            if is_object_visible(object.y, self.ly, size) {
                insert_in_order(&mut retval, object);
                proof {
                    assert forall|j: int|
                        0 <= j < i + 1 && oam_visible(self.oam, self.ly, size, j) implies #[trigger] listed(
                        retval@,
                        j,
                    ) by {
                        if j < i {
                            assert(listed(before, j));
                            let k = choose|k: int| 0 <= k < before.len() && before[k].oam_position == j;
                            assert(retval@.contains(before[k]));
                            let k2 = choose|k2: int| 0 <= k2 < retval@.len() && retval@[k2] == before[k];
                            assert(retval@[k2].oam_position == j);
                        } else {
                            let k2 = choose|k2: int| 0 <= k2 < retval@.len() && retval@[k2] == object;
                            assert(retval@[k2].oam_position == j);
                        }
                    }
                }
            }
            i = i + 1;
        }
        proof {
            lemma_visible_before_mono(self.oam, self.ly, size, i as int, 40);
            assert forall|j: int|
                0 <= j < 40 && oam_visible(self.oam, self.ly, size, j) && visible_before(
                    self.oam,
                    self.ly,
                    size,
                    j,
                ) < 10 implies #[trigger] listed(retval@, j) by {
                if j >= i {
                    lemma_visible_before_mono(self.oam, self.ly, size, i as int, j);
                }
            }
        }
        retval
    }

    /// Runs the OAM scan and keeps its result for the pixel transfer.
    pub fn build_objects_list(&mut self)
        requires
            old(self).buffers_ok(),
        ensures
            final(self).buffers_ok(),
            *final(self) == (Ppu { objects: final(self).objects, ..*old(self) }),
            line_objects(final(self).objects@, old(self).oam, old(self).ly, old(self).lcdc & 0x04 != 0),
            scan_complete(final(self).objects@, old(self).oam, old(self).ly, old(self).lcdc & 0x04 != 0),
    {
        self.objects = self.get_object_to_display();
    }
}

/// Entry `i` of object memory covers line `ly`.
pub open spec fn oam_visible(oam: [u8; 160], ly: u8, big: bool, i: int) -> bool {
    visible_spec(oam[4 * i], ly, big)
}

/// Number of entries before `n` in object memory that cover line `ly`.
pub open spec fn visible_before(oam: [u8; 160], ly: u8, big: bool, n: int) -> int
    decreases n,
{
    if n <= 0 {
        0
    } else {
        visible_before(oam, ly, big, n - 1) + if oam_visible(oam, ly, big, n - 1) {
            1int
        } else {
            0int
        }
    }
}

/// Entry `j` of object memory is in the list `s`.
pub open spec fn listed(s: Seq<Object>, j: int) -> bool {
    exists|k: int| 0 <= k < s.len() && s[k].oam_position == j
}

/// `s` holds the first ten covering entries of object memory, or all of
/// them when fewer cover the line.
pub open spec fn scan_complete(s: Seq<Object>, oam: [u8; 160], ly: u8, big: bool) -> bool {
    let total = visible_before(oam, ly, big, 40);
    &&& s.len() == if total < 10 { total } else { 10 }
    &&& forall|j: int|
        0 <= j < 40 && oam_visible(oam, ly, big, j) && visible_before(oam, ly, big, j) < 10
            ==> #[trigger] listed(s, j)
}

proof fn lemma_visible_before_mono(oam: [u8; 160], ly: u8, big: bool, a: int, b: int)
    requires
        0 <= a <= b,
    ensures
        visible_before(oam, ly, big, a) <= visible_before(oam, ly, big, b),
    decreases b,
{
    if a < b {
        lemma_visible_before_mono(oam, ly, big, a, b - 1);
    }
}

/// Inserts `obj`, which comes after every element of `v` in object memory,
/// behind the elements at the same or a smaller horizontal position.
fn insert_in_order(v: &mut Vec<Object>, obj: Object)
    requires
        sorted_objects(old(v)@),
        old(v).len() < 10,
        forall|k: int| 0 <= k < old(v).len() ==> #[trigger] old(v)@[k].oam_position < obj.oam_position,
    ensures
        sorted_objects(final(v)@),
        final(v)@.to_multiset() == old(v)@.to_multiset().insert(obj),
        final(v).len() == old(v).len() + 1,
        forall|k: int| 0 <= k < final(v).len() ==> #[trigger] final(v)@[k] == obj || old(v)@.contains(final(v)@[k]),
        final(v)@.contains(obj),
        forall|k: int| 0 <= k < old(v).len() ==> final(v)@.contains(#[trigger] old(v)@[k]),
{
    let mut pos: usize = 0;
    while pos < v.len() && v[pos].x <= obj.x
        invariant
            pos <= v.len(),
            forall|k: int| 0 <= k < pos ==> #[trigger] v@[k].x <= obj.x,
        decreases v.len() - pos,
    {
        pos = pos + 1;
    }
    let ghost old_v = v@;
    proof {
        assert forall|k: int| pos <= k < old_v.len() implies #[trigger] old_v[k].x > obj.x by {
            if k > pos {
                assert(obj_before(old_v[pos as int], old_v[k]));
            }
        }
    }
    v.insert(pos, obj);
    proof {
        assert(v@ =~= old_v.insert(pos as int, obj));
        vstd::seq_lib::to_multiset_insert(old_v, pos as int, obj);
        assert(v@[pos as int] == obj);
        assert forall|k: int| 0 <= k < old_v.len() implies v@.contains(#[trigger] old_v[k]) by {
            if k < pos {
                assert(v@[k] == old_v[k]);
            } else {
                assert(v@[k + 1] == old_v[k]);
            }
        }
        assert forall|k: int| 0 <= k < v.len() implies #[trigger] v@[k] == obj || old_v.contains(v@[k]) by {
            if k < pos {
                assert(v@[k] == old_v[k]);
            } else if k > pos {
                assert(v@[k] == old_v[k - 1]);
            }
        }
    }
}

/// A sprite at vertical position `y` covers line `ly`.
pub fn is_object_visible(y: u8, ly: u8, big_sprite: bool) -> (r: bool)
    ensures
        r == visible_spec(y, ly, big_sprite),
{
    let adjust_ly = ly as u16 + 16;
    if !is_sprite_in_visible_frame(y, big_sprite) {
        return false;
    }
    if !big_sprite {
        adjust_ly >= y as u16 && adjust_ly < (y as u16 + 8)
    } else {
        adjust_ly >= y as u16 && adjust_ly < (y as u16 + 16)
    }
}

fn is_sprite_in_visible_frame(y: u8, big_sprite: bool) -> (r: bool)
    ensures
        r == (y <= 160),
{
    y <= 160
}

} // verus!
