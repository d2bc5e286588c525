use vstd::prelude::*;
use core::cmp::Ordering;
use crate::ppu::config::Tile;

verus! {

/// One sprite descriptor taken from object memory.
#[derive(Copy, Clone, Debug)]
pub struct Object {
    pub x: u8,
    pub y: u8,
    pub index: u8,
    pub flags: u8,
    pub oam_position: u8,
}

/// Drawing order of sprites: by horizontal position, and by place in object
/// memory among sprites at the same position.
pub open spec fn obj_cmp(a: Object, b: Object) -> Ordering {
    if a.x < b.x {
        Ordering::Less
    } else if a.x > b.x {
        Ordering::Greater
    } else if a.oam_position < b.oam_position {
        Ordering::Less
    } else if a.oam_position > b.oam_position {
        Ordering::Greater
    } else {
        Ordering::Equal
    }
}

pub open spec fn obj_before(a: Object, b: Object) -> bool {
    obj_cmp(a, b) == Ordering::Less
}

impl Object {
    pub fn new(x: u8, y: u8, index: u8, flags: u8, oam_position: u8) -> (r: Object)
        ensures
            r == (Object { x, y, index, flags, oam_position }),
    {
        Object { x, y, index, flags, oam_position }
    }
}

impl PartialEq for Object {
    fn eq(&self, other: &Object) -> (r: bool) {
        self.x == other.x && self.oam_position == other.oam_position
    }
}

impl vstd::std_specs::cmp::PartialEqSpecImpl for Object {
    open spec fn obeys_eq_spec() -> bool {
        true
    }

    open spec fn eq_spec(&self, other: &Object) -> bool {
        self.x == other.x && self.oam_position == other.oam_position
    }
}

impl PartialOrd for Object {
    fn partial_cmp(&self, other: &Object) -> (r: Option<Ordering>) {
        if self.x < other.x {
            Some(Ordering::Less)
        } else if self.x > other.x {
            Some(Ordering::Greater)
        } else if self.oam_position < other.oam_position {
            Some(Ordering::Less)
        } else if self.oam_position > other.oam_position {
            Some(Ordering::Greater)
        } else {
            Some(Ordering::Equal)
        }
    }
}

impl vstd::std_specs::cmp::PartialOrdSpecImpl for Object {
    open spec fn obeys_partial_cmp_spec() -> bool {
        true
    }

    open spec fn partial_cmp_spec(&self, other: &Object) -> Option<Ordering> {
        Some(obj_cmp(*self, *other))
    }
}

/// Pixel `(y, x)` of an 8x8 sprite drawn with the flip bits of `flags`
/// (bit 6 vertical, bit 5 horizontal).
pub open spec fn flipped_pixel(tile: Tile, flags: u8, y: int, x: int) -> u8 {
    let yy = if flags & 0x40 != 0 {
        7 - y
    } else {
        y
    };
    let xx = if flags & 0x20 != 0 {
        7 - x
    } else {
        x
    };
    tile[yy][xx]
}

/// Pixel `(y, x)`, `y < 16`, of an 8x16 sprite made of `top` over `bottom`
/// drawn with the flip bits of `flags`.
pub open spec fn flipped_pixel_16(top: Tile, bottom: Tile, flags: u8, y: int, x: int) -> u8 {
    let yy = if flags & 0x40 != 0 {
        15 - y
    } else {
        y
    };
    let xx = if flags & 0x20 != 0 {
        7 - x
    } else {
        x
    };
    if yy < 8 {
        top[yy][xx]
    } else {
        bottom[yy - 8][xx]
    }
}

/// An 8x16 sprite after its flips, as its top and bottom halves.
pub fn flip_tile_if_flag_16(tile: Tile, tile2: Tile, flags: u8) -> (r: (Tile, Tile))
    ensures
        forall|y: int, x: int|
            0 <= y < 8 && 0 <= x < 8 ==> r.0[y][x] == flipped_pixel_16(tile, tile2, flags, y, x)
                && r.1[y][x] == flipped_pixel_16(tile, tile2, flags, y + 8, x),
{
    let yflip = flags & 0x40 != 0;
    let xflip = flags & 0x20 != 0;
    let mut new_sprite1: Tile = [[0u8; 8]; 8];
    let mut new_sprite2: Tile = [[0u8; 8]; 8];
    let mut y: usize = 0;
    while y < 8
        invariant
            y <= 8,
            yflip == (flags & 0x40 != 0),
            xflip == (flags & 0x20 != 0),
            forall|a: int, x: int|
                0 <= a < y && 0 <= x < 8 ==> new_sprite1[a][x] == flipped_pixel_16(
                    tile,
                    tile2,
                    flags,
                    a,
                    x,
                ) && new_sprite2[a][x] == flipped_pixel_16(tile, tile2, flags, a + 8, x),
        decreases 8 - y,
    {
        if yflip {
            new_sprite1[y] = pick_row(tile2[7 - y], xflip);
            new_sprite2[y] = pick_row(tile[7 - y], xflip);
        } else {
            new_sprite1[y] = pick_row(tile[y], xflip);
            new_sprite2[y] = pick_row(tile2[y], xflip);
        }
        y = y + 1;
    }
    (new_sprite1, new_sprite2)
}

/// An 8x8 sprite after its flips.
pub fn flip_tile_if_flag(tile: Tile, flags: u8) -> (r: Tile)
    ensures
        forall|y: int, x: int|
            0 <= y < 8 && 0 <= x < 8 ==> r[y][x] == flipped_pixel(tile, flags, y, x),
{
    let yflip = flags & 0x40 != 0;
    let xflip = flags & 0x20 != 0;
    let mut new_tile: Tile = [[0u8; 8]; 8];
    let mut y: usize = 0;
    while y < 8
        invariant
            y <= 8,
            yflip == (flags & 0x40 != 0),
            xflip == (flags & 0x20 != 0),
            forall|a: int, x: int|
                0 <= a < y && 0 <= x < 8 ==> new_tile[a][x] == flipped_pixel(tile, flags, a, x),
        decreases 8 - y,
    {
        if yflip {
            new_tile[y] = pick_row(tile[7 - y], xflip);
        } else {
            new_tile[y] = pick_row(tile[y], xflip);
        }
        y = y + 1;
    }
    new_tile
}

fn pick_row(row: [u8; 8], xflip: bool) -> (r: [u8; 8])
    ensures
        forall|x: int| 0 <= x < 8 ==> r[x] == if xflip { row[7 - x] } else { row[x] },
{
    if xflip {
        flip_x(row)
    } else {
        row
    }
}

fn flip_x(row: [u8; 8]) -> (r: [u8; 8])
    ensures
        forall|x: int| 0 <= x < 8 ==> r[x] == row[7 - x],
{
    let mut new_row = [0u8; 8];
    let mut x: usize = 0;
    while x < 8
        invariant
            x <= 8,
            forall|i: int| 0 <= i < x ==> new_row[i] == row[7 - i],
        decreases 8 - x,
    {
        new_row[x] = row[7 - x];
        x = x + 1;
    }
    new_row
}

} // verus!
