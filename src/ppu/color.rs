use vstd::prelude::*;
use crate::ppu::Ppu;

verus! {

/// Shade `value` (a 2-bit color index) of a palette register.
pub open spec fn palette_shade(palette: u8, value: u8) -> u8 {
    ((palette as int / pow4(value as int % 4)) % 4) as u8
}

pub open spec fn pow4(i: int) -> int {
    if i == 0 {
        1
    } else if i == 1 {
        4
    } else if i == 2 {
        16
    } else {
        64
    }
}

/// Packed 0x00RRGGBB value of a gray level.
pub open spec fn rgb(r: u8, g: u8, b: u8) -> u32 {
    (r as int * 65536 + g as int * 256 + b as int) as u32
}

/// Screen color of a shade: 0 white, 1 light, 2 dark, 3 black.
pub open spec fn shade_color(value: u8) -> u32 {
    if value == 3 {
        rgb(0, 0, 0)
    } else if value == 1 {
        rgb(0xAA, 0xAA, 0xAA)
    } else if value == 2 {
        rgb(0x55, 0x55, 0x55)
    } else if value == 0 {
        rgb(0xFF, 0xFF, 0xFF)
    } else {
        0
    }
}

/// Shade of a sprite pixel: index 0 is transparent (0x6F marks it), the
/// others go through the palette picked by bit 4 of the sprite's flags.
pub open spec fn sprite_shade(obp0: u8, obp1: u8, value: u8, flags: u8) -> u8 {
    let palette = if (flags / 16) % 2 == 1 { obp1 } else { obp0 };
    if value % 4 == 0 {
        0x6F
    } else {
        palette_shade(palette, value)
    }
}

impl Ppu {
    pub fn get_color_from_bg_palette(&self, value: u8) -> (r: u8)
        ensures
            r == palette_shade(self.bgp, value),
            r < 4,
    {
        let v = value % 4;
        if v == 0 {
            self.bgp % 4
        } else if v == 1 {
            (self.bgp / 4) % 4
        } else if v == 2 {
            (self.bgp / 16) % 4
        } else {
            (self.bgp / 64) % 4
        }
    }

    pub fn get_sprite_color(&self, value: u8, flags: u8) -> (r: u8)
        ensures
            r == sprite_shade(self.obp0, self.obp1, value, flags),
    {
        let palette = if (flags / 16) % 2 == 1 {
            self.obp1
        } else {
            self.obp0
        };
        let v = value % 4;
        if v == 0 {
            0x6F
        } else if v == 1 {
            (palette / 4) % 4
        } else if v == 2 {
            (palette / 16) % 4
        } else {
            (palette / 64) % 4
        }
    }
}

pub fn get_u32_color(value: u8) -> (r: u32)
    ensures
        r == shade_color(value),
{
    if value == 3 {
        from_u8_rgb(0x00, 0x00, 0x00)
    } else if value == 1 {
        from_u8_rgb(0xAA, 0xAA, 0xAA)
    } else if value == 2 {
        from_u8_rgb(0x55, 0x55, 0x55)
    } else if value == 0 {
        from_u8_rgb(0xFF, 0xFF, 0xFF)
    } else {
        0
    }
}

pub fn from_u8_rgb(r: u8, g: u8, b: u8) -> (c: u32)
    ensures
        c == rgb(r, g, b),
{
    (r as u32) * 65536 + (g as u32) * 256 + (b as u32)
}

} // verus!
