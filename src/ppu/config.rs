use vstd::prelude::*;

verus! {

pub const VRAM_SIZE: usize = 0x2000;
pub const OAM_SIZE: usize = 0xA0;
pub const TILE_COUNT: usize = 384;

/// A decoded 8x8 tile: `tile[row][column]` is a 2-bit color index.
pub type Tile = [[u8; 8]; 8];

pub const DEBUG_WIDTH: usize = 32 * 9;
pub const DEBUG_HEIGHT: usize = 12 * 9 + 6;
/// `DEBUG_WIDTH * DEBUG_HEIGHT` pixels.
pub const DEBUG_BUFFER: usize = 32832;

pub const WIDTH: usize = 160;
pub const HEIGHT: usize = 144;
pub const VIDEO_BUFFER: usize = WIDTH * HEIGHT;

pub const TILEMAP_SIZE: u16 = 32 * 32;

/// Dots in one scanline.
pub const LINE_DOTS: u32 = 456;
/// Dots spent in OAM scan at the start of each visible line.
pub const OAM_SCAN_DOTS: u32 = 80;
/// Dots spent in pixel transfer after the OAM scan.
pub const TRANSFER_DOTS: u32 = 172;

/// Pixel-pipeline modes: `Mode2` OAM scan, `Mode3` pixel transfer,
/// `Mode0` horizontal blank, `Mode1` vertical blank.
#[derive(Copy, Clone, Debug, PartialEq, Eq, Structural)]
pub enum State {
    Mode2,
    Mode3,
    Mode0,
    Mode1,
}

#[derive(Copy, Clone, Debug, PartialEq, Eq, Structural)]
pub enum PpuInterrupt {
    Vblank,
    Stat,
    Nothing,
}

} // verus!
