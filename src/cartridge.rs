pub mod header;

use vstd::prelude::*;

verus! {

/// Size of the program-storage range 0x0000..=0x7FFF.
pub const TOTAL_ROM_SIZE: usize = 0x8000;

/// Program storage, presented as a flat readable and writable byte range.
pub struct Cartridge {
    pub rom: Vec<u8>,
}

/// Byte `i` of the program storage loaded from `image`: the image's byte
/// where it has one, 0 past its end.
pub open spec fn image_byte(image: Seq<u8>, i: int) -> u8 {
    if i < image.len() {
        image[i]
    } else {
        0
    }
}

impl Cartridge {
    pub open spec fn wf(&self) -> bool {
        self.rom.len() == TOTAL_ROM_SIZE
    }

    /// Program storage filled with zeros.
    pub fn new() -> (r: Cartridge)
        ensures
            r.wf(),
            forall|i: int| 0 <= i < TOTAL_ROM_SIZE ==> r.rom@[i] == 0,
    {
        Cartridge { rom: vec![0u8; TOTAL_ROM_SIZE] }
    }

    /// Program storage loaded from a program image: an image shorter than the
    /// range is padded with zeros, a longer one is cut.
    pub fn from_image(image: &[u8]) -> (r: Cartridge)
        ensures
            r.wf(),
            forall|i: int| 0 <= i < TOTAL_ROM_SIZE ==> r.rom@[i] == image_byte(image@, i),
    {
        let mut rom: Vec<u8> = Vec::new();
        let mut i: usize = 0;
        while i < TOTAL_ROM_SIZE
            invariant
                i <= TOTAL_ROM_SIZE,
                rom.len() == i,
                forall|k: int| 0 <= k < i ==> rom@[k] == image_byte(image@, k),
            decreases TOTAL_ROM_SIZE - i,
        {
            if i < image.len() {
                rom.push(image[i]);
            } else {
                rom.push(0);
            }
            i = i + 1;
        }
        Cartridge { rom }
    }

    pub fn read(&self, at: u16) -> (r: u8)
        requires
            self.wf(),
            at < 0x8000,
        ensures
            r == self.rom@[at as int],
    {
        self.rom[at as usize]
    }

    pub fn write(&mut self, at: u16, value: u8)
        requires
            old(self).wf(),
            at < 0x8000,
        ensures
            final(self).wf(),
            final(self).rom@ == old(self).rom@.update(at as int, value),
    {
        self.rom.set(at as usize, value);
    }
}

} // verus!
