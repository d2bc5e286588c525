use vstd::prelude::*;
use crate::text::push_char;

verus! {

/// The cartridge header stored at 0x0134..=0x014F of the program image.
pub struct Header {
    pub title: String,
    pub new_licence_code: [u8; 2],
    pub sgb: u8,
    pub cartridge_type: u8,
    pub rom_size: u32,
    pub ram_size: u8,
    pub destination: u8,
    pub old_licence_code: u8,
    pub mask_rom_version: u8,
    pub header_checksum: u8,
    pub global_checksum: [u8; 2],
}

/// Size in KiB of the external RAM announced by header code `code`.
pub open spec fn ram_size_of(code: u8) -> u8 {
    if code == 2 {
        8
    } else if code == 3 {
        32
    } else if code == 4 {
        128
    } else if code == 5 {
        64
    } else {
        0
    }
}

/// Size in KiB of the program announced by header code `code`: 32 KiB
/// doubled `code` times.
pub open spec fn rom_size_of(code: u8) -> int
    decreases code,
{
    if code == 0 {
        32
    } else {
        2 * rom_size_of((code - 1) as u8)
    }
}

/// The title bytes of the header, one character per byte.
pub open spec fn title_of(rom: Seq<u8>) -> Seq<char> {
    Seq::new(16, |i: int| rom[0x134 + i] as char)
}

impl Header {
    pub fn new(rom: &[u8]) -> (r: Header)
        requires
            rom@.len() >= 0x150,
        ensures
            r.title@ == title_of(rom@),
            r.new_licence_code@ == seq![rom@[0x144], rom@[0x145]],
            r.sgb == rom@[0x146],
            r.cartridge_type == rom@[0x147],
            rom@[0x148] < 27 ==> r.rom_size == rom_size_of(rom@[0x148]),
            rom@[0x148] >= 27 ==> r.rom_size == 0,
            r.ram_size == ram_size_of(rom@[0x149]),
            r.destination == rom@[0x14a],
            r.old_licence_code == rom@[0x14b],
            r.mask_rom_version == rom@[0x14c],
            r.header_checksum == rom@[0x14d],
            r.global_checksum@ == seq![rom@[0x14e], rom@[0x14f]],
    {
        let rom_size = if rom[0x148] < 27 {
            get_rom_size(rom[0x148])
        } else {
            0
        };
        let h = Header {
            title: get_title(rom),
            new_licence_code: [rom[0x144], rom[0x145]],
            sgb: rom[0x146],
            cartridge_type: rom[0x147],
            rom_size,
            ram_size: get_ram_size(rom[0x149]),
            destination: rom[0x14a],
            old_licence_code: rom[0x14b],
            mask_rom_version: rom[0x14c],
            header_checksum: rom[0x14D],
            global_checksum: [rom[0x14E], rom[0x14F]],
        };
        assert(h.new_licence_code@ =~= seq![rom@[0x144], rom@[0x145]]);
        assert(h.global_checksum@ =~= seq![rom@[0x14e], rom@[0x14f]]);
        h
    }
}

fn get_title(rom: &[u8]) -> (r: String)
    requires
        rom@.len() >= 0x150,
    ensures
        r@ == title_of(rom@),
{
    let mut retval = String::new();
    let mut i: usize = 0;
    while i < 16
        invariant
            i <= 16,
            rom@.len() >= 0x150,
            retval@ =~= Seq::new(i as nat, |k: int| rom@[0x134 + k] as char),
        decreases 16 - i,
    {
        push_char(&mut retval, rom[0x134 + i] as char);
        i = i + 1;
    }
    retval
}

fn get_ram_size(ram: u8) -> (r: u8)
    ensures
        r == ram_size_of(ram),
{
    if ram == 2 {
        8
    } else if ram == 3 {
        32
    } else if ram == 4 {
        128
    } else if ram == 5 {
        64
    } else {
        0
    }
}

fn get_rom_size(value: u8) -> (r: u32)
    requires
        value < 27,
    ensures
        r == rom_size_of(value),
{
    let mut size: u32 = 32;
    let mut i: u8 = 0;
    while i < value
        invariant
            i <= value,
            value < 27,
            size == rom_size_of(i),
        decreases value - i,
    {
        proof {
            lemma_rom_size_bound((i + 1) as u8);
        }
        size = size * 2;
        i = i + 1;
    }
    size
}

pub open spec fn pow2_u(n: nat) -> int
    decreases n,
{
    if n == 0 {
        1
    } else {
        2 * pow2_u((n - 1) as nat)
    }
}

/// Every announced size up to code 26 fits in 32 bits.
proof fn lemma_rom_size_bound(i: u8)
    requires
        i <= 26,
    ensures
        rom_size_of(i) == 32 * pow2_u(i as nat),
        rom_size_of(i) <= 0x8000_0000,
    decreases i,
{
    if i > 0 {
        lemma_rom_size_bound((i - 1) as u8);
    }
    lemma_pow2_mono(i as nat, 26);
    reveal_with_fuel(pow2_u, 27);
    assert(pow2_u(26) == 67108864);
}

proof fn lemma_pow2_mono(a: nat, b: nat)
    requires
        a <= b,
    ensures
        1 <= pow2_u(a) <= pow2_u(b),
    decreases b,
{
    if a < b {
        lemma_pow2_mono(a, (b - 1) as nat);
    } else if a > 0 {
        lemma_pow2_mono((a - 1) as nat, (a - 1) as nat);
    }
}

} // verus!
