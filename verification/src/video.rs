use vstd::prelude::*;
use crate::bytes::{le_u16, read_le_u16};

verus! {

/// A 15-bit colour as the display receives it.
///
/// Bit layout, from the least significant bit: red (5 bits), green (5),
/// blue (5), one unused bit.
#[derive(Clone, Copy, PartialEq, Eq, Structural, Debug)]
pub struct DisplayColour {
    pub value: u16,
}

impl DisplayColour {
    pub open spec fn spec_red(&self) -> u8 {
        (self.value % 32) as u8
    }

    pub open spec fn spec_green(&self) -> u8 {
        ((self.value / 32) % 32) as u8
    }

    pub open spec fn spec_blue(&self) -> u8 {
        ((self.value / 1024) % 32) as u8
    }

    /// The colour with the given 5-bit components and the unused bit clear.
    pub fn init(r: u8, g: u8, b: u8) -> (c: Self)
        requires
            r < 32,
            g < 32,
            b < 32,
        ensures
            c.value == r + 32 * g + 1024 * b,
            c.red() == r,
            c.green() == g,
            c.blue() == b,
            c.value < 32768,
    {
        DisplayColour { value: r as u16 + (g as u16) * 32 + (b as u16) * 1024 }
    }

    /// Red component, bits 0 to 4.
    #[verifier::when_used_as_spec(spec_red)]
    pub fn red(&self) -> (r: u8)
        ensures
            r == self.spec_red(),
            r < 32,
    {
        (self.value % 32) as u8
    }

    /// Green component, bits 5 to 9.
    #[verifier::when_used_as_spec(spec_green)]
    pub fn green(&self) -> (r: u8)
        ensures
            r == self.spec_green(),
            r < 32,
    {
        ((self.value / 32) % 32) as u8
    }

    /// Blue component, bits 10 to 14.
    #[verifier::when_used_as_spec(spec_blue)]
    pub fn blue(&self) -> (r: u8)
        ensures
            r == self.spec_blue(),
            r < 32,
    {
        ((self.value / 1024) % 32) as u8
    }

    /// The colour as a 0RGB word with 8 bits per channel: each 5-bit
    /// component goes to the top of its byte (red at bit 19, green at bit
    /// 11, blue at bit 3) and every other bit is clear.
    pub fn to_minifb_format(&self) -> (r: u32)
        ensures
            r == self.red() * 524288 + self.green() * 2048 + self.blue() * 8,
    {
        (self.red() as u32) * 524288 + (self.green() as u32) * 2048 + (self.blue() as u32) * 8
    }

    /// The components in RGB565 order: red (5 bits), green doubled to 6
    /// bits, blue (5 bits).
    pub fn to_rgb565_format(&self) -> (r: (u8, u8, u8))
        ensures
            r.0 == self.red(),
            r.1 == 2 * self.green(),
            r.2 == self.blue(),
    {
        (self.red(), self.green() * 2, self.blue())
    }
}

/// One 8x8 tile in 4-bit colour depth: 32 bytes, four per row, two pixels
/// per byte with the left pixel in the low nibble.
#[derive(Clone, Copy)]
pub struct Tile4 {
    pub data: [u8; 32],
}

/// The colour index of pixel `(x, y)` of the 4-bit tile whose bytes are `data`.
pub open spec fn tile4_colour(data: Seq<u8>, x: int, y: int) -> u8 {
    let byte = data[y * 4 + x / 2];
    if x % 2 == 0 { byte % 16 } else { byte / 16 }
}

/// The colour index of pixel `(x, y)` of the 8-bit tile whose bytes are `data`.
pub open spec fn tile8_colour(data: Seq<u8>, x: int, y: int) -> u8 {
    data[y * 8 + x]
}

impl Tile4 {
    /// Colour index (0 to 15) of pixel `(x, y)`.
    pub fn get_colour(&self, x: usize, y: usize) -> (r: u8)
        requires
            x < 8,
            y < 8,
        ensures
            r == tile4_colour(self.data@, x as int, y as int),
            r < 16,
    {
        let byte = self.data[y * 4 + x / 2];
        if x % 2 == 0 { byte % 16 } else { byte / 16 }
    }
}

/// One 8x8 tile in 8-bit colour depth: 64 bytes, one per pixel, row by row.
#[derive(Clone, Copy)]
pub struct Tile8 {
    pub data: [u8; 64],
}

impl Tile8 {
    /// Colour index of pixel `(x, y)`.
    pub fn get_colour(&self, x: usize, y: usize) -> (r: u8)
        requires
            x < 8,
            y < 8,
        ensures
            r == tile8_colour(self.data@, x as int, y as int),
    {
        self.data[y * 8 + x]
    }
}

/// Entry of a text-mode tile map.
///
/// Bit layout, from the least significant bit: tile number (10 bits),
/// horizontal flip, vertical flip (one bit each), palette number (4 bits).
#[derive(Clone, Copy)]
pub struct MapTextEntry {
    pub value: u16,
}

impl MapTextEntry {
    pub open spec fn spec_tile(&self) -> u16 {
        self.value % 1024
    }

    pub open spec fn spec_palette(&self) -> u8 {
        (self.value / 4096) as u8
    }

    /// Tile number, bits 0 to 9.
    #[verifier::when_used_as_spec(spec_tile)]
    pub fn tile(&self) -> (r: u16)
        ensures
            r == self.spec_tile(),
            r < 1024,
    {
        self.value % 1024
    }

    /// Palette number, bits 12 to 15.
    #[verifier::when_used_as_spec(spec_palette)]
    pub fn palette(&self) -> (r: u8)
        ensures
            r == self.spec_palette(),
            r < 16,
    {
        (self.value / 4096) as u8
    }
}

/// The three channels of a colour occupy disjoint 5-bit fields, red lowest:
/// they reassemble the colour's 15 colour bits.
pub proof fn law_colour_channels(c: DisplayColour)
    ensures
        c.red() + 32 * c.green() + 1024 * c.blue() == c.value % 32768,
{
}

/// A 4-bit tile packs two pixels per byte, left pixel in the low nibble:
/// byte `4 * y + k` holds pixels `2 * k` and `2 * k + 1` of row `y`.
pub proof fn law_tile4_packing(data: Seq<u8>, k: int, y: int)
    requires
        data.len() == 32,
        0 <= k < 4,
        0 <= y < 8,
    ensures
        tile4_colour(data, 2 * k, y) < 16,
        tile4_colour(data, 2 * k + 1, y) < 16,
        tile4_colour(data, 2 * k, y) + 16 * tile4_colour(data, 2 * k + 1, y) == data[4 * y + k],
{
    assert((2 * k) / 2 == k && (2 * k) % 2 == 0);
    assert((2 * k + 1) / 2 == k && (2 * k + 1) % 2 == 1);
}

/// An 8-bit tile holds one pixel per byte, row by row: the pixel below
/// `(x, y)` is eight bytes further on, the pixel to its right the next byte.
pub proof fn law_tile8_layout(data: Seq<u8>, x: int, y: int)
    requires
        data.len() == 64,
        0 <= x < 7,
        0 <= y < 7,
    ensures
        tile8_colour(data, 0, 0) == data[0],
        tile8_colour(data, x + 1, y) == data[8 * y + x + 1],
        tile8_colour(data, x, y + 1) == data[8 * y + x + 8],
{
}

/// Number of bytes of video memory.
pub const VRAM_SIZE: usize = 98304;

/// Video memory: 96 KiB holding tile sets and tile maps.
pub struct VRAM {
    _data: [u8; 98304],
}

impl View for VRAM {
    type V = Seq<u8>;

    closed spec fn view(&self) -> Seq<u8> {
        self._data@
    }
}

impl VRAM {
    /// Video memory with every byte clear.
    pub fn zeroed() -> (r: Self)
        ensures
            r@.len() == VRAM_SIZE,
            forall|i: int| 0 <= i < VRAM_SIZE ==> #[trigger] r@[i] == 0,
    {
        VRAM { _data: [0u8; 98304] }
    }

    /// Video memory holding the given bytes.
    pub fn init(data: [u8; 98304]) -> (r: Self)
        ensures
            r@ == data@,
    {
        VRAM { _data: data }
    }

    /// The bytes of video memory.
    pub fn data(&self) -> (r: &[u8; 98304])
        ensures
            r@ == self@,
    {
        &self._data
    }
}

/// Colour palettes: 256 background colours, then 256 object colours.
pub struct Palette {
    pub bg: [DisplayColour; 256],
    pub obj: [DisplayColour; 256],
}

impl Palette {
    /// Palettes with every colour clear.
    pub fn zeroed() -> (r: Self)
        ensures
            forall|i: int| 0 <= i < 256 ==> (#[trigger] r.bg[i]).value == 0 && r.obj[i].value == 0,
    {
        Palette { bg: [DisplayColour { value: 0 }; 256], obj: [DisplayColour { value: 0 }; 256] }
    }

    /// The palettes that a 1 KiB image of palette memory holds: each colour a
    /// little-endian 16-bit word, background colours first.
    pub fn from_le_bytes(bytes: &[u8; 1024]) -> (r: Self)
        ensures
            forall|i: int| 0 <= i < 256 ==> (#[trigger] r.bg[i]).value == le_u16(bytes@, 2 * i),
            forall|i: int| 0 <= i < 256 ==> (#[trigger] r.obj[i]).value == le_u16(bytes@, 512 + 2 * i),
    {
        let b: &[u8] = bytes;
        let mut r = Palette::zeroed();
        let mut i: usize = 0;
        while i < 256
            invariant
                i <= 256,
                b@ == bytes@,
                b@.len() == 1024,
                forall|j: int| 0 <= j < i ==> (#[trigger] r.bg[j]).value == le_u16(bytes@, 2 * j),
                forall|j: int| 0 <= j < i ==> (#[trigger] r.obj[j]).value == le_u16(bytes@, 512 + 2 * j),
            decreases 256 - i,
        {
            r.bg[i] = DisplayColour { value: read_le_u16(b, 2 * i) };
            r.obj[i] = DisplayColour { value: read_le_u16(b, 512 + 2 * i) };
            i += 1;
        }
        r
    }

    /// Background colour `colour` of the single 256-colour palette.
    pub fn get_bg_colour_256(&self, colour: usize) -> (r: DisplayColour)
        requires
            colour < 256,
        ensures
            r == self.bg[colour as int],
    {
        self.bg[colour]
    }

    /// Background colour `colour` of 16-colour palette `palette`.
    pub fn get_bg_colour_16(&self, palette: usize, colour: usize) -> (r: DisplayColour)
        requires
            palette * 16 + colour < 256,
        ensures
            r == self.bg[palette * 16 + colour],
    {
        self.bg[palette * 16 + colour]
    }

    /// Object colour `colour` of the single 256-colour palette.
    pub fn get_obj_colour_256(&self, colour: usize) -> (r: DisplayColour)
        requires
            colour < 256,
        ensures
            r == self.obj[colour as int],
    {
        self.obj[colour]
    }

    /// Object colour `colour` of 16-colour palette `palette`.
    pub fn get_obj_colour_16(&self, palette: usize, colour: usize) -> (r: DisplayColour)
        requires
            palette * 16 + colour < 256,
        ensures
            r == self.obj[palette * 16 + colour],
    {
        self.obj[palette * 16 + colour]
    }
}

} // verus!
