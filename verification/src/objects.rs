use vstd::prelude::*;
use crate::bytes::{le_u16, read_le_u16};

verus! {

/// First attribute word of a sprite in normal (not rotation/scaling) mode.
///
/// Bit layout, from the least significant bit: y coordinate (8 bits),
/// rotation/scaling flag, disable flag, mode (2 bits), mosaic,
/// 256-colour flag (one bit each), shape (2 bits).
#[derive(Clone, Copy)]
pub struct ObjAttr0Normal {
    pub value: u16,
}

impl ObjAttr0Normal {
    pub open spec fn spec_y(&self) -> u8 {
        (self.value % 256) as u8
    }

    pub open spec fn spec_rot_scale(&self) -> bool {
        (self.value / 256) % 2 == 1
    }

    pub open spec fn spec_disable(&self) -> bool {
        (self.value / 512) % 2 == 1
    }

    pub open spec fn spec_enable_256_colour(&self) -> bool {
        (self.value / 8192) % 2 == 1
    }

    pub open spec fn spec_shape(&self) -> u8 {
        (self.value / 16384) as u8
    }

    /// Top edge of the sprite, bits 0 to 7.
    #[verifier::when_used_as_spec(spec_y)]
    pub fn y(&self) -> (r: u8)
        ensures
            r == self.spec_y(),
    {
        (self.value % 256) as u8
    }

    /// Rotation/scaling flag, bit 8.
    #[verifier::when_used_as_spec(spec_rot_scale)]
    pub fn rot_scale(&self) -> (r: bool)
        ensures
            r == self.spec_rot_scale(),
    {
        (self.value / 256) % 2 == 1
    }

    /// Disable flag, bit 9.
    #[verifier::when_used_as_spec(spec_disable)]
    pub fn disable(&self) -> (r: bool)
        ensures
            r == self.spec_disable(),
    {
        (self.value / 512) % 2 == 1
    }

    /// 256-colour (8-bit depth) flag, bit 13.
    #[verifier::when_used_as_spec(spec_enable_256_colour)]
    pub fn enable_256_colour(&self) -> (r: bool)
        ensures
            r == self.spec_enable_256_colour(),
    {
        (self.value / 8192) % 2 == 1
    }

    /// Shape (0 square, 1 wide, 2 tall, 3 prohibited), bits 14 and 15.
    #[verifier::when_used_as_spec(spec_shape)]
    pub fn shape(&self) -> (r: u8)
        ensures
            r == self.spec_shape(),
            r < 4,
    {
        (self.value / 16384) as u8
    }
}

/// First attribute word of a sprite in rotation/scaling mode: as in normal
/// mode, but bit 9 selects double size.
#[derive(Clone, Copy)]
pub struct ObjAttr0RotScale {
    pub value: u16,
}

/// Second attribute word of a sprite in normal mode.
///
/// Bit layout, from the least significant bit: x coordinate (9 bits),
/// 3 unused bits, horizontal flip, vertical flip (one bit each), size (2 bits).
#[derive(Clone, Copy)]
pub struct ObjAttr1Normal {
    pub value: u16,
}

impl ObjAttr1Normal {
    pub open spec fn spec_x(&self) -> u16 {
        self.value % 512
    }

    pub open spec fn spec_horiz_flip(&self) -> bool {
        (self.value / 4096) % 2 == 1
    }

    pub open spec fn spec_vert_flip(&self) -> bool {
        (self.value / 8192) % 2 == 1
    }

    pub open spec fn spec_size(&self) -> u8 {
        (self.value / 16384) as u8
    }

    /// Left edge of the sprite, bits 0 to 8.
    #[verifier::when_used_as_spec(spec_x)]
    pub fn x(&self) -> (r: u16)
        ensures
            r == self.spec_x(),
            r < 512,
    {
        self.value % 512
    }

    /// Horizontal flip, bit 12.
    #[verifier::when_used_as_spec(spec_horiz_flip)]
    pub fn horiz_flip(&self) -> (r: bool)
        ensures
            r == self.spec_horiz_flip(),
    {
        (self.value / 4096) % 2 == 1
    }

    /// Vertical flip, bit 13.
    #[verifier::when_used_as_spec(spec_vert_flip)]
    pub fn vert_flip(&self) -> (r: bool)
        ensures
            r == self.spec_vert_flip(),
    {
        (self.value / 8192) % 2 == 1
    }

    /// Size selector, bits 14 and 15.
    #[verifier::when_used_as_spec(spec_size)]
    pub fn size(&self) -> (r: u8)
        ensures
            r == self.spec_size(),
            r < 4,
    {
        (self.value / 16384) as u8
    }
}

/// Second attribute word of a sprite in rotation/scaling mode: x coordinate
/// (9 bits), rotation/scaling parameter selection (5 bits), size (2 bits).
#[derive(Clone, Copy)]
pub struct ObjAttr1RotScale {
    pub value: u16,
}

/// Third attribute word of a sprite.
///
/// Bit layout, from the least significant bit: tile number (10 bits),
/// priority (2 bits), palette number (4 bits).
#[derive(Clone, Copy)]
pub struct ObjAttr2 {
    pub value: u16,
}

impl ObjAttr2 {
    pub open spec fn spec_tile(&self) -> u16 {
        self.value % 1024
    }

    pub open spec fn spec_prio(&self) -> u8 {
        ((self.value / 1024) % 4) as u8
    }

    pub open spec fn spec_palette(&self) -> u8 {
        (self.value / 4096) as u8
    }

    /// First tile number, bits 0 to 9.
    #[verifier::when_used_as_spec(spec_tile)]
    pub fn tile(&self) -> (r: u16)
        ensures
            r == self.spec_tile(),
            r < 1024,
    {
        self.value % 1024
    }

    /// Display priority relative to the backgrounds, bits 10 and 11.
    #[verifier::when_used_as_spec(spec_prio)]
    pub fn prio(&self) -> (r: u8)
        ensures
            r == self.spec_prio(),
            r < 4,
    {
        ((self.value / 1024) % 4) as u8
    }

    /// Palette number for 16-colour sprites, bits 12 to 15.
    #[verifier::when_used_as_spec(spec_palette)]
    pub fn palette(&self) -> (r: u8)
        ensures
            r == self.spec_palette(),
            r < 16,
    {
        (self.value / 4096) as u8
    }
}

/// The attributes of a sprite in normal mode.
#[derive(Clone, Copy)]
pub struct ObjAttrNormal {
    pub attr0: ObjAttr0Normal,
    pub attr1: ObjAttr1Normal,
    pub attr2: ObjAttr2,
    pub unused: u16,
}

impl ObjAttrNormal {
    /// Whether the sprite is switched off.
    pub fn is_disabled(&self) -> (r: bool)
        ensures
            r == self.attr0.disable(),
    {
        let attr0 = self.attr0;
        attr0.disable()
    }
}

/// The attributes of a sprite in rotation/scaling mode.
#[derive(Clone, Copy)]
pub struct ObjAttrRotScale {
    pub attr0: ObjAttr0RotScale,
    pub attr1: ObjAttr1RotScale,
    pub attr2: ObjAttr2,
    pub rot_scale: u16,
}

/// One entry of object attribute memory: four 16-bit words, read in normal
/// or rotation/scaling layout according to bit 8 of the first word.
#[derive(Clone, Copy)]
pub struct ObjAttr {
    pub words: [u16; 4],
}

impl ObjAttr {
    /// The entry read in normal layout.
    pub open spec fn normal_view(&self) -> ObjAttrNormal {
        ObjAttrNormal {
            attr0: ObjAttr0Normal { value: self.words[0] },
            attr1: ObjAttr1Normal { value: self.words[1] },
            attr2: ObjAttr2 { value: self.words[2] },
            unused: self.words[3],
        }
    }

    /// The entry read in rotation/scaling layout.
    pub open spec fn rot_scale_view(&self) -> ObjAttrRotScale {
        ObjAttrRotScale {
            attr0: ObjAttr0RotScale { value: self.words[0] },
            attr1: ObjAttr1RotScale { value: self.words[1] },
            attr2: ObjAttr2 { value: self.words[2] },
            rot_scale: self.words[3],
        }
    }

    pub open spec fn spec_is_rot_scale(&self) -> bool {
        self.normal_view().attr0.rot_scale()
    }

    pub open spec fn spec_get_prio(&self) -> u8 {
        self.normal_view().attr2.prio()
    }

    /// Whether the sprite is in rotation/scaling mode.
    #[verifier::when_used_as_spec(spec_is_rot_scale)]
    pub fn is_rot_scale(&self) -> (r: bool)
        ensures
            r == self.spec_is_rot_scale(),
    {
        let attr0 = ObjAttr0Normal { value: self.words[0] };
        attr0.rot_scale()
    }

    /// Display priority of the sprite (same position in both layouts).
    #[verifier::when_used_as_spec(spec_get_prio)]
    pub fn get_prio(&self) -> (r: u8)
        ensures
            r == self.spec_get_prio(),
            r < 4,
    {
        let attr2 = ObjAttr2 { value: self.words[2] };
        attr2.prio()
    }

    /// The normal-mode attributes, or `None` in rotation/scaling mode.
    pub fn get_normal(&self) -> (r: Option<ObjAttrNormal>)
        ensures
            r == (if self.is_rot_scale() { None } else { Some(self.normal_view()) }),
    {
        if self.is_rot_scale() {
            None
        } else {
            Some(ObjAttrNormal {
                attr0: ObjAttr0Normal { value: self.words[0] },
                attr1: ObjAttr1Normal { value: self.words[1] },
                attr2: ObjAttr2 { value: self.words[2] },
                unused: self.words[3],
            })
        }
    }

    /// The rotation/scaling attributes, or `None` in normal mode.
    pub fn get_rot_scale(&self) -> (r: Option<ObjAttrRotScale>)
        ensures
            r == (if self.is_rot_scale() { Some(self.rot_scale_view()) } else { None }),
    {
        if self.is_rot_scale() {
            Some(ObjAttrRotScale {
                attr0: ObjAttr0RotScale { value: self.words[0] },
                attr1: ObjAttr1RotScale { value: self.words[1] },
                attr2: ObjAttr2 { value: self.words[2] },
                rot_scale: self.words[3],
            })
        } else {
            None
        }
    }
}

/// Object attribute memory: the attributes of 128 sprites.
pub struct OAM {
    entries: [ObjAttr; 128],
}

impl View for OAM {
    type V = Seq<ObjAttr>;

    closed spec fn view(&self) -> Seq<ObjAttr> {
        self.entries@
    }
}

impl OAM {
    /// Object attribute memory with every word clear.
    pub fn zeroed() -> (r: Self)
        ensures
            r@.len() == 128,
            forall|i: int, w: int| 0 <= i < 128 && 0 <= w < 4 ==> #[trigger] r@[i].words[w] == 0,
    {
        OAM { entries: [ObjAttr { words: [0u16; 4] }; 128] }
    }

    /// The attributes that a 1 KiB image of object attribute memory holds:
    /// sprite `i` is made of the four little-endian words at byte `8 * i`.
    pub fn from_le_bytes(bytes: &[u8; 1024]) -> (r: Self)
        ensures
            r@.len() == 128,
            forall|i: int, w: int|
                0 <= i < 128 && 0 <= w < 4 ==> #[trigger] r@[i].words[w] == le_u16(bytes@, 8 * i + 2 * w),
    {
        let b: &[u8] = bytes;
        let mut entries = [ObjAttr { words: [0u16; 4] }; 128];
        let mut i: usize = 0;
        while i < 128
            invariant
                i <= 128,
                b@ == bytes@,
                b@.len() == 1024,
                forall|j: int, w: int|
                    0 <= j < i && 0 <= w < 4 ==> #[trigger] entries[j].words[w] == le_u16(bytes@, 8 * j + 2 * w),
            decreases 128 - i,
        {
            let words = [
                read_le_u16(b, 8 * i),
                read_le_u16(b, 8 * i + 2),
                read_le_u16(b, 8 * i + 4),
                read_le_u16(b, 8 * i + 6),
            ];
            entries[i] = ObjAttr { words };
            i += 1;
        }
        OAM { entries }
    }

    /// The attributes of sprite `index`.
    pub fn get(&self, index: usize) -> (r: &ObjAttr)
        requires
            index < 128,
        ensures
            *r == self@[index as int],
    {
        &self.entries[index]
    }
}

impl ObjAttr0Normal {
    pub open spec fn spec_mode(&self) -> u8 {
        ((self.value / 1024) % 4) as u8
    }

    /// The object mode (bits 10 and 11).
    #[verifier::when_used_as_spec(spec_mode)]
    pub fn mode(&self) -> (r: u8)
        ensures
            r == self.spec_mode(),
            r < 4,
    {
        ((self.value / 1024) % 4) as u8
    }

    pub open spec fn spec_mosaic(&self) -> bool {
        (self.value / 4096) % 2 == 1
    }

    /// The mosaic flag (bit 12).
    #[verifier::when_used_as_spec(spec_mosaic)]
    pub fn mosaic(&self) -> (r: bool)
        ensures
            r == self.spec_mosaic(),
    {
        (self.value / 4096) % 2 == 1
    }
}

impl ObjAttr0RotScale {
    pub open spec fn spec_y(&self) -> u8 {
        (self.value % 256) as u8
    }

    /// The top edge (bits 0 to 7).
    #[verifier::when_used_as_spec(spec_y)]
    pub fn y(&self) -> (r: u8)
        ensures
            r == self.spec_y(),
            r < 256,
    {
        (self.value % 256) as u8
    }

    pub open spec fn spec_rot_scale(&self) -> bool {
        (self.value / 256) % 2 == 1
    }

    /// The rotation/scaling flag (bit 8).
    #[verifier::when_used_as_spec(spec_rot_scale)]
    pub fn rot_scale(&self) -> (r: bool)
        ensures
            r == self.spec_rot_scale(),
    {
        (self.value / 256) % 2 == 1
    }

    pub open spec fn spec_double_size(&self) -> bool {
        (self.value / 512) % 2 == 1
    }

    /// The double size flag (bit 9).
    #[verifier::when_used_as_spec(spec_double_size)]
    pub fn double_size(&self) -> (r: bool)
        ensures
            r == self.spec_double_size(),
    {
        (self.value / 512) % 2 == 1
    }

    pub open spec fn spec_mode(&self) -> u8 {
        ((self.value / 1024) % 4) as u8
    }

    /// The object mode (bits 10 and 11).
    #[verifier::when_used_as_spec(spec_mode)]
    pub fn mode(&self) -> (r: u8)
        ensures
            r == self.spec_mode(),
            r < 4,
    {
        ((self.value / 1024) % 4) as u8
    }

    pub open spec fn spec_mosaic(&self) -> bool {
        (self.value / 4096) % 2 == 1
    }

    /// The mosaic flag (bit 12).
    #[verifier::when_used_as_spec(spec_mosaic)]
    pub fn mosaic(&self) -> (r: bool)
        ensures
            r == self.spec_mosaic(),
    {
        (self.value / 4096) % 2 == 1
    }

    pub open spec fn spec_enable_256_colour(&self) -> bool {
        (self.value / 8192) % 2 == 1
    }

    /// The 256-colour flag (bit 13).
    #[verifier::when_used_as_spec(spec_enable_256_colour)]
    pub fn enable_256_colour(&self) -> (r: bool)
        ensures
            r == self.spec_enable_256_colour(),
    {
        (self.value / 8192) % 2 == 1
    }

    pub open spec fn spec_shape(&self) -> u8 {
        ((self.value / 16384) % 4) as u8
    }

    /// The shape (bits 14 and 15).
    #[verifier::when_used_as_spec(spec_shape)]
    pub fn shape(&self) -> (r: u8)
        ensures
            r == self.spec_shape(),
            r < 4,
    {
        ((self.value / 16384) % 4) as u8
    }
}

impl ObjAttr1Normal {
    pub open spec fn spec_unused(&self) -> u8 {
        ((self.value / 512) % 8) as u8
    }

    /// The unused bits 9 to 11.
    #[verifier::when_used_as_spec(spec_unused)]
    pub fn unused(&self) -> (r: u8)
        ensures
            r == self.spec_unused(),
            r < 8,
    {
        ((self.value / 512) % 8) as u8
    }
}

impl ObjAttr1RotScale {
    pub open spec fn spec_x(&self) -> u16 {
        self.value % 512
    }

    /// The left edge (bits 0 to 8).
    #[verifier::when_used_as_spec(spec_x)]
    pub fn x(&self) -> (r: u16)
        ensures
            r == self.spec_x(),
            r < 512,
    {
        self.value % 512
    }

    pub open spec fn spec_param_sel(&self) -> u8 {
        ((self.value / 512) % 32) as u8
    }

    /// The rotation/scaling parameter selection (bits 9 to 13).
    #[verifier::when_used_as_spec(spec_param_sel)]
    pub fn param_sel(&self) -> (r: u8)
        ensures
            r == self.spec_param_sel(),
            r < 32,
    {
        ((self.value / 512) % 32) as u8
    }

    pub open spec fn spec_size(&self) -> u8 {
        ((self.value / 16384) % 4) as u8
    }

    /// The size selector (bits 14 and 15).
    #[verifier::when_used_as_spec(spec_size)]
    pub fn size(&self) -> (r: u8)
        ensures
            r == self.spec_size(),
            r < 4,
    {
        ((self.value / 16384) % 4) as u8
    }
}

} // verus!
