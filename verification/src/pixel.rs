use vstd::prelude::*;
use crate::registers::{DisplayRegisters, pow2_small};
use crate::video::{
    DisplayColour, MapTextEntry, Palette, Tile4, Tile8, VRAM, VRAM_SIZE, tile4_colour, tile8_colour,
};
use crate::objects::{ObjAttr0Normal, ObjAttr1Normal, OAM};

verus! {

/// Tiles are 8x8 pixels: a pixel coordinate shifted right by this gives a tile coordinate.
pub const TILE_SIZE_LOG: usize = 3;

/// Size of one tile set base block in video memory.
pub const TILESET_OFFSET: usize = 16384;

/// Size of one tile map base block in video memory.
pub const MAP_OFFSET: usize = 2048;

/// Width of the screen in pixels.
pub const SCREEN_WIDTH: usize = 240;

/// Height of the screen in pixels.
pub const SCREEN_HEIGHT: usize = 160;

/// The 0RGB word with 8 bits per channel that stands for colour `c` (see
/// `DisplayColour::to_minifb_format`).
pub open spec fn minifb_word(c: DisplayColour) -> u32 {
    (c.red() * 524288 + c.green() * 2048 + c.blue() * 8) as u32
}

/// Start of the sprite tile set in video memory.
pub const OBJ_TILESET_OFFSET: usize = 65536;

/// Why a pixel cannot be produced: each variant is a configuration that the
/// renderer does not support or on which its arithmetic would leave the
/// machine range.
#[derive(Clone, Copy, PartialEq, Eq, Structural, Debug)]
pub enum RenderFault {
    /// The display control selects background mode 1 to 5, which is not implemented.
    BgModeNotImplemented(u8),
    /// The display control selects background mode 6 or 7, which does not exist.
    UndefinedBgMode(u8),
    /// A screen coordinate plus the scroll offset of a background exceeds the machine word.
    ScrollOverflow,
    /// The tile map index of a background coordinate exceeds the machine word.
    MapIndexOverflow,
    /// A sprite in rotation/scaling mode is reached, which is not implemented.
    RotScaleSprite,
    /// An enabled sprite has the prohibited shape 3.
    ProhibitedSpriteShape,
    /// A flipped sprite covers the pixel but its flipped coordinate falls below zero.
    FlipUnderflow,
    /// An enabled 256-colour sprite covers the pixel, which is not implemented.
    Colour256Sprite,
}

/// Byte `addr` of video memory `mem`; addresses outside it read as 0.
pub open spec fn vram_byte(mem: Seq<u8>, addr: int) -> u8 {
    if 0 <= addr < mem.len() { mem[addr] } else { 0 }
}

/// The `n` bytes of video memory from `addr` on.
pub open spec fn vram_seq(mem: Seq<u8>, addr: int, n: nat) -> Seq<u8> {
    Seq::new(n, |i: int| vram_byte(mem, addr + i))
}

/// The little-endian 16-bit word of video memory at `addr`.
pub open spec fn vram_u16(mem: Seq<u8>, addr: int) -> u16 {
    (vram_byte(mem, addr) + 256 * vram_byte(mem, addr + 1)) as u16
}

/// A scroll offset brought below the map size by one subtraction, added to
/// the screen coordinate, and the sum brought below the map size again by
/// one subtraction; `None` where the sum exceeds the machine word.
pub open spec fn scroll_spec(coord: int, offset: int, size: int) -> Option<int> {
    let off = if offset >= size { offset - size } else { offset };
    let v = coord + off;
    if v > usize::MAX {
        None
    } else if v >= size {
        Some(v - size)
    } else {
        Some(v)
    }
}

/// Width and height in pixels of a sprite of the given shape (0 square,
/// 1 wide, 2 tall) and size selector.
pub open spec fn sprite_dims(shape: int, size: int) -> (int, int) {
    if shape == 0 {
        if size == 0 { (8, 8) } else if size == 1 { (16, 16) } else if size == 2 { (32, 32) } else { (64, 64) }
    } else if shape == 1 {
        if size == 0 { (16, 8) } else if size == 1 { (32, 8) } else if size == 2 { (32, 16) } else { (64, 32) }
    } else {
        if size == 0 { (8, 16) } else if size == 1 { (8, 32) } else if size == 2 { (16, 32) } else { (32, 64) }
    }
}

/// The drawing slot of a layer: priority first, sprites before backgrounds
/// at equal priority, then the layer number.
pub open spec fn slot_key(prio: int, is_bg: bool, num: int) -> int {
    prio * 132 + (if is_bg { 128int } else { 0int }) + num
}

/// Slot `132 * prio + slot` is slot `slot` of priority `prio`.
proof fn lemma_slot_split(prio: int, slot: int)
    requires
        0 <= prio,
        0 <= slot < 132,
    ensures
        (prio * 132 + slot) / 132 == prio,
        (prio * 132 + slot) % 132 == slot,
{
    vstd::arithmetic::div_mod::lemma_fundamental_div_mod_converse(prio * 132 + slot, 132, prio, slot);
}

/// The state the renderer reads: display registers, palettes, video memory
/// and object attribute memory.
pub struct Video<'a> {
    pub registers: &'a DisplayRegisters,
    pub palette: &'a Palette,
    pub vram: &'a VRAM,
    pub oam: &'a OAM,
}

/// Byte `addr + offset` of video memory, or 0 outside it.
fn vram_byte_at(mem: &[u8; 98304], addr: usize, offset: usize) -> (r: u8)
    ensures
        r == vram_byte(mem@, addr + offset),
{
    if addr < VRAM_SIZE && offset < VRAM_SIZE - addr {
        mem[addr + offset]
    } else {
        0
    }
}

/// The 4-bit tile stored at `addr` in video memory.
fn read_tile4(mem: &[u8; 98304], addr: usize) -> (r: Tile4)
    ensures
        r.data@ == vram_seq(mem@, addr as int, 32),
{
    let mut data = [0u8; 32];
    let mut i: usize = 0;
    while i < 32
        invariant
            i <= 32,
            forall|j: int| 0 <= j < i ==> #[trigger] data[j] == vram_byte(mem@, addr + j),
        decreases 32 - i,
    {
        data[i] = vram_byte_at(mem, addr, i);
        i += 1;
    }
    let r = Tile4 { data };
    assert(r.data@ =~= vram_seq(mem@, addr as int, 32));
    r
}

/// The 8-bit tile stored at `addr` in video memory.
fn read_tile8(mem: &[u8; 98304], addr: usize) -> (r: Tile8)
    ensures
        r.data@ == vram_seq(mem@, addr as int, 64),
{
    let mut data = [0u8; 64];
    let mut i: usize = 0;
    while i < 64
        invariant
            i <= 64,
            forall|j: int| 0 <= j < i ==> #[trigger] data[j] == vram_byte(mem@, addr + j),
        decreases 64 - i,
    {
        data[i] = vram_byte_at(mem, addr, i);
        i += 1;
    }
    let r = Tile8 { data };
    assert(r.data@ =~= vram_seq(mem@, addr as int, 64));
    r
}

/// Brings the scroll offset below the map size, adds it to the coordinate
/// and wraps the sum once; `None` where the sum exceeds the machine word.
fn scroll(coord: usize, offset: u16, size: usize) -> (r: Option<usize>)
    ensures
        r == (match scroll_spec(coord as int, offset as int, size as int) {
            Some(v) => Some(v as usize),
            None => None,
        }),
{
    let mut off = offset as usize;
    if off >= size {
        off -= size;
    }
    match coord.checked_add(off) {
        None => None,
        Some(v) => {
            if v >= size {
                Some(v - size)
            } else {
                Some(v)
            }
        },
    }
}

impl<'a> Video<'a> {
    /// Index, within the tile map of background `bg`, of the entry under
    /// background pixel `(x, y)`.
    pub open spec fn spec_map_index(&self, bg: int, x: int, y: int) -> int {
        (y / 8) * self.registers.bg_control[bg].width_in_tiles() + x / 8
    }

    /// Map entry of text-mode background `bg` under background pixel `(x, y)`.
    pub open spec fn spec_map_text_entry(&self, bg: int, x: int, y: int) -> MapTextEntry {
        let reg = self.registers.bg_control[bg];
        MapTextEntry { value: vram_u16(self.vram@, reg.tilemap_base() * 2048 + 2 * self.spec_map_index(bg, x, y)) }
    }

    /// Colour of background `bg` at background pixel `(x, y)` in mode 0, or
    /// `None` where the tile pixel is transparent (colour index 0).
    pub open spec fn spec_bg_pixel_mode_0(&self, bg: int, x: int, y: int) -> Option<DisplayColour> {
        let reg = self.registers.bg_control[bg];
        let entry = self.spec_map_text_entry(bg, x, y);
        let base = reg.tileset_base() * 16384;
        if reg.palette_mode() {
            let c = tile8_colour(vram_seq(self.vram@, base + entry.tile() * 64, 64), x % 8, y % 8);
            if c == 0 { None } else { Some(self.palette.bg[c as int]) }
        } else {
            let c = tile4_colour(vram_seq(self.vram@, base + entry.tile() * 32, 32), x % 8, y % 8);
            if c == 0 { None } else { Some(self.palette.bg[entry.palette() * 16 + c]) }
        }
    }

    /// Where background `bg` lands at background pixel `(x, y)` in mode 0:
    /// the map index of the pixel must fit the machine word.
    pub open spec fn bg_pixel_fault(&self, bg: int, x: int, y: int) -> Option<RenderFault> {
        let mode = self.registers.disp_ctrl.bg_mode();
        if mode == 0 {
            if self.spec_map_index(bg, x, y) > usize::MAX { Some(RenderFault::MapIndexOverflow) } else { None }
        } else if mode <= 5 {
            Some(RenderFault::BgModeNotImplemented(mode))
        } else {
            Some(RenderFault::UndefinedBgMode(mode))
        }
    }

    /// Background coordinates of screen pixel `(x, y)` on background `bg`,
    /// `None` where adding the scroll offset leaves the machine word.
    pub open spec fn bg_coords(&self, bg: int, x: int, y: int) -> Option<(int, int)> {
        let reg = self.registers.bg_control[bg];
        let offsets = self.registers.bg_offset[bg];
        match scroll_spec(x, offsets.x.offset() as int, reg.width_in_tiles() * 8) {
            None => None,
            Some(bg_x) => match scroll_spec(y, offsets.y.offset() as int, reg.height_in_tiles() * 8) {
                None => None,
                Some(bg_y) => Some((bg_x, bg_y)),
            },
        }
    }

    /// Colour of background `bg` at screen pixel `(x, y)`, its scroll
    /// offsets applied; `Err` where the background cannot be drawn there.
    pub open spec fn spec_bg_layer(&self, bg: int, x: int, y: int) -> Result<Option<DisplayColour>, RenderFault> {
        match self.bg_coords(bg, x, y) {
            None => Err(RenderFault::ScrollOverflow),
            Some((bg_x, bg_y)) => match self.bg_pixel_fault(bg, bg_x, bg_y) {
                Some(e) => Err(e),
                None => Ok(self.spec_bg_pixel_mode_0(bg, bg_x, bg_y)),
            },
        }
    }

    /// Whether normal-mode sprite `sprite` covers screen pixel `(x, y)`.
    pub open spec fn sprite_covers(&self, sprite: int, x: int, y: int) -> bool {
        let a = self.oam@[sprite].normal_view();
        let (w, h) = sprite_dims(a.attr0.shape() as int, a.attr1.size() as int);
        let bx = a.attr1.x() as int;
        let by = a.attr0.y() as int;
        !(x < bx || y < by || x >= bx + w || y >= by + h)
    }

    /// Why enabled normal-mode sprite `sprite` cannot be drawn at screen
    /// pixel `(x, y)`: the prohibited shape 3 anywhere; where it covers the
    /// pixel, a flipped coordinate below zero or 256-colour depth.
    pub open spec fn sprite_fault(&self, sprite: int, x: int, y: int) -> Option<RenderFault> {
        let a = self.oam@[sprite].normal_view();
        let shape = a.attr0.shape();
        let (w, h) = sprite_dims(shape as int, a.attr1.size() as int);
        let bx = a.attr1.x() as int;
        let by = a.attr0.y() as int;
        if shape == 3 {
            Some(RenderFault::ProhibitedSpriteShape)
        } else if !self.sprite_covers(sprite, x, y) {
            None
        } else if a.attr1.horiz_flip() && (bx > w || x < w - bx) {
            Some(RenderFault::FlipUnderflow)
        } else if a.attr1.vert_flip() && (by > h || y < h - by) {
            Some(RenderFault::FlipUnderflow)
        } else if a.attr0.enable_256_colour() {
            Some(RenderFault::Colour256Sprite)
        } else {
            None
        }
    }

    /// Colour of normal-mode sprite `sprite` at screen pixel `(x, y)`, or
    /// `None` where it does not cover the pixel or is transparent there.
    pub open spec fn spec_sprite_pixel_normal(&self, sprite: int, x: int, y: int) -> Option<DisplayColour> {
        let a = self.oam@[sprite].normal_view();
        let (w, h) = sprite_dims(a.attr0.shape() as int, a.attr1.size() as int);
        let bx = a.attr1.x() as int;
        let by = a.attr0.y() as int;
        if !self.sprite_covers(sprite, x, y) {
            None
        } else {
            let sx = if a.attr1.horiz_flip() { x - (w - bx) } else { x - bx };
            let sy = if a.attr1.vert_flip() { y - (h - by) } else { y - by };
            let row_tiles = if self.registers.disp_ctrl.obj_char_mapping() { w / 8 } else { 32 };
            let tile_index = a.attr2.tile() + sx / 8 + (sy / 8) * row_tiles;
            let c = tile4_colour(vram_seq(self.vram@, 65536 + tile_index * 32, 32), sx % 8, sy % 8);
            if c > 0 {
                Some(self.palette.obj[a.attr2.palette() * 16 + c])
            } else {
                None
            }
        }
    }

    /// What sprite `sprite` contributes to screen pixel `(x, y)`: a
    /// rotation/scaling sprite is a fault, a disabled one is transparent.
    pub open spec fn spec_sprite_layer(&self, sprite: int, x: int, y: int) -> Result<Option<DisplayColour>, RenderFault> {
        let attrs = self.oam@[sprite];
        if attrs.is_rot_scale() {
            Err(RenderFault::RotScaleSprite)
        } else if attrs.normal_view().attr0.disable() {
            Ok(None)
        } else {
            match self.sprite_fault(sprite, x, y) {
                Some(e) => Err(e),
                None => Ok(self.spec_sprite_pixel_normal(sprite, x, y)),
            }
        }
    }

    /// What drawing slot `k` contributes to screen pixel `(x, y)`: slot
    /// `132 * p + n` is sprite `n` (for `n < 128`) or background `n - 128`,
    /// at priority `p`; a layer whose priority is not `p`, or a background
    /// that is not enabled for display, contributes nothing.
    pub open spec fn slot_outcome(&self, x: int, y: int, k: int) -> Result<Option<DisplayColour>, RenderFault> {
        let prio = k / 132;
        let slot = k % 132;
        if slot < 128 {
            if self.oam@[slot].get_prio() == prio {
                self.spec_sprite_layer(slot, x, y)
            } else {
                Ok(None)
            }
        } else {
            let bg = slot - 128;
            if self.registers.bg_control[bg].bg_prio() == prio {
                match self.spec_bg_layer(bg, x, y) {
                    Err(e) => Err(e),
                    Ok(Some(c)) => if self.registers.disp_ctrl.screen_disp_bg_at(bg as usize) {
                        Ok(Some(c))
                    } else {
                        Ok(None)
                    },
                    Ok(None) => Ok(None),
                }
            } else {
                Ok(None)
            }
        }
    }

    /// The colour of screen pixel `(x, y)` as drawn from slot `k` on: the
    /// first slot that contributes a colour or a fault decides it; past the
    /// last slot it is colour 0 of background palette 0 (the backdrop).
    pub open spec fn compose_from(&self, x: int, y: int, k: int) -> Result<DisplayColour, RenderFault>
        decreases 528 - k,
    {
        if 0 <= k < 528 {
            match self.slot_outcome(x, y, k) {
                Err(e) => Err(e),
                Ok(Some(c)) => Ok(c),
                Ok(None) => self.compose_from(x, y, k + 1),
            }
        } else {
            Ok(self.palette.bg[0])
        }
    }

    /// The colour of screen pixel `(x, y)`, or the fault that stops it.
    pub open spec fn pixel(&self, x: int, y: int) -> Result<DisplayColour, RenderFault> {
        self.compose_from(x, y, 0)
    }

    /// Entry `i` of a frame drawn row by row: pixel `(i % 240, (i / 240) % 160)`.
    pub open spec fn frame_pixel(&self, i: int) -> Result<DisplayColour, RenderFault> {
        self.pixel(i % 240, (i / 240) % 160)
    }

    /// Whether slot `k` decides screen pixel `(x, y)`: no earlier slot
    /// contributes anything, and slot `k` contributes a colour or a fault.
    pub open spec fn decides(&self, x: int, y: int, k: int) -> bool {
        &&& forall|j: int| 0 <= j < k ==> self.slot_outcome(x, y, j) == Ok::<Option<DisplayColour>, RenderFault>(None)
        &&& self.slot_outcome(x, y, k) != Ok::<Option<DisplayColour>, RenderFault>(None)
    }

    /// Offset in video memory of the tile set of background `bg`.
    fn get_tileset_base_addr(&self, bg: usize) -> (r: usize)
        requires
            bg < 4,
        ensures
            r == self.registers.bg_control[bg as int].tileset_base() * 16384,
    {
        let register = self.registers.bg_control[bg];
        (register.tileset_base() as usize) * TILESET_OFFSET
    }

    /// 4-bit tile `index` of the tile set of background `bg`.
    fn get_tile4(&self, bg: usize, index: usize) -> (r: Tile4)
        requires
            bg < 4,
        ensures
            r.data@ == vram_seq(self.vram@, self.registers.bg_control[bg as int].tileset_base() * 16384 + index * 32, 32),
    {
        let base = self.get_tileset_base_addr(bg);
        if index < VRAM_SIZE {
            read_tile4(self.vram.data(), base + index * 32)
        } else {
            // the tile lies past the end of video memory
            let mem = self.vram.data();
            assert(mem@.len() == VRAM_SIZE);
            assert(index * 32 >= VRAM_SIZE) by (nonlinear_arith)
                requires
                    index >= VRAM_SIZE,
            ;
            let r = Tile4 { data: [0u8; 32] };
            assert(r.data@ =~= vram_seq(self.vram@, base + index * 32, 32));
            r
        }
    }

    /// 8-bit tile `index` of the tile set of background `bg`.
    fn get_tile8(&self, bg: usize, index: usize) -> (r: Tile8)
        requires
            bg < 4,
        ensures
            r.data@ == vram_seq(self.vram@, self.registers.bg_control[bg as int].tileset_base() * 16384 + index * 64, 64),
    {
        let base = self.get_tileset_base_addr(bg);
        if index < VRAM_SIZE {
            read_tile8(self.vram.data(), base + index * 64)
        } else {
            // the tile lies past the end of video memory
            let mem = self.vram.data();
            assert(mem@.len() == VRAM_SIZE);
            assert(index * 64 >= VRAM_SIZE) by (nonlinear_arith)
                requires
                    index >= VRAM_SIZE,
            ;
            let r = Tile8 { data: [0u8; 64] };
            assert(r.data@ =~= vram_seq(self.vram@, base + index * 64, 64));
            r
        }
    }

    /// Offset in video memory of the tile map of background `bg`.
    fn get_map_base_addr(&self, bg: usize) -> (r: usize)
        requires
            bg < 4,
        ensures
            r == self.registers.bg_control[bg as int].tilemap_base() * 2048,
    {
        let register = self.registers.bg_control[bg];
        (register.tilemap_base() as usize) * MAP_OFFSET
    }

    /// Index of the map entry under background pixel `(x, y)` of background
    /// `bg`, or `None` where it exceeds the machine word.
    fn map_index(&self, bg: usize, x: usize, y: usize) -> (r: Option<usize>)
        requires
            bg < 4,
        ensures
            r == (if self.spec_map_index(bg as int, x as int, y as int) > usize::MAX {
                None
            } else {
                Some(self.spec_map_index(bg as int, x as int, y as int) as usize)
            }),
    {
        let register = self.registers.bg_control[bg];
        let tile_x = x >> TILE_SIZE_LOG;
        let tile_y = y >> TILE_SIZE_LOG;
        assert(tile_x == x / 8 && tile_y == y / 8) by (bit_vector)
            requires
                tile_x == x >> 3usize,
                tile_y == y >> 3usize,
        ;
        let width = register.width_in_tiles();
        match tile_y.checked_mul(width) {
            None => None,
            Some(p) => p.checked_add(tile_x),
        }
    }

    /// Map entry of text-mode background `bg` under background pixel `(x, y)`.
    fn get_map_text_entry(&self, bg: usize, x: usize, y: usize) -> (r: MapTextEntry)
        requires
            bg < 4,
            self.spec_map_index(bg as int, x as int, y as int) <= usize::MAX,
        ensures
            r == self.spec_map_text_entry(bg as int, x as int, y as int),
    {
        let n = match self.map_index(bg, x, y) {
            Some(n) => n,
            None => {
                proof {
                    assert(false);
                }
                0
            },
        };
        let base = self.get_map_base_addr(bg);
        let mem = self.vram.data();
        let (lo, hi) = if n < VRAM_SIZE {
            (vram_byte_at(mem, base, 2 * n), vram_byte_at(mem, base, 2 * n + 1))
        } else {
            (0u8, 0u8)
        };
        MapTextEntry { value: lo as u16 + (hi as u16) * 256 }
    }

    /// Colour of background `bg` at background pixel `(x, y)` in mode 0.
    fn get_bg_pixel_mode_0(&self, bg: usize, x: usize, y: usize) -> (r: Option<DisplayColour>)
        requires
            bg < 4,
            self.spec_map_index(bg as int, x as int, y as int) <= usize::MAX,
        ensures
            r == self.spec_bg_pixel_mode_0(bg as int, x as int, y as int),
    {
        let register = self.registers.bg_control[bg];
        let map_entry = self.get_map_text_entry(bg, x, y);
        if register.palette_mode() {
            let tile = self.get_tile8(bg, map_entry.tile() as usize);
            let tile_colour = tile.get_colour(x % 8, y % 8) as usize;
            if tile_colour == 0 {
                None
            } else {
                Some(self.palette.get_bg_colour_256(tile_colour))
            }
        } else {
            let tile = self.get_tile4(bg, map_entry.tile() as usize);
            let tile_colour = tile.get_colour(x % 8, y % 8) as usize;
            if tile_colour == 0 {
                None
            } else {
                Some(self.palette.get_bg_colour_16(map_entry.palette() as usize, tile_colour))
            }
        }
    }

    /// Colour of background `bg` at background pixel `(x, y)` in the current
    /// mode, which must be mode 0 (the only one implemented).
    fn get_bg_pixel(&self, bg: usize, x: usize, y: usize) -> (r: Option<DisplayColour>)
        requires
            bg < 4,
            self.registers.disp_ctrl.bg_mode() == 0,
            self.spec_map_index(bg as int, x as int, y as int) <= usize::MAX,
        ensures
            r == self.spec_bg_pixel_mode_0(bg as int, x as int, y as int),
    {
        self.get_bg_pixel_mode_0(bg, x, y)
    }

    /// Colour of background `bg` at screen pixel `(x, y)`, scroll applied;
    /// `Err` where the background cannot be drawn there.
    fn get_bg_layer_pixel(&self, bg: usize, x: usize, y: usize) -> (r: Result<Option<DisplayColour>, RenderFault>)
        requires
            bg < 4,
        ensures
            r == self.spec_bg_layer(bg as int, x as int, y as int),
    {
        let reg = self.registers.bg_control[bg];
        let offsets = self.registers.bg_offset[bg];
        let width_tiles = reg.width_in_tiles();
        let height_tiles = reg.height_in_tiles();
        let width = width_tiles << TILE_SIZE_LOG;
        let height = height_tiles << TILE_SIZE_LOG;
        assert(width == width_tiles * 8 && height == height_tiles * 8) by (bit_vector)
            requires
                width == width_tiles << 3usize,
                height == height_tiles << 3usize,
                width_tiles <= 64usize,
                height_tiles <= 64usize,
        ;
        let bg_x = match scroll(x, offsets.x.offset(), width) {
            None => {
                return Err(RenderFault::ScrollOverflow);
            },
            Some(v) => v,
        };
        let bg_y = match scroll(y, offsets.y.offset(), height) {
            None => {
                return Err(RenderFault::ScrollOverflow);
            },
            Some(v) => v,
        };
        let mode = self.registers.disp_ctrl.bg_mode();
        if mode != 0 {
            if mode <= 5 {
                return Err(RenderFault::BgModeNotImplemented(mode));
            } else {
                return Err(RenderFault::UndefinedBgMode(mode));
            }
        }
        if self.map_index(bg, bg_x, bg_y).is_none() {
            return Err(RenderFault::MapIndexOverflow);
        }
        Ok(self.get_bg_pixel(bg, bg_x, bg_y))
    }

    /// Width and height in pixels of a sprite of the given shape and size.
    fn sprite_size(shape: u8, size: u8) -> (r: (usize, usize))
        requires
            shape < 3,
            size < 4,
        ensures
            (r.0 as int, r.1 as int) == sprite_dims(shape as int, size as int),
            r.0 <= 64 && r.1 <= 64,
    {
        if shape == 0 {
            if size == 0 { (8, 8) } else if size == 1 { (16, 16) } else if size == 2 { (32, 32) } else { (64, 64) }
        } else if shape == 1 {
            if size == 0 { (16, 8) } else if size == 1 { (32, 8) } else if size == 2 { (32, 16) } else { (64, 32) }
        } else {
            if size == 0 { (8, 16) } else if size == 1 { (8, 32) } else if size == 2 { (16, 32) } else { (32, 64) }
        }
    }

    /// Why enabled normal-mode sprite `sprite` cannot be drawn at screen
    /// pixel `(x, y)`, if it cannot.
    fn check_sprite_fault(&self, sprite: usize, x: usize, y: usize) -> (r: Option<RenderFault>)
        requires
            sprite < 128,
        ensures
            r == self.sprite_fault(sprite as int, x as int, y as int),
    {
        let attr = self.oam.get(sprite);
        let attr0 = ObjAttr0Normal { value: attr.words[0] };
        let attr1 = ObjAttr1Normal { value: attr.words[1] };
        let shape = attr0.shape();
        if shape == 3 {
            return Some(RenderFault::ProhibitedSpriteShape);
        }
        let (w, h) = Self::sprite_size(shape, attr1.size());
        let bx = attr1.x() as usize;
        let by = attr0.y() as usize;
        if x < bx || y < by || x >= bx + w || y >= by + h {
            None
        } else if attr1.horiz_flip() && (bx > w || x < w - bx) {
            Some(RenderFault::FlipUnderflow)
        } else if attr1.vert_flip() && (by > h || y < h - by) {
            Some(RenderFault::FlipUnderflow)
        } else if attr0.enable_256_colour() {
            Some(RenderFault::Colour256Sprite)
        } else {
            None
        }
    }

    /// Colour of normal-mode sprite `sprite` at screen pixel
    /// `(screen_x, screen_y)`, on a sprite that can be drawn there.
    fn get_sprite_pixel_normal(&self, sprite: usize, screen_x: usize, screen_y: usize) -> (r: Option<DisplayColour>)
        requires
            sprite < 128,
            !self.oam@[sprite as int].is_rot_scale(),
            self.sprite_fault(sprite as int, screen_x as int, screen_y as int) is None,
        ensures
            r == self.spec_sprite_pixel_normal(sprite as int, screen_x as int, screen_y as int),
    {
        let attrs = match self.oam.get(sprite).get_normal() {
            None => {
                proof {
                    assert(false);
                }
                return None;
            },
            Some(a) => a,
        };
        let attr0 = attrs.attr0;
        let attr1 = attrs.attr1;
        let attr2 = attrs.attr2;

        let sprite_base_x = attr1.x() as usize;
        let sprite_base_y = attr0.y() as usize;
        let (sprite_width, sprite_height) = Self::sprite_size(attr0.shape(), attr1.size());

        if screen_x < sprite_base_x || screen_y < sprite_base_y || screen_x >= sprite_base_x + sprite_width
            || screen_y >= sprite_base_y + sprite_height {
            // no part of this sprite could overlap with this pixel
            return None;
        }

        let sprite_x = {
            let offset = if attr1.horiz_flip() {
                sprite_width - sprite_base_x
            } else {
                sprite_base_x
            };
            screen_x - offset
        };
        let sprite_y = {
            let offset = if attr1.vert_flip() {
                sprite_height - sprite_base_y
            } else {
                sprite_base_y
            };
            screen_y - offset
        };
        assert(sprite_x < 128 && sprite_y < 128);

        let tile_x = sprite_x / 8;
        let tile_y = sprite_y / 8;
        let row_tiles: usize = if self.registers.disp_ctrl.obj_char_mapping() {
            // the linear mapping
            sprite_width / 8
        } else {
            // the 2D mapping, 32x32 tiles
            32
        };
        assert(tile_y * row_tiles <= 16 * 32) by (nonlinear_arith)
            requires
                tile_y < 16,
                row_tiles <= 32,
        ;
        let tile_index = attr2.tile() as usize + tile_x + tile_y * row_tiles;

        let tile4 = read_tile4(self.vram.data(), OBJ_TILESET_OFFSET + tile_index * 32);
        let colour_index = tile4.get_colour(sprite_x % 8, sprite_y % 8) as usize;
        if colour_index > 0 {
            Some(self.palette.get_obj_colour_16(attr2.palette() as usize, colour_index))
        } else {
            None
        }
    }

    /// Colour of sprite `sprite` at screen pixel `(screen_x, screen_y)`, on a
    /// normal-mode sprite that can be drawn there.
    fn get_sprite_pixel(&self, sprite: usize, screen_x: usize, screen_y: usize) -> (r: Option<DisplayColour>)
        requires
            sprite < 128,
            !self.oam@[sprite as int].is_rot_scale(),
            self.sprite_fault(sprite as int, screen_x as int, screen_y as int) is None,
        ensures
            r == self.spec_sprite_pixel_normal(sprite as int, screen_x as int, screen_y as int),
    {
        self.get_sprite_pixel_normal(sprite, screen_x, screen_y)
    }

    /// What sprite `sprite` contributes to screen pixel `(x, y)`.
    fn get_sprite_layer_pixel(&self, sprite: usize, x: usize, y: usize) -> (r: Result<Option<DisplayColour>, RenderFault>)
        requires
            sprite < 128,
        ensures
            r == self.spec_sprite_layer(sprite as int, x as int, y as int),
    {
        let attrs = match self.oam.get(sprite).get_normal() {
            None => {
                return Err(RenderFault::RotScaleSprite);
            },
            Some(a) => a,
        };
        if attrs.is_disabled() {
            return Ok(None);
        }
        match self.check_sprite_fault(sprite, x, y) {
            Some(e) => Err(e),
            None => Ok(self.get_sprite_pixel(sprite, x, y)),
        }
    }

    /// The colour of screen pixel `(x, y)`: the layers are visited by
    /// priority, sprites before backgrounds at equal priority and by number
    /// within each kind, and the first one that is opaque there (and, for a
    /// background, enabled for display) gives the colour; where none is, it is
    /// colour 0 of background palette 0. `Err` names the unsupported
    /// configuration met on the way.
    pub fn try_get_pixel(&self, x: usize, y: usize) -> (r: Result<DisplayColour, RenderFault>)
        ensures
            r == self.pixel(x as int, y as int),
    {
        let display_control = self.registers.disp_ctrl;
        let mut prio: usize = 0;
        while prio < 4
            invariant
                prio <= 4,
                display_control == self.registers.disp_ctrl,
                self.pixel(x as int, y as int) == self.compose_from(x as int, y as int, prio * 132),
            decreases 4 - prio,
        {
            let mut num: usize = 0;
            while num < 128
                invariant
                    prio < 4,
                    num <= 128,
                    display_control == self.registers.disp_ctrl,
                    self.pixel(x as int, y as int) == self.compose_from(x as int, y as int, prio * 132 + num),
                decreases 128 - num,
            {
                proof {
                    lemma_slot_split(prio as int, num as int);
                }
                if self.oam.get(num).get_prio() as usize == prio {
                    match self.get_sprite_layer_pixel(num, x, y) {
                        Err(e) => {
                            return Err(e);
                        },
                        Ok(Some(c)) => {
                            return Ok(c);
                        },
                        Ok(None) => {},
                    }
                }
                num += 1;
            }
            let mut num: usize = 0;
            while num < 4
                invariant
                    prio < 4,
                    num <= 4,
                    display_control == self.registers.disp_ctrl,
                    self.pixel(x as int, y as int) == self.compose_from(x as int, y as int, prio * 132 + 128 + num),
                decreases 4 - num,
            {
                proof {
                    lemma_slot_split(prio as int, 128 + num as int);
                }
                if self.registers.bg_control[num].bg_prio() as usize == prio {
                    match self.get_bg_layer_pixel(num, x, y) {
                        Err(e) => {
                            return Err(e);
                        },
                        Ok(Some(c)) => {
                            if display_control.screen_disp_bg_at(num) {
                                return Ok(c);
                            }
                        },
                        Ok(None) => {},
                    }
                }
                num += 1;
            }
            prio += 1;
        }
        // colour 0 of palette 0 is the default colour if nothing else is opaque
        Ok(self.palette.get_bg_colour_16(0, 0))
    }

    /// Entry `i` of a frame drawn row by row, as a 0RGB word.
    fn frame_entry(&self, i: usize) -> (r: Result<u32, RenderFault>)
        ensures
            r == (match self.frame_pixel(i as int) {
                Ok(c) => Ok(minifb_word(c)),
                Err(e) => Err(e),
            }),
    {
        let x = i % SCREEN_WIDTH;
        let y = (i / SCREEN_WIDTH) % SCREEN_HEIGHT;
        match self.try_get_pixel(x, y) {
            Ok(colour) => Ok(colour.to_minifb_format()),
            Err(e) => Err(e),
        }
    }

    /// Fills `buffer` row by row with the screen, 240 pixels a row and
    /// 160 rows (entry `i` is pixel `(i % 240, (i / 240) % 160)`), each
    /// pixel in the 0RGB word of `DisplayColour::to_minifb_format`. Stops at
    /// the first pixel that meets an unsupported configuration and returns
    /// its fault, every earlier entry written.
    pub fn render_frame(&self, buffer: &mut Vec<u32>) -> (r: Result<(), RenderFault>)
        ensures
            final(buffer)@.len() == old(buffer)@.len(),
            r is Ok ==> forall|i: int|
                0 <= i < old(buffer)@.len() ==> #[trigger] final(buffer)@[i] == minifb_word(self.frame_pixel(i)->Ok_0)
                    && self.frame_pixel(i) is Ok,
            r matches Err(e) ==> exists|i: int|
                0 <= i < old(buffer)@.len() && #[trigger] self.frame_pixel(i) == Err::<DisplayColour, RenderFault>(e)
                    && forall|j: int| 0 <= j < i ==> #[trigger] final(buffer)@[j] == minifb_word(self.frame_pixel(j)->Ok_0)
                    && self.frame_pixel(j) is Ok,
    {
        let len = buffer.len();
        let mut i: usize = 0;
        while i < len
            invariant
                i <= len,
                len == old(buffer)@.len(),
                buffer@.len() == len,
                forall|j: int| 0 <= j < i ==> #[trigger] buffer@[j] == minifb_word(self.frame_pixel(j)->Ok_0)
                    && self.frame_pixel(j) is Ok,
            decreases len - i,
        {
            match self.frame_entry(i) {
                Ok(word) => {
                    buffer.set(i, word);
                },
                Err(e) => {
                    return Err(e);
                },
            }
            i += 1;
        }
        Ok(())
    }

    /// The colour of screen pixel `(x, y)`, on a state and pixel where
    /// drawing meets no unsupported configuration (see `try_get_pixel`).
    pub fn get_pixel(&self, x: usize, y: usize) -> (r: DisplayColour)
        requires
            self.pixel(x as int, y as int) is Ok,
        ensures
            self.pixel(x as int, y as int) == Ok::<DisplayColour, RenderFault>(r),
    {
        match self.try_get_pixel(x, y) {
            Ok(c) => c,
            Err(_) => {
                proof {
                    assert(false);
                }
                self.palette.get_bg_colour_16(0, 0)
            },
        }
    }
}


/// The drawing order of the layers is the lexicographic order on
/// (priority, background-after-sprite, number): a layer's slot decodes back
/// to its priority and position, and one layer's slot is below another's
/// exactly when it comes first in that order.
pub proof fn law_slot_order(p1: int, bg1: bool, n1: int, p2: int, bg2: bool, n2: int)
    requires
        0 <= p1 < 4,
        0 <= p2 < 4,
        0 <= n1 < (if bg1 { 4int } else { 128int }),
        0 <= n2 < (if bg2 { 4int } else { 128int }),
    ensures
        slot_key(p1, bg1, n1) / 132 == p1,
        slot_key(p1, bg1, n1) % 132 == (if bg1 { 128 + n1 } else { n1 }),
        0 <= slot_key(p1, bg1, n1) < 528,
        (slot_key(p1, bg1, n1) < slot_key(p2, bg2, n2)) <==> (p1 < p2 || (p1 == p2 && !bg1 && bg2) || (p1 == p2
            && bg1 == bg2 && n1 < n2)),
{
    lemma_slot_split(p1, if bg1 { 128 + n1 } else { n1 });
}

/// From slot `k` on, slots that contribute nothing can be skipped.
proof fn lemma_skip_transparent<'a>(v: &Video<'a>, x: int, y: int, j: int, k: int)
    requires
        0 <= j <= k <= 528,
        forall|i: int| j <= i < k ==> v.slot_outcome(x, y, i) == Ok::<Option<DisplayColour>, RenderFault>(None),
    ensures
        v.compose_from(x, y, j) == v.compose_from(x, y, k),
    decreases k - j,
{
    if j < k {
        lemma_skip_transparent(v, x, y, j + 1, k);
    }
}

/// The first slot that contributes to a pixel decides it: its colour, or
/// its fault, is the pixel's.
pub proof fn law_first_contribution_decides<'a>(v: &Video<'a>, x: int, y: int, k: int)
    requires
        0 <= k < 528,
        forall|j: int| 0 <= j < k ==> v.slot_outcome(x, y, j) == Ok::<Option<DisplayColour>, RenderFault>(None),
    ensures
        v.slot_outcome(x, y, k) matches Ok(Some(c)) ==> v.pixel(x, y) == Ok::<DisplayColour, RenderFault>(c),
        v.slot_outcome(x, y, k) matches Err(e) ==> v.pixel(x, y) == Err::<DisplayColour, RenderFault>(e),
{
    lemma_skip_transparent(v, x, y, 0, k);
}

/// Where no layer contributes to a pixel, it shows the backdrop: colour 0
/// of background palette 0.
pub proof fn law_backdrop<'a>(v: &Video<'a>, x: int, y: int)
    requires
        forall|j: int| 0 <= j < 528 ==> v.slot_outcome(x, y, j) == Ok::<Option<DisplayColour>, RenderFault>(None),
    ensures
        v.pixel(x, y) == Ok::<DisplayColour, RenderFault>(v.palette.bg[0]),
{
    lemma_skip_transparent(v, x, y, 0, 528);
}

/// A background that is not enabled for display gives no pixel a colour.
pub proof fn law_hidden_background<'a>(v: &Video<'a>, x: int, y: int, prio: int, bg: int)
    requires
        0 <= prio < 4,
        0 <= bg < 4,
        !v.registers.disp_ctrl.screen_disp_bg_at(bg as usize),
    ensures
        !(v.slot_outcome(x, y, slot_key(prio, true, bg)) is Ok && v.slot_outcome(x, y, slot_key(prio, true, bg))->Ok_0 is Some),
{
    lemma_slot_split(prio, 128 + bg);
}

/// A disabled normal-mode sprite contributes nothing to any pixel.
pub proof fn law_disabled_sprite<'a>(v: &Video<'a>, x: int, y: int, prio: int, sprite: int)
    requires
        0 <= prio < 4,
        0 <= sprite < 128,
        !v.oam@[sprite].is_rot_scale(),
        v.oam@[sprite].normal_view().attr0.disable(),
    ensures
        v.slot_outcome(x, y, slot_key(prio, false, sprite)) == Ok::<Option<DisplayColour>, RenderFault>(None),
{
    lemma_slot_split(prio, sprite);
}

/// Two states whose slots contribute alike from slot `k` on, and whose
/// backdrops agree, draw the pixel alike from slot `k` on.
proof fn lemma_same_outcomes_from<'a, 'b>(v: &Video<'a>, w: &Video<'b>, x: int, y: int, k: int)
    requires
        0 <= k <= 528,
        forall|j: int| k <= j < 528 ==> w.slot_outcome(x, y, j) == v.slot_outcome(x, y, j),
        w.palette.bg[0] == v.palette.bg[0],
    ensures
        w.compose_from(x, y, k) == v.compose_from(x, y, k),
    decreases 528 - k,
{
    if k < 528 {
        lemma_same_outcomes_from(v, w, x, y, k + 1);
    }
}

/// Two states whose slots contribute alike except at slot `kn` draw the
/// pixel alike from slot `k` on, where some slot between `k` and `kn`
/// contributes in the first state.
proof fn lemma_same_until_decided<'a, 'b>(v: &Video<'a>, w: &Video<'b>, x: int, y: int, kn: int, k: int)
    requires
        0 <= k <= kn < 528,
        forall|j: int| 0 <= j < 528 && j != kn ==> w.slot_outcome(x, y, j) == v.slot_outcome(x, y, j),
        exists|j: int| k <= j < kn && v.slot_outcome(x, y, j) != Ok::<Option<DisplayColour>, RenderFault>(None),
    ensures
        w.compose_from(x, y, k) == v.compose_from(x, y, k),
    decreases kn - k,
{
    if v.slot_outcome(x, y, k) == Ok::<Option<DisplayColour>, RenderFault>(None) {
        let j = choose|j: int| k <= j < kn && v.slot_outcome(x, y, j) != Ok::<Option<DisplayColour>, RenderFault>(None);
        assert(k + 1 <= j < kn);
        lemma_same_until_decided(v, w, x, y, kn, k + 1);
    }
}

/// Changing what a slot that does not decide the pixel contributes, to
/// nothing, leaves the pixel unchanged.
proof fn lemma_change_off_decider<'a, 'b>(v: &Video<'a>, w: &Video<'b>, x: int, y: int, kn: int)
    requires
        0 <= kn < 528,
        forall|j: int| 0 <= j < 528 && j != kn ==> w.slot_outcome(x, y, j) == v.slot_outcome(x, y, j),
        w.slot_outcome(x, y, kn) == Ok::<Option<DisplayColour>, RenderFault>(None) || w.slot_outcome(x, y, kn)
            == v.slot_outcome(x, y, kn),
        !v.decides(x, y, kn),
        w.palette.bg[0] == v.palette.bg[0],
    ensures
        w.pixel(x, y) == v.pixel(x, y),
{
    if exists|j: int| 0 <= j < kn && v.slot_outcome(x, y, j) != Ok::<Option<DisplayColour>, RenderFault>(None) {
        lemma_same_until_decided(v, w, x, y, kn, 0);
    } else {
        assert(v.slot_outcome(x, y, kn) == Ok::<Option<DisplayColour>, RenderFault>(None));
        lemma_same_outcomes_from(v, w, x, y, 0);
    }
}

/// Hiding a background that does not decide a pixel leaves that pixel
/// unchanged: `w` is `v` with background `bg` no longer enabled for display
/// and everything else that drawing reads left as it was.
pub proof fn law_hiding_undecisive_background<'a, 'b>(v: &Video<'a>, w: &Video<'b>, x: int, y: int, bg: int)
    requires
        0 <= bg < 4,
        *w.palette == *v.palette,
        w.vram@ == v.vram@,
        w.oam@ == v.oam@,
        w.registers.bg_control == v.registers.bg_control,
        w.registers.bg_offset == v.registers.bg_offset,
        w.registers.disp_ctrl.bg_mode() == v.registers.disp_ctrl.bg_mode(),
        w.registers.disp_ctrl.obj_char_mapping() == v.registers.disp_ctrl.obj_char_mapping(),
        forall|i: usize| i < 4 && i != bg ==> #[trigger] w.registers.disp_ctrl.screen_disp_bg_at(i)
            == v.registers.disp_ctrl.screen_disp_bg_at(i),
        !w.registers.disp_ctrl.screen_disp_bg_at(bg as usize),
        !v.decides(x, y, slot_key(v.registers.bg_control[bg].bg_prio() as int, true, bg)),
    ensures
        w.pixel(x, y) == v.pixel(x, y),
{
    let prio = v.registers.bg_control[bg].bg_prio() as int;
    let kn = slot_key(prio, true, bg);
    lemma_slot_split(prio, 128 + bg);
    assert forall|j: int| 0 <= j < 528 && j != kn implies w.slot_outcome(x, y, j) == v.slot_outcome(x, y, j) by {
        let s = j % 132;
        if s >= 128 {
            assert(w.registers.disp_ctrl.screen_disp_bg_at((s - 128) as usize) == v.registers.disp_ctrl.screen_disp_bg_at(
                (s - 128) as usize,
            ) || (s - 128 == bg));
        }
    }
    lemma_change_off_decider(v, w, x, y, kn);
}

/// Disabling a normal-mode sprite that does not decide a pixel leaves that
/// pixel unchanged: `w` is `v` with sprite `sprite` disabled, its priority
/// kept, and everything else that drawing reads left as it was.
pub proof fn law_disabling_undecisive_sprite<'a, 'b>(v: &Video<'a>, w: &Video<'b>, x: int, y: int, sprite: int)
    requires
        0 <= sprite < 128,
        *w.palette == *v.palette,
        w.vram@ == v.vram@,
        *w.registers == *v.registers,
        w.oam@.len() == v.oam@.len(),
        forall|i: int| 0 <= i < 128 && i != sprite ==> #[trigger] w.oam@[i] == v.oam@[i],
        w.oam@[sprite].words[2] == v.oam@[sprite].words[2],
        !v.oam@[sprite].is_rot_scale(),
        !w.oam@[sprite].is_rot_scale(),
        w.oam@[sprite].normal_view().attr0.disable(),
        !v.decides(x, y, slot_key(v.oam@[sprite].get_prio() as int, false, sprite)),
    ensures
        w.pixel(x, y) == v.pixel(x, y),
{
    let prio = v.oam@[sprite].get_prio() as int;
    let kn = slot_key(prio, false, sprite);
    lemma_slot_split(prio, sprite);
    assert forall|j: int| 0 <= j < 528 && j != kn implies w.slot_outcome(x, y, j) == v.slot_outcome(x, y, j) by {
        let s = j % 132;
        if s < 128 && s != sprite {
            assert(w.oam@[s] == v.oam@[s]);
        }
    }
    lemma_change_off_decider(v, w, x, y, kn);
}

/// Every background takes part in drawing: a background enabled for
/// display whose layer is opaque at a pixel contributes that colour at its
/// own slot, and gives the pixel its colour where no earlier slot
/// contributes anything.
pub proof fn law_shown_background_contributes<'a>(v: &Video<'a>, x: int, y: int, bg: int)
    requires
        0 <= bg < 4,
        v.registers.disp_ctrl.screen_disp_bg_at(bg as usize),
        v.spec_bg_layer(bg, x, y) is Ok,
        v.spec_bg_layer(bg, x, y)->Ok_0 is Some,
    ensures
        v.slot_outcome(x, y, slot_key(v.registers.bg_control[bg].bg_prio() as int, true, bg)) == v.spec_bg_layer(bg, x, y),
        (forall|j: int|
            0 <= j < slot_key(v.registers.bg_control[bg].bg_prio() as int, true, bg) ==> v.slot_outcome(x, y, j)
                == Ok::<Option<DisplayColour>, RenderFault>(None)) ==> v.pixel(x, y) == Ok::<DisplayColour, RenderFault>(
            v.spec_bg_layer(bg, x, y)->Ok_0->Some_0,
        ),
{
    let k = slot_key(v.registers.bg_control[bg].bg_prio() as int, true, bg);
    lemma_slot_split(v.registers.bg_control[bg].bg_prio() as int, 128 + bg);
    if forall|j: int| 0 <= j < k ==> v.slot_outcome(x, y, j) == Ok::<Option<DisplayColour>, RenderFault>(None) {
        law_first_contribution_decides(v, x, y, k);
    }
}

/// Every normal-mode sprite takes part in drawing: an enabled one that can
/// be drawn at a pixel and is opaque there contributes that colour at its
/// own slot, and gives the pixel its colour where no earlier slot
/// contributes anything.
pub proof fn law_shown_sprite_contributes<'a>(v: &Video<'a>, x: int, y: int, sprite: int)
    requires
        0 <= sprite < 128,
        !v.oam@[sprite].is_rot_scale(),
        !v.oam@[sprite].normal_view().attr0.disable(),
        v.sprite_fault(sprite, x, y) is None,
        v.spec_sprite_pixel_normal(sprite, x, y) is Some,
    ensures
        v.slot_outcome(x, y, slot_key(v.oam@[sprite].get_prio() as int, false, sprite)) == Ok::<
            Option<DisplayColour>,
            RenderFault,
        >(v.spec_sprite_pixel_normal(sprite, x, y)),
        (forall|j: int|
            0 <= j < slot_key(v.oam@[sprite].get_prio() as int, false, sprite) ==> v.slot_outcome(x, y, j)
                == Ok::<Option<DisplayColour>, RenderFault>(None)) ==> v.pixel(x, y) == Ok::<DisplayColour, RenderFault>(
            v.spec_sprite_pixel_normal(sprite, x, y)->Some_0,
        ),
{
    let k = slot_key(v.oam@[sprite].get_prio() as int, false, sprite);
    lemma_slot_split(v.oam@[sprite].get_prio() as int, sprite);
    if forall|j: int| 0 <= j < k ==> v.slot_outcome(x, y, j) == Ok::<Option<DisplayColour>, RenderFault>(None) {
        law_first_contribution_decides(v, x, y, k);
    }
}

/// Backgrounds are drawn alike whatever their number: two backgrounds with
/// the same control and scroll registers give every pixel the same layer,
/// and, at equal display enables, contribute alike at their own slots.
pub proof fn law_backgrounds_alike<'a>(v: &Video<'a>, x: int, y: int, b1: int, b2: int)
    requires
        0 <= b1 < 4,
        0 <= b2 < 4,
        v.registers.bg_control[b1] == v.registers.bg_control[b2],
        v.registers.bg_offset[b1] == v.registers.bg_offset[b2],
    ensures
        v.spec_bg_layer(b1, x, y) == v.spec_bg_layer(b2, x, y),
        v.registers.disp_ctrl.screen_disp_bg_at(b1 as usize) == v.registers.disp_ctrl.screen_disp_bg_at(b2 as usize)
            ==> v.slot_outcome(x, y, slot_key(v.registers.bg_control[b1].bg_prio() as int, true, b1))
            == v.slot_outcome(x, y, slot_key(v.registers.bg_control[b2].bg_prio() as int, true, b2)),
{
    lemma_slot_split(v.registers.bg_control[b1].bg_prio() as int, 128 + b1);
    lemma_slot_split(v.registers.bg_control[b2].bg_prio() as int, 128 + b2);
}

/// Sprites are drawn alike whatever their number: two sprites with the same
/// attribute words give every pixel the same layer and contribute alike at
/// their own slots.
pub proof fn law_sprites_alike<'a>(v: &Video<'a>, x: int, y: int, s1: int, s2: int)
    requires
        0 <= s1 < 128,
        0 <= s2 < 128,
        v.oam@[s1] == v.oam@[s2],
    ensures
        v.spec_sprite_layer(s1, x, y) == v.spec_sprite_layer(s2, x, y),
        v.slot_outcome(x, y, slot_key(v.oam@[s1].get_prio() as int, false, s1)) == v.slot_outcome(
            x,
            y,
            slot_key(v.oam@[s2].get_prio() as int, false, s2),
        ),
{
    lemma_slot_split(v.oam@[s1].get_prio() as int, s1);
    lemma_slot_split(v.oam@[s2].get_prio() as int, s2);
}

/// The sprite sizes: square sprites (shape 0) are 8, 16, 32 or 64 pixels on
/// a side; wide sprites (shape 1) are wider than tall, at most four times
/// as wide, every side one of 8, 16, 32, 64, covering 128, 256, 512 and
/// 2048 pixels for sizes 0 to 3; tall sprites (shape 2) are the wide ones
/// turned on end.
pub proof fn law_sprite_sizes(size: int)
    requires
        0 <= size < 4,
    ensures
        sprite_dims(0, size).0 == sprite_dims(0, size).1,
        sprite_dims(0, size).0 == 8 * pow2_small(size),
        sprite_dims(1, size).0 > sprite_dims(1, size).1,
        sprite_dims(1, size).0 <= 4 * sprite_dims(1, size).1,
        sprite_dims(1, size).0 * sprite_dims(1, size).1 == (if size == 0 {
            128int
        } else if size == 1 {
            256int
        } else if size == 2 {
            512int
        } else {
            2048int
        }),
        sprite_dims(1, size).0 == 8 || sprite_dims(1, size).0 == 16 || sprite_dims(1, size).0 == 32 || sprite_dims(1, size).0 == 64,
        sprite_dims(1, size).1 == 8 || sprite_dims(1, size).1 == 16 || sprite_dims(1, size).1 == 32 || sprite_dims(1, size).1 == 64,
        sprite_dims(2, size).0 == sprite_dims(1, size).1,
        sprite_dims(2, size).1 == sprite_dims(1, size).0,
{
}

/// The tile map of a background is laid out row by row, as wide as the map
/// in tiles (64 when bit 0 of the map size is set, else 32): the top-left
/// pixel reads entry 0, one tile to the right reads the next entry, and one
/// tile down reads the entry a map row further on.
pub proof fn law_map_layout<'a>(v: &Video<'a>, bg: int, x: int, y: int)
    requires
        0 <= bg < 4,
        0 <= x,
        0 <= y,
    ensures
        0 <= x < 8 && 0 <= y < 8 ==> v.spec_map_index(bg, x, y) == 0,
        v.spec_map_index(bg, x + 8, y) == v.spec_map_index(bg, x, y) + 1,
        v.spec_map_index(bg, x, y + 8) == v.spec_map_index(bg, x, y) + (if (v.registers.bg_control[bg].value / 16384)
            % 2 == 1 {
            64int
        } else {
            32int
        }),
{
    let w = v.registers.bg_control[bg].width_in_tiles() as int;
    assert((y + 8) / 8 == y / 8 + 1);
    assert((x + 8) / 8 == x / 8 + 1);
    assert((y / 8 + 1) * w == (y / 8) * w + w) by (nonlinear_arith);
}

/// A frame is laid out row by row, 240 pixels a row: entry `240 * y + x`
/// holds screen pixel `(x, y)`.
pub proof fn law_frame_layout<'a>(v: &Video<'a>, x: int, y: int)
    requires
        0 <= x < 240,
        0 <= y < 160,
    ensures
        v.frame_pixel(240 * y + x) == v.pixel(x, y),
{
    vstd::arithmetic::div_mod::lemma_fundamental_div_mod_converse(240 * y + x, 240, y, x);
    vstd::arithmetic::div_mod::lemma_fundamental_div_mod_converse(y, 160, 0, y);
}

/// On screen coordinates inside the map, scrolling is addition modulo the
/// map size.
pub proof fn law_scroll_wraps(coord: int, offset: int, size: int)
    requires
        size == 256 || size == 512,
        0 <= offset < 512,
        0 <= coord < size,
    ensures
        scroll_spec(coord, offset, size) == Some((coord + offset) % size),
{
    let off = if offset >= size { offset - size } else { offset };
    let v = coord + off;
    if v >= size {
        vstd::arithmetic::div_mod::lemma_fundamental_div_mod_converse(coord + offset, size, (if offset >= size { 1int } else { 0int }) + 1, v - size);
    } else {
        vstd::arithmetic::div_mod::lemma_fundamental_div_mod_converse(coord + offset, size, (if offset >= size { 1int } else { 0int }), v);
    }
}

} // verus!
