use vstd::prelude::*;
use crate::bitfield::{replace_field, with_field};
use crate::bytes::{le_u16, read_le_u16};

verus! {

/// Display control register (DISPCNT).
///
/// Bit layout, from the least significant bit: background mode (3 bits),
/// CGB mode, display frame select, H-blank interval free, object character
/// mapping, forced blank, one display-enable bit for each of the four
/// backgrounds, object display enable, window 0, window 1 and object window
/// display enables (one bit each).
#[derive(Clone, Copy)]
pub struct DisplayControl {
    pub value: u16,
}

impl DisplayControl {
    pub open spec fn spec_bg_mode(&self) -> u8 {
        (self.value % 8) as u8
    }

    pub open spec fn spec_obj_char_mapping(&self) -> bool {
        (self.value / 64) % 2 == 1
    }

    pub open spec fn spec_screen_disp_bg_at(&self, index: usize) -> bool {
        (self.value / 256) as int / pow2_small(index as int) % 2 == 1
    }

    /// The background mode, bits 0 to 2.
    #[verifier::when_used_as_spec(spec_bg_mode)]
    pub fn bg_mode(&self) -> (r: u8)
        ensures
            r == self.spec_bg_mode(),
            r < 8,
    {
        (self.value % 8) as u8
    }

    /// Whether objects use the one-dimensional (linear) character mapping, bit 6.
    #[verifier::when_used_as_spec(spec_obj_char_mapping)]
    pub fn obj_char_mapping(&self) -> (r: bool)
        ensures
            r == self.spec_obj_char_mapping(),
    {
        (self.value / 64) % 2 == 1
    }

    /// Whether background `index` is enabled for display, bit `8 + index`.
    #[verifier::when_used_as_spec(spec_screen_disp_bg_at)]
    pub fn screen_disp_bg_at(&self, index: usize) -> (r: bool)
        requires
            index < 4,
        ensures
            r == self.spec_screen_disp_bg_at(index),
    {
        let high = self.value / 256;
        let bit = if index == 0 {
            high % 2
        } else if index == 1 {
            (high / 2) % 2
        } else if index == 2 {
            (high / 4) % 2
        } else {
            (high / 8) % 2
        };
        bit == 1
    }
}

/// `2` to the power `n` for the small exponents that index register bits.
pub open spec fn pow2_small(n: int) -> int {
    if n == 0 {
        1
    } else if n == 1 {
        2
    } else if n == 2 {
        4
    } else if n == 3 {
        8
    } else {
        16
    }
}

/// Display status register (DISPSTAT).
///
/// Bit layout, from the least significant bit: V-blank flag, H-blank flag,
/// V-counter flag, V-blank, H-blank and V-counter interrupt enables (one bit
/// each), two unused bits, V-count setting (8 bits).
#[derive(Clone, Copy)]
pub struct DisplayStatus {
    pub value: u16,
}

/// Vertical counter register (VCOUNT): current scanline in the low byte.
#[derive(Clone, Copy)]
pub struct VertCounter {
    pub value: u16,
}

/// Background control register (one per background layer).
///
/// Bit layout, from the least significant bit: priority (2 bits), tile set
/// base block (2), unused (2), mosaic (1), 256-colour palette mode (1),
/// tile map base block (5), display area overflow (1), map size (2).
#[derive(Clone, Copy)]
pub struct BgControl {
    pub value: u16,
}

impl BgControl {
    pub open spec fn spec_bg_prio(&self) -> u8 {
        (self.value % 4) as u8
    }

    pub open spec fn spec_tileset_base(&self) -> u8 {
        ((self.value / 4) % 4) as u8
    }

    pub open spec fn spec_palette_mode(&self) -> bool {
        (self.value / 128) % 2 == 1
    }

    pub open spec fn spec_tilemap_base(&self) -> u8 {
        ((self.value / 256) % 32) as u8
    }

    pub open spec fn spec_tilemap_size(&self) -> u8 {
        ((self.value / 16384) % 4) as u8
    }

    pub open spec fn spec_width_in_tiles(&self) -> usize {
        if self.spec_tilemap_size() % 2 == 1 { 64 } else { 32 }
    }

    pub open spec fn spec_height_in_tiles(&self) -> usize {
        if self.spec_tilemap_size() / 2 == 1 { 64 } else { 32 }
    }

    /// Display priority of the background, bits 0 and 1 (0 is drawn in front).
    #[verifier::when_used_as_spec(spec_bg_prio)]
    pub fn bg_prio(&self) -> (r: u8)
        ensures
            r == self.spec_bg_prio(),
            r < 4,
    {
        (self.value % 4) as u8
    }

    /// Tile set base block in units of 16 KiB, bits 2 and 3.
    #[verifier::when_used_as_spec(spec_tileset_base)]
    pub fn tileset_base(&self) -> (r: u8)
        ensures
            r == self.spec_tileset_base(),
            r < 4,
    {
        ((self.value / 4) % 4) as u8
    }

    /// Whether the background uses one 256-colour palette (set) or sixteen
    /// 16-colour palettes (clear), bit 7.
    #[verifier::when_used_as_spec(spec_palette_mode)]
    pub fn palette_mode(&self) -> (r: bool)
        ensures
            r == self.spec_palette_mode(),
    {
        (self.value / 128) % 2 == 1
    }

    /// Tile map base block in units of 2 KiB, bits 8 to 12.
    #[verifier::when_used_as_spec(spec_tilemap_base)]
    pub fn tilemap_base(&self) -> (r: u8)
        ensures
            r == self.spec_tilemap_base(),
            r < 32,
    {
        ((self.value / 256) % 32) as u8
    }

    /// Map size selector, bits 14 and 15.
    #[verifier::when_used_as_spec(spec_tilemap_size)]
    pub fn tilemap_size(&self) -> (r: u8)
        ensures
            r == self.spec_tilemap_size(),
            r < 4,
    {
        ((self.value / 16384) % 4) as u8
    }

    /// Replaces the tile set base block (bits 2 and 3); every other bit keeps its value.
    pub fn set_tileset_base(&mut self, v: u8)
        requires
            v < 4,
        ensures
            final(self).tileset_base() == v,
            final(self).value % 4 == old(self).value % 4,
            final(self).value / 16 == old(self).value / 16,
            final(self).bg_prio() == old(self).bg_prio(),
            final(self).palette_mode() == old(self).palette_mode(),
            final(self).tilemap_base() == old(self).tilemap_base(),
            final(self).tilemap_size() == old(self).tilemap_size(),
    {
        let old_value = self.value;
        let v16 = v as u16;
        let new_value = (old_value / 16) * 16 + v16 * 4 + old_value % 4;
        assert((new_value / 4) % 4 == v16 && new_value % 4 == old_value % 4 && new_value / 16
            == old_value / 16 && (new_value / 128) % 2 == (old_value / 128) % 2 && (new_value / 256) % 32
            == (old_value / 256) % 32 && (new_value / 16384) % 4 == (old_value / 16384) % 4) by (bit_vector)
            requires
                new_value == (old_value / 16) * 16 + v16 * 4 + old_value % 4,
                v16 < 4;
        self.value = new_value;
    }

    /// Replaces the tile map base block (bits 8 to 12); every other bit keeps its value.
    pub fn set_tilemap_base(&mut self, v: u8)
        requires
            v < 32,
        ensures
            final(self).tilemap_base() == v,
            final(self).value % 256 == old(self).value % 256,
            final(self).value / 8192 == old(self).value / 8192,
            final(self).bg_prio() == old(self).bg_prio(),
            final(self).tileset_base() == old(self).tileset_base(),
            final(self).palette_mode() == old(self).palette_mode(),
            final(self).tilemap_size() == old(self).tilemap_size(),
    {
        let old_value = self.value;
        let v16 = v as u16;
        let new_value = (old_value / 8192) * 8192 + v16 * 256 + old_value % 256;
        assert((new_value / 256) % 32 == v16 && new_value % 256 == old_value % 256 && new_value
            / 8192 == old_value / 8192 && new_value % 4 == old_value % 4 && (new_value / 4) % 4 == (old_value
            / 4) % 4 && (new_value / 128) % 2 == (old_value / 128) % 2 && (new_value / 16384) % 4 == (
        old_value / 16384) % 4) by (bit_vector)
            requires
                new_value == (old_value / 8192) * 8192 + v16 * 256 + old_value % 256,
                v16 < 32;
        self.value = new_value;
    }

    /// Width of the background map in tiles: 64 when bit 0 of the map size
    /// is set, else 32.
    #[verifier::when_used_as_spec(spec_width_in_tiles)]
    pub fn width_in_tiles(&self) -> (r: usize)
        ensures
            r == self.spec_width_in_tiles(),
            r == 32 || r == 64,
    {
        let is_wide = self.tilemap_size() % 2 == 1;
        if is_wide { 64 } else { 32 }
    }

    /// Height of the background map in tiles: 64 when bit 1 of the map size
    /// is set, else 32.
    #[verifier::when_used_as_spec(spec_height_in_tiles)]
    pub fn height_in_tiles(&self) -> (r: usize)
        ensures
            r == self.spec_height_in_tiles(),
            r == 32 || r == 64,
    {
        let is_tall = self.tilemap_size() / 2 == 1;
        if is_tall { 64 } else { 32 }
    }
}

/// Background scroll offset register: offset in pixels (9 bits), 7 unused bits.
#[derive(Clone, Copy)]
pub struct BgOffset {
    pub value: u16,
}

impl BgOffset {
    pub open spec fn spec_offset(&self) -> u16 {
        self.value % 512
    }

    /// The scroll offset, bits 0 to 8.
    #[verifier::when_used_as_spec(spec_offset)]
    pub fn offset(&self) -> (r: u16)
        ensures
            r == self.spec_offset(),
            r < 512,
    {
        self.value % 512
    }
}

/// Horizontal and vertical scroll offsets of one background.
#[derive(Clone, Copy)]
pub struct BgOffsetPair {
    pub x: BgOffset,
    pub y: BgOffset,
}

/// The display I/O registers as they lie in memory, 32 bytes from the start
/// of the I/O area.
pub struct DisplayRegisters {
    pub disp_ctrl: DisplayControl,
    pub green_swap: u16,
    pub disp_status: DisplayStatus,
    pub vert_counter: VertCounter,
    pub bg_control: [BgControl; 4],
    pub bg_offset: [BgOffsetPair; 4],
}

impl DisplayRegisters {
    /// Whether every register holds the value that `bytes` gives it, each one
    /// a little-endian 16-bit word in declaration order.
    pub open spec fn matches_bytes(&self, bytes: Seq<u8>) -> bool {
        &&& self.disp_ctrl.value == le_u16(bytes, 0)
        &&& self.green_swap == le_u16(bytes, 2)
        &&& self.disp_status.value == le_u16(bytes, 4)
        &&& self.vert_counter.value == le_u16(bytes, 6)
        &&& forall|i: int| 0 <= i < 4 ==> #[trigger] self.bg_control[i].value == le_u16(bytes, 8 + 2 * i)
        &&& forall|i: int| 0 <= i < 4 ==> #[trigger] self.bg_offset[i].x.value == le_u16(bytes, 16 + 4 * i)
        &&& forall|i: int| 0 <= i < 4 ==> #[trigger] self.bg_offset[i].y.value == le_u16(bytes, 18 + 4 * i)
    }

    /// All registers cleared.
    pub fn new() -> (r: Self)
        ensures
            r.disp_ctrl.value == 0,
            r.green_swap == 0,
            r.disp_status.value == 0,
            r.vert_counter.value == 0,
            forall|i: int| 0 <= i < 4 ==> #[trigger] r.bg_control[i].value == 0,
            forall|i: int| 0 <= i < 4 ==> (#[trigger] r.bg_offset[i]).x.value == 0 && r.bg_offset[i].y.value == 0,
    {
        DisplayRegisters {
            disp_ctrl: DisplayControl { value: 0 },
            green_swap: 0,
            disp_status: DisplayStatus { value: 0 },
            vert_counter: VertCounter { value: 0 },
            bg_control: [BgControl { value: 0 }; 4],
            bg_offset: [BgOffsetPair { x: BgOffset { value: 0 }, y: BgOffset { value: 0 } }; 4],
        }
    }

    /// The registers that a 32-byte image of the register area holds.
    pub fn from_le_bytes(bytes: &[u8; 32]) -> (r: Self)
        ensures
            r.matches_bytes(bytes@),
    {
        let b: &[u8] = bytes;
        let mut bg_control = [BgControl { value: 0 }; 4];
        let mut bg_offset = [BgOffsetPair { x: BgOffset { value: 0 }, y: BgOffset { value: 0 } }; 4];
        let mut i: usize = 0;
        while i < 4
            invariant
                i <= 4,
                b@ == bytes@,
                b@.len() == 32,
                forall|j: int| 0 <= j < i ==> #[trigger] bg_control[j].value == le_u16(b@, 8 + 2 * j),
                forall|j: int| 0 <= j < i ==> #[trigger] bg_offset[j].x.value == le_u16(b@, 16 + 4 * j),
                forall|j: int| 0 <= j < i ==> #[trigger] bg_offset[j].y.value == le_u16(b@, 18 + 4 * j),
            decreases 4 - i,
        {
            bg_control[i] = BgControl { value: read_le_u16(b, 8 + 2 * i) };
            let ghost previous = bg_offset;
            bg_offset[i] = BgOffsetPair {
                x: BgOffset { value: read_le_u16(b, 16 + 4 * i) },
                y: BgOffset { value: read_le_u16(b, 18 + 4 * i) },
            };
            assert(bg_control[i as int].value == le_u16(b@, 8 + 2 * i));
            assert(bg_offset[i as int].x.value == le_u16(b@, 16 + 4 * i));
            assert(bg_offset[i as int].y.value == le_u16(b@, 18 + 4 * i));
            assert forall|j: int| 0 <= j <= i implies #[trigger] bg_offset[j].x.value == le_u16(b@, 16 + 4 * j) by {
                if j < i {
                    assert(bg_offset[j] == previous[j]);
                    assert(previous[j].x.value == le_u16(b@, 16 + 4 * j));
                }
            }
            i += 1;
        }
        DisplayRegisters {
            disp_ctrl: DisplayControl { value: read_le_u16(b, 0) },
            green_swap: read_le_u16(b, 2),
            disp_status: DisplayStatus { value: read_le_u16(b, 4) },
            vert_counter: VertCounter { value: read_le_u16(b, 6) },
            bg_control,
            bg_offset,
        }
    }
}

impl DisplayControl {
    pub open spec fn spec_cgb_mode(&self) -> bool {
        (self.value / 8) % 2 == 1
    }

    /// The CGB mode flag (bit 3).
    #[verifier::when_used_as_spec(spec_cgb_mode)]
    pub fn cgb_mode(&self) -> (r: bool)
        ensures
            r == self.spec_cgb_mode(),
    {
        (self.value / 8) % 2 == 1
    }

    pub open spec fn spec_disp_frame(&self) -> bool {
        (self.value / 16) % 2 == 1
    }

    /// The display frame select (bit 4).
    #[verifier::when_used_as_spec(spec_disp_frame)]
    pub fn disp_frame(&self) -> (r: bool)
        ensures
            r == self.spec_disp_frame(),
    {
        (self.value / 16) % 2 == 1
    }

    pub open spec fn spec_hblank_interval_free(&self) -> bool {
        (self.value / 32) % 2 == 1
    }

    /// The H-blank interval free flag (bit 5).
    #[verifier::when_used_as_spec(spec_hblank_interval_free)]
    pub fn hblank_interval_free(&self) -> (r: bool)
        ensures
            r == self.spec_hblank_interval_free(),
    {
        (self.value / 32) % 2 == 1
    }

    pub open spec fn spec_forced_blank(&self) -> bool {
        (self.value / 128) % 2 == 1
    }

    /// The forced blank flag (bit 7).
    #[verifier::when_used_as_spec(spec_forced_blank)]
    pub fn forced_blank(&self) -> (r: bool)
        ensures
            r == self.spec_forced_blank(),
    {
        (self.value / 128) % 2 == 1
    }

    pub open spec fn spec_screen_disp_obj(&self) -> bool {
        (self.value / 4096) % 2 == 1
    }

    /// The object display enable (bit 12).
    #[verifier::when_used_as_spec(spec_screen_disp_obj)]
    pub fn screen_disp_obj(&self) -> (r: bool)
        ensures
            r == self.spec_screen_disp_obj(),
    {
        (self.value / 4096) % 2 == 1
    }

    pub open spec fn spec_disp_win0(&self) -> bool {
        (self.value / 8192) % 2 == 1
    }

    /// The window 0 display enable (bit 13).
    #[verifier::when_used_as_spec(spec_disp_win0)]
    pub fn disp_win0(&self) -> (r: bool)
        ensures
            r == self.spec_disp_win0(),
    {
        (self.value / 8192) % 2 == 1
    }

    pub open spec fn spec_disp_win1(&self) -> bool {
        (self.value / 16384) % 2 == 1
    }

    /// The window 1 display enable (bit 14).
    #[verifier::when_used_as_spec(spec_disp_win1)]
    pub fn disp_win1(&self) -> (r: bool)
        ensures
            r == self.spec_disp_win1(),
    {
        (self.value / 16384) % 2 == 1
    }

    pub open spec fn spec_disp_obj_win(&self) -> bool {
        (self.value / 32768) % 2 == 1
    }

    /// The object window display enable (bit 15).
    #[verifier::when_used_as_spec(spec_disp_obj_win)]
    pub fn disp_obj_win(&self) -> (r: bool)
        ensures
            r == self.spec_disp_obj_win(),
    {
        (self.value / 32768) % 2 == 1
    }

    /// Replaces the background mode (bits 0 to 2); every other bit keeps its value.
    pub fn set_bg_mode(&mut self, v: u8)
        requires
            v < 8,
        ensures
            final(self).value == with_field(old(self).value, 1, 8, v as int),
            final(self).bg_mode() == v,
    {
        self.value = replace_field(self.value, 1, 8, v as u16);
    }

    /// Replaces the CGB mode flag (bit 3); every other bit keeps its value.
    pub fn set_cgb_mode(&mut self, v: bool)
        ensures
            final(self).value == with_field(old(self).value, 8, 2, if v { 1int } else { 0int }),
            final(self).cgb_mode() == v,
    {
        self.value = replace_field(self.value, 8, 2, if v { 1 } else { 0 });
    }

    /// Replaces the display frame select (bit 4); every other bit keeps its value.
    pub fn set_disp_frame(&mut self, v: bool)
        ensures
            final(self).value == with_field(old(self).value, 16, 2, if v { 1int } else { 0int }),
            final(self).disp_frame() == v,
    {
        self.value = replace_field(self.value, 16, 2, if v { 1 } else { 0 });
    }

    /// Replaces the H-blank interval free flag (bit 5); every other bit keeps its value.
    pub fn set_hblank_interval_free(&mut self, v: bool)
        ensures
            final(self).value == with_field(old(self).value, 32, 2, if v { 1int } else { 0int }),
            final(self).hblank_interval_free() == v,
    {
        self.value = replace_field(self.value, 32, 2, if v { 1 } else { 0 });
    }

    /// Replaces the object character mapping flag (bit 6); every other bit keeps its value.
    pub fn set_obj_char_mapping(&mut self, v: bool)
        ensures
            final(self).value == with_field(old(self).value, 64, 2, if v { 1int } else { 0int }),
            final(self).obj_char_mapping() == v,
    {
        self.value = replace_field(self.value, 64, 2, if v { 1 } else { 0 });
    }

    /// Replaces the forced blank flag (bit 7); every other bit keeps its value.
    pub fn set_forced_blank(&mut self, v: bool)
        ensures
            final(self).value == with_field(old(self).value, 128, 2, if v { 1int } else { 0int }),
            final(self).forced_blank() == v,
    {
        self.value = replace_field(self.value, 128, 2, if v { 1 } else { 0 });
    }

    /// Replaces the object display enable (bit 12); every other bit keeps its value.
    pub fn set_screen_disp_obj(&mut self, v: bool)
        ensures
            final(self).value == with_field(old(self).value, 4096, 2, if v { 1int } else { 0int }),
            final(self).screen_disp_obj() == v,
    {
        self.value = replace_field(self.value, 4096, 2, if v { 1 } else { 0 });
    }

    /// Replaces the window 0 display enable (bit 13); every other bit keeps its value.
    pub fn set_disp_win0(&mut self, v: bool)
        ensures
            final(self).value == with_field(old(self).value, 8192, 2, if v { 1int } else { 0int }),
            final(self).disp_win0() == v,
    {
        self.value = replace_field(self.value, 8192, 2, if v { 1 } else { 0 });
    }

    /// Replaces the window 1 display enable (bit 14); every other bit keeps its value.
    pub fn set_disp_win1(&mut self, v: bool)
        ensures
            final(self).value == with_field(old(self).value, 16384, 2, if v { 1int } else { 0int }),
            final(self).disp_win1() == v,
    {
        self.value = replace_field(self.value, 16384, 2, if v { 1 } else { 0 });
    }

    /// Replaces the object window display enable (bit 15); every other bit keeps its value.
    pub fn set_disp_obj_win(&mut self, v: bool)
        ensures
            final(self).value == with_field(old(self).value, 32768, 2, if v { 1int } else { 0int }),
            final(self).disp_obj_win() == v,
    {
        self.value = replace_field(self.value, 32768, 2, if v { 1 } else { 0 });
    }
}

impl DisplayStatus {
    pub open spec fn spec_vblank_flag(&self) -> bool {
        self.value % 2 == 1
    }

    /// The V-blank flag (bit 0).
    #[verifier::when_used_as_spec(spec_vblank_flag)]
    pub fn vblank_flag(&self) -> (r: bool)
        ensures
            r == self.spec_vblank_flag(),
    {
        self.value % 2 == 1
    }

    pub open spec fn spec_hblank_flag(&self) -> bool {
        (self.value / 2) % 2 == 1
    }

    /// The H-blank flag (bit 1).
    #[verifier::when_used_as_spec(spec_hblank_flag)]
    pub fn hblank_flag(&self) -> (r: bool)
        ensures
            r == self.spec_hblank_flag(),
    {
        (self.value / 2) % 2 == 1
    }

    pub open spec fn spec_vcounter_flag(&self) -> bool {
        (self.value / 4) % 2 == 1
    }

    /// The V-counter match flag (bit 2).
    #[verifier::when_used_as_spec(spec_vcounter_flag)]
    pub fn vcounter_flag(&self) -> (r: bool)
        ensures
            r == self.spec_vcounter_flag(),
    {
        (self.value / 4) % 2 == 1
    }

    pub open spec fn spec_vblank_irq_en(&self) -> bool {
        (self.value / 8) % 2 == 1
    }

    /// The V-blank interrupt enable (bit 3).
    #[verifier::when_used_as_spec(spec_vblank_irq_en)]
    pub fn vblank_irq_en(&self) -> (r: bool)
        ensures
            r == self.spec_vblank_irq_en(),
    {
        (self.value / 8) % 2 == 1
    }

    pub open spec fn spec_hblank_irq_en(&self) -> bool {
        (self.value / 16) % 2 == 1
    }

    /// The H-blank interrupt enable (bit 4).
    #[verifier::when_used_as_spec(spec_hblank_irq_en)]
    pub fn hblank_irq_en(&self) -> (r: bool)
        ensures
            r == self.spec_hblank_irq_en(),
    {
        (self.value / 16) % 2 == 1
    }

    pub open spec fn spec_vcounter_irq_en(&self) -> bool {
        (self.value / 32) % 2 == 1
    }

    /// The V-counter interrupt enable (bit 5).
    #[verifier::when_used_as_spec(spec_vcounter_irq_en)]
    pub fn vcounter_irq_en(&self) -> (r: bool)
        ensures
            r == self.spec_vcounter_irq_en(),
    {
        (self.value / 32) % 2 == 1
    }

    pub open spec fn spec_unused(&self) -> u8 {
        ((self.value / 64) % 4) as u8
    }

    /// The unused bits 6 and 7.
    #[verifier::when_used_as_spec(spec_unused)]
    pub fn unused(&self) -> (r: u8)
        ensures
            r == self.spec_unused(),
            r < 4,
    {
        ((self.value / 64) % 4) as u8
    }

    pub open spec fn spec_vcounter_setting(&self) -> u8 {
        ((self.value / 256) % 256) as u8
    }

    /// The V-count setting (bits 8 to 15).
    #[verifier::when_used_as_spec(spec_vcounter_setting)]
    pub fn vcounter_setting(&self) -> (r: u8)
        ensures
            r == self.spec_vcounter_setting(),
            r < 256,
    {
        ((self.value / 256) % 256) as u8
    }

    /// Replaces the V-blank flag (bit 0); every other bit keeps its value.
    pub fn set_vblank_flag(&mut self, v: bool)
        ensures
            final(self).value == with_field(old(self).value, 1, 2, if v { 1int } else { 0int }),
            final(self).vblank_flag() == v,
    {
        self.value = replace_field(self.value, 1, 2, if v { 1 } else { 0 });
    }

    /// Replaces the H-blank flag (bit 1); every other bit keeps its value.
    pub fn set_hblank_flag(&mut self, v: bool)
        ensures
            final(self).value == with_field(old(self).value, 2, 2, if v { 1int } else { 0int }),
            final(self).hblank_flag() == v,
    {
        self.value = replace_field(self.value, 2, 2, if v { 1 } else { 0 });
    }

    /// Replaces the V-counter match flag (bit 2); every other bit keeps its value.
    pub fn set_vcounter_flag(&mut self, v: bool)
        ensures
            final(self).value == with_field(old(self).value, 4, 2, if v { 1int } else { 0int }),
            final(self).vcounter_flag() == v,
    {
        self.value = replace_field(self.value, 4, 2, if v { 1 } else { 0 });
    }

    /// Replaces the V-blank interrupt enable (bit 3); every other bit keeps its value.
    pub fn set_vblank_irq_en(&mut self, v: bool)
        ensures
            final(self).value == with_field(old(self).value, 8, 2, if v { 1int } else { 0int }),
            final(self).vblank_irq_en() == v,
    {
        self.value = replace_field(self.value, 8, 2, if v { 1 } else { 0 });
    }

    /// Replaces the H-blank interrupt enable (bit 4); every other bit keeps its value.
    pub fn set_hblank_irq_en(&mut self, v: bool)
        ensures
            final(self).value == with_field(old(self).value, 16, 2, if v { 1int } else { 0int }),
            final(self).hblank_irq_en() == v,
    {
        self.value = replace_field(self.value, 16, 2, if v { 1 } else { 0 });
    }

    /// Replaces the V-counter interrupt enable (bit 5); every other bit keeps its value.
    pub fn set_vcounter_irq_en(&mut self, v: bool)
        ensures
            final(self).value == with_field(old(self).value, 32, 2, if v { 1int } else { 0int }),
            final(self).vcounter_irq_en() == v,
    {
        self.value = replace_field(self.value, 32, 2, if v { 1 } else { 0 });
    }

    /// Replaces the unused bits 6 and 7; every other bit keeps its value.
    pub fn set_unused(&mut self, v: u8)
        requires
            v < 4,
        ensures
            final(self).value == with_field(old(self).value, 64, 4, v as int),
            final(self).unused() == v,
    {
        self.value = replace_field(self.value, 64, 4, v as u16);
    }

    /// Replaces the V-count setting (bits 8 to 15); every other bit keeps its value.
    pub fn set_vcounter_setting(&mut self, v: u8)
        requires
            v < 256,
        ensures
            final(self).value == with_field(old(self).value, 256, 256, v as int),
            final(self).vcounter_setting() == v,
    {
        self.value = replace_field(self.value, 256, 256, v as u16);
    }
}

impl VertCounter {
    pub open spec fn spec_curr_scanline(&self) -> u8 {
        (self.value % 256) as u8
    }

    /// The current scanline (bits 0 to 7).
    #[verifier::when_used_as_spec(spec_curr_scanline)]
    pub fn curr_scanline(&self) -> (r: u8)
        ensures
            r == self.spec_curr_scanline(),
            r < 256,
    {
        (self.value % 256) as u8
    }

    pub open spec fn spec_unused(&self) -> u8 {
        ((self.value / 256) % 256) as u8
    }

    /// The unused high byte (bits 8 to 15).
    #[verifier::when_used_as_spec(spec_unused)]
    pub fn unused(&self) -> (r: u8)
        ensures
            r == self.spec_unused(),
            r < 256,
    {
        ((self.value / 256) % 256) as u8
    }

    /// Replaces the current scanline (bits 0 to 7); every other bit keeps its value.
    pub fn set_curr_scanline(&mut self, v: u8)
        requires
            v < 256,
        ensures
            final(self).value == with_field(old(self).value, 1, 256, v as int),
            final(self).curr_scanline() == v,
    {
        self.value = replace_field(self.value, 1, 256, v as u16);
    }

    /// Replaces the unused high byte (bits 8 to 15); every other bit keeps its value.
    pub fn set_unused(&mut self, v: u8)
        requires
            v < 256,
        ensures
            final(self).value == with_field(old(self).value, 256, 256, v as int),
            final(self).unused() == v,
    {
        self.value = replace_field(self.value, 256, 256, v as u16);
    }
}

impl BgControl {
    pub open spec fn spec_unused1(&self) -> u8 {
        ((self.value / 16) % 4) as u8
    }

    /// The unused bits 4 and 5.
    #[verifier::when_used_as_spec(spec_unused1)]
    pub fn unused1(&self) -> (r: u8)
        ensures
            r == self.spec_unused1(),
            r < 4,
    {
        ((self.value / 16) % 4) as u8
    }

    pub open spec fn spec_mosaic(&self) -> bool {
        (self.value / 64) % 2 == 1
    }

    /// The mosaic flag (bit 6).
    #[verifier::when_used_as_spec(spec_mosaic)]
    pub fn mosaic(&self) -> (r: bool)
        ensures
            r == self.spec_mosaic(),
    {
        (self.value / 64) % 2 == 1
    }

    pub open spec fn spec_disp_area_overflow(&self) -> bool {
        (self.value / 8192) % 2 == 1
    }

    /// The display area overflow flag (bit 13).
    #[verifier::when_used_as_spec(spec_disp_area_overflow)]
    pub fn disp_area_overflow(&self) -> (r: bool)
        ensures
            r == self.spec_disp_area_overflow(),
    {
        (self.value / 8192) % 2 == 1
    }

    /// Replaces the priority (bits 0 and 1); every other bit keeps its value.
    pub fn set_bg_prio(&mut self, v: u8)
        requires
            v < 4,
        ensures
            final(self).value == with_field(old(self).value, 1, 4, v as int),
            final(self).bg_prio() == v,
    {
        self.value = replace_field(self.value, 1, 4, v as u16);
    }

    /// Replaces the unused bits 4 and 5; every other bit keeps its value.
    pub fn set_unused1(&mut self, v: u8)
        requires
            v < 4,
        ensures
            final(self).value == with_field(old(self).value, 16, 4, v as int),
            final(self).unused1() == v,
    {
        self.value = replace_field(self.value, 16, 4, v as u16);
    }

    /// Replaces the mosaic flag (bit 6); every other bit keeps its value.
    pub fn set_mosaic(&mut self, v: bool)
        ensures
            final(self).value == with_field(old(self).value, 64, 2, if v { 1int } else { 0int }),
            final(self).mosaic() == v,
    {
        self.value = replace_field(self.value, 64, 2, if v { 1 } else { 0 });
    }

    /// Replaces the palette mode flag (bit 7); every other bit keeps its value.
    pub fn set_palette_mode(&mut self, v: bool)
        ensures
            final(self).value == with_field(old(self).value, 128, 2, if v { 1int } else { 0int }),
            final(self).palette_mode() == v,
    {
        self.value = replace_field(self.value, 128, 2, if v { 1 } else { 0 });
    }

    /// Replaces the display area overflow flag (bit 13); every other bit keeps its value.
    pub fn set_disp_area_overflow(&mut self, v: bool)
        ensures
            final(self).value == with_field(old(self).value, 8192, 2, if v { 1int } else { 0int }),
            final(self).disp_area_overflow() == v,
    {
        self.value = replace_field(self.value, 8192, 2, if v { 1 } else { 0 });
    }

    /// Replaces the map size selector (bits 14 and 15); every other bit keeps its value.
    pub fn set_tilemap_size(&mut self, v: u8)
        requires
            v < 4,
        ensures
            final(self).value == with_field(old(self).value, 16384, 4, v as int),
            final(self).tilemap_size() == v,
    {
        self.value = replace_field(self.value, 16384, 4, v as u16);
    }
}

impl BgOffset {
    pub open spec fn spec_unused(&self) -> u8 {
        ((self.value / 512) % 128) as u8
    }

    /// The unused bits 9 to 15.
    #[verifier::when_used_as_spec(spec_unused)]
    pub fn unused(&self) -> (r: u8)
        ensures
            r == self.spec_unused(),
            r < 128,
    {
        ((self.value / 512) % 128) as u8
    }

    /// Replaces the scroll offset (bits 0 to 8); every other bit keeps its value.
    pub fn set_offset(&mut self, v: u16)
        requires
            v < 512,
        ensures
            final(self).value == with_field(old(self).value, 1, 512, v as int),
            final(self).offset() == v,
    {
        self.value = replace_field(self.value, 1, 512, v as u16);
    }

    /// Replaces the unused bits 9 to 15; every other bit keeps its value.
    pub fn set_unused(&mut self, v: u8)
        requires
            v < 128,
        ensures
            final(self).value == with_field(old(self).value, 512, 128, v as int),
            final(self).unused() == v,
    {
        self.value = replace_field(self.value, 512, 128, v as u16);
    }
}

impl DisplayControl {
    /// The display enables of the four backgrounds (bits 8 to 11).
    pub fn screen_disp_bg(&self) -> (r: [bool; 4])
        ensures
            forall|i: int| 0 <= i < 4 ==> #[trigger] r[i] == self.screen_disp_bg_at(i as usize),
    {
        [self.screen_disp_bg_at(0), self.screen_disp_bg_at(1), self.screen_disp_bg_at(2), self.screen_disp_bg_at(3)]
    }

    /// Replaces the display enable of background `index` (bit `8 + index`);
    /// every other bit keeps its value.
    pub fn set_screen_disp_bg_at(&mut self, index: usize, v: bool)
        requires
            index < 4,
        ensures
            final(self).value == with_field(old(self).value, 256 * pow2_small(index as int), 2, if v { 1int } else { 0int }),
            final(self).screen_disp_bg_at(index) == v,
    {
        let b: u16 = if v { 1 } else { 0 };
        if index == 0 {
            self.value = replace_field(self.value, 256, 2, b);
        } else if index == 1 {
            self.value = replace_field(self.value, 512, 2, b);
        } else if index == 2 {
            self.value = replace_field(self.value, 1024, 2, b);
        } else {
            self.value = replace_field(self.value, 2048, 2, b);
        }
        proof {
            vstd::arithmetic::div_mod::lemma_div_denominator(self.value as int, 256, pow2_small(index as int));
        }
    }

    /// Replaces the display enables of the four backgrounds (bits 8 to 11);
    /// every other bit keeps its value.
    pub fn set_screen_disp_bg(&mut self, v: [bool; 4])
        ensures
            final(self).value == with_field(
                old(self).value,
                256,
                16,
                (if v[0] { 1int } else { 0int }) + (if v[1] { 2int } else { 0int }) + (if v[2] { 4int } else { 0int }) + (
                if v[3] { 8int } else { 0int }),
            ),
            forall|i: int| 0 <= i < 4 ==> #[trigger] final(self).screen_disp_bg_at(i as usize) == v[i],
    {
        let b0: u16 = if v[0] { 1 } else { 0 };
        let b1: u16 = if v[1] { 1 } else { 0 };
        let b2: u16 = if v[2] { 1 } else { 0 };
        let b3: u16 = if v[3] { 1 } else { 0 };
        let bits: u16 = b0 + 2 * b1 + 4 * b2 + 8 * b3;
        let x = replace_field(self.value, 256, 16, bits);
        assert((x / 256) % 2 == b0 && (x / 256 / 2) % 2 == b1 && (x / 256 / 4) % 2 == b2 && (x / 256 / 8) % 2 == b3)
            by (bit_vector)
            requires
                (x / 256) % 16 == bits,
                bits == b0 + 2 * b1 + 4 * b2 + 8 * b3,
                b0 <= 1,
                b1 <= 1,
                b2 <= 1,
                b3 <= 1,
        ;
        self.value = x;
    }
}

} // verus!
