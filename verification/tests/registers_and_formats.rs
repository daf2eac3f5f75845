use gba_video::objects::{ObjAttr, ObjAttr0Normal, ObjAttr0RotScale, ObjAttr1Normal, ObjAttr1RotScale, OAM};
use gba_video::registers::{BgControl, BgOffset, DisplayControl, DisplayRegisters, DisplayStatus, VertCounter};
use gba_video::video::{DisplayColour, MapTextEntry, Palette, Tile4, Tile8, VRAM, VRAM_SIZE};

#[test]
fn colour_init_fields_round_trip() {
    let c = DisplayColour::init(0, 20, 29);
    assert_eq!(c.red(), 0);
    assert_eq!(c.green(), 20);
    assert_eq!(c.blue(), 29);
    assert_eq!(c.value, 20 * 32 + 29 * 1024);
    let d = DisplayColour::init(31, 31, 31);
    assert_eq!(d.value, 0x7fff);
}

#[test]
fn colour_to_minifb_format_places_channels() {
    assert_eq!(DisplayColour::init(31, 0, 0).to_minifb_format(), 0x00f8_0000);
    assert_eq!(DisplayColour::init(0, 31, 0).to_minifb_format(), 0x0000_f800);
    assert_eq!(DisplayColour::init(0, 0, 31).to_minifb_format(), 0x0000_00f8);
    assert_eq!(DisplayColour::init(30, 24, 28).to_minifb_format(), (30 << 19) | (24 << 11) | (28 << 3));
}

#[test]
fn colour_unused_bit_is_ignored() {
    let c = DisplayColour { value: 0x8000 | 5 };
    assert_eq!(c.red(), 5);
    assert_eq!(c.green(), 0);
    assert_eq!(c.blue(), 0);
    assert_eq!(c.to_minifb_format(), 5 << 19);
}

#[test]
fn colour_to_rgb565_doubles_green() {
    assert_eq!(DisplayColour::init(27, 21, 30).to_rgb565_format(), (27, 42, 30));
    assert_eq!(DisplayColour::init(15, 5, 20).to_rgb565_format(), (15, 10, 20));
}

#[test]
fn bg_control_fields() {
    // prio 2, tileset 3, mosaic, 256 colours, map base 30, map size 3
    let v: u16 = 2 | (3 << 2) | (1 << 6) | (1 << 7) | (30 << 8) | (3 << 14);
    let r = BgControl { value: v };
    assert_eq!(r.bg_prio(), 2);
    assert_eq!(r.tileset_base(), 3);
    assert!(r.palette_mode());
    assert_eq!(r.tilemap_base(), 30);
    assert_eq!(r.tilemap_size(), 3);
}

#[test]
fn bg_control_map_dimensions() {
    let sizes = [(0u16, 32usize, 32usize), (1, 64, 32), (2, 32, 64), (3, 64, 64)];
    for (size, w, h) in sizes {
        let r = BgControl { value: size << 14 };
        assert_eq!(r.width_in_tiles(), w);
        assert_eq!(r.height_in_tiles(), h);
    }
}

#[test]
fn bg_control_setters_keep_other_bits() {
    let mut r = BgControl { value: 0xffff };
    r.set_tileset_base(2);
    assert_eq!(r.tileset_base(), 2);
    assert_eq!(r.value, 0xffff & !(3 << 2) | (2 << 2));
    r.set_tilemap_base(30);
    assert_eq!(r.tilemap_base(), 30);
    assert_eq!(r.tileset_base(), 2);
    assert_eq!(r.value, (0xffff & !(3 << 2) | (2 << 2)) & !(31 << 8) | (30 << 8));
    let mut z = BgControl { value: 0 };
    z.set_tilemap_base(31);
    assert_eq!(z.value, 31 << 8);
}

#[test]
fn display_control_fields() {
    let c = DisplayControl { value: 5 | (1 << 6) | (1 << 8) | (1 << 11) };
    assert_eq!(c.bg_mode(), 5);
    assert!(c.obj_char_mapping());
    assert!(c.screen_disp_bg_at(0));
    assert!(!c.screen_disp_bg_at(1));
    assert!(!c.screen_disp_bg_at(2));
    assert!(c.screen_disp_bg_at(3));
}

#[test]
fn bg_offset_keeps_nine_bits() {
    assert_eq!(BgOffset { value: 0xffff }.offset(), 511);
    assert_eq!(BgOffset { value: 300 }.offset(), 300);
}

#[test]
fn display_registers_new_is_zero() {
    let r = DisplayRegisters::new();
    assert_eq!(r.disp_ctrl.value, 0);
    assert_eq!(r.green_swap, 0);
    assert_eq!(r.disp_status.value, 0);
    assert_eq!(r.vert_counter.value, 0);
    for i in 0..4 {
        assert_eq!(r.bg_control[i].value, 0);
        assert_eq!(r.bg_offset[i].x.value, 0);
        assert_eq!(r.bg_offset[i].y.value, 0);
    }
}

#[test]
fn display_registers_from_le_bytes() {
    let mut bytes = [0u8; 32];
    for (i, b) in bytes.iter_mut().enumerate() {
        *b = i as u8 + 1;
    }
    let r = DisplayRegisters::from_le_bytes(&bytes);
    assert_eq!(r.disp_ctrl.value, 0x0201);
    assert_eq!(r.green_swap, 0x0403);
    assert_eq!(r.disp_status.value, 0x0605);
    assert_eq!(r.vert_counter.value, 0x0807);
    assert_eq!(r.bg_control[0].value, 0x0a09);
    assert_eq!(r.bg_control[3].value, 0x100f);
    assert_eq!(r.bg_offset[0].x.value, 0x1211);
    assert_eq!(r.bg_offset[0].y.value, 0x1413);
    assert_eq!(r.bg_offset[3].x.value, 0x1e1d);
    assert_eq!(r.bg_offset[3].y.value, 0x201f);
}

#[test]
fn tile4_low_nibble_is_left_pixel() {
    let mut data = [0u8; 32];
    data[2 * 4 + 1] = 0xa5; // row 2, pixels 2 and 3
    let t = Tile4 { data };
    assert_eq!(t.get_colour(2, 2), 5);
    assert_eq!(t.get_colour(3, 2), 10);
    assert_eq!(t.get_colour(0, 0), 0);
}

#[test]
fn tile8_is_row_major() {
    let mut data = [0u8; 64];
    data[7 * 8 + 6] = 200;
    let t = Tile8 { data };
    assert_eq!(t.get_colour(6, 7), 200);
    assert_eq!(t.get_colour(7, 6), 0);
}

#[test]
fn map_text_entry_fields() {
    let e = MapTextEntry { value: 1000 | (1 << 10) | (13 << 12) };
    assert_eq!(e.tile(), 1000);
    assert_eq!(e.palette(), 13);
}

#[test]
fn palette_lookups_and_bytes() {
    let mut bytes = [0u8; 1024];
    bytes[2 * 17] = 0x34;
    bytes[2 * 17 + 1] = 0x12;
    bytes[512 + 2 * 255] = 0xff;
    bytes[512 + 2 * 255 + 1] = 0x7f;
    let p = Palette::from_le_bytes(&bytes);
    assert_eq!(p.bg[17].value, 0x1234);
    assert_eq!(p.get_bg_colour_16(1, 1).value, 0x1234);
    assert_eq!(p.get_bg_colour_256(17).value, 0x1234);
    assert_eq!(p.obj[255].value, 0x7fff);
    assert_eq!(p.get_obj_colour_16(15, 15).value, 0x7fff);
    assert_eq!(p.get_obj_colour_256(255).value, 0x7fff);
    // the palette number and colour index only need to address one of the 256 colours
    assert_eq!(p.get_bg_colour_16(0, 17).value, 0x1234);
    assert_eq!(p.get_obj_colour_16(0, 255).value, 0x7fff);
    let z = Palette::zeroed();
    assert_eq!(z.bg[100].value, 0);
    assert_eq!(z.obj[100].value, 0);
}

#[test]
fn vram_init_and_zeroed() {
    let mut data = [0u8; 98304];
    data[VRAM_SIZE - 1] = 9;
    let v = VRAM::init(data);
    assert_eq!(v.data()[VRAM_SIZE - 1], 9);
    let z = VRAM::zeroed();
    assert!(z.data().iter().all(|b| *b == 0));
}

#[test]
fn object_attributes_layouts() {
    let normal = ObjAttr { words: [(1 << 9) | 40, 100 | (1 << 12), 5 | (2 << 10) | (7 << 12), 0] };
    assert!(!normal.is_rot_scale());
    assert_eq!(normal.get_prio(), 2);
    let n = normal.get_normal().unwrap();
    assert!(n.is_disabled());
    assert_eq!(n.attr0.y(), 40);
    assert_eq!(n.attr1.x(), 100);
    assert!(n.attr1.horiz_flip());
    assert!(!n.attr1.vert_flip());
    assert_eq!(n.attr2.tile(), 5);
    assert_eq!(n.attr2.palette(), 7);
    assert!(normal.get_rot_scale().is_none());

    let rs = ObjAttr { words: [1 << 8, 0, 3 << 10, 0x1234] };
    assert!(rs.is_rot_scale());
    assert_eq!(rs.get_prio(), 3);
    assert!(rs.get_normal().is_none());
    assert_eq!(rs.get_rot_scale().unwrap().rot_scale, 0x1234);
}

#[test]
fn oam_from_le_bytes() {
    let mut bytes = [0u8; 1024];
    bytes[8 * 127 + 4] = 0x02;
    bytes[8 * 127 + 5] = 0x0c;
    let oam = OAM::from_le_bytes(&bytes);
    assert_eq!(oam.get(127).words[2], 0x0c02);
    assert_eq!(oam.get(127).get_prio(), 3);
    assert_eq!(OAM::zeroed().get(5).words, [0, 0, 0, 0]);
}

#[test]
fn display_control_all_fields() {
    let mut c = DisplayControl { value: 0 };
    c.set_bg_mode(5);
    c.set_cgb_mode(true);
    c.set_forced_blank(true);
    c.set_screen_disp_bg_at(2, true);
    c.set_disp_obj_win(true);
    assert_eq!(c.value, 5 | (1 << 3) | (1 << 7) | (1 << 10) | (1 << 15));
    assert_eq!(c.bg_mode(), 5);
    assert!(c.cgb_mode() && c.forced_blank() && c.disp_obj_win());
    assert!(!c.disp_frame() && !c.hblank_interval_free() && !c.obj_char_mapping());
    assert!(!c.screen_disp_obj() && !c.disp_win0() && !c.disp_win1());
    assert_eq!(c.screen_disp_bg(), [false, false, true, false]);
    c.set_screen_disp_bg([true, true, false, true]);
    assert_eq!(c.screen_disp_bg(), [true, true, false, true]);
    assert_eq!(c.value, 5 | (1 << 3) | (1 << 7) | (0b1011 << 8) | (1 << 15));
    c.set_disp_frame(true);
    c.set_hblank_interval_free(true);
    c.set_obj_char_mapping(true);
    c.set_screen_disp_obj(true);
    c.set_disp_win0(true);
    c.set_disp_win1(true);
    c.set_cgb_mode(false);
    assert_eq!(c.value, 5 | (1 << 4) | (1 << 5) | (1 << 6) | (1 << 7) | (0b1011 << 8) | (0b1111 << 12));
}

#[test]
fn display_status_and_vcount_fields() {
    let mut s = DisplayStatus { value: 0 };
    s.set_vblank_flag(true);
    s.set_vcounter_irq_en(true);
    s.set_vcounter_setting(159);
    s.set_unused(3);
    assert_eq!(s.value, 1 | (1 << 5) | (3 << 6) | (159 << 8));
    assert!(s.vblank_flag() && !s.hblank_flag() && !s.vcounter_flag());
    assert!(!s.vblank_irq_en() && !s.hblank_irq_en() && s.vcounter_irq_en());
    assert_eq!(s.vcounter_setting(), 159);
    assert_eq!(s.unused(), 3);
    s.set_hblank_flag(true);
    s.set_vcounter_flag(true);
    s.set_vblank_irq_en(true);
    s.set_hblank_irq_en(true);
    s.set_vblank_flag(false);
    assert_eq!(s.value, 0b1111_1110 | (159 << 8));
    let mut v = VertCounter { value: 0xabcd };
    assert_eq!(v.curr_scanline(), 0xcd);
    assert_eq!(v.unused(), 0xab);
    v.set_curr_scanline(100);
    v.set_unused(0);
    assert_eq!(v.value, 100);
}

#[test]
fn bg_control_and_offset_remaining_fields() {
    let mut r = BgControl { value: 0 };
    r.set_bg_prio(3);
    r.set_unused1(2);
    r.set_mosaic(true);
    r.set_palette_mode(true);
    r.set_disp_area_overflow(true);
    r.set_tilemap_size(2);
    assert_eq!(r.value, 3 | (2 << 4) | (1 << 6) | (1 << 7) | (1 << 13) | (2 << 14));
    assert_eq!(r.unused1(), 2);
    assert!(r.mosaic() && r.disp_area_overflow());
    assert_eq!(r.height_in_tiles(), 64);
    let mut o = BgOffset { value: 0 };
    o.set_offset(511);
    o.set_unused(127);
    assert_eq!(o.value, 0xffff);
    assert_eq!(o.unused(), 127);
    o.set_offset(3);
    assert_eq!(o.value, 0xfe03);
}

#[test]
fn sprite_attribute_remaining_fields() {
    let a0 = ObjAttr0Normal { value: (2 << 10) | (1 << 12) };
    assert_eq!(a0.mode(), 2);
    assert!(a0.mosaic());
    let r0 = ObjAttr0RotScale { value: 77 | (1 << 8) | (1 << 9) | (1 << 10) | (1 << 13) | (2 << 14) };
    assert_eq!(r0.y(), 77);
    assert!(r0.rot_scale() && r0.double_size() && !r0.mosaic() && r0.enable_256_colour());
    assert_eq!(r0.mode(), 1);
    assert_eq!(r0.shape(), 2);
    let a1 = ObjAttr1Normal { value: 5 << 9 };
    assert_eq!(a1.unused(), 5);
    let r1 = ObjAttr1RotScale { value: 300 | (17 << 9) | (3 << 14) };
    assert_eq!(r1.x(), 300);
    assert_eq!(r1.param_sel(), 17);
    assert_eq!(r1.size(), 3);
}
