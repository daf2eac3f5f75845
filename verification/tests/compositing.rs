use gba_video::objects::OAM;
use gba_video::pixel::{RenderFault, Video};
use gba_video::registers::DisplayRegisters;
use gba_video::video::{DisplayColour, Palette, VRAM};

/// Object attribute memory image with every sprite disabled.
fn disabled_sprites() -> [u8; 1024] {
    let mut b = [0u8; 1024];
    for i in 0..128 {
        b[8 * i + 1] = 0x02; // attr0 bit 9
    }
    b
}

fn set_sprite(oam: &mut [u8; 1024], i: usize, attr0: u16, attr1: u16, attr2: u16) {
    oam[8 * i] = attr0 as u8;
    oam[8 * i + 1] = (attr0 >> 8) as u8;
    oam[8 * i + 2] = attr1 as u8;
    oam[8 * i + 3] = (attr1 >> 8) as u8;
    oam[8 * i + 4] = attr2 as u8;
    oam[8 * i + 5] = (attr2 >> 8) as u8;
}

fn render(
    regs: &DisplayRegisters,
    palette: &Palette,
    vram: &[u8; 98304],
    oam: &[u8; 1024],
    x: usize,
    y: usize,
) -> Result<DisplayColour, RenderFault> {
    let vram = VRAM::init(*vram);
    let oam = OAM::from_le_bytes(oam);
    let video = Video { registers: regs, palette, vram: &vram, oam: &oam };
    video.try_get_pixel(x, y)
}

/// Background 0 set up with tile set block 2,
/// tile map block 30, map entry (0, 0) showing tile 1 in palette 13, whose
/// first row starts with colours 1 and 2.
fn bg0_scene() -> (DisplayRegisters, Palette, Box<[u8; 98304]>) {
    let mut regs = DisplayRegisters::new();
    regs.bg_control[0].set_tileset_base(2);
    regs.bg_control[0].set_tilemap_base(30);
    regs.disp_ctrl.value = 1 << 8;
    let mut palette = Palette::zeroed();
    palette.bg[0] = DisplayColour::init(1, 2, 3);
    palette.bg[13 * 16] = DisplayColour::init(0, 20, 29);
    palette.bg[13 * 16 + 1] = DisplayColour::init(30, 24, 28);
    palette.bg[13 * 16 + 2] = DisplayColour::init(27, 21, 30);
    palette.bg[13 * 16 + 3] = DisplayColour::init(15, 5, 20);
    let mut vram = Box::new([0u8; 98304]);
    let entry: u16 = 1 | (13 << 12);
    vram[30 * 2048] = entry as u8;
    vram[30 * 2048 + 1] = (entry >> 8) as u8;
    vram[2 * 16384 + 32] = 0x21;
    (regs, palette, vram)
}

#[test]
fn all_clear_state_shows_backdrop() {
    let regs = DisplayRegisters::new();
    let mut palette = Palette::zeroed();
    palette.bg[0] = DisplayColour::init(4, 5, 6);
    let vram = VRAM::zeroed();
    let oam = OAM::zeroed();
    let video = Video { registers: &regs, palette: &palette, vram: &vram, oam: &oam };
    assert_eq!(video.try_get_pixel(0, 0).unwrap().value, DisplayColour::init(4, 5, 6).value);
    assert_eq!(video.get_pixel(239, 159).value, DisplayColour::init(4, 5, 6).value);
}

#[test]
fn background_tile_pixels_use_map_palette() {
    let (regs, palette, vram) = bg0_scene();
    let oam = disabled_sprites();
    assert_eq!(render(&regs, &palette, &vram, &oam, 0, 0).unwrap().value, DisplayColour::init(30, 24, 28).value);
    assert_eq!(render(&regs, &palette, &vram, &oam, 1, 0).unwrap().value, DisplayColour::init(27, 21, 30).value);
    // colour index 0 is transparent: the backdrop shows
    assert_eq!(render(&regs, &palette, &vram, &oam, 2, 0).unwrap().value, DisplayColour::init(1, 2, 3).value);
}

#[test]
fn hidden_background_shows_backdrop() {
    let (mut regs, palette, vram) = bg0_scene();
    regs.disp_ctrl.value = 0;
    let oam = disabled_sprites();
    assert_eq!(render(&regs, &palette, &vram, &oam, 0, 0).unwrap().value, DisplayColour::init(1, 2, 3).value);
}

#[test]
fn background_256_colour_mode() {
    let (mut regs, mut palette, mut vram) = bg0_scene();
    regs.bg_control[0].value |= 1 << 7;
    vram[2 * 16384 + 64 + 3 * 8 + 5] = 200; // tile 1, row 3, pixel 5
    palette.bg[200] = DisplayColour::init(9, 9, 9);
    let oam = disabled_sprites();
    assert_eq!(render(&regs, &palette, &vram, &oam, 5, 3).unwrap().value, DisplayColour::init(9, 9, 9).value);
    assert_eq!(render(&regs, &palette, &vram, &oam, 4, 3).unwrap().value, DisplayColour::init(1, 2, 3).value);
}

#[test]
fn background_scroll_wraps_offset() {
    let (mut regs, palette, mut vram) = bg0_scene();
    // offset 300 on a 256-pixel map: screen x 0 reads map x 44 (tile 5, pixel 4)
    regs.bg_offset[0].x.value = 300;
    let entry: u16 = 1 | (13 << 12);
    vram[30 * 2048 + 2 * 5] = entry as u8;
    vram[30 * 2048 + 2 * 5 + 1] = (entry >> 8) as u8;
    vram[2 * 16384 + 32 + 2] = 0x03;
    let oam = disabled_sprites();
    assert_eq!(render(&regs, &palette, &vram, &oam, 0, 0).unwrap().value, DisplayColour::init(15, 5, 20).value);
    // screen x 212 reads map x 0
    assert_eq!(render(&regs, &palette, &vram, &oam, 212, 0).unwrap().value, DisplayColour::init(30, 24, 28).value);
}

#[test]
fn lower_priority_number_is_in_front() {
    let (mut regs, mut palette, mut vram) = bg0_scene();
    // background 1: priority 0, tile set block 1, map block 20, tile 0 full of colour 4
    regs.bg_control[0].value |= 1; // background 0 now priority 1
    regs.bg_control[1].set_tileset_base(1);
    regs.bg_control[1].set_tilemap_base(20);
    regs.disp_ctrl.value |= 1 << 9;
    for i in 0..32 {
        vram[16384 + i] = 0x44;
    }
    palette.bg[4] = DisplayColour::init(7, 7, 7);
    let oam = disabled_sprites();
    assert_eq!(render(&regs, &palette, &vram, &oam, 0, 0).unwrap().value, DisplayColour::init(7, 7, 7).value);
    // hiding background 0, which does not decide the pixel, changes nothing
    regs.disp_ctrl.set_screen_disp_bg_at(0, false);
    assert_eq!(render(&regs, &palette, &vram, &oam, 0, 0).unwrap().value, DisplayColour::init(7, 7, 7).value);
    regs.disp_ctrl.set_screen_disp_bg_at(0, true);
    // with background 1 moved behind, background 0 shows
    regs.bg_control[1].value |= 2;
    assert_eq!(render(&regs, &palette, &vram, &oam, 0, 0).unwrap().value, DisplayColour::init(30, 24, 28).value);
}

#[test]
fn sprite_drawn_before_background_of_equal_priority() {
    let (regs, mut palette, mut vram) = bg0_scene();
    let mut oam = disabled_sprites();
    // sprite 0: 8x8 at (0, 0), tile 3, palette 2
    set_sprite(&mut oam, 0, 0, 0, 3 | (2 << 12));
    vram[65536 + 3 * 32] = 0x05;
    palette.obj[2 * 16 + 5] = DisplayColour::init(31, 0, 31);
    assert_eq!(render(&regs, &palette, &vram, &oam, 0, 0).unwrap().value, DisplayColour::init(31, 0, 31).value);
    // sprite pixel (1, 0) is transparent: the background shows
    assert_eq!(render(&regs, &palette, &vram, &oam, 1, 0).unwrap().value, DisplayColour::init(27, 21, 30).value);
    // the same sprite disabled contributes nothing
    set_sprite(&mut oam, 0, 1 << 9, 0, 3 | (2 << 12));
    assert_eq!(render(&regs, &palette, &vram, &oam, 0, 0).unwrap().value, DisplayColour::init(30, 24, 28).value);
    // sprite behind the background
    set_sprite(&mut oam, 0, 0, 0, 3 | (1 << 10) | (2 << 12));
    assert_eq!(render(&regs, &palette, &vram, &oam, 0, 0).unwrap().value, DisplayColour::init(30, 24, 28).value);
}

#[test]
fn sprite_position_and_lower_number_first() {
    let regs = DisplayRegisters::new();
    let mut palette = Palette::zeroed();
    let mut vram = Box::new([0u8; 98304]);
    let mut oam = disabled_sprites();
    // sprites 4 and 9 both 8x8 at (10, 20)
    set_sprite(&mut oam, 9, 20, 10, 6 | (1 << 12));
    set_sprite(&mut oam, 4, 20, 10, 7 | (1 << 12));
    for i in 0..32 {
        vram[65536 + 6 * 32 + i] = 0x11;
        vram[65536 + 7 * 32 + i] = 0x22;
    }
    palette.obj[16 + 1] = DisplayColour::init(1, 1, 1);
    palette.obj[16 + 2] = DisplayColour::init(2, 2, 2);
    assert_eq!(render(&regs, &palette, &vram, &oam, 10, 20).unwrap().value, DisplayColour::init(2, 2, 2).value);
    assert_eq!(render(&regs, &palette, &vram, &oam, 17, 27).unwrap().value, DisplayColour::init(2, 2, 2).value);
    assert_eq!(render(&regs, &palette, &vram, &oam, 18, 27).unwrap().value, 0);
    assert_eq!(render(&regs, &palette, &vram, &oam, 9, 20).unwrap().value, 0);
}

#[test]
fn sprite_tile_mapping_two_dimensional_and_linear() {
    let mut regs = DisplayRegisters::new();
    let mut palette = Palette::zeroed();
    let mut vram = Box::new([0u8; 98304]);
    let mut oam = disabled_sprites();
    // 16x16 sprite at (0, 0), tile 10; pixel (0, 8) lies in its tile row 1
    set_sprite(&mut oam, 0, 0, 1 << 14, 10);
    vram[65536 + (10 + 32) * 32] = 0x01; // 2D mapping: next row is 32 tiles on
    vram[65536 + (10 + 2) * 32] = 0x02; // linear mapping: next row is 2 tiles on
    palette.obj[1] = DisplayColour::init(11, 0, 0);
    palette.obj[2] = DisplayColour::init(0, 11, 0);
    assert_eq!(render(&regs, &palette, &vram, &oam, 0, 8).unwrap().value, DisplayColour::init(11, 0, 0).value);
    regs.disp_ctrl.value = 1 << 6;
    assert_eq!(render(&regs, &palette, &vram, &oam, 0, 8).unwrap().value, DisplayColour::init(0, 11, 0).value);
}

#[test]
fn sprite_horizontal_flip_offsets() {
    let regs = DisplayRegisters::new();
    let mut palette = Palette::zeroed();
    let mut vram = Box::new([0u8; 98304]);
    let mut oam = disabled_sprites();
    // 8x8 flipped sprite at x 4: offset is 8 - 4, screen x 4 reads sprite x 0
    set_sprite(&mut oam, 0, 0, 4 | (1 << 12), 0);
    vram[65536] = 0x03;
    palette.obj[3] = DisplayColour::init(3, 3, 3);
    assert_eq!(render(&regs, &palette, &vram, &oam, 4, 0).unwrap().value, DisplayColour::init(3, 3, 3).value);
    assert_eq!(render(&regs, &palette, &vram, &oam, 5, 0).unwrap().value, 0);
}

#[test]
fn fault_flip_underflow() {
    let regs = DisplayRegisters::new();
    let palette = Palette::zeroed();
    let vram = Box::new([0u8; 98304]);
    let mut oam = disabled_sprites();
    set_sprite(&mut oam, 0, 0, 1 << 12, 0); // flipped at x 0: offset 8 exceeds screen x
    assert_eq!(render(&regs, &palette, &vram, &oam, 3, 0), Err(RenderFault::FlipUnderflow));
    set_sprite(&mut oam, 0, 0, 10 | (1 << 12), 0); // flipped at x 10 > width 8
    assert_eq!(render(&regs, &palette, &vram, &oam, 12, 0), Err(RenderFault::FlipUnderflow));
    // not covering the pixel: no fault
    assert!(render(&regs, &palette, &vram, &oam, 100, 100).is_ok());
}

#[test]
fn fault_unsupported_background_modes() {
    let mut regs = DisplayRegisters::new();
    let palette = Palette::zeroed();
    let vram = Box::new([0u8; 98304]);
    let oam = disabled_sprites();
    regs.disp_ctrl.value = 3;
    assert_eq!(render(&regs, &palette, &vram, &oam, 0, 0), Err(RenderFault::BgModeNotImplemented(3)));
    regs.disp_ctrl.value = 7;
    assert_eq!(render(&regs, &palette, &vram, &oam, 0, 0), Err(RenderFault::UndefinedBgMode(7)));
}

#[test]
fn fault_unsupported_sprites() {
    let regs = DisplayRegisters::new();
    let palette = Palette::zeroed();
    let vram = Box::new([0u8; 98304]);
    let mut oam = disabled_sprites();
    // a rotation/scaling sprite faults wherever it is, even disabled
    set_sprite(&mut oam, 5, (1 << 8) | (1 << 9), 0, 0);
    assert_eq!(render(&regs, &palette, &vram, &oam, 200, 100), Err(RenderFault::RotScaleSprite));
    let mut oam = disabled_sprites();
    set_sprite(&mut oam, 7, 3 << 14, 0, 0);
    assert_eq!(render(&regs, &palette, &vram, &oam, 200, 100), Err(RenderFault::ProhibitedSpriteShape));
    let mut oam = disabled_sprites();
    set_sprite(&mut oam, 7, (1 << 13) | 50, 60, 0);
    assert_eq!(render(&regs, &palette, &vram, &oam, 60, 50), Err(RenderFault::Colour256Sprite));
    assert!(render(&regs, &palette, &vram, &oam, 59, 50).is_ok());
}

#[test]
fn fault_coordinate_overflow() {
    let mut regs = DisplayRegisters::new();
    let palette = Palette::zeroed();
    let vram = Box::new([0u8; 98304]);
    let oam = disabled_sprites();
    regs.bg_offset[0].x.value = 1;
    assert_eq!(render(&regs, &palette, &vram, &oam, usize::MAX, 0), Err(RenderFault::ScrollOverflow));
    regs.bg_offset[0].x.value = 0;
    assert_eq!(render(&regs, &palette, &vram, &oam, 0, usize::MAX - 10), Err(RenderFault::MapIndexOverflow));
}

#[test]
fn frame_is_drawn_row_by_row() {
    let (regs, palette, vram) = bg0_scene();
    let oam_bytes = disabled_sprites();
    let vram = VRAM::init(*vram);
    let oam = OAM::from_le_bytes(&oam_bytes);
    let video = Video { registers: &regs, palette: &palette, vram: &vram, oam: &oam };
    let mut buffer = vec![0u32; 240 * 160];
    assert!(video.render_frame(&mut buffer).is_ok());
    assert_eq!(buffer[0], DisplayColour::init(30, 24, 28).to_minifb_format());
    assert_eq!(buffer[1], DisplayColour::init(27, 21, 30).to_minifb_format());
    assert_eq!(buffer[2], DisplayColour::init(1, 2, 3).to_minifb_format());
    assert_eq!(buffer[240], DisplayColour::init(1, 2, 3).to_minifb_format());
    // a fault stops the frame at its first pixel
    let mut regs2 = DisplayRegisters::new();
    regs2.disp_ctrl.value = 4;
    let video2 = Video { registers: &regs2, palette: &palette, vram: &vram, oam: &oam };
    let mut buffer2 = vec![7u32; 10];
    assert_eq!(video2.render_frame(&mut buffer2), Err(RenderFault::BgModeNotImplemented(4)));
    assert_eq!(buffer2, vec![7u32; 10]);
}
