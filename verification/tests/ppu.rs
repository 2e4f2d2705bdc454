use std::collections::HashMap;
use pogboy::memory::cartridge::Cartridge;
use pogboy::memory::mmu::MMU;
use pogboy::ppu::render::{dump_current_screen_tiles, dump_tile_map, tile_set_to_rgba_image};
use pogboy::ppu::{PpuMode, Sprite, Tile, TilePixelValue, COLORS, PPU};
use pogboy::io::gamepad::{gamepad, ColumnType};
use pogboy::ppu::TilePixelValue::{One, Three, Two, Zero};

fn ppu_dummy_mmu() -> MMU {
    let cartridge = Cartridge { cartridge_info: None, rom: vec![0; 0x108] };
    let unprefixed = HashMap::new();
    let prefixed = HashMap::new();
    let mut mmu = MMU::new(Some(cartridge), PPU::new(), unprefixed, prefixed);
    mmu.PPU.video_ram = [1; 0x2000];
    mmu.external_ram = [2; 0x2000];
    mmu.work_ram = [3; 0x2000];
    mmu.io_registers = [4; 0x100];
    mmu.high_ram = [5; 0x80];
    mmu
}

fn dummy_tile() -> Tile {
    [
        [Zero, Two, Three, Three, Three, Three, Two, Three],
        [Zero, Three, Zero, Zero, Zero, Zero, Three, Zero],
        [Zero, Three, Zero, Zero, Zero, Zero, Three, Zero],
        [Zero, Three, Zero, Zero, Zero, Zero, Three, Zero],
        [Zero, Three, One, Three, Three, Three, Three, Zero],
        [Zero, One, One, One, Three, One, Three, Zero],
        [Zero, Three, One, Three, One, Three, Two, Zero],
        [Zero, Two, Three, Three, Three, Two, Zero, Zero],
    ]
}

#[test]
fn tiles_are_generated_correctly() {
    let mut dummy_mmu = ppu_dummy_mmu();
    let dummy_tile: Tile = dummy_tile();

    dummy_mmu.write_byte(0x8000, 0x3D);
    dummy_mmu.write_byte(0x8001, 0x7F);
    dummy_mmu.write_byte(0x8002, 0x42);
    dummy_mmu.write_byte(0x8003, 0x42);
    dummy_mmu.write_byte(0x8004, 0x42);
    dummy_mmu.write_byte(0x8005, 0x42);
    dummy_mmu.write_byte(0x8006, 0x42);
    dummy_mmu.write_byte(0x8007, 0x42);
    dummy_mmu.write_byte(0x8008, 0x7E);
    dummy_mmu.write_byte(0x8009, 0x5E);
    dummy_mmu.write_byte(0x800A, 0x7E);
    dummy_mmu.write_byte(0x800B, 0x0A);
    dummy_mmu.write_byte(0x800C, 0x7C);
    dummy_mmu.write_byte(0x800D, 0x56);
    dummy_mmu.write_byte(0x800E, 0x38);
    dummy_mmu.write_byte(0x800F, 0x7C);

    let tile = dummy_mmu.PPU.tile_set[0];

    for (tile_row, _) in tile.iter().enumerate() {
        for (tile_column, _) in tile[tile_row].iter().enumerate() {
            assert_eq!(tile[tile_row][tile_column], dummy_tile[tile_row][tile_column])
        }
    }
}

#[test]
fn color_from_bg_palette_is_loaded_correctly() {
    let mut dummy_mmu = ppu_dummy_mmu();
    let ppu_colors = COLORS;

    dummy_mmu.write_byte(0xFF47, 0xFF);
    assert_eq!(dummy_mmu.PPU.get_color_from_bg_palette(TilePixelValue::Zero), ppu_colors[3]);

    dummy_mmu.write_byte(0xFF47, 0x1B);
    assert_eq!(dummy_mmu.PPU.get_color_from_bg_palette(TilePixelValue::Zero), ppu_colors[3]);
    assert_eq!(dummy_mmu.PPU.get_color_from_bg_palette(TilePixelValue::One), ppu_colors[2]);
    assert_eq!(dummy_mmu.PPU.get_color_from_bg_palette(TilePixelValue::Two), ppu_colors[1]);
    assert_eq!(dummy_mmu.PPU.get_color_from_bg_palette(TilePixelValue::Three), ppu_colors[0]);
}

#[test]
fn ppu_registers_read_back() {
    let mut ppu = PPU::new();
    for (address, value) in [(0xFF42usize, 7u8), (0xFF43, 9), (0xFF45, 3), (0xFF47, 0xE4), (0xFF48, 0x11), (0xFF49, 0x22), (0xFF4A, 5)] {
        ppu.write_byte(address, value);
        assert_eq!(ppu.read_byte(address), value);
    }
    ppu.write_byte(0x9000, 0xAB);
    assert_eq!(ppu.read_byte(0x9000), 0xAB);
    ppu.write_byte(0xFE10, 0x33);
    assert_eq!(ppu.read_byte(0xFE10), 0x33);
    ppu.write_byte(0xFF4B, 0x44);
    assert_eq!(ppu.read_byte(0xFF4A), 0x44);
}

#[test]
fn step_walks_through_the_modes() {
    let mut ppu = PPU::new();
    ppu.set_current_mode(PpuMode::OAM);
    assert_eq!(ppu.step(79), (PpuMode::OAM, false, false));
    assert_eq!(ppu.step(1), (PpuMode::VRAM, false, false));
    assert_eq!(ppu.clock, 0);
    assert_eq!(ppu.step(172), (PpuMode::HBlank, false, false));
    assert_eq!(ppu.step(204), (PpuMode::OAM, false, false));
    assert_eq!(ppu.current_line, 1);
    ppu.current_line = 142;
    ppu.set_current_mode(PpuMode::HBlank);
    assert_eq!(ppu.step(204), (PpuMode::VBlank, true, false));
    assert_eq!(ppu.current_line, 143);
    ppu.current_line = 153;
    assert_eq!(ppu.step(456), (PpuMode::OAM, false, false));
    assert_eq!(ppu.current_line, 0);
}

#[test]
fn background_line_is_drawn_with_the_palette() {
    let mut ppu = PPU::new();
    ppu.lcd_control = 0x91;
    ppu.background_palette_data = 0x1B;
    for address in 0x8000..0x8010 {
        ppu.write_byte(address, 0xFF);
    }
    let used = ppu.render_background(0);
    assert_eq!(used.0[0], (0, 0x1800));
    assert_eq!(used.0[19], (0, 0x1813));
    let samples = ppu.image_buffer.samples();
    assert_eq!(&samples[0..4], &COLORS[0]);
    assert_eq!(&samples[159 * 4..160 * 4], &COLORS[0]);
    assert_eq!(&samples[160 * 4..161 * 4], &[0, 0, 0, 0]);
}

#[test]
fn sprite_pixels_cover_the_background() {
    let mut ppu = PPU::new();
    ppu.lcd_control = 0x93;
    ppu.obj_0_palette_data = 0xE4;
    ppu.write_byte(0x8010, 0x80);
    ppu.write_byte(0x8011, 0x00);
    ppu.write_byte(0xFE00, 16);
    ppu.write_byte(0xFE01, 8 + 10);
    ppu.write_byte(0xFE02, 1);
    ppu.current_line = 0;
    ppu.render_current_line();
    let samples = ppu.image_buffer.samples();
    assert_eq!(&samples[10 * 4..11 * 4], &COLORS[1]);
    assert_eq!(&samples[11 * 4..12 * 4], &COLORS[0]);
}

#[test]
fn tile_map_dump_lists_entries_in_decimal() {
    let mut video_ram = [0u8; 0x2000];
    video_ram[0x1800] = 7;
    video_ram[0x1801] = 255;
    video_ram[0x1820] = 42;
    let dump = dump_tile_map(video_ram, 0x1800);
    assert!(dump.starts_with("007 - 255 - 000 - "));
    assert_eq!(dump.len(), 1024 * 6 + 31 * 2);
    assert!(dump.contains("000 -  \n042 - "));
}

#[test]
fn screen_tiles_dump_has_a_row_per_tile_line() {
    let mut ppu = PPU::new();
    ppu.lcd_control = 0x91;
    ppu.video_ram[0x1800 + 32] = 5;
    let rows = dump_current_screen_tiles(&mut ppu);
    assert_eq!(rows[0].0[0], (0, 0x1800));
    assert_eq!(rows[1].0[0], (5, 0x1820));
    assert_eq!(rows[1].to_text().starts_with("[0x05 - 0x9820]"), true);
    assert_eq!(rows[0].to_text().ends_with("]\n"), true);
}

#[test]
fn tile_sheet_shows_each_tile_in_plain_colours() {
    let mut tiles = [[[TilePixelValue::Zero; 8]; 8]; 384];
    tiles[1][0][0] = TilePixelValue::Three;
    tiles[21][7][7] = TilePixelValue::Two;
    let sheet = tile_set_to_rgba_image(tiles);
    let samples = sheet.samples();
    assert_eq!(samples.len(), 160 * 160 * 4);
    assert_eq!(&samples[8 * 4..9 * 4], &COLORS[3]);
    let i = ((15 * 160) + 15) * 4;
    assert_eq!(&samples[i..i + 4], &COLORS[2]);
    assert_eq!(&samples[0..4], &COLORS[0]);
    let last = ((159 * 160) + 159) * 4;
    assert_eq!(&samples[last..last + 4], &[0, 0, 0, 0]);
    assert_eq!(TilePixelValue::Three.symbol(), "\u{26AA}");
}

#[test]
fn background_wraps_round_the_map_when_scrolled_far() {
    let mut ppu = PPU::new();
    ppu.lcd_control = 0x91;
    ppu.scroll_x = 200;
    let used = ppu.render_background(0);
    assert_eq!(used.0[0], (0, 0x1800 + 25));
    assert_eq!(used.0[10], (0, 0x1803));
    assert_eq!(used.0[19], (0, 0x1800 + 12));
}

#[test]
fn sprite_partly_above_the_screen_is_drawn_from_its_lower_rows() {
    let mut ppu = PPU::new();
    ppu.tile_set[1][5][0] = TilePixelValue::Three;
    ppu.obj_0_palette_data = 0xE4;
    ppu.sprite_set[0] = Sprite {
        x: 10,
        y: -3,
        tile_number: 1,
        background_priority: false,
        y_flip: false,
        x_flip: false,
        palette: false,
    };
    ppu.render_sprites(2);
    let samples = ppu.image_buffer.samples();
    let i = (2 * 160 + 10) * 4;
    assert_eq!(&samples[i..i + 4], &COLORS[3]);
}

#[test]
fn joypad_write_keeps_the_selected_column_field() {
    let mut g = gamepad::default();
    g.write(0x20);
    assert_eq!(g.selected_column, ColumnType::NotSelected);
    assert_eq!(g.value, 0x20);
    assert_eq!(g.read(), 0xF);
}

#[test]
fn ppu_texts_show_the_clock_and_the_lcd_control() {
    let mut ppu = PPU::new();
    ppu.clock = 77;
    assert_eq!(ppu.to_text(), "PPU - mode : 0 - clock : 77");
    ppu.lcd_control = 0x91;
    assert_eq!(
        ppu.lcdc_status_text(),
        "LCD control (0xFF40) - 0x91 LCD enabled - true, Window tile map area - 0x9800, Window enabled - false, BG tile set area - 0x8000, BG tile map area - 0x9800, Obj size - 8x8, Obj enabled - false, Bg enabled - true"
    );
}
