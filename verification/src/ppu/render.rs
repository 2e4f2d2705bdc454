use vstd::prelude::*;
use vstd::string::StringExecFns;
use crate::text::{digit_char, digit_str, zero_padded_hex, append_zero_padded_hex};
use crate::ppu::{
    PPU, TileRow, TilePixelValue, LCDCFlags, PpuMode, StatInterruptType, palette_shade,
    color_of_shade, SCREEN_HORIZONTAL_RESOLUTION, HBLANK_DURATION_DOTS, VBLANK_DURATION_DOTS,
    OAM_DURATION_DOTS, VRAM_DURATION_DOTS, VISIBLE_SCANLINES, TOTAL_SCANLINES,
};
use crate::frame::{FrameBuffer, frame_samples, frame_width, frame_height};
use crate::ppu::{Tile, COLORS, PPU_TILES_NUMBER};
use vstd::arithmetic::div_mod::lemma_fundamental_div_mod_converse;

verus! {

/// Whether sample `k` of the frame belongs to screen line `line` (640 samples a line).
pub open spec fn on_line(k: int, line: int) -> bool {
    line * 640 <= k < line * 640 + 640
}

/// The column of the pixel that sample `k` of line `line` belongs to.
pub open spec fn pixel_of(k: int, line: int) -> int {
    (k - line * 640) / 4
}

/// Which of the four samples (red, green, blue, alpha) of its pixel sample `k` is.
pub open spec fn channel_of(k: int, line: int) -> int {
    (k - line * 640) % 4
}

impl PPU {
    /// The video RAM offset of the background map in use.
    pub open spec fn bg_map_base(&self) -> int {
        if self.lcdc(LCDCFlags::BG_tile_map_area) {
            0x1C00
        } else {
            0x1800
        }
    }

    /// The video RAM offset of the map entry for column `pixel` of `line`, scrolled;
    /// the column wraps round the 256 pixels of the map, as the 8-bit sum of the
    /// column and SCX does.
    pub open spec fn bg_map_offset(&self, line: u32, pixel: int) -> int {
        self.bg_map_base() + ((line + self.scroll_y) / 8 % 32) * 32 + (pixel + self.scroll_x) % 256 / 8
    }

    /// The tile the background shows at column `pixel` of `line`: the map entry, or,
    /// with the signed tile area, the entry read as signed and offset by 256.
    pub open spec fn bg_tile_index(&self, line: u32, pixel: int) -> u16 {
        let id = self.video_ram[self.bg_map_offset(line, pixel)];
        if self.lcdc(LCDCFlags::BG_tile_set_area) || id >= 128 {
            id as u16
        } else {
            (id + 256) as u16
        }
    }

    /// The colour the background gives column `pixel` of `line`.
    pub open spec fn bg_color(&self, line: u32, pixel: int) -> [u8; 4] {
        let tile = self.tile_set[self.bg_tile_index(line, pixel) as int];
        let value = tile[((line + self.scroll_y) % 8) as int][(pixel + self.scroll_x) % 8];
        color_of_shade(palette_shade(self.background_palette_data, value.number()))
    }

    /// Draws line `line` of the background into the frame, and returns, for each
    /// of the 20 tile columns, the tile shown and its map entry's video RAM offset
    /// (those of the column's last pixel).
    pub fn render_background(&mut self, line: u32) -> (used_tiles: TileRow)
        requires
            old(self).wf(),
            line < 144,
        ensures
            final(self).wf(),
            *final(self) == (PPU { image_buffer: final(self).image_buffer, ..*old(self) }),
            forall|k: int|
                0 <= k < 160 * 144 * 4 ==> #[trigger] frame_samples(final(self).image_buffer)[k]
                    == if on_line(k, line as int) {
                    old(self).bg_color(line, pixel_of(k, line as int))[channel_of(k, line as int)]
                } else {
                    frame_samples(old(self).image_buffer)[k]
                },
            forall|i: int|
                0 <= i < 20 ==> #[trigger] used_tiles.0[i] == (
                    old(self).bg_tile_index(line, 8 * i + 7),
                    old(self).bg_map_offset(line, 8 * i + 7) as u16,
                ),
    {
        let ghost p0 = *self;
        let background_tile_map_starting_address: usize = if self.get_lcdc_value(
            LCDCFlags::BG_tile_map_area,
        ) {
            0x1C00
        } else {
            0x1800
        };
        let scroll_x = self.scroll_x;
        let scroll_y = self.scroll_y;
        let mut x_tile_offset = scroll_x & 7;
        let scrolled_line = line + scroll_y as u32;
        let y_tile_offset = scrolled_line & 7;
        assert(x_tile_offset == scroll_x % 8 && y_tile_offset == scrolled_line % 8) by (bit_vector)
            requires
                x_tile_offset == scroll_x & 7,
                y_tile_offset == scrolled_line & 7,
        ;
        let mut used_tiles: TileRow = TileRow([(0, 0); 20]);
        let mut pixel: u32 = 0;
        while pixel < SCREEN_HORIZONTAL_RESOLUTION
            invariant
                p0.wf(),
                line < 144,
                scroll_x == p0.scroll_x,
                scroll_y == p0.scroll_y,
                pixel <= 160,
                background_tile_map_starting_address == p0.bg_map_base(),
                y_tile_offset == (line + scroll_y) % 8,
                x_tile_offset == (pixel + scroll_x) % 8,
                *self == (PPU { image_buffer: self.image_buffer, ..p0 }),
                frame_width(self.image_buffer) == 160,
                frame_height(self.image_buffer) == 144,
                frame_samples(self.image_buffer).len() == 160 * 144 * 4,
                forall|k: int|
                    0 <= k < 160 * 144 * 4 ==> #[trigger] frame_samples(self.image_buffer)[k]
                        == if on_line(k, line as int) && pixel_of(k, line as int) < pixel {
                        p0.bg_color(line, pixel_of(k, line as int))[channel_of(k, line as int)]
                    } else {
                        frame_samples(p0.image_buffer)[k]
                    },
                forall|i: int|
                    0 <= i < 20 && 8 * i + 7 < pixel ==> #[trigger] used_tiles.0[i] == (
                        p0.bg_tile_index(line, 8 * i + 7),
                        p0.bg_map_offset(line, 8 * i + 7) as u16,
                    ),
            decreases 160 - pixel,
        {
            let y_offset = (((line + scroll_y as u32) / 8 % 32) * 32) as usize;
            let x_offset = ((pixel as u8).wrapping_add(scroll_x) / 8) as usize;
            let map_address = background_tile_map_starting_address + y_offset + x_offset;
            assert(map_address == p0.bg_map_offset(line, pixel as int));
            let tile_id = self.video_ram[map_address] as u16;
            let tile_index: u16 = if !self.get_lcdc_value(LCDCFlags::BG_tile_set_area) {
                let fixed_tile_id = 256u16.wrapping_add((tile_id as i8) as u16);
                assert(tile_id < 256 ==> fixed_tile_id == if tile_id >= 128 { tile_id } else {
                    (tile_id + 256) as u16
                }) by (bit_vector)
                    requires
                        fixed_tile_id == 256u16.wrapping_add((tile_id as i8) as u16),
                ;
                fixed_tile_id
            } else {
                tile_id
            };
            used_tiles.0[(pixel / 8) as usize] = (tile_index, map_address as u16);
            let tile = self.tile_set[tile_index as usize];
            let color_number_at_coordinates = tile[y_tile_offset as usize][x_tile_offset as usize];
            let color_at_coordinate = self.get_color_from_palette(
                color_number_at_coordinates,
                self.background_palette_data,
            );
            assert(color_at_coordinate == p0.bg_color(line, pixel as int));
            x_tile_offset = (x_tile_offset + 1) % 8;
            self.image_buffer.put_pixel(pixel, line, color_at_coordinate);
            pixel = pixel + 1;
        }
        used_tiles
    }
}

/// The sprite colours do not depend on the frame.
proof fn lemma_sprites_color_ignores_frame(a: PPU, b: PPU, n: int, line: u32, x: int)
    requires
        b == (PPU { image_buffer: b.image_buffer, ..a }),
    ensures
        a.sprites_color(n, line, x) == b.sprites_color(n, line, x),
    decreases n,
{
    if n > 0 {
        lemma_sprites_color_ignores_frame(a, b, n - 1, line, x);
    }
}

impl PPU {
    /// The colour sprite `i` gives column `x` of `line`: when the sprite covers the
    /// line and the column, lies left of the screen's right edge, the column is not
    /// 0, and its tile pixel there is not transparent (colour number 0).
    pub open spec fn sprite_color(&self, i: int, line: u32, x: int) -> Option<[u8; 4]> {
        let s = self.sprite_set[i];
        let dx = x - s.x;
        if s.y <= line < s.y + 8 && 0 <= dx < 8 && x > 0 && s.x + 8 < 160 {
            let value = self.tile_set[s.tile_number as int][line - s.y][dx];
            if value != TilePixelValue::Zero {
                let palette = if s.palette {
                    self.obj_1_palette_data
                } else {
                    self.obj_0_palette_data
                };
                Some(color_of_shade(palette_shade(palette, value.number())))
            } else {
                None
            }
        } else {
            None
        }
    }

    /// The colour the last of sprites `0..n` that colours column `x` of `line` gives it.
    pub open spec fn sprites_color(&self, n: int, line: u32, x: int) -> Option<[u8; 4]>
        decreases n,
    {
        if n <= 0 {
            None
        } else {
            match self.sprite_color(n - 1, line, x) {
                Some(c) => Some(c),
                None => self.sprites_color(n - 1, line, x),
            }
        }
    }

    /// Draws the sprites 0 to 38 that cover line `line` over the frame, one after
    /// the other: a later sprite's pixel covers an earlier one's.
    pub fn render_sprites(&mut self, line: u32)
        requires
            old(self).wf(),
            line < 144,
        ensures
            final(self).wf(),
            *final(self) == (PPU { image_buffer: final(self).image_buffer, ..*old(self) }),
            forall|k: int|
                0 <= k < 160 * 144 * 4 ==> #[trigger] frame_samples(final(self).image_buffer)[k]
                    == if on_line(k, line as int) && old(self).sprites_color(
                    39,
                    line,
                    pixel_of(k, line as int),
                ) is Some {
                    old(self).sprites_color(39, line, pixel_of(k, line as int)).unwrap()[channel_of(
                        k,
                        line as int,
                    )]
                } else {
                    frame_samples(old(self).image_buffer)[k]
                },
    {
        let ghost p0 = *self;
        let mut sprite_index: usize = 0;
        while sprite_index < 39
            invariant
                p0.wf(),
                line < 144,
                sprite_index <= 39,
                *self == (PPU { image_buffer: self.image_buffer, ..p0 }),
                frame_width(self.image_buffer) == 160,
                frame_height(self.image_buffer) == 144,
                frame_samples(self.image_buffer).len() == 160 * 144 * 4,
                forall|k: int|
                    0 <= k < 160 * 144 * 4 ==> #[trigger] frame_samples(self.image_buffer)[k]
                        == if on_line(k, line as int) && p0.sprites_color(
                        sprite_index as int,
                        line,
                        pixel_of(k, line as int),
                    ) is Some {
                        p0.sprites_color(sprite_index as int, line, pixel_of(k, line as int)).unwrap()[channel_of(
                            k,
                            line as int,
                        )]
                    } else {
                        frame_samples(p0.image_buffer)[k]
                    },
            decreases 39 - sprite_index,
        {
            let sprite = self.sprite_set[sprite_index];
            let ghost i = sprite_index as int;
            assert(sprite.in_range());
            if sprite.y <= line as i32 && sprite.y + 8 > line as i32 {
                let palette = if sprite.palette {
                    self.obj_1_palette_data
                } else {
                    self.obj_0_palette_data
                };
                let current_tile = self.tile_set[sprite.tile_number as usize];
                let tile_row = current_tile[(line as i32 - sprite.y) as usize];
                let mut x: i32 = 0;
                while x < 8
                    invariant
                        p0.wf(),
                        line < 144,
                        0 <= i < 39,
                        sprite == p0.sprite_set[i],
                        sprite.in_range(),
                        sprite.y <= line < sprite.y + 8,
                        tile_row == p0.tile_set[sprite.tile_number as int][line - sprite.y],
                        palette == if sprite.palette {
                            p0.obj_1_palette_data
                        } else {
                            p0.obj_0_palette_data
                        },
                        0 <= x <= 8,
                        *self == (PPU { image_buffer: self.image_buffer, ..p0 }),
                        frame_width(self.image_buffer) == 160,
                        frame_height(self.image_buffer) == 144,
                        frame_samples(self.image_buffer).len() == 160 * 144 * 4,
                        forall|k: int|
                            0 <= k < 160 * 144 * 4 ==> #[trigger] frame_samples(self.image_buffer)[k]
                                == if on_line(k, line as int) && sprite.x <= pixel_of(k, line as int)
                                < sprite.x + x && p0.sprite_color(i, line, pixel_of(k, line as int))
                                is Some {
                                p0.sprite_color(i, line, pixel_of(k, line as int)).unwrap()[channel_of(
                                    k,
                                    line as int,
                                )]
                            } else if on_line(k, line as int) && p0.sprites_color(
                                i,
                                line,
                                pixel_of(k, line as int),
                            ) is Some {
                                p0.sprites_color(i, line, pixel_of(k, line as int)).unwrap()[channel_of(
                                    k,
                                    line as int,
                                )]
                            } else {
                                frame_samples(p0.image_buffer)[k]
                            },
                    decreases 8 - x,
                {
                    if (sprite.x + x) > 0 && (sprite.x + 8) < 160 && tile_row[x as usize]
                        != TilePixelValue::Zero {
                        let color_at_coordinate = self.get_color_from_palette(
                            tile_row[x as usize],
                            palette,
                        );
                        assert(p0.sprite_color(i, line, sprite.x + x) == Some(color_at_coordinate));
                        self.image_buffer.put_pixel((sprite.x + x) as u32, line, color_at_coordinate);
                    } else {
                        assert(p0.sprite_color(i, line, sprite.x + x) is None);
                    }
                    x = x + 1;
                }
                assert forall|k: int| 0 <= k < 160 * 144 * 4 && on_line(k, line as int) implies
                    #[trigger] p0.sprites_color(i + 1, line, pixel_of(k, line as int)) == match p0.sprite_color(
                        i,
                        line,
                        pixel_of(k, line as int),
                    ) {
                        Some(c) => Some(c),
                        None => p0.sprites_color(i, line, pixel_of(k, line as int)),
                    } by {}
            } else {
                assert forall|k: int| 0 <= k < 160 * 144 * 4 && on_line(k, line as int) implies
                    #[trigger] p0.sprites_color(i + 1, line, pixel_of(k, line as int))
                        == p0.sprites_color(i, line, pixel_of(k, line as int)) by {}
            }
            sprite_index = sprite_index + 1;
        }
    }

    /// Draws the current line: the background when it is enabled, then the
    /// sprites when they are.
    pub fn render_current_line(&mut self)
        requires
            old(self).wf(),
            old(self).current_line < 144,
        ensures
            final(self).wf(),
            *final(self) == (PPU { image_buffer: final(self).image_buffer, ..*old(self) }),
            forall|k: int|
                0 <= k < 160 * 144 * 4 ==> #[trigger] frame_samples(final(self).image_buffer)[k]
                    == old(self).line_drawn(k),
    {
        let ghost p0 = *self;
        if self.get_lcdc_value(LCDCFlags::Bg_enable) {
            let _ = self.render_background(self.current_line);
        }
        let ghost p1 = *self;
        if self.get_lcdc_value(LCDCFlags::Obj_enable) {
            self.render_sprites(self.current_line);
        }
        assert forall|k: int| 0 <= k < 160 * 144 * 4 implies #[trigger] frame_samples(self.image_buffer)[k]
            == p0.line_drawn(k) by {
            assert(frame_samples(p1.image_buffer)[k] == p0.background_drawn(k));
            lemma_sprites_color_ignores_frame(p0, p1, 39, p0.current_line, pixel_of(k, p0.current_line as int));
        }
    }

    /// Sample `k` of the frame once the background of the current line is drawn,
    /// when it is enabled.
    pub open spec fn background_drawn(&self, k: int) -> u8 {
        let line = self.current_line;
        if self.lcdc(LCDCFlags::Bg_enable) && on_line(k, line as int) {
            self.bg_color(line, pixel_of(k, line as int))[channel_of(k, line as int)]
        } else {
            frame_samples(self.image_buffer)[k]
        }
    }

    /// Sample `k` of the frame once the current line is drawn: the sprites over
    /// the background, each when it is enabled.
    pub open spec fn line_drawn(&self, k: int) -> u8 {
        let line = self.current_line;
        if self.lcdc(LCDCFlags::Obj_enable) && on_line(k, line as int) && self.sprites_color(
            39,
            line,
            pixel_of(k, line as int),
        ) is Some {
            self.sprites_color(39, line, pixel_of(k, line as int)).unwrap()[channel_of(k, line as int)]
        } else {
            self.background_drawn(k)
        }
    }
}

impl PPU {
    /// Whether a line can be drawn now (see `render_current_line`).
    pub open spec fn line_drawable(&self) -> bool {
        &&& self.wf()
        &&& self.current_line < 144
    }

    /// Whether `step` by `clock` dots is defined: the dot counter and the line
    /// counter stay within `u32`, and a line can be drawn when the step draws one.
    pub open spec fn can_step(&self, clock: u32) -> bool {
        let c = self.clock + clock;
        &&& self.wf()
        &&& c <= u32::MAX
        &&& self.mode() == PpuMode::HBlank && c >= 204 ==> self.current_line < u32::MAX
        &&& self.mode() == PpuMode::VBlank && c >= 456 ==> self.current_line < u32::MAX
        &&& self.mode() == PpuMode::VRAM && c >= 172 ==> self.line_drawable()
    }

    /// Whether LY equals LYC and STAT enables the coincidence interrupt.
    pub open spec fn lyc_interrupt(&self) -> bool {
        self.current_line == self.current_line_compare && self.stat_enabled(
            StatInterruptType::LYC_EQUALS_LY,
        )
    }

    /// `n` and `r` are what `step` by `clock` dots makes of `self`. The dots are
    /// counted; once the current mode's duration is reached the counter restarts
    /// and the mode moves on: from HBlank to the next line, in OAM mode, or in
    /// VBlank after line 142 (with the VBlank interrupt); from VBlank, past line
    /// 153, back to line 0 in OAM mode; from OAM to VRAM; from VRAM, once the line
    /// is drawn, to HBlank. Setting a mode clears the rest of STAT. `r` is the new
    /// mode, whether to raise the VBlank interrupt, and whether to raise the STAT
    /// interrupt: in HBlank and VBlank, the coincidence of LY and LYC as STAT then
    /// enables it; after VRAM, the HBlank source as STAT then enables it.
    pub open spec fn stepped(self, n: PPU, clock: u32, r: (PpuMode, bool, bool)) -> bool {
        let c = (self.clock + clock) as u32;
        let s = PPU { clock: c, ..self };
        &&& r.0 == n.mode()
        &&& n.wf()
        &&& match self.mode() {
            PpuMode::HBlank => if c >= 204 {
                let line = (self.current_line + 1) as u32;
                let vblank = line == 143;
                &&& n == PPU {
                    clock: 0,
                    current_line: line,
                    lcd_status: if vblank { 1u8 } else { 2u8 },
                    ..self
                }
                &&& r.1 == vblank
                &&& r.2 == n.lyc_interrupt()
            } else {
                n == s && !r.1 && !r.2
            },
            PpuMode::VBlank => {
                &&& if c >= 456 {
                    let line = (self.current_line + 1) as u32;
                    if line > 153 {
                        n == PPU { clock: 0, current_line: 0, lcd_status: 2u8, ..self }
                    } else {
                        n == PPU { clock: 0, current_line: line, ..self }
                    }
                } else {
                    n == s
                }
                &&& !r.1
                &&& r.2 == n.lyc_interrupt()
            },
            PpuMode::OAM => {
                &&& n == if c >= 80 {
                    PPU { clock: 0, lcd_status: 3u8, ..self }
                } else {
                    s
                }
                &&& !r.1 && !r.2
            },
            PpuMode::VRAM => if c >= 172 {
                let m = PPU { clock: 0, ..self };
                &&& n == PPU { image_buffer: n.image_buffer, lcd_status: 0u8, ..m }
                &&& forall|k: int|
                    0 <= k < 160 * 144 * 4 ==> #[trigger] frame_samples(n.image_buffer)[k]
                        == m.line_drawn(k)
                &&& !r.1
                &&& r.2 == n.stat_enabled(StatInterruptType::HBlank)
            } else {
                n == s && !r.1 && !r.2
            },
        }
    }

    /// Advances the PPU by `clock` dots (see `stepped`).
    pub fn step(&mut self, clock: u32) -> (r: (PpuMode, bool, bool))
        requires
            old(self).can_step(clock),
        ensures
            old(self).stepped(*final(self), clock, r),
    {
        self.clock = self.clock + clock;
        let mut should_rise_vblank_interrupt = false;
        let mut should_rise_stat_interrupt = false;
        match self.get_current_mode() {
            PpuMode::HBlank => {
                if self.clock >= HBLANK_DURATION_DOTS {
                    self.clock = 0;
                    self.current_line = self.current_line + 1;
                    if self.current_line == (VISIBLE_SCANLINES - 1) as u32 {
                        should_rise_vblank_interrupt = true;
                        self.set_current_mode(PpuMode::VBlank);
                        should_rise_stat_interrupt = self.should_rise_lcdc_interrupt(
                            StatInterruptType::VBlank,
                        );
                    } else {
                        self.set_current_mode(PpuMode::OAM);
                    }
                    should_rise_stat_interrupt = self.should_rise_lcdc_interrupt(
                        StatInterruptType::OAM,
                    );
                    should_rise_stat_interrupt = self.should_try_to_request_lyc_ly_interrupt();
                }
            },
            PpuMode::VBlank => {
                if self.clock >= VBLANK_DURATION_DOTS {
                    self.clock = 0;
                    self.current_line = self.current_line + 1;
                    if self.current_line > TOTAL_SCANLINES {
                        self.set_current_mode(PpuMode::OAM);
                        should_rise_stat_interrupt = self.should_rise_lcdc_interrupt(
                            StatInterruptType::OAM,
                        );
                        self.current_line = 0;
                    }
                }
                should_rise_stat_interrupt = self.should_try_to_request_lyc_ly_interrupt();
            },
            PpuMode::OAM => {
                if self.clock >= OAM_DURATION_DOTS {
                    self.clock = 0;
                    self.set_current_mode(PpuMode::VRAM);
                }
            },
            PpuMode::VRAM => {
                if self.clock >= VRAM_DURATION_DOTS {
                    self.clock = 0;
                    self.render_current_line();
                    self.set_current_mode(PpuMode::HBlank);
                    should_rise_stat_interrupt = self.should_rise_lcdc_interrupt(
                        StatInterruptType::HBlank,
                    );
                }
            },
        }
        (self.get_current_mode(), should_rise_vblank_interrupt, should_rise_stat_interrupt)
    }
}

/// A byte in decimal on three digits, zeros in front.
pub open spec fn decimal3(v: u8) -> Seq<char> {
    seq![digit_char(v as int / 100), digit_char((v as int / 10) % 10), digit_char(v as int % 10)]
}

/// The text of the first `n` entries of the tile map at `base_offset`: each
/// entry in decimal on three digits followed by " - ", a line of 32 entries
/// ending, after the first, with " \n".
pub open spec fn tile_map_text(video_ram: [u8; 0x2000], base_offset: usize, n: int) -> Seq<char>
    decreases n,
{
    if n <= 0 {
        Seq::empty()
    } else {
        let t = n - 1;
        tile_map_text(video_ram, base_offset, t) + (if t % 32 == 0 && t != 0 {
            seq![' ', '\n']
        } else {
            Seq::empty()
        }) + decimal3(video_ram[base_offset + t]) + seq![' ', '-', ' ']
    }
}

/// The 32x32 entries of the tile map at video RAM offset `base_offset`, as text
/// (see `tile_map_text`).
pub fn dump_tile_map(video_ram: [u8; 0x2000], base_offset: usize) -> (dump: String)
    requires
        base_offset + 1024 <= 0x2000,
    ensures
        dump@ == tile_map_text(video_ram, base_offset, 1024),
{
    proof {
        reveal_strlit("");
        reveal_strlit(" \n");
        reveal_strlit(" - ");
    }
    let mut dump = String::from_str("");
    let mut tile_number: usize = 0;
    while tile_number < 32 * 32
        invariant
            base_offset + 1024 <= 0x2000,
            tile_number <= 1024,
            dump@ == tile_map_text(video_ram, base_offset, tile_number as int),
        decreases 1024 - tile_number,
    {
        proof {
            reveal_strlit(" \n");
            reveal_strlit(" - ");
        }
        let ghost before = dump@;
        let ghost t = tile_number as int;
        if tile_number % 32 == 0 && tile_number != 0 {
            dump.append(" \n");
        }
        let ghost separated = dump@;
        assert(separated =~= before + if t % 32 == 0 && t != 0 {
            seq![' ', '\n']
        } else {
            Seq::empty()
        });
        let v = video_ram[base_offset + tile_number];
        dump.append(digit_str((v / 100) as u16));
        dump.append(digit_str(((v / 10) % 10) as u16));
        dump.append(digit_str((v % 10) as u16));
        assert(dump@ =~= separated + decimal3(v));
        dump.append(" - ");
        assert(dump@ =~= separated + decimal3(v) + seq![' ', '-', ' ']);
        assert(dump@ =~= tile_map_text(video_ram, base_offset, t + 1));
        tile_number = tile_number + 1;
    }
    dump
}

/// Draws the background lines 0, 8, ..., 136 (the top line of each row of
/// tiles), and returns the tiles each of them shows (see `render_background`).
pub fn dump_current_screen_tiles(ppu: &mut PPU) -> (screen_dump: [TileRow; 18])
    requires
        old(ppu).wf(),
    ensures
        final(ppu).wf(),
        *final(ppu) == (PPU { image_buffer: final(ppu).image_buffer, ..*old(ppu) }),
        forall|l: int, i: int|
            0 <= l < 18 && 0 <= i < 20 ==> #[trigger] screen_dump[l].0[i] == (
                old(ppu).bg_tile_index((8 * l) as u32, 8 * i + 7),
                old(ppu).bg_map_offset((8 * l) as u32, 8 * i + 7) as u16,
            ),
        forall|k: int|
            0 <= k < 160 * 144 * 4 ==> #[trigger] frame_samples(final(ppu).image_buffer)[k]
                == if (k / 640) % 8 == 0 {
                old(ppu).bg_color((k / 640) as u32, (k % 640) / 4)[k % 4]
            } else {
                frame_samples(old(ppu).image_buffer)[k]
            },
{
    let ghost p0 = *ppu;
    let mut screen_dump = [TileRow([(0, 0); 20]); 18];
    let mut screen_line: u32 = 0;
    while screen_line < 18
        invariant
            p0.wf(),
            screen_line <= 18,
            ppu.wf(),
            *ppu == (PPU { image_buffer: ppu.image_buffer, ..p0 }),
            forall|l: int, i: int|
                0 <= l < screen_line && 0 <= i < 20 ==> #[trigger] screen_dump[l].0[i] == (
                    p0.bg_tile_index((8 * l) as u32, 8 * i + 7),
                    p0.bg_map_offset((8 * l) as u32, 8 * i + 7) as u16,
                ),
            forall|k: int|
                0 <= k < 160 * 144 * 4 ==> #[trigger] frame_samples(ppu.image_buffer)[k]
                    == if (k / 640) % 8 == 0 && k / 640 < 8 * screen_line {
                    p0.bg_color((k / 640) as u32, (k % 640) / 4)[k % 4]
                } else {
                    frame_samples(p0.image_buffer)[k]
                },
        decreases 18 - screen_line,
    {
        let line = screen_line * 8;
        let row = ppu.render_background(line);
        screen_dump[screen_line as usize] = row;
        assert forall|k: int| 0 <= k < 160 * 144 * 4 implies on_line(k, line as int) == (k / 640
            == line) && (on_line(k, line as int) ==> pixel_of(k, line as int) == (k % 640) / 4
            && channel_of(k, line as int) == k % 4) by {}
        screen_line = screen_line + 1;
    }
    screen_dump
}

/// The column of the pixel that sample `k` belongs to, in a frame `width` pixels wide.
pub open spec fn pixel_x(k: int, width: int) -> int {
    (k / 4) % width
}

/// The row of the pixel that sample `k` belongs to, in a frame `width` pixels wide.
pub open spec fn pixel_y(k: int, width: int) -> int {
    (k / 4) / width
}

/// The colour a tile's pixel has with the colours in their plain order.
pub open spec fn plain_color(value: TilePixelValue) -> [u8; 4] {
    COLORS[value.number() as int]
}

/// The samples of pixel `(x, y)` of a frame `width` pixels wide are those at
/// `(y * width + x) * 4` and the three after it.
proof fn lemma_pixel_samples(k: int, width: int, x: int, y: int)
    requires
        width > 0,
        0 <= x < width,
        0 <= y,
        0 <= k,
    ensures
        (pixel_x(k, width) == x && pixel_y(k, width) == y) == ((y * width + x) * 4 <= k < (y
            * width + x) * 4 + 4),
{
    let p = k / 4;
    if (y * width + x) * 4 <= k < (y * width + x) * 4 + 4 {
        lemma_fundamental_div_mod_converse(k, 4, y * width + x, k - (y * width + x) * 4);
        lemma_fundamental_div_mod_converse(p, width, y, x);
    }
    if pixel_x(k, width) == x && pixel_y(k, width) == y {
        assert(p == y * width + x) by {
            vstd::arithmetic::div_mod::lemma_fundamental_div_mod(p, width);
            vstd::arithmetic::mul::lemma_mul_is_commutative(width, y);
        }
        vstd::arithmetic::div_mod::lemma_fundamental_div_mod(k, 4);
    }
}

/// Draws `tile` into the frame with its top left corner at `(x_offset, y_offset)`,
/// colour numbers 0 to 3 taking the colours in their plain order.
pub fn add_tile_to_rgba_image(tile: Tile, rgba_image: &mut FrameBuffer, offsets: (u32, u32))
    requires
        frame_samples(*old(rgba_image)).len() == frame_width(*old(rgba_image)) * frame_height(
            *old(rgba_image),
        ) * 4,
        offsets.0 + 8 <= frame_width(*old(rgba_image)),
        offsets.1 + 8 <= frame_height(*old(rgba_image)),
    ensures
        frame_width(*final(rgba_image)) == frame_width(*old(rgba_image)),
        frame_height(*final(rgba_image)) == frame_height(*old(rgba_image)),
        frame_samples(*final(rgba_image)).len() == frame_samples(*old(rgba_image)).len(),
        forall|k: int|
            0 <= k < frame_samples(*old(rgba_image)).len() ==> {
                let w = frame_width(*old(rgba_image)) as int;
                let px = pixel_x(k, w);
                let py = pixel_y(k, w);
                #[trigger] frame_samples(*final(rgba_image))[k] == if offsets.0 <= px < offsets.0 + 8
                    && offsets.1 <= py < offsets.1 + 8 {
                    plain_color(tile[py - offsets.1][px - offsets.0])[k % 4]
                } else {
                    frame_samples(*old(rgba_image))[k]
                }
            },
{
    let ghost f0 = *rgba_image;
    let ghost w = frame_width(f0) as int;
    let (x_offset, y_offset) = offsets;
    let mut y: u32 = 0;
    while y < 8
        invariant
            0 <= y <= 8,
            w == frame_width(f0),
            frame_samples(f0).len() == frame_width(f0) * frame_height(f0) * 4,
            x_offset + 8 <= frame_width(f0),
            y_offset + 8 <= frame_height(f0),
            frame_width(*rgba_image) == frame_width(f0),
            frame_height(*rgba_image) == frame_height(f0),
            frame_samples(*rgba_image).len() == frame_samples(f0).len(),
            forall|k: int|
                0 <= k < frame_samples(f0).len() ==> #[trigger] frame_samples(*rgba_image)[k] == if x_offset
                    <= pixel_x(k, w) < x_offset + 8 && y_offset <= pixel_y(k, w) < y_offset + y {
                    plain_color(tile[pixel_y(k, w) - y_offset][pixel_x(k, w) - x_offset])[k % 4]
                } else {
                    frame_samples(f0)[k]
                },
        decreases 8 - y,
    {
        let mut x: u32 = 0;
        while x < 8
            invariant
                0 <= y < 8,
                0 <= x <= 8,
                w == frame_width(f0),
                frame_samples(f0).len() == frame_width(f0) * frame_height(f0) * 4,
                x_offset + 8 <= frame_width(f0),
                y_offset + 8 <= frame_height(f0),
                frame_width(*rgba_image) == frame_width(f0),
                frame_height(*rgba_image) == frame_height(f0),
                frame_samples(*rgba_image).len() == frame_samples(f0).len(),
                forall|k: int|
                    0 <= k < frame_samples(f0).len() ==> #[trigger] frame_samples(*rgba_image)[k]
                        == if x_offset <= pixel_x(k, w) < x_offset + 8 && (y_offset <= pixel_y(k, w)
                        < y_offset + y || (pixel_y(k, w) == y_offset + y && pixel_x(k, w)
                        < x_offset + x)) {
                        plain_color(tile[pixel_y(k, w) - y_offset][pixel_x(k, w) - x_offset])[k % 4]
                    } else {
                        frame_samples(f0)[k]
                    },
            decreases 8 - x,
        {
            let tile_pixel = tile[y as usize][x as usize];
            let color_at_coordinate = COLORS[tile_pixel.to_number() as usize];
            proof {
                let px = (x + x_offset) as int;
                let py = (y + y_offset) as int;
                let h = frame_height(f0) as int;
                assert((py * w + px) * 4 + 4 <= w * h * 4) by (nonlinear_arith)
                    requires
                        0 <= px < w,
                        0 <= py < h,
                ;
            }
            rgba_image.put_pixel(x + x_offset, y + y_offset, color_at_coordinate);
            proof {
                let px = (x + x_offset) as int;
                let py = (y + y_offset) as int;
                assert forall|k: int| 0 <= k < frame_samples(f0).len() implies
                    (pixel_x(k, w) == px && pixel_y(k, w) == py) == ((py * w + px) * 4 <= k < (py * w
                    + px) * 4 + 4) by {
                    lemma_pixel_samples(k, w, px, py);
                }
            }
            x = x + 1;
        }
        y = y + 1;
    }
}

/// The colour the tile sheet gives pixel `(x, y)`: the sheet is 20 tiles wide,
/// tile `i` at column `i % 20` and row `i / 20`, in the plain colour order; past
/// the last tile the frame stays as it was made.
pub open spec fn tile_sheet_color(tile_set: [Tile; 384], x: int, y: int) -> Option<[u8; 4]> {
    let i = (y / 8) * 20 + x / 8;
    if i < 384 {
        Some(plain_color(tile_set[i][y % 8][x % 8]))
    } else {
        None
    }
}

/// The whole tile set drawn as a sheet of 20 by 20 tiles (see `tile_sheet_color`).
pub fn tile_set_to_rgba_image(tile_set: [Tile; 384]) -> (rgba_image: FrameBuffer)
    ensures
        frame_width(rgba_image) == 160,
        frame_height(rgba_image) == 160,
        frame_samples(rgba_image).len() == 160 * 160 * 4,
        forall|k: int|
            0 <= k < 160 * 160 * 4 ==> #[trigger] frame_samples(rgba_image)[k] == match tile_sheet_color(
                tile_set,
                pixel_x(k, 160),
                pixel_y(k, 160),
            ) {
                Some(c) => c[k % 4],
                None => 0u8,
            },
{
    let columns_number: u32 = 20;
    let rows_number: u32 = 20;
    let mut rgba_image = FrameBuffer::new(rows_number * 8, columns_number * 8);
    let mut x_offset: u32 = 0;
    while x_offset < columns_number
        invariant
            columns_number == 20,
            rows_number == 20,
            x_offset <= 20,
            frame_width(rgba_image) == 160,
            frame_height(rgba_image) == 160,
            frame_samples(rgba_image).len() == 160 * 160 * 4,
            forall|k: int|
                0 <= k < 160 * 160 * 4 ==> #[trigger] frame_samples(rgba_image)[k] == if pixel_x(k, 160)
                    / 8 < x_offset {
                    match tile_sheet_color(tile_set, pixel_x(k, 160), pixel_y(k, 160)) {
                        Some(c) => c[k % 4],
                        None => 0u8,
                    }
                } else {
                    0u8
                },
        decreases 20 - x_offset,
    {
        let mut y_offset: u32 = 0;
        while y_offset < rows_number
            invariant
                columns_number == 20,
                rows_number == 20,
                x_offset < 20,
                y_offset <= 20,
                frame_width(rgba_image) == 160,
                frame_height(rgba_image) == 160,
                frame_samples(rgba_image).len() == 160 * 160 * 4,
                forall|k: int|
                    0 <= k < 160 * 160 * 4 ==> #[trigger] frame_samples(rgba_image)[k] == if pixel_x(
                        k,
                        160,
                    ) / 8 < x_offset || (pixel_x(k, 160) / 8 == x_offset && pixel_y(k, 160) / 8
                        < y_offset) {
                        match tile_sheet_color(tile_set, pixel_x(k, 160), pixel_y(k, 160)) {
                            Some(c) => c[k % 4],
                            None => 0u8,
                        }
                    } else {
                        0u8
                    },
            decreases 20 - y_offset,
        {
            let current_tile_index = ((y_offset * 20) + x_offset) as usize;
            if current_tile_index < PPU_TILES_NUMBER {
                let current_tile = tile_set[current_tile_index];
                add_tile_to_rgba_image(current_tile, &mut rgba_image, (x_offset * 8, y_offset * 8));
            }
            y_offset = y_offset + 1;
        }
        x_offset = x_offset + 1;
    }
    rgba_image
}

/// The text of the first `n` entries of a tile row: each as "[0x" and the tile
/// on two hexadecimal digits, " - 0x" and its map entry's bus address on four,
/// and "]".
pub open spec fn tile_row_entries_text(row: TileRow, n: int) -> Seq<char>
    decreases n,
{
    if n <= 0 {
        Seq::empty()
    } else {
        let (tile, offset) = row.0[n - 1];
        tile_row_entries_text(row, n - 1) + seq!['[', '0', 'x'] + zero_padded_hex(tile as nat, 2)
            + seq![' ', '-', ' ', '0', 'x'] + zero_padded_hex((offset + 0x8000) as nat, 4) + seq![']']
    }
}

impl TileRow {
    /// The row as text: its 20 entries (see `tile_row_entries_text`), then a
    /// line break. Offsets are into video RAM, below 0x8000.
    pub fn to_text(&self) -> (text: String)
        requires
            forall|i: int| 0 <= i < 20 ==> #[trigger] self.0[i].1 < 0x8000,
        ensures
            text@ == tile_row_entries_text(*self, 20) + seq!['\n'],
    {
        proof {
            reveal_strlit("");
        }
        let mut text = String::from_str("");
        let mut i: usize = 0;
        while i < 20
            invariant
                i <= 20,
                forall|j: int| 0 <= j < 20 ==> #[trigger] self.0[j].1 < 0x8000,
                text@ == tile_row_entries_text(*self, i as int),
            decreases 20 - i,
        {
            proof {
                reveal_strlit("[0x");
                reveal_strlit(" - 0x");
                reveal_strlit("]");
            }
            let (tile_id, address) = self.0[i];
            text.append("[0x");
            append_zero_padded_hex(&mut text, tile_id, 2);
            text.append(" - 0x");
            append_zero_padded_hex(&mut text, address + 0x8000, 4);
            text.append("]");
            i = i + 1;
            assert(text@ =~= tile_row_entries_text(*self, i as int));
        }
        proof {
            reveal_strlit("\n");
        }
        text.append("\n");
        text
    }
}

/// The symbol a tile pixel is printed as.
pub open spec fn pixel_symbol(v: TilePixelValue) -> Seq<char> {
    match v {
        TilePixelValue::Zero => seq!['\u{26AB}'],
        TilePixelValue::One => seq!['\u{2B55}'],
        TilePixelValue::Two => seq!['\u{1F7E4}'],
        TilePixelValue::Three => seq!['\u{26AA}'],
    }
}

impl TilePixelValue {
    /// The symbol the pixel is printed as (see `pixel_symbol`).
    pub fn symbol(&self) -> (s: &'static str)
        ensures
            s@ == pixel_symbol(*self),
    {
        proof {
            reveal_strlit("\u{26AB}");
            reveal_strlit("\u{2B55}");
            reveal_strlit("\u{1F7E4}");
            reveal_strlit("\u{26AA}");
        }
        match self {
            TilePixelValue::Zero => "\u{26AB}",
            TilePixelValue::One => "\u{2B55}",
            TilePixelValue::Two => "\u{1F7E4}",
            TilePixelValue::Three => "\u{26AA}",
        }
    }
}

impl PPU {
    /// Whether `step` by `clock` dots is defined (see `can_step`) on a PPU that
    /// holds its invariant.
    pub fn can_step_by(&self, clock: u32) -> (b: bool)
        requires
            self.wf(),
        ensures
            b == self.can_step(clock),
    {
        let c = self.clock as u64 + clock as u64;
        if c > u32::MAX as u64 {
            return false;
        }
        let mode = self.get_current_mode();
        if (mode == PpuMode::HBlank && c >= 204) || (mode == PpuMode::VBlank && c >= 456) {
            return self.current_line < u32::MAX;
        }
        if mode == PpuMode::VRAM && c >= 172 {
            if self.current_line >= 144 {
                return false;
            }
        }
        true
    }
}

} // verus!
