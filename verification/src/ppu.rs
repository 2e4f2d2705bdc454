use vstd::prelude::*;
use vstd::string::{StrSliceExecFns, StringExecFns};
use crate::text::{decimal_text, bool_text, lower_hex_byte, append_decimal_u32, append_bool, append_lower_hex_byte};
use crate::frame::{FrameBuffer, frame_width, frame_height, frame_samples, samples_with_pixel};

pub mod render;
pub mod scroll;

verus! {

pub const PPU_TILES_NUMBER: usize = 384;

pub const PPU_SPRITES_NUMBER: usize = 40;

pub const TOTAL_SCANLINES: u32 = 153;

pub const VISIBLE_SCANLINES: u8 = 144;

pub const HBLANK_DURATION_DOTS: u32 = 204;

pub const VBLANK_DURATION_DOTS: u32 = 456;

pub const OAM_DURATION_DOTS: u32 = 80;

pub const VRAM_DURATION_DOTS: u32 = 172;

pub const SCREEN_HORIZONTAL_RESOLUTION: u32 = 160;

pub const SCREEN_VERTICAL_RESOLUTION: u32 = 144;

pub const TILE_SIZE: u32 = 8;

pub const TILES_IN_VISIBLE_LINE: u32 = 20;

/// One object of the sprite attribute table, as the PPU keeps it decoded.
#[derive(Clone, Copy, PartialEq, Eq, Debug, Structural)]
pub struct Sprite {
    pub x: i32,
    pub y: i32,
    pub tile_number: u8,
    pub background_priority: bool,
    pub y_flip: bool,
    pub x_flip: bool,
    pub palette: bool,
}

/// The colour number of a tile pixel, before a palette maps it to a colour.
#[derive(Clone, Copy, PartialEq, Eq, Debug, Structural)]
pub enum TilePixelValue {
    Zero,
    One,
    Two,
    Three,
}

/// Each tile is 8x8 pixels, indexed by row then column.
pub type Tile = [[TilePixelValue; 8]; 8];

/// The four modes the PPU cycles through; their numbers are the low two bits of STAT.
#[derive(Clone, Copy, PartialEq, Eq, Debug, Structural)]
pub enum PpuMode {
    HBlank,
    VBlank,
    OAM,
    VRAM,
}

/// The sources of an LCD STAT interrupt, each enabled by a bit of STAT.
#[derive(Clone, Copy, PartialEq, Eq, Debug, Structural)]
#[allow(non_camel_case_types)]
pub enum StatInterruptType {
    HBlank,
    VBlank,
    OAM,
    LYC_EQUALS_LY,
}

/// The bits of the LCD control register.
#[derive(Clone, Copy, PartialEq, Eq, Debug, Structural)]
#[allow(non_camel_case_types)]
pub enum LCDCFlags {
    LCD_enabled,
    /// which background map the window uses: 0=9800-9BFF, 1=9C00-9FFF
    Window_tile_map_area,
    Window_enable,
    /// 0=8800-97FF, 1=8000-8FFF
    BG_tile_set_area,
    /// which background map to use: 0=9800-9BFF, 1=9C00-9FFF
    BG_tile_map_area,
    /// sprite size 0=8x8, 1=8x16
    Obj_size,
    Obj_enable,
    Bg_enable,
}

/// The tiles one row of the screen uses: for each of the 20 tile columns, the tile
/// index and its offset in video RAM.
#[derive(Clone, Copy, Debug)]
pub struct TileRow(pub [(u16, u16); 20]);

impl TilePixelValue {
    pub open spec fn number(self) -> u8 {
        match self {
            TilePixelValue::Zero => 0,
            TilePixelValue::One => 1,
            TilePixelValue::Two => 2,
            TilePixelValue::Three => 3,
        }
    }

    pub fn to_number(self) -> (n: u8)
        ensures
            n == self.number(),
    {
        match self {
            TilePixelValue::Zero => 0,
            TilePixelValue::One => 1,
            TilePixelValue::Two => 2,
            TilePixelValue::Three => 3,
        }
    }

    /// The pixel value of a number; numbers past 3 give `Zero`.
    pub open spec fn spec_from_number(n: u8) -> TilePixelValue {
        if n == 1 {
            TilePixelValue::One
        } else if n == 2 {
            TilePixelValue::Two
        } else if n == 3 {
            TilePixelValue::Three
        } else {
            TilePixelValue::Zero
        }
    }

    pub fn from_number(n: u8) -> (v: TilePixelValue)
        ensures
            v == Self::spec_from_number(n),
    {
        match n {
            1 => TilePixelValue::One,
            2 => TilePixelValue::Two,
            3 => TilePixelValue::Three,
            _ => TilePixelValue::Zero,
        }
    }
}

impl PpuMode {
    pub open spec fn number(self) -> u8 {
        match self {
            PpuMode::HBlank => 0,
            PpuMode::VBlank => 1,
            PpuMode::OAM => 2,
            PpuMode::VRAM => 3,
        }
    }

    /// The mode of a number; numbers past 3 give `HBlank`.
    pub open spec fn spec_from_number(n: u8) -> PpuMode {
        if n == 1 {
            PpuMode::VBlank
        } else if n == 2 {
            PpuMode::OAM
        } else if n == 3 {
            PpuMode::VRAM
        } else {
            PpuMode::HBlank
        }
    }

    pub fn from_number(n: u8) -> (m: PpuMode)
        ensures
            m == Self::spec_from_number(n),
    {
        match n {
            1 => PpuMode::VBlank,
            2 => PpuMode::OAM,
            3 => PpuMode::VRAM,
            _ => PpuMode::HBlank,
        }
    }

    pub fn to_number(self) -> (n: u8)
        ensures
            n == self.number(),
    {
        match self {
            PpuMode::HBlank => 0,
            PpuMode::VBlank => 1,
            PpuMode::OAM => 2,
            PpuMode::VRAM => 3,
        }
    }
}

impl From<u8> for PpuMode {
    /// The mode of a number (see `spec_from_number`).
    fn from(value: u8) -> (m: PpuMode) {
        PpuMode::from_number(value)
    }
}

impl vstd::std_specs::convert::FromSpecImpl<u8> for PpuMode {
    open spec fn obeys_from_spec() -> bool {
        true
    }

    open spec fn from_spec(value: u8) -> PpuMode {
        PpuMode::spec_from_number(value)
    }
}

impl From<u8> for TilePixelValue {
    /// The pixel value of a number (see `spec_from_number`).
    fn from(value: u8) -> (v: TilePixelValue) {
        TilePixelValue::from_number(value)
    }
}

impl vstd::std_specs::convert::FromSpecImpl<u8> for TilePixelValue {
    open spec fn obeys_from_spec() -> bool {
        true
    }

    open spec fn from_spec(value: u8) -> TilePixelValue {
        TilePixelValue::spec_from_number(value)
    }
}

impl StatInterruptType {
    /// The STAT bit that enables this source.
    pub open spec fn bit(self) -> u8 {
        match self {
            StatInterruptType::HBlank => 3,
            StatInterruptType::VBlank => 4,
            StatInterruptType::OAM => 5,
            StatInterruptType::LYC_EQUALS_LY => 6,
        }
    }

    pub fn bit_number(self) -> (b: u8)
        ensures
            b == self.bit(),
    {
        match self {
            StatInterruptType::HBlank => 3,
            StatInterruptType::VBlank => 4,
            StatInterruptType::OAM => 5,
            StatInterruptType::LYC_EQUALS_LY => 6,
        }
    }
}

impl LCDCFlags {
    /// The bit of the LCD control register this flag is.
    pub open spec fn bit(self) -> u8 {
        match self {
            LCDCFlags::LCD_enabled => 7,
            LCDCFlags::Window_tile_map_area => 6,
            LCDCFlags::Window_enable => 5,
            LCDCFlags::BG_tile_set_area => 4,
            LCDCFlags::BG_tile_map_area => 3,
            LCDCFlags::Obj_size => 2,
            LCDCFlags::Obj_enable => 1,
            LCDCFlags::Bg_enable => 0,
        }
    }

    pub fn bit_number(self) -> (b: u8)
        ensures
            b == self.bit(),
    {
        match self {
            LCDCFlags::LCD_enabled => 7,
            LCDCFlags::Window_tile_map_area => 6,
            LCDCFlags::Window_enable => 5,
            LCDCFlags::BG_tile_set_area => 4,
            LCDCFlags::BG_tile_map_area => 3,
            LCDCFlags::Obj_size => 2,
            LCDCFlags::Obj_enable => 1,
            LCDCFlags::Bg_enable => 0,
        }
    }
}

/// Bit `i` (0 is the least significant) of a byte.
pub open spec fn bit_of(b: u8, i: u8) -> bool {
    (b >> i) & 1 == 1
}

/// The four colours a palette maps colour numbers to.
pub const COLORS: [[u8; 4]; 4] = [
    [124, 63, 88, 255],
    [235, 107, 111, 255],
    [249, 168, 117, 255],
    [255, 246, 211, 255],
];

/// The shade (0 to 3) a palette register gives a colour number: bits `2n` and `2n+1`.
pub open spec fn palette_shade(palette: u8, color_number: u8) -> u8 {
    (palette >> (2 * color_number) as u8) & 3
}

pub open spec fn color_of_shade(shade: u8) -> [u8; 4] {
    COLORS[shade as int]
}

/// A tile of colour number zero everywhere.
pub fn create_empty_tile() -> (t: Tile)
    ensures
        forall|r: int, c: int| 0 <= r < 8 && 0 <= c < 8 ==> t[r][c] == TilePixelValue::Zero,
{
    let row = [TilePixelValue::Zero; 8];
    [row; 8]
}

/// The sprite every attribute slot holds before the program writes one.
pub open spec fn empty_sprite() -> Sprite {
    Sprite {
        x: -16i32,
        y: -8i32,
        tile_number: 0,
        background_priority: false,
        y_flip: false,
        x_flip: false,
        palette: false,
    }
}

/// The sprite every attribute slot holds before the program writes one.
pub fn create_empty_sprite() -> (s: Sprite)
    ensures
        s == empty_sprite(),
{
    Sprite {
        x: -16,
        y: -8,
        tile_number: 0,
        background_priority: false,
        y_flip: false,
        x_flip: false,
        palette: false,
    }
}


/// The colour number of column `c` of a tile row stored as the bytes `lo` and `hi`:
/// bit `7 - c` of `lo` is the low bit of the number, bit `7 - c` of `hi` the high bit.
pub open spec fn tile_pixel(lo: u8, hi: u8, c: int) -> TilePixelValue {
    TilePixelValue::spec_from_number(
        ((if bit_of(lo, (7 - c) as u8) { 1u8 } else { 0u8 }) + (if bit_of(hi, (7 - c) as u8) {
            2u8
        } else {
            0u8
        })) as u8,
    )
}

/// The tile set after the row holding video RAM offset `address` has been decoded
/// again from `vram`: only that row of that tile changes.
pub open spec fn tiles_after_update(
    old_tiles: [Tile; 384],
    new_tiles: [Tile; 384],
    vram: [u8; 0x2000],
    address: usize,
) -> bool {
    let a = (address & 0x1FFE) as int;
    let n = a / 16;
    let row = (a % 16) / 2;
    forall|t: int, r: int, c: int|
        0 <= t < 384 && 0 <= r < 8 && 0 <= c < 8 ==> #[trigger] new_tiles[t][r][c] == if t == n
            && r == row {
            tile_pixel(vram[a], vram[a + 1], c)
        } else {
            old_tiles[t][r][c]
        }
}

impl Sprite {
    /// The coordinates an attribute byte can give, and the ones a fresh slot holds.
    pub open spec fn in_range(self) -> bool {
        -16 <= self.x <= 247 && -16 <= self.y <= 247
    }

    /// The sprite after byte `field` (0 to 3) of its attribute entry is written.
    pub open spec fn with_attribute(self, field: usize, value: u8) -> Sprite {
        if field == 0 {
            Sprite { y: (value - 16) as i32, ..self }
        } else if field == 1 {
            Sprite { x: (value - 8) as i32, ..self }
        } else if field == 2 {
            Sprite { tile_number: value, ..self }
        } else {
            Sprite {
                palette: value & 0x10 == 1,
                x_flip: value & 0x20 == 1,
                y_flip: value & 0x40 == 1,
                background_priority: value & 0x80 == 1,
                ..self
            }
        }
    }
}

/// The sprite set after byte `address` of the attribute table is written.
pub open spec fn sprites_after_update(
    old_sprites: [Sprite; 40],
    new_sprites: [Sprite; 40],
    address: usize,
    value: u8,
) -> bool {
    let i = address / 4;
    if i < 40 {
        new_sprites@ == old_sprites@.update(i as int, old_sprites[i as int].with_attribute(address % 4, value))
    } else {
        new_sprites == old_sprites
    }
}

/// The picture processing unit: its registers, video RAM, the attribute table, the
/// tile and sprite sets decoded from them, and the frame it draws.
pub struct PPU {
    pub clock: u32,
    /// LY
    pub current_line: u32,
    /// LYC
    pub current_line_compare: u32,
    pub lcd_status: u8,
    pub lcd_control: u8,
    pub scroll_y: u8,
    pub scroll_x: u8,
    pub window_x: u8,
    pub window_y: u8,
    pub background_palette_data: u8,
    pub obj_0_palette_data: u8,
    pub obj_1_palette_data: u8,
    pub image_buffer: FrameBuffer,
    pub oam: [u8; 0x2000],
    pub video_ram: [u8; 0x2000],
    pub tile_set: [Tile; 384],
    pub sprite_set: [Sprite; 40],
}

impl PPU {
    /// The frame is the screen's size, and every sprite has coordinates an attribute
    /// byte can give.
    pub open spec fn wf(&self) -> bool {
        &&& frame_width(self.image_buffer) == SCREEN_HORIZONTAL_RESOLUTION
        &&& frame_height(self.image_buffer) == SCREEN_VERTICAL_RESOLUTION
        &&& frame_samples(self.image_buffer).len() == 160 * 144 * 4
        &&& forall|i: int| 0 <= i < 40 ==> (#[trigger] self.sprite_set[i]).in_range()
    }

    /// Whether the PPU is well formed (see `wf`).
    pub fn is_well_formed(&self) -> (b: bool)
        ensures
            b == self.wf(),
    {
        if self.image_buffer.width() != SCREEN_HORIZONTAL_RESOLUTION
            || self.image_buffer.height() != SCREEN_VERTICAL_RESOLUTION
            || self.image_buffer.sample_count() != 160 * 144 * 4 {
            return false;
        }
        let mut i: usize = 0;
        while i < 40
            invariant
                i <= 40,
                forall|j: int| 0 <= j < i ==> (#[trigger] self.sprite_set[j]).in_range(),
            decreases 40 - i,
        {
            let s = &self.sprite_set[i];
            if s.x < -16 || s.x > 247 || s.y < -16 || s.y > 247 {
                return false;
            }
            i = i + 1;
        }
        true
    }

    /// The current mode: the low two bits of STAT.
    pub open spec fn mode(&self) -> PpuMode {
        PpuMode::spec_from_number(self.lcd_status & 3)
    }

    pub open spec fn lcdc(&self, flag: LCDCFlags) -> bool {
        bit_of(self.lcd_control, flag.bit())
    }

    pub open spec fn stat_enabled(&self, source: StatInterruptType) -> bool {
        self.lcd_status & (1u8 << source.bit()) != 0
    }

    /// What a read of `address` gives.
    pub open spec fn spec_read_byte(&self, address: usize) -> u8 {
        if 0x8000 <= address <= 0x9FFF {
            self.video_ram[address - 0x8000]
        } else if 0xFE00 <= address <= 0xFEFF {
            if address < 0xFEA0 {
                self.oam[address - 0xFE00]
            } else {
                0
            }
        } else if address == 0xFF40 {
            self.lcd_control
        } else if address == 0xFF41 {
            if self.current_line == self.current_line_compare {
                self.lcd_status | 4
            } else {
                self.lcd_status
            }
        } else if address == 0xFF42 {
            self.scroll_y
        } else if address == 0xFF43 {
            self.scroll_x
        } else if address == 0xFF44 {
            self.current_line as u8
        } else if address == 0xFF45 {
            self.current_line_compare as u8
        } else if address == 0xFF47 {
            self.background_palette_data
        } else if address == 0xFF48 {
            self.obj_0_palette_data
        } else if address == 0xFF49 {
            self.obj_1_palette_data
        } else if address == 0xFF4A {
            self.window_y
        } else if address == 0xFF4B {
            self.window_x
        } else {
            0
        }
    }

    /// `new` is `self` after a write of `value` to `address`.
    pub open spec fn wrote_byte(self, new: PPU, address: usize, value: u8) -> bool {
        if 0x8000 <= address <= 0x9FFF {
            &&& new == PPU { video_ram: new.video_ram, tile_set: new.tile_set, ..self }
            &&& new.video_ram@ == self.video_ram@.update(address - 0x8000, value)
            &&& if address < 0x9800 {
                tiles_after_update(self.tile_set, new.tile_set, new.video_ram, (address - 0x8000) as usize)
            } else {
                new.tile_set == self.tile_set
            }
        } else if 0xFE00 <= address <= 0xFEFF {
            if address < 0xFEA0 {
                &&& new == PPU { oam: new.oam, sprite_set: new.sprite_set, ..self }
                &&& new.oam@ == self.oam@.update(address - 0xFE00, value)
                &&& sprites_after_update(self.sprite_set, new.sprite_set, (address - 0xFE00) as usize, value)
            } else {
                new == self
            }
        } else if address == 0xFF40 {
            new == PPU { lcd_control: value, ..self }
        } else if address == 0xFF41 {
            new == PPU { lcd_status: value, ..self }
        } else if address == 0xFF42 {
            new == PPU { scroll_y: value, ..self }
        } else if address == 0xFF43 {
            new == PPU { scroll_x: value, ..self }
        } else if address == 0xFF44 {
            new == PPU { current_line: value as u32, ..self }
        } else if address == 0xFF45 {
            new == PPU { current_line_compare: value as u32, ..self }
        } else if address == 0xFF47 {
            new == PPU { background_palette_data: value, ..self }
        } else if address == 0xFF48 {
            new == PPU { obj_0_palette_data: value, ..self }
        } else if address == 0xFF49 {
            new == PPU { obj_1_palette_data: value, ..self }
        } else if address == 0xFF4A || address == 0xFF4B {
            new == PPU { window_y: value, ..self }
        } else {
            new == self
        }
    }

    /// A PPU at power-on: all memory zero, empty tiles, fresh sprite slots, a black frame.
    pub fn new() -> (ppu: PPU)
        ensures
            ppu.wf(),
            ppu.clock == 0,
            ppu.current_line == 0,
            ppu.current_line_compare == 0,
            ppu.lcd_status == 0,
            ppu.lcd_control == 0,
            ppu.scroll_x == 0 && ppu.scroll_y == 0 && ppu.window_x == 0 && ppu.window_y == 0,
            ppu.background_palette_data == 0 && ppu.obj_0_palette_data == 0
                && ppu.obj_1_palette_data == 0,
            forall|i: int| 0 <= i < 0x2000 ==> ppu.video_ram[i] == 0 && ppu.oam[i] == 0,
            forall|t: int, r: int, c: int|
                0 <= t < 384 && 0 <= r < 8 && 0 <= c < 8 ==> ppu.tile_set[t][r][c]
                    == TilePixelValue::Zero,
            forall|i: int| 0 <= i < 40 ==> ppu.sprite_set[i] == empty_sprite(),
            frame_samples(ppu.image_buffer) == Seq::new(160 * 144 * 4, |i: int| 0u8),
    {
        let tile = create_empty_tile();
        let sprite = create_empty_sprite();
        PPU {
            video_ram: [0u8; 0x2000],
            current_line: 0,
            current_line_compare: 0,
            clock: 0,
            lcd_status: 0,
            tile_set: [tile; 384],
            lcd_control: 0,
            scroll_y: 0,
            scroll_x: 0,
            window_x: 0,
            window_y: 0,
            background_palette_data: 0,
            obj_0_palette_data: 0,
            obj_1_palette_data: 0,
            oam: [0u8; 0x2000],
            image_buffer: FrameBuffer::new(SCREEN_HORIZONTAL_RESOLUTION, SCREEN_VERTICAL_RESOLUTION),
            sprite_set: [sprite; 40],
        }
    }

    /// Whether bit `lcdc_flag` of the LCD control register is set.
    pub fn get_lcdc_value(&self, lcdc_flag: LCDCFlags) -> (b: bool)
        ensures
            b == self.lcdc(lcdc_flag),
    {
        let bit_number = lcdc_flag.bit_number();
        ((self.lcd_control >> bit_number) & 0x1) == 1
    }

    /// The mode held in the low two bits of STAT.
    pub fn get_current_mode(&self) -> (m: PpuMode)
        ensures
            m == self.mode(),
    {
        PpuMode::from_number(self.lcd_status & 0b11)
    }

    /// The PPU after a program write of STAT.
    pub open spec fn after_stat_write(self, value: u8) -> PPU {
        PPU { lcd_status: (self.lcd_status & 0b1000_0111) | (value & 0b111_1000), ..self }
    }

    /// The PPU after a write of the LCD control register.
    pub open spec fn after_set_lcdc(self, value: u8) -> PPU {
        if bit_of(value, 7) {
            PPU { lcd_control: value, ..self }
        } else {
            PPU { lcd_control: value, clock: 0, lcd_status: 0, current_line: 0, ..self }
        }
    }

    /// Writes the selectable bits (3 to 6) of STAT, keeping the others.
    pub fn set_current_mode_from_value(&mut self, value: u8)
        ensures
            *final(self) == old(self).after_stat_write(value),
    {
        let value = value & 0b1111000;
        self.lcd_status = self.lcd_status & 0b1000_0111;
        self.lcd_status = self.lcd_status | value;
    }

    /// Sets STAT to the mode's number, which clears every other bit of it.
    pub fn set_current_mode(&mut self, ppu_mode: PpuMode)
        ensures
            *final(self) == (PPU { lcd_status: ppu_mode.number(), ..*old(self) }),
    {
        self.lcd_status = ppu_mode.to_number();
    }

    /// Writes the LCD control register; turning the LCD off resets the clock, the mode
    /// and the current line.
    pub fn set_lcdc(&mut self, value: u8)
        ensures
            *final(self) == old(self).after_set_lcdc(value),
    {
        self.lcd_control = value;
        if !self.get_lcdc_value(LCDCFlags::LCD_enabled) {
            self.clock = 0;
            self.set_current_mode(PpuMode::HBlank);
            self.current_line = 0
        }
    }

    /// Whether STAT enables the interrupt of `stat_interrupt_type`.
    pub fn should_rise_lcdc_interrupt(&self, stat_interrupt_type: StatInterruptType) -> (b: bool)
        ensures
            b == self.stat_enabled(stat_interrupt_type),
    {
        let bit = stat_interrupt_type.bit_number();
        (self.lcd_status & (1u8 << bit)) != 0
    }

    /// Whether LY equals LYC and STAT enables the coincidence interrupt.
    pub fn should_try_to_request_lyc_ly_interrupt(&self) -> (b: bool)
        ensures
            b == (self.current_line == self.current_line_compare && self.stat_enabled(
                StatInterruptType::LYC_EQUALS_LY,
            )),
    {
        if self.current_line == self.current_line_compare {
            return self.should_rise_lcdc_interrupt(StatInterruptType::LYC_EQUALS_LY);
        }
        false
    }

    /// The colour a palette register gives a colour number.
    pub fn get_color_from_palette(&self, color_number: TilePixelValue, palette: u8) -> (c: [u8; 4])
        ensures
            c == color_of_shade(palette_shade(palette, color_number.number())),
    {
        let color_number = color_number.to_number();
        let value_for_color = (palette >> (color_number * 2)) & 0x3;
        assert(value_for_color < 4) by (bit_vector)
            requires
                value_for_color == (palette >> (color_number * 2)) & 0x3,
        ;
        COLORS[value_for_color as usize]
    }

    /// The colour the background palette gives a colour number.
    pub fn get_color_from_bg_palette(&self, color_number: TilePixelValue) -> (c: [u8; 4])
        ensures
            c == color_of_shade(palette_shade(self.background_palette_data, color_number.number())),
    {
        self.get_color_from_palette(color_number, self.background_palette_data)
    }

    /// Decodes again the tile row holding video RAM offset `address` (the byte pair it
    /// belongs to, low byte first).
    pub fn update_tile(&mut self, address: usize)
        requires
            address & 0x1FFE < 0x1800,
        ensures
            *final(self) == (PPU { tile_set: final(self).tile_set, ..*old(self) }),
            tiles_after_update(old(self).tile_set, final(self).tile_set, old(self).video_ram, address),
    {
        let a = address & 0x1FFE;
        assert(a + 1 < 0x2000 && a % 2 == 0) by (bit_vector)
            requires
                a < 0x1800,
                a == address & 0x1FFE,
        ;
        let address = a;
        let tile_number = address / 16;
        let tile_row = (address - (tile_number * 16)) / 2;
        assert(tile_row == (address % 16) / 2);
        let lo = self.video_ram[address];
        let hi = self.video_ram[address + 1];
        let mut tile = self.tile_set[tile_number];
        let mut row = tile[tile_row];
        for tile_column in 0..8usize
            invariant
                forall|c: int| 0 <= c < tile_column ==> row[c] == tile_pixel(lo, hi, c),
        {
            let shift = (7 - tile_column) as u8;
            let current_column_mask_position: u8 = 1u8 << shift;
            assert(((lo & current_column_mask_position) >= 1) == bit_of(lo, shift) && ((hi
                & current_column_mask_position) >= 1) == bit_of(hi, shift)) by (bit_vector)
                requires
                    shift < 8,
                    current_column_mask_position == 1u8 << shift,
            ;
            let bit_value_for_position: u8 = if (lo & current_column_mask_position) >= 1 {
                1
            } else {
                0
            };
            let bit_value_for_next_position: u8 = if (hi & current_column_mask_position) >= 1 {
                2
            } else {
                0
            };
            let tile_value = TilePixelValue::from_number(bit_value_for_position + bit_value_for_next_position);
            row[tile_column] = tile_value;
        }
        tile[tile_row] = row;
        self.tile_set[tile_number] = tile;
    }

    /// Decodes again the sprite whose attribute entry holds byte `address` of the table.
    pub fn update_sprite(&mut self, address: usize, value: u8)
        ensures
            *final(self) == (PPU { sprite_set: final(self).sprite_set, ..*old(self) }),
            sprites_after_update(old(self).sprite_set, final(self).sprite_set, address, value),
    {
        let sprite_index = address >> 2;
        assert(address >> 2 == address / 4 && address & 3 == address % 4) by (bit_vector);
        if sprite_index < 40 {
            let mut sprite = self.sprite_set[sprite_index];
            match address & 3 {
                0 => sprite.y = value as i32 - 16,
                1 => sprite.x = value as i32 - 8,
                2 => sprite.tile_number = value,
                _ => {
                    sprite.palette = (value & 0x10) == 1;
                    sprite.x_flip = (value & 0x20) == 1;
                    sprite.y_flip = (value & 0x40) == 1;
                    sprite.background_priority = (value & 0x80) == 1;
                },
            }
            self.sprite_set[sprite_index] = sprite;
        }
    }

    /// Reads a PPU register, video RAM or the attribute table.
    pub fn read_byte(&self, address: usize) -> (v: u8)
        ensures
            v == self.spec_read_byte(address),
    {
        match address {
            0x8000..=0x9FFF => self.video_ram[address - 0x8000],
            0xFE00..=0xFEFF => {
                if address < 0xFEA0 {
                    return self.oam[address - 0xFE00];
                }
                0
            },
            0xFF40 => self.lcd_control,
            0xFF41 => {
                if self.current_line == self.current_line_compare {
                    assert(1u8 << 2u8 == 4) by (bit_vector);
                    return self.lcd_status | 1u8 << 2u8;
                }
                self.lcd_status
            },
            0xFF42 => self.scroll_y,
            0xFF43 => self.scroll_x,
            0xFF44 => #[verifier::truncate] (self.current_line as u8),
            0xFF45 => #[verifier::truncate] (self.current_line_compare as u8),
            0xFF47 => self.background_palette_data,
            0xFF48 => self.obj_0_palette_data,
            0xFF49 => self.obj_1_palette_data,
            0xFF4A => self.window_y,
            0xFF4B => self.window_x,
            _ => 0,
        }
    }

    /// Writes a PPU register, video RAM (decoding the tile row it touches) or the
    /// attribute table (decoding the sprite it touches).
    pub fn write_byte(&mut self, address: usize, value: u8)
        ensures
            old(self).wrote_byte(*final(self), address, value),
    {
        match address {
            0x8000..=0x9FFF => {
                self.video_ram[address - 0x8000] = value;
                if address < 0x9800 {
                    let a = address - 0x8000;
                    assert(a & 0x1FFE < 0x1800) by (bit_vector)
                        requires
                            a < 0x1800,
                    ;
                    self.update_tile(a);
                }
            },
            0xFE00..=0xFEFF => {
                if address < 0xFEA0 {
                    self.oam[address - 0xFE00] = value;
                    self.update_sprite(address - 0xFE00, value);
                }
            },
            0xFF40 => {
                self.lcd_control = value;
            },
            0xFF41 => {
                self.lcd_status = value;
            },
            0xFF42 => {
                self.scroll_y = value;
            },
            0xFF43 => {
                self.scroll_x = value;
            },
            0xFF44 => self.current_line = value as u32,
            0xFF45 => self.current_line_compare = value as u32,
            0xFF47 => {
                self.background_palette_data = value;
            },
            0xFF48 => {
                self.obj_0_palette_data = value;
            },
            0xFF49 => {
                self.obj_1_palette_data = value;
            },
            0xFF4A => {
                self.window_y = value;
            },
            0xFF4B => {
                self.window_y = value;
            },
            _ => (),
        }
    }
}

/// A byte written to video RAM, to the attribute table, or to a PPU register
/// that keeps what it is given (LCDC, SCY, SCX, LY, LYC, BGP, OBP0, OBP1, WY) is
/// read back.
pub proof fn law_ppu_reads_back(p: PPU, n: PPU, address: usize, value: u8)
    requires
        0x8000 <= address <= 0x9FFF || 0xFE00 <= address <= 0xFE9F || address == 0xFF40 || 0xFF42
            <= address <= 0xFF45 || 0xFF47 <= address <= 0xFF4A,
        p.wrote_byte(n, address, value),
    ensures
        n.spec_read_byte(address) == value,
{
    if address == 0xFF44 || address == 0xFF45 {
        assert((value as u32) as u8 == value);
    }
}

/// One of two texts, as `b` says.
pub open spec fn choice_text(b: bool, yes: Seq<char>, no: Seq<char>) -> Seq<char> {
    if b {
        yes
    } else {
        no
    }
}

impl PPU {
    /// The PPU as the debugging dump shows it: a mode of 0, and the dot counter.
    pub fn to_text(&self) -> (text: String)
        ensures
            text@ == "PPU - mode : 0 - clock : "@ + decimal_text(self.clock as nat),
    {
        let mut text = String::from_str("PPU - mode : 0 - clock : ");
        append_decimal_u32(&mut text, self.clock);
        text
    }

    /// The LCD control register and what each of its bits selects.
    pub open spec fn lcdc_status(&self) -> Seq<char> {
        "LCD control (0xFF40) - 0x"@ + lower_hex_byte(self.lcd_control) + " LCD enabled - "@
            + bool_text(self.lcdc(LCDCFlags::LCD_enabled)) + ", Window tile map area - "@
            + choice_text(self.lcdc(LCDCFlags::Window_tile_map_area), "0x9C00"@, "0x9800"@)
            + ", Window enabled - "@ + bool_text(self.lcdc(LCDCFlags::Window_enable))
            + ", BG tile set area - "@ + choice_text(
            self.lcdc(LCDCFlags::BG_tile_set_area),
            "0x8000"@,
            "0x8800"@,
        ) + ", BG tile map area - "@ + choice_text(
            self.lcdc(LCDCFlags::BG_tile_map_area),
            "0x9C00"@,
            "0x9800"@,
        ) + ", Obj size - "@ + choice_text(self.lcdc(LCDCFlags::Obj_size), "8x16"@, "8x8"@)
            + ", Obj enabled - "@ + bool_text(self.lcdc(LCDCFlags::Obj_enable)) + ", Bg enabled - "@
            + bool_text(self.lcdc(LCDCFlags::Bg_enable))
    }

    /// The LCD control register and what each of its bits selects (see
    /// `lcdc_status`).
    pub fn lcdc_status_text(&self) -> (text: String)
        ensures
            text@ == self.lcdc_status(),
    {
        let mut text = String::from_str("LCD control (0xFF40) - 0x");
        append_lower_hex_byte(&mut text, self.lcd_control);
        text.append(" LCD enabled - ");
        append_bool(&mut text, self.get_lcdc_value(LCDCFlags::LCD_enabled));
        text.append(", Window tile map area - ");
        text.append(if self.get_lcdc_value(LCDCFlags::Window_tile_map_area) { "0x9C00" } else { "0x9800" });
        text.append(", Window enabled - ");
        append_bool(&mut text, self.get_lcdc_value(LCDCFlags::Window_enable));
        text.append(", BG tile set area - ");
        text.append(if self.get_lcdc_value(LCDCFlags::BG_tile_set_area) { "0x8000" } else { "0x8800" });
        text.append(", BG tile map area - ");
        text.append(if self.get_lcdc_value(LCDCFlags::BG_tile_map_area) { "0x9C00" } else { "0x9800" });
        text.append(", Obj size - ");
        text.append(if self.get_lcdc_value(LCDCFlags::Obj_size) { "8x16" } else { "8x8" });
        text.append(", Obj enabled - ");
        append_bool(&mut text, self.get_lcdc_value(LCDCFlags::Obj_enable));
        text.append(", Bg enabled - ");
        append_bool(&mut text, self.get_lcdc_value(LCDCFlags::Bg_enable));
        assert(text@ =~= self.lcdc_status());
        text
    }
}

} // verus!
