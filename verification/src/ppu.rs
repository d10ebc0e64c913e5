//! The display: its register block on the bus and the frame it composes
//! from the tiles in video memory. Presenting a frame is the host's work;
//! the display only says what is due.

use vstd::prelude::*;
use crate::consts::{
    bit_check, bit_is_set, get_empty_screen_buffer, COLOR_BLACK, COLOR_DARK_GREY, COLOR_LIGHT_GREY,
    COLOR_WHITE, PPU_ADDR_LCD_CONTROL, PPU_ADDR_SCANLINE,
    PPU_LCD_CONTROL_BIT_BG_AND_WINDOW_TILE_DATA_AREA, PPU_LCD_CONTROL_BIT_BG_TILE_MAP_AREA,
    PPU_LCD_CONTROL_BIT_ENABLE, PPU_LCD_CONTROL_BIT_WINDOW_TILE_MAP_AREA, PPU_LCD_RANGE_END,
    PPU_LCD_RANGE_START, PPU_SCANLINE_IDLE, SCREEN_PIXELS,
};
use crate::ram_memory::RamMemory;

verus! {

/// What the host has to show next.
#[derive(Clone, Copy, Debug, PartialEq, Eq, Structural)]
pub enum DisplayAction {
    /// Nothing new.
    Idle,
    /// An empty, all-white screen.
    Blank,
    /// The frame that the display holds.
    Frame,
}

/// A switch of the display, each a bit of the control register.
#[derive(Clone, Copy, Debug, PartialEq, Eq, Structural)]
pub enum PpuConfig {
    IsEnabled,
    WindowTileMap,
    BgTileMap,
    BgWindowDataArea,
}

/// Number of bytes of a tile in video memory: two for each of its eight rows.
pub const TILE_BYTES: usize = 16;

/// Number of pixels of a tile: eight rows of eight.
pub const TILE_PIXELS: usize = 64;

/// Number of tiles that a row of the tile sheet holds.
pub const TILES_PER_ROW: usize = 32;

/// Number of pixels, from the top of the frame, that the tile sheet covers.
pub const SHEET_PIXELS: usize = 16384;

/// Where the tiles start when the tile data switch is on.
pub const TILE_DATA_LOW: u16 = 0x8000;

/// Where the tiles start when the tile data switch is off.
pub const TILE_DATA_HIGH: u16 = 0x8800;

/// The colour of a colour code; codes above three have none.
pub open spec fn palette(code: u8) -> u32 {
    if code == 0 {
        COLOR_WHITE
    } else if code == 1 {
        COLOR_LIGHT_GREY
    } else if code == 2 {
        COLOR_DARK_GREY
    } else {
        COLOR_BLACK
    }
}

/// The colour code of a pixel: its low bit comes from the first byte of
/// the row, its high bit from the second.
pub open spec fn color_code(first: u8, second: u8, bit: u8) -> u8 {
    if bit_is_set(first, bit) {
        if bit_is_set(second, bit) {
            3
        } else {
            1
        }
    } else {
        if bit_is_set(second, bit) {
            2
        } else {
            0
        }
    }
}

/// Pixel `i` of a tile, rows first: the leftmost pixel of a row comes from
/// bit 7 of the row's two bytes.
pub open spec fn bitmap_pixel(sprite: Seq<u8>, i: int) -> u32 {
    palette(color_code(sprite[2 * (i / 8)], sprite[2 * (i / 8) + 1], (7 - i % 8) as u8))
}

/// Where pixel `i` of a frame lies behind the first pixel of a tile drawn
/// at column `x` of row `y`. A frame is 256 pixels wide: pixel `i` lies in
/// row `i / 256`, at column `i % 256`.
pub open spec fn tile_offset(x: int, y: int, i: int) -> int {
    i - (y * 256 + x)
}

/// Whether a tile drawn at column `x` of row `y` covers pixel `i` of a
/// frame. Each of the tile's eight rows starts 256 pixels behind the one
/// before and is eight pixels long; where fewer than eight columns are
/// left of the frame's row, it runs on into the next.
pub open spec fn covers(x: int, y: int, i: int) -> bool {
    0 <= tile_offset(x, y, i) && tile_offset(x, y, i) / 256 < 8 && tile_offset(x, y, i) % 256 < 8
}

/// The pixel of the tile, rows first, that lies on pixel `i` of the frame.
pub open spec fn tile_pixel(x: int, y: int, i: int) -> int {
    tile_offset(x, y, i) / 256 * 8 + tile_offset(x, y, i) % 256
}

/// Whether a tile can be drawn at column `x` of row `y`: its last pixel
/// lies inside the frame.
pub open spec fn fits(x: int, y: int) -> bool {
    0 <= x && 0 <= y && (y + 7) * 256 + x + 7 < SCREEN_PIXELS
}

/// A frame with a tile drawn into it, the tile's first pixel at column
/// `x` of row `y`.
pub open spec fn drawn(frame: Seq<u32>, bitmap: Seq<u32>, x: int, y: int) -> Seq<u32> {
    Seq::new(
        frame.len(),
        |i: int|
            if covers(x, y, i) {
                bitmap[tile_pixel(x, y, i)]
            } else {
                frame[i]
            },
    )
}

/// The tile of the sheet that pixel `i` of a frame belongs to: the sheet
/// holds 32 tiles to a row.
pub open spec fn tile_at(i: int) -> int {
    (i / 256 / 8) * 32 + (i % 256) / 8
}

/// The `k`-th pixel of a tile drawn at column `x` of row `y` is pixel
/// `(y + k / 8) * 256 + x + k % 8` of the frame, and no other.
proof fn lemma_pixel_of_tile(x: int, y: int, k: int, i: int)
    requires
        fits(x, y),
        0 <= k < 64,
        0 <= i < 65536,
    ensures
        (covers(x, y, i) && tile_pixel(x, y, i) == k) <==> i == (y + k / 8) * 256 + x + k % 8,
        covers(x, y, i) ==> 0 <= tile_pixel(x, y, i) < 64,
{
    let p = (y + k / 8) * 256 + x + k % 8;
    let d = tile_offset(x, y, p);
    assert(d == (k / 8) * 256 + k % 8);
    assert(d / 256 == k / 8);
    assert(d % 256 == k % 8);
    if covers(x, y, i) && tile_pixel(x, y, i) == k {
        let e = tile_offset(x, y, i);
        assert(e / 256 == k / 8 && e % 256 == k % 8);
        assert(e == (e / 256) * 256 + e % 256);
    }
}

/// A tile drawn where eight columns are left of the frame's row covers
/// eight rows of eight columns.
proof fn lemma_tile_within_row(x: int, y: int, i: int)
    requires
        0 <= x,
        x + 8 <= 256,
        0 <= y,
        0 <= i,
    ensures
        covers(x, y, i) <==> (y <= i / 256 < y + 8 && x <= i % 256 < x + 8),
        covers(x, y, i) ==> tile_pixel(x, y, i) == (i / 256 - y) * 8 + (i % 256 - x),
{
    let d = tile_offset(x, y, i);
    let r = i / 256;
    let c = i % 256;
    assert(i == r * 256 + c);
    assert(d == (r - y) * 256 + (c - x));
    if y <= r < y + 8 && x <= c < x + 8 {
        assert(d / 256 == r - y);
        assert(d % 256 == c - x);
    }
    if covers(x, y, i) {
        let q = d / 256;
        let m = d % 256;
        assert(d == q * 256 + m);
        assert(i == (y + q) * 256 + (x + m));
        assert(x + m < 256);
        assert(r == y + q);
        assert(c == x + m);
    }
}

pub struct PPU {
    buffer: Vec<u32>,
    pending: DisplayAction,
}

/// What a `PPU` holds: the frame composed last and what is due to the host.
pub ghost struct PpuView {
    pub frame: Seq<u32>,
    pub pending: DisplayAction,
}

impl View for PPU {
    type V = PpuView;

    closed spec fn view(&self) -> PpuView {
        PpuView { frame: self.buffer@, pending: self.pending }
    }
}

impl PpuView {
    /// A frame has one pixel for each point of the screen.
    pub open spec fn wf(self) -> bool {
        self.frame.len() == SCREEN_PIXELS
    }
}

impl PPU {
    #[verifier::type_invariant]
    closed spec fn wf(&self) -> bool {
        self.buffer.len() == SCREEN_PIXELS
    }

    /// What a read of a display register gives: the scanline register
    /// always reads as idle, whatever was written to it; every other
    /// register reads as the cell of the primary store behind it.
    pub open spec fn register_read(memory: Seq<u8>, addr: u16) -> u8 {
        if addr == PPU_ADDR_SCANLINE {
            PPU_SCANLINE_IDLE
        } else {
            memory[addr as int]
        }
    }

    /// Whether the display is switched on: bit 7 of the control register.
    pub open spec fn enabled(memory: Seq<u8>) -> bool {
        bit_is_set(PPU::register_read(memory, PPU_ADDR_LCD_CONTROL), PPU_LCD_CONTROL_BIT_ENABLE)
    }

    /// Whether a register write switches a running display off.
    pub open spec fn switches_off(memory: Seq<u8>, addr: u16, value: u8) -> bool {
        addr == PPU_ADDR_LCD_CONTROL && !bit_is_set(value, PPU_LCD_CONTROL_BIT_ENABLE)
            && PPU::enabled(memory)
    }

    /// What is due to the host after a register write.
    pub open spec fn pending_after_write(
        pending: DisplayAction,
        memory: Seq<u8>,
        addr: u16,
        value: u8,
    ) -> DisplayAction {
        if PPU::switches_off(memory, addr, value) {
            DisplayAction::Blank
        } else {
            pending
        }
    }

    /// A display that holds an empty frame and owes the host a blank screen.
    pub fn init() -> (ppu: PPU)
        ensures
            ppu@.wf(),
            ppu@.frame == Seq::new(SCREEN_PIXELS as nat, |i: int| COLOR_WHITE),
            ppu@.pending == DisplayAction::Blank,
    {
        PPU { buffer: get_empty_screen_buffer(), pending: DisplayAction::Blank }
    }

    /// The value that a register has of its own, if it has one.
    pub fn lcd_control_get_handler(addr: u16) -> (r: Option<u8>)
        ensures
            r == if addr == PPU_ADDR_SCANLINE {
                Some(PPU_SCANLINE_IDLE)
            } else {
                None
            },
    {
        if addr == PPU_ADDR_SCANLINE {
            return Some(PPU_SCANLINE_IDLE);
        }
        None
    }

    /// Reads a display register.
    pub fn get_addr(&self, ram: &RamMemory, addr: u16) -> (value: u8)
        ensures
            value == PPU::register_read(ram@, addr),
    {
        match PPU::lcd_control_get_handler(addr) {
            Some(value) => value,
            None => ram.get_addr(addr),
        }
    }

    /// Whether the display is switched on.
    pub fn is_enabled(&self, ram: &RamMemory) -> (on: bool)
        ensures
            on == PPU::enabled(ram@),
    {
        bit_check(self.get_addr(ram, PPU_ADDR_LCD_CONTROL), PPU_LCD_CONTROL_BIT_ENABLE)
    }

    /// Reacts to a write to one of the display's own registers: switching a
    /// running display off owes the host a blank screen.
    pub fn lcd_control_set_handler(&mut self, ram: &RamMemory, addr: u16, value: u8)
        ensures
            old(self)@.wf(),
            final(self)@.frame == old(self)@.frame,
            final(self)@.pending == PPU::pending_after_write(old(self)@.pending, ram@, addr, value),
    {
        proof {
            use_type_invariant(&*self);
        }
        if addr == PPU_ADDR_LCD_CONTROL {
            if !bit_check(value, PPU_LCD_CONTROL_BIT_ENABLE) && self.is_enabled(ram) {
                self.pending = DisplayAction::Blank;
            }
        }
    }

    /// Writes a display register: the display reacts, then the value goes
    /// into the primary store, so that a read through either path agrees.
    pub fn set_addr(&mut self, ram: &mut RamMemory, addr: u16, value: u8)
        ensures
            old(self)@.wf(),
            RamMemory::covers_bus(old(ram)@),
            final(self)@.frame == old(self)@.frame,
            final(self)@.pending == PPU::pending_after_write(
                old(self)@.pending,
                old(ram)@,
                addr,
                value,
            ),
            final(ram)@ == old(ram)@.update(addr as int, value),
    {
        proof {
            use_type_invariant(&*self);
        }
        if PPU_LCD_RANGE_START <= addr && addr <= PPU_LCD_RANGE_END {
            self.lcd_control_set_handler(ram, addr, value);
        }
        ram.set_addr(addr, value);
    }

    /// The register and the bit that hold a switch.
    pub open spec fn config_place(config: PpuConfig) -> (u16, u8) {
        match config {
            PpuConfig::IsEnabled => (PPU_ADDR_LCD_CONTROL, PPU_LCD_CONTROL_BIT_ENABLE),
            PpuConfig::WindowTileMap => (
                PPU_ADDR_LCD_CONTROL,
                PPU_LCD_CONTROL_BIT_WINDOW_TILE_MAP_AREA,
            ),
            PpuConfig::BgTileMap => (PPU_ADDR_LCD_CONTROL, PPU_LCD_CONTROL_BIT_BG_TILE_MAP_AREA),
            PpuConfig::BgWindowDataArea => (
                PPU_ADDR_LCD_CONTROL,
                PPU_LCD_CONTROL_BIT_BG_AND_WINDOW_TILE_DATA_AREA,
            ),
        }
    }

    /// Whether a switch is on.
    pub open spec fn config(memory: Seq<u8>, config: PpuConfig) -> bool {
        bit_is_set(
            PPU::register_read(memory, PPU::config_place(config).0),
            PPU::config_place(config).1,
        )
    }

    /// Where the tiles start in video memory.
    pub open spec fn tile_base(memory: Seq<u8>) -> int {
        if PPU::config(memory, PpuConfig::BgWindowDataArea) {
            TILE_DATA_LOW as int
        } else {
            TILE_DATA_HIGH as int
        }
    }

    /// The bytes of a tile as they lie in video memory.
    pub open spec fn tile_bytes(memory: Seq<u8>, tile_id: u8) -> Seq<u8> {
        memory.subrange(
            PPU::tile_base(memory) + TILE_BYTES * tile_id,
            PPU::tile_base(memory) + TILE_BYTES * tile_id + TILE_BYTES,
        )
    }

    /// A frame with the first `count` tiles of video memory laid out on the
    /// sheet, 32 to a row, and every other pixel as it was.
    pub open spec fn sheet(frame: Seq<u32>, memory: Seq<u8>, count: int) -> Seq<u32> {
        Seq::new(
            frame.len(),
            |i: int|
                if i < SHEET_PIXELS && tile_at(i) < count {
                    bitmap_pixel(
                        PPU::tile_bytes(memory, tile_at(i) as u8),
                        (i / 256) % 8 * 8 + (i % 256) % 8,
                    )
                } else {
                    frame[i]
                },
        )
    }

    /// The register and the bit that hold a switch.
    pub fn get_addr_and_bit(config: PpuConfig) -> (place: (u16, u8))
        ensures
            place == PPU::config_place(config),
            1 <= place.1 < 8,
    {
        match config {
            PpuConfig::IsEnabled => (PPU_ADDR_LCD_CONTROL, PPU_LCD_CONTROL_BIT_ENABLE),
            PpuConfig::WindowTileMap => (
                PPU_ADDR_LCD_CONTROL,
                PPU_LCD_CONTROL_BIT_WINDOW_TILE_MAP_AREA,
            ),
            PpuConfig::BgTileMap => (PPU_ADDR_LCD_CONTROL, PPU_LCD_CONTROL_BIT_BG_TILE_MAP_AREA),
            PpuConfig::BgWindowDataArea => (
                PPU_ADDR_LCD_CONTROL,
                PPU_LCD_CONTROL_BIT_BG_AND_WINDOW_TILE_DATA_AREA,
            ),
        }
    }

    /// Reads a switch.
    pub fn get_ppu_config(&self, ram: &RamMemory, config: PpuConfig) -> (on: bool)
        ensures
            on == PPU::config(ram@, config),
    {
        let (addr, bit) = PPU::get_addr_and_bit(config);
        bit_check(self.get_addr(ram, addr), bit)
    }

    /// What `set_ppu_config` writes into the register of a switch: the
    /// register as it reads, with the bit below the switch's own set or
    /// cleared.
    pub open spec fn config_written(memory: Seq<u8>, config: PpuConfig, value: bool) -> u8 {
        let place = PPU::config_place(config);
        let old_value = PPU::register_read(memory, place.0);
        let mask = 1u8 << ((place.1 - 1) as u8);
        if value {
            old_value | mask
        } else {
            old_value & !mask
        }
    }

    /// Writes a switch. What is set or cleared is the bit below the one
    /// that `get_ppu_config` reads; the register is then written as any
    /// write to it is.
    pub fn set_ppu_config(&mut self, ram: &mut RamMemory, config: PpuConfig, value: bool)
        ensures
            old(self)@.wf(),
            RamMemory::covers_bus(old(ram)@),
            final(self)@.frame == old(self)@.frame,
            final(self)@.pending == PPU::pending_after_write(
                old(self)@.pending,
                old(ram)@,
                PPU::config_place(config).0,
                PPU::config_written(old(ram)@, config, value),
            ),
            final(ram)@ == old(ram)@.update(
                PPU::config_place(config).0 as int,
                PPU::config_written(old(ram)@, config, value),
            ),
    {
        let (addr, bit) = PPU::get_addr_and_bit(config);
        let old_value: u8 = self.get_addr(ram, addr);
        let mask: u8 = 1u8 << (bit - 1);
        let new_value: u8 = if value {
            old_value | mask
        } else {
            old_value & !mask
        };
        self.set_addr(ram, addr, new_value);
    }

    /// The colour of a colour code.
    pub fn get_color_by_color_pallete(color_code: u8) -> (color: u32)
        requires
            color_code < 4,
        ensures
            color == palette(color_code),
    {
        if color_code == 0 {
            COLOR_WHITE
        } else if color_code == 1 {
            COLOR_LIGHT_GREY
        } else if color_code == 2 {
            COLOR_DARK_GREY
        } else {
            COLOR_BLACK
        }
    }

    /// Reads the sixteen bytes of a tile out of video memory.
    pub fn get_sprite_tile(&self, ram: &RamMemory, tile_id: u8) -> (sprite: [u8; 16])
        ensures
            RamMemory::covers_bus(ram@),
            sprite@ == PPU::tile_bytes(ram@, tile_id),
    {
        let _ = ram.len();
        let base: u16 = if self.get_ppu_config(ram, PpuConfig::BgWindowDataArea) {
            TILE_DATA_LOW
        } else {
            TILE_DATA_HIGH
        };
        let tile_addr: u16 = base + 16 * (tile_id as u16);
        let mut sprite: [u8; 16] = [0u8; 16];
        let mut x: usize = 0;
        while x < 16
            invariant
                x <= 16,
                RamMemory::covers_bus(ram@),
                tile_addr == PPU::tile_base(ram@) + TILE_BYTES * tile_id,
                tile_addr <= 0x97F0,
                forall|j: int| 0 <= j < x ==> sprite@[j] == ram@[tile_addr + j],
            decreases 16 - x,
        {
            sprite[x] = ram.get_addr(tile_addr + x as u16);
            x += 1;
        }
        assert(sprite@ =~= PPU::tile_bytes(ram@, tile_id));
        sprite
    }

    /// Turns the bytes of a tile into its 64 pixels, rows first.
    pub fn sprite_to_bitmap(sprite: [u8; 16]) -> (bitmap: [u32; 64])
        ensures
            forall|i: int| 0 <= i < TILE_PIXELS ==> bitmap@[i] == bitmap_pixel(sprite@, i),
    {
        let mut bitmap: [u32; 64] = [COLOR_WHITE; 64];
        let mut counter: usize = 0;
        while counter < 64
            invariant
                counter <= 64,
                forall|i: int| 0 <= i < counter ==> bitmap@[i] == bitmap_pixel(sprite@, i),
            decreases 64 - counter,
        {
            let row = counter / 8;
            let bit: u8 = (7 - counter % 8) as u8;
            let first = sprite[2 * row];
            let second = sprite[2 * row + 1];
            let color_code: u8 = if bit_check(first, bit) {
                if bit_check(second, bit) {
                    3
                } else {
                    1
                }
            } else {
                if bit_check(second, bit) {
                    2
                } else {
                    0
                }
            };
            bitmap[counter] = PPU::get_color_by_color_pallete(color_code);
            counter += 1;
        }
        bitmap
    }

    /// Copies the pixels of a tile into the frame, the tile's first pixel
    /// at column `x` of row `y`. The tile's last pixel must lie inside the
    /// frame.
    pub fn draw_sprite_bitmap_in_buffer(&mut self, sprite: [u32; 64], x: usize, y: usize)
        requires
            fits(x as int, y as int),
        ensures
            old(self)@.wf(),
            final(self)@.wf(),
            final(self)@.frame == drawn(old(self)@.frame, sprite@, x as int, y as int),
            final(self)@.pending == old(self)@.pending,
    {
        proof {
            use_type_invariant(&*self);
        }
        let ghost before = self.buffer@;
        let mut k: usize = 0;
        while k < 64
            invariant
                k <= 64,
                fits(x as int, y as int),
                before.len() == SCREEN_PIXELS,
                self.buffer@.len() == SCREEN_PIXELS,
                self.pending == old(self).pending,
                forall|i: int|
                    0 <= i < SCREEN_PIXELS ==> #[trigger] self.buffer@[i] == if covers(
                        x as int,
                        y as int,
                        i,
                    ) && tile_pixel(x as int, y as int, i) < k {
                        sprite@[tile_pixel(x as int, y as int, i)]
                    } else {
                        before[i]
                    },
            decreases 64 - k,
        {
            let pixel_index = (y + k / 8) * 256 + x + k % 8;
            let ghost earlier = self.buffer@;
            self.buffer[pixel_index] = sprite[k];
            k += 1;
            proof {
                assert forall|i: int| 0 <= i < SCREEN_PIXELS implies #[trigger] self.buffer@[i]
                    == if covers(x as int, y as int, i) && tile_pixel(x as int, y as int, i) < k {
                    sprite@[tile_pixel(x as int, y as int, i)]
                } else {
                    before[i]
                } by {
                    lemma_pixel_of_tile(x as int, y as int, k - 1, i);
                    if i != pixel_index {
                        assert(self.buffer@[i] == earlier[i]);
                    }
                }
            }
        }
        assert forall|i: int| 0 <= i < SCREEN_PIXELS implies #[trigger] self.buffer@[i] == drawn(
            before,
            sprite@,
            x as int,
            y as int,
        )[i] by {
            lemma_pixel_of_tile(x as int, y as int, 0, i);
        }
        assert(self.buffer@ =~= drawn(before, sprite@, x as int, y as int));
    }

    /// Draws a tile, given by its bytes, into the frame.
    pub fn draw_sprite_in_buffer(&mut self, sprite: [u8; 16], x: u8, y: u8)
        requires
            fits(x as int, y as int),
        ensures
            old(self)@.wf(),
            final(self)@.wf(),
            final(self)@.pending == old(self)@.pending,
            final(self)@.frame.len() == old(self)@.frame.len(),
            forall|i: int|
                0 <= i < SCREEN_PIXELS ==> final(self)@.frame[i] == if covers(
                    x as int,
                    y as int,
                    i,
                ) {
                    bitmap_pixel(sprite@, tile_pixel(x as int, y as int, i))
                } else {
                    old(self)@.frame[i]
                },
    {
        proof {
            use_type_invariant(&*self);
        }
        let sprite_bitmap = PPU::sprite_to_bitmap(sprite);
        self.draw_sprite_bitmap_in_buffer(sprite_bitmap, x as usize, y as usize);
        proof {
            assert forall|i: int| 0 <= i < SCREEN_PIXELS && covers(
                x as int,
                y as int,
                i,
            ) implies 0 <= tile_pixel(x as int, y as int, i) < 64 by {
                lemma_pixel_of_tile(x as int, y as int, 0, i);
            }
        }
    }

    /// Composes a frame where the display is switched on: the 256 tiles of
    /// video memory are laid out on the sheet, and the frame is due to the
    /// host. A display that is switched off composes nothing.
    pub fn render(&mut self, ram: &RamMemory)
        ensures
            old(self)@.wf(),
            final(self)@.wf(),
            RamMemory::covers_bus(ram@),
            final(self)@ == if PPU::enabled(ram@) {
                PpuView {
                    frame: PPU::sheet(old(self)@.frame, ram@, 256),
                    pending: DisplayAction::Frame,
                }
            } else {
                old(self)@
            },
    {
        proof {
            use_type_invariant(&*self);
        }
        let _ = ram.len();
        if !self.is_enabled(ram) {
            return ;
        }
        let ghost before = self.buffer@;
        let mut sprite_id: usize = 0;
        while sprite_id < 256
            invariant
                sprite_id <= 256,
                before.len() == SCREEN_PIXELS,
                self@.wf(),
                self@.pending == old(self)@.pending,
                self@.frame == PPU::sheet(before, ram@, sprite_id as int),
            decreases 256 - sprite_id,
        {
            let sprite = self.get_sprite_tile(ram, sprite_id as u8);
            let x_pos: u8 = ((sprite_id % 32) * 8) as u8;
            let y_pos: u8 = ((sprite_id / 32) * 8) as u8;
            self.draw_sprite_in_buffer(sprite, x_pos, y_pos);
            proof {
                assert forall|i: int| 0 <= i < SCREEN_PIXELS implies (covers(
                    x_pos as int,
                    y_pos as int,
                    i,
                ) == (i < SHEET_PIXELS && tile_at(i) == sprite_id)) && (covers(
                    x_pos as int,
                    y_pos as int,
                    i,
                ) ==> tile_pixel(x_pos as int, y_pos as int, i) == (i / 256) % 8 * 8 + (i % 256)
                    % 8) by {
                    lemma_tile_within_row(x_pos as int, y_pos as int, i);
                }
                assert(self@.frame =~= PPU::sheet(before, ram@, sprite_id + 1));
            }
            sprite_id += 1;
        }
        assert(self@.frame == PPU::sheet(before, ram@, 256));
        self.pending = DisplayAction::Frame;
    }

    /// Hands over what is due to the host, and owes nothing afterwards.
    pub fn take_pending(&mut self) -> (action: DisplayAction)
        ensures
            old(self)@.wf(),
            action == old(self)@.pending,
            final(self)@.pending == DisplayAction::Idle,
            final(self)@.frame == old(self)@.frame,
    {
        proof {
            use_type_invariant(&*self);
        }
        let action = self.pending;
        self.pending = DisplayAction::Idle;
        action
    }

    /// The frame composed last.
    pub fn get_buffer(&self) -> (buffer: &Vec<u32>)
        ensures
            buffer@ == self@.frame,
            self@.wf(),
    {
        proof {
            use_type_invariant(self);
        }
        &self.buffer
    }
}

} // verus!
