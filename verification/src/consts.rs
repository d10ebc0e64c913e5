//! Constants of the machine and the bit helpers shared by its components.

use vstd::prelude::*;

verus! {

pub const SCREEN_WIDTH: usize = 256;

pub const SCREEN_HEIGHT: usize = 256;

/// Number of pixels of one frame.
pub const SCREEN_PIXELS: usize = 65536;

// Address ranges of the bus, each named by its first address.
pub const RAM_ECHO_RANGE_START: u16 = 0xE000;

pub const RAM_SPRITE_ATTRIBUTE_TABLE_RANGE_START: u16 = 0xFE00;

pub const RAM_IO_PORTS_RANGE_START: u16 = 0xFF00;

pub const RAM_EMPTY_RANGE_START: u16 = 0xFF4C;

pub const RAM_INTERNAL_RANGE_START: u16 = 0xFF80;

/// Distance between an echo address and the cell it aliases.
pub const RAM_ECHO_OFFSET: u16 = 0x2000;

/// Number of cells the primary store holds at least: one per bus address.
pub const RAM_SIZE: usize = 0x10000;

pub const CARTRIDGE_ROM_SIZE_DEFAULT: usize = 0x8000;

// Masks of the four flags inside register F.
pub const FLAG_ZERO_MASK: u8 = 0x80;

pub const FLAG_SUB_MASK: u8 = 0x40;

pub const FLAG_HALF_CARRY_MASK: u8 = 0x20;

pub const FLAG_CARRY_MASK: u8 = 0x10;

// Cartridge header codes this machine accepts.
pub const CARTRIDGE_TYPE_ROM_ONLY: u8 = 0x00;

pub const CARTRIDGE_ROM_SIZE_NO_BANKS: u8 = 0x00;

pub const CARTRIDGE_RAM_SIZE_NONE: u8 = 0x00;

// Display registers.
pub const PPU_LCD_RANGE_START: u16 = 0xFF40;

pub const PPU_LCD_RANGE_END: u16 = 0xFF4B;

pub const PPU_ADDR_LCD_CONTROL: u16 = 0xFF40;

pub const PPU_ADDR_SCANLINE: u16 = 0xFF44;

/// What the scanline register reads back: the display is always idle.
pub const PPU_SCANLINE_IDLE: u8 = 0x90;

pub const PPU_LCD_CONTROL_BIT_ENABLE: u8 = 7;

pub const PPU_LCD_CONTROL_BIT_WINDOW_TILE_MAP_AREA: u8 = 6;

pub const PPU_LCD_CONTROL_BIT_WINDOW_ENABLE: u8 = 5;

pub const PPU_LCD_CONTROL_BIT_BG_AND_WINDOW_TILE_DATA_AREA: u8 = 4;

pub const PPU_LCD_CONTROL_BIT_BG_TILE_MAP_AREA: u8 = 3;

pub const PPU_LCD_CONTROL_BIT_OBJ_SIZE: u8 = 2;

pub const PPU_LCD_CONTROL_BIT_OBJ_ENABLE: u8 = 1;

pub const PPU_LCD_CONTROL_BIT_BG_AND_WINDOW_PRIORITY: u8 = 0;

pub const PPU_OAM_ADDR: u16 = 0xFE00;

// Colours of the four-shade palette, lightest first.
pub const COLOR_WHITE: u32 = 0x00ffffff;

pub const COLOR_LIGHT_GREY: u32 = 0x00aaaaaa;

pub const COLOR_DARK_GREY: u32 = 0x00555555;

pub const COLOR_BLACK: u32 = 0x00000000;

/// Bit `bit` of `value`, counted from the least significant one.
pub open spec fn bit_is_set(value: u8, bit: u8) -> bool {
    (value >> bit) & 1 == 1
}

/// Whether bit `bit` of `value` is set.
pub fn bit_check(value: u8, bit: u8) -> (set: bool)
    requires
        bit < 8,
    ensures
        set == bit_is_set(value, bit),
{
    let bit_mask: u8 = 0x01 << bit;
    assert((value & (1u8 << bit) == (1u8 << bit)) == ((value >> bit) & 1 == 1)) by (bit_vector)
        requires
            bit < 8,
    ;
    value & bit_mask == bit_mask
}

/// `value` with bit `bit` set and every other bit as it was.
pub fn bit_enable(value: u8, bit: u8) -> (r: u8)
    requires
        bit < 8,
    ensures
        forall|i: u8| i < 8 ==> #[trigger] bit_is_set(r, i) == (i == bit || bit_is_set(value, i)),
{
    let bit_mask: u8 = 0x01 << bit;
    assert forall|i: u8| i < 8 implies #[trigger] bit_is_set(value | (1u8 << bit), i) == (i == bit
        || bit_is_set(value, i)) by {
        assert((((value | (1u8 << bit)) >> i) & 1 == 1) == (i == bit || ((value >> i) & 1 == 1)))
            by (bit_vector)
            requires
                bit < 8,
                i < 8,
        ;
    }
    value | bit_mask
}

/// `value` with bit `bit` cleared and every other bit as it was.
pub fn bit_disable(value: u8, bit: u8) -> (r: u8)
    requires
        bit < 8,
    ensures
        forall|i: u8| i < 8 ==> #[trigger] bit_is_set(r, i) == (i != bit && bit_is_set(value, i)),
{
    let bit_mask: u8 = !(0x01u8 << bit);
    assert forall|i: u8| i < 8 implies #[trigger] bit_is_set(value & !(1u8 << bit), i) == (i != bit
        && bit_is_set(value, i)) by {
        assert((((value & !(1u8 << bit)) >> i) & 1 == 1) == (i != bit && ((value >> i) & 1 == 1)))
            by (bit_vector)
            requires
                bit < 8,
                i < 8,
        ;
    }
    value & bit_mask
}

/// `value` with bit `bit_index` made equal to `bit` and every other bit as it was.
pub fn bit_set(value: u8, bit_index: u8, bit: bool) -> (r: u8)
    requires
        bit_index < 8,
    ensures
        forall|i: u8|
            i < 8 ==> #[trigger] bit_is_set(r, i) == (if i == bit_index {
                bit
            } else {
                bit_is_set(value, i)
            }),
{
    if bit {
        bit_enable(value, bit_index)
    } else {
        bit_disable(value, bit_index)
    }
}

/// A frame in which every pixel is white.
pub fn get_empty_screen_buffer() -> (buffer: Vec<u32>)
    ensures
        buffer@ == Seq::new(SCREEN_PIXELS as nat, |i: int| COLOR_WHITE),
{
    let buffer: Vec<u32> = vec![COLOR_WHITE; SCREEN_PIXELS];
    assert(buffer@ =~= Seq::new(SCREEN_PIXELS as nat, |i: int| COLOR_WHITE));
    buffer
}

} // verus!
