use gbemulator::consts::{COLOR_BLACK, COLOR_DARK_GREY, COLOR_LIGHT_GREY, COLOR_WHITE};
use gbemulator::cpu::CPU;
use gbemulator::ppu::{DisplayAction, PpuConfig, PPU};
use gbemulator::ram_memory::RamMemory;
use gbemulator::rom_parser::Rom;

fn blank_ram() -> RamMemory {
    let rom = Rom::create_from_bytes(vec![0u8; 0x8000]);
    RamMemory::init_from_rom(&rom)
}

#[test]
fn a_new_display_holds_a_white_frame_and_owes_a_blank_screen() {
    let mut ppu = PPU::init();
    assert_eq!(ppu.get_buffer().len(), 256 * 256);
    assert!(ppu.get_buffer().iter().all(|p| *p == COLOR_WHITE));
    assert_eq!(ppu.take_pending(), DisplayAction::Blank);
    assert_eq!(ppu.take_pending(), DisplayAction::Idle);
}

#[test]
fn the_palette_has_four_shades() {
    assert_eq!(PPU::get_color_by_color_pallete(0), COLOR_WHITE);
    assert_eq!(PPU::get_color_by_color_pallete(1), COLOR_LIGHT_GREY);
    assert_eq!(PPU::get_color_by_color_pallete(2), COLOR_DARK_GREY);
    assert_eq!(PPU::get_color_by_color_pallete(3), COLOR_BLACK);
    assert_eq!(COLOR_LIGHT_GREY, 0x00aa_aaaa);
    assert_eq!(COLOR_DARK_GREY, 0x0055_5555);
    assert_eq!(COLOR_BLACK, 0x0000_0000);
}

#[test]
fn registers_read_through_the_display() {
    let mut ram = blank_ram();
    let mut ppu = PPU::init();
    ppu.set_addr(&mut ram, 0xFF42, 0x17);
    assert_eq!(ppu.get_addr(&ram, 0xFF42), 0x17);
    assert_eq!(ram.get_addr(0xFF42), 0x17);
    ppu.set_addr(&mut ram, 0xFF44, 0x17);
    assert_eq!(ppu.get_addr(&ram, 0xFF44), 0x90);
    assert_eq!(ram.get_addr(0xFF44), 0x17);
    assert_eq!(PPU::lcd_control_get_handler(0xFF44), Some(0x90));
    assert_eq!(PPU::lcd_control_get_handler(0xFF40), None);
    assert_eq!(PPU::lcd_control_get_handler(0xFF45), None);
}

#[test]
fn switches_are_bits_of_the_control_register() {
    assert_eq!(PPU::get_addr_and_bit(PpuConfig::IsEnabled), (0xFF40, 7));
    assert_eq!(PPU::get_addr_and_bit(PpuConfig::WindowTileMap), (0xFF40, 6));
    assert_eq!(PPU::get_addr_and_bit(PpuConfig::BgWindowDataArea), (0xFF40, 4));
    assert_eq!(PPU::get_addr_and_bit(PpuConfig::BgTileMap), (0xFF40, 3));
    let mut ram = blank_ram();
    let ppu = PPU::init();
    assert!(!ppu.is_enabled(&ram));
    ram.set_addr(0xFF40, 0b1001_0000);
    assert!(ppu.is_enabled(&ram));
    assert!(ppu.get_ppu_config(&ram, PpuConfig::IsEnabled));
    assert!(!ppu.get_ppu_config(&ram, PpuConfig::WindowTileMap));
    assert!(ppu.get_ppu_config(&ram, PpuConfig::BgWindowDataArea));
    assert!(!ppu.get_ppu_config(&ram, PpuConfig::BgTileMap));
}

#[test]
fn tiles_are_read_from_the_area_that_the_switch_selects() {
    let mut ram = blank_ram();
    for i in 0..16u16 {
        ram.set_addr(0x8000 + 16 * 3 + i, 0x10 + i as u8);
        ram.set_addr(0x8800 + 16 * 3 + i, 0x20 + i as u8);
        ram.set_addr(0x8800 + 16 * 255 + i, 0x30 + i as u8);
    }
    let ppu = PPU::init();
    let high: Vec<u8> = (0..16).map(|i| 0x20 + i as u8).collect();
    assert_eq!(ppu.get_sprite_tile(&ram, 3).to_vec(), high);
    let last: Vec<u8> = (0..16).map(|i| 0x30 + i as u8).collect();
    assert_eq!(ppu.get_sprite_tile(&ram, 255).to_vec(), last);
    ram.set_addr(0xFF40, 0x10);
    let low: Vec<u8> = (0..16).map(|i| 0x10 + i as u8).collect();
    assert_eq!(ppu.get_sprite_tile(&ram, 3).to_vec(), low);
}

#[test]
fn a_tile_row_takes_its_low_bits_from_the_first_byte() {
    let mut sprite = [0u8; 16];
    sprite[0] = 0b1100_0001;
    sprite[1] = 0b1010_0001;
    sprite[14] = 0xFF;
    sprite[15] = 0x00;
    let bitmap = PPU::sprite_to_bitmap(sprite);
    assert_eq!(bitmap[0], COLOR_BLACK);
    assert_eq!(bitmap[1], COLOR_LIGHT_GREY);
    assert_eq!(bitmap[2], COLOR_DARK_GREY);
    assert_eq!(bitmap[3], COLOR_WHITE);
    assert_eq!(bitmap[6], COLOR_WHITE);
    assert_eq!(bitmap[7], COLOR_BLACK);
    for i in 8..56 {
        assert_eq!(bitmap[i], COLOR_WHITE);
    }
    for i in 56..64 {
        assert_eq!(bitmap[i], COLOR_LIGHT_GREY);
    }
}

#[test]
fn a_tile_is_drawn_where_it_is_put() {
    let mut ppu = PPU::init();
    let mut bitmap = [0u32; 64];
    for i in 0..64 {
        bitmap[i] = 0x1000 + i as u32;
    }
    ppu.draw_sprite_bitmap_in_buffer(bitmap, 16, 8);
    let frame = ppu.get_buffer();
    for row in 0..8usize {
        for col in 0..8usize {
            assert_eq!(frame[(8 + row) * 256 + 16 + col], 0x1000 + (row * 8 + col) as u32);
        }
    }
    assert_eq!(frame[8 * 256 + 15], COLOR_WHITE);
    assert_eq!(frame[8 * 256 + 24], COLOR_WHITE);
    assert_eq!(frame[7 * 256 + 16], COLOR_WHITE);
    assert_eq!(frame[16 * 256 + 16], COLOR_WHITE);
    let changed = frame.iter().filter(|p| **p != COLOR_WHITE).count();
    assert_eq!(changed, 64);
}

#[test]
fn a_tile_fits_in_the_last_corner() {
    let mut ppu = PPU::init();
    let mut sprite = [0u8; 16];
    for i in 0..16 {
        sprite[i] = 0xFF;
    }
    ppu.draw_sprite_in_buffer(sprite, 248, 248);
    let frame = ppu.get_buffer();
    assert_eq!(frame[65535], COLOR_BLACK);
    assert_eq!(frame[248 * 256 + 248], COLOR_BLACK);
    assert_eq!(frame[248 * 256 + 247], COLOR_WHITE);
    assert_eq!(frame.iter().filter(|p| **p == COLOR_BLACK).count(), 64);
}

#[test]
fn a_display_that_is_off_composes_nothing() {
    let mut ram = blank_ram();
    for i in 0..16u16 {
        ram.set_addr(0x8800 + i, 0xFF);
    }
    let mut ppu = PPU::init();
    let _ = ppu.take_pending();
    ppu.render(&ram);
    assert_eq!(ppu.take_pending(), DisplayAction::Idle);
    assert!(ppu.get_buffer().iter().all(|p| *p == COLOR_WHITE));
}

#[test]
fn a_running_display_lays_the_tiles_out_32_to_a_row() {
    let mut ram = blank_ram();
    ram.set_addr(0xFF40, 0x90);
    // tile 0: every pixel black; tile 33: top left pixel light grey;
    // tile 255: bottom right pixel dark grey
    for i in 0..16u16 {
        ram.set_addr(0x8000 + i, 0xFF);
    }
    ram.set_addr(0x8000 + 16 * 33, 0x80);
    ram.set_addr(0x8000 + 16 * 255 + 15, 0x01);
    let mut ppu = PPU::init();
    let _ = ppu.take_pending();
    ppu.render(&ram);
    assert_eq!(ppu.take_pending(), DisplayAction::Frame);
    let frame = ppu.get_buffer();
    for row in 0..8usize {
        for col in 0..8usize {
            assert_eq!(frame[row * 256 + col], COLOR_BLACK);
        }
    }
    assert_eq!(frame[8], COLOR_WHITE);
    assert_eq!(frame[8 * 256], COLOR_WHITE);
    assert_eq!(frame[8 * 256 + 8], COLOR_LIGHT_GREY);
    assert_eq!(frame[8 * 256 + 9], COLOR_WHITE);
    assert_eq!(frame[63 * 256 + 255], COLOR_DARK_GREY);
    assert_eq!(frame[64 * 256], COLOR_WHITE);
    let coloured = frame.iter().filter(|p| **p != COLOR_WHITE).count();
    assert_eq!(coloured, 66);
}

#[test]
fn composing_leaves_the_rest_of_the_frame() {
    let mut ram = blank_ram();
    ram.set_addr(0xFF40, 0x80);
    let mut ppu = PPU::init();
    let marker = [0x00ab_cdefu32; 64];
    ppu.draw_sprite_bitmap_in_buffer(marker, 0, 64);
    ppu.draw_sprite_bitmap_in_buffer(marker, 0, 0);
    ppu.render(&ram);
    let frame = ppu.get_buffer();
    assert_eq!(frame[0], COLOR_WHITE);
    assert_eq!(frame[64 * 256], 0x00ab_cdef);
    assert_eq!(frame[71 * 256 + 7], 0x00ab_cdef);
}

#[test]
fn the_processor_lets_its_display_compose() {
    let mut ram = blank_ram();
    ram.set_addr(0xFF40, 0x80);
    ram.set_addr(0x8800, 0x80);
    ram.set_addr(0x8801, 0x80);
    let mut cpu = CPU::init_with_ram_ppu(ram, PPU::init(), false);
    let _ = cpu.take_display_action();
    cpu.render();
    assert_eq!(cpu.get_frame()[0], COLOR_BLACK);
    assert_eq!(cpu.get_frame()[1], COLOR_WHITE);
    assert_eq!(cpu.take_display_action(), DisplayAction::Frame);
    assert_eq!(cpu.take_display_action(), DisplayAction::Idle);
}

#[test]
fn a_switch_is_written_one_bit_below_where_it_is_read() {
    let mut ram = blank_ram();
    let mut ppu = PPU::init();
    let _ = ppu.take_pending();
    ppu.set_ppu_config(&mut ram, PpuConfig::IsEnabled, true);
    assert_eq!(ram.get_addr(0xFF40), 0b0100_0000);
    ppu.set_ppu_config(&mut ram, PpuConfig::BgWindowDataArea, true);
    assert_eq!(ram.get_addr(0xFF40), 0b0100_1000);
    ppu.set_ppu_config(&mut ram, PpuConfig::BgTileMap, true);
    assert_eq!(ram.get_addr(0xFF40), 0b0100_1100);
    ppu.set_ppu_config(&mut ram, PpuConfig::WindowTileMap, true);
    assert_eq!(ram.get_addr(0xFF40), 0b0110_1100);
    ppu.set_ppu_config(&mut ram, PpuConfig::IsEnabled, false);
    assert_eq!(ram.get_addr(0xFF40), 0b0010_1100);
    assert_eq!(ppu.take_pending(), DisplayAction::Idle);

    ram.set_addr(0xFF40, 0xFF);
    ppu.set_ppu_config(&mut ram, PpuConfig::BgTileMap, false);
    assert_eq!(ram.get_addr(0xFF40), 0b1111_1011);
    assert_eq!(ppu.take_pending(), DisplayAction::Idle);
    ppu.set_ppu_config(&mut ram, PpuConfig::IsEnabled, false);
    assert_eq!(ram.get_addr(0xFF40), 0b1011_1011);
    assert!(ppu.is_enabled(&ram));
}

#[test]
fn a_tile_row_runs_on_into_the_next_row_of_the_frame() {
    let mut ppu = PPU::init();
    let mut bitmap = [0u32; 64];
    for i in 0..64 {
        bitmap[i] = 0x2000 + i as u32;
    }
    ppu.draw_sprite_bitmap_in_buffer(bitmap, 252, 0);
    let frame = ppu.get_buffer();
    for row in 0..8usize {
        for col in 0..8usize {
            assert_eq!(frame[row * 256 + 252 + col], 0x2000 + (row * 8 + col) as u32);
        }
    }
    assert_eq!(frame[252], 0x2000);
    assert_eq!(frame[255], 0x2003);
    assert_eq!(frame[256], 0x2004);
    assert_eq!(frame[259], 0x2007);
    assert_eq!(frame[260], COLOR_WHITE);
    assert_eq!(frame[251], COLOR_WHITE);
    assert_eq!(frame.iter().filter(|p| **p != COLOR_WHITE).count(), 64);
}

#[test]
fn a_tile_can_end_on_the_last_pixel_of_the_frame() {
    let mut ppu = PPU::init();
    let sprite = [0xFFu8; 16];
    ppu.draw_sprite_in_buffer(sprite, 248, 248);
    assert_eq!(ppu.get_buffer()[65535], COLOR_BLACK);
    let mut ppu = PPU::init();
    ppu.draw_sprite_in_buffer(sprite, 255, 247);
    let frame = ppu.get_buffer();
    assert_eq!(frame[247 * 256 + 255], COLOR_BLACK);
    assert_eq!(frame[254 * 256 + 255 + 7], COLOR_BLACK);
    assert_eq!(frame[254 * 256 + 255 + 8], COLOR_WHITE);
    assert_eq!(frame.iter().filter(|p| **p == COLOR_BLACK).count(), 64);
}
