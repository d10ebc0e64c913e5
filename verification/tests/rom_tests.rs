use gbemulator::ram_memory::RamMemory;
use gbemulator::rom_parser::Rom;

/// An image with the header of a small homebrew cartridge.
fn bully_like_image() -> Vec<u8> {
    let mut image = vec![0u8; 0x8000];
    for (i, b) in b"BULLYGB".iter().enumerate() {
        image[0x134 + i] = *b;
    }
    image[0x143] = 0x80;
    image[0x144] = 0x30;
    image[0x145] = 0x31;
    image[0x146] = 0x03;
    image[0x14A] = 0x01;
    image[0x14B] = 0x33;
    image[0x14C] = 0x02;
    image[0x14D] = 0x5A;
    image[0x14E] = 0x12;
    image[0x14F] = 0x34;
    image
}

#[test]
fn create_rom_file() {
    let _: Rom = Rom::create_from_bytes(bully_like_image());
}

#[test]
fn validate_rom_values() {
    let test_rom: Rom = Rom::create_from_bytes(bully_like_image());

    assert_eq!(test_rom.title(), "BULLYGB");
    assert_eq!(test_rom.manufacturer_code(), [0, 0, 0, 0]);
    assert_eq!(test_rom.cgb_flag(), 0x80);
}

#[test]
fn test_ram_memory() {
    let rom: Rom = Rom::create_from_bytes(bully_like_image());
    let ram: RamMemory = RamMemory::init_from_rom(&rom);

    assert_eq!(ram.get_addr(0x0147), 0x00); // Cartridge Type
    assert_eq!(ram.get_addr(0x0143), 0x80); // CGB Flag
    assert_eq!(ram.get_addr(0x0134), 0x42); // First char of title (uppercase B)
}

#[test]
fn every_header_field_is_read_from_its_place() {
    let rom = Rom::create_from_bytes(bully_like_image());
    assert_eq!(rom.new_license_code(), [0x30, 0x31]);
    assert_eq!(rom.sgb_flag(), 0x03);
    assert_eq!(rom.cartridge_type(), 0x00);
    assert_eq!(rom.destination_code(), 0x01);
    assert_eq!(rom.old_license_code(), 0x33);
    assert_eq!(rom.mask_rom_version_number(), 0x02);
    assert_eq!(rom.header_checksum(), 0x5A);
    assert_eq!(rom.global_checksum(), 0x1234);
    assert_eq!(rom.data(), &bully_like_image());
}

#[test]
fn the_manufacturer_code_overlaps_the_title() {
    let mut image = bully_like_image();
    for (i, b) in b"ABCDEFGHIJKLMNO".iter().enumerate() {
        image[0x134 + i] = *b;
    }
    let rom = Rom::create_from_bytes(image);
    assert_eq!(rom.manufacturer_code(), [b'L', b'M', b'N', b'O']);
    assert_eq!(rom.title(), "ABCDEFGHIJKLMNO\u{80}");
}

#[test]
fn a_title_without_terminator_has_sixteen_characters() {
    let mut image = bully_like_image();
    for i in 0..16 {
        image[0x134 + i] = b'A' + i as u8;
    }
    image[0x144] = b'Z';
    let rom = Rom::create_from_bytes(image);
    assert_eq!(rom.title(), "ABCDEFGHIJKLMNOP");
}

#[test]
fn a_title_stops_at_the_first_zero_byte() {
    let mut image = bully_like_image();
    image[0x134] = b'A';
    image[0x135] = 0;
    image[0x136] = b'B';
    let rom = Rom::create_from_bytes(image);
    assert_eq!(rom.title(), "A");

    let mut empty = bully_like_image();
    empty[0x134] = 0;
    assert_eq!(Rom::create_from_bytes(empty).title(), "");
}

#[test]
fn title_bytes_are_characters_by_their_code() {
    let mut image = bully_like_image();
    image[0x134] = 0xE9;
    image[0x135] = 0x7E;
    image[0x136] = 0;
    let rom = Rom::create_from_bytes(image);
    assert_eq!(rom.title(), "\u{e9}~");
}

#[test]
fn unsupported_images_are_told_apart() {
    assert!(Rom::is_supported(&bully_like_image()));
    assert!(Rom::is_supported(&vec![0u8; 0x150]));
    assert!(!Rom::is_supported(&vec![0u8; 0x14F]));
    assert!(!Rom::is_supported(&Vec::new()));
    for place in [0x147, 0x148, 0x149] {
        let mut image = bully_like_image();
        image[place] = 0x01;
        assert!(!Rom::is_supported(&image));
    }
}

#[test]
fn the_store_is_the_image_padded_with_zeroes() {
    let mut image = vec![0u8; 0x150];
    image[0x100] = 0xAB;
    image[0x14F] = 0xCD;
    let rom = Rom::create_from_bytes(image);
    let ram = RamMemory::init_from_rom(&rom);
    assert_eq!(ram.len(), 0x10000);
    assert_eq!(ram.get_addr(0x0100), 0xAB);
    assert_eq!(ram.get_addr(0x014F), 0xCD);
    assert_eq!(ram.get_addr(0x0150), 0x00);
    assert_eq!(ram.get_addr(0x8000), 0x00);
    assert_eq!(ram.get_addr(0xFFFF), 0x00);
}

#[test]
fn a_long_image_is_kept_whole() {
    let mut image = vec![0u8; 0x10008];
    image[0xFFFF] = 0x11;
    image[0x10007] = 0x22;
    let rom = Rom::create_from_bytes(image);
    let ram = RamMemory::init_from_rom(&rom);
    assert_eq!(ram.len(), 0x10008);
    assert_eq!(ram.get_addr(0xFFFF), 0x11);
}

#[test]
fn a_cell_holds_what_was_written_to_it() {
    let rom = Rom::create_from_bytes(vec![0u8; 0x8000]);
    let mut ram = RamMemory::init_from_rom(&rom);
    ram.set_addr(0x0000, 0x01);
    ram.set_addr(0xC123, 0x42);
    ram.set_addr(0xFFFF, 0xFF);
    assert_eq!(ram.get_addr(0x0000), 0x01);
    assert_eq!(ram.get_addr(0xC123), 0x42);
    assert_eq!(ram.get_addr(0xFFFF), 0xFF);
    assert_eq!(ram.get_addr(0xC122), 0x00);
    assert_eq!(ram.get_addr(0xC124), 0x00);
    assert_eq!(ram.get_addr(0xE123), 0x00);
}
