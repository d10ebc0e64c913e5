//! The cartridge image and the fields of its header.

use vstd::prelude::*;
use crate::consts::{CARTRIDGE_RAM_SIZE_NONE, CARTRIDGE_ROM_SIZE_NO_BANKS, CARTRIDGE_TYPE_ROM_ONLY};

verus! {

/// First byte of the title field.
pub const HEADER_TITLE_START: usize = 0x134;

/// First byte after the title field.
pub const HEADER_TITLE_END: usize = 0x144;

/// First byte after the header.
pub const HEADER_END: usize = 0x150;

/// A cartridge image with the fields of its header read out.
pub struct Rom {
    title: String,
    manufacturer_code: [u8; 4],
    cgb_flag: u8,
    new_license_code: [u8; 2],
    sgb_flag: u8,
    cartridge_type: u8,
    rom_size: u8,
    ram_size: u8,
    destination_code: u8,
    old_license_code: u8,
    mask_rom_version_number: u8,
    header_checksum: u8,
    global_checksum: u16,
    data: Vec<u8>,
}

/// What a `Rom` holds.
pub ghost struct RomView {
    pub title: Seq<char>,
    pub manufacturer_code: Seq<u8>,
    pub cgb_flag: u8,
    pub new_license_code: Seq<u8>,
    pub sgb_flag: u8,
    pub cartridge_type: u8,
    pub rom_size: u8,
    pub ram_size: u8,
    pub destination_code: u8,
    pub old_license_code: u8,
    pub mask_rom_version_number: u8,
    pub header_checksum: u8,
    pub global_checksum: u16,
    pub data: Seq<u8>,
}

/// The characters of `bytes[from..to]` up to the first zero byte, each byte
/// taken as the character with that code.
pub open spec fn text_until_nul(bytes: Seq<u8>, from: int, to: int) -> Seq<char>
    decreases to - from,
{
    if from >= to || bytes[from] == 0 {
        Seq::empty()
    } else {
        seq![bytes[from] as char] + text_until_nul(bytes, from + 1, to)
    }
}

impl View for Rom {
    type V = RomView;

    closed spec fn view(&self) -> RomView {
        RomView {
            title: self.title@,
            manufacturer_code: self.manufacturer_code@,
            cgb_flag: self.cgb_flag,
            new_license_code: self.new_license_code@,
            sgb_flag: self.sgb_flag,
            cartridge_type: self.cartridge_type,
            rom_size: self.rom_size,
            ram_size: self.ram_size,
            destination_code: self.destination_code,
            old_license_code: self.old_license_code,
            mask_rom_version_number: self.mask_rom_version_number,
            header_checksum: self.header_checksum,
            global_checksum: self.global_checksum,
            data: self.data@,
        }
    }
}

impl Rom {
    /// An image this machine can run: it holds a whole header, and the
    /// header names a cartridge without banks and without memory of its own.
    pub open spec fn supported(image: Seq<u8>) -> bool {
        &&& image.len() >= HEADER_END
        &&& image[0x147] == CARTRIDGE_TYPE_ROM_ONLY
        &&& image[0x148] == CARTRIDGE_ROM_SIZE_NO_BANKS
        &&& image[0x149] == CARTRIDGE_RAM_SIZE_NONE
    }

    /// The header fields as they lie in an image.
    pub open spec fn parse(image: Seq<u8>) -> RomView {
        RomView {
            title: text_until_nul(image, HEADER_TITLE_START as int, HEADER_TITLE_END as int),
            manufacturer_code: image.subrange(0x13F, 0x143),
            cgb_flag: image[0x143],
            new_license_code: image.subrange(0x144, 0x146),
            sgb_flag: image[0x146],
            cartridge_type: image[0x147],
            rom_size: image[0x148],
            ram_size: image[0x149],
            destination_code: image[0x14A],
            old_license_code: image[0x14B],
            mask_rom_version_number: image[0x14C],
            header_checksum: image[0x14D],
            global_checksum: (image[0x14E] * 256 + image[0x14F]) as u16,
            data: image,
        }
    }

    /// Whether `create_from_bytes` takes this image.
    pub fn is_supported(rom_content: &Vec<u8>) -> (ok: bool)
        ensures
            ok == Rom::supported(rom_content@),
    {
        rom_content.len() >= HEADER_END && rom_content[0x147] == CARTRIDGE_TYPE_ROM_ONLY
            && rom_content[0x148] == CARTRIDGE_ROM_SIZE_NO_BANKS && rom_content[0x149]
            == CARTRIDGE_RAM_SIZE_NONE
    }

    /// Reads the header fields out of a cartridge image and keeps the image.
    pub fn create_from_bytes(rom_content: Vec<u8>) -> (rom: Rom)
        requires
            Rom::supported(rom_content@),
        ensures
            rom@ == Rom::parse(rom_content@),
    {
        let mut title = String::new();
        let mut i: usize = HEADER_TITLE_START;
        while i < HEADER_TITLE_END && rom_content[i] != 0x00
            invariant
                HEADER_TITLE_START <= i <= HEADER_TITLE_END,
                rom_content.len() >= HEADER_END,
                title@ + text_until_nul(rom_content@, i as int, HEADER_TITLE_END as int)
                    == text_until_nul(
                    rom_content@,
                    HEADER_TITLE_START as int,
                    HEADER_TITLE_END as int,
                ),
            decreases HEADER_TITLE_END - i,
        {
            let ghost before = title@;
            title.push(rom_content[i] as char);
            proof {
                let rest = text_until_nul(rom_content@, i + 1, HEADER_TITLE_END as int);
                assert(title@ + rest =~= before + (seq![rom_content@[i as int] as char] + rest));
            }
            i += 1;
        }
        assert(title@ + Seq::<char>::empty() =~= title@);
        let manufacturer_code: [u8; 4] = [
            rom_content[0x13F],
            rom_content[0x140],
            rom_content[0x141],
            rom_content[0x142],
        ];
        let new_license_code: [u8; 2] = [rom_content[0x144], rom_content[0x145]];
        assert(manufacturer_code@ =~= rom_content@.subrange(0x13F, 0x143));
        assert(new_license_code@ =~= rom_content@.subrange(0x144, 0x146));
        let global_checksum: u16 = (rom_content[0x14E] as u16) * 256 + (rom_content[0x14F] as u16);
        Rom {
            title,
            manufacturer_code,
            cgb_flag: rom_content[0x143],
            new_license_code,
            sgb_flag: rom_content[0x146],
            cartridge_type: rom_content[0x147],
            rom_size: rom_content[0x148],
            ram_size: rom_content[0x149],
            destination_code: rom_content[0x14A],
            old_license_code: rom_content[0x14B],
            mask_rom_version_number: rom_content[0x14C],
            header_checksum: rom_content[0x14D],
            global_checksum,
            data: rom_content,
        }
    }

    pub fn title(&self) -> (title: &String)
        ensures
            title@ == self@.title,
    {
        &self.title
    }

    pub fn manufacturer_code(&self) -> (code: [u8; 4])
        ensures
            code@ == self@.manufacturer_code,
    {
        self.manufacturer_code
    }

    pub fn cgb_flag(&self) -> (flag: u8)
        ensures
            flag == self@.cgb_flag,
    {
        self.cgb_flag
    }

    pub fn new_license_code(&self) -> (code: [u8; 2])
        ensures
            code@ == self@.new_license_code,
    {
        self.new_license_code
    }

    pub fn sgb_flag(&self) -> (flag: u8)
        ensures
            flag == self@.sgb_flag,
    {
        self.sgb_flag
    }

    pub fn cartridge_type(&self) -> (code: u8)
        ensures
            code == self@.cartridge_type,
    {
        self.cartridge_type
    }

    pub fn destination_code(&self) -> (code: u8)
        ensures
            code == self@.destination_code,
    {
        self.destination_code
    }

    pub fn old_license_code(&self) -> (code: u8)
        ensures
            code == self@.old_license_code,
    {
        self.old_license_code
    }

    pub fn mask_rom_version_number(&self) -> (version: u8)
        ensures
            version == self@.mask_rom_version_number,
    {
        self.mask_rom_version_number
    }

    pub fn header_checksum(&self) -> (sum: u8)
        ensures
            sum == self@.header_checksum,
    {
        self.header_checksum
    }

    pub fn global_checksum(&self) -> (sum: u16)
        ensures
            sum == self@.global_checksum,
    {
        self.global_checksum
    }

    pub fn data(&self) -> (data: &Vec<u8>)
        ensures
            data@ == self@.data,
    {
        &self.data
    }
}

} // verus!
