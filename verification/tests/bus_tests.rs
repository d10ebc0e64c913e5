use gbemulator::bus::{get_region, Access, Region};
use gbemulator::error::CpuError;
use gbemulator::cpu::CPU;
use gbemulator::ppu::{DisplayAction, PPU};
use gbemulator::ram_memory::RamMemory;
use gbemulator::rom_parser::Rom;

fn fresh() -> CPU {
    let rom = Rom::create_from_bytes(vec![0u8; 0x8000]);
    CPU::init_with_ram_ppu(RamMemory::init_from_rom(&rom), PPU::init(), false)
}

#[test]
fn regions_start_where_the_map_says() {
    assert_eq!(get_region(0x0000), Region::Cartridge);
    assert_eq!(get_region(0x7FFF), Region::Cartridge);
    assert_eq!(get_region(0x8000), Region::VideoAndWork);
    assert_eq!(get_region(0xDFFF), Region::VideoAndWork);
    assert_eq!(get_region(0xE000), Region::Echo);
    assert_eq!(get_region(0xFDFF), Region::Echo);
    assert_eq!(get_region(0xFE00), Region::SpriteTable);
    assert_eq!(get_region(0xFEFF), Region::SpriteTable);
    assert_eq!(get_region(0xFF00), Region::IoPorts);
    assert_eq!(get_region(0xFF4B), Region::IoPorts);
    assert_eq!(get_region(0xFF4C), Region::Unused);
    assert_eq!(get_region(0xFF7F), Region::Unused);
    assert_eq!(get_region(0xFF80), Region::HighMemory);
    assert_eq!(get_region(0xFFFF), Region::HighMemory);
}

#[test]
fn a_write_to_the_echo_is_read_at_its_alias() {
    let mut cpu = fresh();
    for addr in 0xE000u16..0xFE00 {
        let value = (addr as u8) ^ 0x5A;
        cpu.set_addr(addr, value);
        assert_eq!(cpu.get_addr(addr - 0x2000), value);
        assert_eq!(cpu.get_addr(addr), value);
    }
}

#[test]
fn a_write_to_the_alias_is_read_at_the_echo() {
    let mut cpu = fresh();
    for addr in 0xE000u16..0xFE00 {
        let value = (addr as u8) ^ 0xA5;
        cpu.set_addr(addr - 0x2000, value);
        assert_eq!(cpu.get_addr(addr), value);
    }
}

#[test]
fn the_echo_ends_before_the_sprite_table() {
    let mut cpu = fresh();
    cpu.set_addr(0xFE00, 0x11);
    assert_eq!(cpu.get_addr(0xFE00), 0x11);
    assert_eq!(cpu.get_addr(0xDE00), 0x00);
    cpu.set_addr(0xDFFF, 0x22);
    assert_eq!(cpu.get_addr(0xDFFF), 0x22);
    assert_eq!(cpu.get_addr(0xFDFF), 0x00);
    cpu.set_addr(0xFDFF, 0x33);
    assert_eq!(cpu.get_addr(0xDDFF), 0x33);
}

#[test]
fn every_other_address_reads_back_what_was_written() {
    let mut cpu = fresh();
    for addr in [
        0x0000u16, 0x0100, 0x7FFF, 0x8000, 0x9FFF, 0xC000, 0xDFFF, 0xFE00, 0xFE9F, 0xFF00,
        0xFF40, 0xFF43, 0xFF45, 0xFF4B, 0xFF4C, 0xFF7F, 0xFF80, 0xFFFE, 0xFFFF,
    ] {
        cpu.set_addr(addr, 0xA7);
        assert_eq!(cpu.get_addr(addr), 0xA7);
    }
}

#[test]
fn the_scanline_register_always_reads_idle() {
    let mut cpu = fresh();
    assert_eq!(cpu.get_addr(0xFF44), 0x90);
    cpu.set_addr(0xFF44, 0x12);
    assert_eq!(cpu.get_addr(0xFF44), 0x90);
    let dump = cpu.dump_memory();
    assert_eq!(
        dump[0xFF40 / 8],
        "0xFF40 -> 0x00 0x00 0x00 0x00 0x12 0x00 0x00 0x00 "
    );
}

#[test]
fn switching_a_running_display_off_owes_a_blank_screen() {
    let mut cpu = fresh();
    assert_eq!(cpu.take_display_action(), DisplayAction::Blank);
    assert_eq!(cpu.take_display_action(), DisplayAction::Idle);

    cpu.set_addr(0xFF40, 0x80);
    assert_eq!(cpu.take_display_action(), DisplayAction::Idle);
    cpu.set_addr(0xFF40, 0x91);
    assert_eq!(cpu.take_display_action(), DisplayAction::Idle);
    cpu.set_addr(0xFF40, 0x11);
    assert_eq!(cpu.take_display_action(), DisplayAction::Blank);
    assert_eq!(cpu.get_addr(0xFF40), 0x11);
    cpu.set_addr(0xFF40, 0x00);
    assert_eq!(cpu.take_display_action(), DisplayAction::Idle);
}

#[test]
fn other_registers_do_not_switch_the_display() {
    let mut cpu = fresh();
    cpu.set_addr(0xFF40, 0x80);
    let _ = cpu.take_display_action();
    cpu.set_addr(0xFF41, 0x00);
    cpu.set_addr(0xFF00, 0x00);
    cpu.set_addr(0xFF4B, 0x00);
    cpu.set_addr(0xDF40, 0x00);
    assert_eq!(cpu.take_display_action(), DisplayAction::Idle);
    assert_eq!(cpu.get_addr(0xFF40), 0x80);
}

#[test]
fn an_instruction_can_switch_the_display_off() {
    let rom = Rom::create_from_bytes(vec![0u8; 0x8000]);
    let mut ram = RamMemory::init_from_rom(&rom);
    // LDH (0x40),A with A = 0
    ram.set_addr(0x0100, 0xE0);
    ram.set_addr(0x0101, 0x40);
    ram.set_addr(0xFF40, 0x91);
    let mut cpu = CPU::init_with_ram_ppu(ram, PPU::init(), false);
    let _ = cpu.take_display_action();
    assert_eq!(cpu.execute_instruction(), Ok(()));
    assert_eq!(cpu.take_display_action(), DisplayAction::Blank);
    assert_eq!(cpu.get_addr(0xFF40), 0x00);
}

fn read_at(addr: u16) -> Access {
    Access { addr, write: false }
}

fn write_at(addr: u16) -> Access {
    Access { addr, write: true }
}

#[test]
fn accesses_to_addresses_without_a_meaning_are_recorded_and_made() {
    let mut cpu = fresh();
    assert_eq!(cpu.take_suspicious_accesses(), vec![]);
    cpu.set_addr(0xFF4C, 0x11);
    assert_eq!(cpu.get_addr(0xFF4C), 0x11);
    cpu.set_addr(0xFF7F, 0x22);
    assert_eq!(cpu.get_addr(0xFF60), 0x00);
    assert_eq!(cpu.get_addr(0xFF7F), 0x22);
    assert_eq!(
        cpu.take_suspicious_accesses(),
        vec![
            write_at(0xFF4C),
            read_at(0xFF4C),
            write_at(0xFF7F),
            read_at(0xFF60),
            read_at(0xFF7F),
        ]
    );
    assert_eq!(cpu.take_suspicious_accesses(), vec![]);
    assert_eq!(cpu.peek(0xFF4C), 0x11);
    assert_eq!(cpu.take_suspicious_accesses(), vec![]);
}

#[test]
fn accesses_to_every_other_region_are_not_recorded() {
    let mut cpu = fresh();
    for addr in [
        0x0000u16, 0x7FFF, 0x8000, 0xDFFF, 0xE000, 0xFDFF, 0xFE00, 0xFEFF, 0xFF00, 0xFF44,
        0xFF4B, 0xFF80, 0xFFFF,
    ] {
        cpu.set_addr(addr, 0x5A);
        let _ = cpu.get_addr(addr);
    }
    assert_eq!(cpu.take_suspicious_accesses(), vec![]);
}

#[test]
fn a_cycle_records_its_suspicious_writes_and_reads() {
    let rom = Rom::create_from_bytes(vec![0u8; 0x8000]);
    let mut ram = RamMemory::init_from_rom(&rom);
    // LDH (0x60),A ; LDH A,(0x7F) ; LDH (0x80),A ; LD (HL),A ; INC (HL)
    for (i, b) in [0xE0u8, 0x60, 0xF0, 0x7F, 0xE0, 0x80, 0x77, 0x34].iter().enumerate() {
        ram.set_addr(0x0100 + i as u16, *b);
    }
    ram.set_addr(0xFF7F, 0x42);
    let mut cpu = CPU::init_with_ram_ppu(ram, PPU::init(), false);
    let mut regs = cpu.get_registers();
    regs.a = 0x33;
    regs.h = 0xFF;
    regs.l = 0x50;
    cpu.set_registers(regs);

    assert_eq!(cpu.execute_instruction(), Ok(()));
    assert_eq!(cpu.take_suspicious_accesses(), vec![write_at(0xFF60)]);
    assert_eq!(cpu.peek(0xFF60), 0x33);

    assert_eq!(cpu.execute_instruction(), Ok(()));
    assert_eq!(cpu.take_suspicious_accesses(), vec![read_at(0xFF7F)]);
    assert_eq!(cpu.get_registers().a, 0x42);

    assert_eq!(cpu.execute_instruction(), Ok(()));
    assert_eq!(cpu.take_suspicious_accesses(), vec![]);

    assert_eq!(cpu.execute_instruction(), Ok(()));
    assert_eq!(cpu.take_suspicious_accesses(), vec![write_at(0xFF50)]);

    assert_eq!(cpu.execute_instruction(), Ok(()));
    assert_eq!(
        cpu.take_suspicious_accesses(),
        vec![read_at(0xFF50), write_at(0xFF50)]
    );
    assert_eq!(cpu.peek(0xFF50), 0x43);
}

#[test]
fn a_cycle_records_the_reads_of_fetch_decoding_and_stack() {
    let rom = Rom::create_from_bytes(vec![0u8; 0x8000]);
    let mut ram = RamMemory::init_from_rom(&rom);
    // at 0xFF4B: LD BC,d16 ; at 0xFF4E: BIT 0,B ; at 0xFF50: POP DE
    for (i, b) in [0x01u8, 0x34, 0x12, 0xCB, 0x40, 0xD1].iter().enumerate() {
        ram.set_addr(0xFF4B + i as u16, *b);
    }
    ram.set_addr(0xFF7E, 0xCD);
    ram.set_addr(0xFF7F, 0xAB);
    let mut cpu = CPU::init_with_ram_ppu(ram, PPU::init(), false);
    let mut regs = cpu.get_registers();
    regs.pc = 0xFF4B;
    regs.sp = 0xFF7E;
    cpu.set_registers(regs);

    assert_eq!(cpu.execute_instruction(), Ok(()));
    assert_eq!(
        cpu.take_suspicious_accesses(),
        vec![read_at(0xFF4C), read_at(0xFF4D)]
    );
    assert_eq!(cpu.get_registers().b, 0x12);

    assert_eq!(cpu.execute_instruction(), Ok(()));
    assert_eq!(
        cpu.take_suspicious_accesses(),
        vec![read_at(0xFF4E), read_at(0xFF4F)]
    );

    assert_eq!(cpu.execute_instruction(), Ok(()));
    assert_eq!(
        cpu.take_suspicious_accesses(),
        vec![read_at(0xFF50), read_at(0xFF7E), read_at(0xFF7F)]
    );
    assert_eq!(cpu.get_registers().d, 0xAB);
    assert_eq!(cpu.get_registers().e, 0xCD);
    assert_eq!(cpu.get_registers().sp, 0xFF80);
}

#[test]
fn a_push_records_both_writes() {
    let rom = Rom::create_from_bytes(vec![0u8; 0x8000]);
    let mut ram = RamMemory::init_from_rom(&rom);
    ram.set_addr(0x0100, 0xC5);
    let mut cpu = CPU::init_with_ram_ppu(ram, PPU::init(), false);
    let mut regs = cpu.get_registers();
    regs.sp = 0xFF81;
    regs.b = 0x12;
    regs.c = 0x34;
    cpu.set_registers(regs);
    assert_eq!(cpu.execute_instruction(), Ok(()));
    assert_eq!(cpu.take_suspicious_accesses(), vec![write_at(0xFF7F)]);
    assert_eq!(cpu.peek(0xFF80), 0x12);
    assert_eq!(cpu.peek(0xFF7F), 0x34);
}

#[test]
fn a_cycle_that_fails_records_nothing() {
    let rom = Rom::create_from_bytes(vec![0u8; 0x8000]);
    let mut ram = RamMemory::init_from_rom(&rom);
    // POP AF reads the stack and then fails its flag check
    ram.set_addr(0xFF60, 0xF1);
    let mut cpu = CPU::init_with_ram_ppu(ram, PPU::init(), false);
    let mut regs = cpu.get_registers();
    regs.pc = 0xFF60;
    regs.sp = 0xFF70;
    cpu.set_registers(regs);
    assert_eq!(
        cpu.execute_instruction(),
        Err(CpuError::FlagContractViolation)
    );
    assert_eq!(cpu.take_suspicious_accesses(), vec![]);
    assert_eq!(cpu.get_registers(), regs);
}
