use gbemulator::cpu::CPU;
use gbemulator::error::CpuError;
use gbemulator::opcodes::{get_opcodes, Mnemonic};
use gbemulator::ppu::PPU;
use gbemulator::ram_memory::RamMemory;
use gbemulator::rom_parser::Rom;

fn blank_image() -> Vec<u8> {
    vec![0u8; 0x8000]
}

fn machine_with(program: &[(u16, u8)]) -> CPU {
    let rom = Rom::create_from_bytes(blank_image());
    let mut ram = RamMemory::init_from_rom(&rom);
    for (addr, value) in program {
        ram.set_addr(*addr, *value);
    }
    CPU::init_with_ram_ppu(ram, PPU::init(), false)
}

#[test]
fn test_opcodes_json() {
    let opcodes = get_opcodes();
    assert_eq!(opcodes.lookup(false, 0x00).unwrap().mnemonic, Mnemonic::NOP);
}

#[test]
fn test_cpu_jp_ld_cp() {
    let mut cpu = machine_with(&[
        (0x0100, 0xC3),
        (0x0101, 0x00),
        (0x0102, 0x02),
        (0x0200, 0x3E),
        (0x0201, 0x11),
        (0x0202, 0xFE),
        (0x0203, 0x0F),
    ]);

    assert_eq!(cpu.execute_instruction(), Ok(()));
    assert_eq!(cpu.get_program_counter(), 0x0200);

    assert_eq!(cpu.execute_instruction(), Ok(()));
    assert_eq!(cpu.get_register(&"A".to_string()), Ok(0x11));

    assert_eq!(cpu.execute_instruction(), Ok(()));
    assert_eq!(cpu.get_sub_flag(), true);
    assert_eq!(cpu.get_half_carry_flag(), true);
    assert_eq!(cpu.get_zero_flag(), false);
    assert_eq!(cpu.get_carry_flag(), false);
    assert_eq!(cpu.get_register(&"A".to_string()), Ok(0x11));
    assert_eq!(cpu.get_program_counter(), 0x0204);
}

#[test]
fn unknown_opcode_is_an_error() {
    let mut cpu = machine_with(&[(0x0100, 0xD3)]);
    assert_eq!(cpu.execute_instruction(), Err(CpuError::UnknownOpcode));
    assert_eq!(cpu.get_program_counter(), 0x0100);
}
