use gbemulator::cpu::CPU;
use gbemulator::error::{CpuError, TableError};
use gbemulator::loader::load_opcodes;
use gbemulator::opcodes::{
    FlagEffect, Mnemonic, OpcodeTable, OperandName, Operands,
};
use gbemulator::ppu::PPU;
use gbemulator::ram_memory::RamMemory;
use gbemulator::rom_parser::Rom;

const SMALL: &str = r#"{
  "unprefixed": {
    "0x00": {"mnemonic": "NOP", "bytes": 1, "cycles": [4], "operands": [],
             "immediate": true, "flags": {"Z": "-", "N": "-", "H": "-", "C": "-"}},
    "0x22": {"mnemonic": "LD", "bytes": 1, "cycles": [8],
             "operands": [{"name": "HL", "increment": true, "immediate": false},
                          {"name": "A", "immediate": true}],
             "immediate": false, "flags": {"Z": "-", "N": "-", "H": "-", "C": "-"}},
    "0x3E": {"mnemonic": "LD", "bytes": 2, "cycles": [8],
             "operands": [{"name": "A", "immediate": true},
                          {"name": "d8", "bytes": 1, "immediate": true}],
             "immediate": true, "flags": {"Z": "-", "N": "-", "H": "-", "C": "-"}},
    "0xC7": {"mnemonic": "RST", "bytes": 1, "cycles": [16],
             "operands": [{"name": "00H", "immediate": true}],
             "immediate": true, "flags": {"Z": "-", "N": "-", "H": "-", "C": "-"}},
    "0xD3": {"mnemonic": "ILLEGAL_D3", "bytes": 1, "cycles": [4], "operands": [],
             "immediate": true, "flags": {"Z": "-", "N": "-", "H": "-", "C": "-"}},
    "0xFE": {"mnemonic": "CP", "bytes": 2, "cycles": [8],
             "operands": [{"name": "d8", "bytes": 1, "immediate": true}],
             "immediate": true, "flags": {"Z": "Z", "N": "1", "H": "H", "C": "C"}}
  },
  "cbprefixed": {
    "0x7C": {"mnemonic": "BIT", "bytes": 2, "cycles": [8],
             "operands": [{"name": "7", "immediate": true}, {"name": "H", "immediate": true}],
             "immediate": true, "flags": {"Z": "Z", "N": "0", "H": "1", "C": "-"}}
  }
}"#;

fn blank_ram() -> RamMemory {
    let rom = Rom::create_from_bytes(vec![0u8; 0x8000]);
    RamMemory::init_from_rom(&rom)
}

#[test]
fn loads_entries_of_both_tables() {
    let table: OpcodeTable = load_opcodes(SMALL).unwrap();
    let nop = table.lookup(false, 0x00).unwrap();
    assert_eq!(nop.mnemonic, Mnemonic::NOP);
    assert_eq!(nop.bytes, 1);
    assert_eq!(nop.operands, Operands::Empty);

    let ld = table.lookup(false, 0x22).unwrap();
    assert_eq!(ld.mnemonic, Mnemonic::LD);
    match ld.operands {
        Operands::Two(target, source) => {
            assert_eq!(target.name, OperandName::HL);
            assert!(!target.immediate);
            assert!(target.increment);
            assert!(!target.decrement);
            assert_eq!(source.name, OperandName::A);
            assert!(source.immediate);
        }
        _ => panic!("two operands expected"),
    }

    let cp = table.lookup(false, 0xFE).unwrap();
    assert_eq!(cp.flags.zero, FlagEffect::Computed);
    assert_eq!(cp.flags.sub, FlagEffect::ForcedOn);
    assert_eq!(cp.flags.half_carry, FlagEffect::Computed);
    assert_eq!(cp.flags.carry, FlagEffect::Computed);

    let bit = table.lookup(true, 0x7C).unwrap();
    assert_eq!(bit.mnemonic, Mnemonic::BIT);
    match bit.operands {
        Operands::Two(index, target) => {
            assert_eq!(index.name, OperandName::Bit(7));
            assert_eq!(target.name, OperandName::H);
        }
        _ => panic!("two operands expected"),
    }
    assert_eq!(bit.flags.carry, FlagEffect::Unaffected);

    let rst = table.lookup(false, 0xC7).unwrap();
    match rst.operands {
        Operands::One(vector) => assert_eq!(vector.name, OperandName::Vector(0x00)),
        _ => panic!("one operand expected"),
    }
}

#[test]
fn absent_entries_are_unknown_opcodes() {
    let table = load_opcodes(SMALL).unwrap();
    assert_eq!(table.lookup(false, 0x01), Err(CpuError::UnknownOpcode));
    assert_eq!(table.lookup(true, 0x00), Err(CpuError::UnknownOpcode));
}

#[test]
fn names_the_engine_does_not_know_are_kept_as_other() {
    let table = load_opcodes(SMALL).unwrap();
    assert_eq!(table.lookup(false, 0xD3).unwrap().mnemonic, Mnemonic::Other);
}

#[test]
fn text_that_is_no_json_is_a_syntax_error() {
    assert_eq!(load_opcodes("{ not json").err(), Some(TableError::Syntax));
    assert_eq!(load_opcodes("").err(), Some(TableError::Syntax));
}

#[test]
fn a_document_without_both_tables_is_refused() {
    assert_eq!(load_opcodes("{}").err(), Some(TableError::MissingTable));
    assert_eq!(
        load_opcodes(r#"{"unprefixed": {}}"#).err(),
        Some(TableError::MissingTable)
    );
    assert_eq!(
        load_opcodes(r#"{"unprefixed": {}, "cbprefixed": []}"#).err(),
        Some(TableError::MissingTable)
    );
    assert_eq!(load_opcodes("[1, 2]").err(), Some(TableError::MissingTable));
    assert!(load_opcodes(r#"{"unprefixed": {}, "cbprefixed": {}}"#).is_ok());
}

#[test]
fn the_first_malformed_entry_is_reported() {
    let no_flags = r#"{"unprefixed": {
        "0x10": {"mnemonic": "NOP", "bytes": 1, "operands": []},
        "0x05": {"mnemonic": "", "bytes": 1, "operands": [],
                 "flags": {"Z": "-", "N": "-", "H": "-", "C": "-"}}
      }, "cbprefixed": {}}"#;
    assert_eq!(
        load_opcodes(no_flags).err(),
        Some(TableError::MalformedEntry(false, 0x05))
    );
    let bad_tag = r#"{"unprefixed": {}, "cbprefixed": {
        "0xAB": {"mnemonic": "SET", "bytes": 2, "operands": [],
                 "flags": {"Z": "N", "N": "-", "H": "-", "C": "-"}}
      }}"#;
    assert_eq!(
        load_opcodes(bad_tag).err(),
        Some(TableError::MalformedEntry(true, 0xAB))
    );
    let long = r#"{"unprefixed": {
        "0x01": {"mnemonic": "NOP", "bytes": 256, "operands": [],
                 "flags": {"Z": "-", "N": "-", "H": "-", "C": "-"}}
      }, "cbprefixed": {}}"#;
    assert_eq!(
        load_opcodes(long).err(),
        Some(TableError::MalformedEntry(false, 0x01))
    );
    let switch = r#"{"unprefixed": {
        "0x02": {"mnemonic": "INC", "bytes": 1,
                 "operands": [{"name": "A", "immediate": "yes"}],
                 "flags": {"Z": "Z", "N": "0", "H": "H", "C": "-"}}
      }, "cbprefixed": {}}"#;
    assert_eq!(
        load_opcodes(switch).err(),
        Some(TableError::MalformedEntry(false, 0x02))
    );
}

#[test]
fn keys_are_read_in_upper_case_hexadecimal() {
    let lower = r#"{"unprefixed": {
        "0xfe": {"mnemonic": "NOP", "bytes": 1, "operands": [],
                 "flags": {"Z": "-", "N": "-", "H": "-", "C": "-"}}
      }, "cbprefixed": {}}"#;
    let table = load_opcodes(lower).unwrap();
    assert_eq!(table.lookup(false, 0xFE), Err(CpuError::UnknownOpcode));
}

#[test]
fn a_loaded_catalogue_drives_the_engine() {
    let mut ram = blank_ram();
    ram.set_addr(0x0100, 0x3E);
    ram.set_addr(0x0101, 0x80);
    ram.set_addr(0x0102, 0xFE);
    ram.set_addr(0x0103, 0x80);
    ram.set_addr(0x0104, 0xD3);
    let table = load_opcodes(SMALL).unwrap();
    let mut cpu = CPU::init_with_opcodes(ram, PPU::init(), table, false);
    assert_eq!(cpu.execute_instruction(), Ok(()));
    assert_eq!(cpu.get_registers().a, 0x80);
    assert_eq!(cpu.execute_instruction(), Ok(()));
    assert!(cpu.get_zero_flag());
    assert!(cpu.get_sub_flag());
    assert!(!cpu.get_carry_flag());
    assert_eq!(cpu.get_program_counter(), 0x0104);
    assert_eq!(
        cpu.execute_instruction(),
        Err(CpuError::UnimplementedMnemonic)
    );
}
