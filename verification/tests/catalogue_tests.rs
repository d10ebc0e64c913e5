use gbemulator::cpu::{verify_flag, verify_flags, CPU};
use gbemulator::error::CpuError;
use gbemulator::opcodes::{
    cbprefixed_entry, direct, effects, get_opcodes, indirect, keep, op0, op1, op2, op3,
    unprefixed_entry, FlagEffect, FlagEffects, Mnemonic, OpcodeDescriptor, OpcodeTable, Operand,
    OperandName, Operands,
};
use gbemulator::ppu::PPU;
use gbemulator::ram_memory::RamMemory;
use gbemulator::registers::{Flag, Registers};
use gbemulator::rom_parser::Rom;
use gbemulator::semantics::FlagProposal;

fn blank_ram() -> RamMemory {
    let rom = Rom::create_from_bytes(vec![0u8; 0x8000]);
    RamMemory::init_from_rom(&rom)
}

/// A machine whose catalogue holds one entry, under opcode 0x00, about to
/// execute it at 0x0100 followed by the bytes given.
fn machine_for(entry: OpcodeDescriptor, following: &[u8]) -> CPU {
    let mut table = OpcodeTable::empty();
    table.insert(false, 0x00, entry);
    let mut ram = blank_ram();
    for (i, b) in following.iter().enumerate() {
        ram.set_addr(0x0101 + i as u16, *b);
    }
    CPU::init_with_opcodes(ram, PPU::init(), table, false)
}

fn result_of(entry: OpcodeDescriptor) -> Result<(), CpuError> {
    machine_for(entry, &[0x12, 0x34]).execute_instruction()
}

#[test]
fn an_empty_catalogue_knows_no_opcode() {
    let table = OpcodeTable::empty();
    for prefixed in [false, true] {
        for byte in 0..=255u8 {
            assert_eq!(table.lookup(prefixed, byte), Err(CpuError::UnknownOpcode));
        }
    }
}

#[test]
fn an_entry_is_found_where_it_was_put() {
    let mut table = OpcodeTable::empty();
    let entry = op1(Mnemonic::INC, 1, direct(OperandName::A), keep());
    table.insert(true, 0x42, entry);
    assert_eq!(table.lookup(true, 0x42), Ok(entry));
    assert_eq!(table.lookup(false, 0x42), Err(CpuError::UnknownOpcode));
    assert_eq!(table.lookup(true, 0x41), Err(CpuError::UnknownOpcode));
    let other = op0(Mnemonic::NOP, 1, keep());
    table.insert(true, 0x42, other);
    assert_eq!(table.lookup(true, 0x42), Ok(other));
}

#[test]
fn the_standard_catalogue_has_its_entries() {
    let table = get_opcodes();
    let c = FlagEffect::Computed;
    let off = FlagEffect::ForcedOff;
    let on = FlagEffect::ForcedOn;
    let u = FlagEffect::Unaffected;
    assert_eq!(table.lookup(false, 0x00), Ok(op0(Mnemonic::NOP, 1, keep())));
    assert_eq!(
        table.lookup(false, 0xC3),
        Ok(op1(Mnemonic::JP, 3, direct(OperandName::A16), keep()))
    );
    assert_eq!(
        table.lookup(false, 0x3E),
        Ok(op2(
            Mnemonic::LD,
            2,
            direct(OperandName::A),
            direct(OperandName::D8),
            keep()
        ))
    );
    assert_eq!(
        table.lookup(false, 0xFE),
        Ok(op1(
            Mnemonic::CP,
            2,
            direct(OperandName::D8),
            effects(c, on, c, c)
        ))
    );
    assert_eq!(
        table.lookup(false, 0x34),
        Ok(op1(
            Mnemonic::INC,
            1,
            indirect(OperandName::HL),
            effects(c, off, c, u)
        ))
    );
    assert_eq!(
        table.lookup(false, 0x46),
        Ok(op2(
            Mnemonic::LD,
            1,
            direct(OperandName::B),
            indirect(OperandName::HL),
            keep()
        ))
    );
    assert_eq!(table.lookup(false, 0x76), Ok(op0(Mnemonic::HALT, 1, keep())));
    assert_eq!(
        table.lookup(false, 0x87),
        Ok(op2(
            Mnemonic::ADD,
            1,
            direct(OperandName::A),
            direct(OperandName::A),
            effects(c, off, c, c)
        ))
    );
    assert_eq!(
        table.lookup(false, 0xA6),
        Ok(op1(
            Mnemonic::AND,
            1,
            indirect(OperandName::HL),
            effects(c, off, on, off)
        ))
    );
    assert_eq!(
        table.lookup(false, 0xE0),
        Ok(op2(
            Mnemonic::LDH,
            2,
            indirect(OperandName::A8),
            direct(OperandName::A),
            keep()
        ))
    );
    assert_eq!(
        table.lookup(false, 0xFF),
        Ok(op1(
            Mnemonic::RST,
            1,
            direct(OperandName::Vector(0x38)),
            keep()
        ))
    );
    assert_eq!(
        table.lookup(true, 0x7C),
        Ok(op2(
            Mnemonic::BIT,
            2,
            direct(OperandName::Bit(7)),
            direct(OperandName::H),
            effects(c, off, on, u)
        ))
    );
    assert_eq!(
        table.lookup(true, 0x11),
        Ok(op1(
            Mnemonic::RL,
            2,
            direct(OperandName::C),
            effects(c, off, off, c)
        ))
    );
    assert_eq!(
        table.lookup(true, 0x3E),
        Ok(op1(
            Mnemonic::SRL,
            2,
            indirect(OperandName::HL),
            effects(c, off, off, c)
        ))
    );
    assert_eq!(
        table.lookup(true, 0xFF),
        Ok(op2(
            Mnemonic::SET,
            2,
            direct(OperandName::Bit(7)),
            direct(OperandName::A),
            keep()
        ))
    );
}

#[test]
fn the_standard_catalogue_is_what_its_entries_compute() {
    let table = get_opcodes();
    let mut plain = 0;
    for byte in 0..=255u8 {
        assert_eq!(table.lookup(false, byte).ok(), unprefixed_entry(byte));
        assert_eq!(table.lookup(true, byte).ok(), cbprefixed_entry(byte));
        assert!(cbprefixed_entry(byte).is_some());
        if unprefixed_entry(byte).is_some() {
            plain += 1;
        }
    }
    assert_eq!(plain, 245);
}

#[test]
fn lengths_cover_the_operands_that_follow_the_opcode() {
    let table = get_opcodes();
    for prefixed in [false, true] {
        for byte in 0..=255u8 {
            if let Ok(entry) = table.lookup(prefixed, byte) {
                let operands: Vec<Operand> = match entry.operands {
                    Operands::Empty => vec![],
                    Operands::One(a) => vec![a],
                    Operands::Two(a, b) => vec![a, b],
                    Operands::Three(a, b, c) => vec![a, b, c],
                };
                assert_eq!(entry.operands.len(), operands.len());
                let following: u8 = operands
                    .iter()
                    .map(|o| match o.name {
                        OperandName::A16 | OperandName::D16 => 2,
                        OperandName::D8 | OperandName::A8 | OperandName::R8 => 1,
                        _ => 0,
                    })
                    .sum();
                let opcode = if prefixed { 2 } else { 1 };
                assert_eq!(entry.bytes, opcode + following);
            }
        }
    }
}

#[test]
fn a_proposal_is_checked_flag_by_flag() {
    assert!(verify_flag(FlagEffect::Unaffected, None));
    assert!(!verify_flag(FlagEffect::Unaffected, Some(false)));
    assert!(!verify_flag(FlagEffect::Unaffected, Some(true)));
    assert!(verify_flag(FlagEffect::ForcedOff, Some(false)));
    assert!(!verify_flag(FlagEffect::ForcedOff, Some(true)));
    assert!(!verify_flag(FlagEffect::ForcedOff, None));
    assert!(verify_flag(FlagEffect::ForcedOn, Some(true)));
    assert!(!verify_flag(FlagEffect::ForcedOn, Some(false)));
    assert!(!verify_flag(FlagEffect::ForcedOn, None));
    assert!(verify_flag(FlagEffect::Computed, Some(true)));
    assert!(verify_flag(FlagEffect::Computed, Some(false)));
    assert!(!verify_flag(FlagEffect::Computed, None));

    let declared = FlagEffects {
        zero: FlagEffect::Computed,
        sub: FlagEffect::ForcedOff,
        half_carry: FlagEffect::ForcedOn,
        carry: FlagEffect::Unaffected,
    };
    let good = FlagProposal {
        zero: Some(true),
        sub: Some(false),
        half_carry: Some(true),
        carry: None,
    };
    assert!(verify_flags(declared, good));
    assert!(!verify_flags(declared, FlagProposal { zero: None, ..good }));
    assert!(!verify_flags(declared, FlagProposal { sub: Some(true), ..good }));
    assert!(!verify_flags(declared, FlagProposal { half_carry: None, ..good }));
    assert!(!verify_flags(declared, FlagProposal { carry: Some(false), ..good }));
}

#[test]
fn an_entry_that_declares_the_wrong_flags_fails_its_cycle() {
    let c = FlagEffect::Computed;
    let off = FlagEffect::ForcedOff;
    let on = FlagEffect::ForcedOn;
    let u = FlagEffect::Unaffected;
    assert_eq!(result_of(op0(Mnemonic::NOP, 1, keep())), Ok(()));
    assert_eq!(
        result_of(op0(Mnemonic::NOP, 1, effects(c, u, u, u))),
        Err(CpuError::FlagContractViolation)
    );
    assert_eq!(
        result_of(op0(Mnemonic::NOP, 1, effects(u, u, u, off))),
        Err(CpuError::FlagContractViolation)
    );
    let xor = |flags| op1(Mnemonic::XOR, 1, direct(OperandName::A), flags);
    assert_eq!(result_of(xor(effects(c, off, off, off))), Ok(()));
    assert_eq!(result_of(xor(effects(on, off, off, off))), Ok(()));
    assert_eq!(result_of(xor(effects(c, c, c, c))), Ok(()));
    assert_eq!(
        result_of(xor(effects(off, off, off, off))),
        Err(CpuError::FlagContractViolation)
    );
    assert_eq!(
        result_of(xor(effects(c, off, on, off))),
        Err(CpuError::FlagContractViolation)
    );
    assert_eq!(
        result_of(xor(keep())),
        Err(CpuError::FlagContractViolation)
    );
    let mut cpu = machine_for(xor(keep()), &[]);
    let mut regs = cpu.get_registers();
    regs.a = 0x55;
    cpu.set_registers(regs);
    assert_eq!(
        cpu.execute_instruction(),
        Err(CpuError::FlagContractViolation)
    );
    assert_eq!(cpu.get_registers(), regs);
}

#[test]
fn operands_that_name_no_register_are_errors() {
    let c = FlagEffect::Computed;
    let off = FlagEffect::ForcedOff;
    let on = FlagEffect::ForcedOn;
    let u = FlagEffect::Unaffected;
    let cases = [
        op1(Mnemonic::PUSH, 1, direct(OperandName::A), keep()),
        op1(Mnemonic::POP, 1, direct(OperandName::Z), keep()),
        op1(Mnemonic::INC, 1, direct(OperandName::NZ), effects(c, off, c, u)),
        op1(Mnemonic::INC, 1, indirect(OperandName::A), effects(c, off, c, u)),
        op1(Mnemonic::DEC, 1, direct(OperandName::Bit(1)), effects(c, on, c, u)),
        op1(Mnemonic::SUB, 1, direct(OperandName::HL), effects(c, on, c, c)),
        op1(Mnemonic::CP, 1, indirect(OperandName::B), effects(c, on, c, c)),
        op1(Mnemonic::AND, 1, direct(OperandName::Other), effects(c, off, on, off)),
        op1(Mnemonic::RL, 1, direct(OperandName::HL), effects(c, off, off, c)),
        op1(Mnemonic::RR, 1, indirect(OperandName::C), effects(c, off, off, c)),
        op1(Mnemonic::SRL, 1, direct(OperandName::NC), effects(c, off, off, c)),
        op2(
            Mnemonic::BIT,
            2,
            direct(OperandName::Bit(0)),
            direct(OperandName::Vector(8)),
            effects(c, off, on, u),
        ),
        op2(Mnemonic::LD, 1, direct(OperandName::Z), direct(OperandName::A), keep()),
        op2(Mnemonic::LD, 1, direct(OperandName::A), direct(OperandName::NZ), keep()),
        op2(Mnemonic::LDH, 2, direct(OperandName::HL), indirect(OperandName::A8), keep()),
        op2(Mnemonic::LDH, 2, indirect(OperandName::A8), direct(OperandName::SP), keep()),
        op2(
            Mnemonic::ADD,
            1,
            direct(OperandName::Z),
            direct(OperandName::B),
            effects(c, off, c, c),
        ),
        op2(
            Mnemonic::LD,
            1,
            Operand { name: OperandName::A, immediate: true, increment: true, decrement: false },
            direct(OperandName::B),
            keep(),
        ),
    ];
    for entry in cases {
        assert_eq!(result_of(entry), Err(CpuError::InvalidRegisterName));
    }
}

#[test]
fn operands_of_the_wrong_number_or_kind_are_errors() {
    let c = FlagEffect::Computed;
    let off = FlagEffect::ForcedOff;
    let on = FlagEffect::ForcedOn;
    let u = FlagEffect::Unaffected;
    let a = direct(OperandName::A);
    let cases = [
        op0(Mnemonic::JP, 1, keep()),
        op1(Mnemonic::JP, 2, direct(OperandName::D8), keep()),
        op0(Mnemonic::JR, 1, keep()),
        op1(Mnemonic::JR, 2, direct(OperandName::D8), keep()),
        op2(Mnemonic::JR, 2, direct(OperandName::A), direct(OperandName::R8), keep()),
        op2(Mnemonic::JR, 3, direct(OperandName::NZ), direct(OperandName::A16), keep()),
        op0(Mnemonic::CALL, 1, keep()),
        op1(Mnemonic::CALL, 2, direct(OperandName::R8), keep()),
        op2(Mnemonic::CALL, 3, direct(OperandName::HL), direct(OperandName::A16), keep()),
        op3(Mnemonic::CALL, 3, a, a, a, keep()),
        op2(Mnemonic::RET, 1, a, a, keep()),
        op0(Mnemonic::RST, 1, keep()),
        op1(Mnemonic::RST, 1, direct(OperandName::A), keep()),
        op0(Mnemonic::PUSH, 1, keep()),
        op2(Mnemonic::POP, 1, a, a, keep()),
        op0(Mnemonic::CP, 1, effects(c, on, c, c)),
        op1(Mnemonic::CP, 3, direct(OperandName::D16), effects(c, on, c, c)),
        op2(Mnemonic::SUB, 1, a, a, effects(c, on, c, c)),
        op1(Mnemonic::SUB, 2, direct(OperandName::R8), effects(c, on, c, c)),
        op1(Mnemonic::ADD, 1, a, effects(c, off, c, c)),
        op2(Mnemonic::ADD, 1, direct(OperandName::B), a, effects(c, off, c, c)),
        op0(Mnemonic::AND, 1, effects(c, off, on, off)),
        op0(Mnemonic::OR, 1, effects(c, off, off, off)),
        op1(Mnemonic::XOR, 3, indirect(OperandName::A16), effects(c, off, off, off)),
        op0(Mnemonic::INC, 1, effects(c, off, c, u)),
        op2(Mnemonic::DEC, 1, a, a, effects(c, on, c, u)),
        op1(Mnemonic::BIT, 2, a, effects(c, off, on, u)),
        op2(Mnemonic::BIT, 2, a, a, effects(c, off, on, u)),
        op2(Mnemonic::BIT, 2, direct(OperandName::Bit(8)), a, effects(c, off, on, u)),
        op2(
            Mnemonic::BIT,
            2,
            direct(OperandName::Bit(0)),
            direct(OperandName::HL),
            effects(c, off, on, u),
        ),
        op0(Mnemonic::RL, 2, effects(c, off, off, c)),
        op2(Mnemonic::RR, 2, a, a, effects(c, off, off, c)),
        op0(Mnemonic::SRL, 2, effects(c, off, off, c)),
        op1(Mnemonic::RLA, 1, a, effects(off, off, off, c)),
        op1(Mnemonic::RRA, 1, a, effects(off, off, off, c)),
        op2(Mnemonic::LD, 2, direct(OperandName::A), direct(OperandName::R8), keep()),
        op2(Mnemonic::LD, 2, direct(OperandName::D8), direct(OperandName::A), keep()),
        op2(Mnemonic::LD, 3, direct(OperandName::A), direct(OperandName::D16), keep()),
        op2(Mnemonic::LD, 2, direct(OperandName::HL), direct(OperandName::D8), keep()),
        op1(Mnemonic::LDH, 2, a, keep()),
        op2(Mnemonic::LDH, 2, direct(OperandName::A8), a, keep()),
        op2(Mnemonic::LDH, 2, indirect(OperandName::A), indirect(OperandName::A8), keep()),
        op2(Mnemonic::LDH, 3, a, indirect(OperandName::A16), keep()),
        op2(Mnemonic::LDH, 3, indirect(OperandName::A16), a, keep()),
    ];
    for entry in cases {
        assert_eq!(result_of(entry), Err(CpuError::MalformedOperand));
    }
}

#[test]
fn forms_the_engine_does_not_execute_are_errors() {
    let a = direct(OperandName::A);
    let c = FlagEffect::Computed;
    let off = FlagEffect::ForcedOff;
    let cases = [
        op0(Mnemonic::LD, 1, keep()),
        op1(Mnemonic::LD, 1, a, keep()),
        op3(Mnemonic::LD, 1, a, a, a, keep()),
        op2(Mnemonic::LD, 1, a, indirect(OperandName::C), keep()),
        op1(Mnemonic::RET, 1, direct(OperandName::Z), keep()),
        op2(Mnemonic::ADD, 1, direct(OperandName::HL), a, effects(c, off, c, c)),
        op0(Mnemonic::Other, 1, keep()),
        op0(Mnemonic::PREFIX, 1, keep()),
        op0(Mnemonic::EI, 1, keep()),
    ];
    for entry in cases {
        assert_eq!(result_of(entry), Err(CpuError::UnimplementedMnemonic));
    }
}

#[test]
fn xor_also_reads_the_cell_at_an_immediate_word() {
    let c = FlagEffect::Computed;
    let off = FlagEffect::ForcedOff;
    let entry = op1(Mnemonic::XOR, 3, direct(OperandName::A16), effects(c, off, off, off));
    let mut table = OpcodeTable::empty();
    table.insert(false, 0x00, entry);
    let mut ram = blank_ram();
    ram.set_addr(0x0101, 0x00);
    ram.set_addr(0x0102, 0xC0);
    ram.set_addr(0xC000, 0x0F);
    let mut cpu = CPU::init_with_opcodes(ram, PPU::init(), table, false);
    let mut regs = cpu.get_registers();
    regs.a = 0xFF;
    cpu.set_registers(regs);
    assert_eq!(cpu.execute_instruction(), Ok(()));
    assert_eq!(cpu.get_registers().a, 0xF0);
    assert_eq!(cpu.get_program_counter(), 0x0103);
}

#[test]
fn both_operands_of_a_load_can_step_their_pair() {
    let entry = op2(
        Mnemonic::LD,
        1,
        Operand { name: OperandName::HL, immediate: false, increment: true, decrement: false },
        Operand { name: OperandName::HL, immediate: false, increment: true, decrement: false },
        keep(),
    );
    let mut cpu = machine_for(entry, &[]);
    cpu.set_addr(0xC000, 0x77);
    let mut regs = cpu.get_registers();
    regs.h = 0xC0;
    regs.l = 0x00;
    cpu.set_registers(regs);
    assert_eq!(cpu.execute_instruction(), Ok(()));
    assert_eq!(cpu.get_addr(0xC000), 0x77);
    assert_eq!(cpu.get_registers().h, 0xC0);
    assert_eq!(cpu.get_registers().l, 0x02);

    let entry = op2(
        Mnemonic::LD,
        1,
        Operand { name: OperandName::DE, immediate: false, increment: false, decrement: true },
        Operand { name: OperandName::HL, immediate: false, increment: true, decrement: false },
        keep(),
    );
    let mut cpu = machine_for(entry, &[]);
    cpu.set_addr(0xC000, 0x42);
    let mut regs = cpu.get_registers();
    regs.h = 0xC0;
    regs.l = 0x00;
    regs.d = 0xD0;
    regs.e = 0x00;
    cpu.set_registers(regs);
    assert_eq!(cpu.execute_instruction(), Ok(()));
    assert_eq!(cpu.get_addr(0xD000), 0x42);
    assert_eq!(cpu.get_registers().d, 0xCF);
    assert_eq!(cpu.get_registers().e, 0xFF);
    assert_eq!(cpu.get_registers().l, 0x01);
}

fn declared(flags: FlagEffects, flag: Flag) -> FlagEffect {
    match flag {
        Flag::Zero => flags.zero,
        Flag::Sub => flags.sub,
        Flag::HalfCarry => flags.half_carry,
        Flag::Carry => flags.carry,
    }
}

#[test]
fn no_opcode_of_the_standard_catalogue_breaks_its_flag_contract() {
    let table = get_opcodes();
    let states: [(u8, u8, u8, u16); 6] = [
        (0x00, 0x00, 0x00, 0xD000),
        (0xFF, 0xFF, 0xF0, 0xD000),
        (0x0F, 0x01, 0x10, 0xCFFE),
        (0x80, 0x80, 0x80, 0xD002),
        (0x10, 0x0F, 0x60, 0xFFFE),
        (0x01, 0xF0, 0x90, 0x0000),
    ];
    for prefixed in [false, true] {
        for byte in 0..=255u8 {
            for (a, fill, f, sp) in states {
                let mut ram = blank_ram();
                let mut at = 0x0100u16;
                if prefixed {
                    ram.set_addr(at, 0xCB);
                    at += 1;
                }
                ram.set_addr(at, byte);
                ram.set_addr(at + 1, fill);
                ram.set_addr(at + 2, 0xC1);
                ram.set_addr(0xC0C0, fill);
                ram.set_addr(0xC1C1, a);
                let mut cpu = CPU::init_with_ram_ppu(ram, PPU::init(), false);
                let mut regs = Registers::new(0x0100);
                regs.a = a;
                regs.b = 0xC0;
                regs.c = 0xC0;
                regs.d = 0xC1;
                regs.e = 0xC1;
                regs.h = 0xC0;
                regs.l = 0xC0;
                regs.f = f;
                regs.sp = sp;
                cpu.set_registers(regs);
                let result = cpu.execute_instruction();
                if !prefixed && byte == 0xF1 {
                    assert_ne!(result, Ok(()));
                    continue;
                }
                assert_ne!(result, Err(CpuError::FlagContractViolation));
                match result {
                    Err(_) => assert_eq!(cpu.get_registers(), regs),
                    Ok(()) => {
                        let entry = table.lookup(prefixed, byte).unwrap();
                        let after = cpu.get_registers();
                        for flag in [Flag::Zero, Flag::Sub, Flag::HalfCarry, Flag::Carry] {
                            match declared(entry.flags, flag) {
                                FlagEffect::Unaffected => {
                                    assert_eq!(after.get_flag(flag), regs.get_flag(flag))
                                }
                                FlagEffect::ForcedOff => assert!(!after.get_flag(flag)),
                                FlagEffect::ForcedOn => assert!(after.get_flag(flag)),
                                FlagEffect::Computed => {}
                            }
                        }
                    }
                }
            }
        }
    }
}
