use gbemulator::cpu::CPU;
use gbemulator::opcodes::{
    direct, direct_inc, effects, get_opcodes, indirect, indirect_dec, indirect_inc, keep, op0,
    op1, op2, op3, FlagEffect, Mnemonic, OperandName,
};
use gbemulator::param::{MemValue, Param};
use gbemulator::ppu::PPU;
use gbemulator::ram_memory::RamMemory;
use gbemulator::rom_parser::Rom;
use gbemulator::text::{push_decimal, push_hex_byte, push_hex_word, same_text};
use gbemulator::trace::{make_dump_line, pretty_opcode_data};

fn param(operand: gbemulator::opcodes::Operand, value: MemValue) -> Param {
    let mut p = Param::new(operand);
    p.set_param_value(value);
    p
}

#[test]
fn texts_are_compared_by_their_characters() {
    assert!(same_text("", ""));
    assert!(same_text("NOP", "NOP"));
    assert!(!same_text("NOP", "NOp"));
    assert!(!same_text("NOP", "NO"));
    assert!(!same_text("NO", "NOP"));
    assert!(same_text("\u{e9}t\u{e9}", "\u{e9}t\u{e9}"));
    assert!(!same_text("\u{e9}", "e"));
}

#[test]
fn numbers_are_written_in_hexadecimal_and_decimal() {
    let mut text = String::from(">");
    push_hex_byte(&mut text, 0x00);
    push_hex_byte(&mut text, 0x0F);
    push_hex_byte(&mut text, 0xA9);
    push_hex_byte(&mut text, 0xFF);
    assert_eq!(text, ">000FA9FF");
    let mut text = String::new();
    push_hex_word(&mut text, 0x0000);
    push_hex_word(&mut text, 0x12AB);
    push_hex_word(&mut text, 0xFFFF);
    assert_eq!(text, "000012ABFFFF");
    let mut text = String::new();
    for n in [0u8, 7, 9, 10, 42, 99, 100, 109, 255] {
        push_decimal(&mut text, n);
        text.push(' ');
    }
    assert_eq!(text, "0 7 9 10 42 99 100 109 255 ");
}

#[test]
fn mnemonics_have_their_names() {
    assert_eq!(Mnemonic::NOP.name(), "NOP");
    assert_eq!(Mnemonic::LDH.name(), "LDH");
    assert_eq!(Mnemonic::PREFIX.name(), "PREFIX");
    assert_eq!(Mnemonic::Other.name(), "?");
    assert_eq!(Mnemonic::from_name("NOP"), Mnemonic::NOP);
    assert_eq!(Mnemonic::from_name("SET"), Mnemonic::SET);
    assert_eq!(Mnemonic::from_name("nop"), Mnemonic::Other);
    assert_eq!(Mnemonic::from_name(""), Mnemonic::Other);
    assert_eq!(Mnemonic::from_name("ILLEGAL_D3"), Mnemonic::Other);
}

#[test]
fn every_catalogued_mnemonic_is_read_back_from_its_name() {
    let table = get_opcodes();
    for prefixed in [false, true] {
        for byte in 0..=255u8 {
            if let Ok(descriptor) = table.lookup(prefixed, byte) {
                assert_ne!(descriptor.mnemonic, Mnemonic::Other);
                assert_eq!(
                    Mnemonic::from_name(descriptor.mnemonic.name()),
                    descriptor.mnemonic
                );
            }
        }
    }
}

#[test]
fn operand_names_are_read_and_written() {
    let names = [
        (OperandName::A16, "a16"),
        (OperandName::D16, "d16"),
        (OperandName::D8, "d8"),
        (OperandName::R8, "r8"),
        (OperandName::A8, "a8"),
        (OperandName::A, "A"),
        (OperandName::C, "C"),
        (OperandName::L, "L"),
        (OperandName::AF, "AF"),
        (OperandName::HL, "HL"),
        (OperandName::SP, "SP"),
        (OperandName::Z, "Z"),
        (OperandName::NZ, "NZ"),
        (OperandName::NC, "NC"),
        (OperandName::Bit(0), "0"),
        (OperandName::Bit(7), "7"),
        (OperandName::Vector(0x00), "00H"),
        (OperandName::Vector(0x38), "38H"),
        (OperandName::Vector(0xAF), "AFH"),
    ];
    for (name, text) in names {
        assert_eq!(OperandName::from_name(text), name);
        let mut written = String::new();
        name.push_name(&mut written);
        assert_eq!(written, text);
    }
    for text in ["", "hl", "(HL)", "F", "n8", "0H", "0GH", "00h", "123", "x"] {
        assert_eq!(OperandName::from_name(text), OperandName::Other);
    }
    assert_eq!(OperandName::from_name("9"), OperandName::Bit(9));
    let mut written = String::new();
    OperandName::Other.push_name(&mut written);
    assert_eq!(written, "?");
}

#[test]
fn parameters_are_shown_as_the_trace_wants_them() {
    assert_eq!(
        param(direct(OperandName::D8), MemValue::Byte(0x0F)).get_printable(),
        "0x0F"
    );
    assert_eq!(
        param(direct(OperandName::R8), MemValue::SignedByte(-5)).get_printable(),
        "0xFB"
    );
    assert_eq!(
        param(direct(OperandName::R8), MemValue::SignedByte(5)).get_printable(),
        "0x05"
    );
    assert_eq!(
        param(direct(OperandName::R8), MemValue::SignedByte(-128)).get_printable(),
        "0x80"
    );
    assert_eq!(
        param(direct(OperandName::D16), MemValue::Double(0x1234)).get_printable(),
        "0x1234"
    );
    assert_eq!(
        param(indirect(OperandName::A16), MemValue::Double(0x00FF)).get_printable(),
        "(0x00FF)"
    );
    assert_eq!(
        param(indirect(OperandName::A8), MemValue::Byte(0x44)).get_printable(),
        "(0x44)"
    );
    assert_eq!(
        param(direct(OperandName::A), MemValue::Name(OperandName::A)).get_printable(),
        "A"
    );
    assert_eq!(
        param(indirect(OperandName::HL), MemValue::Name(OperandName::HL)).get_printable(),
        "(HL)"
    );
    assert_eq!(
        param(indirect_inc(OperandName::HL), MemValue::Name(OperandName::HL)).get_printable(),
        "(HL+)"
    );
    assert_eq!(
        param(indirect_dec(OperandName::HL), MemValue::Name(OperandName::HL)).get_printable(),
        "(HL-)"
    );
    assert_eq!(
        param(direct_inc(OperandName::SP), MemValue::Name(OperandName::SP)).get_printable(),
        "SP"
    );
    assert_eq!(
        param(direct(OperandName::Vector(0x38)), MemValue::Name(OperandName::Vector(0x38)))
            .get_printable(),
        "38H"
    );
}

#[test]
fn parameters_hand_out_what_they_hold() {
    let mut p = Param::new(indirect_inc(OperandName::HL));
    assert_eq!(p.get_value(), MemValue::Null);
    assert_eq!(p.get_name(), OperandName::HL);
    assert!(!p.is_immediate());
    assert!(p.is_increment());
    assert!(!p.is_decrement());
    p.set_param_value(MemValue::Byte(0x12));
    assert_eq!(p.get_byte(), 0x12);
    p.set_param_value(MemValue::Double(0x1234));
    assert_eq!(p.get_double(), 0x1234);
    p.set_param_value(MemValue::SignedByte(-3));
    assert_eq!(p.get_signed_byte(), -3);
    assert_eq!(p.get_name(), OperandName::HL);
    let q = Param::new(indirect_dec(OperandName::HL));
    assert!(q.is_decrement());
    assert!(!q.is_increment());
    assert!(Param::new(direct(OperandName::A)).is_immediate());
}

#[test]
fn an_entry_is_described_line_by_line() {
    let c = FlagEffect::Computed;
    let lines = pretty_opcode_data(&op1(
        Mnemonic::CP,
        2,
        direct(OperandName::D8),
        effects(c, FlagEffect::ForcedOn, c, FlagEffect::Unaffected),
    ));
    assert_eq!(
        lines,
        vec![
            "CP: 2 bytes",
            "    Carry -> Unaffected",
            "    Half-Carry -> By Value",
            "    Negative -> Turned On",
            "    Zero -> By Value",
            "    Param #0 -> d8 immediate",
        ]
    );
    let lines = CPU::pretty_opcode_data(&op2(
        Mnemonic::LD,
        1,
        indirect_dec(OperandName::HL),
        direct(OperandName::A),
        keep(),
    ));
    assert_eq!(
        lines,
        vec![
            "LD: 1 bytes",
            "    Carry -> Unaffected",
            "    Half-Carry -> Unaffected",
            "    Negative -> Unaffected",
            "    Zero -> Unaffected",
            "    Param #0 -> HL decrement",
            "    Param #1 -> A immediate",
        ]
    );
    let lines = pretty_opcode_data(&op3(
        Mnemonic::LD,
        2,
        direct(OperandName::HL),
        direct_inc(OperandName::SP),
        indirect(OperandName::R8),
        effects(FlagEffect::ForcedOff, FlagEffect::ForcedOff, c, c),
    ));
    assert_eq!(
        lines,
        vec![
            "LD: 2 bytes",
            "    Carry -> By Value",
            "    Half-Carry -> By Value",
            "    Negative -> Turned Off",
            "    Zero -> Turned Off",
            "    Param #0 -> HL immediate",
            "    Param #1 -> SP immediate, increment",
            "    Param #2 -> r8",
        ]
    );
    let lines = pretty_opcode_data(&op0(Mnemonic::NOP, 1, keep()));
    assert_eq!(lines.len(), 5);
    assert_eq!(lines[0], "NOP: 1 bytes");
    let lines = pretty_opcode_data(&op1(Mnemonic::INC, 1, indirect_inc(OperandName::HL), keep()));
    assert_eq!(lines[5], "    Param #0 -> HL increment");
}

#[test]
fn the_store_is_dumped_eight_bytes_to_a_line() {
    let rom = Rom::create_from_bytes(vec![0u8; 0x8000]);
    let mut ram = RamMemory::init_from_rom(&rom);
    for i in 0..8u16 {
        ram.set_addr(0x0100 + i, 0xA0 + i as u8);
    }
    ram.set_addr(0xFFFF, 0xEE);
    assert_eq!(
        make_dump_line(&ram, 0x0100),
        "0x0100 -> 0xA0 0xA1 0xA2 0xA3 0xA4 0xA5 0xA6 0xA7 "
    );
    assert_eq!(
        make_dump_line(&ram, 0xFFF8),
        "0xFFF8 -> 0x00 0x00 0x00 0x00 0x00 0x00 0x00 0xEE "
    );
    let cpu = CPU::init_with_ram_ppu(ram, PPU::init(), false);
    let dump = cpu.dump_memory();
    assert_eq!(dump.len(), 8192);
    assert_eq!(dump[0], "0x0000 -> 0x00 0x00 0x00 0x00 0x00 0x00 0x00 0x00 ");
    assert_eq!(dump[0x20], "0x0100 -> 0xA0 0xA1 0xA2 0xA3 0xA4 0xA5 0xA6 0xA7 ");
    assert_eq!(dump[8191], "0xFFF8 -> 0x00 0x00 0x00 0x00 0x00 0x00 0x00 0xEE ");
}
