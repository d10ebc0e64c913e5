//! The opcode catalogue: for each opcode byte of the plain table and of the
//! table behind the escape byte, the instruction's mnemonic, its operands,
//! its length and what it declares to do to each flag.

use vstd::prelude::*;
use crate::error::CpuError;
use crate::registers::{Condition, Register, RegisterPair};
use crate::text::{decimal, digit_char, hex_byte, push_decimal, push_hex_byte, same_text};
use vstd::string::*;

verus! {

/// The byte that announces an opcode of the second table.
pub const PREFIX_BYTE: u8 = 0xCB;

/// Number of entries of each table: one per byte value.
pub const TABLE_SIZE: usize = 256;

/// The operation names of the catalogue. The engine executes some of them;
/// the others are catalogued and reported as unimplemented when met.
#[allow(non_camel_case_types)]
#[derive(Clone, Copy, Debug, PartialEq, Eq, Structural)]
pub enum Mnemonic {
    NOP,
    LD,
    LDH,
    INC,
    DEC,
    ADD,
    ADC,
    SUB,
    SBC,
    AND,
    XOR,
    OR,
    CP,
    JP,
    JR,
    CALL,
    RET,
    RETI,
    RST,
    PUSH,
    POP,
    RLCA,
    RRCA,
    RLA,
    RRA,
    DAA,
    CPL,
    SCF,
    CCF,
    HALT,
    STOP,
    DI,
    EI,
    PREFIX,
    RLC,
    RRC,
    RL,
    RR,
    SLA,
    SRA,
    SWAP,
    SRL,
    BIT,
    RES,
    SET,
    /// A name that the engine does not know.
    Other,
}

/// What an operand slot is called in the catalogue: a pseudo-name for a
/// value that follows the opcode in memory, the name of a register, of a
/// register pair or of a condition, a bit index, or a restart vector.
/// `C` is both the register and the carry condition; the instruction
/// decides which one it reads.
#[allow(non_camel_case_types)]
#[derive(Clone, Copy, Debug, PartialEq, Eq, Structural)]
pub enum OperandName {
    /// A two-byte absolute address after the opcode.
    A16,
    /// A two-byte immediate word after the opcode.
    D16,
    /// A one-byte immediate after the opcode.
    D8,
    /// A one-byte signed offset after the opcode.
    R8,
    /// A one-byte address into the high page after the opcode.
    A8,
    A,
    B,
    C,
    D,
    E,
    H,
    L,
    AF,
    BC,
    DE,
    HL,
    SP,
    Z,
    NZ,
    NC,
    /// A bit index, written as a decimal digit.
    Bit(u8),
    /// A restart vector, written as two hexadecimal digits and `H`.
    Vector(u8),
    /// A name that the engine does not know.
    Other,
}

impl OperandName {
    /// The byte register of this name, if it is one.
    #[verifier::when_used_as_spec(spec_register)]
    pub fn register(self) -> (r: Option<Register>)
        ensures
            r == self.spec_register(),
    {
        match self {
            OperandName::A => Some(Register::A),
            OperandName::B => Some(Register::B),
            OperandName::C => Some(Register::C),
            OperandName::D => Some(Register::D),
            OperandName::E => Some(Register::E),
            OperandName::H => Some(Register::H),
            OperandName::L => Some(Register::L),
            _ => None,
        }
    }

    pub open spec fn spec_register(self) -> Option<Register> {
        match self {
            OperandName::A => Some(Register::A),
            OperandName::B => Some(Register::B),
            OperandName::C => Some(Register::C),
            OperandName::D => Some(Register::D),
            OperandName::E => Some(Register::E),
            OperandName::H => Some(Register::H),
            OperandName::L => Some(Register::L),
            _ => None,
        }
    }

    /// The register pair of this name, if it is one.
    #[verifier::when_used_as_spec(spec_pair)]
    pub fn pair(self) -> (p: Option<RegisterPair>)
        ensures
            p == self.spec_pair(),
    {
        match self {
            OperandName::AF => Some(RegisterPair::AF),
            OperandName::BC => Some(RegisterPair::BC),
            OperandName::DE => Some(RegisterPair::DE),
            OperandName::HL => Some(RegisterPair::HL),
            OperandName::SP => Some(RegisterPair::SP),
            _ => None,
        }
    }

    pub open spec fn spec_pair(self) -> Option<RegisterPair> {
        match self {
            OperandName::AF => Some(RegisterPair::AF),
            OperandName::BC => Some(RegisterPair::BC),
            OperandName::DE => Some(RegisterPair::DE),
            OperandName::HL => Some(RegisterPair::HL),
            OperandName::SP => Some(RegisterPair::SP),
            _ => None,
        }
    }

    /// The condition of this name, if it is one.
    #[verifier::when_used_as_spec(spec_condition)]
    pub fn condition(self) -> (c: Option<Condition>)
        ensures
            c == self.spec_condition(),
    {
        match self {
            OperandName::Z => Some(Condition::Z),
            OperandName::NZ => Some(Condition::NZ),
            OperandName::C => Some(Condition::C),
            OperandName::NC => Some(Condition::NC),
            _ => None,
        }
    }

    pub open spec fn spec_condition(self) -> Option<Condition> {
        match self {
            OperandName::Z => Some(Condition::Z),
            OperandName::NZ => Some(Condition::NZ),
            OperandName::C => Some(Condition::C),
            OperandName::NC => Some(Condition::NC),
            _ => None,
        }
    }
}

/// The mnemonic that a name of the catalogue stands for; a name that the
/// engine does not know stands for `Other`.
pub open spec fn mnemonic_named(name: Seq<char>) -> Mnemonic {
    if name == "NOP"@ {
        Mnemonic::NOP
    } else if name == "LD"@ {
        Mnemonic::LD
    } else if name == "LDH"@ {
        Mnemonic::LDH
    } else if name == "INC"@ {
        Mnemonic::INC
    } else if name == "DEC"@ {
        Mnemonic::DEC
    } else if name == "ADD"@ {
        Mnemonic::ADD
    } else if name == "ADC"@ {
        Mnemonic::ADC
    } else if name == "SUB"@ {
        Mnemonic::SUB
    } else if name == "SBC"@ {
        Mnemonic::SBC
    } else if name == "AND"@ {
        Mnemonic::AND
    } else if name == "XOR"@ {
        Mnemonic::XOR
    } else if name == "OR"@ {
        Mnemonic::OR
    } else if name == "CP"@ {
        Mnemonic::CP
    } else if name == "JP"@ {
        Mnemonic::JP
    } else if name == "JR"@ {
        Mnemonic::JR
    } else if name == "CALL"@ {
        Mnemonic::CALL
    } else if name == "RET"@ {
        Mnemonic::RET
    } else if name == "RETI"@ {
        Mnemonic::RETI
    } else if name == "RST"@ {
        Mnemonic::RST
    } else if name == "PUSH"@ {
        Mnemonic::PUSH
    } else if name == "POP"@ {
        Mnemonic::POP
    } else if name == "RLCA"@ {
        Mnemonic::RLCA
    } else if name == "RRCA"@ {
        Mnemonic::RRCA
    } else if name == "RLA"@ {
        Mnemonic::RLA
    } else if name == "RRA"@ {
        Mnemonic::RRA
    } else if name == "DAA"@ {
        Mnemonic::DAA
    } else if name == "CPL"@ {
        Mnemonic::CPL
    } else if name == "SCF"@ {
        Mnemonic::SCF
    } else if name == "CCF"@ {
        Mnemonic::CCF
    } else if name == "HALT"@ {
        Mnemonic::HALT
    } else if name == "STOP"@ {
        Mnemonic::STOP
    } else if name == "DI"@ {
        Mnemonic::DI
    } else if name == "EI"@ {
        Mnemonic::EI
    } else if name == "PREFIX"@ {
        Mnemonic::PREFIX
    } else if name == "RLC"@ {
        Mnemonic::RLC
    } else if name == "RRC"@ {
        Mnemonic::RRC
    } else if name == "RL"@ {
        Mnemonic::RL
    } else if name == "RR"@ {
        Mnemonic::RR
    } else if name == "SLA"@ {
        Mnemonic::SLA
    } else if name == "SRA"@ {
        Mnemonic::SRA
    } else if name == "SWAP"@ {
        Mnemonic::SWAP
    } else if name == "SRL"@ {
        Mnemonic::SRL
    } else if name == "BIT"@ {
        Mnemonic::BIT
    } else if name == "RES"@ {
        Mnemonic::RES
    } else if name == "SET"@ {
        Mnemonic::SET
    } else {
        Mnemonic::Other
    }
}

impl Mnemonic {
    /// The name as the catalogue writes it.
    pub open spec fn spec_name(self) -> Seq<char> {
        match self {
            Mnemonic::NOP => "NOP"@,
            Mnemonic::LD => "LD"@,
            Mnemonic::LDH => "LDH"@,
            Mnemonic::INC => "INC"@,
            Mnemonic::DEC => "DEC"@,
            Mnemonic::ADD => "ADD"@,
            Mnemonic::ADC => "ADC"@,
            Mnemonic::SUB => "SUB"@,
            Mnemonic::SBC => "SBC"@,
            Mnemonic::AND => "AND"@,
            Mnemonic::XOR => "XOR"@,
            Mnemonic::OR => "OR"@,
            Mnemonic::CP => "CP"@,
            Mnemonic::JP => "JP"@,
            Mnemonic::JR => "JR"@,
            Mnemonic::CALL => "CALL"@,
            Mnemonic::RET => "RET"@,
            Mnemonic::RETI => "RETI"@,
            Mnemonic::RST => "RST"@,
            Mnemonic::PUSH => "PUSH"@,
            Mnemonic::POP => "POP"@,
            Mnemonic::RLCA => "RLCA"@,
            Mnemonic::RRCA => "RRCA"@,
            Mnemonic::RLA => "RLA"@,
            Mnemonic::RRA => "RRA"@,
            Mnemonic::DAA => "DAA"@,
            Mnemonic::CPL => "CPL"@,
            Mnemonic::SCF => "SCF"@,
            Mnemonic::CCF => "CCF"@,
            Mnemonic::HALT => "HALT"@,
            Mnemonic::STOP => "STOP"@,
            Mnemonic::DI => "DI"@,
            Mnemonic::EI => "EI"@,
            Mnemonic::PREFIX => "PREFIX"@,
            Mnemonic::RLC => "RLC"@,
            Mnemonic::RRC => "RRC"@,
            Mnemonic::RL => "RL"@,
            Mnemonic::RR => "RR"@,
            Mnemonic::SLA => "SLA"@,
            Mnemonic::SRA => "SRA"@,
            Mnemonic::SWAP => "SWAP"@,
            Mnemonic::SRL => "SRL"@,
            Mnemonic::BIT => "BIT"@,
            Mnemonic::RES => "RES"@,
            Mnemonic::SET => "SET"@,
            Mnemonic::Other => "?"@,
        }
    }

    /// The name as the catalogue writes it.
    pub fn name(self) -> (name: &'static str)
        ensures
            name@ == self.spec_name(),
    {
        match self {
            Mnemonic::NOP => "NOP",
            Mnemonic::LD => "LD",
            Mnemonic::LDH => "LDH",
            Mnemonic::INC => "INC",
            Mnemonic::DEC => "DEC",
            Mnemonic::ADD => "ADD",
            Mnemonic::ADC => "ADC",
            Mnemonic::SUB => "SUB",
            Mnemonic::SBC => "SBC",
            Mnemonic::AND => "AND",
            Mnemonic::XOR => "XOR",
            Mnemonic::OR => "OR",
            Mnemonic::CP => "CP",
            Mnemonic::JP => "JP",
            Mnemonic::JR => "JR",
            Mnemonic::CALL => "CALL",
            Mnemonic::RET => "RET",
            Mnemonic::RETI => "RETI",
            Mnemonic::RST => "RST",
            Mnemonic::PUSH => "PUSH",
            Mnemonic::POP => "POP",
            Mnemonic::RLCA => "RLCA",
            Mnemonic::RRCA => "RRCA",
            Mnemonic::RLA => "RLA",
            Mnemonic::RRA => "RRA",
            Mnemonic::DAA => "DAA",
            Mnemonic::CPL => "CPL",
            Mnemonic::SCF => "SCF",
            Mnemonic::CCF => "CCF",
            Mnemonic::HALT => "HALT",
            Mnemonic::STOP => "STOP",
            Mnemonic::DI => "DI",
            Mnemonic::EI => "EI",
            Mnemonic::PREFIX => "PREFIX",
            Mnemonic::RLC => "RLC",
            Mnemonic::RRC => "RRC",
            Mnemonic::RL => "RL",
            Mnemonic::RR => "RR",
            Mnemonic::SLA => "SLA",
            Mnemonic::SRA => "SRA",
            Mnemonic::SWAP => "SWAP",
            Mnemonic::SRL => "SRL",
            Mnemonic::BIT => "BIT",
            Mnemonic::RES => "RES",
            Mnemonic::SET => "SET",
            Mnemonic::Other => "?",
        }
    }

    /// Reads a mnemonic from its name.
    pub fn from_name(name: &str) -> (m: Mnemonic)
        ensures
            m == mnemonic_named(name@),
    {
        if same_text(name, "NOP") {
            Mnemonic::NOP
        } else if same_text(name, "LD") {
            Mnemonic::LD
        } else if same_text(name, "LDH") {
            Mnemonic::LDH
        } else if same_text(name, "INC") {
            Mnemonic::INC
        } else if same_text(name, "DEC") {
            Mnemonic::DEC
        } else if same_text(name, "ADD") {
            Mnemonic::ADD
        } else if same_text(name, "ADC") {
            Mnemonic::ADC
        } else if same_text(name, "SUB") {
            Mnemonic::SUB
        } else if same_text(name, "SBC") {
            Mnemonic::SBC
        } else if same_text(name, "AND") {
            Mnemonic::AND
        } else if same_text(name, "XOR") {
            Mnemonic::XOR
        } else if same_text(name, "OR") {
            Mnemonic::OR
        } else if same_text(name, "CP") {
            Mnemonic::CP
        } else if same_text(name, "JP") {
            Mnemonic::JP
        } else if same_text(name, "JR") {
            Mnemonic::JR
        } else if same_text(name, "CALL") {
            Mnemonic::CALL
        } else if same_text(name, "RET") {
            Mnemonic::RET
        } else if same_text(name, "RETI") {
            Mnemonic::RETI
        } else if same_text(name, "RST") {
            Mnemonic::RST
        } else if same_text(name, "PUSH") {
            Mnemonic::PUSH
        } else if same_text(name, "POP") {
            Mnemonic::POP
        } else if same_text(name, "RLCA") {
            Mnemonic::RLCA
        } else if same_text(name, "RRCA") {
            Mnemonic::RRCA
        } else if same_text(name, "RLA") {
            Mnemonic::RLA
        } else if same_text(name, "RRA") {
            Mnemonic::RRA
        } else if same_text(name, "DAA") {
            Mnemonic::DAA
        } else if same_text(name, "CPL") {
            Mnemonic::CPL
        } else if same_text(name, "SCF") {
            Mnemonic::SCF
        } else if same_text(name, "CCF") {
            Mnemonic::CCF
        } else if same_text(name, "HALT") {
            Mnemonic::HALT
        } else if same_text(name, "STOP") {
            Mnemonic::STOP
        } else if same_text(name, "DI") {
            Mnemonic::DI
        } else if same_text(name, "EI") {
            Mnemonic::EI
        } else if same_text(name, "PREFIX") {
            Mnemonic::PREFIX
        } else if same_text(name, "RLC") {
            Mnemonic::RLC
        } else if same_text(name, "RRC") {
            Mnemonic::RRC
        } else if same_text(name, "RL") {
            Mnemonic::RL
        } else if same_text(name, "RR") {
            Mnemonic::RR
        } else if same_text(name, "SLA") {
            Mnemonic::SLA
        } else if same_text(name, "SRA") {
            Mnemonic::SRA
        } else if same_text(name, "SWAP") {
            Mnemonic::SWAP
        } else if same_text(name, "SRL") {
            Mnemonic::SRL
        } else if same_text(name, "BIT") {
            Mnemonic::BIT
        } else if same_text(name, "RES") {
            Mnemonic::RES
        } else if same_text(name, "SET") {
            Mnemonic::SET
        } else {
            Mnemonic::Other
        }
    }
}

/// The value of a decimal digit.
pub open spec fn decimal_value(c: char) -> Option<u8> {
    if '0' <= c <= '9' {
        Some((c as int - '0' as int) as u8)
    } else {
        None
    }
}

/// The value of a hexadecimal digit, letters in upper case.
pub open spec fn hex_value(c: char) -> Option<u8> {
    if '0' <= c <= '9' {
        Some((c as int - '0' as int) as u8)
    } else if 'A' <= c <= 'F' {
        Some((c as int - 'A' as int + 10) as u8)
    } else {
        None
    }
}

/// The operand name that a text of the catalogue stands for: one of the
/// fixed names; a single decimal digit, which is a bit index; two
/// hexadecimal digits and `H`, which are a restart vector; anything else
/// stands for `Other`.
pub open spec fn operand_named(name: Seq<char>) -> OperandName {
    if name == "a16"@ {
        OperandName::A16
    } else if name == "d16"@ {
        OperandName::D16
    } else if name == "d8"@ {
        OperandName::D8
    } else if name == "r8"@ {
        OperandName::R8
    } else if name == "a8"@ {
        OperandName::A8
    } else if name == "A"@ {
        OperandName::A
    } else if name == "B"@ {
        OperandName::B
    } else if name == "C"@ {
        OperandName::C
    } else if name == "D"@ {
        OperandName::D
    } else if name == "E"@ {
        OperandName::E
    } else if name == "H"@ {
        OperandName::H
    } else if name == "L"@ {
        OperandName::L
    } else if name == "AF"@ {
        OperandName::AF
    } else if name == "BC"@ {
        OperandName::BC
    } else if name == "DE"@ {
        OperandName::DE
    } else if name == "HL"@ {
        OperandName::HL
    } else if name == "SP"@ {
        OperandName::SP
    } else if name == "Z"@ {
        OperandName::Z
    } else if name == "NZ"@ {
        OperandName::NZ
    } else if name == "NC"@ {
        OperandName::NC
    } else if name.len() == 1 && decimal_value(name[0]) is Some {
        OperandName::Bit(decimal_value(name[0])->Some_0)
    } else if name.len() == 3 && name[2] == 'H' && hex_value(name[0]) is Some && hex_value(
        name[1],
    ) is Some {
        OperandName::Vector((hex_value(name[0])->Some_0 * 16 + hex_value(name[1])->Some_0) as u8)
    } else {
        OperandName::Other
    }
}

fn decimal_digit(c: char) -> (v: Option<u8>)
    ensures
        v == decimal_value(c),
{
    if '0' <= c && c <= '9' {
        Some(((c as u32) - 48) as u8)
    } else {
        None
    }
}

fn hex_digit(c: char) -> (v: Option<u8>)
    ensures
        v == hex_value(c),
{
    if '0' <= c && c <= '9' {
        Some(((c as u32) - 48) as u8)
    } else if 'A' <= c && c <= 'F' {
        Some(((c as u32) - 55) as u8)
    } else {
        None
    }
}

impl OperandName {
    /// The name as the catalogue writes it.
    pub open spec fn spec_name(self) -> Seq<char> {
        match self {
            OperandName::A16 => "a16"@,
            OperandName::D16 => "d16"@,
            OperandName::D8 => "d8"@,
            OperandName::R8 => "r8"@,
            OperandName::A8 => "a8"@,
            OperandName::A => "A"@,
            OperandName::B => "B"@,
            OperandName::C => "C"@,
            OperandName::D => "D"@,
            OperandName::E => "E"@,
            OperandName::H => "H"@,
            OperandName::L => "L"@,
            OperandName::AF => "AF"@,
            OperandName::BC => "BC"@,
            OperandName::DE => "DE"@,
            OperandName::HL => "HL"@,
            OperandName::SP => "SP"@,
            OperandName::Z => "Z"@,
            OperandName::NZ => "NZ"@,
            OperandName::NC => "NC"@,
            OperandName::Bit(index) => decimal(index as nat),
            OperandName::Vector(addr) => hex_byte(addr) + seq!['H'],
            OperandName::Other => "?"@,
        }
    }

    /// Appends the name as the catalogue writes it.
    pub fn push_name(self, text: &mut String)
        ensures
            final(text)@ == old(text)@ + self.spec_name(),
    {
        match self {
            OperandName::A16 => text.append("a16"),
            OperandName::D16 => text.append("d16"),
            OperandName::D8 => text.append("d8"),
            OperandName::R8 => text.append("r8"),
            OperandName::A8 => text.append("a8"),
            OperandName::A => text.append("A"),
            OperandName::B => text.append("B"),
            OperandName::C => text.append("C"),
            OperandName::D => text.append("D"),
            OperandName::E => text.append("E"),
            OperandName::H => text.append("H"),
            OperandName::L => text.append("L"),
            OperandName::AF => text.append("AF"),
            OperandName::BC => text.append("BC"),
            OperandName::DE => text.append("DE"),
            OperandName::HL => text.append("HL"),
            OperandName::SP => text.append("SP"),
            OperandName::Z => text.append("Z"),
            OperandName::NZ => text.append("NZ"),
            OperandName::NC => text.append("NC"),
            OperandName::Bit(index) => push_decimal(text, index),
            OperandName::Vector(addr) => {
                push_hex_byte(text, addr);
                text.push('H');
                assert(text@ =~= old(text)@ + (hex_byte(addr) + seq!['H']));
            },
            OperandName::Other => text.append("?"),
        }
    }

    /// Reads an operand name from its text.
    pub fn from_name(name: &str) -> (n: OperandName)
        ensures
            n == operand_named(name@),
    {
        if same_text(name, "a16") {
            OperandName::A16
        } else if same_text(name, "d16") {
            OperandName::D16
        } else if same_text(name, "d8") {
            OperandName::D8
        } else if same_text(name, "r8") {
            OperandName::R8
        } else if same_text(name, "a8") {
            OperandName::A8
        } else if same_text(name, "A") {
            OperandName::A
        } else if same_text(name, "B") {
            OperandName::B
        } else if same_text(name, "C") {
            OperandName::C
        } else if same_text(name, "D") {
            OperandName::D
        } else if same_text(name, "E") {
            OperandName::E
        } else if same_text(name, "H") {
            OperandName::H
        } else if same_text(name, "L") {
            OperandName::L
        } else if same_text(name, "AF") {
            OperandName::AF
        } else if same_text(name, "BC") {
            OperandName::BC
        } else if same_text(name, "DE") {
            OperandName::DE
        } else if same_text(name, "HL") {
            OperandName::HL
        } else if same_text(name, "SP") {
            OperandName::SP
        } else if same_text(name, "Z") {
            OperandName::Z
        } else if same_text(name, "NZ") {
            OperandName::NZ
        } else if same_text(name, "NC") {
            OperandName::NC
        } else {
            let len = name.unicode_len();
            if len == 1 {
                match decimal_digit(name.get_char(0)) {
                    Some(index) => OperandName::Bit(index),
                    None => OperandName::Other,
                }
            } else if len == 3 && name.get_char(2) == 'H' {
                match (hex_digit(name.get_char(0)), hex_digit(name.get_char(1))) {
                    (Some(high), Some(low)) => OperandName::Vector(high * 16 + low),
                    _ => OperandName::Other,
                }
            } else {
                OperandName::Other
            }
        }
    }
}

/// Every mnemonic but `Other` is read back from its name: no two names
/// are the same.
pub proof fn lemma_mnemonic_names_are_distinct(mnemonic: Mnemonic)
    requires
        mnemonic != Mnemonic::Other,
    ensures
        mnemonic_named(mnemonic.spec_name()) == mnemonic,
{
    reveal_strlit("NOP");
    assert("NOP"@.len() == 3);
    assert("NOP"@[0] == 'N');
    assert("NOP"@[1] == 'O');
    assert("NOP"@[2] == 'P');
    reveal_strlit("LD");
    assert("LD"@.len() == 2);
    assert("LD"@[0] == 'L');
    assert("LD"@[1] == 'D');
    reveal_strlit("LDH");
    assert("LDH"@.len() == 3);
    assert("LDH"@[0] == 'L');
    assert("LDH"@[1] == 'D');
    assert("LDH"@[2] == 'H');
    reveal_strlit("INC");
    assert("INC"@.len() == 3);
    assert("INC"@[0] == 'I');
    assert("INC"@[1] == 'N');
    assert("INC"@[2] == 'C');
    reveal_strlit("DEC");
    assert("DEC"@.len() == 3);
    assert("DEC"@[0] == 'D');
    assert("DEC"@[1] == 'E');
    assert("DEC"@[2] == 'C');
    reveal_strlit("ADD");
    assert("ADD"@.len() == 3);
    assert("ADD"@[0] == 'A');
    assert("ADD"@[1] == 'D');
    assert("ADD"@[2] == 'D');
    reveal_strlit("ADC");
    assert("ADC"@.len() == 3);
    assert("ADC"@[0] == 'A');
    assert("ADC"@[1] == 'D');
    assert("ADC"@[2] == 'C');
    reveal_strlit("SUB");
    assert("SUB"@.len() == 3);
    assert("SUB"@[0] == 'S');
    assert("SUB"@[1] == 'U');
    assert("SUB"@[2] == 'B');
    reveal_strlit("SBC");
    assert("SBC"@.len() == 3);
    assert("SBC"@[0] == 'S');
    assert("SBC"@[1] == 'B');
    assert("SBC"@[2] == 'C');
    reveal_strlit("AND");
    assert("AND"@.len() == 3);
    assert("AND"@[0] == 'A');
    assert("AND"@[1] == 'N');
    assert("AND"@[2] == 'D');
    reveal_strlit("XOR");
    assert("XOR"@.len() == 3);
    assert("XOR"@[0] == 'X');
    assert("XOR"@[1] == 'O');
    assert("XOR"@[2] == 'R');
    reveal_strlit("OR");
    assert("OR"@.len() == 2);
    assert("OR"@[0] == 'O');
    assert("OR"@[1] == 'R');
    reveal_strlit("CP");
    assert("CP"@.len() == 2);
    assert("CP"@[0] == 'C');
    assert("CP"@[1] == 'P');
    reveal_strlit("JP");
    assert("JP"@.len() == 2);
    assert("JP"@[0] == 'J');
    assert("JP"@[1] == 'P');
    reveal_strlit("JR");
    assert("JR"@.len() == 2);
    assert("JR"@[0] == 'J');
    assert("JR"@[1] == 'R');
    reveal_strlit("CALL");
    assert("CALL"@.len() == 4);
    assert("CALL"@[0] == 'C');
    assert("CALL"@[1] == 'A');
    assert("CALL"@[2] == 'L');
    assert("CALL"@[3] == 'L');
    reveal_strlit("RET");
    assert("RET"@.len() == 3);
    assert("RET"@[0] == 'R');
    assert("RET"@[1] == 'E');
    assert("RET"@[2] == 'T');
    reveal_strlit("RETI");
    assert("RETI"@.len() == 4);
    assert("RETI"@[0] == 'R');
    assert("RETI"@[1] == 'E');
    assert("RETI"@[2] == 'T');
    assert("RETI"@[3] == 'I');
    reveal_strlit("RST");
    assert("RST"@.len() == 3);
    assert("RST"@[0] == 'R');
    assert("RST"@[1] == 'S');
    assert("RST"@[2] == 'T');
    reveal_strlit("PUSH");
    assert("PUSH"@.len() == 4);
    assert("PUSH"@[0] == 'P');
    assert("PUSH"@[1] == 'U');
    assert("PUSH"@[2] == 'S');
    assert("PUSH"@[3] == 'H');
    reveal_strlit("POP");
    assert("POP"@.len() == 3);
    assert("POP"@[0] == 'P');
    assert("POP"@[1] == 'O');
    assert("POP"@[2] == 'P');
    reveal_strlit("RLCA");
    assert("RLCA"@.len() == 4);
    assert("RLCA"@[0] == 'R');
    assert("RLCA"@[1] == 'L');
    assert("RLCA"@[2] == 'C');
    assert("RLCA"@[3] == 'A');
    reveal_strlit("RRCA");
    assert("RRCA"@.len() == 4);
    assert("RRCA"@[0] == 'R');
    assert("RRCA"@[1] == 'R');
    assert("RRCA"@[2] == 'C');
    assert("RRCA"@[3] == 'A');
    reveal_strlit("RLA");
    assert("RLA"@.len() == 3);
    assert("RLA"@[0] == 'R');
    assert("RLA"@[1] == 'L');
    assert("RLA"@[2] == 'A');
    reveal_strlit("RRA");
    assert("RRA"@.len() == 3);
    assert("RRA"@[0] == 'R');
    assert("RRA"@[1] == 'R');
    assert("RRA"@[2] == 'A');
    reveal_strlit("DAA");
    assert("DAA"@.len() == 3);
    assert("DAA"@[0] == 'D');
    assert("DAA"@[1] == 'A');
    assert("DAA"@[2] == 'A');
    reveal_strlit("CPL");
    assert("CPL"@.len() == 3);
    assert("CPL"@[0] == 'C');
    assert("CPL"@[1] == 'P');
    assert("CPL"@[2] == 'L');
    reveal_strlit("SCF");
    assert("SCF"@.len() == 3);
    assert("SCF"@[0] == 'S');
    assert("SCF"@[1] == 'C');
    assert("SCF"@[2] == 'F');
    reveal_strlit("CCF");
    assert("CCF"@.len() == 3);
    assert("CCF"@[0] == 'C');
    assert("CCF"@[1] == 'C');
    assert("CCF"@[2] == 'F');
    reveal_strlit("HALT");
    assert("HALT"@.len() == 4);
    assert("HALT"@[0] == 'H');
    assert("HALT"@[1] == 'A');
    assert("HALT"@[2] == 'L');
    assert("HALT"@[3] == 'T');
    reveal_strlit("STOP");
    assert("STOP"@.len() == 4);
    assert("STOP"@[0] == 'S');
    assert("STOP"@[1] == 'T');
    assert("STOP"@[2] == 'O');
    assert("STOP"@[3] == 'P');
    reveal_strlit("DI");
    assert("DI"@.len() == 2);
    assert("DI"@[0] == 'D');
    assert("DI"@[1] == 'I');
    reveal_strlit("EI");
    assert("EI"@.len() == 2);
    assert("EI"@[0] == 'E');
    assert("EI"@[1] == 'I');
    reveal_strlit("PREFIX");
    assert("PREFIX"@.len() == 6);
    assert("PREFIX"@[0] == 'P');
    assert("PREFIX"@[1] == 'R');
    assert("PREFIX"@[2] == 'E');
    assert("PREFIX"@[3] == 'F');
    assert("PREFIX"@[4] == 'I');
    assert("PREFIX"@[5] == 'X');
    reveal_strlit("RLC");
    assert("RLC"@.len() == 3);
    assert("RLC"@[0] == 'R');
    assert("RLC"@[1] == 'L');
    assert("RLC"@[2] == 'C');
    reveal_strlit("RRC");
    assert("RRC"@.len() == 3);
    assert("RRC"@[0] == 'R');
    assert("RRC"@[1] == 'R');
    assert("RRC"@[2] == 'C');
    reveal_strlit("RL");
    assert("RL"@.len() == 2);
    assert("RL"@[0] == 'R');
    assert("RL"@[1] == 'L');
    reveal_strlit("RR");
    assert("RR"@.len() == 2);
    assert("RR"@[0] == 'R');
    assert("RR"@[1] == 'R');
    reveal_strlit("SLA");
    assert("SLA"@.len() == 3);
    assert("SLA"@[0] == 'S');
    assert("SLA"@[1] == 'L');
    assert("SLA"@[2] == 'A');
    reveal_strlit("SRA");
    assert("SRA"@.len() == 3);
    assert("SRA"@[0] == 'S');
    assert("SRA"@[1] == 'R');
    assert("SRA"@[2] == 'A');
    reveal_strlit("SWAP");
    assert("SWAP"@.len() == 4);
    assert("SWAP"@[0] == 'S');
    assert("SWAP"@[1] == 'W');
    assert("SWAP"@[2] == 'A');
    assert("SWAP"@[3] == 'P');
    reveal_strlit("SRL");
    assert("SRL"@.len() == 3);
    assert("SRL"@[0] == 'S');
    assert("SRL"@[1] == 'R');
    assert("SRL"@[2] == 'L');
    reveal_strlit("BIT");
    assert("BIT"@.len() == 3);
    assert("BIT"@[0] == 'B');
    assert("BIT"@[1] == 'I');
    assert("BIT"@[2] == 'T');
    reveal_strlit("RES");
    assert("RES"@.len() == 3);
    assert("RES"@[0] == 'R');
    assert("RES"@[1] == 'E');
    assert("RES"@[2] == 'S');
    reveal_strlit("SET");
    assert("SET"@.len() == 3);
    assert("SET"@[0] == 'S');
    assert("SET"@[1] == 'E');
    assert("SET"@[2] == 'T');
}

/// Every operand name of the catalogue is read back from its text: the
/// fixed names, the bit indices of one digit and the restart vectors.
pub proof fn lemma_operand_names_are_distinct(name: OperandName)
    requires
        name != OperandName::Other,
        name matches OperandName::Bit(index) ==> index <= 9,
    ensures
        operand_named(name.spec_name()) == name,
{
    reveal_strlit("a16");
    assert("a16"@.len() == 3);
    assert("a16"@[0] == 'a');
    assert("a16"@[1] == '1');
    assert("a16"@[2] == '6');
    reveal_strlit("d16");
    assert("d16"@.len() == 3);
    assert("d16"@[0] == 'd');
    assert("d16"@[1] == '1');
    assert("d16"@[2] == '6');
    reveal_strlit("d8");
    assert("d8"@.len() == 2);
    assert("d8"@[0] == 'd');
    assert("d8"@[1] == '8');
    reveal_strlit("r8");
    assert("r8"@.len() == 2);
    assert("r8"@[0] == 'r');
    assert("r8"@[1] == '8');
    reveal_strlit("a8");
    assert("a8"@.len() == 2);
    assert("a8"@[0] == 'a');
    assert("a8"@[1] == '8');
    reveal_strlit("A");
    assert("A"@.len() == 1);
    assert("A"@[0] == 'A');
    reveal_strlit("B");
    assert("B"@.len() == 1);
    assert("B"@[0] == 'B');
    reveal_strlit("C");
    assert("C"@.len() == 1);
    assert("C"@[0] == 'C');
    reveal_strlit("D");
    assert("D"@.len() == 1);
    assert("D"@[0] == 'D');
    reveal_strlit("E");
    assert("E"@.len() == 1);
    assert("E"@[0] == 'E');
    reveal_strlit("H");
    assert("H"@.len() == 1);
    assert("H"@[0] == 'H');
    reveal_strlit("L");
    assert("L"@.len() == 1);
    assert("L"@[0] == 'L');
    reveal_strlit("AF");
    assert("AF"@.len() == 2);
    assert("AF"@[0] == 'A');
    assert("AF"@[1] == 'F');
    reveal_strlit("BC");
    assert("BC"@.len() == 2);
    assert("BC"@[0] == 'B');
    assert("BC"@[1] == 'C');
    reveal_strlit("DE");
    assert("DE"@.len() == 2);
    assert("DE"@[0] == 'D');
    assert("DE"@[1] == 'E');
    reveal_strlit("HL");
    assert("HL"@.len() == 2);
    assert("HL"@[0] == 'H');
    assert("HL"@[1] == 'L');
    reveal_strlit("SP");
    assert("SP"@.len() == 2);
    assert("SP"@[0] == 'S');
    assert("SP"@[1] == 'P');
    reveal_strlit("Z");
    assert("Z"@.len() == 1);
    assert("Z"@[0] == 'Z');
    reveal_strlit("NZ");
    assert("NZ"@.len() == 2);
    assert("NZ"@[0] == 'N');
    assert("NZ"@[1] == 'Z');
    reveal_strlit("NC");
    assert("NC"@.len() == 2);
    assert("NC"@[0] == 'N');
    assert("NC"@[1] == 'C');
    match name {
        OperandName::Bit(index) => {
            assert(decimal(index as nat) =~= seq![digit_char(index as int)]);
        },
        OperandName::Vector(addr) => {
            let text = hex_byte(addr) + seq!['H'];
            assert(text.len() == 3);
            assert(text[0] == digit_char(addr as int / 16));
            assert(text[1] == digit_char(addr as int % 16));
            assert(text[2] == 'H');
            assert(hex_value(text[0]) == Some((addr / 16) as u8));
            assert(hex_value(text[1]) == Some((addr % 16) as u8));
        },
        _ => {},
    }
}

/// One argument slot of an instruction.
#[derive(Clone, Copy, Debug, PartialEq, Eq, Structural)]
pub struct Operand {
    pub name: OperandName,
    /// Whether the name stands for the value itself; where it does not,
    /// the operand is the memory cell that the name addresses.
    pub immediate: bool,
    /// Whether the register pair named is incremented after the access.
    pub increment: bool,
    /// Whether the register pair named is decremented after the access.
    pub decrement: bool,
}

/// The ordered operands of an instruction; no instruction has more than three.
#[derive(Clone, Copy, Debug, PartialEq, Eq, Structural)]
pub enum Operands {
    Empty,
    One(Operand),
    Two(Operand, Operand),
    Three(Operand, Operand, Operand),
}

impl Operands {
    pub open spec fn view(self) -> Seq<Operand> {
        match self {
            Operands::Empty => seq![],
            Operands::One(a) => seq![a],
            Operands::Two(a, b) => seq![a, b],
            Operands::Three(a, b, c) => seq![a, b, c],
        }
    }

    /// Number of operands.
    pub fn len(self) -> (n: usize)
        ensures
            n == self@.len(),
    {
        match self {
            Operands::Empty => 0,
            Operands::One(_) => 1,
            Operands::Two(_, _) => 2,
            Operands::Three(_, _, _) => 3,
        }
    }
}

/// What an instruction declares to do to one flag.
#[derive(Clone, Copy, Debug, PartialEq, Eq, Structural)]
pub enum FlagEffect {
    /// The flag keeps its value.
    Unaffected,
    /// The flag is cleared.
    ForcedOff,
    /// The flag is set.
    ForcedOn,
    /// The flag takes a value that the operation yields.
    Computed,
}

/// The declared effect on each of the four flags.
#[derive(Clone, Copy, Debug, PartialEq, Eq, Structural)]
pub struct FlagEffects {
    pub zero: FlagEffect,
    pub sub: FlagEffect,
    pub half_carry: FlagEffect,
    pub carry: FlagEffect,
}

/// One entry of the catalogue.
#[derive(Clone, Copy, Debug, PartialEq, Eq, Structural)]
pub struct OpcodeDescriptor {
    pub mnemonic: Mnemonic,
    /// Length of the instruction in bytes, opcode and escape byte included.
    pub bytes: u8,
    pub operands: Operands,
    pub flags: FlagEffects,
}

/// An operand that is the value its name stands for.
#[verifier::when_used_as_spec(spec_direct)]
pub fn direct(name: OperandName) -> (o: Operand)
    ensures
        o == spec_direct(name),
{
    Operand { name, immediate: true, increment: false, decrement: false }
}

pub open spec fn spec_direct(name: OperandName) -> Operand {
    Operand { name, immediate: true, increment: false, decrement: false }
}

/// The stack pointer as it stands in the one instruction that adds an
/// offset to it: taken as a value, and marked as incremented.
#[verifier::when_used_as_spec(spec_direct_inc)]
pub fn direct_inc(name: OperandName) -> (o: Operand)
    ensures
        o == spec_direct_inc(name),
{
    Operand { name, immediate: true, increment: true, decrement: false }
}

pub open spec fn spec_direct_inc(name: OperandName) -> Operand {
    Operand { name, immediate: true, increment: true, decrement: false }
}

/// An operand that is the memory cell its name addresses.
#[verifier::when_used_as_spec(spec_indirect)]
pub fn indirect(name: OperandName) -> (o: Operand)
    ensures
        o == spec_indirect(name),
{
    Operand { name, immediate: false, increment: false, decrement: false }
}

pub open spec fn spec_indirect(name: OperandName) -> Operand {
    Operand { name, immediate: false, increment: false, decrement: false }
}

/// A memory cell addressed by a register pair that is incremented afterwards.
#[verifier::when_used_as_spec(spec_indirect_inc)]
pub fn indirect_inc(name: OperandName) -> (o: Operand)
    ensures
        o == spec_indirect_inc(name),
{
    Operand { name, immediate: false, increment: true, decrement: false }
}

pub open spec fn spec_indirect_inc(name: OperandName) -> Operand {
    Operand { name, immediate: false, increment: true, decrement: false }
}

/// A memory cell addressed by a register pair that is decremented afterwards.
#[verifier::when_used_as_spec(spec_indirect_dec)]
pub fn indirect_dec(name: OperandName) -> (o: Operand)
    ensures
        o == spec_indirect_dec(name),
{
    Operand { name, immediate: false, increment: false, decrement: true }
}

pub open spec fn spec_indirect_dec(name: OperandName) -> Operand {
    Operand { name, immediate: false, increment: false, decrement: true }
}

/// The effects of an instruction that leaves every flag alone.
#[verifier::when_used_as_spec(spec_keep)]
pub fn keep() -> (f: FlagEffects)
    ensures
        f == spec_keep(),
{
    FlagEffects {
        zero: FlagEffect::Unaffected,
        sub: FlagEffect::Unaffected,
        half_carry: FlagEffect::Unaffected,
        carry: FlagEffect::Unaffected,
    }
}

pub open spec fn spec_keep() -> FlagEffects {
    FlagEffects {
        zero: FlagEffect::Unaffected,
        sub: FlagEffect::Unaffected,
        half_carry: FlagEffect::Unaffected,
        carry: FlagEffect::Unaffected,
    }
}

/// Declared effects, in the order zero, subtract, half-carry, carry.
#[verifier::when_used_as_spec(spec_effects)]
pub fn effects(zero: FlagEffect, sub: FlagEffect, half_carry: FlagEffect, carry: FlagEffect) -> (f:
    FlagEffects)
    ensures
        f == spec_effects(zero, sub, half_carry, carry),
{
    FlagEffects { zero, sub, half_carry, carry }
}

pub open spec fn spec_effects(
    zero: FlagEffect,
    sub: FlagEffect,
    half_carry: FlagEffect,
    carry: FlagEffect,
) -> FlagEffects {
    FlagEffects { zero, sub, half_carry, carry }
}

/// An entry without operands.
#[verifier::when_used_as_spec(spec_op0)]
pub fn op0(mnemonic: Mnemonic, bytes: u8, flags: FlagEffects) -> (d: OpcodeDescriptor)
    ensures
        d == spec_op0(mnemonic, bytes, flags),
{
    OpcodeDescriptor { mnemonic, bytes, operands: Operands::Empty, flags }
}

pub open spec fn spec_op0(mnemonic: Mnemonic, bytes: u8, flags: FlagEffects) -> OpcodeDescriptor {
    OpcodeDescriptor { mnemonic, bytes, operands: Operands::Empty, flags }
}

/// An entry with one operand.
#[verifier::when_used_as_spec(spec_op1)]
pub fn op1(mnemonic: Mnemonic, bytes: u8, first: Operand, flags: FlagEffects) -> (d:
    OpcodeDescriptor)
    ensures
        d == spec_op1(mnemonic, bytes, first, flags),
{
    OpcodeDescriptor { mnemonic, bytes, operands: Operands::One(first), flags }
}

pub open spec fn spec_op1(
    mnemonic: Mnemonic,
    bytes: u8,
    first: Operand,
    flags: FlagEffects,
) -> OpcodeDescriptor {
    OpcodeDescriptor { mnemonic, bytes, operands: Operands::One(first), flags }
}

/// An entry with two operands.
#[verifier::when_used_as_spec(spec_op2)]
pub fn op2(
    mnemonic: Mnemonic,
    bytes: u8,
    first: Operand,
    second: Operand,
    flags: FlagEffects,
) -> (d: OpcodeDescriptor)
    ensures
        d == spec_op2(mnemonic, bytes, first, second, flags),
{
    OpcodeDescriptor { mnemonic, bytes, operands: Operands::Two(first, second), flags }
}

pub open spec fn spec_op2(
    mnemonic: Mnemonic,
    bytes: u8,
    first: Operand,
    second: Operand,
    flags: FlagEffects,
) -> OpcodeDescriptor {
    OpcodeDescriptor { mnemonic, bytes, operands: Operands::Two(first, second), flags }
}

/// An entry with three operands.
#[verifier::when_used_as_spec(spec_op3)]
pub fn op3(
    mnemonic: Mnemonic,
    bytes: u8,
    first: Operand,
    second: Operand,
    third: Operand,
    flags: FlagEffects,
) -> (d: OpcodeDescriptor)
    ensures
        d == spec_op3(mnemonic, bytes, first, second, third, flags),
{
    OpcodeDescriptor { mnemonic, bytes, operands: Operands::Three(first, second, third), flags }
}

pub open spec fn spec_op3(
    mnemonic: Mnemonic,
    bytes: u8,
    first: Operand,
    second: Operand,
    third: Operand,
    flags: FlagEffects,
) -> OpcodeDescriptor {
    OpcodeDescriptor { mnemonic, bytes, operands: Operands::Three(first, second, third), flags }
}

/// The operand that the low three bits of an opcode select in the regular
/// rows: a register, or the cell that HL addresses.
#[verifier::when_used_as_spec(spec_column_operand)]
pub fn column_operand(column: u8) -> (o: Operand)
    ensures
        o == spec_column_operand(column),
{
    match column % 8 {
        0 => direct(OperandName::B),
        1 => direct(OperandName::C),
        2 => direct(OperandName::D),
        3 => direct(OperandName::E),
        4 => direct(OperandName::H),
        5 => direct(OperandName::L),
        6 => indirect(OperandName::HL),
        _ => direct(OperandName::A),
    }
}

pub open spec fn spec_column_operand(column: u8) -> Operand {
    match column % 8 {
        0 => direct(OperandName::B),
        1 => direct(OperandName::C),
        2 => direct(OperandName::D),
        3 => direct(OperandName::E),
        4 => direct(OperandName::H),
        5 => direct(OperandName::L),
        6 => indirect(OperandName::HL),
        _ => direct(OperandName::A),
    }
}

/// The row of register-to-register loads, 0x40 to 0x7F, with HALT in the
/// place where a load from (HL) to (HL) would stand.
#[verifier::when_used_as_spec(spec_load_row)]
pub fn load_row(byte: u8) -> (d: OpcodeDescriptor)
    requires
        0x40 <= byte < 0x80,
    ensures
        d == spec_load_row(byte),
{
    if byte == 0x76 {
        op0(Mnemonic::HALT, 1, keep())
    } else {
        op2(Mnemonic::LD, 1, column_operand(byte / 8), column_operand(byte % 8), keep())
    }
}

pub open spec fn spec_load_row(byte: u8) -> OpcodeDescriptor {
    if byte == 0x76 {
        op0(Mnemonic::HALT, 1, keep())
    } else {
        op2(Mnemonic::LD, 1, column_operand(byte / 8), column_operand(byte % 8), keep())
    }
}

/// The row of accumulator arithmetic, 0x80 to 0xBF: eight operations, each
/// on the eight operands of a column.
#[verifier::when_used_as_spec(spec_arithmetic_row)]
pub fn arithmetic_row(byte: u8) -> (d: OpcodeDescriptor)
    requires
        0x80 <= byte < 0xC0,
    ensures
        d == spec_arithmetic_row(byte),
{
    let source = column_operand(byte % 8);
    let acc = direct(OperandName::A);
    let c = FlagEffect::Computed;
    let off = FlagEffect::ForcedOff;
    let on = FlagEffect::ForcedOn;
    match byte / 8 {
        0x10 => op2(Mnemonic::ADD, 1, acc, source, effects(c, off, c, c)),
        0x11 => op2(Mnemonic::ADC, 1, acc, source, effects(c, off, c, c)),
        0x12 => op1(Mnemonic::SUB, 1, source, effects(c, on, c, c)),
        0x13 => op2(Mnemonic::SBC, 1, acc, source, effects(c, on, c, c)),
        0x14 => op1(Mnemonic::AND, 1, source, effects(c, off, on, off)),
        0x15 => op1(Mnemonic::XOR, 1, source, effects(c, off, off, off)),
        0x16 => op1(Mnemonic::OR, 1, source, effects(c, off, off, off)),
        _ => op1(Mnemonic::CP, 1, source, effects(c, on, c, c)),
    }
}

pub open spec fn spec_arithmetic_row(byte: u8) -> OpcodeDescriptor {
    let source = column_operand(byte % 8);
    let acc = direct(OperandName::A);
    let c = FlagEffect::Computed;
    let off = FlagEffect::ForcedOff;
    let on = FlagEffect::ForcedOn;
    match byte / 8 {
        0x10 => op2(Mnemonic::ADD, 1, acc, source, effects(c, off, c, c)),
        0x11 => op2(Mnemonic::ADC, 1, acc, source, effects(c, off, c, c)),
        0x12 => op1(Mnemonic::SUB, 1, source, effects(c, on, c, c)),
        0x13 => op2(Mnemonic::SBC, 1, acc, source, effects(c, on, c, c)),
        0x14 => op1(Mnemonic::AND, 1, source, effects(c, off, on, off)),
        0x15 => op1(Mnemonic::XOR, 1, source, effects(c, off, off, off)),
        0x16 => op1(Mnemonic::OR, 1, source, effects(c, off, off, off)),
        _ => op1(Mnemonic::CP, 1, source, effects(c, on, c, c)),
    }
}

/// The entry of the plain table for an opcode byte, as the machine's
/// instruction set has it. Eleven byte values name no instruction.
pub open spec fn standard_unprefixed(byte: u8) -> Option<OpcodeDescriptor> {
    if 0x40 <= byte < 0x80 {
        Some(load_row(byte))
    } else if 0x80 <= byte < 0xC0 {
        Some(arithmetic_row(byte))
    } else {
        let c = FlagEffect::Computed;
        let off = FlagEffect::ForcedOff;
        let on = FlagEffect::ForcedOn;
        let u = FlagEffect::Unaffected;
        match byte {
            0x00 => Some(op0(Mnemonic::NOP, 1, keep())),
            0x01 => Some(
                op2(
                    Mnemonic::LD,
                    3,
                    direct(OperandName::BC),
                    direct(OperandName::D16),
                    keep(),
                ),
            ),
            0x02 => Some(
                op2(
                    Mnemonic::LD,
                    1,
                    indirect(OperandName::BC),
                    direct(OperandName::A),
                    keep(),
                ),
            ),
            0x03 => Some(op1(Mnemonic::INC, 1, direct(OperandName::BC), keep())),
            0x04 => Some(op1(Mnemonic::INC, 1, direct(OperandName::B), effects(c, off, c, u))),
            0x05 => Some(op1(Mnemonic::DEC, 1, direct(OperandName::B), effects(c, on, c, u))),
            0x06 => Some(
                op2(
                    Mnemonic::LD,
                    2,
                    direct(OperandName::B),
                    direct(OperandName::D8),
                    keep(),
                ),
            ),
            0x07 => Some(op0(Mnemonic::RLCA, 1, effects(off, off, off, c))),
            0x08 => Some(
                op2(
                    Mnemonic::LD,
                    3,
                    indirect(OperandName::A16),
                    direct(OperandName::SP),
                    keep(),
                ),
            ),
            0x09 => Some(
                op2(
                    Mnemonic::ADD,
                    1,
                    direct(OperandName::HL),
                    direct(OperandName::BC),
                    effects(u, off, c, c),
                ),
            ),
            0x0A => Some(
                op2(
                    Mnemonic::LD,
                    1,
                    direct(OperandName::A),
                    indirect(OperandName::BC),
                    keep(),
                ),
            ),
            0x0B => Some(op1(Mnemonic::DEC, 1, direct(OperandName::BC), keep())),
            0x0C => Some(op1(Mnemonic::INC, 1, direct(OperandName::C), effects(c, off, c, u))),
            0x0D => Some(op1(Mnemonic::DEC, 1, direct(OperandName::C), effects(c, on, c, u))),
            0x0E => Some(
                op2(
                    Mnemonic::LD,
                    2,
                    direct(OperandName::C),
                    direct(OperandName::D8),
                    keep(),
                ),
            ),
            0x0F => Some(op0(Mnemonic::RRCA, 1, effects(off, off, off, c))),
            0x10 => Some(op1(Mnemonic::STOP, 2, direct(OperandName::D8), keep())),
            0x11 => Some(
                op2(
                    Mnemonic::LD,
                    3,
                    direct(OperandName::DE),
                    direct(OperandName::D16),
                    keep(),
                ),
            ),
            0x12 => Some(
                op2(
                    Mnemonic::LD,
                    1,
                    indirect(OperandName::DE),
                    direct(OperandName::A),
                    keep(),
                ),
            ),
            0x13 => Some(op1(Mnemonic::INC, 1, direct(OperandName::DE), keep())),
            0x14 => Some(op1(Mnemonic::INC, 1, direct(OperandName::D), effects(c, off, c, u))),
            0x15 => Some(op1(Mnemonic::DEC, 1, direct(OperandName::D), effects(c, on, c, u))),
            0x16 => Some(
                op2(
                    Mnemonic::LD,
                    2,
                    direct(OperandName::D),
                    direct(OperandName::D8),
                    keep(),
                ),
            ),
            0x17 => Some(op0(Mnemonic::RLA, 1, effects(off, off, off, c))),
            0x18 => Some(op1(Mnemonic::JR, 2, direct(OperandName::R8), keep())),
            0x19 => Some(
                op2(
                    Mnemonic::ADD,
                    1,
                    direct(OperandName::HL),
                    direct(OperandName::DE),
                    effects(u, off, c, c),
                ),
            ),
            0x1A => Some(
                op2(
                    Mnemonic::LD,
                    1,
                    direct(OperandName::A),
                    indirect(OperandName::DE),
                    keep(),
                ),
            ),
            0x1B => Some(op1(Mnemonic::DEC, 1, direct(OperandName::DE), keep())),
            0x1C => Some(op1(Mnemonic::INC, 1, direct(OperandName::E), effects(c, off, c, u))),
            0x1D => Some(op1(Mnemonic::DEC, 1, direct(OperandName::E), effects(c, on, c, u))),
            0x1E => Some(
                op2(
                    Mnemonic::LD,
                    2,
                    direct(OperandName::E),
                    direct(OperandName::D8),
                    keep(),
                ),
            ),
            0x1F => Some(op0(Mnemonic::RRA, 1, effects(off, off, off, c))),
            0x20 => Some(
                op2(
                    Mnemonic::JR,
                    2,
                    direct(OperandName::NZ),
                    direct(OperandName::R8),
                    keep(),
                ),
            ),
            0x21 => Some(
                op2(
                    Mnemonic::LD,
                    3,
                    direct(OperandName::HL),
                    direct(OperandName::D16),
                    keep(),
                ),
            ),
            0x22 => Some(
                op2(
                    Mnemonic::LD,
                    1,
                    indirect_inc(OperandName::HL),
                    direct(OperandName::A),
                    keep(),
                ),
            ),
            0x23 => Some(op1(Mnemonic::INC, 1, direct(OperandName::HL), keep())),
            0x24 => Some(op1(Mnemonic::INC, 1, direct(OperandName::H), effects(c, off, c, u))),
            0x25 => Some(op1(Mnemonic::DEC, 1, direct(OperandName::H), effects(c, on, c, u))),
            0x26 => Some(
                op2(
                    Mnemonic::LD,
                    2,
                    direct(OperandName::H),
                    direct(OperandName::D8),
                    keep(),
                ),
            ),
            0x27 => Some(op0(Mnemonic::DAA, 1, effects(c, u, off, c))),
            0x28 => Some(
                op2(
                    Mnemonic::JR,
                    2,
                    direct(OperandName::Z),
                    direct(OperandName::R8),
                    keep(),
                ),
            ),
            0x29 => Some(
                op2(
                    Mnemonic::ADD,
                    1,
                    direct(OperandName::HL),
                    direct(OperandName::HL),
                    effects(u, off, c, c),
                ),
            ),
            0x2A => Some(
                op2(
                    Mnemonic::LD,
                    1,
                    direct(OperandName::A),
                    indirect_inc(OperandName::HL),
                    keep(),
                ),
            ),
            0x2B => Some(op1(Mnemonic::DEC, 1, direct(OperandName::HL), keep())),
            0x2C => Some(op1(Mnemonic::INC, 1, direct(OperandName::L), effects(c, off, c, u))),
            0x2D => Some(op1(Mnemonic::DEC, 1, direct(OperandName::L), effects(c, on, c, u))),
            0x2E => Some(
                op2(
                    Mnemonic::LD,
                    2,
                    direct(OperandName::L),
                    direct(OperandName::D8),
                    keep(),
                ),
            ),
            0x2F => Some(op0(Mnemonic::CPL, 1, effects(u, on, on, u))),
            0x30 => Some(
                op2(
                    Mnemonic::JR,
                    2,
                    direct(OperandName::NC),
                    direct(OperandName::R8),
                    keep(),
                ),
            ),
            0x31 => Some(
                op2(
                    Mnemonic::LD,
                    3,
                    direct(OperandName::SP),
                    direct(OperandName::D16),
                    keep(),
                ),
            ),
            0x32 => Some(
                op2(
                    Mnemonic::LD,
                    1,
                    indirect_dec(OperandName::HL),
                    direct(OperandName::A),
                    keep(),
                ),
            ),
            0x33 => Some(op1(Mnemonic::INC, 1, direct(OperandName::SP), keep())),
            0x34 => Some(op1(Mnemonic::INC, 1, indirect(OperandName::HL), effects(c, off, c, u))),
            0x35 => Some(op1(Mnemonic::DEC, 1, indirect(OperandName::HL), effects(c, on, c, u))),
            0x36 => Some(
                op2(
                    Mnemonic::LD,
                    2,
                    indirect(OperandName::HL),
                    direct(OperandName::D8),
                    keep(),
                ),
            ),
            0x37 => Some(op0(Mnemonic::SCF, 1, effects(u, off, off, on))),
            0x38 => Some(
                op2(
                    Mnemonic::JR,
                    2,
                    direct(OperandName::C),
                    direct(OperandName::R8),
                    keep(),
                ),
            ),
            0x39 => Some(
                op2(
                    Mnemonic::ADD,
                    1,
                    direct(OperandName::HL),
                    direct(OperandName::SP),
                    effects(u, off, c, c),
                ),
            ),
            0x3A => Some(
                op2(
                    Mnemonic::LD,
                    1,
                    direct(OperandName::A),
                    indirect_dec(OperandName::HL),
                    keep(),
                ),
            ),
            0x3B => Some(op1(Mnemonic::DEC, 1, direct(OperandName::SP), keep())),
            0x3C => Some(op1(Mnemonic::INC, 1, direct(OperandName::A), effects(c, off, c, u))),
            0x3D => Some(op1(Mnemonic::DEC, 1, direct(OperandName::A), effects(c, on, c, u))),
            0x3E => Some(
                op2(
                    Mnemonic::LD,
                    2,
                    direct(OperandName::A),
                    direct(OperandName::D8),
                    keep(),
                ),
            ),
            0x3F => Some(op0(Mnemonic::CCF, 1, effects(u, off, off, c))),
            0xC0 => Some(op1(Mnemonic::RET, 1, direct(OperandName::NZ), keep())),
            0xC1 => Some(op1(Mnemonic::POP, 1, direct(OperandName::BC), keep())),
            0xC2 => Some(
                op2(
                    Mnemonic::JP,
                    3,
                    direct(OperandName::NZ),
                    direct(OperandName::A16),
                    keep(),
                ),
            ),
            0xC3 => Some(op1(Mnemonic::JP, 3, direct(OperandName::A16), keep())),
            0xC4 => Some(
                op2(
                    Mnemonic::CALL,
                    3,
                    direct(OperandName::NZ),
                    direct(OperandName::A16),
                    keep(),
                ),
            ),
            0xC5 => Some(op1(Mnemonic::PUSH, 1, direct(OperandName::BC), keep())),
            0xC6 => Some(
                op2(
                    Mnemonic::ADD,
                    2,
                    direct(OperandName::A),
                    direct(OperandName::D8),
                    effects(c, off, c, c),
                ),
            ),
            0xC7 => Some(op1(Mnemonic::RST, 1, direct(OperandName::Vector(0x00)), keep())),
            0xC8 => Some(op1(Mnemonic::RET, 1, direct(OperandName::Z), keep())),
            0xC9 => Some(op0(Mnemonic::RET, 1, keep())),
            0xCA => Some(
                op2(
                    Mnemonic::JP,
                    3,
                    direct(OperandName::Z),
                    direct(OperandName::A16),
                    keep(),
                ),
            ),
            0xCB => Some(op0(Mnemonic::PREFIX, 1, keep())),
            0xCC => Some(
                op2(
                    Mnemonic::CALL,
                    3,
                    direct(OperandName::Z),
                    direct(OperandName::A16),
                    keep(),
                ),
            ),
            0xCD => Some(op1(Mnemonic::CALL, 3, direct(OperandName::A16), keep())),
            0xCE => Some(
                op2(
                    Mnemonic::ADC,
                    2,
                    direct(OperandName::A),
                    direct(OperandName::D8),
                    effects(c, off, c, c),
                ),
            ),
            0xCF => Some(op1(Mnemonic::RST, 1, direct(OperandName::Vector(0x08)), keep())),
            0xD0 => Some(op1(Mnemonic::RET, 1, direct(OperandName::NC), keep())),
            0xD1 => Some(op1(Mnemonic::POP, 1, direct(OperandName::DE), keep())),
            0xD2 => Some(
                op2(
                    Mnemonic::JP,
                    3,
                    direct(OperandName::NC),
                    direct(OperandName::A16),
                    keep(),
                ),
            ),
            0xD4 => Some(
                op2(
                    Mnemonic::CALL,
                    3,
                    direct(OperandName::NC),
                    direct(OperandName::A16),
                    keep(),
                ),
            ),
            0xD5 => Some(op1(Mnemonic::PUSH, 1, direct(OperandName::DE), keep())),
            0xD6 => Some(op1(Mnemonic::SUB, 2, direct(OperandName::D8), effects(c, on, c, c))),
            0xD7 => Some(op1(Mnemonic::RST, 1, direct(OperandName::Vector(0x10)), keep())),
            0xD8 => Some(op1(Mnemonic::RET, 1, direct(OperandName::C), keep())),
            0xD9 => Some(op0(Mnemonic::RETI, 1, keep())),
            0xDA => Some(
                op2(
                    Mnemonic::JP,
                    3,
                    direct(OperandName::C),
                    direct(OperandName::A16),
                    keep(),
                ),
            ),
            0xDC => Some(
                op2(
                    Mnemonic::CALL,
                    3,
                    direct(OperandName::C),
                    direct(OperandName::A16),
                    keep(),
                ),
            ),
            0xDE => Some(
                op2(
                    Mnemonic::SBC,
                    2,
                    direct(OperandName::A),
                    direct(OperandName::D8),
                    effects(c, on, c, c),
                ),
            ),
            0xDF => Some(op1(Mnemonic::RST, 1, direct(OperandName::Vector(0x18)), keep())),
            0xE0 => Some(
                op2(
                    Mnemonic::LDH,
                    2,
                    indirect(OperandName::A8),
                    direct(OperandName::A),
                    keep(),
                ),
            ),
            0xE1 => Some(op1(Mnemonic::POP, 1, direct(OperandName::HL), keep())),
            0xE2 => Some(
                op2(
                    Mnemonic::LD,
                    1,
                    indirect(OperandName::C),
                    direct(OperandName::A),
                    keep(),
                ),
            ),
            0xE5 => Some(op1(Mnemonic::PUSH, 1, direct(OperandName::HL), keep())),
            0xE6 => Some(op1(Mnemonic::AND, 2, direct(OperandName::D8), effects(c, off, on, off))),
            0xE7 => Some(op1(Mnemonic::RST, 1, direct(OperandName::Vector(0x20)), keep())),
            0xE8 => Some(
                op2(
                    Mnemonic::ADD,
                    2,
                    direct(OperandName::SP),
                    direct(OperandName::R8),
                    effects(off, off, c, c),
                ),
            ),
            0xE9 => Some(op1(Mnemonic::JP, 1, direct(OperandName::HL), keep())),
            0xEA => Some(
                op2(
                    Mnemonic::LD,
                    3,
                    indirect(OperandName::A16),
                    direct(OperandName::A),
                    keep(),
                ),
            ),
            0xEE => Some(op1(Mnemonic::XOR, 2, direct(OperandName::D8), effects(c, off, off, off))),
            0xEF => Some(op1(Mnemonic::RST, 1, direct(OperandName::Vector(0x28)), keep())),
            0xF0 => Some(
                op2(
                    Mnemonic::LDH,
                    2,
                    direct(OperandName::A),
                    indirect(OperandName::A8),
                    keep(),
                ),
            ),
            0xF1 => Some(op1(Mnemonic::POP, 1, direct(OperandName::AF), effects(c, c, c, c))),
            0xF2 => Some(
                op2(
                    Mnemonic::LD,
                    1,
                    direct(OperandName::A),
                    indirect(OperandName::C),
                    keep(),
                ),
            ),
            0xF3 => Some(op0(Mnemonic::DI, 1, keep())),
            0xF5 => Some(op1(Mnemonic::PUSH, 1, direct(OperandName::AF), keep())),
            0xF6 => Some(op1(Mnemonic::OR, 2, direct(OperandName::D8), effects(c, off, off, off))),
            0xF7 => Some(op1(Mnemonic::RST, 1, direct(OperandName::Vector(0x30)), keep())),
            0xF8 => Some(
                op3(
                    Mnemonic::LD,
                    2,
                    direct(OperandName::HL),
                    direct_inc(OperandName::SP),
                    direct(OperandName::R8),
                    effects(off, off, c, c),
                ),
            ),
            0xF9 => Some(
                op2(
                    Mnemonic::LD,
                    1,
                    direct(OperandName::SP),
                    direct(OperandName::HL),
                    keep(),
                ),
            ),
            0xFA => Some(
                op2(
                    Mnemonic::LD,
                    3,
                    direct(OperandName::A),
                    indirect(OperandName::A16),
                    keep(),
                ),
            ),
            0xFB => Some(op0(Mnemonic::EI, 1, keep())),
            0xFE => Some(op1(Mnemonic::CP, 2, direct(OperandName::D8), effects(c, on, c, c))),
            0xFF => Some(op1(Mnemonic::RST, 1, direct(OperandName::Vector(0x38)), keep())),
            _ => None,
        }
    }
}

/// The entry of the table behind the escape byte. Every byte names an
/// instruction: eight rotates and shifts, then bit test, bit reset and bit
/// set for each of the eight bit indices, each on the eight operands of a
/// column.
pub open spec fn standard_cbprefixed(byte: u8) -> Option<OpcodeDescriptor> {
    let target = column_operand(byte % 8);
    let row = byte / 8;
    let c = FlagEffect::Computed;
    let off = FlagEffect::ForcedOff;
    let on = FlagEffect::ForcedOn;
    let rotate = effects(c, off, off, c);
    Some(
        match row {
            0 => op1(Mnemonic::RLC, 2, target, rotate),
            1 => op1(Mnemonic::RRC, 2, target, rotate),
            2 => op1(Mnemonic::RL, 2, target, rotate),
            3 => op1(Mnemonic::RR, 2, target, rotate),
            4 => op1(Mnemonic::SLA, 2, target, rotate),
            5 => op1(Mnemonic::SRA, 2, target, rotate),
            6 => op1(Mnemonic::SWAP, 2, target, effects(c, off, off, off)),
            7 => op1(Mnemonic::SRL, 2, target, rotate),
            _ => {
                let bit = direct(OperandName::Bit(row % 8));
                if row < 16 {
                    op2(Mnemonic::BIT, 2, bit, target, effects(c, off, on, FlagEffect::Unaffected))
                } else if row < 24 {
                    op2(Mnemonic::RES, 2, bit, target, keep())
                } else {
                    op2(Mnemonic::SET, 2, bit, target, keep())
                }
            },
        },
    )
}

/// The entry of the standard catalogue for an opcode.
pub open spec fn standard_entry(prefixed: bool, byte: u8) -> Option<OpcodeDescriptor> {
    if prefixed {
        standard_cbprefixed(byte)
    } else {
        standard_unprefixed(byte)
    }
}

/// Computes an entry of the standard plain table.
pub fn unprefixed_entry(byte: u8) -> (entry: Option<OpcodeDescriptor>)
    ensures
        entry == standard_unprefixed(byte),
{
    if 0x40 <= byte && byte < 0x80 {
        Some(load_row(byte))
    } else if 0x80 <= byte && byte < 0xC0 {
        Some(arithmetic_row(byte))
    } else {
        let c = FlagEffect::Computed;
        let off = FlagEffect::ForcedOff;
        let on = FlagEffect::ForcedOn;
        let u = FlagEffect::Unaffected;
        match byte {
            0x00 => Some(op0(Mnemonic::NOP, 1, keep())),
            0x01 => Some(
                op2(
                    Mnemonic::LD,
                    3,
                    direct(OperandName::BC),
                    direct(OperandName::D16),
                    keep(),
                ),
            ),
            0x02 => Some(
                op2(
                    Mnemonic::LD,
                    1,
                    indirect(OperandName::BC),
                    direct(OperandName::A),
                    keep(),
                ),
            ),
            0x03 => Some(op1(Mnemonic::INC, 1, direct(OperandName::BC), keep())),
            0x04 => Some(op1(Mnemonic::INC, 1, direct(OperandName::B), effects(c, off, c, u))),
            0x05 => Some(op1(Mnemonic::DEC, 1, direct(OperandName::B), effects(c, on, c, u))),
            0x06 => Some(
                op2(
                    Mnemonic::LD,
                    2,
                    direct(OperandName::B),
                    direct(OperandName::D8),
                    keep(),
                ),
            ),
            0x07 => Some(op0(Mnemonic::RLCA, 1, effects(off, off, off, c))),
            0x08 => Some(
                op2(
                    Mnemonic::LD,
                    3,
                    indirect(OperandName::A16),
                    direct(OperandName::SP),
                    keep(),
                ),
            ),
            0x09 => Some(
                op2(
                    Mnemonic::ADD,
                    1,
                    direct(OperandName::HL),
                    direct(OperandName::BC),
                    effects(u, off, c, c),
                ),
            ),
            0x0A => Some(
                op2(
                    Mnemonic::LD,
                    1,
                    direct(OperandName::A),
                    indirect(OperandName::BC),
                    keep(),
                ),
            ),
            0x0B => Some(op1(Mnemonic::DEC, 1, direct(OperandName::BC), keep())),
            0x0C => Some(op1(Mnemonic::INC, 1, direct(OperandName::C), effects(c, off, c, u))),
            0x0D => Some(op1(Mnemonic::DEC, 1, direct(OperandName::C), effects(c, on, c, u))),
            0x0E => Some(
                op2(
                    Mnemonic::LD,
                    2,
                    direct(OperandName::C),
                    direct(OperandName::D8),
                    keep(),
                ),
            ),
            0x0F => Some(op0(Mnemonic::RRCA, 1, effects(off, off, off, c))),
            0x10 => Some(op1(Mnemonic::STOP, 2, direct(OperandName::D8), keep())),
            0x11 => Some(
                op2(
                    Mnemonic::LD,
                    3,
                    direct(OperandName::DE),
                    direct(OperandName::D16),
                    keep(),
                ),
            ),
            0x12 => Some(
                op2(
                    Mnemonic::LD,
                    1,
                    indirect(OperandName::DE),
                    direct(OperandName::A),
                    keep(),
                ),
            ),
            0x13 => Some(op1(Mnemonic::INC, 1, direct(OperandName::DE), keep())),
            0x14 => Some(op1(Mnemonic::INC, 1, direct(OperandName::D), effects(c, off, c, u))),
            0x15 => Some(op1(Mnemonic::DEC, 1, direct(OperandName::D), effects(c, on, c, u))),
            0x16 => Some(
                op2(
                    Mnemonic::LD,
                    2,
                    direct(OperandName::D),
                    direct(OperandName::D8),
                    keep(),
                ),
            ),
            0x17 => Some(op0(Mnemonic::RLA, 1, effects(off, off, off, c))),
            0x18 => Some(op1(Mnemonic::JR, 2, direct(OperandName::R8), keep())),
            0x19 => Some(
                op2(
                    Mnemonic::ADD,
                    1,
                    direct(OperandName::HL),
                    direct(OperandName::DE),
                    effects(u, off, c, c),
                ),
            ),
            0x1A => Some(
                op2(
                    Mnemonic::LD,
                    1,
                    direct(OperandName::A),
                    indirect(OperandName::DE),
                    keep(),
                ),
            ),
            0x1B => Some(op1(Mnemonic::DEC, 1, direct(OperandName::DE), keep())),
            0x1C => Some(op1(Mnemonic::INC, 1, direct(OperandName::E), effects(c, off, c, u))),
            0x1D => Some(op1(Mnemonic::DEC, 1, direct(OperandName::E), effects(c, on, c, u))),
            0x1E => Some(
                op2(
                    Mnemonic::LD,
                    2,
                    direct(OperandName::E),
                    direct(OperandName::D8),
                    keep(),
                ),
            ),
            0x1F => Some(op0(Mnemonic::RRA, 1, effects(off, off, off, c))),
            0x20 => Some(
                op2(
                    Mnemonic::JR,
                    2,
                    direct(OperandName::NZ),
                    direct(OperandName::R8),
                    keep(),
                ),
            ),
            0x21 => Some(
                op2(
                    Mnemonic::LD,
                    3,
                    direct(OperandName::HL),
                    direct(OperandName::D16),
                    keep(),
                ),
            ),
            0x22 => Some(
                op2(
                    Mnemonic::LD,
                    1,
                    indirect_inc(OperandName::HL),
                    direct(OperandName::A),
                    keep(),
                ),
            ),
            0x23 => Some(op1(Mnemonic::INC, 1, direct(OperandName::HL), keep())),
            0x24 => Some(op1(Mnemonic::INC, 1, direct(OperandName::H), effects(c, off, c, u))),
            0x25 => Some(op1(Mnemonic::DEC, 1, direct(OperandName::H), effects(c, on, c, u))),
            0x26 => Some(
                op2(
                    Mnemonic::LD,
                    2,
                    direct(OperandName::H),
                    direct(OperandName::D8),
                    keep(),
                ),
            ),
            0x27 => Some(op0(Mnemonic::DAA, 1, effects(c, u, off, c))),
            0x28 => Some(
                op2(
                    Mnemonic::JR,
                    2,
                    direct(OperandName::Z),
                    direct(OperandName::R8),
                    keep(),
                ),
            ),
            0x29 => Some(
                op2(
                    Mnemonic::ADD,
                    1,
                    direct(OperandName::HL),
                    direct(OperandName::HL),
                    effects(u, off, c, c),
                ),
            ),
            0x2A => Some(
                op2(
                    Mnemonic::LD,
                    1,
                    direct(OperandName::A),
                    indirect_inc(OperandName::HL),
                    keep(),
                ),
            ),
            0x2B => Some(op1(Mnemonic::DEC, 1, direct(OperandName::HL), keep())),
            0x2C => Some(op1(Mnemonic::INC, 1, direct(OperandName::L), effects(c, off, c, u))),
            0x2D => Some(op1(Mnemonic::DEC, 1, direct(OperandName::L), effects(c, on, c, u))),
            0x2E => Some(
                op2(
                    Mnemonic::LD,
                    2,
                    direct(OperandName::L),
                    direct(OperandName::D8),
                    keep(),
                ),
            ),
            0x2F => Some(op0(Mnemonic::CPL, 1, effects(u, on, on, u))),
            0x30 => Some(
                op2(
                    Mnemonic::JR,
                    2,
                    direct(OperandName::NC),
                    direct(OperandName::R8),
                    keep(),
                ),
            ),
            0x31 => Some(
                op2(
                    Mnemonic::LD,
                    3,
                    direct(OperandName::SP),
                    direct(OperandName::D16),
                    keep(),
                ),
            ),
            0x32 => Some(
                op2(
                    Mnemonic::LD,
                    1,
                    indirect_dec(OperandName::HL),
                    direct(OperandName::A),
                    keep(),
                ),
            ),
            0x33 => Some(op1(Mnemonic::INC, 1, direct(OperandName::SP), keep())),
            0x34 => Some(op1(Mnemonic::INC, 1, indirect(OperandName::HL), effects(c, off, c, u))),
            0x35 => Some(op1(Mnemonic::DEC, 1, indirect(OperandName::HL), effects(c, on, c, u))),
            0x36 => Some(
                op2(
                    Mnemonic::LD,
                    2,
                    indirect(OperandName::HL),
                    direct(OperandName::D8),
                    keep(),
                ),
            ),
            0x37 => Some(op0(Mnemonic::SCF, 1, effects(u, off, off, on))),
            0x38 => Some(
                op2(
                    Mnemonic::JR,
                    2,
                    direct(OperandName::C),
                    direct(OperandName::R8),
                    keep(),
                ),
            ),
            0x39 => Some(
                op2(
                    Mnemonic::ADD,
                    1,
                    direct(OperandName::HL),
                    direct(OperandName::SP),
                    effects(u, off, c, c),
                ),
            ),
            0x3A => Some(
                op2(
                    Mnemonic::LD,
                    1,
                    direct(OperandName::A),
                    indirect_dec(OperandName::HL),
                    keep(),
                ),
            ),
            0x3B => Some(op1(Mnemonic::DEC, 1, direct(OperandName::SP), keep())),
            0x3C => Some(op1(Mnemonic::INC, 1, direct(OperandName::A), effects(c, off, c, u))),
            0x3D => Some(op1(Mnemonic::DEC, 1, direct(OperandName::A), effects(c, on, c, u))),
            0x3E => Some(
                op2(
                    Mnemonic::LD,
                    2,
                    direct(OperandName::A),
                    direct(OperandName::D8),
                    keep(),
                ),
            ),
            0x3F => Some(op0(Mnemonic::CCF, 1, effects(u, off, off, c))),
            0xC0 => Some(op1(Mnemonic::RET, 1, direct(OperandName::NZ), keep())),
            0xC1 => Some(op1(Mnemonic::POP, 1, direct(OperandName::BC), keep())),
            0xC2 => Some(
                op2(
                    Mnemonic::JP,
                    3,
                    direct(OperandName::NZ),
                    direct(OperandName::A16),
                    keep(),
                ),
            ),
            0xC3 => Some(op1(Mnemonic::JP, 3, direct(OperandName::A16), keep())),
            0xC4 => Some(
                op2(
                    Mnemonic::CALL,
                    3,
                    direct(OperandName::NZ),
                    direct(OperandName::A16),
                    keep(),
                ),
            ),
            0xC5 => Some(op1(Mnemonic::PUSH, 1, direct(OperandName::BC), keep())),
            0xC6 => Some(
                op2(
                    Mnemonic::ADD,
                    2,
                    direct(OperandName::A),
                    direct(OperandName::D8),
                    effects(c, off, c, c),
                ),
            ),
            0xC7 => Some(op1(Mnemonic::RST, 1, direct(OperandName::Vector(0x00)), keep())),
            0xC8 => Some(op1(Mnemonic::RET, 1, direct(OperandName::Z), keep())),
            0xC9 => Some(op0(Mnemonic::RET, 1, keep())),
            0xCA => Some(
                op2(
                    Mnemonic::JP,
                    3,
                    direct(OperandName::Z),
                    direct(OperandName::A16),
                    keep(),
                ),
            ),
            0xCB => Some(op0(Mnemonic::PREFIX, 1, keep())),
            0xCC => Some(
                op2(
                    Mnemonic::CALL,
                    3,
                    direct(OperandName::Z),
                    direct(OperandName::A16),
                    keep(),
                ),
            ),
            0xCD => Some(op1(Mnemonic::CALL, 3, direct(OperandName::A16), keep())),
            0xCE => Some(
                op2(
                    Mnemonic::ADC,
                    2,
                    direct(OperandName::A),
                    direct(OperandName::D8),
                    effects(c, off, c, c),
                ),
            ),
            0xCF => Some(op1(Mnemonic::RST, 1, direct(OperandName::Vector(0x08)), keep())),
            0xD0 => Some(op1(Mnemonic::RET, 1, direct(OperandName::NC), keep())),
            0xD1 => Some(op1(Mnemonic::POP, 1, direct(OperandName::DE), keep())),
            0xD2 => Some(
                op2(
                    Mnemonic::JP,
                    3,
                    direct(OperandName::NC),
                    direct(OperandName::A16),
                    keep(),
                ),
            ),
            0xD4 => Some(
                op2(
                    Mnemonic::CALL,
                    3,
                    direct(OperandName::NC),
                    direct(OperandName::A16),
                    keep(),
                ),
            ),
            0xD5 => Some(op1(Mnemonic::PUSH, 1, direct(OperandName::DE), keep())),
            0xD6 => Some(op1(Mnemonic::SUB, 2, direct(OperandName::D8), effects(c, on, c, c))),
            0xD7 => Some(op1(Mnemonic::RST, 1, direct(OperandName::Vector(0x10)), keep())),
            0xD8 => Some(op1(Mnemonic::RET, 1, direct(OperandName::C), keep())),
            0xD9 => Some(op0(Mnemonic::RETI, 1, keep())),
            0xDA => Some(
                op2(
                    Mnemonic::JP,
                    3,
                    direct(OperandName::C),
                    direct(OperandName::A16),
                    keep(),
                ),
            ),
            0xDC => Some(
                op2(
                    Mnemonic::CALL,
                    3,
                    direct(OperandName::C),
                    direct(OperandName::A16),
                    keep(),
                ),
            ),
            0xDE => Some(
                op2(
                    Mnemonic::SBC,
                    2,
                    direct(OperandName::A),
                    direct(OperandName::D8),
                    effects(c, on, c, c),
                ),
            ),
            0xDF => Some(op1(Mnemonic::RST, 1, direct(OperandName::Vector(0x18)), keep())),
            0xE0 => Some(
                op2(
                    Mnemonic::LDH,
                    2,
                    indirect(OperandName::A8),
                    direct(OperandName::A),
                    keep(),
                ),
            ),
            0xE1 => Some(op1(Mnemonic::POP, 1, direct(OperandName::HL), keep())),
            0xE2 => Some(
                op2(
                    Mnemonic::LD,
                    1,
                    indirect(OperandName::C),
                    direct(OperandName::A),
                    keep(),
                ),
            ),
            0xE5 => Some(op1(Mnemonic::PUSH, 1, direct(OperandName::HL), keep())),
            0xE6 => Some(op1(Mnemonic::AND, 2, direct(OperandName::D8), effects(c, off, on, off))),
            0xE7 => Some(op1(Mnemonic::RST, 1, direct(OperandName::Vector(0x20)), keep())),
            0xE8 => Some(
                op2(
                    Mnemonic::ADD,
                    2,
                    direct(OperandName::SP),
                    direct(OperandName::R8),
                    effects(off, off, c, c),
                ),
            ),
            0xE9 => Some(op1(Mnemonic::JP, 1, direct(OperandName::HL), keep())),
            0xEA => Some(
                op2(
                    Mnemonic::LD,
                    3,
                    indirect(OperandName::A16),
                    direct(OperandName::A),
                    keep(),
                ),
            ),
            0xEE => Some(op1(Mnemonic::XOR, 2, direct(OperandName::D8), effects(c, off, off, off))),
            0xEF => Some(op1(Mnemonic::RST, 1, direct(OperandName::Vector(0x28)), keep())),
            0xF0 => Some(
                op2(
                    Mnemonic::LDH,
                    2,
                    direct(OperandName::A),
                    indirect(OperandName::A8),
                    keep(),
                ),
            ),
            0xF1 => Some(op1(Mnemonic::POP, 1, direct(OperandName::AF), effects(c, c, c, c))),
            0xF2 => Some(
                op2(
                    Mnemonic::LD,
                    1,
                    direct(OperandName::A),
                    indirect(OperandName::C),
                    keep(),
                ),
            ),
            0xF3 => Some(op0(Mnemonic::DI, 1, keep())),
            0xF5 => Some(op1(Mnemonic::PUSH, 1, direct(OperandName::AF), keep())),
            0xF6 => Some(op1(Mnemonic::OR, 2, direct(OperandName::D8), effects(c, off, off, off))),
            0xF7 => Some(op1(Mnemonic::RST, 1, direct(OperandName::Vector(0x30)), keep())),
            0xF8 => Some(
                op3(
                    Mnemonic::LD,
                    2,
                    direct(OperandName::HL),
                    direct_inc(OperandName::SP),
                    direct(OperandName::R8),
                    effects(off, off, c, c),
                ),
            ),
            0xF9 => Some(
                op2(
                    Mnemonic::LD,
                    1,
                    direct(OperandName::SP),
                    direct(OperandName::HL),
                    keep(),
                ),
            ),
            0xFA => Some(
                op2(
                    Mnemonic::LD,
                    3,
                    direct(OperandName::A),
                    indirect(OperandName::A16),
                    keep(),
                ),
            ),
            0xFB => Some(op0(Mnemonic::EI, 1, keep())),
            0xFE => Some(op1(Mnemonic::CP, 2, direct(OperandName::D8), effects(c, on, c, c))),
            0xFF => Some(op1(Mnemonic::RST, 1, direct(OperandName::Vector(0x38)), keep())),
            _ => None,
        }
    }
}

/// Computes an entry of the standard table behind the escape byte.
pub fn cbprefixed_entry(byte: u8) -> (entry: Option<OpcodeDescriptor>)
    ensures
        entry == standard_cbprefixed(byte),
{
    let target = column_operand(byte % 8);
    let row = byte / 8;
    let c = FlagEffect::Computed;
    let off = FlagEffect::ForcedOff;
    let on = FlagEffect::ForcedOn;
    let rotate = effects(c, off, off, c);
    Some(
        match row {
            0 => op1(Mnemonic::RLC, 2, target, rotate),
            1 => op1(Mnemonic::RRC, 2, target, rotate),
            2 => op1(Mnemonic::RL, 2, target, rotate),
            3 => op1(Mnemonic::RR, 2, target, rotate),
            4 => op1(Mnemonic::SLA, 2, target, rotate),
            5 => op1(Mnemonic::SRA, 2, target, rotate),
            6 => op1(Mnemonic::SWAP, 2, target, effects(c, off, off, off)),
            7 => op1(Mnemonic::SRL, 2, target, rotate),
            _ => {
                let bit = direct(OperandName::Bit(row % 8));
                if row < 16 {
                    op2(Mnemonic::BIT, 2, bit, target, effects(c, off, on, FlagEffect::Unaffected))
                } else if row < 24 {
                    op2(Mnemonic::RES, 2, bit, target, keep())
                } else {
                    op2(Mnemonic::SET, 2, bit, target, keep())
                }
            },
        },
    )
}

/// The catalogue: two tables of 256 slots, each slot an entry or nothing.
/// It is filled when it is made and only read afterwards.
pub struct OpcodeTable {
    unprefixed: Vec<Option<OpcodeDescriptor>>,
    cbprefixed: Vec<Option<OpcodeDescriptor>>,
}

impl OpcodeTable {
    #[verifier::type_invariant]
    closed spec fn wf(&self) -> bool {
        self.unprefixed.len() == TABLE_SIZE && self.cbprefixed.len() == TABLE_SIZE
    }

    /// The entry for an opcode, if the catalogue has one.
    pub closed spec fn entry(&self, prefixed: bool, byte: u8) -> Option<OpcodeDescriptor> {
        if prefixed {
            if byte < self.cbprefixed.len() {
                self.cbprefixed[byte as int]
            } else {
                None
            }
        } else {
            if byte < self.unprefixed.len() {
                self.unprefixed[byte as int]
            } else {
                None
            }
        }
    }

    /// Whether this is the standard catalogue.
    pub open spec fn is_standard(&self) -> bool {
        forall|prefixed: bool, byte: u8| #[trigger]
            self.entry(prefixed, byte) == standard_entry(prefixed, byte)
    }

    /// A catalogue without entries.
    pub fn empty() -> (table: OpcodeTable)
        ensures
            forall|prefixed: bool, byte: u8| #[trigger] table.entry(prefixed, byte) is None,
    {
        OpcodeTable { unprefixed: vec![None; TABLE_SIZE], cbprefixed: vec![None; TABLE_SIZE] }
    }

    /// The standard catalogue of the machine's instruction set.
    pub fn standard() -> (table: OpcodeTable)
        ensures
            table.is_standard(),
    {
        let mut unprefixed: Vec<Option<OpcodeDescriptor>> = Vec::new();
        let mut cbprefixed: Vec<Option<OpcodeDescriptor>> = Vec::new();
        let mut i: usize = 0;
        while i < TABLE_SIZE
            invariant
                i <= TABLE_SIZE,
                unprefixed.len() == i,
                cbprefixed.len() == i,
                forall|b: u8| b < i ==> unprefixed[b as int] == standard_unprefixed(b),
                forall|b: u8| b < i ==> cbprefixed[b as int] == standard_cbprefixed(b),
            decreases TABLE_SIZE - i,
        {
            unprefixed.push(unprefixed_entry(i as u8));
            cbprefixed.push(cbprefixed_entry(i as u8));
            i += 1;
        }
        OpcodeTable { unprefixed, cbprefixed }
    }

    /// Puts an entry in the place of an opcode, over what stood there.
    pub fn insert(&mut self, prefixed: bool, byte: u8, descriptor: OpcodeDescriptor)
        ensures
            final(self).entry(prefixed, byte) == Some(descriptor),
            forall|p: bool, b: u8|
                (p != prefixed || b != byte) ==> #[trigger] final(self).entry(p, b) == old(
                    self,
                ).entry(p, b),
    {
        proof {
            use_type_invariant(&*self);
        }
        if prefixed {
            self.cbprefixed[byte as usize] = Some(descriptor);
        } else {
            self.unprefixed[byte as usize] = Some(descriptor);
        }
    }

    /// The entry for an opcode of the plain table, or of the table behind
    /// the escape byte where `prefixed` is set. An opcode without an entry
    /// is an error: there is no instruction to fall back on.
    pub fn lookup(&self, prefixed: bool, byte: u8) -> (r: Result<OpcodeDescriptor, CpuError>)
        ensures
            r == match self.entry(prefixed, byte) {
                Some(descriptor) => Ok::<OpcodeDescriptor, CpuError>(descriptor),
                None => Err(CpuError::UnknownOpcode),
            },
    {
        proof {
            use_type_invariant(self);
        }
        let slot = if prefixed {
            self.cbprefixed[byte as usize]
        } else {
            self.unprefixed[byte as usize]
        };
        match slot {
            Some(descriptor) => Ok(descriptor),
            None => Err(CpuError::UnknownOpcode),
        }
    }
}

/// The standard catalogue, built anew.
pub fn get_opcodes() -> (table: OpcodeTable)
    ensures
        table.is_standard(),
{
    OpcodeTable::standard()
}

} // verus!
