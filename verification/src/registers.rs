//! The register file: eight byte registers, their pairing into words, the
//! stack pointer, the program counter and the four flags kept in register F.

use vstd::prelude::*;
use vstd::string::*;
use crate::consts::{FLAG_CARRY_MASK, FLAG_HALF_CARRY_MASK, FLAG_SUB_MASK, FLAG_ZERO_MASK};

verus! {

/// One of the eight byte registers.
#[allow(non_camel_case_types)]
#[derive(Clone, Copy, Debug, PartialEq, Eq, Structural)]
pub enum Register {
    A,
    B,
    C,
    D,
    E,
    F,
    H,
    L,
}

/// A word register: the stack pointer, or two byte registers read high byte first.
#[allow(non_camel_case_types)]
#[derive(Clone, Copy, Debug, PartialEq, Eq, Structural)]
pub enum RegisterPair {
    AF,
    BC,
    DE,
    HL,
    SP,
}

/// One of the four status flags of register F.
#[derive(Clone, Copy, Debug, PartialEq, Eq, Structural)]
pub enum Flag {
    Zero,
    Sub,
    HalfCarry,
    Carry,
}

/// A condition on the flags that gates a jump or a call.
#[allow(non_camel_case_types)]
#[derive(Clone, Copy, Debug, PartialEq, Eq, Structural)]
pub enum Condition {
    Z,
    NZ,
    C,
    NC,
}

/// The register that a one-letter name denotes, in either case.
pub open spec fn register_named(name: Seq<char>) -> Option<Register> {
    if name.len() != 1 {
        None
    } else if name[0] == 'a' || name[0] == 'A' {
        Some(Register::A)
    } else if name[0] == 'b' || name[0] == 'B' {
        Some(Register::B)
    } else if name[0] == 'c' || name[0] == 'C' {
        Some(Register::C)
    } else if name[0] == 'd' || name[0] == 'D' {
        Some(Register::D)
    } else if name[0] == 'e' || name[0] == 'E' {
        Some(Register::E)
    } else if name[0] == 'f' || name[0] == 'F' {
        Some(Register::F)
    } else if name[0] == 'h' || name[0] == 'H' {
        Some(Register::H)
    } else if name[0] == 'l' || name[0] == 'L' {
        Some(Register::L)
    } else {
        None
    }
}

impl Register {
    /// Looks a register up by its one-letter name; upper and lower case both count.
    pub fn from_name(name: &str) -> (r: Option<Register>)
        ensures
            r == register_named(name@),
    {
        if name.unicode_len() != 1 {
            return None;
        }
        let c = name.get_char(0);
        if c == 'a' || c == 'A' {
            Some(Register::A)
        } else if c == 'b' || c == 'B' {
            Some(Register::B)
        } else if c == 'c' || c == 'C' {
            Some(Register::C)
        } else if c == 'd' || c == 'D' {
            Some(Register::D)
        } else if c == 'e' || c == 'E' {
            Some(Register::E)
        } else if c == 'f' || c == 'F' {
            Some(Register::F)
        } else if c == 'h' || c == 'H' {
            Some(Register::H)
        } else if c == 'l' || c == 'L' {
            Some(Register::L)
        } else {
            None
        }
    }
}

/// The letter that a character is, whatever its case.
pub open spec fn is_letter(c: char, lower: char, upper: char) -> bool {
    c == lower || c == upper
}

/// The word register that a two-letter name denotes, in either case: the
/// stack pointer, or one of the four pairs of byte registers.
pub open spec fn pair_named(name: Seq<char>) -> Option<RegisterPair> {
    if name.len() != 2 {
        None
    } else if is_letter(name[0], 'a', 'A') && is_letter(name[1], 'f', 'F') {
        Some(RegisterPair::AF)
    } else if is_letter(name[0], 'b', 'B') && is_letter(name[1], 'c', 'C') {
        Some(RegisterPair::BC)
    } else if is_letter(name[0], 'd', 'D') && is_letter(name[1], 'e', 'E') {
        Some(RegisterPair::DE)
    } else if is_letter(name[0], 'h', 'H') && is_letter(name[1], 'l', 'L') {
        Some(RegisterPair::HL)
    } else if is_letter(name[0], 's', 'S') && is_letter(name[1], 'p', 'P') {
        Some(RegisterPair::SP)
    } else {
        None
    }
}

fn letter(c: char, lower: char, upper: char) -> (r: bool)
    ensures
        r == is_letter(c, lower, upper),
{
    c == lower || c == upper
}

impl RegisterPair {
    /// Looks a word register up by its two-letter name; upper and lower
    /// case both count.
    pub fn from_name(name: &str) -> (r: Option<RegisterPair>)
        ensures
            r == pair_named(name@),
    {
        if name.unicode_len() != 2 {
            return None;
        }
        let first = name.get_char(0);
        let second = name.get_char(1);
        if letter(first, 'a', 'A') && letter(second, 'f', 'F') {
            Some(RegisterPair::AF)
        } else if letter(first, 'b', 'B') && letter(second, 'c', 'C') {
            Some(RegisterPair::BC)
        } else if letter(first, 'd', 'D') && letter(second, 'e', 'E') {
            Some(RegisterPair::DE)
        } else if letter(first, 'h', 'H') && letter(second, 'l', 'L') {
            Some(RegisterPair::HL)
        } else if letter(first, 's', 'S') && letter(second, 'p', 'P') {
            Some(RegisterPair::SP)
        } else {
            None
        }
    }

    /// The register that holds the high byte; the stack pointer has none.
    pub open spec fn high(self) -> Option<Register> {
        match self {
            RegisterPair::AF => Some(Register::A),
            RegisterPair::BC => Some(Register::B),
            RegisterPair::DE => Some(Register::D),
            RegisterPair::HL => Some(Register::H),
            RegisterPair::SP => None,
        }
    }

    /// The register that holds the low byte; the stack pointer has none.
    pub open spec fn low(self) -> Option<Register> {
        match self {
            RegisterPair::AF => Some(Register::F),
            RegisterPair::BC => Some(Register::C),
            RegisterPair::DE => Some(Register::E),
            RegisterPair::HL => Some(Register::L),
            RegisterPair::SP => None,
        }
    }
}

impl Flag {
    /// The bit of register F that holds this flag.
    #[verifier::when_used_as_spec(spec_mask)]
    pub fn mask(self) -> (m: u8)
        ensures
            m == self.spec_mask(),
    {
        match self {
            Flag::Zero => FLAG_ZERO_MASK,
            Flag::Sub => FLAG_SUB_MASK,
            Flag::HalfCarry => FLAG_HALF_CARRY_MASK,
            Flag::Carry => FLAG_CARRY_MASK,
        }
    }

    pub open spec fn spec_mask(self) -> u8 {
        match self {
            Flag::Zero => FLAG_ZERO_MASK,
            Flag::Sub => FLAG_SUB_MASK,
            Flag::HalfCarry => FLAG_HALF_CARRY_MASK,
            Flag::Carry => FLAG_CARRY_MASK,
        }
    }
}

/// High byte of a word.
pub open spec fn high_byte(value: u16) -> u8 {
    (value / 256) as u8
}

/// Low byte of a word.
pub open spec fn low_byte(value: u16) -> u8 {
    (value % 256) as u8
}

/// The word whose high byte is `high` and whose low byte is `low`.
pub open spec fn word_of(high: u8, low: u8) -> u16 {
    (high * 256 + low) as u16
}

/// High byte of a word.
pub fn msb(value: u16) -> (b: u8)
    ensures
        b == high_byte(value),
{
    (value / 256) as u8
}

/// Low byte of a word.
pub fn lsb(value: u16) -> (b: u8)
    ensures
        b == low_byte(value),
{
    (value % 256) as u8
}

/// Joins two bytes into a word, high byte first.
pub fn make_word(high: u8, low: u8) -> (w: u16)
    ensures
        w == word_of(high, low),
{
    (high as u16) * 256 + (low as u16)
}

/// The register file.
#[derive(Clone, Copy, Debug, PartialEq, Eq, Structural)]
pub struct Registers {
    pub a: u8,
    pub b: u8,
    pub c: u8,
    pub d: u8,
    pub e: u8,
    pub f: u8,
    pub h: u8,
    pub l: u8,
    pub sp: u16,
    pub pc: u16,
}

impl Registers {
    /// Content of a byte register.
    pub open spec fn reg8(self, reg: Register) -> u8 {
        match reg {
            Register::A => self.a,
            Register::B => self.b,
            Register::C => self.c,
            Register::D => self.d,
            Register::E => self.e,
            Register::F => self.f,
            Register::H => self.h,
            Register::L => self.l,
        }
    }

    /// The file with one byte register replaced.
    pub open spec fn with_reg8(self, reg: Register, value: u8) -> Registers {
        match reg {
            Register::A => Registers { a: value, ..self },
            Register::B => Registers { b: value, ..self },
            Register::C => Registers { c: value, ..self },
            Register::D => Registers { d: value, ..self },
            Register::E => Registers { e: value, ..self },
            Register::F => Registers { f: value, ..self },
            Register::H => Registers { h: value, ..self },
            Register::L => Registers { l: value, ..self },
        }
    }

    /// Content of a word register.
    pub open spec fn reg16(self, pair: RegisterPair) -> u16 {
        match pair {
            RegisterPair::AF => word_of(self.a, self.f),
            RegisterPair::BC => word_of(self.b, self.c),
            RegisterPair::DE => word_of(self.d, self.e),
            RegisterPair::HL => word_of(self.h, self.l),
            RegisterPair::SP => self.sp,
        }
    }

    /// The file with one word register replaced: the stack pointer has a
    /// slot of its own, every other pair takes the word's high byte in its
    /// first register and the low byte in its second.
    pub open spec fn with_reg16(self, pair: RegisterPair, value: u16) -> Registers {
        match pair {
            RegisterPair::AF => Registers { a: high_byte(value), f: low_byte(value), ..self },
            RegisterPair::BC => Registers { b: high_byte(value), c: low_byte(value), ..self },
            RegisterPair::DE => Registers { d: high_byte(value), e: low_byte(value), ..self },
            RegisterPair::HL => Registers { h: high_byte(value), l: low_byte(value), ..self },
            RegisterPair::SP => Registers { sp: value, ..self },
        }
    }

    /// Whether a flag is set.
    pub open spec fn flag(self, flag: Flag) -> bool {
        self.f & flag.mask() != 0
    }

    /// The file after a flag write: the flag takes the value given, the
    /// other three keep theirs, and the low nibble of F is zero.
    pub open spec fn with_flag(self, flag: Flag, value: bool) -> Registers {
        Registers {
            f: if value {
                (self.f | flag.mask()) & 0xF0
            } else {
                self.f & !flag.mask() & 0xF0
            },
            ..self
        }
    }

    /// Whether a condition holds of the flags.
    pub open spec fn condition(self, cond: Condition) -> bool {
        match cond {
            Condition::Z => self.flag(Flag::Zero),
            Condition::NZ => !self.flag(Flag::Zero),
            Condition::C => self.flag(Flag::Carry),
            Condition::NC => !self.flag(Flag::Carry),
        }
    }

    /// The file at power-on: every byte register zero, the stack pointer at
    /// 0xFFFE and the program counter where the caller says.
    pub open spec fn initial(pc: u16) -> Registers {
        Registers { a: 0, b: 0, c: 0, d: 0, e: 0, f: 0, h: 0, l: 0, sp: 0xFFFE, pc }
    }

    pub fn new(pc: u16) -> (regs: Registers)
        ensures
            regs == Registers::initial(pc),
    {
        Registers { a: 0, b: 0, c: 0, d: 0, e: 0, f: 0, h: 0, l: 0, sp: 0xFFFE, pc }
    }

    pub fn get_register(&self, reg: Register) -> (value: u8)
        ensures
            value == self.reg8(reg),
    {
        match reg {
            Register::A => self.a,
            Register::B => self.b,
            Register::C => self.c,
            Register::D => self.d,
            Register::E => self.e,
            Register::F => self.f,
            Register::H => self.h,
            Register::L => self.l,
        }
    }

    pub fn set_register(&mut self, reg: Register, value: u8)
        ensures
            *final(self) == old(self).with_reg8(reg, value),
    {
        match reg {
            Register::A => self.a = value,
            Register::B => self.b = value,
            Register::C => self.c = value,
            Register::D => self.d = value,
            Register::E => self.e = value,
            Register::F => self.f = value,
            Register::H => self.h = value,
            Register::L => self.l = value,
        }
    }

    pub fn get_double_register(&self, pair: RegisterPair) -> (value: u16)
        ensures
            value == self.reg16(pair),
    {
        match pair {
            RegisterPair::AF => make_word(self.a, self.f),
            RegisterPair::BC => make_word(self.b, self.c),
            RegisterPair::DE => make_word(self.d, self.e),
            RegisterPair::HL => make_word(self.h, self.l),
            RegisterPair::SP => self.sp,
        }
    }

    pub fn set_double_register(&mut self, pair: RegisterPair, value: u16)
        ensures
            *final(self) == old(self).with_reg16(pair, value),
    {
        match pair {
            RegisterPair::AF => {
                self.a = msb(value);
                self.f = lsb(value);
            },
            RegisterPair::BC => {
                self.b = msb(value);
                self.c = lsb(value);
            },
            RegisterPair::DE => {
                self.d = msb(value);
                self.e = lsb(value);
            },
            RegisterPair::HL => {
                self.h = msb(value);
                self.l = lsb(value);
            },
            RegisterPair::SP => self.sp = value,
        }
    }

    pub fn get_flag(&self, flag: Flag) -> (set: bool)
        ensures
            set == self.flag(flag),
    {
        self.f & flag.mask() != 0
    }

    pub fn set_flag(&mut self, flag: Flag, value: bool)
        ensures
            *final(self) == old(self).with_flag(flag, value),
    {
        let mask = flag.mask();
        if value {
            self.f = (self.f | mask) & 0xF0;
        } else {
            self.f = self.f & !mask & 0xF0;
        }
    }

    pub fn get_condition_value(&self, cond: Condition) -> (holds: bool)
        ensures
            holds == self.condition(cond),
    {
        match cond {
            Condition::Z => self.get_flag(Flag::Zero),
            Condition::NZ => !self.get_flag(Flag::Zero),
            Condition::C => self.get_flag(Flag::Carry),
            Condition::NC => !self.get_flag(Flag::Carry),
        }
    }
}

/// A byte register reads back what was last written to it, and the write
/// leaves every other byte register, the stack pointer and the program
/// counter as they were.
pub proof fn lemma_register_write_then_read(regs: Registers, reg: Register, value: u8)
    ensures
        regs.with_reg8(reg, value).reg8(reg) == value,
        forall|other: Register|
            other != reg ==> regs.with_reg8(reg, value).reg8(other) == regs.reg8(other),
        regs.with_reg8(reg, value).sp == regs.sp,
        regs.with_reg8(reg, value).pc == regs.pc,
{
}

/// A word register reads back what was last written to it. For a pair of
/// byte registers the first then holds the word's high byte and the second
/// its low byte; the stack pointer touches no byte register.
pub proof fn lemma_pair_write_then_read(regs: Registers, pair: RegisterPair, value: u16)
    ensures
        regs.with_reg16(pair, value).reg16(pair) == value,
        pair.high() matches Some(r) ==> regs.with_reg16(pair, value).reg8(r) == high_byte(value),
        pair.low() matches Some(r) ==> regs.with_reg16(pair, value).reg8(r) == low_byte(value),
        pair == RegisterPair::SP ==> forall|r: Register|
            regs.with_reg16(pair, value).reg8(r) == regs.reg8(r),
{
}

/// A flag reads back what was last written to it, the other flags keep
/// their values, and after any flag write the low nibble of F is zero.
pub proof fn lemma_flag_write_then_read(regs: Registers, flag: Flag, value: bool)
    ensures
        regs.with_flag(flag, value).flag(flag) == value,
        forall|other: Flag|
            other != flag ==> regs.with_flag(flag, value).flag(other) == regs.flag(other),
        regs.with_flag(flag, value).f & 0x0F == 0,
{
    let f = regs.f;
    let m = flag.mask();
    assert(m == 0x80 || m == 0x40 || m == 0x20 || m == 0x10);
    assert(((f | m) & 0xF0) & m != 0 && (f & !m & 0xF0) & m == 0 && ((f | m) & 0xF0) & 0x0F == 0
        && (f & !m & 0xF0) & 0x0F == 0) by (bit_vector)
        requires
            m == 0x80 || m == 0x40 || m == 0x20 || m == 0x10,
    ;
    assert forall|other: Flag| other != flag implies regs.with_flag(flag, value).flag(other)
        == regs.flag(other) by {
        let o = other.mask();
        assert(((f | m) & 0xF0) & o == f & o && (f & !m & 0xF0) & o == f & o) by (bit_vector)
            requires
                m == 0x80 || m == 0x40 || m == 0x20 || m == 0x10,
                o == 0x80 || o == 0x40 || o == 0x20 || o == 0x10,
                o != m,
        ;
    }
}

} // verus!
