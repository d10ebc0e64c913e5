//! Decoded operands: an operand slot of the catalogue together with the
//! value that was read for it when the instruction was decoded.

use vstd::prelude::*;
use vstd::string::*;
use crate::opcodes::{Operand, OperandName};
use crate::text::{hex_byte, hex_word, push_hex_byte, push_hex_word};

verus! {

/// The value decoded for an operand.
#[derive(Clone, Copy, Debug, PartialEq, Eq, Structural)]
pub enum MemValue {
    /// Nothing was decoded yet.
    Null,
    /// A byte that followed the opcode.
    Byte(u8),
    /// A little-endian word that followed the opcode.
    Double(u16),
    /// A byte that followed the opcode, read as a signed offset.
    SignedByte(i8),
    /// A name, which the instruction resolves when it executes: whether it
    /// then denotes a register's content or the memory cell that a
    /// register pair addresses is for the instruction to decide.
    Name(OperandName),
}

/// An operand slot and its decoded value.
#[derive(Clone, Copy, Debug, PartialEq, Eq, Structural)]
pub struct Param {
    pub operand: Operand,
    pub value: MemValue,
}

/// The decoded operands of one instruction, in the catalogue's order.
#[derive(Clone, Copy, Debug, PartialEq, Eq, Structural)]
pub enum Params {
    Empty,
    One(Param),
    Two(Param, Param),
    Three(Param, Param, Param),
}

/// A signed byte as the byte that holds it in two's complement.
pub open spec fn as_unsigned(value: i8) -> u8 {
    if value < 0 {
        (value + 256) as u8
    } else {
        value as u8
    }
}

/// How a decoded value is shown: a number in hexadecimal behind `0x`, two
/// digits for a byte and four for a word, a signed byte as the byte that
/// holds it; a name as it is.
pub open spec fn value_text(value: MemValue) -> Seq<char> {
    match value {
        MemValue::Byte(byte) => "0x"@ + hex_byte(byte),
        MemValue::SignedByte(offset) => "0x"@ + hex_byte(as_unsigned(offset)),
        MemValue::Double(word) => "0x"@ + hex_word(word),
        MemValue::Name(name) => name.spec_name(),
        MemValue::Null => Seq::empty(),
    }
}

/// How a parameter is shown: its value; where it is not immediate, in
/// parentheses, with `-` or `+` behind the value if the register pair is
/// stepped down or up.
pub open spec fn printable(param: Param) -> Seq<char> {
    if param.operand.immediate {
        value_text(param.value)
    } else if param.operand.decrement {
        "("@ + value_text(param.value) + "-"@ + ")"@
    } else if param.operand.increment {
        "("@ + value_text(param.value) + "+"@ + ")"@
    } else {
        "("@ + value_text(param.value) + ")"@
    }
}

impl Param {
    /// The parameter as the trace shows it.
    pub fn get_printable(&self) -> (text: String)
        requires
            self.value !is Null,
        ensures
            text@ == printable(*self),
    {
        let mut text = String::new();
        if !self.operand.immediate {
            text.append("(");
        }
        let ghost opened = text@;
        match self.value {
            MemValue::Byte(byte) => {
                text.append("0x");
                push_hex_byte(&mut text, byte);
            },
            MemValue::SignedByte(offset) => {
                text.append("0x");
                let byte: u8 = if offset < 0 {
                    (offset as i16 + 256) as u8
                } else {
                    offset as u8
                };
                push_hex_byte(&mut text, byte);
            },
            MemValue::Double(word) => {
                text.append("0x");
                push_hex_word(&mut text, word);
            },
            MemValue::Name(name) => {
                name.push_name(&mut text);
            },
            MemValue::Null => {},
        }
        assert(text@ =~= opened + value_text(self.value));
        if !self.operand.immediate {
            if self.operand.decrement {
                text.append("-");
            } else if self.operand.increment {
                text.append("+");
            }
            text.append(")");
        }
        assert(text@ =~= printable(*self));
        text
    }

    /// A parameter for an operand slot, nothing decoded for it yet.
    pub fn new(operand: Operand) -> (param: Param)
        ensures
            param == (Param { operand, value: MemValue::Null }),
    {
        Param { operand, value: MemValue::Null }
    }

    pub fn is_decrement(&self) -> (b: bool)
        ensures
            b == self.operand.decrement,
    {
        self.operand.decrement
    }

    pub fn is_increment(&self) -> (b: bool)
        ensures
            b == self.operand.increment,
    {
        self.operand.increment
    }

    pub fn is_immediate(&self) -> (b: bool)
        ensures
            b == self.operand.immediate,
    {
        self.operand.immediate
    }

    pub fn set_param_value(&mut self, value: MemValue)
        ensures
            *final(self) == (Param { operand: old(self).operand, value }),
    {
        self.value = value;
    }

    pub fn get_name(&self) -> (name: OperandName)
        ensures
            name == self.operand.name,
    {
        self.operand.name
    }

    pub fn get_value(&self) -> (value: MemValue)
        ensures
            value == self.value,
    {
        self.value
    }

    /// The signed offset decoded for this parameter.
    pub fn get_signed_byte(&self) -> (value: i8)
        requires
            self.value is SignedByte,
        ensures
            self.value == MemValue::SignedByte(value),
    {
        match self.value {
            MemValue::SignedByte(value) => value,
            _ => 0,
        }
    }

    /// The word decoded for this parameter.
    pub fn get_double(&self) -> (value: u16)
        requires
            self.value is Double,
        ensures
            self.value == MemValue::Double(value),
    {
        match self.value {
            MemValue::Double(value) => value,
            _ => 0,
        }
    }

    /// The byte decoded for this parameter.
    pub fn get_byte(&self) -> (value: u8)
        requires
            self.value is Byte,
        ensures
            self.value == MemValue::Byte(value),
    {
        match self.value {
            MemValue::Byte(value) => value,
            _ => 0,
        }
    }
}

impl Params {
    pub open spec fn view(self) -> Seq<Param> {
        match self {
            Params::Empty => seq![],
            Params::One(a) => seq![a],
            Params::Two(a, b) => seq![a, b],
            Params::Three(a, b, c) => seq![a, b, c],
        }
    }

    /// Number of parameters.
    pub fn len(self) -> (n: usize)
        ensures
            n == self@.len(),
    {
        match self {
            Params::Empty => 0,
            Params::One(_) => 1,
            Params::Two(_, _) => 2,
            Params::Three(_, _, _) => 3,
        }
    }
}

} // verus!
