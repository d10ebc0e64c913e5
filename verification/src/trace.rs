//! The lines that describe a catalogue entry and the contents of the
//! store to someone who follows the machine at work.

use vstd::prelude::*;
use vstd::string::*;
use crate::opcodes::{FlagEffect, OpcodeDescriptor, Operand, Operands};
use crate::ram_memory::RamMemory;
use crate::text::{decimal, hex_byte, hex_word, push_decimal, push_hex_byte, push_hex_word};

verus! {

/// Number of bytes that a line of a dump shows.
pub const DUMP_WIDTH: usize = 8;

/// Number of lines of a dump of the whole address space.
pub const DUMP_LINES: usize = 8192;

/// How a declared effect is called.
pub open spec fn effect_text(effect: FlagEffect) -> Seq<char> {
    match effect {
        FlagEffect::Unaffected => "Unaffected"@,
        FlagEffect::ForcedOff => "Turned Off"@,
        FlagEffect::ForcedOn => "Turned On"@,
        FlagEffect::Computed => "By Value"@,
    }
}

/// The line for one flag: its title and what is declared for it.
pub open spec fn flag_line(title: Seq<char>, effect: FlagEffect) -> Seq<char> {
    "    "@ + title + " -> "@ + effect_text(effect)
}

/// The options of an operand that are set, each behind a separator.
pub open spec fn options_text(operand: Operand) -> Seq<char> {
    let immediate = if operand.immediate {
        " immediate"@
    } else {
        Seq::empty()
    };
    let decrement = if !operand.decrement {
        Seq::empty()
    } else if operand.immediate {
        ", decrement"@
    } else {
        " decrement"@
    };
    let increment = if !operand.increment {
        Seq::empty()
    } else if operand.immediate || operand.decrement {
        ", increment"@
    } else {
        " increment"@
    };
    immediate + decrement + increment
}

/// The line for one operand: its place, its name and its options.
pub open spec fn operand_line(index: nat, operand: Operand) -> Seq<char> {
    "    Param #"@ + decimal(index) + " -> "@ + operand.name.spec_name() + options_text(operand)
}

/// The first line of an entry: its name and its length.
pub open spec fn header_line(descriptor: OpcodeDescriptor) -> Seq<char> {
    descriptor.mnemonic.spec_name() + ": "@ + decimal(descriptor.bytes as nat) + " bytes"@
}

/// The lines that describe an entry: the header, the four flags from
/// carry to zero, and the operands in order.
pub open spec fn pretty_lines(descriptor: OpcodeDescriptor) -> Seq<Seq<char>> {
    seq![
        header_line(descriptor),
        flag_line("Carry"@, descriptor.flags.carry),
        flag_line("Half-Carry"@, descriptor.flags.half_carry),
        flag_line("Negative"@, descriptor.flags.sub),
        flag_line("Zero"@, descriptor.flags.zero),
    ] + Seq::new(
        descriptor.operands@.len(),
        |i: int| operand_line(i as nat, descriptor.operands@[i]),
    )
}

/// A line of a dump: the address of its first byte, then eight bytes.
pub open spec fn dump_line(memory: Seq<u8>, start: int) -> Seq<char> {
    dump_bytes(memory, start, DUMP_WIDTH as int)
}

/// The start of a line of a dump with its first `count` bytes.
pub open spec fn dump_bytes(memory: Seq<u8>, start: int, count: int) -> Seq<char>
    decreases count,
{
    if count <= 0 {
        "0x"@ + hex_word(start as u16) + " -> "@
    } else {
        dump_bytes(memory, start, count - 1) + "0x"@ + hex_byte(memory[start + count - 1]) + " "@
    }
}

fn push_effect(text: &mut String, effect: FlagEffect)
    ensures
        final(text)@ == old(text)@ + effect_text(effect),
{
    match effect {
        FlagEffect::Unaffected => text.append("Unaffected"),
        FlagEffect::ForcedOff => text.append("Turned Off"),
        FlagEffect::ForcedOn => text.append("Turned On"),
        FlagEffect::Computed => text.append("By Value"),
    }
}

fn make_flag_line(title: &str, effect: FlagEffect) -> (line: String)
    ensures
        line@ == flag_line(title@, effect),
{
    let mut line = String::new();
    line.append("    ");
    line.append(title);
    line.append(" -> ");
    push_effect(&mut line, effect);
    assert(line@ =~= flag_line(title@, effect));
    line
}

fn make_operand_line(index: u8, operand: Operand) -> (line: String)
    ensures
        line@ == operand_line(index as nat, operand),
{
    let mut line = String::new();
    line.append("    Param #");
    push_decimal(&mut line, index);
    line.append(" -> ");
    operand.name.push_name(&mut line);
    let ghost named = line@;
    if operand.immediate {
        line.append(" immediate");
    }
    if operand.decrement {
        if operand.immediate {
            line.append(", decrement");
        } else {
            line.append(" decrement");
        }
    }
    if operand.increment {
        if operand.immediate || operand.decrement {
            line.append(", increment");
        } else {
            line.append(" increment");
        }
    }
    assert(line@ =~= named + options_text(operand));
    assert(line@ =~= operand_line(index as nat, operand));
    line
}

/// Describes a catalogue entry in lines of text.
pub fn pretty_opcode_data(descriptor: &OpcodeDescriptor) -> (lines: Vec<String>)
    ensures
        lines@.len() == pretty_lines(*descriptor).len(),
        forall|i: int| 0 <= i < lines@.len() ==> lines@[i]@ == pretty_lines(*descriptor)[i],
{
    let mut lines: Vec<String> = Vec::new();
    let mut header = String::new();
    header.append(descriptor.mnemonic.name());
    header.append(": ");
    push_decimal(&mut header, descriptor.bytes);
    header.append(" bytes");
    assert(header@ =~= header_line(*descriptor));
    lines.push(header);
    lines.push(make_flag_line("Carry", descriptor.flags.carry));
    lines.push(make_flag_line("Half-Carry", descriptor.flags.half_carry));
    lines.push(make_flag_line("Negative", descriptor.flags.sub));
    lines.push(make_flag_line("Zero", descriptor.flags.zero));
    match descriptor.operands {
        Operands::Empty => {},
        Operands::One(a) => {
            lines.push(make_operand_line(0, a));
        },
        Operands::Two(a, b) => {
            lines.push(make_operand_line(0, a));
            lines.push(make_operand_line(1, b));
        },
        Operands::Three(a, b, c) => {
            lines.push(make_operand_line(0, a));
            lines.push(make_operand_line(1, b));
            lines.push(make_operand_line(2, c));
        },
    }
    lines
}

/// Writes one line of a dump of the store.
pub fn make_dump_line(ram: &RamMemory, start: u16) -> (line: String)
    requires
        start + DUMP_WIDTH <= 0x10000,
    ensures
        line@ == dump_line(ram@, start as int),
{
    let mut line = String::new();
    line.append("0x");
    push_hex_word(&mut line, start);
    line.append(" -> ");
    assert(line@ =~= dump_bytes(ram@, start as int, 0));
    let mut j: u16 = 0;
    while j < 8
        invariant
            j <= 8,
            start + DUMP_WIDTH <= 0x10000,
            line@ == dump_bytes(ram@, start as int, j as int),
        decreases 8 - j,
    {
        let ghost so_far = line@;
        line.append("0x");
        push_hex_byte(&mut line, ram.get_addr(start + j));
        line.append(" ");
        j += 1;
        assert(line@ =~= so_far + "0x"@ + hex_byte(ram@[start + j - 1]) + " "@);
    }
    line
}

/// Writes the whole store out, eight bytes to a line.
pub fn dump_store(ram: &RamMemory) -> (lines: Vec<String>)
    ensures
        lines@.len() == DUMP_LINES,
        forall|i: int| 0 <= i < DUMP_LINES ==> lines@[i]@ == dump_line(ram@, i * DUMP_WIDTH),
{
    let mut lines: Vec<String> = Vec::new();
    let mut i: usize = 0;
    while i < DUMP_LINES
        invariant
            i <= DUMP_LINES,
            lines@.len() == i,
            forall|k: int| 0 <= k < i ==> lines@[k]@ == dump_line(ram@, k * DUMP_WIDTH),
        decreases DUMP_LINES - i,
    {
        lines.push(make_dump_line(ram, (i * DUMP_WIDTH) as u16));
        i += 1;
    }
    lines
}

} // verus!
