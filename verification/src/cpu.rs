//! The execution engine: the processor that owns the bus and runs the
//! instruction cycle against it.

use vstd::prelude::*;
use crate::bus::{get_region, note, Access, Machine, Region};
use crate::consts::{bit_check, RAM_ECHO_OFFSET, RAM_IO_PORTS_RANGE_START};
use crate::error::CpuError;
use crate::opcodes::{
    FlagEffect, FlagEffects, Mnemonic, OpcodeDescriptor, OpcodeTable, Operand, OperandName,
    Operands, PREFIX_BYTE,
};
use crate::param::{MemValue, Param, Params};
use crate::ppu::{DisplayAction, PpuView, PPU};
use crate::ram_memory::RamMemory;
use crate::registers::{
    lsb, make_word, msb, pair_named, register_named, Flag, Register, RegisterPair, Registers,
};
use crate::semantics::{
    add_outcome, and_outcome, as_signed, bit_outcome, byte_source, call_outcome, call_taken, commit,
    counter, cp_outcome, dec_outcome, decode, decode_noted, decode_operand, fetch, flag_honoured,
    flags_honoured, following, gate, immediate_byte, immediate_word, inc_outcome, jp_outcome,
    jr_outcome, jr_taken, ld_outcome, ld_source, ld_store_absolute, ld_store_named, ldh_outcome,
    ldh_source, named_place, no_flags, no_reads, no_writes, one_read, one_write, operand_reads,
    or_outcome, pair_cell, plan, plan_reads, pop_outcome, pop_word, push_outcome, push_word,
    read_place, reads_noted, redirect, registers_only, relative_target, ret_outcome, rl_outcome,
    rla_outcome, rotate_place, rotated_left, rotated_right, rr_outcome, rra_outcome, rst_outcome,
    source_cell, srl_outcome, step, step_pair, sub_outcome, word_reads, wrapping_difference,
    wrapping_sum, write_place, xor_outcome, Counter, FlagProposal, MemoryReads, MemoryWrite,
    MemoryWrites, Outcome, Place,
};
use crate::trace::{
    dump_line, dump_store, pretty_lines, pretty_opcode_data, DUMP_LINES, DUMP_WIDTH,
};

verus! {

/// Where the program counter starts when the boot program is run first.
pub const BOOT_ENTRY: u16 = 0x0000;

/// Where the program counter starts when the cartridge is run directly.
pub const CARTRIDGE_ENTRY: u16 = 0x0100;

/// The processor. It owns the primary store and the display, so that every
/// access to either goes through its bus.
pub struct CPU {
    ram: RamMemory,
    ppu: PPU,
    regs: Registers,
    opcodes: OpcodeTable,
    suspicious: Vec<Access>,
}

impl View for CPU {
    type V = Machine;

    closed spec fn view(&self) -> Machine {
        Machine {
            regs: self.regs,
            memory: self.ram@,
            display: self.ppu@,
            suspicious: self.suspicious@,
        }
    }
}

// ------------------------------------------------------------------ helpers

/// Checks what was proposed for one flag against its declared effect.
pub fn verify_flag(effect: FlagEffect, proposed: Option<bool>) -> (ok: bool)
    ensures
        ok == flag_honoured(effect, proposed),
{
    match effect {
        FlagEffect::Unaffected => proposed.is_none(),
        FlagEffect::ForcedOff => match proposed {
            Some(value) => !value,
            None => false,
        },
        FlagEffect::ForcedOn => match proposed {
            Some(value) => value,
            None => false,
        },
        FlagEffect::Computed => proposed.is_some(),
    }
}

/// Checks a whole proposal against the declared effects.
pub fn verify_flags(effects: FlagEffects, proposal: FlagProposal) -> (ok: bool)
    ensures
        ok == flags_honoured(effects, proposal),
{
    verify_flag(effects.zero, proposal.zero) && verify_flag(effects.sub, proposal.sub)
        && verify_flag(effects.half_carry, proposal.half_carry) && verify_flag(
        effects.carry,
        proposal.carry,
    )
}

fn to_signed(byte: u8) -> (s: i8)
    ensures
        s == as_signed(byte),
{
    if byte < 128 {
        byte as i8
    } else {
        (byte as i16 - 256) as i8
    }
}

fn add_wrapping(a: u8, b: u8) -> (r: u8)
    ensures
        r == wrapping_sum(a, b),
{
    ((a as u16 + b as u16) % 256) as u8
}

fn sub_wrapping(a: u8, b: u8) -> (r: u8)
    ensures
        r == wrapping_difference(a, b),
{
    if a >= b {
        a - b
    } else {
        (256 - (b - a) as u16) as u8
    }
}

fn offset_pc(pc: u16, offset: i8) -> (r: u16)
    ensures
        r == relative_target(pc, offset),
{
    let moved: i32 = pc as i32 + offset as i32;
    if moved < 0 {
        (moved + 0x10000) as u16
    } else if moved > 0xFFFF {
        (moved - 0x10000) as u16
    } else {
        moved as u16
    }
}

fn rotate_left(value: u8, carry_in: bool) -> (r: u8)
    ensures
        r == rotated_left(value, carry_in),
{
    let shifted: u8 = ((value as u16 * 2) % 256) as u8;
    if carry_in {
        shifted + 1
    } else {
        shifted
    }
}

fn rotate_right(value: u8, carry_in: bool) -> (r: u8)
    ensures
        r == rotated_right(value, carry_in),
{
    if carry_in {
        value / 2 + 128
    } else {
        value / 2
    }
}

fn keep_registers(regs: Registers) -> (o: Outcome)
    ensures
        o == registers_only(regs),
{
    Outcome {
        regs,
        writes: MemoryWrites { first: None, second: None },
        flags: FlagProposal { zero: None, sub: None, half_carry: None, carry: None },
        redirected: false,
    }
}

fn with_flags(regs: Registers, flags: FlagProposal) -> (o: Outcome)
    ensures
        o == (Outcome { regs, writes: no_writes(), flags, redirected: false }),
{
    Outcome { regs, writes: MemoryWrites { first: None, second: None }, flags, redirected: false }
}

fn write_byte(regs: Registers, addr: u16, value: u8) -> (o: Outcome)
    ensures
        o == (Outcome {
            regs,
            writes: one_write(addr, value),
            flags: no_flags(),
            redirected: false,
        }),
{
    Outcome {
        regs,
        writes: MemoryWrites { first: Some(MemoryWrite { addr, value }), second: None },
        flags: FlagProposal { zero: None, sub: None, half_carry: None, carry: None },
        redirected: false,
    }
}

fn jump(outcome: Outcome, target: u16) -> (o: Outcome)
    ensures
        o == redirect(outcome, target),
{
    let mut regs = outcome.regs;
    regs.pc = target;
    Outcome { regs, writes: outcome.writes, flags: outcome.flags, redirected: true }
}

fn put(regs: Registers, place: Place, value: u8, flags: FlagProposal) -> (o: Outcome)
    ensures
        o == write_place(regs, place, value, flags),
{
    match place {
        Place::Register(reg) => {
            let mut after = regs;
            after.set_register(reg, value);
            with_flags(after, flags)
        },
        Place::Memory(addr) => Outcome {
            regs,
            writes: MemoryWrites { first: Some(MemoryWrite { addr, value }), second: None },
            flags,
            redirected: false,
        },
    }
}

/// Plans the push of a word.
pub fn stack_push_double(regs: Registers, value: u16) -> (r: Result<Outcome, CpuError>)
    ensures
        r == push_word(regs, value),
{
    if regs.sp < 2 {
        return Err(CpuError::OutOfRangeAddress);
    }
    let mut after = regs;
    after.sp = regs.sp - 2;
    Ok(
        Outcome {
            regs: after,
            writes: MemoryWrites {
                first: Some(MemoryWrite { addr: regs.sp - 1, value: msb(value) }),
                second: Some(MemoryWrite { addr: regs.sp - 2, value: lsb(value) }),
            },
            flags: FlagProposal { zero: None, sub: None, half_carry: None, carry: None },
            redirected: false,
        },
    )
}

fn step_register_pair(regs: Registers, operand: Operand) -> (r: Result<Registers, CpuError>)
    ensures
        r == step_pair(regs, operand),
{
    if operand.decrement {
        match operand.name.pair() {
            Some(pair) => {
                let value = regs.get_double_register(pair);
                if value == 0 {
                    Err(CpuError::OutOfRangeAddress)
                } else {
                    let mut after = regs;
                    after.set_double_register(pair, value - 1);
                    Ok(after)
                }
            },
            None => Err(CpuError::InvalidRegisterName),
        }
    } else if operand.increment {
        match operand.name.pair() {
            Some(pair) => {
                let value = regs.get_double_register(pair);
                if value == 0xFFFF {
                    Err(CpuError::OutOfRangeAddress)
                } else {
                    let mut after = regs;
                    after.set_double_register(pair, value + 1);
                    Ok(after)
                }
            },
            None => Err(CpuError::InvalidRegisterName),
        }
    } else {
        Ok(regs)
    }
}

fn condition_of(regs: Registers, param: Param) -> (r: Result<bool, CpuError>)
    ensures
        r == gate(regs, param),
{
    match param.operand.name.condition() {
        Some(cond) => Ok(regs.get_condition_value(cond)),
        None => Err(CpuError::MalformedOperand),
    }
}

fn run_jp(regs: Registers, params: Params) -> (r: Result<Outcome, CpuError>)
    ensures
        r == jp_outcome(regs, params),
{
    match params {
        Params::One(target) => match target.value {
            MemValue::Double(addr) => Ok(jump(keep_registers(regs), addr)),
            _ => Err(CpuError::MalformedOperand),
        },
        _ => Err(CpuError::MalformedOperand),
    }
}

fn take_relative_jump(regs: Registers, offset: Param) -> (r: Result<Outcome, CpuError>)
    ensures
        r == jr_taken(regs, offset),
{
    match offset.value {
        MemValue::SignedByte(o) => Ok(jump(keep_registers(regs), offset_pc(regs.pc, o))),
        _ => Err(CpuError::MalformedOperand),
    }
}

fn run_jr(regs: Registers, params: Params) -> (r: Result<Outcome, CpuError>)
    ensures
        r == jr_outcome(regs, params),
{
    match params {
        Params::One(offset) => take_relative_jump(regs, offset),
        Params::Two(cond, offset) => match condition_of(regs, cond) {
            Ok(taken) => if taken {
                take_relative_jump(regs, offset)
            } else {
                Ok(keep_registers(regs))
            },
            Err(e) => Err(e),
        },
        _ => Err(CpuError::MalformedOperand),
    }
}

fn take_call(regs: Registers, bytes: u8, target: u16) -> (r: Result<Outcome, CpuError>)
    ensures
        r == call_taken(regs, bytes, target),
{
    if regs.pc as u32 + bytes as u32 > 0xFFFF {
        return Err(CpuError::OutOfRangeAddress);
    }
    match stack_push_double(regs, regs.pc + bytes as u16) {
        Ok(pushed) => Ok(jump(pushed, target)),
        Err(e) => Err(e),
    }
}

fn run_call(regs: Registers, bytes: u8, params: Params) -> (r: Result<Outcome, CpuError>)
    ensures
        r == call_outcome(regs, bytes, params),
{
    match params {
        Params::One(target) => match target.value {
            MemValue::Double(addr) => take_call(regs, bytes, addr),
            _ => Err(CpuError::MalformedOperand),
        },
        Params::Two(cond, target) => match target.value {
            MemValue::Double(addr) => match condition_of(regs, cond) {
                Ok(taken) => if taken {
                    take_call(regs, bytes, addr)
                } else {
                    Ok(keep_registers(regs))
                },
                Err(e) => Err(e),
            },
            _ => Err(CpuError::MalformedOperand),
        },
        _ => Err(CpuError::MalformedOperand),
    }
}

fn run_rst(regs: Registers, params: Params) -> (r: Result<Outcome, CpuError>)
    ensures
        r == rst_outcome(regs, params),
{
    match params {
        Params::One(vector) => match vector.operand.name {
            OperandName::Vector(addr) => match stack_push_double(regs, regs.pc) {
                Ok(pushed) => Ok(jump(pushed, addr as u16)),
                Err(e) => Err(e),
            },
            _ => Err(CpuError::MalformedOperand),
        },
        _ => Err(CpuError::MalformedOperand),
    }
}

fn run_push(regs: Registers, params: Params) -> (r: Result<Outcome, CpuError>)
    ensures
        r == push_outcome(regs, params),
{
    match params {
        Params::One(source) => match source.operand.name.pair() {
            Some(pair) => stack_push_double(regs, regs.get_double_register(pair)),
            None => Err(CpuError::InvalidRegisterName),
        },
        _ => Err(CpuError::MalformedOperand),
    }
}

fn run_rla(regs: Registers, params: Params) -> (r: Result<Outcome, CpuError>)
    ensures
        r == rla_outcome(regs, params),
{
    match params {
        Params::Empty => {
            let mut after = regs;
            after.a = rotate_left(regs.a, regs.get_flag(Flag::Carry));
            Ok(
                with_flags(
                    after,
                    FlagProposal {
                        zero: Some(false),
                        sub: Some(false),
                        half_carry: Some(false),
                        carry: Some(regs.a >= 128),
                    },
                ),
            )
        },
        _ => Err(CpuError::MalformedOperand),
    }
}

fn run_rra(regs: Registers, params: Params) -> (r: Result<Outcome, CpuError>)
    ensures
        r == rra_outcome(regs, params),
{
    match params {
        Params::Empty => {
            let mut after = regs;
            after.a = rotate_right(regs.a, regs.get_flag(Flag::Carry));
            Ok(
                with_flags(
                    after,
                    FlagProposal {
                        zero: Some(false),
                        sub: Some(false),
                        half_carry: Some(false),
                        carry: Some(regs.a % 2 == 1),
                    },
                ),
            )
        },
        _ => Err(CpuError::MalformedOperand),
    }
}

fn place_of_rotate(regs: Registers, param: Param) -> (r: Result<Place, CpuError>)
    ensures
        r == rotate_place(regs, param),
{
    if param.operand.immediate {
        match param.operand.name.register() {
            Some(reg) => Ok(Place::Register(reg)),
            None => Err(CpuError::InvalidRegisterName),
        }
    } else {
        match param.operand.name.pair() {
            Some(pair) => Ok(Place::Memory(regs.get_double_register(pair))),
            None => Err(CpuError::InvalidRegisterName),
        }
    }
}

fn place_of_name(regs: Registers, name: OperandName) -> (r: Result<Place, CpuError>)
    ensures
        r == named_place(regs, name),
{
    match name.pair() {
        Some(pair) => Ok(Place::Memory(regs.get_double_register(pair))),
        None => match name.register() {
            Some(reg) => Ok(Place::Register(reg)),
            None => Err(CpuError::InvalidRegisterName),
        },
    }
}

fn counter_of(regs: Registers, param: Param) -> (r: Result<Counter, CpuError>)
    ensures
        r == counter(regs, param),
{
    let name = param.operand.name;
    if param.operand.immediate {
        match name.register() {
            Some(reg) => Ok(Counter::Byte(Place::Register(reg))),
            None => match name.pair() {
                Some(pair) => Ok(Counter::Word(pair)),
                None => Err(CpuError::InvalidRegisterName),
            },
        }
    } else {
        match name.pair() {
            Some(pair) => Ok(Counter::Byte(Place::Memory(regs.get_double_register(pair)))),
            None => Err(CpuError::InvalidRegisterName),
        }
    }
}

fn store_named(regs: Registers, target: Operand, value: MemValue) -> (r: Result<Outcome, CpuError>)
    ensures
        r == ld_store_named(regs, target, value),
{
    match target.name.register() {
        Some(reg) => match value {
            MemValue::Byte(byte) => {
                let mut after = regs;
                after.set_register(reg, byte);
                Ok(keep_registers(after))
            },
            _ => Err(CpuError::MalformedOperand),
        },
        None => match target.name.pair() {
            Some(pair) => match value {
                MemValue::Double(word) => {
                    let mut after = regs;
                    after.set_double_register(pair, word);
                    Ok(keep_registers(after))
                },
                MemValue::Byte(byte) => if target.immediate {
                    Err(CpuError::MalformedOperand)
                } else {
                    Ok(write_byte(regs, regs.get_double_register(pair), byte))
                },
                _ => Err(CpuError::MalformedOperand),
            },
            None => Err(CpuError::InvalidRegisterName),
        },
    }
}

fn store_absolute(regs: Registers, addr: u16, value: MemValue) -> (r: Result<Outcome, CpuError>)
    ensures
        r == ld_store_absolute(regs, addr, value),
{
    match value {
        MemValue::Byte(byte) => Ok(write_byte(regs, addr, byte)),
        MemValue::Double(word) => if addr == 0xFFFF {
            Err(CpuError::OutOfRangeAddress)
        } else {
            Ok(
                Outcome {
                    regs,
                    writes: MemoryWrites {
                        first: Some(MemoryWrite { addr, value: lsb(word) }),
                        second: Some(MemoryWrite { addr: addr + 1, value: msb(word) }),
                    },
                    flags: FlagProposal { zero: None, sub: None, half_carry: None, carry: None },
                    redirected: false,
                },
            )
        },
        _ => Err(CpuError::MalformedOperand),
    }
}

fn next_address(addr: u16) -> (r: u16)
    ensures
        r == following(addr),
{
    if addr == 0xFFFF {
        0
    } else {
        addr + 1
    }
}

fn no_read() -> (r: MemoryReads)
    ensures
        r == no_reads(),
{
    MemoryReads { first: None, second: None }
}

fn read_of(addr: u16) -> (r: MemoryReads)
    ensures
        r == one_read(addr),
{
    MemoryReads { first: Some(addr), second: None }
}

fn reads_of_word(addr: u16) -> (r: MemoryReads)
    ensures
        r == word_reads(addr),
{
    MemoryReads { first: Some(addr), second: Some(next_address(addr)) }
}

fn cell_of_pair(regs: Registers, name: OperandName) -> (r: MemoryReads)
    ensures
        r == pair_cell(regs, name),
{
    match name.pair() {
        Some(pair) => read_of(regs.get_double_register(pair)),
        None => no_read(),
    }
}

fn cell_of_source(regs: Registers, param: Param) -> (r: MemoryReads)
    ensures
        r == source_cell(regs, param),
{
    match param.value {
        MemValue::Name(name) => if param.operand.immediate {
            no_read()
        } else {
            cell_of_pair(regs, name)
        },
        _ => no_read(),
    }
}

/// The addresses that the plan of an instruction reads where it succeeds.
pub fn get_plan_reads(descriptor: &OpcodeDescriptor, regs: Registers, params: Params) -> (r:
    MemoryReads)
    ensures
        r == plan_reads(*descriptor, regs, params),
{
    match descriptor.mnemonic {
        Mnemonic::RET => match params {
            Params::Empty => reads_of_word(regs.sp),
            _ => no_read(),
        },
        Mnemonic::POP => match params {
            Params::One(_) => reads_of_word(regs.sp),
            _ => no_read(),
        },
        Mnemonic::CP | Mnemonic::SUB | Mnemonic::AND | Mnemonic::OR => match params {
            Params::One(source) => cell_of_source(regs, source),
            _ => no_read(),
        },
        Mnemonic::ADD => match params {
            Params::Two(_, source) => cell_of_source(regs, source),
            _ => no_read(),
        },
        Mnemonic::XOR => match params {
            Params::One(source) => match source.value {
                MemValue::Double(addr) => read_of(addr),
                _ => cell_of_source(regs, source),
            },
            _ => no_read(),
        },
        Mnemonic::INC | Mnemonic::DEC | Mnemonic::RL | Mnemonic::RR => match params {
            Params::One(target) => if target.operand.immediate {
                no_read()
            } else {
                cell_of_pair(regs, target.operand.name)
            },
            _ => no_read(),
        },
        Mnemonic::SRL => match params {
            Params::One(target) => cell_of_pair(regs, target.operand.name),
            _ => no_read(),
        },
        Mnemonic::BIT => match params {
            Params::Two(_, source) => if source.operand.name.register().is_some() {
                no_read()
            } else {
                cell_of_pair(regs, source.operand.name)
            },
            _ => no_read(),
        },
        Mnemonic::LD => match params {
            Params::Two(_, source) => match source.value {
                MemValue::Name(name) => if name.register().is_some() || source.operand.immediate {
                    no_read()
                } else {
                    cell_of_pair(regs, name)
                },
                MemValue::Double(addr) => if source.operand.immediate {
                    no_read()
                } else {
                    read_of(addr)
                },
                _ => no_read(),
            },
            _ => no_read(),
        },
        Mnemonic::LDH => match params {
            Params::Two(_, source) => match source.value {
                MemValue::Byte(offset) => read_of(RAM_IO_PORTS_RANGE_START + offset as u16),
                _ => no_read(),
            },
            _ => no_read(),
        },
        _ => no_read(),
    }
}

fn reads_of_operand(pc: u16, name: OperandName) -> (r: MemoryReads)
    ensures
        r == operand_reads(pc, name),
{
    match name {
        OperandName::A16 | OperandName::D16 => reads_of_word(next_address(pc)),
        OperandName::D8 | OperandName::A8 | OperandName::R8 => read_of(next_address(pc)),
        _ => no_read(),
    }
}

/// Records the reads of one step.
pub fn note_reads(record: &mut Vec<Access>, reads: MemoryReads)
    ensures
        final(record)@ == reads_noted(old(record)@, reads),
{
    match reads.first {
        Some(addr) => note(record, addr, false),
        None => (),
    }
    match reads.second {
        Some(addr) => note(record, addr, false),
        None => (),
    }
}

fn note_decode(record: &mut Vec<Access>, pc: u16, operands: Operands)
    ensures
        final(record)@ == decode_noted(old(record)@, pc, operands),
{
    match operands {
        Operands::Empty => (),
        Operands::One(a) => note_reads(record, reads_of_operand(pc, a.name)),
        Operands::Two(a, b) => {
            note_reads(record, reads_of_operand(pc, a.name));
            note_reads(record, reads_of_operand(pc, b.name));
        },
        Operands::Three(a, b, c) => {
            note_reads(record, reads_of_operand(pc, a.name));
            note_reads(record, reads_of_operand(pc, b.name));
            note_reads(record, reads_of_operand(pc, c.name));
        },
    }
}

impl CPU {
    /// The catalogue that this processor decodes with.
    pub closed spec fn table(&self) -> OpcodeTable {
        self.opcodes
    }

    /// A processor over the store and the display given, with the
    /// standard catalogue. Its program counter starts at the boot
    /// program or at the cartridge's entry point, its stack pointer at
    /// 0xFFFE, and every byte register at zero.
    pub fn init_with_ram_ppu(ram: RamMemory, ppu: PPU, boot_rom_enabled: bool) -> (cpu: CPU)
        ensures
            cpu@.wf(),
            cpu@.memory == ram@,
            cpu@.display == ppu@,
            cpu@.suspicious == Seq::<Access>::empty(),
            cpu@.regs == Registers::initial(
                if boot_rom_enabled {
                    BOOT_ENTRY
                } else {
                    CARTRIDGE_ENTRY
                },
            ),
            cpu.table().is_standard(),
    {
        CPU::init_with_opcodes(ram, ppu, OpcodeTable::standard(), boot_rom_enabled)
    }

    /// A processor as `init_with_ram_ppu` makes it, with a catalogue of
    /// the caller's.
    pub fn init_with_opcodes(
        ram: RamMemory,
        ppu: PPU,
        opcodes: OpcodeTable,
        boot_rom_enabled: bool,
    ) -> (cpu: CPU)
        ensures
            cpu@.wf(),
            cpu@.memory == ram@,
            cpu@.display == ppu@,
            cpu@.suspicious == Seq::<Access>::empty(),
            cpu@.regs == Registers::initial(
                if boot_rom_enabled {
                    BOOT_ENTRY
                } else {
                    CARTRIDGE_ENTRY
                },
            ),
            cpu.table() == opcodes,
    {
        let initial_pc: u16 = if boot_rom_enabled {
            BOOT_ENTRY
        } else {
            CARTRIDGE_ENTRY
        };
        let _ = ram.len();
        let _ = ppu.get_buffer();
        CPU { ram, ppu, regs: Registers::new(initial_pc), opcodes, suspicious: Vec::new() }
    }

    /// Reads a byte through the bus without recording the access: what
    /// the engine does while it plans, before it knows that the cycle
    /// succeeds.
    pub fn peek(&self, addr: u16) -> (value: u8)
        ensures
            self@.wf(),
            value == self@.load(addr),
    {
        let _ = self.ram.len();
        let _ = self.ppu.get_buffer();
        match get_region(addr) {
            Region::Echo => self.ram.get_addr(addr - RAM_ECHO_OFFSET),
            Region::IoPorts => self.ppu.get_addr(&self.ram, addr),
            _ => self.ram.get_addr(addr),
        }
    }

    /// Reads a byte through the bus. A read of an address without a
    /// meaning on the hardware is recorded, and gives the cell all the same.
    pub fn get_addr(&mut self, addr: u16) -> (value: u8)
        ensures
            old(self)@.wf(),
            final(self)@.wf(),
            value == old(self)@.load(addr),
            final(self)@ == old(self)@.after_read(addr),
            final(self).table() == old(self).table(),
    {
        let value = self.peek(addr);
        note(&mut self.suspicious, addr, false);
        value
    }

    /// Writes a byte through the bus. A write to an address without a
    /// meaning on the hardware is recorded, and made all the same.
    pub fn set_addr(&mut self, addr: u16, value: u8)
        ensures
            old(self)@.wf(),
            final(self)@.wf(),
            final(self)@ == old(self)@.store(addr, value),
            final(self).table() == old(self).table(),
    {
        let _ = self.ram.len();
        let _ = self.ppu.get_buffer();
        match get_region(addr) {
            Region::Echo => self.ram.set_addr(addr - RAM_ECHO_OFFSET, value),
            Region::IoPorts => self.ppu.set_addr(&mut self.ram, addr, value),
            _ => self.ram.set_addr(addr, value),
        }
        note(&mut self.suspicious, addr, true);
        let _ = self.ram.len();
        let _ = self.ppu.get_buffer();
    }

    /// Hands over the record of the suspicious accesses made since it was
    /// last taken, oldest first, and starts a new one.
    pub fn take_suspicious_accesses(&mut self) -> (record: Vec<Access>)
        ensures
            old(self)@.wf(),
            final(self)@.wf(),
            record@ == old(self)@.suspicious,
            final(self)@ == (Machine { suspicious: Seq::<Access>::empty(), ..old(self)@ }),
            final(self).table() == old(self).table(),
    {
        let _ = self.ram.len();
        let _ = self.ppu.get_buffer();
        let mut record: Vec<Access> = Vec::new();
        core::mem::swap(&mut self.suspicious, &mut record);
        record
    }

    /// The register file.
    pub fn get_registers(&self) -> (regs: Registers)
        ensures
            regs == self@.regs,
    {
        self.regs
    }

    /// Replaces the register file.
    pub fn set_registers(&mut self, regs: Registers)
        ensures
            old(self)@.wf(),
            final(self)@.wf(),
            final(self)@ == (Machine { regs, ..old(self)@ }),
            final(self).table() == old(self).table(),
    {
        let _ = self.ram.len();
        let _ = self.ppu.get_buffer();
        self.regs = regs;
    }

    /// The content of the byte register with the name given, a single
    /// letter in either case. A name that is no register's is an error.
    pub fn get_register(&self, reg: &String) -> (r: Result<u8, CpuError>)
        ensures
            r == match register_named(reg@) {
                Some(register) => Ok::<u8, CpuError>(self@.regs.reg8(register)),
                None => Err(CpuError::InvalidRegisterName),
            },
    {
        match Register::from_name(reg.as_str()) {
            Some(register) => Ok(self.regs.get_register(register)),
            None => Err(CpuError::InvalidRegisterName),
        }
    }

    /// The content of the word register with the name given, two letters
    /// in either case. A name that is no word register's is an error.
    pub fn get_double_register(&self, reg: &String) -> (r: Result<u16, CpuError>)
        ensures
            r == match pair_named(reg@) {
                Some(pair) => Ok::<u16, CpuError>(self@.regs.reg16(pair)),
                None => Err(CpuError::InvalidRegisterName),
            },
    {
        match RegisterPair::from_name(reg.as_str()) {
            Some(pair) => Ok(self.regs.get_double_register(pair)),
            None => Err(CpuError::InvalidRegisterName),
        }
    }

    pub fn get_program_counter(&self) -> (pc: u16)
        ensures
            pc == self@.regs.pc,
    {
        self.regs.pc
    }

    pub fn get_zero_flag(&self) -> (set: bool)
        ensures
            set == self@.regs.flag(Flag::Zero),
    {
        self.regs.get_flag(Flag::Zero)
    }

    pub fn get_sub_flag(&self) -> (set: bool)
        ensures
            set == self@.regs.flag(Flag::Sub),
    {
        self.regs.get_flag(Flag::Sub)
    }

    pub fn get_half_carry_flag(&self) -> (set: bool)
        ensures
            set == self@.regs.flag(Flag::HalfCarry),
    {
        self.regs.get_flag(Flag::HalfCarry)
    }

    pub fn get_carry_flag(&self) -> (set: bool)
        ensures
            set == self@.regs.flag(Flag::Carry),
    {
        self.regs.get_flag(Flag::Carry)
    }

    /// Pops a word off the stack as it stands in `regs`.
    pub fn stack_pop_double(&self, regs: Registers) -> (r: Result<(u16, Registers), CpuError>)
        ensures
            r == pop_word(regs, self@.memory),
    {
        if regs.sp > 0xFFFD {
            return Err(CpuError::OutOfRangeAddress);
        }
        let low = self.peek(regs.sp);
        let high = self.peek(regs.sp + 1);
        let mut after = regs;
        after.sp = regs.sp + 2;
        Ok((make_word(high, low), after))
    }

    fn read_immediate_byte(&self, pc: u16) -> (r: Result<u8, CpuError>)
        ensures
            r == immediate_byte(self@.memory, pc),
    {
        if pc >= 0xFFFF {
            Err(CpuError::OutOfRangeAddress)
        } else {
            Ok(self.peek(pc + 1))
        }
    }

    fn read_immediate_word(&self, pc: u16) -> (r: Result<u16, CpuError>)
        ensures
            r == immediate_word(self@.memory, pc),
    {
        if pc >= 0xFFFE {
            Err(CpuError::OutOfRangeAddress)
        } else {
            let low = self.peek(pc + 1);
            let high = self.peek(pc + 2);
            Ok(make_word(high, low))
        }
    }

    /// Decodes one operand of the instruction at `pc`.
    fn get_param(&self, pc: u16, operand: Operand) -> (r: Result<Param, CpuError>)
        ensures
            r == decode_operand(self@.memory, pc, operand),
    {
        let value = match operand.name {
            OperandName::A16 | OperandName::D16 => match self.read_immediate_word(pc) {
                Ok(word) => MemValue::Double(word),
                Err(e) => {
                    return Err(e);
                },
            },
            OperandName::D8 | OperandName::A8 => match self.read_immediate_byte(pc) {
                Ok(byte) => MemValue::Byte(byte),
                Err(e) => {
                    return Err(e);
                },
            },
            OperandName::R8 => match self.read_immediate_byte(pc) {
                Ok(byte) => MemValue::SignedByte(to_signed(byte)),
                Err(e) => {
                    return Err(e);
                },
            },
            _ => MemValue::Name(operand.name),
        };
        let mut param = Param::new(operand);
        param.set_param_value(value);
        Ok(param)
    }

    /// Decodes the operands of an entry for the instruction at the
    /// program counter. Decoding reads through the bus and changes nothing.
    pub fn get_params(&self, descriptor: &OpcodeDescriptor) -> (r: Result<Params, CpuError>)
        ensures
            r == decode(self@.memory, self@.regs.pc, descriptor.operands),
    {
        let pc = self.regs.pc;
        match descriptor.operands {
            Operands::Empty => Ok(Params::Empty),
            Operands::One(a) => match self.get_param(pc, a) {
                Ok(pa) => Ok(Params::One(pa)),
                Err(e) => Err(e),
            },
            Operands::Two(a, b) => match self.get_param(pc, a) {
                Ok(pa) => match self.get_param(pc, b) {
                    Ok(pb) => Ok(Params::Two(pa, pb)),
                    Err(e) => Err(e),
                },
                Err(e) => Err(e),
            },
            Operands::Three(a, b, c) => match self.get_param(pc, a) {
                Ok(pa) => match self.get_param(pc, b) {
                    Ok(pb) => match self.get_param(pc, c) {
                        Ok(pc_) => Ok(Params::Three(pa, pb, pc_)),
                        Err(e) => Err(e),
                    },
                    Err(e) => Err(e),
                },
                Err(e) => Err(e),
            },
        }
    }

    /// Looks up the entry of the opcode at the program counter.
    pub fn fetch_opcode(&self) -> (r: Result<OpcodeDescriptor, CpuError>)
        ensures
            r == fetch(self.table(), self@.memory, self@.regs.pc),
    {
        let pc = self.regs.pc;
        let opcode = self.peek(pc);
        if opcode != PREFIX_BYTE {
            self.opcodes.lookup(false, opcode)
        } else if pc == 0xFFFF {
            Err(CpuError::OutOfRangeAddress)
        } else {
            let second = self.peek(pc + 1);
            self.opcodes.lookup(true, second)
        }
    }

    fn source_byte(&self, regs: Registers, param: Param) -> (r: Result<u8, CpuError>)
        ensures
            r == byte_source(regs, self@.memory, param),
    {
        match param.value {
            MemValue::Byte(byte) => Ok(byte),
            MemValue::Name(name) => if param.operand.immediate {
                match name.register() {
                    Some(reg) => Ok(regs.get_register(reg)),
                    None => Err(CpuError::InvalidRegisterName),
                }
            } else {
                match name.pair() {
                    Some(pair) => Ok(self.peek(regs.get_double_register(pair))),
                    None => Err(CpuError::InvalidRegisterName),
                }
            },
            _ => Err(CpuError::MalformedOperand),
        }
    }

    fn get_place(&self, regs: Registers, place: Place) -> (value: u8)
        ensures
            value == read_place(regs, self@.memory, place),
    {
        match place {
            Place::Register(reg) => regs.get_register(reg),
            Place::Memory(addr) => self.peek(addr),
        }
    }

    fn run_ret(&self, regs: Registers, params: Params) -> (r: Result<Outcome, CpuError>)
        ensures
            r == ret_outcome(regs, self@.memory, params),
    {
        match params {
            Params::Empty => match self.stack_pop_double(regs) {
                Ok((addr, popped)) => Ok(jump(keep_registers(popped), addr)),
                Err(e) => Err(e),
            },
            Params::One(_) => Err(CpuError::UnimplementedMnemonic),
            _ => Err(CpuError::MalformedOperand),
        }
    }

    fn run_pop(&self, regs: Registers, params: Params) -> (r: Result<Outcome, CpuError>)
        ensures
            r == pop_outcome(regs, self@.memory, params),
    {
        match params {
            Params::One(target) => match target.operand.name.pair() {
                Some(pair) => match self.stack_pop_double(regs) {
                    Ok((value, popped)) => {
                        let mut after = popped;
                        after.set_double_register(pair, value);
                        Ok(keep_registers(after))
                    },
                    Err(e) => Err(e),
                },
                None => Err(CpuError::InvalidRegisterName),
            },
            _ => Err(CpuError::MalformedOperand),
        }
    }

    fn run_cp(&self, regs: Registers, params: Params) -> (r: Result<Outcome, CpuError>)
        ensures
            r == cp_outcome(regs, self@.memory, params),
    {
        match params {
            Params::One(source) => match self.source_byte(regs, source) {
                Ok(value) => Ok(
                    with_flags(
                        regs,
                        FlagProposal {
                            zero: Some(regs.a == value),
                            sub: Some(true),
                            half_carry: Some(regs.a % 16 < value % 16),
                            carry: Some(regs.a < value),
                        },
                    ),
                ),
                Err(e) => Err(e),
            },
            _ => Err(CpuError::MalformedOperand),
        }
    }

    fn run_sub(&self, regs: Registers, params: Params) -> (r: Result<Outcome, CpuError>)
        ensures
            r == sub_outcome(regs, self@.memory, params),
    {
        match params {
            Params::One(source) => match self.source_byte(regs, source) {
                Ok(value) => {
                    let mut after = regs;
                    after.a = sub_wrapping(regs.a, value);
                    Ok(
                        with_flags(
                            after,
                            FlagProposal {
                                zero: Some(regs.a == value),
                                sub: Some(true),
                                half_carry: Some(regs.a % 16 < value % 16),
                                carry: Some(regs.a < value),
                            },
                        ),
                    )
                },
                Err(e) => Err(e),
            },
            _ => Err(CpuError::MalformedOperand),
        }
    }

    fn run_add(&self, regs: Registers, params: Params) -> (r: Result<Outcome, CpuError>)
        ensures
            r == add_outcome(regs, self@.memory, params),
    {
        match params {
            Params::Two(target, source) => match target.operand.name.register() {
                Some(reg) => if reg != Register::A {
                    Err(CpuError::MalformedOperand)
                } else {
                    match self.source_byte(regs, source) {
                        Ok(value) => {
                            let sum = add_wrapping(regs.a, value);
                            let mut after = regs;
                            after.a = sum;
                            Ok(
                                with_flags(
                                    after,
                                    FlagProposal {
                                        zero: Some(sum == 0),
                                        sub: Some(false),
                                        half_carry: Some(regs.a % 16 + value % 16 > 15),
                                        carry: Some(regs.a as u16 + value as u16 > 255),
                                    },
                                ),
                            )
                        },
                        Err(e) => Err(e),
                    }
                },
                None => match target.operand.name.pair() {
                    Some(_) => Err(CpuError::UnimplementedMnemonic),
                    None => Err(CpuError::InvalidRegisterName),
                },
            },
            _ => Err(CpuError::MalformedOperand),
        }
    }

    fn run_and(&self, regs: Registers, params: Params) -> (r: Result<Outcome, CpuError>)
        ensures
            r == and_outcome(regs, self@.memory, params),
    {
        match params {
            Params::One(source) => match self.source_byte(regs, source) {
                Ok(value) => {
                    let result = regs.a & value;
                    let mut after = regs;
                    after.a = result;
                    Ok(
                        with_flags(
                            after,
                            FlagProposal {
                                zero: Some(result == 0),
                                sub: Some(false),
                                half_carry: Some(true),
                                carry: Some(false),
                            },
                        ),
                    )
                },
                Err(e) => Err(e),
            },
            _ => Err(CpuError::MalformedOperand),
        }
    }

    fn run_or(&self, regs: Registers, params: Params) -> (r: Result<Outcome, CpuError>)
        ensures
            r == or_outcome(regs, self@.memory, params),
    {
        match params {
            Params::One(source) => match self.source_byte(regs, source) {
                Ok(value) => {
                    let result = regs.a | value;
                    let mut after = regs;
                    after.a = result;
                    Ok(
                        with_flags(
                            after,
                            FlagProposal {
                                zero: Some(result == 0),
                                sub: Some(false),
                                half_carry: Some(false),
                                carry: Some(false),
                            },
                        ),
                    )
                },
                Err(e) => Err(e),
            },
            _ => Err(CpuError::MalformedOperand),
        }
    }

    fn run_xor(&self, regs: Registers, params: Params) -> (r: Result<Outcome, CpuError>)
        ensures
            r == xor_outcome(regs, self@.memory, params),
    {
        match params {
            Params::One(source) => {
                let read = match source.value {
                    MemValue::Double(addr) => if source.operand.immediate {
                        Ok(self.peek(addr))
                    } else {
                        Err(CpuError::MalformedOperand)
                    },
                    _ => self.source_byte(regs, source),
                };
                match read {
                    Ok(value) => {
                        let result = regs.a ^ value;
                        let mut after = regs;
                        after.a = result;
                        Ok(
                            with_flags(
                                after,
                                FlagProposal {
                                    zero: Some(result == 0),
                                    sub: Some(false),
                                    half_carry: Some(false),
                                    carry: Some(false),
                                },
                            ),
                        )
                    },
                    Err(e) => Err(e),
                }
            },
            _ => Err(CpuError::MalformedOperand),
        }
    }

    fn run_inc(&self, regs: Registers, params: Params) -> (r: Result<Outcome, CpuError>)
        ensures
            r == inc_outcome(regs, self@.memory, params),
    {
        match params {
            Params::One(target) => match counter_of(regs, target) {
                Ok(Counter::Byte(place)) => {
                    let value = self.get_place(regs, place);
                    Ok(
                        put(
                            regs,
                            place,
                            add_wrapping(value, 1),
                            FlagProposal {
                                zero: Some(value == 255),
                                sub: Some(false),
                                half_carry: Some(value % 16 == 15),
                                carry: None,
                            },
                        ),
                    )
                },
                Ok(Counter::Word(pair)) => {
                    let value = regs.get_double_register(pair);
                    let mut after = regs;
                    after.set_double_register(
                        pair,
                        if value == 0xFFFF {
                            0
                        } else {
                            value + 1
                        },
                    );
                    Ok(keep_registers(after))
                },
                Err(e) => Err(e),
            },
            _ => Err(CpuError::MalformedOperand),
        }
    }

    fn run_dec(&self, regs: Registers, params: Params) -> (r: Result<Outcome, CpuError>)
        ensures
            r == dec_outcome(regs, self@.memory, params),
    {
        match params {
            Params::One(target) => match counter_of(regs, target) {
                Ok(Counter::Byte(place)) => {
                    let value = self.get_place(regs, place);
                    Ok(
                        put(
                            regs,
                            place,
                            sub_wrapping(value, 1),
                            FlagProposal {
                                zero: Some(value == 1),
                                sub: Some(true),
                                half_carry: Some(value % 16 == 0),
                                carry: None,
                            },
                        ),
                    )
                },
                Ok(Counter::Word(pair)) => {
                    let value = regs.get_double_register(pair);
                    let mut after = regs;
                    after.set_double_register(
                        pair,
                        if value == 0 {
                            0xFFFF
                        } else {
                            value - 1
                        },
                    );
                    Ok(keep_registers(after))
                },
                Err(e) => Err(e),
            },
            _ => Err(CpuError::MalformedOperand),
        }
    }

    fn run_bit(&self, regs: Registers, params: Params) -> (r: Result<Outcome, CpuError>)
        ensures
            r == bit_outcome(regs, self@.memory, params),
    {
        match params {
            Params::Two(index, source) => match index.operand.name {
                OperandName::Bit(bit) => if bit >= 8 {
                    Err(CpuError::MalformedOperand)
                } else {
                    let read = match source.operand.name.register() {
                        Some(reg) => Ok(regs.get_register(reg)),
                        None => match source.operand.name.pair() {
                            Some(pair) => if source.operand.immediate {
                                Err(CpuError::MalformedOperand)
                            } else {
                                Ok(self.peek(regs.get_double_register(pair)))
                            },
                            None => Err(CpuError::InvalidRegisterName),
                        },
                    };
                    match read {
                        Ok(value) => Ok(
                            with_flags(
                                regs,
                                FlagProposal {
                                    zero: Some(!bit_check(value, bit)),
                                    sub: Some(false),
                                    half_carry: Some(true),
                                    carry: None,
                                },
                            ),
                        ),
                        Err(e) => Err(e),
                    }
                },
                _ => Err(CpuError::MalformedOperand),
            },
            _ => Err(CpuError::MalformedOperand),
        }
    }

    fn run_rl(&self, regs: Registers, params: Params) -> (r: Result<Outcome, CpuError>)
        ensures
            r == rl_outcome(regs, self@.memory, params),
    {
        match params {
            Params::One(target) => match place_of_rotate(regs, target) {
                Ok(place) => {
                    let value = self.get_place(regs, place);
                    let result = rotate_left(value, regs.get_flag(Flag::Carry));
                    Ok(
                        put(
                            regs,
                            place,
                            result,
                            FlagProposal {
                                zero: Some(result == 0),
                                sub: Some(false),
                                half_carry: Some(false),
                                carry: Some(value >= 128),
                            },
                        ),
                    )
                },
                Err(e) => Err(e),
            },
            _ => Err(CpuError::MalformedOperand),
        }
    }

    fn run_rr(&self, regs: Registers, params: Params) -> (r: Result<Outcome, CpuError>)
        ensures
            r == rr_outcome(regs, self@.memory, params),
    {
        match params {
            Params::One(target) => match place_of_rotate(regs, target) {
                Ok(place) => {
                    let value = self.get_place(regs, place);
                    let result = rotate_right(value, regs.get_flag(Flag::Carry));
                    Ok(
                        put(
                            regs,
                            place,
                            result,
                            FlagProposal {
                                zero: Some(result == 0),
                                sub: Some(false),
                                half_carry: Some(false),
                                carry: Some(value % 2 == 1),
                            },
                        ),
                    )
                },
                Err(e) => Err(e),
            },
            _ => Err(CpuError::MalformedOperand),
        }
    }

    fn run_srl(&self, regs: Registers, params: Params) -> (r: Result<Outcome, CpuError>)
        ensures
            r == srl_outcome(regs, self@.memory, params),
    {
        match params {
            Params::One(target) => match place_of_name(regs, target.operand.name) {
                Ok(place) => {
                    let value = self.get_place(regs, place);
                    let result = value / 2;
                    Ok(
                        put(
                            regs,
                            place,
                            result,
                            FlagProposal {
                                zero: Some(result == 0),
                                sub: Some(false),
                                half_carry: Some(false),
                                carry: Some(value % 2 == 1),
                            },
                        ),
                    )
                },
                Err(e) => Err(e),
            },
            _ => Err(CpuError::MalformedOperand),
        }
    }

    fn load_source(&self, regs: Registers, source: Param) -> (r: Result<MemValue, CpuError>)
        ensures
            r == ld_source(regs, self@.memory, source),
    {
        match source.value {
            MemValue::Name(name) => match name.register() {
                Some(reg) => if source.operand.immediate {
                    Ok(MemValue::Byte(regs.get_register(reg)))
                } else {
                    Err(CpuError::UnimplementedMnemonic)
                },
                None => match name.pair() {
                    Some(pair) => if source.operand.immediate {
                        Ok(MemValue::Double(regs.get_double_register(pair)))
                    } else {
                        Ok(MemValue::Byte(self.peek(regs.get_double_register(pair))))
                    },
                    None => Err(CpuError::InvalidRegisterName),
                },
            },
            MemValue::Byte(byte) => Ok(MemValue::Byte(byte)),
            MemValue::Double(word) => if source.operand.immediate {
                Ok(MemValue::Double(word))
            } else {
                Ok(MemValue::Byte(self.peek(word)))
            },
            _ => Err(CpuError::MalformedOperand),
        }
    }

    fn run_ld(&self, regs: Registers, params: Params) -> (r: Result<Outcome, CpuError>)
        ensures
            r == ld_outcome(regs, self@.memory, params),
    {
        match params {
            Params::Two(target, source) => match self.load_source(regs, source) {
                Ok(value) => match target.value {
                    MemValue::Name(_) => match store_named(regs, target.operand, value) {
                        Ok(stored) => match step_register_pair(stored.regs, target.operand) {
                            Ok(stepped) => match step_register_pair(stepped, source.operand) {
                                Ok(last) => Ok(
                                    Outcome {
                                        regs: last,
                                        writes: stored.writes,
                                        flags: stored.flags,
                                        redirected: stored.redirected,
                                    },
                                ),
                                Err(e) => Err(e),
                            },
                            Err(e) => Err(e),
                        },
                        Err(e) => Err(e),
                    },
                    MemValue::Double(addr) => store_absolute(regs, addr, value),
                    _ => Err(CpuError::MalformedOperand),
                },
                Err(e) => Err(e),
            },
            _ => Err(CpuError::UnimplementedMnemonic),
        }
    }

    fn high_page_source(&self, regs: Registers, source: Param) -> (r: Result<u8, CpuError>)
        ensures
            r == ldh_source(regs, self@.memory, source),
    {
        match source.value {
            MemValue::Byte(offset) => if source.operand.immediate {
                Err(CpuError::MalformedOperand)
            } else {
                Ok(self.peek(RAM_IO_PORTS_RANGE_START + offset as u16))
            },
            MemValue::Name(name) => if !source.operand.immediate {
                Err(CpuError::MalformedOperand)
            } else {
                match name.register() {
                    Some(reg) => Ok(regs.get_register(reg)),
                    None => Err(CpuError::InvalidRegisterName),
                }
            },
            _ => Err(CpuError::MalformedOperand),
        }
    }

    fn run_ldh(&self, regs: Registers, params: Params) -> (r: Result<Outcome, CpuError>)
        ensures
            r == ldh_outcome(regs, self@.memory, params),
    {
        match params {
            Params::Two(target, source) => match self.high_page_source(regs, source) {
                Ok(byte) => match target.value {
                    MemValue::Byte(offset) => if target.operand.immediate {
                        Err(CpuError::MalformedOperand)
                    } else {
                        Ok(write_byte(regs, RAM_IO_PORTS_RANGE_START + offset as u16, byte))
                    },
                    MemValue::Name(name) => if !target.operand.immediate {
                        Err(CpuError::MalformedOperand)
                    } else {
                        match name.register() {
                            Some(reg) => {
                                let mut after = regs;
                                after.set_register(reg, byte);
                                Ok(keep_registers(after))
                            },
                            None => Err(CpuError::InvalidRegisterName),
                        }
                    },
                    _ => Err(CpuError::MalformedOperand),
                },
                Err(e) => Err(e),
            },
            _ => Err(CpuError::MalformedOperand),
        }
    }

    /// Plans the instruction of an entry on the operands decoded for it:
    /// the registers afterwards, the bytes to write and the flags
    /// proposed. Nothing is changed yet.
    pub fn plan_instruction(&self, descriptor: &OpcodeDescriptor, params: Params) -> (r: Result<
        Outcome,
        CpuError,
    >)
        ensures
            r == plan(*descriptor, self@.regs, self@.memory, params),
    {
        let regs = self.regs;
        match descriptor.mnemonic {
            Mnemonic::NOP | Mnemonic::DI => Ok(keep_registers(regs)),
            Mnemonic::JP => run_jp(regs, params),
            Mnemonic::JR => run_jr(regs, params),
            Mnemonic::CALL => run_call(regs, descriptor.bytes, params),
            Mnemonic::RET => self.run_ret(regs, params),
            Mnemonic::RST => run_rst(regs, params),
            Mnemonic::PUSH => run_push(regs, params),
            Mnemonic::POP => self.run_pop(regs, params),
            Mnemonic::LD => self.run_ld(regs, params),
            Mnemonic::LDH => self.run_ldh(regs, params),
            Mnemonic::CP => self.run_cp(regs, params),
            Mnemonic::SUB => self.run_sub(regs, params),
            Mnemonic::ADD => self.run_add(regs, params),
            Mnemonic::AND => self.run_and(regs, params),
            Mnemonic::OR => self.run_or(regs, params),
            Mnemonic::XOR => self.run_xor(regs, params),
            Mnemonic::INC => self.run_inc(regs, params),
            Mnemonic::DEC => self.run_dec(regs, params),
            Mnemonic::BIT => self.run_bit(regs, params),
            Mnemonic::RL => self.run_rl(regs, params),
            Mnemonic::RR => self.run_rr(regs, params),
            Mnemonic::RLA => run_rla(regs, params),
            Mnemonic::RRA => run_rra(regs, params),
            Mnemonic::SRL => self.run_srl(regs, params),
            _ => Err(CpuError::UnimplementedMnemonic),
        }
    }

    /// Carries a plan out: checks the proposed flags against the entry,
    /// commits them, advances the program counter unless the instruction
    /// redirected it, records the reads of the cycle and makes the writes.
    /// On an error nothing changes.
    pub fn commit_outcome(
        &mut self,
        descriptor: &OpcodeDescriptor,
        params: Params,
        outcome: Outcome,
    ) -> (r: Result<(), CpuError>)
        ensures
            old(self)@.wf(),
            final(self)@.wf(),
            final(self).table() == old(self).table(),
            match commit(*descriptor, old(self)@, params, outcome) {
                Ok(m) => r is Ok && final(self)@ == m,
                Err(e) => r == Err::<(), CpuError>(e) && final(self)@ == old(self)@,
            },
    {
        let _ = self.ram.len();
        let _ = self.ppu.get_buffer();
        if !verify_flags(descriptor.flags, outcome.flags) {
            return Err(CpuError::FlagContractViolation);
        }
        let mut regs = outcome.regs;
        if !outcome.redirected {
            if regs.pc as u32 + descriptor.bytes as u32 > 0xFFFF {
                return Err(CpuError::OutOfRangeAddress);
            }
            regs.pc = regs.pc + descriptor.bytes as u16;
        }
        match outcome.flags.zero {
            Some(value) => regs.set_flag(Flag::Zero, value),
            None => (),
        }
        match outcome.flags.sub {
            Some(value) => regs.set_flag(Flag::Sub, value),
            None => (),
        }
        match outcome.flags.half_carry {
            Some(value) => regs.set_flag(Flag::HalfCarry, value),
            None => (),
        }
        match outcome.flags.carry {
            Some(value) => regs.set_flag(Flag::Carry, value),
            None => (),
        }
        let pc = self.regs.pc;
        let fetched = MemoryReads {
            first: Some(pc),
            second: if self.peek(pc) == PREFIX_BYTE && pc != 0xFFFF {
                Some(next_address(pc))
            } else {
                None
            },
        };
        note_reads(&mut self.suspicious, fetched);
        note_decode(&mut self.suspicious, pc, descriptor.operands);
        note_reads(&mut self.suspicious, get_plan_reads(descriptor, self.regs, params));
        self.regs = regs;
        match outcome.writes.first {
            Some(w) => self.set_addr(w.addr, w.value),
            None => (),
        }
        match outcome.writes.second {
            Some(w) => self.set_addr(w.addr, w.value),
            None => (),
        }
        Ok(())
    }

    /// Runs one instruction cycle: fetches the opcode at the program
    /// counter, decodes its operands, plans the instruction, checks the
    /// flags it proposes against the catalogue and commits. A cycle that
    /// fails leaves the machine as it was. A cycle that succeeds has
    /// recorded each of its accesses to an address without a meaning on
    /// the hardware.
    pub fn execute_instruction(&mut self) -> (r: Result<(), CpuError>)
        ensures
            old(self)@.wf(),
            final(self)@.wf(),
            final(self).table() == old(self).table(),
            match step(old(self).table(), old(self)@) {
                Ok(m) => r is Ok && final(self)@ == m,
                Err(e) => r == Err::<(), CpuError>(e) && final(self)@ == old(self)@,
            },
    {
        let _ = self.ram.len();
        let _ = self.ppu.get_buffer();
        let descriptor = match self.fetch_opcode() {
            Ok(descriptor) => descriptor,
            Err(e) => {
                return Err(e);
            },
        };
        let params = match self.get_params(&descriptor) {
            Ok(params) => params,
            Err(e) => {
                return Err(e);
            },
        };
        let outcome = match self.plan_instruction(&descriptor, params) {
            Ok(outcome) => outcome,
            Err(e) => {
                return Err(e);
            },
        };
        self.commit_outcome(&descriptor, params, outcome)
    }

    /// Writes the primary store out as lines of text, eight bytes to a line.
    pub fn dump_memory(&self) -> (lines: Vec<String>)
        ensures
            lines@.len() == DUMP_LINES,
            forall|i: int|
                0 <= i < DUMP_LINES ==> lines@[i]@ == dump_line(self@.memory, i * DUMP_WIDTH),
    {
        dump_store(&self.ram)
    }

    /// Describes a catalogue entry in lines of text.
    pub fn pretty_opcode_data(descriptor: &OpcodeDescriptor) -> (lines: Vec<String>)
        ensures
            lines@.len() == pretty_lines(*descriptor).len(),
            forall|i: int| 0 <= i < lines@.len() ==> lines@[i]@ == pretty_lines(*descriptor)[i],
    {
        pretty_opcode_data(descriptor)
    }

    /// Lets the display compose a frame from video memory as it stands.
    pub fn render(&mut self)
        ensures
            old(self)@.wf(),
            final(self)@.wf(),
            final(self).table() == old(self).table(),
            final(self)@.regs == old(self)@.regs,
            final(self)@.memory == old(self)@.memory,
            final(self)@.suspicious == old(self)@.suspicious,
            final(self)@.display == if PPU::enabled(old(self)@.memory) {
                PpuView {
                    frame: PPU::sheet(old(self)@.display.frame, old(self)@.memory, 256),
                    pending: DisplayAction::Frame,
                }
            } else {
                old(self)@.display
            },
    {
        let _ = self.ram.len();
        let _ = self.ppu.get_buffer();
        self.ppu.render(&self.ram);
    }

    /// Hands over what the display owes the host, and owes nothing afterwards.
    pub fn take_display_action(&mut self) -> (action: DisplayAction)
        ensures
            old(self)@.wf(),
            final(self)@.wf(),
            action == old(self)@.display.pending,
            final(self)@.display.pending == DisplayAction::Idle,
            final(self)@.display.frame == old(self)@.display.frame,
            final(self)@.regs == old(self)@.regs,
            final(self)@.memory == old(self)@.memory,
            final(self)@.suspicious == old(self)@.suspicious,
            final(self).table() == old(self).table(),
    {
        let _ = self.ram.len();
        let _ = self.ppu.get_buffer();
        let action = self.ppu.take_pending();
        let _ = self.ppu.get_buffer();
        action
    }

    /// The frame that the display composed last.
    pub fn get_frame(&self) -> (frame: &Vec<u32>)
        ensures
            frame@ == self@.display.frame,
            self@.wf(),
    {
        let _ = self.ram.len();
        self.ppu.get_buffer()
    }
}

} // verus!
