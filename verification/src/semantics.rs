//! What one instruction cycle does, as functions of the machine's state:
//! fetch, operand decoding, the plan of each instruction, the check of the
//! proposed flags against the catalogue, and the commit.
//!
//! An instruction first plans: from the registers and the memory as they
//! stand it works out the registers afterwards, the bytes to write and the
//! flags it proposes. Nothing changes until the plan has passed the flag
//! check, so a cycle that fails leaves the machine as it was.

use vstd::prelude::*;
use crate::bus::{bus_read, noted, Access, Machine};
use crate::consts::{bit_is_set, RAM_IO_PORTS_RANGE_START};
use crate::error::CpuError;
use crate::opcodes::{
    FlagEffect, FlagEffects, Mnemonic, OpcodeDescriptor, OpcodeTable, Operand, OperandName,
    Operands, PREFIX_BYTE,
};
use crate::param::{MemValue, Param, Params};
use crate::registers::{high_byte, low_byte, word_of, Flag, Register, RegisterPair, Registers};

verus! {

/// The flags an instruction proposes: for each flag either nothing, or the
/// value it is to take.
#[derive(Clone, Copy, Debug, PartialEq, Eq, Structural)]
pub struct FlagProposal {
    pub zero: Option<bool>,
    pub sub: Option<bool>,
    pub half_carry: Option<bool>,
    pub carry: Option<bool>,
}

/// One byte to be written through the bus.
#[derive(Clone, Copy, Debug, PartialEq, Eq, Structural)]
pub struct MemoryWrite {
    pub addr: u16,
    pub value: u8,
}

/// The writes of one instruction, in the order in which they are made. No
/// instruction makes more than two.
#[derive(Clone, Copy, Debug, PartialEq, Eq, Structural)]
pub struct MemoryWrites {
    pub first: Option<MemoryWrite>,
    pub second: Option<MemoryWrite>,
}

/// The plan of one instruction.
#[derive(Clone, Copy, Debug, PartialEq, Eq, Structural)]
pub struct Outcome {
    /// The register file afterwards, before the flags are committed and
    /// the program counter is advanced.
    pub regs: Registers,
    pub writes: MemoryWrites,
    pub flags: FlagProposal,
    /// Whether the instruction has set the program counter itself, so
    /// that it is not advanced by the instruction's length.
    pub redirected: bool,
}

/// A byte that an instruction reads, changes and writes back: a register,
/// or a memory cell.
#[derive(Clone, Copy, Debug, PartialEq, Eq, Structural)]
pub enum Place {
    Register(Register),
    Memory(u16),
}

/// The addresses that one step of an instruction cycle reads through the
/// bus, in the order in which they are read. No step reads more than two.
#[derive(Clone, Copy, Debug, PartialEq, Eq, Structural)]
pub struct MemoryReads {
    pub first: Option<u16>,
    pub second: Option<u16>,
}

pub open spec fn no_reads() -> MemoryReads {
    MemoryReads { first: None, second: None }
}

pub open spec fn one_read(addr: u16) -> MemoryReads {
    MemoryReads { first: Some(addr), second: None }
}

/// The address after an address; the last address has the first after it.
pub open spec fn following(addr: u16) -> u16 {
    if addr == 0xFFFF {
        0
    } else {
        (addr + 1) as u16
    }
}

/// The two addresses of a word, low byte first.
pub open spec fn word_reads(addr: u16) -> MemoryReads {
    MemoryReads { first: Some(addr), second: Some(following(addr)) }
}

/// The proposal that touches no flag.
pub open spec fn no_flags() -> FlagProposal {
    FlagProposal { zero: None, sub: None, half_carry: None, carry: None }
}

pub open spec fn no_writes() -> MemoryWrites {
    MemoryWrites { first: None, second: None }
}

pub open spec fn one_write(addr: u16, value: u8) -> MemoryWrites {
    MemoryWrites { first: Some(MemoryWrite { addr, value }), second: None }
}

/// The plan that changes registers only.
pub open spec fn registers_only(regs: Registers) -> Outcome {
    Outcome { regs, writes: no_writes(), flags: no_flags(), redirected: false }
}

// ---------------------------------------------------------------- arithmetic

/// A byte read as a signed number in two's complement.
pub open spec fn as_signed(byte: u8) -> i8 {
    if byte < 128 {
        byte as i8
    } else {
        (byte - 256) as i8
    }
}

/// The sum of two bytes, modulo 256.
pub open spec fn wrapping_sum(a: u8, b: u8) -> u8 {
    ((a + b) % 256) as u8
}

/// The difference of two bytes, modulo 256.
pub open spec fn wrapping_difference(a: u8, b: u8) -> u8 {
    ((a - b) % 256) as u8
}

/// A program counter moved by a signed offset, modulo 65536.
pub open spec fn relative_target(pc: u16, offset: i8) -> u16 {
    ((pc + offset) % 0x10000) as u16
}

/// A byte rotated left by one bit, the bit given coming in at the right.
pub open spec fn rotated_left(value: u8, carry_in: bool) -> u8 {
    ((value * 2) % 256 + if carry_in {
        1int
    } else {
        0int
    }) as u8
}

/// A byte rotated right by one bit, the bit given coming in at the left.
pub open spec fn rotated_right(value: u8, carry_in: bool) -> u8 {
    (value / 2 + if carry_in {
        128int
    } else {
        0int
    }) as u8
}

/// The flags of `a - v`: subtract set, carry on a borrow out of the byte,
/// half-carry on a borrow out of the low nibble.
pub open spec fn subtraction_flags(a: u8, v: u8) -> FlagProposal {
    FlagProposal {
        zero: Some(a == v),
        sub: Some(true),
        half_carry: Some(a % 16 < v % 16),
        carry: Some(a < v),
    }
}

/// The flags of `a + v`: subtract clear, carry on a carry out of the byte,
/// half-carry on a carry out of the low nibble.
pub open spec fn addition_flags(a: u8, v: u8) -> FlagProposal {
    FlagProposal {
        zero: Some(wrapping_sum(a, v) == 0),
        sub: Some(false),
        half_carry: Some(a % 16 + v % 16 > 15),
        carry: Some(a + v > 255),
    }
}

/// The flags of a bitwise operation with the result given.
pub open spec fn logic_flags(result: u8, half_carry: bool) -> FlagProposal {
    FlagProposal {
        zero: Some(result == 0),
        sub: Some(false),
        half_carry: Some(half_carry),
        carry: Some(false),
    }
}

/// The flags of a rotate or shift: carry takes the bit that left the byte.
pub open spec fn shift_flags(result: u8, carry_out: bool) -> FlagProposal {
    FlagProposal {
        zero: Some(result == 0),
        sub: Some(false),
        half_carry: Some(false),
        carry: Some(carry_out),
    }
}

// ------------------------------------------------------------- flag contract

/// Whether what was proposed for a flag is what the catalogue declares:
/// nothing where the flag is unaffected, exactly the forced value where
/// one is forced, and some value where the flag is computed.
pub open spec fn flag_honoured(effect: FlagEffect, proposed: Option<bool>) -> bool {
    match effect {
        FlagEffect::Unaffected => proposed is None,
        FlagEffect::ForcedOff => proposed == Some(false),
        FlagEffect::ForcedOn => proposed == Some(true),
        FlagEffect::Computed => proposed is Some,
    }
}

pub open spec fn flags_honoured(effects: FlagEffects, proposal: FlagProposal) -> bool {
    &&& flag_honoured(effects.zero, proposal.zero)
    &&& flag_honoured(effects.sub, proposal.sub)
    &&& flag_honoured(effects.half_carry, proposal.half_carry)
    &&& flag_honoured(effects.carry, proposal.carry)
}

/// The register file after one slot of a proposal is committed.
pub open spec fn commit_flag(regs: Registers, flag: Flag, proposed: Option<bool>) -> Registers {
    match proposed {
        Some(value) => regs.with_flag(flag, value),
        None => regs,
    }
}

/// The register file after a proposal is committed.
pub open spec fn commit_flags(regs: Registers, proposal: FlagProposal) -> Registers {
    commit_flag(
        commit_flag(
            commit_flag(commit_flag(regs, Flag::Zero, proposal.zero), Flag::Sub, proposal.sub),
            Flag::HalfCarry,
            proposal.half_carry,
        ),
        Flag::Carry,
        proposal.carry,
    )
}

// ------------------------------------------------------------------- decode

/// The opcode's entry: the byte at the program counter selects it from the
/// plain table, unless it is the escape byte, which is never an
/// instruction itself: then the byte after it selects from the second table.
pub open spec fn fetch(table: OpcodeTable, memory: Seq<u8>, pc: u16) -> Result<
    OpcodeDescriptor,
    CpuError,
> {
    let opcode = bus_read(memory, pc);
    if opcode != PREFIX_BYTE {
        lookup(table, false, opcode)
    } else if pc == 0xFFFF {
        Err(CpuError::OutOfRangeAddress)
    } else {
        lookup(table, true, bus_read(memory, (pc + 1) as u16))
    }
}

pub open spec fn lookup(table: OpcodeTable, prefixed: bool, byte: u8) -> Result<
    OpcodeDescriptor,
    CpuError,
> {
    match table.entry(prefixed, byte) {
        Some(descriptor) => Ok(descriptor),
        None => Err(CpuError::UnknownOpcode),
    }
}

/// The byte after the opcode.
pub open spec fn immediate_byte(memory: Seq<u8>, pc: u16) -> Result<u8, CpuError> {
    if pc >= 0xFFFF {
        Err(CpuError::OutOfRangeAddress)
    } else {
        Ok(bus_read(memory, (pc + 1) as u16))
    }
}

/// The little-endian word after the opcode.
pub open spec fn immediate_word(memory: Seq<u8>, pc: u16) -> Result<u16, CpuError> {
    if pc >= 0xFFFE {
        Err(CpuError::OutOfRangeAddress)
    } else {
        Ok(word_of(bus_read(memory, (pc + 2) as u16), bus_read(memory, (pc + 1) as u16)))
    }
}

/// The value of one operand: a word for an absolute address or an
/// immediate word, a byte for an immediate byte or a high-page address, a
/// signed byte for a relative offset; any other operand stays a name.
pub open spec fn decode_value(memory: Seq<u8>, pc: u16, name: OperandName) -> Result<
    MemValue,
    CpuError,
> {
    match name {
        OperandName::A16 | OperandName::D16 => match immediate_word(memory, pc) {
            Ok(word) => Ok(MemValue::Double(word)),
            Err(e) => Err(e),
        },
        OperandName::D8 | OperandName::A8 => match immediate_byte(memory, pc) {
            Ok(byte) => Ok(MemValue::Byte(byte)),
            Err(e) => Err(e),
        },
        OperandName::R8 => match immediate_byte(memory, pc) {
            Ok(byte) => Ok(MemValue::SignedByte(as_signed(byte))),
            Err(e) => Err(e),
        },
        _ => Ok(MemValue::Name(name)),
    }
}

pub open spec fn decode_operand(memory: Seq<u8>, pc: u16, operand: Operand) -> Result<
    Param,
    CpuError,
> {
    match decode_value(memory, pc, operand.name) {
        Ok(value) => Ok(Param { operand, value }),
        Err(e) => Err(e),
    }
}

/// The decoded operands of an instruction at `pc`, first operand first.
/// Decoding reads memory and changes nothing.
pub open spec fn decode(memory: Seq<u8>, pc: u16, operands: Operands) -> Result<Params, CpuError> {
    match operands {
        Operands::Empty => Ok(Params::Empty),
        Operands::One(a) => match decode_operand(memory, pc, a) {
            Ok(pa) => Ok(Params::One(pa)),
            Err(e) => Err(e),
        },
        Operands::Two(a, b) => match decode_operand(memory, pc, a) {
            Ok(pa) => match decode_operand(memory, pc, b) {
                Ok(pb) => Ok(Params::Two(pa, pb)),
                Err(e) => Err(e),
            },
            Err(e) => Err(e),
        },
        Operands::Three(a, b, c) => match decode_operand(memory, pc, a) {
            Ok(pa) => match decode_operand(memory, pc, b) {
                Ok(pb) => match decode_operand(memory, pc, c) {
                    Ok(pc_) => Ok(Params::Three(pa, pb, pc_)),
                    Err(e) => Err(e),
                },
                Err(e) => Err(e),
            },
            Err(e) => Err(e),
        },
    }
}

// ------------------------------------------------------- operand resolution

/// The byte that an arithmetic or logic instruction takes from its
/// operand: an immediate byte; the content of the register named; or, where
/// the operand is not immediate, the cell that the register pair named
/// addresses.
pub open spec fn byte_source(regs: Registers, memory: Seq<u8>, param: Param) -> Result<
    u8,
    CpuError,
> {
    match param.value {
        MemValue::Byte(byte) => Ok(byte),
        MemValue::Name(name) => if param.operand.immediate {
            match name.register() {
                Some(reg) => Ok(regs.reg8(reg)),
                None => Err(CpuError::InvalidRegisterName),
            }
        } else {
            match name.pair() {
                Some(pair) => Ok(bus_read(memory, regs.reg16(pair))),
                None => Err(CpuError::InvalidRegisterName),
            }
        },
        _ => Err(CpuError::MalformedOperand),
    }
}

/// The place a rotate works on: the register named or, where the operand
/// is not immediate, the cell that the register pair named addresses.
pub open spec fn rotate_place(regs: Registers, param: Param) -> Result<Place, CpuError> {
    if param.operand.immediate {
        match param.operand.name.register() {
            Some(reg) => Ok(Place::Register(reg)),
            None => Err(CpuError::InvalidRegisterName),
        }
    } else {
        match param.operand.name.pair() {
            Some(pair) => Ok(Place::Memory(regs.reg16(pair))),
            None => Err(CpuError::InvalidRegisterName),
        }
    }
}

/// The place that a name alone selects: the cell addressed by a register
/// pair, or a register.
pub open spec fn named_place(regs: Registers, name: OperandName) -> Result<Place, CpuError> {
    match name.pair() {
        Some(pair) => Ok(Place::Memory(regs.reg16(pair))),
        None => match name.register() {
            Some(reg) => Ok(Place::Register(reg)),
            None => Err(CpuError::InvalidRegisterName),
        },
    }
}

pub open spec fn read_place(regs: Registers, memory: Seq<u8>, place: Place) -> u8 {
    match place {
        Place::Register(reg) => regs.reg8(reg),
        Place::Memory(addr) => bus_read(memory, addr),
    }
}

/// The plan that puts a byte into a place and proposes flags.
pub open spec fn write_place(
    regs: Registers,
    place: Place,
    value: u8,
    flags: FlagProposal,
) -> Outcome {
    match place {
        Place::Register(reg) => Outcome {
            regs: regs.with_reg8(reg, value),
            writes: no_writes(),
            flags,
            redirected: false,
        },
        Place::Memory(addr) => Outcome {
            regs,
            writes: one_write(addr, value),
            flags,
            redirected: false,
        },
    }
}

// -------------------------------------------------------------------- stack

/// Pushing a word: the stack pointer goes down by two; the high byte is
/// written first, just below the old stack pointer, the low byte below it.
pub open spec fn push_word(regs: Registers, value: u16) -> Result<Outcome, CpuError> {
    if regs.sp < 2 {
        Err(CpuError::OutOfRangeAddress)
    } else {
        Ok(
            Outcome {
                regs: Registers { sp: (regs.sp - 2) as u16, ..regs },
                writes: MemoryWrites {
                    first: Some(
                        MemoryWrite { addr: (regs.sp - 1) as u16, value: high_byte(value) },
                    ),
                    second: Some(
                        MemoryWrite { addr: (regs.sp - 2) as u16, value: low_byte(value) },
                    ),
                },
                flags: no_flags(),
                redirected: false,
            },
        )
    }
}

/// Popping a word: the low byte is read at the stack pointer, the high
/// byte above it, and the stack pointer goes up by two.
pub open spec fn pop_word(regs: Registers, memory: Seq<u8>) -> Result<(u16, Registers), CpuError> {
    if regs.sp > 0xFFFD {
        Err(CpuError::OutOfRangeAddress)
    } else {
        Ok(
            (
                word_of(bus_read(memory, (regs.sp + 1) as u16), bus_read(memory, regs.sp)),
                Registers { sp: (regs.sp + 2) as u16, ..regs },
            ),
        )
    }
}

/// A plan that jumps: the program counter is set and will not be advanced.
pub open spec fn redirect(outcome: Outcome, target: u16) -> Outcome {
    Outcome { regs: Registers { pc: target, ..outcome.regs }, redirected: true, ..outcome }
}

// ------------------------------------------------------------- instructions

/// JP: an unconditional jump to the absolute address decoded.
pub open spec fn jp_outcome(regs: Registers, params: Params) -> Result<Outcome, CpuError> {
    match params {
        Params::One(target) => match target.value {
            MemValue::Double(addr) => Ok(redirect(registers_only(regs), addr)),
            _ => Err(CpuError::MalformedOperand),
        },
        _ => Err(CpuError::MalformedOperand),
    }
}

/// The condition that the first operand of a gated instruction names.
pub open spec fn gate(regs: Registers, param: Param) -> Result<bool, CpuError> {
    match param.operand.name.condition() {
        Some(cond) => Ok(regs.condition(cond)),
        None => Err(CpuError::MalformedOperand),
    }
}

/// The plan of a relative jump that is taken: the offset is added to the
/// program counter as it stood before the instruction, modulo 65536, and
/// the program counter is not advanced by the instruction's length
/// afterwards.
pub open spec fn jr_taken(regs: Registers, offset: Param) -> Result<Outcome, CpuError> {
    match offset.value {
        MemValue::SignedByte(o) => Ok(
            redirect(registers_only(regs), relative_target(regs.pc, o)),
        ),
        _ => Err(CpuError::MalformedOperand),
    }
}

/// JR: a relative jump, with one operand unconditional, with two gated by
/// the condition that the first names. An untaken jump changes nothing,
/// and the program counter then advances by the instruction's length.
pub open spec fn jr_outcome(regs: Registers, params: Params) -> Result<Outcome, CpuError> {
    match params {
        Params::One(offset) => jr_taken(regs, offset),
        Params::Two(cond, offset) => match gate(regs, cond) {
            Ok(taken) => if taken {
                jr_taken(regs, offset)
            } else {
                Ok(registers_only(regs))
            },
            Err(e) => Err(e),
        },
        _ => Err(CpuError::MalformedOperand),
    }
}

/// The plan of a call that is taken: the address of the next instruction
/// is pushed, and the program counter set to the target.
pub open spec fn call_taken(regs: Registers, bytes: u8, target: u16) -> Result<Outcome, CpuError> {
    if regs.pc + bytes > 0xFFFF {
        Err(CpuError::OutOfRangeAddress)
    } else {
        match push_word(regs, (regs.pc + bytes) as u16) {
            Ok(pushed) => Ok(redirect(pushed, target)),
            Err(e) => Err(e),
        }
    }
}

/// CALL: with one operand unconditional, with two gated by the condition
/// that the first names. An untaken call changes nothing.
pub open spec fn call_outcome(regs: Registers, bytes: u8, params: Params) -> Result<
    Outcome,
    CpuError,
> {
    match params {
        Params::One(target) => match target.value {
            MemValue::Double(addr) => call_taken(regs, bytes, addr),
            _ => Err(CpuError::MalformedOperand),
        },
        Params::Two(cond, target) => match target.value {
            MemValue::Double(addr) => match gate(regs, cond) {
                Ok(taken) => if taken {
                    call_taken(regs, bytes, addr)
                } else {
                    Ok(registers_only(regs))
                },
                Err(e) => Err(e),
            },
            _ => Err(CpuError::MalformedOperand),
        },
        _ => Err(CpuError::MalformedOperand),
    }
}

/// RET: pops the return address into the program counter. The gated form
/// is not executed.
pub open spec fn ret_outcome(regs: Registers, memory: Seq<u8>, params: Params) -> Result<
    Outcome,
    CpuError,
> {
    match params {
        Params::Empty => match pop_word(regs, memory) {
            Ok((addr, popped)) => Ok(redirect(registers_only(popped), addr)),
            Err(e) => Err(e),
        },
        Params::One(_) => Err(CpuError::UnimplementedMnemonic),
        _ => Err(CpuError::MalformedOperand),
    }
}

/// RST: pushes the program counter and jumps to the vector that the
/// operand names.
pub open spec fn rst_outcome(regs: Registers, params: Params) -> Result<Outcome, CpuError> {
    match params {
        Params::One(vector) => match vector.operand.name {
            OperandName::Vector(addr) => match push_word(regs, regs.pc) {
                Ok(pushed) => Ok(redirect(pushed, addr as u16)),
                Err(e) => Err(e),
            },
            _ => Err(CpuError::MalformedOperand),
        },
        _ => Err(CpuError::MalformedOperand),
    }
}

/// PUSH: pushes the register pair named.
pub open spec fn push_outcome(regs: Registers, params: Params) -> Result<Outcome, CpuError> {
    match params {
        Params::One(source) => match source.operand.name.pair() {
            Some(pair) => push_word(regs, regs.reg16(pair)),
            None => Err(CpuError::InvalidRegisterName),
        },
        _ => Err(CpuError::MalformedOperand),
    }
}

/// POP: pops a word into the register pair named.
pub open spec fn pop_outcome(regs: Registers, memory: Seq<u8>, params: Params) -> Result<
    Outcome,
    CpuError,
> {
    match params {
        Params::One(target) => match target.operand.name.pair() {
            Some(pair) => match pop_word(regs, memory) {
                Ok((value, popped)) => Ok(registers_only(popped.with_reg16(pair, value))),
                Err(e) => Err(e),
            },
            None => Err(CpuError::InvalidRegisterName),
        },
        _ => Err(CpuError::MalformedOperand),
    }
}

/// CP: compares A with the operand by subtracting; A is left alone.
pub open spec fn cp_outcome(regs: Registers, memory: Seq<u8>, params: Params) -> Result<
    Outcome,
    CpuError,
> {
    match params {
        Params::One(source) => match byte_source(regs, memory, source) {
            Ok(value) => Ok(
                Outcome {
                    regs,
                    writes: no_writes(),
                    flags: subtraction_flags(regs.a, value),
                    redirected: false,
                },
            ),
            Err(e) => Err(e),
        },
        _ => Err(CpuError::MalformedOperand),
    }
}

/// SUB: subtracts the operand from A.
pub open spec fn sub_outcome(regs: Registers, memory: Seq<u8>, params: Params) -> Result<
    Outcome,
    CpuError,
> {
    match params {
        Params::One(source) => match byte_source(regs, memory, source) {
            Ok(value) => Ok(
                Outcome {
                    regs: Registers { a: wrapping_difference(regs.a, value), ..regs },
                    writes: no_writes(),
                    flags: subtraction_flags(regs.a, value),
                    redirected: false,
                },
            ),
            Err(e) => Err(e),
        },
        _ => Err(CpuError::MalformedOperand),
    }
}

/// ADD: adds the second operand to A. Adding to a register pair is not
/// executed, and no other byte register can be the target.
pub open spec fn add_outcome(regs: Registers, memory: Seq<u8>, params: Params) -> Result<
    Outcome,
    CpuError,
> {
    match params {
        Params::Two(target, source) => match target.operand.name.register() {
            Some(reg) => if reg != Register::A {
                Err(CpuError::MalformedOperand)
            } else {
                match byte_source(regs, memory, source) {
                    Ok(value) => Ok(
                        Outcome {
                            regs: Registers { a: wrapping_sum(regs.a, value), ..regs },
                            writes: no_writes(),
                            flags: addition_flags(regs.a, value),
                            redirected: false,
                        },
                    ),
                    Err(e) => Err(e),
                }
            },
            None => match target.operand.name.pair() {
                Some(_) => Err(CpuError::UnimplementedMnemonic),
                None => Err(CpuError::InvalidRegisterName),
            },
        },
        _ => Err(CpuError::MalformedOperand),
    }
}

/// AND: the bitwise and of A and the operand, into A; half-carry is set.
pub open spec fn and_outcome(regs: Registers, memory: Seq<u8>, params: Params) -> Result<
    Outcome,
    CpuError,
> {
    match params {
        Params::One(source) => match byte_source(regs, memory, source) {
            Ok(value) => Ok(
                Outcome {
                    regs: Registers { a: regs.a & value, ..regs },
                    writes: no_writes(),
                    flags: logic_flags(regs.a & value, true),
                    redirected: false,
                },
            ),
            Err(e) => Err(e),
        },
        _ => Err(CpuError::MalformedOperand),
    }
}

/// OR: the bitwise or of A and the operand, into A.
pub open spec fn or_outcome(regs: Registers, memory: Seq<u8>, params: Params) -> Result<
    Outcome,
    CpuError,
> {
    match params {
        Params::One(source) => match byte_source(regs, memory, source) {
            Ok(value) => Ok(
                Outcome {
                    regs: Registers { a: regs.a | value, ..regs },
                    writes: no_writes(),
                    flags: logic_flags(regs.a | value, false),
                    redirected: false,
                },
            ),
            Err(e) => Err(e),
        },
        _ => Err(CpuError::MalformedOperand),
    }
}

/// The byte that XOR takes from its operand: as the other logic
/// instructions do, and besides from the cell at an absolute address.
pub open spec fn xor_source(regs: Registers, memory: Seq<u8>, param: Param) -> Result<
    u8,
    CpuError,
> {
    match param.value {
        MemValue::Double(addr) => if param.operand.immediate {
            Ok(bus_read(memory, addr))
        } else {
            Err(CpuError::MalformedOperand)
        },
        _ => byte_source(regs, memory, param),
    }
}

/// XOR: the exclusive or of A and the operand, into A.
pub open spec fn xor_outcome(regs: Registers, memory: Seq<u8>, params: Params) -> Result<
    Outcome,
    CpuError,
> {
    match params {
        Params::One(source) => match xor_source(regs, memory, source) {
            Ok(value) => Ok(
                Outcome {
                    regs: Registers { a: regs.a ^ value, ..regs },
                    writes: no_writes(),
                    flags: logic_flags(regs.a ^ value, false),
                    redirected: false,
                },
            ),
            Err(e) => Err(e),
        },
        _ => Err(CpuError::MalformedOperand),
    }
}

/// The flags of an increment of the byte `value`.
pub open spec fn inc_flags(value: u8) -> FlagProposal {
    FlagProposal {
        zero: Some(value == 255),
        sub: Some(false),
        half_carry: Some(value % 16 == 15),
        carry: None,
    }
}

/// The flags of a decrement of the byte `value`.
pub open spec fn dec_flags(value: u8) -> FlagProposal {
    FlagProposal {
        zero: Some(value == 1),
        sub: Some(true),
        half_carry: Some(value % 16 == 0),
        carry: None,
    }
}

/// What INC and DEC work on: a byte in a place, or a register pair.
#[derive(Clone, Copy, Debug, PartialEq, Eq, Structural)]
pub enum Counter {
    Byte(Place),
    Word(RegisterPair),
}

/// An immediate operand names a register or a register pair; one that is
/// not names the pair that addresses the byte in memory.
pub open spec fn counter(regs: Registers, param: Param) -> Result<Counter, CpuError> {
    let name = param.operand.name;
    if param.operand.immediate {
        match name.register() {
            Some(reg) => Ok(Counter::Byte(Place::Register(reg))),
            None => match name.pair() {
                Some(pair) => Ok(Counter::Word(pair)),
                None => Err(CpuError::InvalidRegisterName),
            },
        }
    } else {
        match name.pair() {
            Some(pair) => Ok(Counter::Byte(Place::Memory(regs.reg16(pair)))),
            None => Err(CpuError::InvalidRegisterName),
        }
    }
}

/// INC: adds one. A byte wraps at 256 and proposes zero, subtract and
/// half-carry; a register pair wraps at 65536 and proposes nothing.
pub open spec fn inc_outcome(regs: Registers, memory: Seq<u8>, params: Params) -> Result<
    Outcome,
    CpuError,
> {
    match params {
        Params::One(target) => match counter(regs, target) {
            Ok(Counter::Byte(place)) => {
                let value = read_place(regs, memory, place);
                Ok(write_place(regs, place, wrapping_sum(value, 1), inc_flags(value)))
            },
            Ok(Counter::Word(pair)) => Ok(
                registers_only(regs.with_reg16(pair, ((regs.reg16(pair) + 1) % 0x10000) as u16)),
            ),
            Err(e) => Err(e),
        },
        _ => Err(CpuError::MalformedOperand),
    }
}

/// DEC: subtracts one, as INC adds one.
pub open spec fn dec_outcome(regs: Registers, memory: Seq<u8>, params: Params) -> Result<
    Outcome,
    CpuError,
> {
    match params {
        Params::One(target) => match counter(regs, target) {
            Ok(Counter::Byte(place)) => {
                let value = read_place(regs, memory, place);
                Ok(write_place(regs, place, wrapping_difference(value, 1), dec_flags(value)))
            },
            Ok(Counter::Word(pair)) => Ok(
                registers_only(regs.with_reg16(pair, ((regs.reg16(pair) - 1) % 0x10000) as u16)),
            ),
            Err(e) => Err(e),
        },
        _ => Err(CpuError::MalformedOperand),
    }
}

/// The byte that BIT tests: a register, or the cell that a register pair
/// addresses, which must not be marked immediate.
pub open spec fn bit_source(regs: Registers, memory: Seq<u8>, param: Param) -> Result<
    u8,
    CpuError,
> {
    match param.operand.name.register() {
        Some(reg) => Ok(regs.reg8(reg)),
        None => match param.operand.name.pair() {
            Some(pair) => if param.operand.immediate {
                Err(CpuError::MalformedOperand)
            } else {
                Ok(bus_read(memory, regs.reg16(pair)))
            },
            None => Err(CpuError::InvalidRegisterName),
        },
    }
}

/// BIT: zero is set exactly if the bit is clear; subtract is cleared,
/// half-carry set, carry left alone.
pub open spec fn bit_outcome(regs: Registers, memory: Seq<u8>, params: Params) -> Result<
    Outcome,
    CpuError,
> {
    match params {
        Params::Two(index, source) => match index.operand.name {
            OperandName::Bit(bit) => if bit >= 8 {
                Err(CpuError::MalformedOperand)
            } else {
                match bit_source(regs, memory, source) {
                    Ok(value) => Ok(
                        Outcome {
                            regs,
                            writes: no_writes(),
                            flags: FlagProposal {
                                zero: Some(!bit_is_set(value, bit)),
                                sub: Some(false),
                                half_carry: Some(true),
                                carry: None,
                            },
                            redirected: false,
                        },
                    ),
                    Err(e) => Err(e),
                }
            },
            _ => Err(CpuError::MalformedOperand),
        },
        _ => Err(CpuError::MalformedOperand),
    }
}

/// RL: rotates left through the carry flag.
pub open spec fn rl_outcome(regs: Registers, memory: Seq<u8>, params: Params) -> Result<
    Outcome,
    CpuError,
> {
    match params {
        Params::One(target) => match rotate_place(regs, target) {
            Ok(place) => {
                let value = read_place(regs, memory, place);
                let result = rotated_left(value, regs.flag(Flag::Carry));
                Ok(write_place(regs, place, result, shift_flags(result, value >= 128)))
            },
            Err(e) => Err(e),
        },
        _ => Err(CpuError::MalformedOperand),
    }
}

/// RR: rotates right through the carry flag.
pub open spec fn rr_outcome(regs: Registers, memory: Seq<u8>, params: Params) -> Result<
    Outcome,
    CpuError,
> {
    match params {
        Params::One(target) => match rotate_place(regs, target) {
            Ok(place) => {
                let value = read_place(regs, memory, place);
                let result = rotated_right(value, regs.flag(Flag::Carry));
                Ok(write_place(regs, place, result, shift_flags(result, value % 2 == 1)))
            },
            Err(e) => Err(e),
        },
        _ => Err(CpuError::MalformedOperand),
    }
}

/// The flags of a rotate of the accumulator: as those of a rotate, but
/// with zero always cleared.
pub open spec fn accumulator_rotate_flags(carry_out: bool) -> FlagProposal {
    FlagProposal {
        zero: Some(false),
        sub: Some(false),
        half_carry: Some(false),
        carry: Some(carry_out),
    }
}

/// RLA: rotates A left through the carry flag.
pub open spec fn rla_outcome(regs: Registers, params: Params) -> Result<Outcome, CpuError> {
    match params {
        Params::Empty => Ok(
            Outcome {
                regs: Registers { a: rotated_left(regs.a, regs.flag(Flag::Carry)), ..regs },
                writes: no_writes(),
                flags: accumulator_rotate_flags(regs.a >= 128),
                redirected: false,
            },
        ),
        _ => Err(CpuError::MalformedOperand),
    }
}

/// RRA: rotates A right through the carry flag.
pub open spec fn rra_outcome(regs: Registers, params: Params) -> Result<Outcome, CpuError> {
    match params {
        Params::Empty => Ok(
            Outcome {
                regs: Registers { a: rotated_right(regs.a, regs.flag(Flag::Carry)), ..regs },
                writes: no_writes(),
                flags: accumulator_rotate_flags(regs.a % 2 == 1),
                redirected: false,
            },
        ),
        _ => Err(CpuError::MalformedOperand),
    }
}

/// SRL: shifts right by one bit; a zero comes in at the left.
pub open spec fn srl_outcome(regs: Registers, memory: Seq<u8>, params: Params) -> Result<
    Outcome,
    CpuError,
> {
    match params {
        Params::One(target) => match named_place(regs, target.operand.name) {
            Ok(place) => {
                let value = read_place(regs, memory, place);
                Ok(write_place(regs, place, value / 2, shift_flags(value / 2, value % 2 == 1)))
            },
            Err(e) => Err(e),
        },
        _ => Err(CpuError::MalformedOperand),
    }
}

/// What LD moves: a byte or a word. A register named gives its content
/// and must be immediate; a register pair gives its word where it is
/// immediate and otherwise the cell it addresses; an absolute address
/// gives the cell it addresses, an immediate word itself.
pub open spec fn ld_source(regs: Registers, memory: Seq<u8>, source: Param) -> Result<
    MemValue,
    CpuError,
> {
    match source.value {
        MemValue::Name(name) => match name.register() {
            Some(reg) => if source.operand.immediate {
                Ok(MemValue::Byte(regs.reg8(reg)))
            } else {
                Err(CpuError::UnimplementedMnemonic)
            },
            None => match name.pair() {
                Some(pair) => if source.operand.immediate {
                    Ok(MemValue::Double(regs.reg16(pair)))
                } else {
                    Ok(MemValue::Byte(bus_read(memory, regs.reg16(pair))))
                },
                None => Err(CpuError::InvalidRegisterName),
            },
        },
        MemValue::Byte(byte) => Ok(MemValue::Byte(byte)),
        MemValue::Double(word) => if source.operand.immediate {
            Ok(MemValue::Double(word))
        } else {
            Ok(MemValue::Byte(bus_read(memory, word)))
        },
        _ => Err(CpuError::MalformedOperand),
    }
}

/// Where LD puts a value when the target is a name. A register takes a
/// byte. A register pair takes a word; a byte goes to the cell that the
/// pair addresses, and then the target must not be immediate.
pub open spec fn ld_store_named(regs: Registers, target: Operand, value: MemValue) -> Result<
    Outcome,
    CpuError,
> {
    match target.name.register() {
        Some(reg) => match value {
            MemValue::Byte(byte) => Ok(registers_only(regs.with_reg8(reg, byte))),
            _ => Err(CpuError::MalformedOperand),
        },
        None => match target.name.pair() {
            Some(pair) => match value {
                MemValue::Double(word) => Ok(registers_only(regs.with_reg16(pair, word))),
                MemValue::Byte(byte) => if target.immediate {
                    Err(CpuError::MalformedOperand)
                } else {
                    Ok(
                        Outcome {
                            regs,
                            writes: one_write(regs.reg16(pair), byte),
                            flags: no_flags(),
                            redirected: false,
                        },
                    )
                },
                _ => Err(CpuError::MalformedOperand),
            },
            None => Err(CpuError::InvalidRegisterName),
        },
    }
}

/// Where LD puts a value when the target is an absolute address: a byte
/// into the cell, a word into the cell and the one above, low byte first.
pub open spec fn ld_store_absolute(regs: Registers, addr: u16, value: MemValue) -> Result<
    Outcome,
    CpuError,
> {
    match value {
        MemValue::Byte(byte) => Ok(
            Outcome { regs, writes: one_write(addr, byte), flags: no_flags(), redirected: false },
        ),
        MemValue::Double(word) => if addr == 0xFFFF {
            Err(CpuError::OutOfRangeAddress)
        } else {
            Ok(
                Outcome {
                    regs,
                    writes: MemoryWrites {
                        first: Some(MemoryWrite { addr, value: low_byte(word) }),
                        second: Some(
                            MemoryWrite { addr: (addr + 1) as u16, value: high_byte(word) },
                        ),
                    },
                    flags: no_flags(),
                    redirected: false,
                },
            )
        },
        _ => Err(CpuError::MalformedOperand),
    }
}

/// The register file after the register pair of an operand has been
/// stepped as the operand asks: down by one, up by one, or not at all.
pub open spec fn step_pair(regs: Registers, operand: Operand) -> Result<Registers, CpuError> {
    if operand.decrement {
        match operand.name.pair() {
            Some(pair) => if regs.reg16(pair) == 0 {
                Err(CpuError::OutOfRangeAddress)
            } else {
                Ok(regs.with_reg16(pair, (regs.reg16(pair) - 1) as u16))
            },
            None => Err(CpuError::InvalidRegisterName),
        }
    } else if operand.increment {
        match operand.name.pair() {
            Some(pair) => if regs.reg16(pair) == 0xFFFF {
                Err(CpuError::OutOfRangeAddress)
            } else {
                Ok(regs.with_reg16(pair, (regs.reg16(pair) + 1) as u16))
            },
            None => Err(CpuError::InvalidRegisterName),
        }
    } else {
        Ok(regs)
    }
}

/// LD: moves the second operand into the first. After a move into a named
/// target the register pair of the target and then that of the source are
/// stepped, each as its operand asks.
pub open spec fn ld_outcome(regs: Registers, memory: Seq<u8>, params: Params) -> Result<
    Outcome,
    CpuError,
> {
    match params {
        Params::Two(target, source) => match ld_source(regs, memory, source) {
            Ok(value) => match target.value {
                MemValue::Name(_) => match ld_store_named(regs, target.operand, value) {
                    Ok(stored) => match step_pair(stored.regs, target.operand) {
                        Ok(stepped) => match step_pair(stepped, source.operand) {
                            Ok(last) => Ok(Outcome { regs: last, ..stored }),
                            Err(e) => Err(e),
                        },
                        Err(e) => Err(e),
                    },
                    Err(e) => Err(e),
                },
                MemValue::Double(addr) => ld_store_absolute(regs, addr, value),
                _ => Err(CpuError::MalformedOperand),
            },
            Err(e) => Err(e),
        },
        _ => Err(CpuError::UnimplementedMnemonic),
    }
}

/// The address in the high page that a byte selects.
pub open spec fn high_page(offset: u8) -> u16 {
    (RAM_IO_PORTS_RANGE_START + offset) as u16
}

/// The byte LDH moves: the cell of the high page that a byte selects,
/// which must not be immediate, or the content of a register, which must be.
pub open spec fn ldh_source(regs: Registers, memory: Seq<u8>, source: Param) -> Result<
    u8,
    CpuError,
> {
    match source.value {
        MemValue::Byte(offset) => if source.operand.immediate {
            Err(CpuError::MalformedOperand)
        } else {
            Ok(bus_read(memory, high_page(offset)))
        },
        MemValue::Name(name) => if !source.operand.immediate {
            Err(CpuError::MalformedOperand)
        } else {
            match name.register() {
                Some(reg) => Ok(regs.reg8(reg)),
                None => Err(CpuError::InvalidRegisterName),
            }
        },
        _ => Err(CpuError::MalformedOperand),
    }
}

/// LDH: moves a byte between a register and the high page.
pub open spec fn ldh_outcome(regs: Registers, memory: Seq<u8>, params: Params) -> Result<
    Outcome,
    CpuError,
> {
    match params {
        Params::Two(target, source) => match ldh_source(regs, memory, source) {
            Ok(byte) => match target.value {
                MemValue::Byte(offset) => if target.operand.immediate {
                    Err(CpuError::MalformedOperand)
                } else {
                    Ok(
                        Outcome {
                            regs,
                            writes: one_write(high_page(offset), byte),
                            flags: no_flags(),
                            redirected: false,
                        },
                    )
                },
                MemValue::Name(name) => if !target.operand.immediate {
                    Err(CpuError::MalformedOperand)
                } else {
                    match name.register() {
                        Some(reg) => Ok(registers_only(regs.with_reg8(reg, byte))),
                        None => Err(CpuError::InvalidRegisterName),
                    }
                },
                _ => Err(CpuError::MalformedOperand),
            },
            Err(e) => Err(e),
        },
        _ => Err(CpuError::MalformedOperand),
    }
}

/// Whether the engine executes instructions of this name.
pub open spec fn implemented(mnemonic: Mnemonic) -> bool {
    match mnemonic {
        Mnemonic::NOP
        | Mnemonic::DI
        | Mnemonic::JP
        | Mnemonic::JR
        | Mnemonic::CALL
        | Mnemonic::RET
        | Mnemonic::RST
        | Mnemonic::PUSH
        | Mnemonic::POP
        | Mnemonic::LD
        | Mnemonic::LDH
        | Mnemonic::CP
        | Mnemonic::SUB
        | Mnemonic::ADD
        | Mnemonic::AND
        | Mnemonic::OR
        | Mnemonic::XOR
        | Mnemonic::INC
        | Mnemonic::DEC
        | Mnemonic::BIT
        | Mnemonic::RL
        | Mnemonic::RR
        | Mnemonic::RLA
        | Mnemonic::RRA
        | Mnemonic::SRL => true,
        _ => false,
    }
}

/// The plan of an instruction, by its mnemonic. NOP does nothing, and so,
/// for now, does DI. A mnemonic that the engine does not execute is an error.
pub open spec fn plan(
    descriptor: OpcodeDescriptor,
    regs: Registers,
    memory: Seq<u8>,
    params: Params,
) -> Result<Outcome, CpuError> {
    match descriptor.mnemonic {
        Mnemonic::NOP | Mnemonic::DI => Ok(registers_only(regs)),
        Mnemonic::JP => jp_outcome(regs, params),
        Mnemonic::JR => jr_outcome(regs, params),
        Mnemonic::CALL => call_outcome(regs, descriptor.bytes, params),
        Mnemonic::RET => ret_outcome(regs, memory, params),
        Mnemonic::RST => rst_outcome(regs, params),
        Mnemonic::PUSH => push_outcome(regs, params),
        Mnemonic::POP => pop_outcome(regs, memory, params),
        Mnemonic::LD => ld_outcome(regs, memory, params),
        Mnemonic::LDH => ldh_outcome(regs, memory, params),
        Mnemonic::CP => cp_outcome(regs, memory, params),
        Mnemonic::SUB => sub_outcome(regs, memory, params),
        Mnemonic::ADD => add_outcome(regs, memory, params),
        Mnemonic::AND => and_outcome(regs, memory, params),
        Mnemonic::OR => or_outcome(regs, memory, params),
        Mnemonic::XOR => xor_outcome(regs, memory, params),
        Mnemonic::INC => inc_outcome(regs, memory, params),
        Mnemonic::DEC => dec_outcome(regs, memory, params),
        Mnemonic::BIT => bit_outcome(regs, memory, params),
        Mnemonic::RL => rl_outcome(regs, memory, params),
        Mnemonic::RR => rr_outcome(regs, memory, params),
        Mnemonic::RLA => rla_outcome(regs, params),
        Mnemonic::RRA => rra_outcome(regs, params),
        Mnemonic::SRL => srl_outcome(regs, memory, params),
        _ => Err(CpuError::UnimplementedMnemonic),
    }
}

// ---------------------------------------------------------- what is read

/// The cell that a register pair named addresses, as the one read.
pub open spec fn pair_cell(regs: Registers, name: OperandName) -> MemoryReads {
    match name.pair() {
        Some(pair) => one_read(regs.reg16(pair)),
        None => no_reads(),
    }
}

/// What `byte_source` reads: the cell that the register pair named
/// addresses, where the operand is a name and not immediate.
pub open spec fn source_cell(regs: Registers, param: Param) -> MemoryReads {
    match param.value {
        MemValue::Name(name) => if param.operand.immediate {
            no_reads()
        } else {
            pair_cell(regs, name)
        },
        _ => no_reads(),
    }
}

/// What the plan of an instruction reads from memory where it succeeds:
/// the two cells at the stack pointer for a pop or a return, the cell of
/// the source or of the place worked on for the others, and nothing for an
/// instruction that works on registers and immediates alone.
pub open spec fn plan_reads(
    descriptor: OpcodeDescriptor,
    regs: Registers,
    params: Params,
) -> MemoryReads {
    match descriptor.mnemonic {
        Mnemonic::RET => match params {
            Params::Empty => word_reads(regs.sp),
            _ => no_reads(),
        },
        Mnemonic::POP => match params {
            Params::One(_) => word_reads(regs.sp),
            _ => no_reads(),
        },
        Mnemonic::CP | Mnemonic::SUB | Mnemonic::AND | Mnemonic::OR => match params {
            Params::One(source) => source_cell(regs, source),
            _ => no_reads(),
        },
        Mnemonic::ADD => match params {
            Params::Two(_, source) => source_cell(regs, source),
            _ => no_reads(),
        },
        Mnemonic::XOR => match params {
            Params::One(source) => match source.value {
                MemValue::Double(addr) => one_read(addr),
                _ => source_cell(regs, source),
            },
            _ => no_reads(),
        },
        Mnemonic::INC | Mnemonic::DEC | Mnemonic::RL | Mnemonic::RR => match params {
            Params::One(target) => if target.operand.immediate {
                no_reads()
            } else {
                pair_cell(regs, target.operand.name)
            },
            _ => no_reads(),
        },
        Mnemonic::SRL => match params {
            Params::One(target) => pair_cell(regs, target.operand.name),
            _ => no_reads(),
        },
        Mnemonic::BIT => match params {
            Params::Two(_, source) => if source.operand.name.register() is Some {
                no_reads()
            } else {
                pair_cell(regs, source.operand.name)
            },
            _ => no_reads(),
        },
        Mnemonic::LD => match params {
            Params::Two(_, source) => match source.value {
                MemValue::Name(name) => if name.register() is Some || source.operand.immediate {
                    no_reads()
                } else {
                    pair_cell(regs, name)
                },
                MemValue::Double(addr) => if source.operand.immediate {
                    no_reads()
                } else {
                    one_read(addr)
                },
                _ => no_reads(),
            },
            _ => no_reads(),
        },
        Mnemonic::LDH => match params {
            Params::Two(_, source) => match source.value {
                MemValue::Byte(offset) => one_read(high_page(offset)),
                _ => no_reads(),
            },
            _ => no_reads(),
        },
        _ => no_reads(),
    }
}

/// What the fetch reads: the byte at the program counter, and the byte
/// after it where the first is the escape byte.
pub open spec fn fetch_reads(memory: Seq<u8>, pc: u16) -> MemoryReads {
    MemoryReads {
        first: Some(pc),
        second: if bus_read(memory, pc) == PREFIX_BYTE && pc != 0xFFFF {
            Some(following(pc))
        } else {
            None
        },
    }
}

/// What decoding one operand reads: the two bytes after the opcode for a
/// word, the byte after it for a byte, nothing for a name.
pub open spec fn operand_reads(pc: u16, name: OperandName) -> MemoryReads {
    match name {
        OperandName::A16 | OperandName::D16 => word_reads(following(pc)),
        OperandName::D8 | OperandName::A8 | OperandName::R8 => one_read(following(pc)),
        _ => no_reads(),
    }
}

/// The record after the reads of one step.
pub open spec fn reads_noted(record: Seq<Access>, reads: MemoryReads) -> Seq<Access> {
    let after_first = match reads.first {
        Some(addr) => noted(record, addr, false),
        None => record,
    };
    match reads.second {
        Some(addr) => noted(after_first, addr, false),
        None => after_first,
    }
}

/// The record after the operands of an instruction are decoded.
pub open spec fn decode_noted(record: Seq<Access>, pc: u16, operands: Operands) -> Seq<Access> {
    match operands {
        Operands::Empty => record,
        Operands::One(a) => reads_noted(record, operand_reads(pc, a.name)),
        Operands::Two(a, b) => reads_noted(
            reads_noted(record, operand_reads(pc, a.name)),
            operand_reads(pc, b.name),
        ),
        Operands::Three(a, b, c) => reads_noted(
            reads_noted(reads_noted(record, operand_reads(pc, a.name)), operand_reads(pc, b.name)),
            operand_reads(pc, c.name),
        ),
    }
}

/// The record after the reads of a whole cycle: those of the fetch, then
/// those of the decoding, then those of the plan.
pub open spec fn cycle_noted(descriptor: OpcodeDescriptor, m: Machine, params: Params) -> Seq<
    Access,
> {
    reads_noted(
        decode_noted(
            reads_noted(m.suspicious, fetch_reads(m.memory, m.regs.pc)),
            m.regs.pc,
            descriptor.operands,
        ),
        plan_reads(descriptor, m.regs, params),
    )
}

// ------------------------------------------------------------------- commit

/// The machine after the writes of a plan, first write first.
pub open spec fn apply_writes(m: Machine, writes: MemoryWrites) -> Machine {
    let after_first = match writes.first {
        Some(w) => m.store(w.addr, w.value),
        None => m,
    };
    match writes.second {
        Some(w) => after_first.store(w.addr, w.value),
        None => after_first,
    }
}

/// The program counter after an instruction: where the instruction put
/// it, if it redirected; otherwise moved on by the instruction's length.
pub open spec fn next_pc(outcome: Outcome, bytes: u8) -> Result<u16, CpuError> {
    if outcome.redirected {
        Ok(outcome.regs.pc)
    } else if outcome.regs.pc + bytes > 0xFFFF {
        Err(CpuError::OutOfRangeAddress)
    } else {
        Ok((outcome.regs.pc + bytes) as u16)
    }
}

/// The machine after a plan is carried out: the proposal is checked
/// against the catalogue, the flags are committed, the program counter
/// advances unless the instruction redirected it, the reads of the cycle
/// are recorded, and the bytes are written.
pub open spec fn commit(
    descriptor: OpcodeDescriptor,
    m: Machine,
    params: Params,
    outcome: Outcome,
) -> Result<Machine, CpuError> {
    if !flags_honoured(descriptor.flags, outcome.flags) {
        Err(CpuError::FlagContractViolation)
    } else {
        match next_pc(outcome, descriptor.bytes) {
            Ok(pc) => Ok(
                apply_writes(
                    Machine {
                        regs: commit_flags(Registers { pc, ..outcome.regs }, outcome.flags),
                        suspicious: cycle_noted(descriptor, m, params),
                        ..m
                    },
                    outcome.writes,
                ),
            ),
            Err(e) => Err(e),
        }
    }
}

/// What executing the entry `descriptor` does to the machine.
pub open spec fn execute(descriptor: OpcodeDescriptor, m: Machine) -> Result<Machine, CpuError> {
    match decode(m.memory, m.regs.pc, descriptor.operands) {
        Ok(params) => match plan(descriptor, m.regs, m.memory, params) {
            Ok(outcome) => commit(descriptor, m, params, outcome),
            Err(e) => Err(e),
        },
        Err(e) => Err(e),
    }
}

/// One instruction cycle: fetch, decode, plan, flag check, commit.
pub open spec fn step(table: OpcodeTable, m: Machine) -> Result<Machine, CpuError> {
    match fetch(table, m.memory, m.regs.pc) {
        Ok(descriptor) => execute(descriptor, m),
        Err(e) => Err(e),
    }
}

} // verus!
