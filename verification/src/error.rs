//! The ways in which an instruction cycle can fail. None of them is
//! recovered from: each shows that the program fed to the interpreter, or
//! the opcode catalogue, does not fit it.

use vstd::prelude::*;

verus! {

#[derive(Clone, Copy, Debug, PartialEq, Eq, Structural)]
pub enum CpuError {
    /// The catalogue has no entry for the byte fetched.
    UnknownOpcode,
    /// The catalogue names an instruction, or a form of one, that the
    /// engine does not execute.
    UnimplementedMnemonic,
    /// An instruction has the wrong number of operands, or an operand of a
    /// kind that it cannot take.
    MalformedOperand,
    /// The flags that the instruction proposed disagree with the effects
    /// that the catalogue declares for it.
    FlagContractViolation,
    /// An operand that must name a register, or a register pair, names none.
    InvalidRegisterName,
    /// An address computed from the program counter, the stack pointer or a
    /// register pair leaves the 16-bit address space.
    OutOfRangeAddress,
}

/// The ways in which reading a catalogue from a JSON document can fail.
#[derive(Clone, Copy, Debug, PartialEq, Eq, Structural)]
pub enum TableError {
    /// The text is no JSON document.
    Syntax,
    /// The document is no object with the two tables `unprefixed` and
    /// `cbprefixed`, each an object.
    MissingTable,
    /// The entry of this opcode, of the table behind the escape byte where
    /// the flag is set, is malformed. It is the first such entry, the
    /// plain table taken first.
    MalformedEntry(bool, u8),
}

} // verus!
