//! What holds of every instruction cycle: the flags an instruction
//! proposes depend on its catalogue entry alone, a cycle that succeeds has
//! done to each flag what the entry declares, and the standard catalogue
//! declares for each instruction what the engine does.

use vstd::prelude::*;
use crate::bus::{bus_read, Machine};
use crate::error::CpuError;
use crate::opcodes::{
    direct, effects, keep, op1, standard_entry, FlagEffect, FlagEffects, Mnemonic,
    OpcodeDescriptor, OpcodeTable, OperandName, Operands,
};
use crate::param::{MemValue, Params};
use crate::registers::{lemma_flag_write_then_read, Flag, Registers};
use crate::semantics::{
    add_outcome, and_outcome, bit_outcome, call_outcome, commit_flag, commit_flags, cp_outcome,
    dec_outcome, decode, execute, fetch, fetch_reads, flags_honoured, following, gate, implemented,
    inc_outcome, jp_outcome, jr_outcome, ld_outcome, ldh_outcome, next_pc, no_flags, no_writes,
    one_read, or_outcome, plan, plan_reads, pop_outcome, push_outcome, relative_target, ret_outcome,
    rl_outcome, rla_outcome, rr_outcome, rra_outcome, rst_outcome, srl_outcome, step, sub_outcome,
    xor_outcome, FlagProposal, MemoryReads, Outcome,
};

verus! {

/// The declared effect on one flag.
pub open spec fn effect_on(effects: FlagEffects, flag: Flag) -> FlagEffect {
    match flag {
        Flag::Zero => effects.zero,
        Flag::Sub => effects.sub,
        Flag::HalfCarry => effects.half_carry,
        Flag::Carry => effects.carry,
    }
}

/// What is proposed for one flag.
pub open spec fn proposed_for(proposal: FlagProposal, flag: Flag) -> Option<bool> {
    match flag {
        Flag::Zero => proposal.zero,
        Flag::Sub => proposal.sub,
        Flag::HalfCarry => proposal.half_carry,
        Flag::Carry => proposal.carry,
    }
}

/// What the engine does to the flags when it executes an entry, as far as
/// the entry alone decides it: which flags it leaves alone, which it
/// forces, and which take a value that depends on the data. Increment and
/// decrement leave every flag alone on a register pair; every other
/// instruction does the same to the flags on each of its operands.
pub open spec fn engine_effects(descriptor: OpcodeDescriptor) -> FlagEffects {
    let c = FlagEffect::Computed;
    let off = FlagEffect::ForcedOff;
    let on = FlagEffect::ForcedOn;
    let u = FlagEffect::Unaffected;
    match descriptor.mnemonic {
        Mnemonic::CP | Mnemonic::SUB => effects(c, on, c, c),
        Mnemonic::ADD => effects(c, off, c, c),
        Mnemonic::AND => effects(c, off, on, off),
        Mnemonic::OR | Mnemonic::XOR => effects(c, off, off, off),
        Mnemonic::BIT => effects(c, off, on, u),
        Mnemonic::RL | Mnemonic::RR | Mnemonic::SRL => effects(c, off, off, c),
        Mnemonic::RLA | Mnemonic::RRA => effects(off, off, off, c),
        Mnemonic::INC => if counts_word(descriptor.operands) {
            keep()
        } else {
            effects(c, off, c, u)
        },
        Mnemonic::DEC => if counts_word(descriptor.operands) {
            keep()
        } else {
            effects(c, on, c, u)
        },
        _ => keep(),
    }
}

/// Whether an increment or decrement with these operands works on a
/// register pair rather than on a byte.
pub open spec fn counts_word(operands: Operands) -> bool {
    match operands {
        Operands::One(target) => target.immediate && target.name.register() is None,
        _ => false,
    }
}

/// Whether a declared effect admits everything that an effect of the
/// engine can propose: the same effect does, and a flag declared as
/// computed admits a forced value too.
pub open spec fn effect_admits(declared: FlagEffect, actual: FlagEffect) -> bool {
    declared == actual || (declared == FlagEffect::Computed && actual != FlagEffect::Unaffected)
}

/// Whether the effects an entry declares admit what the engine does when
/// it executes the entry.
pub open spec fn declares_engine_effects(descriptor: OpcodeDescriptor) -> bool {
    let actual = engine_effects(descriptor);
    &&& effect_admits(descriptor.flags.zero, actual.zero)
    &&& effect_admits(descriptor.flags.sub, actual.sub)
    &&& effect_admits(descriptor.flags.half_carry, actual.half_carry)
    &&& effect_admits(descriptor.flags.carry, actual.carry)
}

/// The one entry of the standard catalogue that declares effects which
/// the engine does not have: popping into AF is declared to compute every
/// flag, and the engine, which loads F as a register, proposes none.
pub open spec fn pop_flags_entry() -> OpcodeDescriptor {
    op1(
        Mnemonic::POP,
        1,
        direct(OperandName::AF),
        effects(
            FlagEffect::Computed,
            FlagEffect::Computed,
            FlagEffect::Computed,
            FlagEffect::Computed,
        ),
    )
}

/// Whether the engine executes this form of an instruction at all: its
/// mnemonic is one the engine knows, a load has two operands, and an
/// addition has the accumulator as its target.
pub open spec fn executable_form(descriptor: OpcodeDescriptor) -> bool {
    &&& implemented(descriptor.mnemonic)
    &&& descriptor.mnemonic == Mnemonic::LD ==> descriptor.operands is Two
    &&& descriptor.mnemonic == Mnemonic::ADD ==> (descriptor.operands matches Operands::Two(
        target,
        _,
    ) && target.name == OperandName::A)
}

/// Whether parameters are the decoded form of these operands: as many,
/// each with its operand.
pub open spec fn decoded_from(params: Params, operands: Operands) -> bool {
    match (params, operands) {
        (Params::Empty, Operands::Empty) => true,
        (Params::One(pa), Operands::One(a)) => pa.operand == a,
        (Params::Two(pa, pb), Operands::Two(a, b)) => pa.operand == a && pb.operand == b,
        (Params::Three(pa, pb, pc), Operands::Three(a, b, c)) => pa.operand == a && pb.operand
            == b && pc.operand == c,
        _ => false,
    }
}

/// Whether a plan is what `engine_effects` says of its entry: where it
/// succeeds the entry has an executable form and the flags proposed are
/// the engine's effects; where it fails, it fails with an error of its own.
pub open spec fn as_engine_effects(
    descriptor: OpcodeDescriptor,
    planned: Result<Outcome, CpuError>,
) -> bool {
    match planned {
        Ok(outcome) => executable_form(descriptor) && flags_honoured(
            engine_effects(descriptor),
            outcome.flags,
        ),
        Err(e) => e != CpuError::FlagContractViolation && e != CpuError::UnknownOpcode,
    }
}

/// Decoding fails only on an operand that lies beyond the address space,
/// and what it gives is the decoded form of the operands.
pub proof fn lemma_decode(memory: Seq<u8>, pc: u16, operands: Operands)
    ensures
        match decode(memory, pc, operands) {
            Ok(params) => decoded_from(params, operands),
            Err(e) => e == CpuError::OutOfRangeAddress,
        },
{
}

proof fn lemma_jp_proposal(
    descriptor: OpcodeDescriptor,
    regs: Registers,
    memory: Seq<u8>,
    params: Params,
)
    requires
        descriptor.mnemonic == Mnemonic::JP,
        decoded_from(params, descriptor.operands),
    ensures
        as_engine_effects(descriptor, jp_outcome(regs, params)),
{
}

proof fn lemma_jr_proposal(
    descriptor: OpcodeDescriptor,
    regs: Registers,
    memory: Seq<u8>,
    params: Params,
)
    requires
        descriptor.mnemonic == Mnemonic::JR,
        decoded_from(params, descriptor.operands),
    ensures
        as_engine_effects(descriptor, jr_outcome(regs, params)),
{
}

proof fn lemma_call_proposal(
    descriptor: OpcodeDescriptor,
    regs: Registers,
    memory: Seq<u8>,
    params: Params,
)
    requires
        descriptor.mnemonic == Mnemonic::CALL,
        decoded_from(params, descriptor.operands),
    ensures
        as_engine_effects(descriptor, call_outcome(regs, descriptor.bytes, params)),
{
}

proof fn lemma_ret_proposal(
    descriptor: OpcodeDescriptor,
    regs: Registers,
    memory: Seq<u8>,
    params: Params,
)
    requires
        descriptor.mnemonic == Mnemonic::RET,
        decoded_from(params, descriptor.operands),
    ensures
        as_engine_effects(descriptor, ret_outcome(regs, memory, params)),
{
}

proof fn lemma_rst_proposal(
    descriptor: OpcodeDescriptor,
    regs: Registers,
    memory: Seq<u8>,
    params: Params,
)
    requires
        descriptor.mnemonic == Mnemonic::RST,
        decoded_from(params, descriptor.operands),
    ensures
        as_engine_effects(descriptor, rst_outcome(regs, params)),
{
}

proof fn lemma_push_proposal(
    descriptor: OpcodeDescriptor,
    regs: Registers,
    memory: Seq<u8>,
    params: Params,
)
    requires
        descriptor.mnemonic == Mnemonic::PUSH,
        decoded_from(params, descriptor.operands),
    ensures
        as_engine_effects(descriptor, push_outcome(regs, params)),
{
}

proof fn lemma_pop_proposal(
    descriptor: OpcodeDescriptor,
    regs: Registers,
    memory: Seq<u8>,
    params: Params,
)
    requires
        descriptor.mnemonic == Mnemonic::POP,
        decoded_from(params, descriptor.operands),
    ensures
        as_engine_effects(descriptor, pop_outcome(regs, memory, params)),
{
}

proof fn lemma_ld_proposal(
    descriptor: OpcodeDescriptor,
    regs: Registers,
    memory: Seq<u8>,
    params: Params,
)
    requires
        descriptor.mnemonic == Mnemonic::LD,
        decoded_from(params, descriptor.operands),
    ensures
        as_engine_effects(descriptor, ld_outcome(regs, memory, params)),
{
}

proof fn lemma_ldh_proposal(
    descriptor: OpcodeDescriptor,
    regs: Registers,
    memory: Seq<u8>,
    params: Params,
)
    requires
        descriptor.mnemonic == Mnemonic::LDH,
        decoded_from(params, descriptor.operands),
    ensures
        as_engine_effects(descriptor, ldh_outcome(regs, memory, params)),
{
}

proof fn lemma_cp_proposal(
    descriptor: OpcodeDescriptor,
    regs: Registers,
    memory: Seq<u8>,
    params: Params,
)
    requires
        descriptor.mnemonic == Mnemonic::CP,
        decoded_from(params, descriptor.operands),
    ensures
        as_engine_effects(descriptor, cp_outcome(regs, memory, params)),
{
}

proof fn lemma_sub_proposal(
    descriptor: OpcodeDescriptor,
    regs: Registers,
    memory: Seq<u8>,
    params: Params,
)
    requires
        descriptor.mnemonic == Mnemonic::SUB,
        decoded_from(params, descriptor.operands),
    ensures
        as_engine_effects(descriptor, sub_outcome(regs, memory, params)),
{
}

proof fn lemma_add_proposal(
    descriptor: OpcodeDescriptor,
    regs: Registers,
    memory: Seq<u8>,
    params: Params,
)
    requires
        descriptor.mnemonic == Mnemonic::ADD,
        decoded_from(params, descriptor.operands),
    ensures
        as_engine_effects(descriptor, add_outcome(regs, memory, params)),
{
}

proof fn lemma_and_proposal(
    descriptor: OpcodeDescriptor,
    regs: Registers,
    memory: Seq<u8>,
    params: Params,
)
    requires
        descriptor.mnemonic == Mnemonic::AND,
        decoded_from(params, descriptor.operands),
    ensures
        as_engine_effects(descriptor, and_outcome(regs, memory, params)),
{
}

proof fn lemma_or_proposal(
    descriptor: OpcodeDescriptor,
    regs: Registers,
    memory: Seq<u8>,
    params: Params,
)
    requires
        descriptor.mnemonic == Mnemonic::OR,
        decoded_from(params, descriptor.operands),
    ensures
        as_engine_effects(descriptor, or_outcome(regs, memory, params)),
{
}

proof fn lemma_xor_proposal(
    descriptor: OpcodeDescriptor,
    regs: Registers,
    memory: Seq<u8>,
    params: Params,
)
    requires
        descriptor.mnemonic == Mnemonic::XOR,
        decoded_from(params, descriptor.operands),
    ensures
        as_engine_effects(descriptor, xor_outcome(regs, memory, params)),
{
}

proof fn lemma_inc_proposal(
    descriptor: OpcodeDescriptor,
    regs: Registers,
    memory: Seq<u8>,
    params: Params,
)
    requires
        descriptor.mnemonic == Mnemonic::INC,
        decoded_from(params, descriptor.operands),
    ensures
        as_engine_effects(descriptor, inc_outcome(regs, memory, params)),
{
}

proof fn lemma_dec_proposal(
    descriptor: OpcodeDescriptor,
    regs: Registers,
    memory: Seq<u8>,
    params: Params,
)
    requires
        descriptor.mnemonic == Mnemonic::DEC,
        decoded_from(params, descriptor.operands),
    ensures
        as_engine_effects(descriptor, dec_outcome(regs, memory, params)),
{
}

proof fn lemma_bit_proposal(
    descriptor: OpcodeDescriptor,
    regs: Registers,
    memory: Seq<u8>,
    params: Params,
)
    requires
        descriptor.mnemonic == Mnemonic::BIT,
        decoded_from(params, descriptor.operands),
    ensures
        as_engine_effects(descriptor, bit_outcome(regs, memory, params)),
{
}

proof fn lemma_rl_proposal(
    descriptor: OpcodeDescriptor,
    regs: Registers,
    memory: Seq<u8>,
    params: Params,
)
    requires
        descriptor.mnemonic == Mnemonic::RL,
        decoded_from(params, descriptor.operands),
    ensures
        as_engine_effects(descriptor, rl_outcome(regs, memory, params)),
{
}

proof fn lemma_rr_proposal(
    descriptor: OpcodeDescriptor,
    regs: Registers,
    memory: Seq<u8>,
    params: Params,
)
    requires
        descriptor.mnemonic == Mnemonic::RR,
        decoded_from(params, descriptor.operands),
    ensures
        as_engine_effects(descriptor, rr_outcome(regs, memory, params)),
{
}

proof fn lemma_rla_proposal(
    descriptor: OpcodeDescriptor,
    regs: Registers,
    memory: Seq<u8>,
    params: Params,
)
    requires
        descriptor.mnemonic == Mnemonic::RLA,
        decoded_from(params, descriptor.operands),
    ensures
        as_engine_effects(descriptor, rla_outcome(regs, params)),
{
}

proof fn lemma_rra_proposal(
    descriptor: OpcodeDescriptor,
    regs: Registers,
    memory: Seq<u8>,
    params: Params,
)
    requires
        descriptor.mnemonic == Mnemonic::RRA,
        decoded_from(params, descriptor.operands),
    ensures
        as_engine_effects(descriptor, rra_outcome(regs, params)),
{
}

proof fn lemma_srl_proposal(
    descriptor: OpcodeDescriptor,
    regs: Registers,
    memory: Seq<u8>,
    params: Params,
)
    requires
        descriptor.mnemonic == Mnemonic::SRL,
        decoded_from(params, descriptor.operands),
    ensures
        as_engine_effects(descriptor, srl_outcome(regs, memory, params)),
{
}

/// Whatever the registers and the memory hold, a plan that succeeds
/// proposes the flags of `engine_effects`, and a plan that fails does not
/// fail with an error of the fetch or of the flag check.
pub proof fn lemma_plan_proposes_engine_effects(
    descriptor: OpcodeDescriptor,
    regs: Registers,
    memory: Seq<u8>,
    params: Params,
)
    requires
        decoded_from(params, descriptor.operands),
    ensures
        as_engine_effects(descriptor, plan(descriptor, regs, memory, params)),
{
    match descriptor.mnemonic {
        Mnemonic::JP => {
            lemma_jp_proposal(descriptor, regs, memory, params);
        },
        Mnemonic::JR => {
            lemma_jr_proposal(descriptor, regs, memory, params);
        },
        Mnemonic::CALL => {
            lemma_call_proposal(descriptor, regs, memory, params);
        },
        Mnemonic::RET => {
            lemma_ret_proposal(descriptor, regs, memory, params);
        },
        Mnemonic::RST => {
            lemma_rst_proposal(descriptor, regs, memory, params);
        },
        Mnemonic::PUSH => {
            lemma_push_proposal(descriptor, regs, memory, params);
        },
        Mnemonic::POP => {
            lemma_pop_proposal(descriptor, regs, memory, params);
        },
        Mnemonic::LD => {
            lemma_ld_proposal(descriptor, regs, memory, params);
        },
        Mnemonic::LDH => {
            lemma_ldh_proposal(descriptor, regs, memory, params);
        },
        Mnemonic::CP => {
            lemma_cp_proposal(descriptor, regs, memory, params);
        },
        Mnemonic::SUB => {
            lemma_sub_proposal(descriptor, regs, memory, params);
        },
        Mnemonic::ADD => {
            lemma_add_proposal(descriptor, regs, memory, params);
        },
        Mnemonic::AND => {
            lemma_and_proposal(descriptor, regs, memory, params);
        },
        Mnemonic::OR => {
            lemma_or_proposal(descriptor, regs, memory, params);
        },
        Mnemonic::XOR => {
            lemma_xor_proposal(descriptor, regs, memory, params);
        },
        Mnemonic::INC => {
            lemma_inc_proposal(descriptor, regs, memory, params);
        },
        Mnemonic::DEC => {
            lemma_dec_proposal(descriptor, regs, memory, params);
        },
        Mnemonic::BIT => {
            lemma_bit_proposal(descriptor, regs, memory, params);
        },
        Mnemonic::RL => {
            lemma_rl_proposal(descriptor, regs, memory, params);
        },
        Mnemonic::RR => {
            lemma_rr_proposal(descriptor, regs, memory, params);
        },
        Mnemonic::RLA => {
            lemma_rla_proposal(descriptor, regs, memory, params);
        },
        Mnemonic::RRA => {
            lemma_rra_proposal(descriptor, regs, memory, params);
        },
        Mnemonic::SRL => {
            lemma_srl_proposal(descriptor, regs, memory, params);
        },
        _ => {},
    }
}

/// Where an entry, if it has an executable form, declares effects that
/// admit the engine's, executing it never fails the flag check.
pub proof fn lemma_declared_effects_pass(descriptor: OpcodeDescriptor, m: Machine)
    requires
        executable_form(descriptor) ==> declares_engine_effects(descriptor),
    ensures
        execute(descriptor, m) != Err::<Machine, CpuError>(CpuError::FlagContractViolation),
{
    lemma_decode(m.memory, m.regs.pc, descriptor.operands);
    match decode(m.memory, m.regs.pc, descriptor.operands) {
        Ok(params) => {
            lemma_plan_proposes_engine_effects(descriptor, m.regs, m.memory, params);
        },
        Err(e) => {},
    }
}

/// Every entry of the standard catalogue that has an executable form,
/// but the pop into AF, declares effects that admit the engine's.
pub proof fn lemma_standard_entries_declare_engine_effects(prefixed: bool, byte: u8)
    requires
        standard_entry(prefixed, byte) is Some,
        standard_entry(prefixed, byte) != Some(pop_flags_entry()),
        executable_form(standard_entry(prefixed, byte)->Some_0),
    ensures
        declares_engine_effects(standard_entry(prefixed, byte)->Some_0),
{
}

/// With the standard catalogue no instruction cycle fails the flag check,
/// whatever the registers and the memory hold, unless the instruction
/// fetched is the pop into AF and the stack can be popped.
pub proof fn lemma_standard_catalogue_keeps_flag_contract(table: OpcodeTable, m: Machine)
    requires
        table.is_standard(),
        fetch(table, m.memory, m.regs.pc) == Ok::<OpcodeDescriptor, CpuError>(pop_flags_entry())
            ==> m.regs.sp > 0xFFFD,
    ensures
        step(table, m) != Err::<Machine, CpuError>(CpuError::FlagContractViolation),
{
    match fetch(table, m.memory, m.regs.pc) {
        Ok(descriptor) => if descriptor != pop_flags_entry() {
            assert(exists|prefixed: bool, byte: u8|
                table.entry(prefixed, byte) == Some(descriptor));
            let (prefixed, byte) = choose|prefixed: bool, byte: u8|
                table.entry(prefixed, byte) == Some(descriptor);
            assert(standard_entry(prefixed, byte) == Some(descriptor));
            if executable_form(descriptor) {
                lemma_standard_entries_declare_engine_effects(prefixed, byte);
            }
            lemma_declared_effects_pass(descriptor, m);
        } else {
            lemma_pop_flags_fails(m);
        },
        Err(e) => {},
    }
}

/// The pop into AF of the standard catalogue never passes the flag check:
/// where the stack can be popped it fails with a flag contract violation,
/// and where it cannot, with an address out of range.
pub proof fn lemma_pop_flags_fails(m: Machine)
    ensures
        execute(pop_flags_entry(), m) == Err::<Machine, CpuError>(
            if m.regs.sp <= 0xFFFD {
                CpuError::FlagContractViolation
            } else {
                CpuError::OutOfRangeAddress
            },
        ),
{
}

/// Committing a proposal gives each flag the value proposed for it and
/// leaves a flag for which nothing is proposed as it was.
pub proof fn lemma_commit_flags(regs: Registers, proposal: FlagProposal, flag: Flag)
    ensures
        commit_flags(regs, proposal).flag(flag) == match proposed_for(proposal, flag) {
            Some(value) => value,
            None => regs.flag(flag),
        },
        commit_flags(regs, proposal).pc == regs.pc,
        commit_flags(regs, proposal).sp == regs.sp,
{
    let r1 = commit_flag(regs, Flag::Zero, proposal.zero);
    let r2 = commit_flag(r1, Flag::Sub, proposal.sub);
    let r3 = commit_flag(r2, Flag::HalfCarry, proposal.half_carry);
    if proposal.zero is Some {
        lemma_flag_write_then_read(regs, Flag::Zero, proposal.zero->Some_0);
    }
    if proposal.sub is Some {
        lemma_flag_write_then_read(r1, Flag::Sub, proposal.sub->Some_0);
    }
    if proposal.half_carry is Some {
        lemma_flag_write_then_read(r2, Flag::HalfCarry, proposal.half_carry->Some_0);
    }
    if proposal.carry is Some {
        lemma_flag_write_then_read(r3, Flag::Carry, proposal.carry->Some_0);
    }
}

/// An instruction that has been executed has done to each flag what its
/// entry declares: a flag forced off is clear, a flag forced on is set,
/// and an unaffected flag has the value that the instruction's own
/// register moves left in F, which is the value it had before wherever
/// the instruction has not loaded F.
pub proof fn lemma_executed_flags_are_as_declared(
    descriptor: OpcodeDescriptor,
    m: Machine,
    flag: Flag,
)
    requires
        execute(descriptor, m) is Ok,
    ensures
        ({
            let after = execute(descriptor, m)->Ok_0;
            let params = decode(m.memory, m.regs.pc, descriptor.operands)->Ok_0;
            let planned = plan(descriptor, m.regs, m.memory, params)->Ok_0;
            match effect_on(descriptor.flags, flag) {
                FlagEffect::ForcedOff => !after.regs.flag(flag),
                FlagEffect::ForcedOn => after.regs.flag(flag),
                FlagEffect::Unaffected => after.regs.flag(flag) == planned.regs.flag(flag) && (
                planned.regs.f == m.regs.f ==> after.regs.flag(flag) == m.regs.flag(flag)),
                FlagEffect::Computed => true,
            }
        }),
{
    let params = decode(m.memory, m.regs.pc, descriptor.operands)->Ok_0;
    let planned = plan(descriptor, m.regs, m.memory, params)->Ok_0;
    let pc = next_pc(planned, descriptor.bytes)->Ok_0;
    lemma_commit_flags(Registers { pc, ..planned.regs }, planned.flags, flag);
}

/// A cycle that succeeds leaves the machine well-formed: the primary
/// store keeps its size and the display its frame.
pub proof fn lemma_step_keeps_machine_well_formed(table: OpcodeTable, m: Machine)
    requires
        m.wf(),
        step(table, m) is Ok,
    ensures
        step(table, m)->Ok_0.wf(),
        step(table, m)->Ok_0.memory.len() == m.memory.len(),
        step(table, m)->Ok_0.display.frame == m.display.frame,
{
}

/// Whether two stores read the same through the bus at the addresses given.
pub open spec fn agree_on(one: Seq<u8>, other: Seq<u8>, reads: MemoryReads) -> bool {
    &&& reads.first matches Some(addr) ==> bus_read(one, addr) == bus_read(other, addr)
    &&& reads.second matches Some(addr) ==> bus_read(one, addr) == bus_read(other, addr)
}

/// The plan of an instruction reads no cell but those that `plan_reads`
/// names, which are the ones recorded: two stores that read the same at
/// those addresses give the same plan.
pub proof fn lemma_plan_reads_what_is_recorded(
    descriptor: OpcodeDescriptor,
    regs: Registers,
    one: Seq<u8>,
    other: Seq<u8>,
    params: Params,
)
    requires
        agree_on(one, other, plan_reads(descriptor, regs, params)),
    ensures
        plan(descriptor, regs, one, params) == plan(descriptor, regs, other, params),
{
    match descriptor.mnemonic {
        Mnemonic::RET => {
            assert(ret_outcome(regs, one, params) == ret_outcome(regs, other, params));
        },
        Mnemonic::POP => {
            assert(pop_outcome(regs, one, params) == pop_outcome(regs, other, params));
        },
        Mnemonic::LD => {
            assert(ld_outcome(regs, one, params) == ld_outcome(regs, other, params));
        },
        Mnemonic::LDH => {
            assert(ldh_outcome(regs, one, params) == ldh_outcome(regs, other, params));
        },
        Mnemonic::CP => {
            assert(cp_outcome(regs, one, params) == cp_outcome(regs, other, params));
        },
        Mnemonic::SUB => {
            assert(sub_outcome(regs, one, params) == sub_outcome(regs, other, params));
        },
        Mnemonic::ADD => {
            assert(add_outcome(regs, one, params) == add_outcome(regs, other, params));
        },
        Mnemonic::AND => {
            assert(and_outcome(regs, one, params) == and_outcome(regs, other, params));
        },
        Mnemonic::OR => {
            assert(or_outcome(regs, one, params) == or_outcome(regs, other, params));
        },
        Mnemonic::XOR => {
            assert(xor_outcome(regs, one, params) == xor_outcome(regs, other, params));
        },
        Mnemonic::INC => {
            assert(inc_outcome(regs, one, params) == inc_outcome(regs, other, params));
        },
        Mnemonic::DEC => {
            assert(dec_outcome(regs, one, params) == dec_outcome(regs, other, params));
        },
        Mnemonic::BIT => {
            assert(bit_outcome(regs, one, params) == bit_outcome(regs, other, params));
        },
        Mnemonic::RL => {
            assert(rl_outcome(regs, one, params) == rl_outcome(regs, other, params));
        },
        Mnemonic::RR => {
            assert(rr_outcome(regs, one, params) == rr_outcome(regs, other, params));
        },
        Mnemonic::SRL => {
            assert(srl_outcome(regs, one, params) == srl_outcome(regs, other, params));
        },
        _ => {},
    }
}

/// The fetch and the decoding read no cell but those that `fetch_reads`
/// and `operand_reads` name.
pub proof fn lemma_fetch_and_decode_read_what_is_recorded(
    table: OpcodeTable,
    one: Seq<u8>,
    other: Seq<u8>,
    pc: u16,
    operands: Operands,
)
    requires
        agree_on(one, other, fetch_reads(one, pc)),
        agree_on(one, other, one_read(following(pc))),
        agree_on(one, other, one_read(following(following(pc)))),
    ensures
        fetch(table, one, pc) == fetch(table, other, pc),
        fetch_reads(one, pc) == fetch_reads(other, pc),
        decode(one, pc, operands) == decode(other, pc, operands),
{
}

/// A relative jump changes the program counter and, of the rest of the
/// machine, nothing but the record of suspicious accesses. Taken, it sets
/// the program counter to the sum, modulo 65536, of the offset and the
/// program counter as it stood before the instruction, and adds no
/// length; untaken, it adds the instruction's length.
pub proof fn lemma_relative_jump(descriptor: OpcodeDescriptor, m: Machine)
    requires
        descriptor.mnemonic == Mnemonic::JR,
        execute(descriptor, m) is Ok,
    ensures
        ({
            let after = execute(descriptor, m)->Ok_0;
            let params = decode(m.memory, m.regs.pc, descriptor.operands)->Ok_0;
            &&& after.memory == m.memory
            &&& after.display == m.display
            &&& after.regs == (Registers { pc: after.regs.pc, ..m.regs })
            &&& match params {
                Params::One(offset) => offset.value matches MemValue::SignedByte(o) && after.regs.pc
                    == relative_target(m.regs.pc, o),
                Params::Two(cond, offset) => if gate(m.regs, cond) == Ok::<bool, CpuError>(true) {
                    offset.value matches MemValue::SignedByte(o) && after.regs.pc
                        == relative_target(m.regs.pc, o)
                } else {
                    after.regs.pc == m.regs.pc + descriptor.bytes
                },
                _ => false,
            }
        }),
{
    let params = decode(m.memory, m.regs.pc, descriptor.operands)->Ok_0;
    assert(plan(descriptor, m.regs, m.memory, params) == jr_outcome(m.regs, params));
    let planned = jr_outcome(m.regs, params)->Ok_0;
    assert(planned.flags == no_flags());
    assert(planned.writes == no_writes());
    assert(planned.regs == (Registers { pc: planned.regs.pc, ..m.regs }));
    assert(descriptor.flags == keep());
    let pc = next_pc(planned, descriptor.bytes)->Ok_0;
    lemma_commit_flags(Registers { pc, ..planned.regs }, planned.flags, Flag::Zero);
    assert(commit_flags(Registers { pc, ..planned.regs }, planned.flags) == (Registers {
        pc,
        ..planned.regs
    }));
}

} // verus!
