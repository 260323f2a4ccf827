//! The prefix `CB` and the dispatch of the operation behind it.

use vstd::prelude::*;
use crate::gb::cpu::RotOp;
use crate::gb::emu::GameboyEmulator;
use super::instructions::{running, Instruction, InstructionStep, Latch, Operation};
use super::operations::Outcome;
use super::prefixed_operations::{
    bit_b_r16, bit_b_r8, put_b_r16, put_b_r8, rot_r16, rot_r8, BIT_b_r16, BIT_b_r8, RES_b_r16,
    RES_b_r8, RLC_r16, RLC_r8, RL_r16, RL_r8, RRC_r16, RRC_r8, RR_r16, RR_r8, SET_b_r16, SET_b_r8,
    SLA_r16, SLA_r8, SRA_r16, SRA_r8, SRL_r16, SRL_r8, SWAP_r16, SWAP_r8,
};

verus! {

/// What one step of the prefixed operation `op` leaves behind. Any other
/// operation is finished at once.
pub open spec fn prefixed_step(emu: GameboyEmulator, op: Operation, k: Latch) -> Outcome {
    match op {
        Operation::RotR8(rot, r8) => rot_r8(emu, rot, r8),
        Operation::RotR16(rot, r16) => rot_r16(emu, rot, r16, k),
        Operation::BitBR8(b, r8) => bit_b_r8(emu, b, r8),
        Operation::BitBR16(b, r16) => bit_b_r16(emu, b, r16, k),
        Operation::ResBR8(b, r8) => put_b_r8(emu, b, r8, false),
        Operation::ResBR16(b, r16) => put_b_r16(emu, b, r16, false, k),
        Operation::SetBR8(b, r8) => put_b_r8(emu, b, r8, true),
        Operation::SetBR16(b, r16) => put_b_r16(emu, b, r16, true, k),
        _ => (InstructionStep::Complete, emu),
    }
}

/// What one step of the prefix leaves behind: the instruction that runs
/// from then on, and the emulator. The first cycle is the fetch of `CB`.
/// The second reads the opcode at `PC`; the operation that it selects takes
/// the place of the prefix and runs its first step in that same cycle.
pub open spec fn prefix_n8(emu: GameboyEmulator, k: Latch) -> (Instruction, GameboyEmulator) {
    if k.stage == 0 {
        (Instruction { op: Operation::Prefix, current_step: running(1, 0, 0) }, emu)
    } else {
        let (opcode, after) = emu.read_pc_spec();
        let op = Operation::of_prefixed(opcode);
        let (step, stepped) = prefixed_step(after, op, Latch { stage: 0, lo: 0, hi: 0 });
        (Instruction { op, current_step: step }, stepped)
    }
}

/// Runs one step of the prefixed operation `op`.
pub fn step_prefixed(emu: &mut GameboyEmulator, op: Operation, k: Latch) -> (step: InstructionStep)
    ensures
        (step, *final(emu)) == prefixed_step(*old(emu), op, k),
{
    match op {
        Operation::RotR8(rot, r8) => match rot {
            RotOp::Rlc => RLC_r8(emu, r8),
            RotOp::Rrc => RRC_r8(emu, r8),
            RotOp::Rl => RL_r8(emu, r8),
            RotOp::Rr => RR_r8(emu, r8),
            RotOp::Sla => SLA_r8(emu, r8),
            RotOp::Sra => SRA_r8(emu, r8),
            RotOp::Swap => SWAP_r8(emu, r8),
            RotOp::Srl => SRL_r8(emu, r8),
        },
        Operation::RotR16(rot, r16) => match rot {
            RotOp::Rlc => RLC_r16(emu, r16, k),
            RotOp::Rrc => RRC_r16(emu, r16, k),
            RotOp::Rl => RL_r16(emu, r16, k),
            RotOp::Rr => RR_r16(emu, r16, k),
            RotOp::Sla => SLA_r16(emu, r16, k),
            RotOp::Sra => SRA_r16(emu, r16, k),
            RotOp::Swap => SWAP_r16(emu, r16, k),
            RotOp::Srl => SRL_r16(emu, r16, k),
        },
        Operation::BitBR8(b, r8) => BIT_b_r8(emu, b, r8),
        Operation::BitBR16(b, r16) => BIT_b_r16(emu, b, r16, k),
        Operation::ResBR8(b, r8) => RES_b_r8(emu, b, r8),
        Operation::ResBR16(b, r16) => RES_b_r16(emu, b, r16, k),
        Operation::SetBR8(b, r8) => SET_b_r8(emu, b, r8),
        Operation::SetBR16(b, r16) => SET_b_r16(emu, b, r16, k),
        _ => InstructionStep::Complete,
    }
}

/// Run immediate prefixed operation `n8`.
pub fn PREFIX_n8(emu: &mut GameboyEmulator, k: Latch) -> (instruction: Instruction)
    ensures
        (instruction, *final(emu)) == prefix_n8(*old(emu), k),
{
    if k.stage == 0 {
        Instruction { op: Operation::Prefix, current_step: InstructionStep::new(1, 0, 0) }
    } else {
        let opcode = emu.read_pc();
        let mut instruction = Instruction::from_prefixed(opcode);
        instruction.current_step = step_prefixed(emu, instruction.op, Latch { stage: 0, lo: 0, hi: 0 });
        instruction
    }
}

} // verus!
