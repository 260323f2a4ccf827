//! The operations behind the prefix `CB`, one machine cycle at a time.
//!
//! A register form takes the one cycle in which its opcode is fetched. A
//! `(HL)` form does nothing in that cycle, reads the byte in the next and,
//! unless it is `BIT`, writes the result in a third.

// * RLC & RRC
// ? Opcode | Carry | Bit 0
// ? RLC    | Bit 7 | Bit 7
// ? RL     | Bit 7 | Carry
// ? SL/SLA | Bit 7 | 0
// ? Opcode | Carry | Bit 7
// ? RRC    | Bit 0 | Bit 0
// ? RR     | Bit 0 | Carry
// ? SR/SRL | Bit 0 | 0
// ? CB SRA | Bit 0 | Bit 7
use vstd::prelude::*;
use crate::gb::bus::Bus;
use crate::gb::cpu::{bit8, bit_mask, mask_of_bit, rot8, rotate, AluResult, RotOp};
use crate::gb::emu::GameboyEmulator;
use crate::gb::utils::{get_bit, set_bit, with_bit, Flag, Register, RegisterPair};
use super::instructions::{InstructionStep, Latch};
use super::operations::{apply_alu, done, next, set_r8, Outcome};

verus! {

/// A rotate or shift of a register: Z from the result, N and H clear, C
/// the bit moved out.
pub open spec fn rot_r8(emu: GameboyEmulator, op: RotOp, r8: Register) -> Outcome {
    done(apply_alu(emu, r8, rot8(op, emu.cpu.register(r8), emu.cpu.flag(Flag::C))))
}

/// A rotate or shift of the byte at `r16`.
pub open spec fn rot_r16(emu: GameboyEmulator, op: RotOp, r16: RegisterPair, k: Latch) -> Outcome {
    if k.stage == 0 {
        next(1, 0, 0, emu)
    } else if k.stage == 1 {
        next(2, Bus::read_spec(emu, emu.cpu.pair(r16)), 0, emu)
    } else {
        let r = rot8(op, k.lo, emu.cpu.flag(Flag::C));
        let written = Bus::write_spec(emu, emu.cpu.pair(r16), r.value);
        done(written.with_cpu(written.cpu.with_result_flags(r)))
    }
}

/// `BIT b, r8`: Z is set when the bit is clear, N is cleared, H is set, C
/// stays.
pub open spec fn bit_b_r8(emu: GameboyEmulator, b: u8, r8: Register) -> Outcome {
    done(
        emu.with_cpu(
            emu.cpu.with_result_flags(bit8(b, emu.cpu.register(r8), emu.cpu.flag(Flag::C))),
        ),
    )
}

/// `BIT b, (r16)`.
pub open spec fn bit_b_r16(emu: GameboyEmulator, b: u8, r16: RegisterPair, k: Latch) -> Outcome {
    if k.stage == 0 {
        next(1, 0, 0, emu)
    } else {
        done(
            emu.with_cpu(
                emu.cpu.with_result_flags(
                    bit8(b, Bus::read_spec(emu, emu.cpu.pair(r16)), emu.cpu.flag(Flag::C)),
                ),
            ),
        )
    }
}

/// `RES b, r8` (`state` clear) and `SET b, r8` (`state` set): no flag
/// changes.
pub open spec fn put_b_r8(emu: GameboyEmulator, b: u8, r8: Register, state: bool) -> Outcome {
    done(set_r8(emu, r8, with_bit(emu.cpu.register(r8), bit_mask(b), state)))
}

/// `RES b, (r16)` and `SET b, (r16)`.
pub open spec fn put_b_r16(emu: GameboyEmulator, b: u8, r16: RegisterPair, state: bool, k: Latch) -> Outcome {
    if k.stage == 0 {
        next(1, 0, 0, emu)
    } else if k.stage == 1 {
        next(2, Bus::read_spec(emu, emu.cpu.pair(r16)), 0, emu)
    } else {
        done(Bus::write_spec(emu, emu.cpu.pair(r16), with_bit(k.lo, bit_mask(b), state)))
    }
}

/// Runs the rotate or shift `op` on register `r8`.
fn rotate_register(emu: &mut GameboyEmulator, op: RotOp, r8: Register) -> (step: InstructionStep)
    ensures
        (step, *final(emu)) == rot_r8(*old(emu), op, r8),
{
    let r = rotate(op, emu.cpu.get_register(r8), emu.cpu.get_flag(Flag::C));
    emu.cpu.set_result_flags(r);
    emu.cpu.set_register(r8, r.value);
    InstructionStep::Complete
}

/// Runs one cycle of the rotate or shift `op` on the byte at `r16`.
fn rotate_indirect(emu: &mut GameboyEmulator, op: RotOp, r16: RegisterPair, k: Latch) -> (step:
    InstructionStep)
    ensures
        (step, *final(emu)) == rot_r16(*old(emu), op, r16, k),
{
    // ? One bus read or write per m-cycle.
    if k.stage == 0 {
        InstructionStep::new(1, 0, 0)
    } else if k.stage == 1 {
        let v = emu.read_r16(r16);
        InstructionStep::new(2, v, 0)
    } else {
        let r = rotate(op, k.lo, emu.cpu.get_flag(Flag::C));
        emu.write_r16(r16, r.value);
        emu.cpu.set_result_flags(r);
        InstructionStep::Complete
    }
}

/// Rotate register `r8` left, setting the carry flag to the previous bit 7.
pub fn RLC_r8(emu: &mut GameboyEmulator, r8: Register) -> (step: InstructionStep)
    ensures
        (step, *final(emu)) == rot_r8(*old(emu), RotOp::Rlc, r8),
{
    rotate_register(emu, RotOp::Rlc, r8)
}

/// Rotate register `r8` right, setting the carry flag to the previous bit 0.
pub fn RRC_r8(emu: &mut GameboyEmulator, r8: Register) -> (step: InstructionStep)
    ensures
        (step, *final(emu)) == rot_r8(*old(emu), RotOp::Rrc, r8),
{
    rotate_register(emu, RotOp::Rrc, r8)
}

/// Rotate the value at `r16` left, setting the carry flag to the previous bit 7.
pub fn RLC_r16(emu: &mut GameboyEmulator, r16: RegisterPair, k: Latch) -> (step: InstructionStep)
    ensures
        (step, *final(emu)) == rot_r16(*old(emu), RotOp::Rlc, r16, k),
{
    rotate_indirect(emu, RotOp::Rlc, r16, k)
}

/// Rotate the value at `r16` right, setting the carry flag to the previous bit 0.
pub fn RRC_r16(emu: &mut GameboyEmulator, r16: RegisterPair, k: Latch) -> (step: InstructionStep)
    ensures
        (step, *final(emu)) == rot_r16(*old(emu), RotOp::Rrc, r16, k),
{
    rotate_indirect(emu, RotOp::Rrc, r16, k)
}

// * RL & RR
/// Rotate register `r8` and the carry flag left.
pub fn RL_r8(emu: &mut GameboyEmulator, r8: Register) -> (step: InstructionStep)
    ensures
        (step, *final(emu)) == rot_r8(*old(emu), RotOp::Rl, r8),
{
    rotate_register(emu, RotOp::Rl, r8)
}

/// Rotate register `r8` and the carry flag right.
pub fn RR_r8(emu: &mut GameboyEmulator, r8: Register) -> (step: InstructionStep)
    ensures
        (step, *final(emu)) == rot_r8(*old(emu), RotOp::Rr, r8),
{
    rotate_register(emu, RotOp::Rr, r8)
}

/// Rotate the value at address `r16` and the carry flag left.
pub fn RL_r16(emu: &mut GameboyEmulator, r16: RegisterPair, k: Latch) -> (step: InstructionStep)
    ensures
        (step, *final(emu)) == rot_r16(*old(emu), RotOp::Rl, r16, k),
{
    rotate_indirect(emu, RotOp::Rl, r16, k)
}

/// Rotate the value at address `r16` and the carry flag right.
pub fn RR_r16(emu: &mut GameboyEmulator, r16: RegisterPair, k: Latch) -> (step: InstructionStep)
    ensures
        (step, *final(emu)) == rot_r16(*old(emu), RotOp::Rr, r16, k),
{
    rotate_indirect(emu, RotOp::Rr, r16, k)
}

// * SLA, SRA & SRL
/// Shift register `r8` left arithmetically.
pub fn SLA_r8(emu: &mut GameboyEmulator, r8: Register) -> (step: InstructionStep)
    ensures
        (step, *final(emu)) == rot_r8(*old(emu), RotOp::Sla, r8),
{
    rotate_register(emu, RotOp::Sla, r8)
}

/// Shift register `r8` right arithmetically.
pub fn SRA_r8(emu: &mut GameboyEmulator, r8: Register) -> (step: InstructionStep)
    ensures
        (step, *final(emu)) == rot_r8(*old(emu), RotOp::Sra, r8),
{
    rotate_register(emu, RotOp::Sra, r8)
}

/// Shift register `r8` right logically.
pub fn SRL_r8(emu: &mut GameboyEmulator, r8: Register) -> (step: InstructionStep)
    ensures
        (step, *final(emu)) == rot_r8(*old(emu), RotOp::Srl, r8),
{
    rotate_register(emu, RotOp::Srl, r8)
}

/// Shift the value at address `r16` left arithmetically.
pub fn SLA_r16(emu: &mut GameboyEmulator, r16: RegisterPair, k: Latch) -> (step: InstructionStep)
    ensures
        (step, *final(emu)) == rot_r16(*old(emu), RotOp::Sla, r16, k),
{
    rotate_indirect(emu, RotOp::Sla, r16, k)
}

/// Shift the value at address `r16` right arithmetically.
pub fn SRA_r16(emu: &mut GameboyEmulator, r16: RegisterPair, k: Latch) -> (step: InstructionStep)
    ensures
        (step, *final(emu)) == rot_r16(*old(emu), RotOp::Sra, r16, k),
{
    rotate_indirect(emu, RotOp::Sra, r16, k)
}

/// Shift the value at address `r16` right logically.
pub fn SRL_r16(emu: &mut GameboyEmulator, r16: RegisterPair, k: Latch) -> (step: InstructionStep)
    ensures
        (step, *final(emu)) == rot_r16(*old(emu), RotOp::Srl, r16, k),
{
    rotate_indirect(emu, RotOp::Srl, r16, k)
}

// * SWAP & BIT
/// Swap the upper and lower 4 bits of register `r8`.
pub fn SWAP_r8(emu: &mut GameboyEmulator, r8: Register) -> (step: InstructionStep)
    ensures
        (step, *final(emu)) == rot_r8(*old(emu), RotOp::Swap, r8),
{
    rotate_register(emu, RotOp::Swap, r8)
}

/// Swap the upper and lower 4 bits of the value at address `r16`.
pub fn SWAP_r16(emu: &mut GameboyEmulator, r16: RegisterPair, k: Latch) -> (step: InstructionStep)
    ensures
        (step, *final(emu)) == rot_r16(*old(emu), RotOp::Swap, r16, k),
{
    rotate_indirect(emu, RotOp::Swap, r16, k)
}

/// Set the zero flag if bit `b` of register `r8` is not set.
pub fn BIT_b_r8(emu: &mut GameboyEmulator, b: u8, r8: Register) -> (step: InstructionStep)
    ensures
        (step, *final(emu)) == bit_b_r8(*old(emu), b, r8),
{
    let v = emu.cpu.get_register(r8);
    let c = emu.cpu.get_flag(Flag::C);
    emu.cpu.set_result_flags(
        AluResult { value: v, z: !get_bit(v, mask_of_bit(b)), n: false, h: true, c },
    );
    InstructionStep::Complete
}

/// Set the zero flag if bit `b` of the value at address `r16` is not set.
pub fn BIT_b_r16(emu: &mut GameboyEmulator, b: u8, r16: RegisterPair, k: Latch) -> (step:
    InstructionStep)
    ensures
        (step, *final(emu)) == bit_b_r16(*old(emu), b, r16, k),
{
    // ? One bus read or write per m-cycle.
    if k.stage == 0 {
        InstructionStep::new(1, 0, 0)
    } else {
        let v = emu.read_r16(r16);
        let c = emu.cpu.get_flag(Flag::C);
        emu.cpu.set_result_flags(
            AluResult { value: v, z: !get_bit(v, mask_of_bit(b)), n: false, h: true, c },
        );
        InstructionStep::Complete
    }
}

// * RES & SET
/// Set bit `b` of register `r8` to 0.
pub fn RES_b_r8(emu: &mut GameboyEmulator, b: u8, r8: Register) -> (step: InstructionStep)
    ensures
        (step, *final(emu)) == put_b_r8(*old(emu), b, r8, false),
{
    let mut v = emu.cpu.get_register(r8);
    set_bit(&mut v, mask_of_bit(b), false);
    emu.cpu.set_register(r8, v);
    InstructionStep::Complete
}

/// Set bit `b` of the value at address `r16` to 0.
pub fn RES_b_r16(emu: &mut GameboyEmulator, b: u8, r16: RegisterPair, k: Latch) -> (step:
    InstructionStep)
    ensures
        (step, *final(emu)) == put_b_r16(*old(emu), b, r16, false, k),
{
    // ? One bus read or write per m-cycle.
    if k.stage == 0 {
        InstructionStep::new(1, 0, 0)
    } else if k.stage == 1 {
        let v = emu.read_r16(r16);
        InstructionStep::new(2, v, 0)
    } else {
        let mut v = k.lo;
        set_bit(&mut v, mask_of_bit(b), false);
        emu.write_r16(r16, v);
        InstructionStep::Complete
    }
}

/// Set bit `b` of register `r8` to 1.
pub fn SET_b_r8(emu: &mut GameboyEmulator, b: u8, r8: Register) -> (step: InstructionStep)
    ensures
        (step, *final(emu)) == put_b_r8(*old(emu), b, r8, true),
{
    let mut v = emu.cpu.get_register(r8);
    set_bit(&mut v, mask_of_bit(b), true);
    emu.cpu.set_register(r8, v);
    InstructionStep::Complete
}

/// Set bit `b` of the value at address `r16` to 1.
pub fn SET_b_r16(emu: &mut GameboyEmulator, b: u8, r16: RegisterPair, k: Latch) -> (step:
    InstructionStep)
    ensures
        (step, *final(emu)) == put_b_r16(*old(emu), b, r16, true, k),
{
    // ? One bus read or write per m-cycle.
    if k.stage == 0 {
        InstructionStep::new(1, 0, 0)
    } else if k.stage == 1 {
        let v = emu.read_r16(r16);
        InstructionStep::new(2, v, 0)
    } else {
        let mut v = k.lo;
        set_bit(&mut v, mask_of_bit(b), true);
        emu.write_r16(r16, v);
        InstructionStep::Complete
    }
}

} // verus!
