//! What whole instructions do: pairs that undo each other, and the
//! interrupt service sequence.

use vstd::prelude::*;
use crate::gb::bus::{bus_ignores_cpu, read_after_write, write_keeps_cpu, Bus};
use crate::gb::cpu::{rot8, swap_twice_is_identity, wrap16, RotOp, CPU};
use crate::gb::emu::GameboyEmulator;
use crate::gb::utils::{
    high_byte, lemma_split_join, low_byte, Flag, InterruptMask, Register, RegisterPair,
};
use super::cycles::run_steps;
use super::instructions::{Instruction, Operation};
use super::operations::{cpl, rot_a_step};
use super::prefixed_operations::rot_r8;

verus! {

/// `PUSH r16` then `POP r16` leaves every register as it was, `SP`
/// included, where the two bytes below `SP` are memory that keeps what is
/// written to it. In between, `SP` is two lower and the pair lies there, low
/// byte first.
pub proof fn push_pop_restores_registers(emu: GameboyEmulator, r16: RegisterPair)
    requires
        r16 != RegisterPair::PC && r16 != RegisterPair::SP,
        emu.cpu.f % 16 == 0,
        Bus::keeps_writes(emu, wrap16(emu.cpu.sp - 1)),
        Bus::keeps_writes(emu, wrap16(emu.cpu.sp - 2)),
    ensures
        run_steps(Instruction::fresh(Operation::PushR16(r16)), emu, 4).0.current_step is Complete,
        run_steps(Instruction::fresh(Operation::PushR16(r16)), emu, 4).1.cpu == (CPU {
            sp: wrap16(emu.cpu.sp - 2),
            ..emu.cpu
        }),
        Bus::read_spec(
            run_steps(Instruction::fresh(Operation::PushR16(r16)), emu, 4).1,
            wrap16(emu.cpu.sp - 2),
        ) == low_byte(emu.cpu.pair(r16)),
        Bus::read_spec(
            run_steps(Instruction::fresh(Operation::PushR16(r16)), emu, 4).1,
            wrap16(emu.cpu.sp - 1),
        ) == high_byte(emu.cpu.pair(r16)),
        run_steps(
            Instruction::fresh(Operation::PopR16(r16)),
            run_steps(Instruction::fresh(Operation::PushR16(r16)), emu, 4).1,
            3,
        ).0.current_step is Complete,
        run_steps(
            Instruction::fresh(Operation::PopR16(r16)),
            run_steps(Instruction::fresh(Operation::PushR16(r16)), emu, 4).1,
            3,
        ).1.cpu == emu.cpu,
{
    reveal_with_fuel(run_steps, 5);
    let value = emu.cpu.pair(r16);
    let upper = wrap16(emu.cpu.sp - 1);
    let lower = wrap16(emu.cpu.sp - 2);
    let cpu1 = CPU { sp: upper, ..emu.cpu };
    let cpu2 = CPU { sp: lower, ..emu.cpu };
    // The two writes of the push.
    let first = Bus::write_spec(emu.with_cpu(cpu1), upper, high_byte(value));
    bus_ignores_cpu(emu, cpu1, upper, high_byte(value));
    write_keeps_cpu(emu, upper, high_byte(value));
    assert(first.cpu == cpu1);
    assert(wrap16(upper - 1) == lower);
    let second = Bus::write_spec(first.with_cpu(cpu2), lower, low_byte(value));
    bus_ignores_cpu(first, cpu2, lower, low_byte(value));
    write_keeps_cpu(first, lower, low_byte(value));
    assert(second.cpu == cpu2);
    let pushed = run_steps(Instruction::fresh(Operation::PushR16(r16)), emu, 4).1;
    assert(pushed == second);
    // What the memory holds after them.
    read_after_write(emu, lower, upper, high_byte(value));
    read_after_write(emu, upper, lower, high_byte(value));
    bus_ignores_cpu(emu, cpu1, lower, 0);
    bus_ignores_cpu(Bus::write_spec(emu, upper, high_byte(value)), cpu1, lower, 0);
    bus_ignores_cpu(Bus::write_spec(emu, upper, high_byte(value)), cpu1, upper, 0);
    read_after_write(first, lower, upper, low_byte(value));
    read_after_write(first, upper, lower, low_byte(value));
    bus_ignores_cpu(Bus::write_spec(emu, upper, high_byte(value)), cpu1, upper, 0);
    bus_ignores_cpu(Bus::write_spec(emu, upper, high_byte(value)), cpu1, lower, 0);
    bus_ignores_cpu(Bus::write_spec(first, lower, low_byte(value)), cpu2, upper, 0);
    bus_ignores_cpu(Bus::write_spec(first, lower, low_byte(value)), cpu2, lower, 0);
    assert(Bus::read_spec(second, lower) == low_byte(value));
    assert(Bus::read_spec(second, upper) == high_byte(value));
    // The two reads of the pop.
    assert(wrap16(lower + 1) == upper);
    assert(wrap16(upper + 1) == emu.cpu.sp);
    bus_ignores_cpu(second, cpu1, upper, 0);
    lemma_split_join(value, 0, 0);
}

/// The interrupt service sequence, run to its end: five steps push `PC`,
/// high byte first, and load the handler's address; nothing else in the
/// register file changes. The two bytes below `SP` must be memory that
/// keeps what is written to it.
pub proof fn interrupt_service_pushes_pc(emu: GameboyEmulator, interrupt: InterruptMask)
    requires
        Bus::keeps_writes(emu, wrap16(emu.cpu.sp - 1)),
        Bus::keeps_writes(emu, wrap16(emu.cpu.sp - 2)),
    ensures
        run_steps(
            Instruction::fresh(Operation::Interrupt(interrupt)),
            emu,
            5,
        ).0.current_step is Complete,
        run_steps(Instruction::fresh(Operation::Interrupt(interrupt)), emu, 5).1.cpu == (CPU {
            pc: interrupt.handler_address(),
            sp: wrap16(emu.cpu.sp - 2),
            ..emu.cpu
        }),
        Bus::read_spec(
            run_steps(Instruction::fresh(Operation::Interrupt(interrupt)), emu, 5).1,
            wrap16(emu.cpu.sp - 1),
        ) == high_byte(emu.cpu.pc),
        Bus::read_spec(
            run_steps(Instruction::fresh(Operation::Interrupt(interrupt)), emu, 5).1,
            wrap16(emu.cpu.sp - 2),
        ) == low_byte(emu.cpu.pc),
{
    reveal_with_fuel(run_steps, 6);
    let value = emu.cpu.pc;
    let upper = wrap16(emu.cpu.sp - 1);
    let lower = wrap16(emu.cpu.sp - 2);
    let cpu1 = CPU { sp: upper, ..emu.cpu };
    let cpu2 = CPU { sp: lower, ..emu.cpu };
    let first = Bus::write_spec(emu.with_cpu(cpu1), upper, high_byte(value));
    bus_ignores_cpu(emu, cpu1, upper, high_byte(value));
    write_keeps_cpu(emu, upper, high_byte(value));
    assert(first.cpu == cpu1);
    assert(wrap16(upper - 1) == lower);
    let second = Bus::write_spec(first.with_cpu(cpu2), lower, low_byte(value));
    bus_ignores_cpu(first, cpu2, lower, low_byte(value));
    write_keeps_cpu(first, lower, low_byte(value));
    assert(second.cpu == cpu2);
    read_after_write(emu, lower, upper, high_byte(value));
    read_after_write(emu, upper, lower, high_byte(value));
    bus_ignores_cpu(emu, cpu1, lower, 0);
    bus_ignores_cpu(Bus::write_spec(emu, upper, high_byte(value)), cpu1, lower, 0);
    bus_ignores_cpu(Bus::write_spec(emu, upper, high_byte(value)), cpu1, upper, 0);
    read_after_write(first, lower, upper, low_byte(value));
    read_after_write(first, upper, lower, low_byte(value));
    bus_ignores_cpu(Bus::write_spec(first, lower, low_byte(value)), cpu2, upper, 0);
    bus_ignores_cpu(Bus::write_spec(first, lower, low_byte(value)), cpu2, lower, 0);
    let jumped = second.with_cpu(second.cpu.with_pair(RegisterPair::PC, interrupt.handler_address()));
    bus_ignores_cpu(second, jumped.cpu, upper, 0);
    bus_ignores_cpu(second, jumped.cpu, lower, 0);
    assert(run_steps(Instruction::fresh(Operation::Interrupt(interrupt)), emu, 5).1 == jumped);
}

/// `RLCA` then `RRCA` restores `A`; the carry flag that is left is bit 7
/// of `A`, which the first rotate moved to bit 0, and so it is bit 0 of `A`
/// where the two are equal.
pub proof fn rlca_rrca_restores_a(emu: GameboyEmulator)
    ensures
        rot_a_step(rot_a_step(emu, RotOp::Rlc).1, RotOp::Rrc).1.cpu.a == emu.cpu.a,
        rot_a_step(rot_a_step(emu, RotOp::Rlc).1, RotOp::Rrc).1.cpu.flag(Flag::C) == (emu.cpu.a
            >= 128),
        (emu.cpu.a >= 128) == (emu.cpu.a % 2 == 1) ==> rot_a_step(
            rot_a_step(emu, RotOp::Rlc).1,
            RotOp::Rrc,
        ).1.cpu.flag(Flag::C) == (emu.cpu.a % 2 == 1),
{
}

/// `RRCA` then `RLCA` restores `A`; the carry flag that is left is bit 0
/// of `A`, which the first rotate moved to bit 7.
pub proof fn rrca_rlca_restores_a(emu: GameboyEmulator)
    ensures
        rot_a_step(rot_a_step(emu, RotOp::Rrc).1, RotOp::Rlc).1.cpu.a == emu.cpu.a,
        rot_a_step(rot_a_step(emu, RotOp::Rrc).1, RotOp::Rlc).1.cpu.flag(Flag::C) == (emu.cpu.a
            % 2 == 1),
{
}

/// `RLA` then `RRA` restores `A` and the carry flag; with the carry flag
/// clear at the start it is clear at the end.
pub proof fn rla_rra_restores_a(emu: GameboyEmulator)
    ensures
        rot_a_step(rot_a_step(emu, RotOp::Rl).1, RotOp::Rr).1.cpu.a == emu.cpu.a,
        rot_a_step(rot_a_step(emu, RotOp::Rl).1, RotOp::Rr).1.cpu.flag(Flag::C) == emu.cpu.flag(
            Flag::C,
        ),
{
}

/// `SWAP r8` twice restores the register, and changes no register but
/// `F`.
pub proof fn swap_twice_restores_register(emu: GameboyEmulator, r8: Register)
    requires
        r8 != Register::F,
    ensures
        rot_r8(rot_r8(emu, RotOp::Swap, r8).1, RotOp::Swap, r8).1.cpu == emu.cpu.with_flags(
            emu.cpu.register(r8) == 0,
            false,
            false,
            false,
        ),
{
    let v = emu.cpu.register(r8);
    let once = rot8(RotOp::Swap, v, emu.cpu.flag(Flag::C));
    let swapped = rot_r8(emu, RotOp::Swap, r8).1;
    assert(swapped.cpu == emu.cpu.with_result_flags(once).with_register(r8, once.value));
    assert(swapped.cpu.register(r8) == once.value);
    swap_twice_is_identity(v, emu.cpu.flag(Flag::C));
    let twice = rot8(RotOp::Swap, once.value, swapped.cpu.flag(Flag::C));
    assert(twice.value == v);
    let restored = rot_r8(swapped, RotOp::Swap, r8).1;
    assert(restored.cpu == swapped.cpu.with_result_flags(twice).with_register(r8, v));
}

/// `CPL` twice restores `A`. Each `CPL` sets N and H; neither touches Z
/// or C, nor anything but `A` and `F`.
pub proof fn cpl_twice_restores_a(emu: GameboyEmulator)
    ensures
        cpl(emu).1.cpu.flag(Flag::N) && cpl(emu).1.cpu.flag(Flag::H),
        cpl(emu).1.cpu.flag(Flag::Z) == emu.cpu.flag(Flag::Z),
        cpl(emu).1.cpu.flag(Flag::C) == emu.cpu.flag(Flag::C),
        cpl(cpl(emu).1).1 == emu.with_cpu(
            emu.cpu.with_flag(Flag::N, true).with_flag(Flag::H, true),
        ),
{
}

} // verus!
