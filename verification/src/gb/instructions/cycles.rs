//! How many machine cycles each operation takes, and the proof that the
//! steps of an instruction are as many.

use vstd::prelude::*;
use crate::gb::bus::{write_keeps_cpu, Bus};
use crate::gb::cpu::{wrap16, CPU};
use crate::gb::emu::{housekeeping_keeps_cpu, GameboyEmulator};
use crate::gb::utils::{high_byte, Flag};
use super::instructions::{
    operation_step, running, Instruction, InstructionStep, Latch, Operation,
};
use super::bus_access::{
    is_control_flow, is_load, is_memory_arithmetic, is_register_arithmetic, is_register_control,
};
use super::operations::{call_cond, jp_cond, jr_cond, ret_cond};
use super::prefixed_instructions::prefixed_step;

verus! {

impl Operation {
    /// The flag that a conditional operation tests and the state that it
    /// asks for.
    pub open spec fn condition(self) -> Option<(Flag, bool)> {
        match self {
            Operation::JrCN8(c) | Operation::JpCN16(c) | Operation::RetC(c) | Operation::CallCN16(
                c,
            ) => Some((c, true)),
            Operation::JrNcN8(c) | Operation::JpNcN16(c) | Operation::RetNc(c)
            | Operation::CallNcN16(c) => Some((c, false)),
            _ => None,
        }
    }

    /// Whether the operation's branch is taken with the flags of `cpu`.
    /// An operation without a condition counts as taken.
    pub open spec fn taken(self, cpu: CPU) -> bool {
        match self.condition() {
            Some((c, expect)) => cpu.flag(c) == expect,
            None => true,
        }
    }

    /// Whether the operation stands behind the prefix `CB`.
    pub open spec fn is_prefixed(self) -> bool {
        self is RotR8 || self is RotR16 || self is BitBR8 || self is BitBR16 || self is ResBR8
            || self is ResBR16 || self is SetBR8 || self is SetBR16
    }

    /// The machine cycles that the operation takes, the opcode fetch
    /// included, and for a prefixed operation the fetch of the prefix too.
    /// A taken branch is longer than one that is not taken. The prefix
    /// itself has no figure of its own.
    pub open spec fn machine_cycles(self, taken: bool) -> nat {
        match self {
            Operation::Nop | Operation::Stop | Operation::Halt | Operation::Di | Operation::Ei
            | Operation::Daa | Operation::Cpl | Operation::Scf | Operation::Ccf | Operation::RotA(_)
            | Operation::LdR8R8(_, _) | Operation::JpHl | Operation::IncR8(_) | Operation::DecR8(_)
            | Operation::AluR8R8(_, _, _) | Operation::Invalid(_) | Operation::Prefix => 1,
            Operation::LdR8N8(_) | Operation::LdR8R16(_, _) | Operation::LdR16R8(_, _)
            | Operation::LdHlIncA | Operation::LdHlDecA | Operation::LdAHlInc | Operation::LdAHlDec
            | Operation::LdhCA | Operation::LdhAC | Operation::LdSpHl | Operation::IncR16(_)
            | Operation::DecR16(_) | Operation::AluR8R16(_, _, _) | Operation::AluAN8(_)
            | Operation::AddR16R16(_, _) | Operation::RotR8(_, _) | Operation::BitBR8(_, _)
            | Operation::ResBR8(_, _) | Operation::SetBR8(_, _) => 2,
            Operation::LdR16N8(_) | Operation::LdR16N16(_) | Operation::LdhN8A | Operation::LdhAN8
            | Operation::LdHlSpI8 | Operation::IncHl | Operation::DecHl | Operation::JrN8
            | Operation::PopR16(_) | Operation::BitBR16(_, _) => 3,
            Operation::LdN16A | Operation::LdAN16 | Operation::AddSpI8 | Operation::JpN16
            | Operation::Ret | Operation::Reti | Operation::RstN16(_) | Operation::PushR16(_)
            | Operation::RotR16(_, _) | Operation::ResBR16(_, _) | Operation::SetBR16(_, _) => 4,
            Operation::LdN16R16(_) | Operation::Interrupt(_) => 5,
            Operation::CallN16 => 6,
            Operation::JrCN8(_) | Operation::JrNcN8(_) => if taken {
                3
            } else {
                2
            },
            Operation::JpCN16(_) | Operation::JpNcN16(_) => if taken {
                4
            } else {
                3
            },
            Operation::RetC(_) | Operation::RetNc(_) => if taken {
                5
            } else {
                2
            },
            Operation::CallCN16(_) | Operation::CallNcN16(_) => if taken {
                6
            } else {
                3
            },
        }
    }

    /// The steps that an instruction of this operation runs: its machine
    /// cycles, less the fetch of the prefix where there is one.
    pub open spec fn steps(self, taken: bool) -> nat {
        if self.is_prefixed() {
            (self.machine_cycles(taken) - 1) as nat
        } else {
            self.machine_cycles(taken)
        }
    }
}

/// The instruction and the emulator after `n` steps of the instruction.
pub open spec fn run_steps(instruction: Instruction, emu: GameboyEmulator, n: nat) -> (
    Instruction,
    GameboyEmulator,
)
    decreases n,
{
    if n == 0 {
        (instruction, emu)
    } else {
        let (stepped, after) = instruction.step_spec(emu);
        run_steps(stepped, after, (n - 1) as nat)
    }
}

/// One step of a conditional operation moves to the next cycle, or
/// completes the instruction when the cycle was its last; a step that does
/// not complete it leaves its condition as it was.
pub proof fn conditional_step_advances_one_cycle(emu: GameboyEmulator, op: Operation, k: Latch)
    requires
        op.condition() is Some,
        k.stage < op.steps(op.taken(emu.cpu)),
    ensures
        operation_step(emu, op, k).0 is Complete <==> k.stage + 1 >= op.steps(op.taken(emu.cpu)),
        operation_step(emu, op, k).0 matches InstructionStep::Running(l) ==> l.stage == k.stage + 1
            && op.taken(operation_step(emu, op, k).1.cpu) == op.taken(emu.cpu),
{
    let (c, expect) = op.condition().unwrap();
    write_keeps_cpu(emu.with_cpu(CPU { sp: wrap16(emu.cpu.sp - 1), ..emu.cpu }), wrap16(emu.cpu.sp - 1), high_byte(emu.cpu.pc));
    match op {
        Operation::JrCN8(_) | Operation::JrNcN8(_) => {
            assert(operation_step(emu, op, k) == jr_cond(emu, c, expect, k));
        },
        Operation::JpCN16(_) | Operation::JpNcN16(_) => {
            assert(operation_step(emu, op, k) == jp_cond(emu, c, expect, k));
        },
        Operation::RetC(_) | Operation::RetNc(_) => {
            assert(operation_step(emu, op, k) == ret_cond(emu, c, expect, k));
        },
        _ => {
            assert(operation_step(emu, op, k) == call_cond(emu, c, expect, k));
        },
    }
}

/// Whether one step of `op` moves to the next cycle, or completes the
/// instruction when the cycle was its last.
pub open spec fn advances_one_cycle(emu: GameboyEmulator, op: Operation, k: Latch) -> bool {
    &&& operation_step(emu, op, k).0 is Complete <==> k.stage + 1 >= op.steps(true)
    &&& operation_step(emu, op, k).0 matches InstructionStep::Running(l) ==> l.stage == k.stage
        + 1
}

/// A step of an operation that moves bytes between registers and memory
/// advances by one cycle.
pub proof fn load_step_advances_one_cycle(emu: GameboyEmulator, op: Operation, k: Latch)
    requires
        is_load(op),
        k.stage < op.steps(true),
    ensures
        advances_one_cycle(emu, op, k),
{
}

/// A step of an operation that computes with a byte of memory advances by
/// one cycle.
pub proof fn arithmetic_step_advances_one_cycle(emu: GameboyEmulator, op: Operation, k: Latch)
    requires
        is_memory_arithmetic(op),
        k.stage < op.steps(true),
    ensures
        advances_one_cycle(emu, op, k),
{
    if op.is_prefixed() {
        assert(operation_step(emu, op, k) == prefixed_step(emu, op, k));
    }
}

/// A step of an operation without a condition that moves `PC` or the
/// stack advances by one cycle.
pub proof fn control_step_advances_one_cycle(emu: GameboyEmulator, op: Operation, k: Latch)
    requires
        is_control_flow(op),
        op.condition() is None,
        k.stage < op.steps(true),
    ensures
        advances_one_cycle(emu, op, k),
{
}

/// A step of an operation that works on registers only advances by one
/// cycle.
pub proof fn register_step_advances_one_cycle(emu: GameboyEmulator, op: Operation, k: Latch)
    requires
        is_register_arithmetic(op) || is_register_control(op),
        k.stage < op.steps(true),
    ensures
        advances_one_cycle(emu, op, k),
{
    if op.is_prefixed() {
        assert(operation_step(emu, op, k) == prefixed_step(emu, op, k));
    }
}

/// One step of an operation without a condition moves to the next cycle,
/// or completes the instruction when the cycle was its last.
pub proof fn plain_step_advances_one_cycle(emu: GameboyEmulator, op: Operation, k: Latch)
    requires
        !(op is Prefix),
        op.condition() is None,
        k.stage < op.steps(true),
    ensures
        advances_one_cycle(emu, op, k),
{
    if is_load(op) {
        load_step_advances_one_cycle(emu, op, k);
    } else if is_memory_arithmetic(op) {
        arithmetic_step_advances_one_cycle(emu, op, k);
    } else if is_control_flow(op) {
        control_step_advances_one_cycle(emu, op, k);
    } else {
        register_step_advances_one_cycle(emu, op, k);
    }
}

/// One step of an operation moves to the next cycle, or completes the
/// instruction when the cycle was its last; and a step that does not
/// complete a conditional operation leaves its condition as it was.
pub proof fn step_advances_one_cycle(emu: GameboyEmulator, op: Operation, k: Latch)
    requires
        !(op is Prefix),
        k.stage < op.steps(op.taken(emu.cpu)),
    ensures
        operation_step(emu, op, k).0 is Complete <==> k.stage + 1 >= op.steps(op.taken(emu.cpu)),
        operation_step(emu, op, k).0 matches InstructionStep::Running(l) ==> l.stage == k.stage + 1
            && op.taken(operation_step(emu, op, k).1.cpu) == op.taken(emu.cpu),
{
    if op.condition() is Some {
        conditional_step_advances_one_cycle(emu, op, k);
    } else {
        plain_step_advances_one_cycle(emu, op, k);
    }
}

/// An instruction that has reached cycle `k.stage` completes after as
/// many steps as its operation has cycles left, and not before.
pub proof fn completes_after_remaining_steps(emu: GameboyEmulator, op: Operation, k: Latch, j: nat)
    requires
        !(op is Prefix),
        k.stage < op.steps(op.taken(emu.cpu)),
    ensures
        run_steps(
            Instruction { op, current_step: InstructionStep::Running(k) },
            emu,
            j,
        ).0.current_step is Complete <==> j >= op.steps(op.taken(emu.cpu)) - k.stage,
    decreases j,
{
    let instruction = Instruction { op, current_step: InstructionStep::Running(k) };
    if j > 0 {
        step_advances_one_cycle(emu, op, k);
        let (stepped, after) = instruction.step_spec(emu);
        match stepped.current_step {
            InstructionStep::Running(l) => {
                completes_after_remaining_steps(after, op, l, (j - 1) as nat);
            },
            InstructionStep::Complete => {
                completed_stays_completed(stepped, after, (j - 1) as nat);
            },
        }
    }
}

/// A completed instruction stays completed, and its steps change nothing.
pub proof fn completed_stays_completed(instruction: Instruction, emu: GameboyEmulator, j: nat)
    requires
        instruction.current_step is Complete,
    ensures
        run_steps(instruction, emu, j) == (instruction, emu),
    decreases j,
{
    if j > 0 {
        completed_stays_completed(instruction, emu, (j - 1) as nat);
    }
}

/// Cycle counts: the instruction of an operation completes with the step
/// whose number is the operation's machine cycles, and with no earlier one.
/// The count of a conditional operation goes by the flags at its start.
pub proof fn instruction_takes_its_machine_cycles(emu: GameboyEmulator, op: Operation, j: nat)
    requires
        !(op is Prefix),
    ensures
        run_steps(Instruction::fresh(op), emu, j).0.current_step is Complete <==> j >= op.steps(
            op.taken(emu.cpu),
        ),
{
    completes_after_remaining_steps(emu, op, Latch { stage: 0, lo: 0, hi: 0 }, j);
}

/// Cycle counts behind the prefix: the instruction of the prefix `CB`
/// completes with the step whose number is the machine cycles of the
/// operation that the byte at `PC` selects, and with no earlier one.
pub proof fn prefixed_instruction_takes_its_machine_cycles(emu: GameboyEmulator, j: nat)
    ensures
        run_steps(Instruction::fresh(Operation::Prefix), emu, j).0.current_step is Complete <==> j
            >= Operation::of_prefixed(Bus::read_spec(emu, emu.cpu.pc)).machine_cycles(true),
{
    let op = Operation::of_prefixed(Bus::read_spec(emu, emu.cpu.pc));
    let fresh = Instruction::fresh(Operation::Prefix);
    assert(op.is_prefixed());
    assert(op.machine_cycles(true) >= 2);
    if j >= 1 {
        let (first, unchanged) = fresh.step_spec(emu);
        assert(unchanged == emu);
        assert(run_steps(fresh, emu, j) == run_steps(first, emu, (j - 1) as nat));
        if j >= 2 {
            let (second, after) = first.step_spec(emu);
            assert(run_steps(first, emu, (j - 1) as nat) == run_steps(second, after, (j - 2) as nat));
            let (opcode, read) = emu.read_pc_spec();
            let start = Latch { stage: 0, lo: 0, hi: 0 };
            step_advances_one_cycle(read, op, start);
            match second.current_step {
                InstructionStep::Running(l) => {
                    assert(op.taken(after.cpu));
                    completes_after_remaining_steps(after, op, l, (j - 2) as nat);
                },
                InstructionStep::Complete => {
                    completed_stays_completed(second, after, (j - 2) as nat);
                },
            }
        } else {
            assert(run_steps(first, emu, 0) == (first, emu));
        }
    }
}

/// Cycle counts by opcode: for each opcode of the primary table, the
/// prefix aside, the instruction completes with the step whose number is the
/// machine cycles of its operation, and with no earlier one.
pub proof fn opcode_takes_its_machine_cycles(emu: GameboyEmulator, opcode: u8, j: nat)
    requires
        opcode != 0xCB,
    ensures
        run_steps(Instruction::fresh(Operation::of_opcode(opcode)), emu, j).0.current_step
            is Complete <==> j >= Operation::of_opcode(opcode).machine_cycles(
            Operation::of_opcode(opcode).taken(emu.cpu),
        ),
{
    let op = Operation::of_opcode(opcode);
    assert(!op.is_prefixed() && !(op is Prefix));
    instruction_takes_its_machine_cycles(emu, op, j);
}

/// One machine cycle moves an instruction in progress by one step: the
/// timer and the DMA engine leave it alone, and no opcode is fetched.
pub proof fn machine_cycle_steps_instruction(emu: GameboyEmulator, op: Operation, k: Latch)
    requires
        !(op is Prefix),
        emu.current_instruction == (Instruction { op, current_step: InstructionStep::Running(k) }),
        k.stage < op.steps(op.taken(emu.cpu)),
    ensures
        emu.step_spec().current_instruction.op == op,
        emu.step_spec().current_instruction.current_step is Complete <==> k.stage + 1 >= op.steps(
            op.taken(emu.cpu),
        ),
        emu.step_spec().current_instruction.current_step matches InstructionStep::Running(l)
            ==> l.stage == k.stage + 1 && op.taken(emu.step_spec().cpu) == op.taken(emu.cpu),
{
    housekeeping_keeps_cpu(emu);
    step_advances_one_cycle(emu.housekeeping_spec(), op, k);
}

/// An instruction in progress completes with the machine cycle whose
/// number is the steps that it has left, and with no earlier one.
pub proof fn instruction_in_progress_completes(
    emu: GameboyEmulator,
    op: Operation,
    k: Latch,
    j: nat,
)
    requires
        !(op is Prefix),
        emu.current_instruction == (Instruction { op, current_step: InstructionStep::Running(k) }),
        k.stage < op.steps(op.taken(emu.cpu)),
        1 <= j <= op.steps(op.taken(emu.cpu)) - k.stage,
    ensures
        emu.run_spec(j).current_instruction.op == op,
        emu.run_spec(j).current_instruction.current_step is Complete <==> j == op.steps(
            op.taken(emu.cpu),
        ) - k.stage,
    decreases j,
{
    machine_cycle_steps_instruction(emu, op, k);
    let stepped = emu.step_spec();
    assert(emu.run_spec(j) == stepped.run_spec((j - 1) as nat));
    if j == 1 {
        assert(stepped.run_spec(0) == stepped);
    } else {
        match stepped.current_instruction.current_step {
            InstructionStep::Running(l) => {
                instruction_in_progress_completes(stepped, op, l, (j - 1) as nat);
            },
            InstructionStep::Complete => {},
        }
    }
}

/// Cycle counts on the emulator: when the coming machine cycle fetches an
/// opcode other than the prefix, the instruction is in progress for the
/// machine cycles of its operation and completes with the last of them. The
/// count of a conditional operation goes by the flags at the fetch.
pub proof fn opcode_completes_in_its_machine_cycles(emu: GameboyEmulator, j: nat)
    requires
        emu.fetches_next(),
        emu.next_opcode() != 0xCB,
        1 <= j <= Operation::of_opcode(emu.next_opcode()).machine_cycles(
            Operation::of_opcode(emu.next_opcode()).taken(emu.cpu),
        ),
    ensures
        emu.run_spec(j).current_instruction.op == Operation::of_opcode(emu.next_opcode()),
        emu.run_spec(j).current_instruction.current_step is Complete <==> j
            == Operation::of_opcode(emu.next_opcode()).machine_cycles(
            Operation::of_opcode(emu.next_opcode()).taken(emu.cpu),
        ),
{
    let op = Operation::of_opcode(emu.next_opcode());
    assert(!op.is_prefixed() && !(op is Prefix));
    housekeeping_keeps_cpu(emu);
    let fetched = emu.housekeeping_spec().dispatch_spec();
    assert(fetched == emu.housekeeping_spec().fetch_spec());
    assert(fetched.current_instruction == Instruction::fresh(op));
    assert(op.taken(fetched.cpu) == op.taken(emu.cpu));
    let start = Latch { stage: 0, lo: 0, hi: 0 };
    step_advances_one_cycle(fetched, op, start);
    let stepped = emu.step_spec();
    assert(emu.run_spec(j) == stepped.run_spec((j - 1) as nat));
    if j == 1 {
        assert(stepped.run_spec(0) == stepped);
    } else {
        match stepped.current_instruction.current_step {
            InstructionStep::Running(l) => {
                instruction_in_progress_completes(stepped, op, l, (j - 1) as nat);
            },
            InstructionStep::Complete => {},
        }
    }
}

/// Cycle counts on the emulator, behind the prefix: when the coming
/// machine cycle fetches the prefix `CB`, the instruction is in progress for
/// the machine cycles of the operation that the next byte selects and
/// completes with the last of them.
pub proof fn prefixed_opcode_completes_in_its_machine_cycles(emu: GameboyEmulator, j: nat)
    requires
        emu.fetches_next(),
        emu.next_opcode() == 0xCB,
        1 <= j <= Operation::of_prefixed(emu.step_spec().next_opcode()).machine_cycles(true),
    ensures
        emu.run_spec(j).current_instruction.current_step is Complete <==> j
            == Operation::of_prefixed(emu.step_spec().next_opcode()).machine_cycles(true),
{
    let op = Operation::of_prefixed(emu.step_spec().next_opcode());
    assert(op.is_prefixed());
    assert(Operation::of_opcode(0xCB) == Operation::Prefix);
    housekeeping_keeps_cpu(emu);
    let fetched = emu.housekeeping_spec().dispatch_spec();
    assert(fetched == emu.housekeeping_spec().fetch_spec());
    let first = emu.step_spec();
    assert(first.current_instruction == (Instruction {
        op: Operation::Prefix,
        current_step: running(1, 0, 0),
    }));
    assert(first.cpu == fetched.cpu);
    assert(emu.run_spec(j) == first.run_spec((j - 1) as nat));
    if j == 1 {
        assert(first.run_spec(0) == first);
    } else {
        housekeeping_keeps_cpu(first);
        let ready = first.housekeeping_spec();
        let (opcode, read) = ready.read_pc_spec();
        assert(opcode == first.next_opcode());
        let start = Latch { stage: 0, lo: 0, hi: 0 };
        step_advances_one_cycle(read, op, start);
        let second = first.step_spec();
        assert(second.current_instruction.op == op);
        assert(first.run_spec((j - 1) as nat) == second.run_spec((j - 2) as nat));
        if j == 2 {
            assert(second.run_spec(0) == second);
        } else {
            match second.current_instruction.current_step {
                InstructionStep::Running(l) => {
                    assert(op.taken(second.cpu));
                    instruction_in_progress_completes(second, op, l, (j - 2) as nat);
                },
                InstructionStep::Complete => {},
            }
        }
    }
}

} // verus!
