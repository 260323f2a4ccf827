//! The one bus access of a step.
//!
//! A step reads one address or writes one address, never both, and the
//! step that shares its machine cycle with the opcode fetch does neither:
//! that keeps the timer, the DMA engine and the interrupt requests aligned
//! with the machine cycles. This file says which access each step makes and
//! proves that the step makes no other.

use vstd::prelude::*;
use crate::gb::bus::{bus_ignores_cpu, write_keeps_cpu, Bus};
use crate::gb::cpu::{dec8, inc8, rot8, wrap16, CPU};
use crate::gb::emu::GameboyEmulator;
use crate::gb::utils::{high_byte, low_byte, with_bit, word, Flag, RegisterPair};
use crate::gb::cpu::bit_mask;
use super::instructions::{operation_step, Latch, Operation};
use super::prefixed_instructions::{prefix_n8, prefixed_step};

verus! {

/// What a step does on the bus.
#[derive(Debug, Clone, Copy, PartialEq, Eq, Structural)]
pub enum BusAccess {
    /// Nothing: the step works on registers only.
    Idle,
    /// A read of the address.
    Read(u16),
    /// A write of the value to the address.
    Write(u16, u8),
}

/// The push of `value`: a write just below `SP`.
pub open spec fn push_access(cpu: CPU, value: u8) -> BusAccess {
    BusAccess::Write(wrap16(cpu.sp - 1), value)
}

/// The access of a call to a fixed address that begins with `idle`
/// internal cycles.
pub open spec fn push_pc_access(cpu: CPU, idle: u8, k: Latch) -> BusAccess {
    if k.stage == idle {
        push_access(cpu, high_byte(cpu.pc))
    } else if k.stage == idle + 1 {
        push_access(cpu, low_byte(cpu.pc))
    } else {
        BusAccess::Idle
    }
}

/// The access of a call that has read its target.
pub open spec fn call_access(cpu: CPU, k: Latch) -> BusAccess {
    if k.stage == 0 || k.stage == 3 {
        BusAccess::Idle
    } else if k.stage == 1 || k.stage == 2 {
        BusAccess::Read(cpu.pc)
    } else if k.stage == 4 {
        push_access(cpu, high_byte(cpu.pc))
    } else {
        push_access(cpu, low_byte(cpu.pc))
    }
}

/// The bus access that the step `k` of the operation `op` makes. It goes
/// by the registers and the latch alone. The prefix is told apart before
/// this is asked.
pub open spec fn bus_access(cpu: CPU, op: Operation, k: Latch) -> BusAccess {
    let hl = cpu.pair(RegisterPair::HL);
    let target = word(k.lo, k.hi);
    let first = k.stage == 0;
    match op {
        Operation::LdR8N8(_) | Operation::AluAN8(_) | Operation::LdR16N16(_) => if first {
            BusAccess::Idle
        } else {
            BusAccess::Read(cpu.pc)
        },
        Operation::LdR8R16(_, r16) | Operation::AluR8R16(_, _, r16) | Operation::BitBR16(
            _,
            r16,
        ) => if first {
            BusAccess::Idle
        } else {
            BusAccess::Read(cpu.pair(r16))
        },
        Operation::LdR16R8(r16, r8) => if first {
            BusAccess::Idle
        } else {
            BusAccess::Write(cpu.pair(r16), cpu.register(r8))
        },
        Operation::LdR16N8(r16) => if first {
            BusAccess::Idle
        } else if k.stage == 1 {
            BusAccess::Read(cpu.pc)
        } else {
            BusAccess::Write(cpu.pair(r16), k.lo)
        },
        Operation::LdN16R16(r16) => if first {
            BusAccess::Idle
        } else if k.stage == 1 || k.stage == 2 {
            BusAccess::Read(cpu.pc)
        } else if k.stage == 3 {
            BusAccess::Write(target, low_byte(cpu.pair(r16)))
        } else {
            BusAccess::Write(wrap16(target + 1), high_byte(cpu.pair(r16)))
        },
        Operation::LdHlIncA | Operation::LdHlDecA => if first {
            BusAccess::Idle
        } else {
            BusAccess::Write(hl, cpu.a)
        },
        Operation::LdAHlInc | Operation::LdAHlDec => if first {
            BusAccess::Idle
        } else {
            BusAccess::Read(hl)
        },
        Operation::LdhN8A => if first {
            BusAccess::Idle
        } else if k.stage == 1 {
            BusAccess::Read(cpu.pc)
        } else {
            BusAccess::Write(word(k.lo, 0xFF), cpu.a)
        },
        Operation::LdhAN8 => if first {
            BusAccess::Idle
        } else if k.stage == 1 {
            BusAccess::Read(cpu.pc)
        } else {
            BusAccess::Read(word(k.lo, 0xFF))
        },
        Operation::LdhCA => if first {
            BusAccess::Idle
        } else {
            BusAccess::Write(word(cpu.c, 0xFF), cpu.a)
        },
        Operation::LdhAC => if first {
            BusAccess::Idle
        } else {
            BusAccess::Read(word(cpu.c, 0xFF))
        },
        Operation::LdN16A => if first {
            BusAccess::Idle
        } else if k.stage == 1 || k.stage == 2 {
            BusAccess::Read(cpu.pc)
        } else {
            BusAccess::Write(target, cpu.a)
        },
        Operation::LdAN16 => if first {
            BusAccess::Idle
        } else if k.stage == 1 || k.stage == 2 {
            BusAccess::Read(cpu.pc)
        } else {
            BusAccess::Read(target)
        },
        Operation::LdHlSpI8 | Operation::AddSpI8 | Operation::JrN8 | Operation::JrCN8(_)
        | Operation::JrNcN8(_) => if k.stage == 1 {
            BusAccess::Read(cpu.pc)
        } else {
            BusAccess::Idle
        },
        Operation::IncHl => if first {
            BusAccess::Idle
        } else if k.stage == 1 {
            BusAccess::Read(hl)
        } else {
            BusAccess::Write(hl, inc8(k.lo, cpu.flag(Flag::C)).value)
        },
        Operation::DecHl => if first {
            BusAccess::Idle
        } else if k.stage == 1 {
            BusAccess::Read(hl)
        } else {
            BusAccess::Write(hl, dec8(k.lo, cpu.flag(Flag::C)).value)
        },
        Operation::JpN16 | Operation::JpCN16(_) | Operation::JpNcN16(_) => if k.stage == 1
            || k.stage == 2 {
            BusAccess::Read(cpu.pc)
        } else {
            BusAccess::Idle
        },
        Operation::Ret | Operation::Reti => if k.stage == 1 || k.stage == 2 {
            BusAccess::Read(cpu.sp)
        } else {
            BusAccess::Idle
        },
        Operation::RetC(_) | Operation::RetNc(_) => if k.stage == 2 || k.stage == 3 {
            BusAccess::Read(cpu.sp)
        } else {
            BusAccess::Idle
        },
        Operation::CallN16 | Operation::CallCN16(_) | Operation::CallNcN16(_) => call_access(
            cpu,
            k,
        ),
        Operation::RstN16(_) => push_pc_access(cpu, 1, k),
        Operation::Interrupt(_) => push_pc_access(cpu, 2, k),
        Operation::PushR16(r16) => if k.stage < 2 {
            BusAccess::Idle
        } else if k.stage == 2 {
            push_access(cpu, high_byte(cpu.pair(r16)))
        } else {
            push_access(cpu, low_byte(cpu.pair(r16)))
        },
        Operation::PopR16(_) => if first {
            BusAccess::Idle
        } else {
            BusAccess::Read(cpu.sp)
        },
        Operation::RotR16(rot, r16) => if first {
            BusAccess::Idle
        } else if k.stage == 1 {
            BusAccess::Read(cpu.pair(r16))
        } else {
            BusAccess::Write(cpu.pair(r16), rot8(rot, k.lo, cpu.flag(Flag::C)).value)
        },
        Operation::ResBR16(b, r16) => if first {
            BusAccess::Idle
        } else if k.stage == 1 {
            BusAccess::Read(cpu.pair(r16))
        } else {
            BusAccess::Write(cpu.pair(r16), with_bit(k.lo, bit_mask(b), false))
        },
        Operation::SetBR16(b, r16) => if first {
            BusAccess::Idle
        } else if k.stage == 1 {
            BusAccess::Read(cpu.pair(r16))
        } else {
            BusAccess::Write(cpu.pair(r16), with_bit(k.lo, bit_mask(b), true))
        },
        _ => BusAccess::Idle,
    }
}

/// The bus access that the step `k` of the prefix makes: the read of the
/// opcode behind it, in its second cycle.
pub open spec fn prefix_access(cpu: CPU, k: Latch) -> BusAccess {
    if k.stage == 0 {
        BusAccess::Idle
    } else {
        BusAccess::Read(cpu.pc)
    }
}

/// Whether two emulators agree on everything that a step can see without
/// the bus: the registers, the interrupt enable, the halt state and the
/// interrupt registers.
pub open spec fn same_cpu_state(one: GameboyEmulator, other: GameboyEmulator) -> bool {
    &&& one.cpu == other.cpu
    &&& one.ime == other.ime
    &&& one.is_halted == other.is_halted
    &&& one.halt_bug == other.halt_bug
    &&& one.invalid_opcode == other.invalid_opcode
    &&& one.io_registers.interrupts == other.io_registers.interrupts
}

/// Whether two emulators hold the same memory and I/O registers.
pub open spec fn same_memory(one: GameboyEmulator, other: GameboyEmulator) -> bool {
    one.bus == other.bus && one.io_registers == other.io_registers
}

/// Whether two emulators agree on the registers, the interrupt enable, the
/// halt state and the instruction in progress.
pub open spec fn same_registers(one: GameboyEmulator, other: GameboyEmulator) -> bool {
    &&& one.cpu == other.cpu
    &&& one.ime == other.ime
    &&& one.is_halted == other.is_halted
    &&& one.halt_bug == other.halt_bug
    &&& one.invalid_opcode == other.invalid_opcode
    &&& one.current_instruction == other.current_instruction
}

/// The step that shares its machine cycle with the opcode fetch makes no
/// bus access.
pub proof fn first_step_is_idle(cpu: CPU, op: Operation, k: Latch)
    requires
        k.stage == 0,
    ensures
        bus_access(cpu, op, k) is Idle,
        prefix_access(cpu, k) is Idle,
{
}

/// Whether the step `k` of `op` leaves the memory and the I/O registers
/// as its one write leaves them, or as they were when its access is not a
/// write.
pub open spec fn writes_as_accessed(emu: GameboyEmulator, op: Operation, k: Latch) -> bool {
    match bus_access(emu.cpu, op, k) {
        BusAccess::Write(address, value) => same_memory(
            operation_step(emu, op, k).1,
            Bus::write_spec(emu, address, value),
        ),
        _ => same_memory(operation_step(emu, op, k).1, emu),
    }
}

/// Whether the step `k` of `op` leaves the same next step and the same
/// registers on both emulators.
pub open spec fn steps_alike(
    emu: GameboyEmulator,
    other: GameboyEmulator,
    op: Operation,
    k: Latch,
) -> bool {
    &&& operation_step(emu, op, k).0 == operation_step(other, op, k).0
    &&& operation_step(emu, op, k).1.cpu == operation_step(other, op, k).1.cpu
    &&& operation_step(emu, op, k).1.ime == operation_step(other, op, k).1.ime
    &&& operation_step(emu, op, k).1.is_halted == operation_step(other, op, k).1.is_halted
    &&& operation_step(emu, op, k).1.halt_bug == operation_step(other, op, k).1.halt_bug
    &&& operation_step(emu, op, k).1.invalid_opcode == operation_step(
        other,
        op,
        k,
    ).1.invalid_opcode
}

/// Whether the two emulators agree on the byte that the step `k` of `op`
/// reads, if it reads at all.
pub open spec fn agree_on_read(
    emu: GameboyEmulator,
    other: GameboyEmulator,
    op: Operation,
    k: Latch,
) -> bool {
    bus_access(emu.cpu, op, k) matches BusAccess::Read(address) ==> Bus::read_spec(emu, address)
        == Bus::read_spec(other, address)
}

/// The operations that move bytes between registers and memory.
pub open spec fn is_load(op: Operation) -> bool {
    op is LdR8N8 || op is LdR8R16 || op is LdR16R8 || op is LdR16N8 || op is LdR16N16
        || op is LdN16R16 || op is LdHlIncA || op is LdHlDecA || op is LdAHlInc || op is LdAHlDec
        || op is LdhN8A || op is LdhAN8 || op is LdhCA || op is LdhAC || op is LdN16A
        || op is LdAN16
}

/// The operations that compute with a byte of memory.
pub open spec fn is_memory_arithmetic(op: Operation) -> bool {
    op is AluR8R16 || op is AluAN8 || op is IncHl || op is DecHl || op is LdHlSpI8
        || op is AddSpI8 || op is RotR16 || op is BitBR16 || op is ResBR16 || op is SetBR16
}

/// The operations that move `PC` or the stack.
pub open spec fn is_control_flow(op: Operation) -> bool {
    op is JrN8 || op is JrCN8 || op is JrNcN8 || op is JpN16 || op is JpCN16 || op is JpNcN16
        || op is Ret || op is RetC || op is RetNc || op is Reti || op is CallN16 || op is CallCN16
        || op is CallNcN16 || op is RstN16 || op is Interrupt || op is PushR16 || op is PopR16
}

/// The two properties of a step, for the operations that move bytes
/// between registers and memory.
pub proof fn load_step_accesses_once(
    emu: GameboyEmulator,
    other: GameboyEmulator,
    op: Operation,
    k: Latch,
)
    requires
        is_load(op),
        same_cpu_state(emu, other),
        agree_on_read(emu, other, op, k),
    ensures
        writes_as_accessed(emu, op, k),
        steps_alike(emu, other, op, k),
{
    match bus_access(emu.cpu, op, k) {
        BusAccess::Write(address, value) => {
            write_keeps_cpu(emu, address, value);
            write_keeps_cpu(other, address, value);
        },
        _ => {},
    }
}

/// The two properties of a step, for the operations that compute with a
/// byte of memory.
pub proof fn arithmetic_step_accesses_once(
    emu: GameboyEmulator,
    other: GameboyEmulator,
    op: Operation,
    k: Latch,
)
    requires
        is_memory_arithmetic(op),
        same_cpu_state(emu, other),
        agree_on_read(emu, other, op, k),
    ensures
        writes_as_accessed(emu, op, k),
        steps_alike(emu, other, op, k),
{
    match bus_access(emu.cpu, op, k) {
        BusAccess::Write(address, value) => {
            write_keeps_cpu(emu, address, value);
            write_keeps_cpu(other, address, value);
        },
        _ => {},
    }
    if op.is_prefixed() {
        assert(operation_step(emu, op, k) == prefixed_step(emu, op, k));
        assert(operation_step(other, op, k) == prefixed_step(other, op, k));
    }
}

/// The two properties of a step, for the operations that move `PC` or the
/// stack.
pub proof fn control_step_accesses_once(
    emu: GameboyEmulator,
    other: GameboyEmulator,
    op: Operation,
    k: Latch,
)
    requires
        is_control_flow(op),
        same_cpu_state(emu, other),
        agree_on_read(emu, other, op, k),
    ensures
        writes_as_accessed(emu, op, k),
        steps_alike(emu, other, op, k),
{
    let below = CPU { sp: wrap16(emu.cpu.sp - 1), ..emu.cpu };
    match bus_access(emu.cpu, op, k) {
        BusAccess::Write(address, value) => {
            bus_ignores_cpu(emu, below, address, value);
            write_keeps_cpu(emu, address, value);
            bus_ignores_cpu(other, below, address, value);
            write_keeps_cpu(other, address, value);
        },
        _ => {},
    }
}

/// The operations that compute on registers only.
pub open spec fn is_register_arithmetic(op: Operation) -> bool {
    op is Daa || op is Cpl || op is Scf || op is Ccf || op is RotA || op is IncR8 || op is DecR8
        || op is IncR16 || op is DecR16 || op is AluR8R8 || op is AddR16R16 || op is RotR8
        || op is BitBR8 || op is ResBR8 || op is SetBR8
}

/// The operations that copy registers or steer the CPU.
pub open spec fn is_register_control(op: Operation) -> bool {
    op is Nop || op is Stop || op is Halt || op is Di || op is Ei || op is LdR8R8 || op is LdSpHl
        || op is JpHl || op is Invalid
}

/// The two properties of a step, for the operations that compute on
/// registers only.
pub proof fn register_arithmetic_accesses_nothing(
    emu: GameboyEmulator,
    other: GameboyEmulator,
    op: Operation,
    k: Latch,
)
    requires
        is_register_arithmetic(op),
        same_cpu_state(emu, other),
    ensures
        bus_access(emu.cpu, op, k) is Idle,
        writes_as_accessed(emu, op, k),
        steps_alike(emu, other, op, k),
{
    if op.is_prefixed() {
        assert(operation_step(emu, op, k) == prefixed_step(emu, op, k));
        assert(operation_step(other, op, k) == prefixed_step(other, op, k));
    }
}

/// The two properties of a step, for the operations that copy registers
/// or steer the CPU.
pub proof fn register_control_accesses_nothing(
    emu: GameboyEmulator,
    other: GameboyEmulator,
    op: Operation,
    k: Latch,
)
    requires
        is_register_control(op),
        same_cpu_state(emu, other),
    ensures
        bus_access(emu.cpu, op, k) is Idle,
        writes_as_accessed(emu, op, k),
        steps_alike(emu, other, op, k),
{
}

/// A step writes at most once: the memory and the I/O registers after it
/// are those after its one write, or those before it when its access is not
/// a write.
pub proof fn step_writes_at_most_once(emu: GameboyEmulator, op: Operation, k: Latch)
    requires
        !(op is Prefix),
    ensures
        writes_as_accessed(emu, op, k),
{
    if is_load(op) {
        load_step_accesses_once(emu, emu, op, k);
    } else if is_memory_arithmetic(op) {
        arithmetic_step_accesses_once(emu, emu, op, k);
    } else if is_control_flow(op) {
        control_step_accesses_once(emu, emu, op, k);
    } else if is_register_arithmetic(op) {
        register_arithmetic_accesses_nothing(emu, emu, op, k);
    } else {
        register_control_accesses_nothing(emu, emu, op, k);
    }
}

/// A step reads at most once, and a step that writes reads nothing: the
/// next step and the registers that it leaves go by the registers before
/// it, the latch, and the byte at the one address that it reads, if it
/// reads at all.
pub proof fn step_reads_at_most_once(
    emu: GameboyEmulator,
    other: GameboyEmulator,
    op: Operation,
    k: Latch,
)
    requires
        !(op is Prefix),
        same_cpu_state(emu, other),
        agree_on_read(emu, other, op, k),
    ensures
        steps_alike(emu, other, op, k),
{
    if is_load(op) {
        load_step_accesses_once(emu, other, op, k);
    } else if is_memory_arithmetic(op) {
        arithmetic_step_accesses_once(emu, other, op, k);
    } else if is_control_flow(op) {
        control_step_accesses_once(emu, other, op, k);
    } else if is_register_arithmetic(op) {
        register_arithmetic_accesses_nothing(emu, other, op, k);
    } else {
        register_control_accesses_nothing(emu, other, op, k);
    }
}

/// The prefix reads the opcode behind it and does nothing else on the
/// bus: the operation that the opcode selects runs its first step, which is
/// idle, in the same cycle.
pub proof fn prefix_step_reads_once(emu: GameboyEmulator, other: GameboyEmulator, k: Latch)
    requires
        same_cpu_state(emu, other),
        prefix_access(emu.cpu, k) matches BusAccess::Read(address) ==> Bus::read_spec(
            emu,
            address,
        ) == Bus::read_spec(other, address),
    ensures
        same_memory(prefix_n8(emu, k).1, emu),
        prefix_n8(emu, k).0 == prefix_n8(other, k).0,
        same_cpu_state(prefix_n8(emu, k).1, prefix_n8(other, k).1),
{
}

} // verus!
