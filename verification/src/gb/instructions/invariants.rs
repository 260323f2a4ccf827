//! What stays true whatever the CPU runs: the low nibble of `F` reads zero,
//! and a boot ROM that was retired stays retired.

use vstd::prelude::*;
use crate::gb::bus::{bus_ignores_cpu, dma_locks_out_writes, in_hram, write_keeps_cpu, Bus};
use crate::gb::cpu::{wrap16, CPU};
use crate::gb::utils::{Flag, Register, RegisterPair};
use crate::gb::emu::{housekeeping_keeps_cpu, GameboyEmulator};
use super::bus_access::{
    bus_access, prefix_step_reads_once, same_memory, step_writes_at_most_once, is_control_flow, is_load, is_memory_arithmetic, is_register_arithmetic,
    is_register_control, BusAccess,
};
use super::instructions::{operation_step, InstructionStep, Latch, Operation};
use super::prefixed_instructions::{prefix_n8, prefixed_step};

verus! {

/// Whether the low nibble of the byte `f` is zero.
#[verifier::opaque]
pub open spec fn nibble_clear(f: u8) -> bool {
    f % 16 == 0
}

/// Whether the low nibble of `F` is zero.
pub open spec fn low_nibble_clear(emu: GameboyEmulator) -> bool {
    nibble_clear(emu.cpu.f)
}

/// Every way in which the register file is written keeps the low nibble of
/// `F` zero, and a write of all four flags makes it zero.
pub proof fn register_writes_keep_low_nibble()
    ensures
        forall|cpu: CPU, r8: Register, value: u8|
            nibble_clear(cpu.f) ==> nibble_clear((#[trigger] cpu.with_register(r8, value)).f),
        forall|cpu: CPU, r16: RegisterPair, value: u16|
            nibble_clear(cpu.f) ==> nibble_clear((#[trigger] cpu.with_pair(r16, value)).f),
        forall|cpu: CPU, flag: Flag, value: bool|
            nibble_clear(cpu.f) ==> nibble_clear((#[trigger] cpu.with_flag(flag, value)).f),
        forall|cpu: CPU, z: bool, n: bool, h: bool, c: bool|
            nibble_clear((#[trigger] cpu.with_flags(z, n, h, c)).f),
{
    reveal(nibble_clear);
}

/// A step of an operation that moves bytes between registers and memory
/// keeps the low nibble of `F` zero.
pub proof fn load_step_keeps_low_nibble(emu: GameboyEmulator, op: Operation, k: Latch)
    requires
        is_load(op),
        low_nibble_clear(emu),
    ensures
        low_nibble_clear(operation_step(emu, op, k).1),
{
    register_writes_keep_low_nibble();
    match bus_access(emu.cpu, op, k) {
        BusAccess::Write(address, value) => {
            write_keeps_cpu(emu, address, value);
        },
        _ => {},
    }
}

/// A step of an operation that computes with a byte of memory keeps the
/// low nibble of `F` zero.
pub proof fn arithmetic_step_keeps_low_nibble(emu: GameboyEmulator, op: Operation, k: Latch)
    requires
        is_memory_arithmetic(op),
        low_nibble_clear(emu),
    ensures
        low_nibble_clear(operation_step(emu, op, k).1),
{
    register_writes_keep_low_nibble();
    match bus_access(emu.cpu, op, k) {
        BusAccess::Write(address, value) => {
            write_keeps_cpu(emu, address, value);
        },
        _ => {},
    }
    if op.is_prefixed() {
        assert(operation_step(emu, op, k) == prefixed_step(emu, op, k));
    }
}

/// A step of an operation that moves `PC` or the stack keeps the low
/// nibble of `F` zero.
pub proof fn control_step_keeps_low_nibble(emu: GameboyEmulator, op: Operation, k: Latch)
    requires
        is_control_flow(op),
        low_nibble_clear(emu),
    ensures
        low_nibble_clear(operation_step(emu, op, k).1),
{
    register_writes_keep_low_nibble();
    let below = CPU { sp: wrap16(emu.cpu.sp - 1), ..emu.cpu };
    match bus_access(emu.cpu, op, k) {
        BusAccess::Write(address, value) => {
            bus_ignores_cpu(emu, below, address, value);
            write_keeps_cpu(emu, address, value);
        },
        _ => {},
    }
}

/// A step of an operation that computes on registers only keeps the low
/// nibble of `F` zero.
pub proof fn register_arithmetic_keeps_low_nibble(emu: GameboyEmulator, op: Operation, k: Latch)
    requires
        is_register_arithmetic(op),
        low_nibble_clear(emu),
    ensures
        low_nibble_clear(operation_step(emu, op, k).1),
{
    register_writes_keep_low_nibble();
    if op.is_prefixed() {
        assert(operation_step(emu, op, k) == prefixed_step(emu, op, k));
    }
}

/// A step of an operation that copies registers or steers the CPU keeps
/// the low nibble of `F` zero.
pub proof fn register_control_keeps_low_nibble(emu: GameboyEmulator, op: Operation, k: Latch)
    requires
        is_register_control(op),
        low_nibble_clear(emu),
    ensures
        low_nibble_clear(operation_step(emu, op, k).1),
{
    register_writes_keep_low_nibble();
}

/// Every step of every operation keeps the low nibble of `F` zero.
pub proof fn step_keeps_low_nibble(emu: GameboyEmulator, op: Operation, k: Latch)
    requires
        !(op is Prefix),
        low_nibble_clear(emu),
    ensures
        low_nibble_clear(operation_step(emu, op, k).1),
{
    if is_load(op) {
        load_step_keeps_low_nibble(emu, op, k);
    } else if is_memory_arithmetic(op) {
        arithmetic_step_keeps_low_nibble(emu, op, k);
    } else if is_control_flow(op) {
        control_step_keeps_low_nibble(emu, op, k);
    } else if is_register_arithmetic(op) {
        register_arithmetic_keeps_low_nibble(emu, op, k);
    } else {
        register_control_keeps_low_nibble(emu, op, k);
    }
}

/// The low nibble of `F` stays zero over a machine cycle: once it reads
/// zero it reads zero for good.
pub proof fn machine_cycle_keeps_low_nibble(emu: GameboyEmulator)
    requires
        emu.cpu.f % 16 == 0,
    ensures
        emu.step_spec().cpu.f % 16 == 0,
{
    reveal(nibble_clear);
    machine_cycle_keeps_low_nibble_clear(emu);
}

/// The low nibble of `F` stays zero over a machine cycle.
pub proof fn machine_cycle_keeps_low_nibble_clear(emu: GameboyEmulator)
    requires
        low_nibble_clear(emu),
    ensures
        low_nibble_clear(emu.step_spec()),
{
    housekeeping_keeps_cpu(emu);
    let dispatched = emu.housekeeping_spec().dispatch_spec();
    assert(low_nibble_clear(dispatched));
    let instruction = dispatched.current_instruction;
    match instruction.current_step {
        InstructionStep::Complete => {},
        InstructionStep::Running(k) => {
            if instruction.op is Prefix {
                let (opcode, after) = dispatched.read_pc_spec();
                if k.stage != 0 {
                    step_keeps_low_nibble(
                        after,
                        Operation::of_prefixed(opcode),
                        Latch { stage: 0, lo: 0, hi: 0 },
                    );
                }
                assert(low_nibble_clear(prefix_n8(dispatched, k).1));
            } else {
                step_keeps_low_nibble(dispatched, instruction.op, k);
            }
        },
    }
}

/// Whether the parts of the emulator that no program can change are the
/// same: the ROM of the cartridge, the boot ROM and the kind of bus.
pub open spec fn same_fixtures(one: GameboyEmulator, other: GameboyEmulator) -> bool {
    &&& one.bus.cartridge.rom == other.bus.cartridge.rom
    &&& one.bus.boot_rom == other.bus.boot_rom
    &&& one.bus.flat == other.bus.flat
}

/// Whether `after` has the boot ROM retired if `before` had.
pub open spec fn keeps_boot_rom_retired(before: GameboyEmulator, after: GameboyEmulator) -> bool {
    before.io_registers.boot_rom_control != 0 ==> after.io_registers.boot_rom_control != 0
}

/// A write changes neither ROM nor the kind of bus, and does not map the
/// boot ROM again.
pub proof fn write_keeps_fixtures(emu: GameboyEmulator, address: u16, value: u8)
    ensures
        same_fixtures(Bus::write_spec(emu, address, value), emu),
        keeps_boot_rom_retired(emu, Bus::write_spec(emu, address, value)),
{
    reveal(Bus::write_spec);
}

/// The timer and the DMA engine change neither ROM nor the kind of bus,
/// and do not map the boot ROM again.
pub proof fn housekeeping_keeps_fixtures(emu: GameboyEmulator)
    ensures
        same_fixtures(emu.housekeeping_spec(), emu),
        keeps_boot_rom_retired(emu, emu.housekeeping_spec()),
{
    reveal(GameboyEmulator::housekeeping_spec);
}

/// Boot ROM one-shot, over a machine cycle: whatever the CPU runs, a boot
/// ROM that was retired stays retired, and the ROM of the cartridge, the
/// boot ROM and the kind of bus do not change.
pub proof fn machine_cycle_keeps_boot_rom_retired(emu: GameboyEmulator)
    ensures
        same_fixtures(emu.step_spec(), emu),
        keeps_boot_rom_retired(emu, emu.step_spec()),
{
    housekeeping_keeps_fixtures(emu);
    let dispatched = emu.housekeeping_spec().dispatch_spec();
    assert(same_fixtures(dispatched, emu));
    assert(keeps_boot_rom_retired(emu, dispatched));
    let instruction = dispatched.current_instruction;
    match instruction.current_step {
        InstructionStep::Complete => {},
        InstructionStep::Running(k) => {
            if instruction.op is Prefix {
                prefix_step_reads_once(dispatched, dispatched, k);
            } else {
                step_writes_at_most_once(dispatched, instruction.op, k);
                match bus_access(dispatched.cpu, instruction.op, k) {
                    BusAccess::Write(address, value) => {
                        write_keeps_fixtures(dispatched, address, value);
                    },
                    _ => {},
                }
            }
        },
    }
}

/// DMA lock-out, for every step of every operation: while a transfer is
/// in progress, a step leaves the memory and the I/O registers as they
/// were, or as one write to high RAM leaves them.
pub proof fn step_during_dma_reaches_high_ram_only(emu: GameboyEmulator, op: Operation, k: Latch)
    requires
        !(op is Prefix),
        emu.io_registers.graphics.dma_active(),
        !emu.bus.flat,
    ensures
        same_memory(operation_step(emu, op, k).1, emu) || (bus_access(emu.cpu, op, k) matches BusAccess::Write(
            address,
            value,
        ) && in_hram(address) && same_memory(
            operation_step(emu, op, k).1,
            Bus::write_spec(emu, address, value),
        )),
{
    step_writes_at_most_once(emu, op, k);
    match bus_access(emu.cpu, op, k) {
        BusAccess::Write(address, value) => {
            if !in_hram(address) {
                dma_locks_out_writes(emu, address, value);
            }
        },
        _ => {},
    }
}

/// The low nibble of `F` stays zero, a retired boot ROM stays retired and
/// the fixtures stay the same over any number of machine cycles.
pub proof fn run_keeps_invariants(emu: GameboyEmulator, n: nat)
    ensures
        emu.cpu.f % 16 == 0 ==> emu.run_spec(n).cpu.f % 16 == 0,
        same_fixtures(emu.run_spec(n), emu),
        keeps_boot_rom_retired(emu, emu.run_spec(n)),
    decreases n,
{
    if n > 0 {
        if emu.cpu.f % 16 == 0 {
            machine_cycle_keeps_low_nibble(emu);
        }
        machine_cycle_keeps_boot_rom_retired(emu);
        run_keeps_invariants(emu.step_spec(), (n - 1) as nat);
    }
}

} // verus!
