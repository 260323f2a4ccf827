//! What an OAM DMA transfer copies, whatever the CPU does meanwhile.

use vstd::prelude::*;
use super::bus::{dma_reads_its_source, in_hram, Bus};
use super::emu::{housekeeping_keeps_cpu, GameboyEmulator};
use super::instructions::bus_access::{
    bus_access, prefix_step_reads_once, same_memory, BusAccess,
};
use super::instructions::instructions::{InstructionStep, Latch, Operation};
use super::instructions::invariants::step_during_dma_reaches_high_ram_only;
use super::io::graphics::DMA_LENGTH;
use super::utils::word;

verus! {

/// The byte at index `i` of the page that the transfer of `emu` copies.
pub open spec fn source_byte(emu: GameboyEmulator, i: int) -> u8 {
    Bus::decode_read_spec(emu, word(i as u8, emu.io_registers.graphics.DMA))
}

/// Whether the two emulators hold the same bytes below object memory, in
/// ROM, video RAM, external RAM, work RAM and its echo.
pub open spec fn same_below_oam(one: GameboyEmulator, other: GameboyEmulator) -> bool {
    forall|address: u16|
        address < 0xFE00 ==> #[trigger] Bus::decode_read_spec(one, address)
            == Bus::decode_read_spec(other, address)
}

/// Whether `emu` is `start` with `copied` bytes of its transfer done: the
/// transfer stands at that index, the bytes before it are in object memory,
/// and the memory below object memory is as it was. The page lies below
/// object memory.
pub open spec fn in_transfer(start: GameboyEmulator, emu: GameboyEmulator, copied: int) -> bool {
    &&& 0 <= copied < DMA_LENGTH
    &&& !emu.bus.flat
    &&& start.io_registers.graphics.DMA <= 0xFD
    &&& emu.io_registers.graphics.DMA == start.io_registers.graphics.DMA
    &&& emu.io_registers.graphics.DMA_transfer_progress == Some(copied as u8)
    &&& forall|i: int| 0 <= i < copied ==> emu.bus.oam[i] == source_byte(start, i)
    &&& same_below_oam(emu, start)
}

/// Whether `emu` holds the whole page of the transfer of `start` in object
/// memory, and the transfer is over.
pub open spec fn transferred(start: GameboyEmulator, emu: GameboyEmulator) -> bool {
    &&& emu.io_registers.graphics.DMA_transfer_progress is None
    &&& forall|i: int| 0 <= i < DMA_LENGTH ==> emu.bus.oam[i] == source_byte(start, i)
}

/// The timer and the DMA engine move a transfer on by one byte: that byte
/// of the page is in object memory after them, and the memory below object
/// memory is as it was.
pub proof fn housekeeping_copies_one_byte(start: GameboyEmulator, emu: GameboyEmulator, copied: int)
    requires
        in_transfer(start, emu, copied),
    ensures
        copied < DMA_LENGTH - 1 ==> in_transfer(start, emu.housekeeping_spec(), copied + 1),
        copied == DMA_LENGTH - 1 ==> transferred(start, emu.housekeeping_spec()),
        same_below_oam(emu.housekeeping_spec(), start),
{
    reveal(GameboyEmulator::housekeeping_spec);
    let timed = super::io::timer::TimerRegisters::update_spec(emu);
    assert(timed.bus == emu.bus);
    assert(timed.io_registers.graphics == emu.io_registers.graphics);
    assert(timed.io_registers.boot_rom_control == emu.io_registers.boot_rom_control);
    let source = word(copied as u8, emu.io_registers.graphics.DMA);
    assert(source < 0xFE00);
    dma_reads_its_source(timed);
    assert(Bus::decode_read_spec(timed, source) == Bus::decode_read_spec(emu, source));
    assert(Bus::decode_read_spec(emu, source) == Bus::decode_read_spec(start, source));
    let after = emu.housekeeping_spec();
    assert(after.bus.oam[copied] == source_byte(start, copied));
    assert forall|address: u16| address < 0xFE00 implies #[trigger] Bus::decode_read_spec(
        after,
        address,
    ) == Bus::decode_read_spec(start, address) by {
        assert(Bus::decode_read_spec(after, address) == Bus::decode_read_spec(emu, address));
    }
}

/// A write to high RAM leaves the rest alone: object memory, the memory
/// below it, the DMA engine and the kind of bus.
pub proof fn high_ram_write_keeps_transfer(emu: GameboyEmulator, address: u16, value: u8)
    requires
        in_hram(address),
    ensures
        Bus::write_spec(emu, address, value).bus.oam == emu.bus.oam,
        Bus::write_spec(emu, address, value).bus.flat == emu.bus.flat,
        Bus::write_spec(emu, address, value).io_registers == emu.io_registers,
        !emu.bus.flat ==> same_below_oam(Bus::write_spec(emu, address, value), emu),
{
    reveal(Bus::write_spec);
}

/// Emulators that hold the same memory and I/O registers hold the same
/// bytes below object memory.
pub proof fn same_memory_is_same_below_oam(one: GameboyEmulator, other: GameboyEmulator)
    requires
        same_memory(one, other),
    ensures
        same_below_oam(one, other),
{
}

/// A machine cycle moves a transfer on by one byte, whatever the CPU
/// does: its reads see the byte in transfer, and of its writes only those to
/// high RAM arrive.
pub proof fn machine_cycle_copies_one_byte(start: GameboyEmulator, emu: GameboyEmulator, copied: int)
    requires
        in_transfer(start, emu, copied),
        copied < DMA_LENGTH - 1,
    ensures
        in_transfer(start, emu.step_spec(), copied + 1),
{
    housekeeping_copies_one_byte(start, emu, copied);
    let kept = emu.housekeeping_spec();
    let dispatched = kept.dispatch_spec();
    assert(dispatched.bus == kept.bus);
    assert(dispatched.io_registers.graphics == kept.io_registers.graphics);
    assert(dispatched.io_registers.boot_rom_control == kept.io_registers.boot_rom_control);
    assert forall|address: u16| address < 0xFE00 implies #[trigger] Bus::decode_read_spec(
        dispatched,
        address,
    ) == Bus::decode_read_spec(start, address) by {
        assert(Bus::decode_read_spec(dispatched, address) == Bus::decode_read_spec(kept, address));
    }
    assert(in_transfer(start, dispatched, copied + 1));
    let instruction = dispatched.current_instruction;
    let stepped = emu.step_spec();
    match instruction.current_step {
        InstructionStep::Complete => {
            assert(same_memory(stepped, dispatched));
            same_memory_is_same_below_oam(stepped, dispatched);
        },
        InstructionStep::Running(k) => {
            if instruction.op is Prefix {
                prefix_step_reads_once(dispatched, dispatched, k);
                assert(same_memory(stepped, dispatched));
                same_memory_is_same_below_oam(stepped, dispatched);
            } else {
                step_during_dma_reaches_high_ram_only(dispatched, instruction.op, k);
                if same_memory(stepped, dispatched) {
                    same_memory_is_same_below_oam(stepped, dispatched);
                } else {
                    match bus_access(dispatched.cpu, instruction.op, k) {
                        BusAccess::Write(address, value) => {
                            let written = Bus::write_spec(dispatched, address, value);
                            high_ram_write_keeps_transfer(dispatched, address, value);
                            same_memory_is_same_below_oam(stepped, written);
                            assert forall|a: u16| a < 0xFE00 implies #[trigger] Bus::decode_read_spec(
                                stepped,
                                a,
                            ) == Bus::decode_read_spec(dispatched, a) by {
                                assert(Bus::decode_read_spec(stepped, a) == Bus::decode_read_spec(
                                    written,
                                    a,
                                ));
                            }
                        },
                        _ => {},
                    }
                }
            }
        },
    }
    memory_decides_transfer(start, dispatched, stepped, copied + 1);
}

/// Where an emulator is in a transfer, so is every emulator that holds the
/// same object memory, DMA registers and kind of bus, and the same bytes
/// below object memory.
pub proof fn memory_decides_transfer(
    start: GameboyEmulator,
    emu: GameboyEmulator,
    other: GameboyEmulator,
    copied: int,
)
    requires
        in_transfer(start, emu, copied),
        other.bus.oam == emu.bus.oam,
        other.bus.flat == emu.bus.flat,
        other.io_registers.graphics == emu.io_registers.graphics,
        same_below_oam(other, emu),
    ensures
        in_transfer(start, other, copied),
{
    assert forall|address: u16| address < 0xFE00 implies #[trigger] Bus::decode_read_spec(
        other,
        address,
    ) == Bus::decode_read_spec(start, address) by {
        assert(Bus::decode_read_spec(other, address) == Bus::decode_read_spec(emu, address));
    }
}

/// After `n` machine cycles of a transfer, `n` bytes are copied.
pub proof fn machine_cycles_copy_as_many_bytes(start: GameboyEmulator, emu: GameboyEmulator, copied: int, n: nat)
    requires
        in_transfer(start, emu, copied),
        copied + n < DMA_LENGTH,
    ensures
        in_transfer(start, emu.run_spec(n), copied + n),
    decreases n,
{
    if n > 0 {
        machine_cycle_copies_one_byte(start, emu, copied);
        machine_cycles_copy_as_many_bytes(start, emu.step_spec(), copied + 1, (n - 1) as nat);
    }
}

/// OAM DMA: a transfer from a page below object memory copies the 160
/// bytes that the page held when it began, one per machine cycle, whatever
/// the CPU runs meanwhile. After 159 machine cycles 159 bytes are copied,
/// and the timer and DMA engine's part of the 160th copies the last and ends
/// the transfer.
pub proof fn transfer_copies_its_page(start: GameboyEmulator)
    requires
        !start.bus.flat,
        start.io_registers.graphics.DMA <= 0xFD,
        start.io_registers.graphics.DMA_transfer_progress == Some(0u8),
    ensures
        in_transfer(start, start.run_spec(159), 159),
        transferred(start, start.run_spec(159).housekeeping_spec()),
{
    assert(in_transfer(start, start, 0));
    machine_cycles_copy_as_many_bytes(start, start, 0, 159);
    housekeeping_copies_one_byte(start, start.run_spec(159), 159);
}

} // verus!
