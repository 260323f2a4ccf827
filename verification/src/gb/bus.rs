//! The address bus: region decode, the boot-ROM overlay, the lock-out
//! during OAM DMA, and the flat memory that conformance tests install in
//! place of the memory map.

use vstd::prelude::*;
use vstd::array::spec_array_update;
use super::cartridge::Cartridge;
use super::cpu::CPU;
use super::emu::GameboyEmulator;
use super::io::io_registers::IORegisters;
use super::utils::join_u16;

verus! {

#[derive(Debug)]
pub struct Bus {
    pub cartridge: Cartridge,
    /// The image that is mapped over `0000..=00FF` until `FF50` is written.
    pub boot_rom: [u8; 256],
    /// `8000..=9FFF`: tile data, then the two background maps.
    pub vram: [u8; 8192],
    /// General purpose work RAM, `C000..=DFFF`.
    pub wram: [u8; 8192],
    /// `FE00..=FE9F`: forty objects of four bytes.
    pub oam: [u8; 160],
    /// High RAM, `FF80..=FFFE`.
    pub hram: [u8; 127],
    /// Whether every address reads and writes `test_ram` and nothing else.
    pub flat: bool,
    /// 64 KiB of plain memory, in use while `flat` is set.
    pub test_ram: [u8; 65536],
}

/// Offsets into video RAM.
pub const TILE_DATA: usize = 0;

pub const BACKGROUND_MAP_1: usize = 6144;

pub const BACKGROUND_MAP_2: usize = 7168;

/// Whether `address` lies in high RAM, the one region that OAM DMA leaves
/// open.
pub open spec fn in_hram(address: u16) -> bool {
    0xFF80 <= address <= 0xFFFE
}

impl Bus {
    /// What the memory map holds at `address`, the DMA lock-out set aside.
    pub open spec fn decode_read_spec(emu: GameboyEmulator, address: u16) -> u8 {
        let bus = emu.bus;
        if address <= 0x00FF {
            if emu.io_registers.boot_rom_control == 0 {
                // ? Boot ROM is still mapped.
                bus.boot_rom[address as int]
            } else {
                bus.cartridge.rom_byte(address)
            }
        } else if address <= 0x7FFF {
            bus.cartridge.rom_byte(address)
        } else if address <= 0x9FFF {
            bus.vram[address - 0x8000]
        } else if address <= 0xBFFF {
            bus.cartridge.ram_byte((address - 0xA000) as u16)
        } else if address <= 0xDFFF {
            bus.wram[address - 0xC000]
        } else if address <= 0xFDFF {
            bus.wram[address - 0xE000]
        } else if address <= 0xFE9F {
            bus.oam[address - 0xFE00]
        } else if address <= 0xFEFF {
            0xFF
        } else if address <= 0xFF7F {
            IORegisters::read_spec(emu, (address - 0xFF00) as usize)
        } else if address <= 0xFFFE {
            bus.hram[address - 0xFF80]
        } else {
            IORegisters::read_spec(emu, 0xFF)
        }
    }

    /// The emulator after `value` went to `address` through the memory map,
    /// the DMA lock-out set aside. Writes to ROM and to the prohibited
    /// region are dropped.
    pub open spec fn decode_write_spec(emu: GameboyEmulator, address: u16, value: u8) -> GameboyEmulator {
        let bus = emu.bus;
        if address <= 0x7FFF {
            emu
        } else if address <= 0x9FFF {
            emu.with_bus(Bus { vram: spec_array_update(bus.vram, address - 0x8000, value), ..bus })
        } else if address <= 0xBFFF {
            emu.with_bus(
                Bus {
                    cartridge: bus.cartridge.with_ram_byte((address - 0xA000) as u16, value),
                    ..bus
                },
            )
        } else if address <= 0xDFFF {
            emu.with_bus(Bus { wram: spec_array_update(bus.wram, address - 0xC000, value), ..bus })
        } else if address <= 0xFDFF {
            emu.with_bus(Bus { wram: spec_array_update(bus.wram, address - 0xE000, value), ..bus })
        } else if address <= 0xFE9F {
            emu.with_oam_byte(address - 0xFE00, value)
        } else if address <= 0xFEFF {
            emu
        } else if address <= 0xFF7F {
            IORegisters::write_spec(emu, (address - 0xFF00) as usize, value)
        } else if address <= 0xFFFE {
            emu.with_bus(Bus { hram: spec_array_update(bus.hram, address - 0xFF80, value), ..bus })
        } else {
            IORegisters::write_spec(emu, 0xFF, value)
        }
    }

    /// Whether an access to `address` is locked out: a DMA transfer is in
    /// progress and the address is not in high RAM.
    pub open spec fn locked_out(emu: GameboyEmulator, address: u16) -> bool {
        emu.io_registers.graphics.dma_active() && !in_hram(address)
    }

    /// What a read of `address` returns. Flat memory returns its byte.
    /// Otherwise a locked-out read returns the byte that the transfer is
    /// moving, and any other read what the memory map holds.
    #[verifier::opaque]
    pub open spec fn read_spec(emu: GameboyEmulator, address: u16) -> u8 {
        if emu.bus.flat {
            emu.bus.test_ram[address as int]
        } else if Self::locked_out(emu, address) {
            Self::decode_read_spec(emu, emu.io_registers.graphics.dma_source())
        } else {
            Self::decode_read_spec(emu, address)
        }
    }

    /// The emulator after a write of `value` to `address`. Flat memory
    /// stores the byte. Otherwise a locked-out write is dropped, and any
    /// other write goes through the memory map.
    #[verifier::opaque]
    pub open spec fn write_spec(emu: GameboyEmulator, address: u16, value: u8) -> GameboyEmulator {
        if emu.bus.flat {
            emu.with_bus(
                Bus { test_ram: spec_array_update(emu.bus.test_ram, address as int, value), ..emu.bus },
            )
        } else if Self::locked_out(emu, address) {
            emu
        } else {
            Self::decode_write_spec(emu, address, value)
        }
    }

    /// The emulator after the writes `writes`, each an address and a value,
    /// were made in order.
    pub open spec fn write_all_spec(emu: GameboyEmulator, writes: Seq<(u16, u8)>) -> GameboyEmulator
        decreases writes.len(),
    {
        if writes.len() == 0 {
            emu
        } else {
            Self::write_all_spec(
                Self::write_spec(emu, writes[0].0, writes[0].1),
                writes.drop_first(),
            )
        }
    }

    /// Whether the memory at `address` keeps what is written to it: any
    /// address of flat memory; otherwise work RAM while no DMA transfer is in
    /// progress, and high RAM.
    pub open spec fn keeps_writes(emu: GameboyEmulator, address: u16) -> bool {
        emu.bus.flat || in_hram(address) || (0xC000 <= address <= 0xDFFF
            && !emu.io_registers.graphics.dma_active())
    }

    /// The bus of `cartridge` and `boot_rom`, every RAM zeroed.
    pub fn new(cartridge: Cartridge, boot_rom: [u8; 256], flat: bool) -> (bus: Self)
        ensures
            bus.cartridge == cartridge,
            bus.boot_rom == boot_rom,
            bus.flat == flat,
            forall|i: int| 0 <= i < 8192 ==> bus.vram[i] == 0 && bus.wram[i] == 0,
            forall|i: int| 0 <= i < 160 ==> bus.oam[i] == 0,
            forall|i: int| 0 <= i < 127 ==> bus.hram[i] == 0,
            forall|i: int| 0 <= i < 65536 ==> bus.test_ram[i] == 0,
    {
        Bus {
            cartridge,
            boot_rom,
            vram: [0u8; 8192],
            wram: [0u8; 8192],
            oam: [0u8; 160],
            hram: [0u8; 127],
            flat,
            test_ram: [0u8; 65536],
        }
    }

    /// Reads the memory map at `address`, the DMA lock-out set aside.
    pub fn decode_read(emu: &GameboyEmulator, address: u16) -> (value: u8)
        ensures
            value == Self::decode_read_spec(*emu, address),
    {
        match address {
            0x0000..=0x00FF => {
                if emu.io_registers.boot_rom_control == 0x00 {
                    // ? Boot ROM is still mapped.
                    emu.bus.boot_rom[address as usize]
                } else {
                    emu.bus.cartridge.read_rom(address)
                }
            },
            0x0100..=0x7FFF => emu.bus.cartridge.read_rom(address),
            0x8000..=0x9FFF => emu.bus.vram[address as usize - 0x8000],
            0xA000..=0xBFFF => emu.bus.cartridge.read_ram(address - 0xA000),
            0xC000..=0xDFFF => emu.bus.wram[address as usize - 0xC000],
            0xE000..=0xFDFF => emu.bus.wram[address as usize - 0xE000],
            0xFE00..=0xFE9F => emu.bus.oam[address as usize - 0xFE00],
            0xFEA0..=0xFEFF => 0xFF,
            0xFF00..=0xFF7F => IORegisters::read(emu, address as usize - 0xFF00),
            0xFF80..=0xFFFE => emu.bus.hram[address as usize - 0xFF80],
            0xFFFF => IORegisters::read(emu, address as usize - 0xFF00),
        }
    }

    /// Writes `value` through the memory map, the DMA lock-out set aside.
    pub fn decode_write(emu: &mut GameboyEmulator, address: u16, value: u8)
        ensures
            *final(emu) == Self::decode_write_spec(*old(emu), address, value),
    {
        match address {
            0x0000..=0x7FFF => emu.bus.cartridge.write_rom(address, value),
            0x8000..=0x9FFF => emu.bus.vram[address as usize - 0x8000] = value,
            0xA000..=0xBFFF => emu.bus.cartridge.write_ram(address - 0xA000, value),
            0xC000..=0xDFFF => emu.bus.wram[address as usize - 0xC000] = value,
            0xE000..=0xFDFF => emu.bus.wram[address as usize - 0xE000] = value,
            0xFE00..=0xFE9F => emu.bus.oam[address as usize - 0xFE00] = value,
            0xFEA0..=0xFEFF => {},
            0xFF00..=0xFF7F => IORegisters::write(emu, address as usize - 0xFF00, value),
            0xFF80..=0xFFFE => emu.bus.hram[address as usize - 0xFF80] = value,
            0xFFFF => IORegisters::write(emu, address as usize - 0xFF00, value),
        }
    }

    pub fn read(emu: &GameboyEmulator, address: u16) -> (value: u8)
        ensures
            value == Self::read_spec(*emu, address),
    {
        proof {
            reveal(Bus::read_spec);
        }
        if emu.bus.flat {
            return emu.bus.test_ram[address as usize];
        }
        // ? DMA transfer in progress: R/W is not functional (except for HRAM = 0xFF80..=0xFFFE).

        if let Some(index) = emu.io_registers.graphics.DMA_transfer_progress {
            if !(0xFF80 <= address && address <= 0xFFFE) {
                // ? Reads during DMA transfer actually return the byte being transferred.
                return Self::decode_read(emu, join_u16(index, emu.io_registers.graphics.DMA));
            }
        }
        Self::decode_read(emu, address)
    }

    pub fn write(emu: &mut GameboyEmulator, address: u16, value: u8)
        ensures
            *final(emu) == Self::write_spec(*old(emu), address, value),
    {
        proof {
            reveal(Bus::write_spec);
        }
        if emu.bus.flat {
            emu.bus.test_ram[address as usize] = value;
            return ;
        }
        // ? DMA transfer in progress: R/W is not functional (except for HRAM = 0xFF80..=0xFFFE).

        if emu.io_registers.graphics.DMA_transfer_progress.is_some() && !(0xFF80 <= address
            && address <= 0xFFFE) {
            return ;
        }
        Self::decode_write(emu, address, value)
    }

    /// Zeroes the flat memory and hands back what it held.
    pub fn reset_test_ram(emu: &mut GameboyEmulator) -> (ram: [u8; 65536])
        ensures
            ram == old(emu).bus.test_ram,
            forall|i: int| 0 <= i < 65536 ==> final(emu).bus.test_ram[i] == 0,
            *final(emu) == old(emu).with_bus(Bus { test_ram: final(emu).bus.test_ram, ..old(emu).bus }),
    {
        let ram = emu.bus.test_ram;
        emu.bus.test_ram = [0u8; 65536];
        ram
    }
}

/// Echo RAM: a byte written to work RAM at `C000..=DDFF` is read back
/// `2000` higher. This is a law of the memory map: it needs the mapped bus
/// and no DMA transfer in progress.
pub proof fn echo_ram_mirrors_work_ram(emu: GameboyEmulator, address: u16, value: u8)
    requires
        0xC000 <= address <= 0xDDFF,
        !emu.bus.flat,
        !emu.io_registers.graphics.dma_active(),
    ensures
        Bus::read_spec(Bus::write_spec(emu, address, value), (address + 0x2000) as u16) == value,
        Bus::read_spec(Bus::write_spec(emu, (address + 0x2000) as u16, value), address) == value,
{
    reveal(Bus::read_spec);
    reveal(Bus::write_spec);
}

/// The memory map holds `FF` all over the prohibited region, whatever the
/// state.
pub proof fn prohibited_region_holds_ff(emu: GameboyEmulator, address: u16)
    requires
        0xFEA0 <= address <= 0xFEFF,
    ensures
        Bus::decode_read_spec(emu, address) == 0xFF,
{
}

/// Prohibited region: after any write, a read of `FEA0..=FEFF` returns
/// `FF`. The read must not be locked out: a write that starts a DMA
/// transfer makes every read outside high RAM return the byte in transfer.
pub proof fn prohibited_region_reads_ff(
    emu: GameboyEmulator,
    written: u16,
    value: u8,
    address: u16,
)
    requires
        0xFEA0 <= address <= 0xFEFF,
        !emu.bus.flat,
        !Bus::write_spec(emu, written, value).io_registers.graphics.dma_active(),
    ensures
        Bus::read_spec(Bus::write_spec(emu, written, value), address) == 0xFF,
{
    reveal(Bus::read_spec);
    reveal(Bus::write_spec);
}

/// No write maps the boot ROM again, and no write changes the ROM of the
/// cartridge or the kind of bus.
pub proof fn writes_keep_boot_rom_retired(emu: GameboyEmulator, writes: Seq<(u16, u8)>)
    ensures
        emu.io_registers.boot_rom_control != 0 ==> Bus::write_all_spec(
            emu,
            writes,
        ).io_registers.boot_rom_control != 0,
        Bus::write_all_spec(emu, writes).bus.cartridge.rom == emu.bus.cartridge.rom,
        Bus::write_all_spec(emu, writes).bus.flat == emu.bus.flat,
    decreases writes.len(),
{
    reveal(Bus::read_spec);
    reveal(Bus::write_spec);
    if writes.len() > 0 {
        writes_keep_boot_rom_retired(
            Bus::write_spec(emu, writes[0].0, writes[0].1),
            writes.drop_first(),
        );
    }
}

/// Boot ROM one-shot: after a nonzero write to `FF50`, a read of
/// `0000..=00FF` returns the byte of the cartridge, whatever is written
/// afterwards, to `FF50` or elsewhere. The write to `FF50` and the read
/// must not be locked out.
pub proof fn boot_rom_retires_once(
    emu: GameboyEmulator,
    value: u8,
    writes: Seq<(u16, u8)>,
    address: u16,
)
    requires
        value != 0,
        address <= 0x00FF,
        !emu.bus.flat,
        !emu.io_registers.graphics.dma_active(),
        !Bus::write_all_spec(
            Bus::write_spec(emu, 0xFF50, value),
            writes,
        ).io_registers.graphics.dma_active(),
    ensures
        Bus::read_spec(
            Bus::write_all_spec(Bus::write_spec(emu, 0xFF50, value), writes),
            address,
        ) == emu.bus.cartridge.rom_byte(address),
{
    reveal(Bus::read_spec);
    reveal(Bus::write_spec);
    writes_keep_boot_rom_retired(Bus::write_spec(emu, 0xFF50, value), writes);
}

/// What the DMA engine reads is the byte at its source address: the
/// lock-out sends every read to that address, and a source in high RAM is
/// not locked out.
pub proof fn dma_reads_its_source(emu: GameboyEmulator)
    requires
        emu.io_registers.graphics.dma_active(),
        !emu.bus.flat,
    ensures
        Bus::read_spec(emu, emu.io_registers.graphics.dma_source()) == Bus::decode_read_spec(
            emu,
            emu.io_registers.graphics.dma_source(),
        ),
{
    reveal(Bus::read_spec);
}

/// DMA lock-out: while a transfer is in progress, a write to an address
/// outside high RAM changes nothing at all. Flat memory has no DMA engine
/// in front of it.
pub proof fn dma_locks_out_writes(emu: GameboyEmulator, address: u16, value: u8)
    requires
        emu.io_registers.graphics.dma_active(),
        !in_hram(address),
        !emu.bus.flat,
    ensures
        Bus::write_spec(emu, address, value) == emu,
{
    reveal(Bus::read_spec);
    reveal(Bus::write_spec);
}

/// A write reaches memory and I/O registers only: the CPU, the interrupt
/// enable and the instruction in progress are as before.
pub proof fn write_keeps_cpu(emu: GameboyEmulator, address: u16, value: u8)
    ensures
        Bus::write_spec(emu, address, value).cpu == emu.cpu,
        Bus::write_spec(emu, address, value).ime == emu.ime,
        Bus::write_spec(emu, address, value).is_halted == emu.is_halted,
        Bus::write_spec(emu, address, value).halt_bug == emu.halt_bug,
        Bus::write_spec(emu, address, value).invalid_opcode == emu.invalid_opcode,
        Bus::write_spec(emu, address, value).current_instruction == emu.current_instruction,
        Bus::write_spec(emu, address, value).bus.flat == emu.bus.flat,
{
    reveal(Bus::read_spec);
    reveal(Bus::write_spec);
}

/// The bus does not look at the CPU: a read returns the same byte
/// whatever the registers hold, and a write does the same to memory.
pub proof fn bus_ignores_cpu(emu: GameboyEmulator, cpu: CPU, address: u16, value: u8)
    ensures
        Bus::read_spec(emu.with_cpu(cpu), address) == Bus::read_spec(emu, address),
        Bus::write_spec(emu.with_cpu(cpu), address, value) == Bus::write_spec(
            emu,
            address,
            value,
        ).with_cpu(cpu),
        Bus::keeps_writes(emu.with_cpu(cpu), address) == Bus::keeps_writes(emu, address),
{
    reveal(Bus::read_spec);
    reveal(Bus::write_spec);
}

/// Memory that keeps writes returns what was written, and a write
/// elsewhere does not disturb it.
pub proof fn read_after_write(emu: GameboyEmulator, address: u16, other: u16, value: u8)
    requires
        Bus::keeps_writes(emu, address),
        Bus::keeps_writes(emu, other),
        address != other,
    ensures
        Bus::read_spec(Bus::write_spec(emu, address, value), address) == value,
        Bus::read_spec(Bus::write_spec(emu, other, value), address) == Bus::read_spec(emu, address),
        Bus::keeps_writes(Bus::write_spec(emu, other, value), address),
        Bus::keeps_writes(Bus::write_spec(emu, other, value), other),
{
    reveal(Bus::read_spec);
    reveal(Bus::write_spec);
}

} // verus!
