//! The I/O register block `FF00..=FF7F` and the interrupt-enable register
//! `FFFF`, addressed by the low byte.

use vstd::prelude::*;
use crate::gb::emu::GameboyEmulator;
use crate::gb::utils::high_byte;
use super::graphics::GraphicsRegisters;
use super::joypad::{Buttons, JoypadRegisters};
use super::timer::TimerRegisters;

verus! {

#[derive(Debug, Clone, Copy)]
pub struct IORegisters {
    pub joypad: JoypadRegisters,
    pub serial: SerialRegisters,
    pub timer: TimerRegisters,
    pub graphics: GraphicsRegisters,
    pub interrupts: InterruptsRegisters,
    /// `0xFF50` - zero while the boot ROM is mapped over `0000..=00FF`.
    pub boot_rom_control: u8,
    /// `0xFF30..=0xFF3F` - wave pattern RAM.
    pub wave_ram: [u8; 16],
}

impl IORegisters {
    /// The registers after a write of `value` to `FF50`. The first nonzero
    /// value retires the boot ROM for good: later writes change nothing.
    pub open spec fn with_boot_rom_control(self, value: u8) -> IORegisters {
        if self.boot_rom_control == 0 {
            IORegisters { boot_rom_control: value, ..self }
        } else {
            self
        }
    }

    /// What a read of the register at `FF00 + index` returns. Unmapped
    /// registers and the audio block read `FF`; the unused bits of the joypad register,
    /// `TAC`, `IF`, `STAT` and `IE` read 1.
    pub open spec fn read_spec(emu: GameboyEmulator, index: usize) -> u8 {
        let io = emu.io_registers;
        if index == 0x00 {
            io.joypad.input_state | 0b1100_0000
        } else if index == 0x01 {
            io.serial.SB
        } else if index == 0x02 {
            io.serial.SC
        } else if index == 0x04 {
            high_byte(io.timer.DIV)
        } else if index == 0x05 {
            io.timer.TIMA
        } else if index == 0x06 {
            io.timer.TMA
        } else if index == 0x07 {
            io.timer.TAC | 0b1111_1000
        } else if index == 0x0F {
            io.interrupts.IF | 0b1110_0000
        } else if 0x30 <= index <= 0x3F {
            io.wave_ram[index - 0x30]
        } else if index == 0x40 {
            io.graphics.LCDC
        } else if index == 0x41 {
            io.graphics.STAT | 0b1000_0000
        } else if index == 0x42 {
            io.graphics.SCY
        } else if index == 0x43 {
            io.graphics.SCX
        } else if index == 0x44 {
            io.graphics.LY
        } else if index == 0x45 {
            io.graphics.LYC
        } else if index == 0x46 {
            io.graphics.DMA
        } else if index == 0x47 {
            io.graphics.BGP
        } else if index == 0x48 {
            io.graphics.OBP0
        } else if index == 0x49 {
            io.graphics.OBP1
        } else if index == 0x4A {
            io.graphics.WY
        } else if index == 0x4B {
            io.graphics.WX
        } else if index == 0x50 {
            io.boot_rom_control
        } else if index == 0xFF {
            io.interrupts.IE | 0b1110_0000
        } else {
            0xFF
        }
    }

    /// The emulator after a write of `value` to the register at
    /// `FF00 + index`. Writes to unmapped registers and to the audio block
    /// are dropped.
    pub open spec fn write_spec(emu: GameboyEmulator, index: usize, value: u8) -> GameboyEmulator {
        let io = emu.io_registers;
        if index == 0x00 {
            emu.with_joypad(io.joypad.written(value))
        } else if index == 0x01 {
            emu.with_io(IORegisters { serial: SerialRegisters { SB: value, ..io.serial }, ..io })
        } else if index == 0x02 {
            emu.with_io(IORegisters { serial: SerialRegisters { SC: value, ..io.serial }, ..io })
        } else if index == 0x04 {
            emu.with_timer(TimerRegisters { DIV: 0, ..io.timer })
        } else if index == 0x05 {
            emu.with_timer(io.timer.with_tima(value))
        } else if index == 0x06 {
            emu.with_timer(TimerRegisters { TMA: value, ..io.timer })
        } else if index == 0x07 {
            emu.with_timer(TimerRegisters { TAC: value, ..io.timer })
        } else if index == 0x0F {
            emu.with_io(
                IORegisters { interrupts: InterruptsRegisters { IF: value, ..io.interrupts }, ..io },
            )
        } else if 0x30 <= index <= 0x3F {
            emu.with_io(
                IORegisters {
                    wave_ram: vstd::array::spec_array_update(io.wave_ram, index - 0x30, value),
                    ..io
                },
            )
        } else if index == 0x40 {
            emu.with_graphics(GraphicsRegisters { LCDC: value, ..io.graphics })
        } else if index == 0x41 {
            emu.with_graphics(GraphicsRegisters { STAT: value, ..io.graphics })
        } else if index == 0x42 {
            emu.with_graphics(GraphicsRegisters { SCY: value, ..io.graphics })
        } else if index == 0x43 {
            emu.with_graphics(GraphicsRegisters { SCX: value, ..io.graphics })
        } else if index == 0x44 {
            emu.with_graphics(GraphicsRegisters { LY: value, ..io.graphics })
        } else if index == 0x45 {
            emu.with_graphics(GraphicsRegisters { LYC: value, ..io.graphics })
        } else if index == 0x46 {
            emu.with_graphics(io.graphics.with_dma_started(value))
        } else if index == 0x47 {
            emu.with_graphics(GraphicsRegisters { BGP: value, ..io.graphics })
        } else if index == 0x48 {
            emu.with_graphics(GraphicsRegisters { OBP0: value, ..io.graphics })
        } else if index == 0x49 {
            emu.with_graphics(GraphicsRegisters { OBP1: value, ..io.graphics })
        } else if index == 0x4A {
            emu.with_graphics(GraphicsRegisters { WY: value, ..io.graphics })
        } else if index == 0x4B {
            emu.with_graphics(GraphicsRegisters { WX: value, ..io.graphics })
        } else if index == 0x50 {
            emu.with_io(io.with_boot_rom_control(value))
        } else if index == 0xFF {
            emu.with_io(
                IORegisters { interrupts: InterruptsRegisters { IE: value, ..io.interrupts }, ..io },
            )
        } else {
            emu
        }
    }

    pub fn new() -> (io: Self)
        ensures
            io.joypad.input_state == 0b0000_1111,
            io.serial == (SerialRegisters { SB: 0, SC: 0 }),
            io.timer == TimerRegisters::new_spec(),
            io.graphics == GraphicsRegisters::new_spec(),
            io.interrupts == (InterruptsRegisters { IF: 0, IE: 0 }),
            io.boot_rom_control == 0,
            forall|i: int| 0 <= i < 16 ==> io.wave_ram[i] == 0,
    {
        Self {
            joypad: JoypadRegisters::new(),
            serial: SerialRegisters::new(),
            timer: TimerRegisters::new(),
            graphics: GraphicsRegisters::new(),
            interrupts: InterruptsRegisters::new(),
            boot_rom_control: 0x00,
            wave_ram: [0u8; 16],
        }
    }

    /// The emulator after the joypad sampled `buttons`, the timer advanced
    /// by four t-cycles and the DMA engine copied at most one byte.
    pub open spec fn update_spec(emu: GameboyEmulator, buttons: Buttons) -> GameboyEmulator {
        JoypadRegisters::update_spec(emu, buttons).housekeeping_spec()
    }

    /// Updates timers and I/O as if 4 t-cycles have passed.
    pub fn update(emu: &mut GameboyEmulator, buttons: Buttons)
        ensures
            *final(emu) == Self::update_spec(*old(emu), buttons),
    {
        JoypadRegisters::update(emu, buttons);
        emu.housekeeping();
    }

    pub fn read(emu: &GameboyEmulator, index: usize) -> (value: u8)
        ensures
            value == Self::read_spec(*emu, index),
    {
        match index {
            0x0000 => emu.io_registers.joypad.read(),
            0x0001 => emu.io_registers.serial.SB,
            0x0002 => emu.io_registers.serial.SC,
            0x0004 => emu.io_registers.timer.read_DIV(),
            0x0005 => emu.io_registers.timer.TIMA,
            0x0006 => emu.io_registers.timer.TMA,
            0x0007 => emu.io_registers.timer.read_TAC(),
            0x000F => emu.io_registers.interrupts.IF | 0b1110_0000,
            // ? Audio: channels 1 to 4 and control.
            0x0010..=0x0026 => 0xFF,
            0x0030..=0x003F => emu.io_registers.wave_ram[index - 0x30],
            0x0040 => emu.io_registers.graphics.LCDC,
            0x0041 => emu.io_registers.graphics.STAT | 0b1000_0000,
            0x0042 => emu.io_registers.graphics.SCY,
            0x0043 => emu.io_registers.graphics.SCX,
            0x0044 => emu.io_registers.graphics.LY,
            0x0045 => emu.io_registers.graphics.LYC,
            0x0046 => emu.io_registers.graphics.DMA,
            0x0047 => emu.io_registers.graphics.BGP,
            0x0048 => emu.io_registers.graphics.OBP0,
            0x0049 => emu.io_registers.graphics.OBP1,
            0x004A => emu.io_registers.graphics.WY,
            0x004B => emu.io_registers.graphics.WX,
            0x0050 => emu.io_registers.boot_rom_control,
            0x00FF => emu.io_registers.interrupts.IE | 0b1110_0000,
            // ? Unmapped.
            _ => 0xFF,
        }
    }

    pub fn write(emu: &mut GameboyEmulator, index: usize, value: u8)
        ensures
            *final(emu) == Self::write_spec(*old(emu), index, value),
    {
        match index {
            0x0000 => emu.io_registers.joypad.write(value),
            0x0001 => SerialRegisters::write_SB(emu, value),
            0x0002 => emu.io_registers.serial.SC = value,
            0x0004 => emu.io_registers.timer.write_DIV(),
            0x0005 => emu.io_registers.timer.write_TIMA(value),
            0x0006 => emu.io_registers.timer.TMA = value,
            0x0007 => emu.io_registers.timer.TAC = value,
            0x000F => emu.io_registers.interrupts.IF = value,
            // ? Audio: channels 1 to 4 and control.
            0x0010..=0x0026 => {},
            0x0030..=0x003F => emu.io_registers.wave_ram[index - 0x30] = value,
            0x0040 => emu.io_registers.graphics.LCDC = value,
            0x0041 => emu.io_registers.graphics.STAT = value,
            0x0042 => emu.io_registers.graphics.SCY = value,
            0x0043 => emu.io_registers.graphics.SCX = value,
            0x0044 => emu.io_registers.graphics.LY = value,
            0x0045 => emu.io_registers.graphics.LYC = value,
            0x0046 => GraphicsRegisters::write_DMA(emu, value),
            0x0047 => emu.io_registers.graphics.BGP = value,
            0x0048 => emu.io_registers.graphics.OBP0 = value,
            0x0049 => emu.io_registers.graphics.OBP1 = value,
            0x004A => emu.io_registers.graphics.WY = value,
            0x004B => emu.io_registers.graphics.WX = value,
            0x0050 => {
                if emu.io_registers.boot_rom_control == 0 {
                    emu.io_registers.boot_rom_control = value;
                }
            },
            0x00FF => emu.io_registers.interrupts.IE = value,
            // ? Unmapped.
            _ => {},
        }
    }
}

#[derive(Debug, Clone, Copy, PartialEq, Eq, Structural)]
pub struct InterruptsRegisters {
    /// `0xFF0F` - Interrupts asserted.
    pub IF: u8,
    /// `0xFFFF` - Interrupts enabled.
    pub IE: u8,
}

impl InterruptsRegisters {
    /// The interrupts that are both requested and enabled, in the low five
    /// bits.
    pub open spec fn pending(self) -> u8 {
        self.IF & self.IE & 0x1F
    }

    pub fn new() -> (interrupts: Self)
        ensures
            interrupts == (InterruptsRegisters { IF: 0, IE: 0 }),
    {
        Self { IF: 0x00, IE: 0x00 }
    }

    /// Computes the interrupts that are both requested and enabled.
    pub fn get_pending(&self) -> (pending: u8)
        ensures
            pending == self.pending(),
    {
        self.IF & self.IE & 0x1F
    }
}

#[derive(Debug, Clone, Copy, PartialEq, Eq, Structural)]
pub struct SerialRegisters {
    /// `0xFF01` - Serial byte.
    pub SB: u8,
    /// `0xFF02` - Serial control.
    pub SC: u8,
}

impl SerialRegisters {
    pub fn new() -> (serial: Self)
        ensures
            serial == (SerialRegisters { SB: 0, SC: 0 }),
    {
        Self { SB: 0x00, SC: 0x00 }
    }

    pub fn write_SB(emu: &mut GameboyEmulator, value: u8)
        ensures
            *final(emu) == old(emu).with_io(
                IORegisters {
                    serial: SerialRegisters { SB: value, ..old(emu).io_registers.serial },
                    ..old(emu).io_registers
                },
            ),
    {
        emu.io_registers.serial.SB = value;
    }
}

} // verus!
