//! The emulator aggregate: the one owner of the CPU, the bus, the I/O
//! registers and the instruction in progress.

use vstd::prelude::*;
use vstd::array::spec_array_update;
use super::bus::Bus;
use super::cartridge::Cartridge;
use super::cpu::{wrap16, CPU};
use super::instructions::instructions::{Instruction, InstructionStep, Operation};
use super::io::graphics::GraphicsRegisters;
use super::io::io_registers::{IORegisters, InterruptsRegisters};
use super::io::joypad::{Buttons, JoypadRegisters};
use super::io::timer::TimerRegisters;
use super::utils::{get_bit, set_bit, with_bit, InterruptMask, RegisterPair, IME};

verus! {

/// The machine cycles of one frame: 154 lines of 114.
pub const FRAME_CYCLES: u32 = 17556;

/// How a frame ended.
#[derive(Debug, Clone, Copy, PartialEq, Eq, Structural)]
pub enum FrameResult {
    /// VBlank was signalled at the end of the machine cycle of this number,
    /// counted from 1.
    VBlank(u32),
    /// A frame's worth of machine cycles passed and VBlank was not
    /// signalled.
    Unfinished,
}

#[derive(Debug)]
pub struct GameboyEmulator {
    pub cpu: CPU,
    pub ime: IME,
    pub bus: Bus,
    pub is_halted: bool,
    /// Set when `HALT` ran with interrupts disabled and one pending: the
    /// next opcode fetch leaves `PC` where it is.
    pub halt_bug: bool,
    /// The opcode that the CPU does not have and that stopped it, if any.
    pub invalid_opcode: Option<u8>,
    pub io_registers: IORegisters,
    pub current_instruction: Instruction,
}

impl GameboyEmulator {
    pub open spec fn with_cpu(self, cpu: CPU) -> GameboyEmulator {
        GameboyEmulator { cpu, ..self }
    }

    pub open spec fn with_bus(self, bus: Bus) -> GameboyEmulator {
        GameboyEmulator { bus, ..self }
    }

    pub open spec fn with_io(self, io_registers: IORegisters) -> GameboyEmulator {
        GameboyEmulator { io_registers, ..self }
    }

    pub open spec fn with_timer(self, timer: TimerRegisters) -> GameboyEmulator {
        self.with_io(IORegisters { timer, ..self.io_registers })
    }

    pub open spec fn with_joypad(self, joypad: JoypadRegisters) -> GameboyEmulator {
        self.with_io(IORegisters { joypad, ..self.io_registers })
    }

    pub open spec fn with_graphics(self, graphics: GraphicsRegisters) -> GameboyEmulator {
        self.with_io(IORegisters { graphics, ..self.io_registers })
    }

    pub open spec fn with_oam_byte(self, index: int, value: u8) -> GameboyEmulator {
        self.with_bus(Bus { oam: spec_array_update(self.bus.oam, index, value), ..self.bus })
    }

    /// The emulator with the request bit of `interrupt` in `IF` set to
    /// `state`.
    pub open spec fn with_interrupt_flag(self, interrupt: InterruptMask, state: bool) -> GameboyEmulator {
        self.with_io(
            IORegisters {
                interrupts: InterruptsRegisters {
                    IF: with_bit(self.io_registers.interrupts.IF, interrupt.mask(), state),
                    ..self.io_registers.interrupts
                },
                ..self.io_registers
            },
        )
    }

    /// The emulator after the CPU woke from a halt.
    pub open spec fn woken(self) -> GameboyEmulator {
        GameboyEmulator { is_halted: false, ..self }
    }

    /// The emulator after the service of `interrupt` began: its request
    /// bit is cleared, interrupts are disabled, and the service sequence is
    /// the instruction in progress.
    pub open spec fn service_spec(self, interrupt: InterruptMask) -> GameboyEmulator {
        GameboyEmulator {
            ime: IME::Disabled,
            current_instruction: Instruction::fresh(Operation::Interrupt(interrupt)),
            ..self.with_interrupt_flag(interrupt, false)
        }
    }

    /// The emulator after an opcode fetch. A scheduled enable of interrupts
    /// takes effect; the opcode at `PC` becomes the instruction in progress;
    /// `PC` moves past it, unless the halt bug holds it back once.
    pub open spec fn fetch_spec(self) -> GameboyEmulator {
        GameboyEmulator {
            ime: if self.ime == IME::Scheduled {
                IME::Enabled
            } else {
                self.ime
            },
            cpu: if self.halt_bug {
                self.cpu
            } else {
                CPU { pc: wrap16(self.cpu.pc + 1), ..self.cpu }
            },
            halt_bug: false,
            current_instruction: Instruction::fresh(
                Operation::of_opcode(Bus::read_spec(self, self.cpu.pc)),
            ),
            ..self
        }
    }

    /// What happens at an instruction boundary, in order of precedence.
    /// While an instruction is in progress, or after an invalid opcode,
    /// nothing. A halted CPU wakes when an enabled interrupt is requested,
    /// and idles otherwise. With interrupts enabled, the requested and
    /// enabled interrupt of highest priority is serviced. Otherwise the next
    /// opcode is fetched.
    pub open spec fn dispatch_spec(self) -> GameboyEmulator {
        let pending = self.io_registers.interrupts.pending();
        if !(self.current_instruction.current_step is Complete) || self.invalid_opcode is Some {
            self
        } else if self.is_halted {
            if pending != 0 {
                self.woken()
            } else {
                self
            }
        } else if self.ime == IME::Enabled && pending != 0 {
            match InterruptMask::highest_priority(pending) {
                Some(interrupt) => self.service_spec(interrupt),
                None => self.fetch_spec(),
            }
        } else {
            self.fetch_spec()
        }
    }

    /// The emulator after the instruction in progress ran one step.
    pub open spec fn execute_spec(self) -> GameboyEmulator {
        let (instruction, after) = self.current_instruction.step_spec(self);
        GameboyEmulator { current_instruction: instruction, ..after }
    }

    /// The emulator after the timer advanced by four t-cycles and the DMA
    /// engine copied at most one byte.
    #[verifier::opaque]
    pub open spec fn housekeeping_spec(self) -> GameboyEmulator {
        GraphicsRegisters::update_spec(TimerRegisters::update_spec(self))
    }

    /// The emulator one machine cycle later: the timer and the DMA engine
    /// run, the boundary is handled, and the instruction in progress runs one
    /// step.
    pub open spec fn step_spec(self) -> GameboyEmulator {
        self.housekeeping_spec().dispatch_spec().execute_spec()
    }

    /// Whether the coming machine cycle begins with an opcode fetch: no
    /// instruction is in progress, the CPU runs, and no interrupt is to be
    /// serviced.
    pub open spec fn fetches_next(self) -> bool {
        let ready = self.housekeeping_spec();
        &&& ready.current_instruction.current_step is Complete
        &&& ready.invalid_opcode is None
        &&& !ready.is_halted
        &&& !(ready.ime == IME::Enabled && ready.io_registers.interrupts.pending() != 0)
    }

    /// The byte that an opcode fetch in the coming machine cycle reads.
    pub open spec fn next_opcode(self) -> u8 {
        Bus::read_spec(self.housekeeping_spec(), self.cpu.pc)
    }

    /// The emulator one machine cycle later, the joypad sampled first.
    pub open spec fn update_spec(self, buttons: Buttons) -> GameboyEmulator {
        JoypadRegisters::update_spec(self, buttons).step_spec()
    }

    /// Whether VBlank is requested in `IF`.
    pub open spec fn vblank_requested(self) -> bool {
        self.io_registers.interrupts.IF & 0x01 != 0
    }

    /// Whether the machine cycle that starts from this state with `buttons`
    /// held is one in which VBlank is signalled: the request is not there
    /// before and is there after.
    pub open spec fn signals_vblank(self, buttons: Buttons) -> bool {
        !self.vblank_requested() && self.update_spec(buttons).vblank_requested()
    }

    /// The emulator after a frame of at most `budget` machine cycles with
    /// `buttons` held, and how the frame ended, the first cycle being number
    /// `first`. The frame ends with the first cycle in which VBlank is
    /// signalled.
    pub open spec fn frame_spec(self, buttons: Buttons, first: u32, budget: nat) -> (
        FrameResult,
        GameboyEmulator,
    )
        decreases budget,
    {
        if budget == 0 {
            (FrameResult::Unfinished, self)
        } else if self.signals_vblank(buttons) {
            (FrameResult::VBlank(first), self.update_spec(buttons))
        } else {
            self.update_spec(buttons).frame_spec(buttons, (first + 1) as u32, (budget - 1) as nat)
        }
    }

    /// The emulator `n` machine cycles later.
    pub open spec fn run_spec(self, n: nat) -> GameboyEmulator
        decreases n,
    {
        if n == 0 {
            self
        } else {
            self.step_spec().run_spec((n - 1) as nat)
        }
    }

    /// The emulator at power-on with the given bus: registers and I/O
    /// registers zero, interrupts disabled, no instruction in progress.
    pub open spec fn power_on(bus: Bus, io_registers: IORegisters) -> GameboyEmulator {
        GameboyEmulator {
            cpu: CPU { a: 0, f: 0, b: 0, c: 0, d: 0, e: 0, h: 0, l: 0, pc: 0, sp: 0 },
            ime: IME::Disabled,
            bus,
            is_halted: false,
            halt_bug: false,
            invalid_opcode: None,
            io_registers,
            current_instruction: Instruction {
                op: Operation::Nop,
                current_step: InstructionStep::Complete,
            },
        }
    }

    /// Whether the bus and the I/O registers are as at power-on: every RAM
    /// and every register zero, but for the input bits of the joypad, which
    /// read as released.
    pub open spec fn cold(self) -> bool {
        &&& forall|i: int| 0 <= i < 8192 ==> self.bus.vram[i] == 0 && self.bus.wram[i] == 0
        &&& forall|i: int| 0 <= i < 160 ==> self.bus.oam[i] == 0
        &&& forall|i: int| 0 <= i < 127 ==> self.bus.hram[i] == 0
        &&& forall|i: int| 0 <= i < 65536 ==> self.bus.test_ram[i] == 0
        &&& forall|i: int| 0 <= i < 16 ==> self.io_registers.wave_ram[i] == 0
        &&& self.io_registers.joypad.input_state == 0b0000_1111
        &&& self.io_registers.serial.SB == 0 && self.io_registers.serial.SC == 0
        &&& self.io_registers.timer == TimerRegisters::new_spec()
        &&& self.io_registers.graphics == GraphicsRegisters::new_spec()
        &&& self.io_registers.interrupts == (InterruptsRegisters { IF: 0, IE: 0 })
        &&& self.io_registers.boot_rom_control == 0
        &&& self == Self::power_on(self.bus, self.io_registers)
    }

    /// The emulator of `cartridge` at power-on, with the built-in boot
    /// program mapped over `0000..=00FF`.
    pub fn new(cartridge: Cartridge) -> (emu: Self)
        ensures
            emu.cold(),
            emu.bus.cartridge == cartridge,
            emu.bus.boot_rom@ == boot_program(),
            !emu.bus.flat,
    {
        Self::with_boot_rom(cartridge, default_boot_rom())
    }

    /// The emulator of `cartridge` at power-on, with `boot_rom` mapped over
    /// `0000..=00FF`.
    pub fn with_boot_rom(cartridge: Cartridge, boot_rom: [u8; 256]) -> (emu: Self)
        ensures
            emu.cold(),
            emu.bus.cartridge == cartridge,
            emu.bus.boot_rom == boot_rom,
            !emu.bus.flat,
    {
        GameboyEmulator {
            cpu: CPU::new_init(),
            ime: IME::Disabled,
            bus: Bus::new(cartridge, boot_rom, false),
            is_halted: false,
            halt_bug: false,
            invalid_opcode: None,
            io_registers: IORegisters::new(),
            current_instruction: Instruction::default(),
        }
    }

    /// An emulator whose bus is 64 KiB of flat memory, zeroed, with the
    /// register file `cpu`: what conformance vectors run on.
    pub fn new_flat(cpu: CPU) -> (emu: Self)
        ensures
            emu.with_cpu(CPU::new_init_spec()).cold(),
            emu.cpu == cpu,
            emu.bus.flat,
            emu.bus.cartridge.rom@.len() == 0,
            emu.bus.cartridge.ram_size == 0,
            forall|i: int| 0 <= i < 256 ==> emu.bus.boot_rom[i] == 0,
    {
        GameboyEmulator {
            cpu,
            ime: IME::Disabled,
            bus: Bus::new(Cartridge::new_empty(), [0u8; 256], true),
            is_halted: false,
            halt_bug: false,
            invalid_opcode: None,
            io_registers: IORegisters::new(),
            current_instruction: Instruction::default(),
        }
    }

    /// Cold boot: the emulator is as at power-on again. The cartridge, the
    /// boot ROM and the kind of bus stay.
    pub fn reset(&mut self)
        ensures
            final(self).cold(),
            final(self).bus.cartridge == old(self).bus.cartridge,
            final(self).bus.boot_rom == old(self).bus.boot_rom,
            final(self).bus.flat == old(self).bus.flat,
    {
        self.cpu = CPU::new_init();
        self.ime = IME::Disabled;
        self.bus.vram = [0u8; 8192];
        self.bus.wram = [0u8; 8192];
        self.bus.oam = [0u8; 160];
        self.bus.hram = [0u8; 127];
        self.bus.test_ram = [0u8; 65536];
        self.is_halted = false;
        self.halt_bug = false;
        self.invalid_opcode = None;
        self.io_registers = IORegisters::new();
        self.current_instruction = Instruction::default();
    }

    /// Handles an instruction boundary.
    pub fn dispatch(&mut self)
        ensures
            *final(self) == old(self).dispatch_spec(),
    {
        if !self.current_instruction.has_completed() || self.invalid_opcode.is_some() {
            return ;
        }
        let pending = self.io_registers.interrupts.get_pending();
        if self.is_halted {
            if pending != 0 {
                self.is_halted = false;
            }
            return ;
        }
        // ? Check for any enabled interrupts first.

        if self.ime == IME::Enabled && pending != 0 {
            if let Some(current_interrupt) = InterruptMask::get_interrupt_from_register(pending) {
                self.ime = IME::Disabled;
                self.current_instruction = Instruction::new(
                    Operation::Interrupt(current_interrupt),
                );
                self.set_interrupt_flag(current_interrupt, false);
                return ;
            }
        }
        let address = self.cpu.get_register_pair(RegisterPair::PC);
        let opcode = Bus::read(self, address);
        // ? Update IME state if `EI` was called.
        if self.ime == IME::Scheduled {
            self.ime = IME::Enabled;
        }
        if self.halt_bug {
            self.halt_bug = false;
        } else {
            self.cpu.inc_register_pair(RegisterPair::PC);
        }
        self.current_instruction = Instruction::from(opcode);
    }

    /// Runs one step of the instruction in progress.
    pub fn execute(&mut self)
        ensures
            *final(self) == old(self).execute_spec(),
    {
        // ? Run the current instruction.
        let mut instruction = self.current_instruction;
        instruction.step(self);
        self.current_instruction = instruction;
    }

    /// Runs the timer and the DMA engine for one machine cycle.
    pub fn housekeeping(&mut self)
        ensures
            *final(self) == old(self).housekeeping_spec(),
    {
        proof {
            reveal(GameboyEmulator::housekeeping_spec);
        }
        TimerRegisters::update(self);
        GraphicsRegisters::update(self);
    }

    /// Advances the emulator by exactly one machine cycle.
    pub fn step(&mut self)
        ensures
            *final(self) == old(self).step_spec(),
    {
        self.housekeeping();
        // ? Get the next instruction if the previous instruction has completed.
        self.dispatch();
        self.execute();
    }

    /// Advances the emulator by one machine cycle with the buttons that are
    /// held during it.
    pub fn update(&mut self, buttons: Buttons)
        ensures
            *final(self) == old(self).update_spec(buttons),
    {
        IORegisters::update(self, buttons);
        // ? Get the next instruction if the previous instruction has completed.
        self.dispatch();
        self.execute();
    }

    /// Computes whether VBlank is requested in `IF`.
    pub fn is_vblank_requested(&self) -> (requested: bool)
        ensures
            requested == self.vblank_requested(),
    {
        get_bit(self.io_registers.interrupts.IF, 0x01)
    }

    /// Advances the emulator, with `buttons` held, until VBlank is
    /// signalled, and by one frame's worth of machine cycles at most.
    pub fn run_frame(&mut self, buttons: Buttons) -> (result: FrameResult)
        ensures
            (result, *final(self)) == old(self).frame_spec(buttons, 1, FRAME_CYCLES as nat),
    {
        let mut cycle: u32 = 0;
        while cycle < FRAME_CYCLES
            invariant
                cycle <= FRAME_CYCLES,
                self.frame_spec(buttons, (cycle + 1) as u32, (FRAME_CYCLES - cycle) as nat) == old(
                    self,
                ).frame_spec(buttons, 1, FRAME_CYCLES as nat),
            decreases FRAME_CYCLES - cycle,
        {
            let before = self.is_vblank_requested();
            self.update(buttons);
            cycle += 1;
            if !before && self.is_vblank_requested() {
                return FrameResult::VBlank(cycle);
            }
        }
        FrameResult::Unfinished
    }

    /// Advances the emulator by `cycles` machine cycles.
    pub fn run(&mut self, cycles: u32)
        ensures
            *final(self) == old(self).run_spec(cycles as nat),
    {
        let mut done: u32 = 0;
        while done < cycles
            invariant
                done <= cycles,
                self.run_spec((cycles - done) as nat) == old(self).run_spec(cycles as nat),
            decreases cycles - done,
        {
            self.step();
            done += 1;
        }
    }

    /// The byte at `PC`, and the emulator with `PC` moved past it.
    pub open spec fn read_pc_spec(self) -> (u8, GameboyEmulator) {
        (
            Bus::read_spec(self, self.cpu.pc),
            self.with_cpu(CPU { pc: wrap16(self.cpu.pc + 1), ..self.cpu }),
        )
    }

    /// The byte at `SP`, and the emulator with `SP` moved past it.
    pub open spec fn read_sp_spec(self) -> (u8, GameboyEmulator) {
        (
            Bus::read_spec(self, self.cpu.sp),
            self.with_cpu(CPU { sp: wrap16(self.cpu.sp + 1), ..self.cpu }),
        )
    }

    /// The emulator after `SP` moved down by one and `value` was written
    /// at the new `SP`.
    pub open spec fn write_sp_spec(self, value: u8) -> GameboyEmulator {
        Bus::write_spec(
            self.with_cpu(CPU { sp: wrap16(self.cpu.sp - 1), ..self.cpu }),
            wrap16(self.cpu.sp - 1),
            value,
        )
    }

    /// Read and return a byte from the address of the `PC`, then increment `PC`.
    #[inline]
    pub fn read_pc(&mut self) -> (value: u8)
        ensures
            (value, *final(self)) == old(self).read_pc_spec(),
    {
        let address = self.cpu.get_register_pair(RegisterPair::PC);
        let value = Bus::read(self, address);
        self.cpu.inc_register_pair(RegisterPair::PC);
        value
    }

    /// Read and return a byte from the address of the `SP`, then increment `SP`.
    #[inline]
    pub fn read_sp(&mut self) -> (value: u8)
        ensures
            (value, *final(self)) == old(self).read_sp_spec(),
    {
        let address = self.cpu.get_register_pair(RegisterPair::SP);
        let value = Bus::read(self, address);
        self.cpu.inc_register_pair(RegisterPair::SP);
        value
    }

    /// Decrement the `SP`, then write a byte to its address.
    #[inline]
    pub fn write_sp(&mut self, value: u8)
        ensures
            *final(self) == old(self).write_sp_spec(value),
    {
        self.cpu.dec_register_pair(RegisterPair::SP);
        let address = self.cpu.get_register_pair(RegisterPair::SP);
        Bus::write(self, address, value)
    }

    /// Read a byte from the address `r16`.
    #[inline]
    pub fn read_r16(&self, r16: RegisterPair) -> (value: u8)
        ensures
            value == Bus::read_spec(*self, self.cpu.pair(r16)),
    {
        let address = self.cpu.get_register_pair(r16);
        Bus::read(self, address)
    }

    /// Write a byte to the address `r16`.
    #[inline]
    pub fn write_r16(&mut self, r16: RegisterPair, value: u8)
        ensures
            *final(self) == Bus::write_spec(*old(self), old(self).cpu.pair(r16), value),
    {
        let address = self.cpu.get_register_pair(r16);
        Bus::write(self, address, value)
    }

    /// Sets or clears the request bit of `interrupt` in `IF`, past the bus
    /// and its lock-out.
    #[inline]
    pub fn set_interrupt_flag(&mut self, interrupt: InterruptMask, state: bool)
        ensures
            *final(self) == old(self).with_interrupt_flag(interrupt, state),
    {
        let mut interrupts = self.io_registers.interrupts.IF;
        set_bit(&mut interrupts, u8::from(interrupt), state);
        self.io_registers.interrupts.IF = interrupts;
    }
}

/// `EI` takes effect after the instruction that follows it. When the
/// next three opcodes that the CPU fetches are `DI`, `EI`, `DI`, it runs
/// just these, one machine cycle each, and services no interrupt, whatever
/// is requested and enabled: `EI` leaves the enable scheduled, and the second
/// `DI` calls it off.
pub proof fn ei_takes_effect_after_next_instruction(emu: GameboyEmulator)
    requires
        emu.fetches_next(),
        emu.next_opcode() == 0xF3,
        emu.step_spec().next_opcode() == 0xFB,
        emu.step_spec().step_spec().next_opcode() == 0xF3,
    ensures
        emu.step_spec().current_instruction == (Instruction {
            op: Operation::Di,
            current_step: InstructionStep::Complete,
        }),
        emu.step_spec().ime == IME::Disabled,
        emu.step_spec().step_spec().current_instruction == (Instruction {
            op: Operation::Ei,
            current_step: InstructionStep::Complete,
        }),
        emu.step_spec().step_spec().ime == IME::Scheduled,
        emu.step_spec().step_spec().step_spec().current_instruction == (Instruction {
            op: Operation::Di,
            current_step: InstructionStep::Complete,
        }),
        emu.step_spec().step_spec().step_spec().ime == IME::Disabled,
        emu.step_spec().step_spec().step_spec().cpu.sp == emu.cpu.sp,
        !emu.halt_bug ==> emu.step_spec().step_spec().step_spec().cpu.pc == wrap16(emu.cpu.pc + 3),
{
    let s1 = emu.step_spec();
    let s2 = s1.step_spec();
    let s3 = s2.step_spec();
    housekeeping_keeps_cpu(emu);
    housekeeping_keeps_cpu(s1);
    housekeeping_keeps_cpu(s2);
    fetch_of_ime_opcode(emu.housekeeping_spec(), 0xF3);
    fetch_of_ime_opcode(s1.housekeeping_spec(), 0xFB);
    fetch_of_ime_opcode(s2.housekeeping_spec(), 0xF3);
}

/// What a machine cycle makes of an opcode fetch of `DI` (`F3`) or `EI`
/// (`FB`), from the boundary on: the instruction is done within the cycle,
/// and only `PC` and the enable have changed.
pub proof fn fetch_of_ime_opcode(ready: GameboyEmulator, opcode: u8)
    requires
        opcode == 0xF3 || opcode == 0xFB,
        ready.current_instruction.current_step is Complete,
        ready.invalid_opcode is None,
        !ready.is_halted,
        !(ready.ime == IME::Enabled && ready.io_registers.interrupts.pending() != 0),
        Bus::read_spec(ready, ready.cpu.pc) == opcode,
    ensures
        ready.dispatch_spec().execute_spec() == (GameboyEmulator {
            ime: if opcode == 0xF3 {
                IME::Disabled
            } else {
                IME::Scheduled
            },
            cpu: if ready.halt_bug {
                ready.cpu
            } else {
                CPU { pc: wrap16(ready.cpu.pc + 1), ..ready.cpu }
            },
            halt_bug: false,
            current_instruction: Instruction {
                op: if opcode == 0xF3 {
                    Operation::Di
                } else {
                    Operation::Ei
                },
                current_step: InstructionStep::Complete,
            },
            ..ready
        }),
{
    assert(Operation::of_opcode(0xF3) == Operation::Di);
    assert(Operation::of_opcode(0xFB) == Operation::Ei);
}

/// A halted CPU idles: while no enabled interrupt is requested, a
/// machine cycle leaves it halted and changes neither a register nor the
/// interrupt enable, and no instruction begins.
pub proof fn halted_cpu_idles(emu: GameboyEmulator)
    requires
        emu.is_halted,
        emu.current_instruction.current_step is Complete,
        emu.housekeeping_spec().io_registers.interrupts.pending() == 0,
    ensures
        emu.step_spec() == emu.housekeeping_spec(),
        emu.step_spec().is_halted,
        emu.step_spec().cpu == emu.cpu,
        emu.step_spec().ime == emu.ime,
        emu.step_spec().current_instruction == emu.current_instruction,
{
    housekeeping_keeps_cpu(emu);
}

/// A halt ends when an enabled interrupt is requested, whether or not
/// interrupts are enabled: the machine cycle that finds the request wakes
/// the CPU and does nothing else. An invalid opcode halts for good.
pub proof fn halt_ends_on_a_pending_interrupt(emu: GameboyEmulator)
    requires
        emu.is_halted,
        emu.current_instruction.current_step is Complete,
        emu.housekeeping_spec().io_registers.interrupts.pending() != 0,
    ensures
        emu.step_spec().is_halted == emu.invalid_opcode is Some,
        emu.step_spec().cpu == emu.cpu,
        emu.step_spec().ime == emu.ime,
        emu.step_spec().current_instruction == emu.current_instruction,
{
    housekeeping_keeps_cpu(emu);
}

/// The timer and the DMA engine touch nothing but the I/O registers and
/// object memory.
pub proof fn housekeeping_keeps_cpu(emu: GameboyEmulator)
    ensures
        emu.housekeeping_spec().cpu == emu.cpu,
        emu.housekeeping_spec().ime == emu.ime,
        emu.housekeeping_spec().is_halted == emu.is_halted,
        emu.housekeeping_spec().halt_bug == emu.halt_bug,
        emu.housekeeping_spec().invalid_opcode == emu.invalid_opcode,
        emu.housekeeping_spec().current_instruction == emu.current_instruction,
        emu.housekeeping_spec().bus.flat == emu.bus.flat,
{
    reveal(GameboyEmulator::housekeeping_spec);
}

/// The built-in boot program: it sets up the stack, jumps to its last
/// four bytes, and there writes 1 to `FF50`, which retires the program and
/// leaves `PC` at the cartridge's entry point `0100`.
pub open spec fn boot_program() -> Seq<u8> {
    Seq::new(
        256,
        |i: int|
            if i == 0x00 {
                0x31u8
            } else if i == 0x01 {
                0xFEu8
            } else if i == 0x02 {
                0xFFu8
            } else if i == 0x03 {
                0xC3u8
            } else if i == 0x04 {
                0xFCu8
            } else if i == 0xFC {
                0x3Eu8
            } else if i == 0xFD {
                0x01u8
            } else if i == 0xFE {
                0xE0u8
            } else if i == 0xFF {
                0x50u8
            } else {
                0x00u8
            },
    )
}

/// Builds the boot program.
pub fn default_boot_rom() -> (image: [u8; 256])
    ensures
        image@ == boot_program(),
{
    let mut image = [0u8; 256];
    // LD SP, 0xFFFE
    image[0x00] = 0x31;
    image[0x01] = 0xFE;
    image[0x02] = 0xFF;
    // JP 0x00FC
    image[0x03] = 0xC3;
    image[0x04] = 0xFC;
    // LD A, 0x01
    image[0xFC] = 0x3E;
    image[0xFD] = 0x01;
    // LDH (0x50), A
    image[0xFE] = 0xE0;
    image[0xFF] = 0x50;
    assert(image@ =~= boot_program());
    image
}

} // verus!
