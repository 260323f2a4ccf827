//! The joypad register `FF00` and the snapshot of the eight buttons that
//! the driver hands in.
//!
//! Info from the [Open Game Boy Documentation Project](https://mgba-emu.github.io/gbdoc/#mmio-p1).

use vstd::prelude::*;
use crate::gb::emu::GameboyEmulator;
use crate::gb::utils::{get_bit, set_bit, with_bit, InterruptMask};

verus! {

/// Which of the eight buttons are held down.
#[derive(Debug, Clone, Copy, PartialEq, Eq, Structural)]
pub struct Buttons {
    pub button_a: bool,
    pub button_b: bool,
    pub button_select: bool,
    pub button_start: bool,
    pub button_right: bool,
    pub button_left: bool,
    pub button_up: bool,
    pub button_down: bool,
}

/// Four lines as a nibble, line 0 in bit 0; a held button is a 1.
pub open spec fn lines(line0: bool, line1: bool, line2: bool, line3: bool) -> u8 {
    ((if line0 { 1int } else { 0 }) + (if line1 { 2int } else { 0 }) + (if line2 { 4int } else { 0 })
        + (if line3 { 8int } else { 0 })) as u8
}

impl Buttons {
    /// The held direction buttons: right, left, up, down in bits 0 to 3.
    pub open spec fn directional(self) -> u8 {
        lines(self.button_right, self.button_left, self.button_up, self.button_down)
    }

    /// The held action buttons: A, B, select, start in bits 0 to 3.
    pub open spec fn nondirectional(self) -> u8 {
        lines(self.button_a, self.button_b, self.button_select, self.button_start)
    }

    /// No button held.
    pub fn released() -> (buttons: Self)
        ensures
            buttons == (Buttons {
                button_a: false,
                button_b: false,
                button_select: false,
                button_start: false,
                button_right: false,
                button_left: false,
                button_up: false,
                button_down: false,
            }),
    {
        Buttons {
            button_a: false,
            button_b: false,
            button_select: false,
            button_start: false,
            button_right: false,
            button_left: false,
            button_up: false,
            button_down: false,
        }
    }

    #[inline]
    pub fn get_directional(&self) -> (held: u8)
        ensures
            held == self.directional(),
    {
        pack_lines(self.button_right, self.button_left, self.button_up, self.button_down)
    }

    #[inline]
    pub fn get_nondirectional(&self) -> (held: u8)
        ensures
            held == self.nondirectional(),
    {
        pack_lines(self.button_a, self.button_b, self.button_select, self.button_start)
    }
}

fn pack_lines(line0: bool, line1: bool, line2: bool, line3: bool) -> (nibble: u8)
    ensures
        nibble == lines(line0, line1, line2, line3),
{
    let b0: u8 = if line0 { 1 } else { 0 };
    let b1: u8 = if line1 { 2 } else { 0 };
    let b2: u8 = if line2 { 4 } else { 0 };
    let b3: u8 = if line3 { 8 } else { 0 };
    b0 + b1 + b2 + b3
}

#[derive(Debug, Clone, Copy, PartialEq, Eq, Structural)]
pub struct JoypadRegisters {
    /// A `u8` that determines whether each of the player's inputs are currently being pressed (set to 0) or not (set to 1).
    /// * bit 0: A / Right
    /// * bit 1: B / Left
    /// * bit 2: Select / Up
    /// * bit 3: Start / Down
    /// * bit 4: Directional inputs are read.
    /// * bit 5: Nondirectional inputs are read.
    pub input_state: u8,
}

impl JoypadRegisters {
    /// The buttons that the selected halves of the matrix show as held.
    /// A half is selected while its select bit is 0.
    pub open spec fn held_lines(self, buttons: Buttons) -> u8 {
        (if self.input_state & 0b0001_0000 == 0 {
            buttons.directional()
        } else {
            0u8
        }) | (if self.input_state & 0b0010_0000 == 0 {
            buttons.nondirectional()
        } else {
            0u8
        })
    }

    /// The register after the buttons were sampled: the select bits stay,
    /// each input bit is 0 where a selected button is held and 1 elsewhere.
    pub open spec fn sampled(self, buttons: Buttons) -> u8 {
        (self.input_state | 0x0F) & !self.held_lines(buttons)
    }

    /// Whether the sample takes an input bit from 1 to 0.
    pub open spec fn falls(self, buttons: Buttons) -> bool {
        self.input_state & !self.sampled(buttons) != 0
    }

    /// The register after a write of `value`: only the two select bits are
    /// taken.
    pub open spec fn written(self, value: u8) -> JoypadRegisters {
        JoypadRegisters {
            input_state: with_bit(
                with_bit(self.input_state, 0b0001_0000, value & 0b0001_0000 != 0),
                0b0010_0000,
                value & 0b0010_0000 != 0,
            ),
        }
    }

    /// The emulator after the joypad sampled `buttons`: the register holds
    /// the sample, and a falling input bit requests the joypad interrupt.
    pub open spec fn update_spec(emu: GameboyEmulator, buttons: Buttons) -> GameboyEmulator {
        let joypad = emu.io_registers.joypad;
        let updated = emu.with_joypad(JoypadRegisters { input_state: joypad.sampled(buttons) });
        if joypad.falls(buttons) {
            updated.with_interrupt_flag(InterruptMask::Joypad, true)
        } else {
            updated
        }
    }

    pub fn new() -> (joypad: Self)
        ensures
            joypad.input_state == 0b0000_1111,
    {
        Self { input_state: 0b0000_1111 }
    }

    pub fn update(emu: &mut GameboyEmulator, buttons: Buttons)
        ensures
            *final(emu) == Self::update_spec(*old(emu), buttons),
    {
        let old_state = emu.io_registers.joypad.input_state;
        let directional = if !get_bit(old_state, 0b0001_0000) {
            buttons.get_directional()
        } else {
            0
        };
        let nondirectional = if !get_bit(old_state, 0b0010_0000) {
            buttons.get_nondirectional()
        } else {
            0
        };
        let new_state = (old_state | 0x0F) & !(directional | nondirectional);
        emu.io_registers.joypad.input_state = new_state;
        // ? Joypad interrupt if any bits 0 to 3 goes from 1 to 0 (gets activated).
        if old_state & !new_state != 0 {
            emu.set_interrupt_flag(InterruptMask::Joypad, true);
        }
    }

    /// The value that a read of `FF00` returns: the two unused bits read 1.
    pub fn read(&self) -> (value: u8)
        ensures
            value == self.input_state | 0b1100_0000,
    {
        self.input_state | 0b1100_0000
    }

    pub fn write(&mut self, value: u8)
        ensures
            *final(self) == old(self).written(value),
    {
        set_bit(&mut self.input_state, 0b0001_0000, get_bit(value, 0b0001_0000));
        set_bit(&mut self.input_state, 0b0010_0000, get_bit(value, 0b0010_0000));
    }
}

} // verus!
