//! The timer unit: `DIV`, `TIMA`, `TMA`, `TAC`, the falling-edge detector
//! and the delayed reload of `TIMA`.

use vstd::prelude::*;
use crate::gb::cpu::wrap16;
use crate::gb::emu::GameboyEmulator;
use crate::gb::utils::{split_u16, high_byte, InterruptMask};

verus! {

#[derive(Debug, Clone, Copy, PartialEq, Eq, Structural)]
pub enum TIMAOverflowState {
    /// `TIMA` is incrementing as usual.
    NotOverflowed,
    /// `TIMA` has overflowed.
    Overflowed {
        /// The number of t-cycles that have passed since `TIMA` overflowed.
        cycles: u8,
    },
    /// `TIMA` is being set to `TMA` this t-cycle, and so it cannot be written to.
    SettingToTMA,
}

#[derive(Debug, Clone, Copy, PartialEq, Eq, Structural)]
pub struct TimerRegisters {
    /// `0xFF04` - Clock divider.
    pub DIV: u16,
    /// `0xFF05` - Timer value.
    pub TIMA: u8,
    /// `0xFF06` - Timer reload.
    pub TMA: u8,
    /// `0xFF07` - Timer control.
    pub TAC: u8,
    /// The previous AND result, used to determine when `TIMA` increments.
    pub prev_and_result: bool,
    pub TIMA_overflow_state: TIMAOverflowState,
}

impl TimerRegisters {
    /// Whether bit 2 of `TAC` enables counting.
    pub open spec fn enabled(self) -> bool {
        (self.TAC / 4) % 2 == 1
    }

    /// The bit of `DIV` that `TAC` taps: bit 9, 3, 5 or 7 for the selector
    /// 0, 1, 2 or 3.
    pub open spec fn tapped_bit(self) -> bool {
        if self.TAC % 4 == 0 {
            (self.DIV / 512) % 2 == 1
        } else if self.TAC % 4 == 1 {
            (self.DIV / 8) % 2 == 1
        } else if self.TAC % 4 == 2 {
            (self.DIV / 32) % 2 == 1
        } else {
            (self.DIV / 128) % 2 == 1
        }
    }

    /// The sample that the detector takes: the tapped bit and the enable.
    pub open spec fn and_result(self) -> bool {
        self.tapped_bit() && self.enabled()
    }

    /// The timer with `DIV` advanced by one t-cycle.
    pub open spec fn advanced(self) -> TimerRegisters {
        TimerRegisters { DIV: wrap16(self.DIV + 1), ..self }
    }

    /// Whether the t-cycle that starts from this state sees the sample
    /// fall from 1 to 0.
    pub open spec fn falling_edge(self) -> bool {
        self.prev_and_result && !self.advanced().and_result()
    }

    /// Whether the t-cycle that starts from this state requests the timer
    /// interrupt: the one on which `TIMA` is reloaded.
    pub open spec fn raises_interrupt(self) -> bool {
        self.TIMA_overflow_state is SettingToTMA
    }

    /// The timer one t-cycle later.
    pub open spec fn tick(self) -> TimerRegisters {
        let sampled = TimerRegisters { prev_and_result: self.advanced().and_result(), ..self.advanced() };
        match self.TIMA_overflow_state {
            TIMAOverflowState::NotOverflowed => {
                if self.falling_edge() {
                    if self.TIMA == 255 {
                        TimerRegisters {
                            TIMA: 0,
                            TIMA_overflow_state: TIMAOverflowState::Overflowed { cycles: 0 },
                            ..sampled
                        }
                    } else {
                        TimerRegisters { TIMA: (self.TIMA + 1) as u8, ..sampled }
                    }
                } else {
                    sampled
                }
            },
            TIMAOverflowState::Overflowed { cycles } => {
                if cycles >= 2 {
                    TimerRegisters { TIMA_overflow_state: TIMAOverflowState::SettingToTMA, ..sampled }
                } else {
                    TimerRegisters {
                        TIMA_overflow_state: TIMAOverflowState::Overflowed { cycles: (cycles + 1) as u8 },
                        ..sampled
                    }
                }
            },
            TIMAOverflowState::SettingToTMA => {
                TimerRegisters {
                    TIMA: self.TMA,
                    TIMA_overflow_state: TIMAOverflowState::NotOverflowed,
                    ..sampled
                }
            },
        }
    }

    /// The timer after a write of `value` to `TIMA`: ignored on the t-cycle
    /// of the reload, otherwise stored, and a pending reload is called off.
    pub open spec fn with_tima(self, value: u8) -> TimerRegisters {
        if self.TIMA_overflow_state is SettingToTMA {
            self
        } else {
            TimerRegisters {
                TIMA: value,
                TIMA_overflow_state: TIMAOverflowState::NotOverflowed,
                ..self
            }
        }
    }

    /// The emulator one t-cycle of the timer later: the timer ticks, and
    /// the timer bit of `IF` is set on the t-cycle of the reload.
    pub open spec fn tick_spec(emu: GameboyEmulator) -> GameboyEmulator {
        let timer = emu.io_registers.timer;
        let ticked = emu.with_timer(timer.tick());
        if timer.raises_interrupt() {
            ticked.with_interrupt_flag(InterruptMask::Timer, true)
        } else {
            ticked
        }
    }

    /// The emulator one machine cycle of the timer later: four t-cycles.
    pub open spec fn update_spec(emu: GameboyEmulator) -> GameboyEmulator {
        Self::tick_spec(Self::tick_spec(Self::tick_spec(Self::tick_spec(emu))))
    }

    /// The timer at power-on.
    pub open spec fn new_spec() -> TimerRegisters {
        TimerRegisters {
            DIV: 0,
            TIMA: 0,
            TMA: 0,
            TAC: 0,
            prev_and_result: false,
            TIMA_overflow_state: TIMAOverflowState::NotOverflowed,
        }
    }

    pub fn new() -> (timer: Self)
        ensures
            timer == Self::new_spec(),
    {
        Self {
            DIV: 0,
            TIMA: 0,
            TMA: 0,
            TAC: 0,
            prev_and_result: false,
            TIMA_overflow_state: TIMAOverflowState::NotOverflowed,
        }
    }

    /// Takes the detector's sample.
    pub fn sample(&self) -> (and_result: bool)
        ensures
            and_result == self.and_result(),
    {
        let select = self.TAC % 4;
        let div_bit = if select == 0 {
            (self.DIV / 512) % 2 == 1
        } else if select == 1 {
            (self.DIV / 8) % 2 == 1
        } else if select == 2 {
            (self.DIV / 32) % 2 == 1
        } else {
            (self.DIV / 128) % 2 == 1
        };
        let timer_enable = (self.TAC / 4) % 2 == 1;
        div_bit && timer_enable
    }

    /// Advances the timer by one t-cycle; returns whether the timer
    /// interrupt is requested.
    pub fn tick_once(&mut self) -> (raise: bool)
        ensures
            *final(self) == old(self).tick(),
            raise == old(self).raises_interrupt(),
    {
        // ? https://hacktix.github.io/GBEDG/timers/#timer-operation
        self.DIV = self.DIV.wrapping_add(1);
        let and_result = self.sample();
        let mut raise = false;
        match self.TIMA_overflow_state {
            TIMAOverflowState::NotOverflowed => {
                if self.prev_and_result && !and_result {
                    if self.TIMA == 255 {
                        self.TIMA = 0;
                        self.TIMA_overflow_state = TIMAOverflowState::Overflowed { cycles: 0 };
                    } else {
                        self.TIMA = self.TIMA + 1;
                    }
                }
            },
            TIMAOverflowState::Overflowed { cycles } => {
                if cycles >= 2 {
                    self.TIMA_overflow_state = TIMAOverflowState::SettingToTMA;
                } else {
                    self.TIMA_overflow_state = TIMAOverflowState::Overflowed { cycles: cycles + 1 };
                }
            },
            TIMAOverflowState::SettingToTMA => {
                self.TIMA = self.TMA;
                self.TIMA_overflow_state = TIMAOverflowState::NotOverflowed;
                raise = true;
            },
        }
        self.prev_and_result = and_result;
        raise
    }

    /// Advances the timer of `emu` by one t-cycle.
    pub fn tick_emulator(emu: &mut GameboyEmulator)
        ensures
            *final(emu) == Self::tick_spec(*old(emu)),
    {
        let raise = emu.io_registers.timer.tick_once();
        if raise {
            emu.set_interrupt_flag(InterruptMask::Timer, true);
        }
    }

    /// Update the timer as if 4 t-cycles have passed.
    pub fn update(emu: &mut GameboyEmulator)
        ensures
            *final(emu) == Self::update_spec(*old(emu)),
    {
        Self::tick_emulator(emu);
        Self::tick_emulator(emu);
        Self::tick_emulator(emu);
        Self::tick_emulator(emu);
    }

    /// The value that a read of `FF04` returns: the high byte of the counter.
    #[inline]
    pub fn read_DIV(&self) -> (value: u8)
        ensures
            value == high_byte(self.DIV),
    {
        return split_u16(self.DIV).1;
    }

    /// A write to `FF04`, whatever the value: the whole counter is cleared.
    #[inline]
    pub fn write_DIV(&mut self)
        ensures
            *final(self) == (TimerRegisters { DIV: 0, ..*old(self) }),
    {
        self.DIV = 0;
    }

    #[inline]
    pub fn write_TIMA(&mut self, value: u8)
        ensures
            *final(self) == old(self).with_tima(value),
    {
        // ? Writes to TIMA ignored on the same t-cycle that TIMA is set to TMA after overflow.
        if self.TIMA_overflow_state != TIMAOverflowState::SettingToTMA {
            self.TIMA = value;
            self.TIMA_overflow_state = TIMAOverflowState::NotOverflowed;
        }
    }

    /// The value that a read of `FF07` returns: the unused bits read 1.
    #[inline]
    pub fn read_TAC(&self) -> (value: u8)
        ensures
            value == self.TAC | 0b1111_1000,
    {
        self.TAC | 0b1111_1000
    }
}

/// `TIMA` reload: when `TIMA` is `FF` and the detector sees a falling
/// edge, the t-cycle of the edge takes `TIMA` to 0; the next three leave it
/// there and request nothing; the fourth after the edge loads `TMA` into
/// `TIMA` and is the one, and the only one of the five, that requests the
/// timer interrupt.
pub proof fn tima_reloads_four_t_cycles_after_overflow(timer: TimerRegisters)
    requires
        timer.TIMA == 0xFF,
        timer.TIMA_overflow_state is NotOverflowed,
        timer.falling_edge(),
    ensures
        !timer.raises_interrupt(),
        timer.tick().TIMA == 0 && !timer.tick().raises_interrupt(),
        timer.tick().tick().TIMA == 0 && !timer.tick().tick().raises_interrupt(),
        timer.tick().tick().tick().TIMA == 0 && !timer.tick().tick().tick().raises_interrupt(),
        timer.tick().tick().tick().tick().TIMA == 0,
        timer.tick().tick().tick().tick().raises_interrupt(),
        timer.tick().tick().tick().tick().tick().TIMA == timer.TMA,
        timer.tick().tick().tick().tick().tick().TIMA_overflow_state is NotOverflowed,
{
}

/// A machine cycle advances `DIV` by four, and `DIV` wraps around.
pub proof fn machine_cycle_advances_div_by_four(emu: GameboyEmulator)
    ensures
        TimerRegisters::update_spec(emu).io_registers.timer.DIV == wrap16(
            emu.io_registers.timer.DIV + 4,
        ),
{
}

/// The t-cycle of the reload sets the timer bit of `IF`.
pub proof fn reload_requests_timer_interrupt(emu: GameboyEmulator)
    requires
        emu.io_registers.timer.raises_interrupt(),
    ensures
        TimerRegisters::tick_spec(emu).io_registers.interrupts.IF & 0x04 != 0,
        TimerRegisters::tick_spec(emu).io_registers.timer.TIMA == emu.io_registers.timer.TMA,
{
    crate::gb::bits::lemma_set_bit_is_set(emu.io_registers.interrupts.IF);
}

} // verus!
