//! The operations of the primary opcode table, one machine cycle at a
//! time.
//!
//! Each function runs the step that the latch names and says what the
//! next step is. A step makes at most one bus access; the step that shares
//! its machine cycle with the opcode fetch makes none.

use vstd::prelude::*;
use crate::gb::bus::{write_keeps_cpu, Bus};
use crate::gb::cpu::{
    add16_carry, add16_half, add16_value, add_signed, alu, alu8, daa8, dec8, decimal_adjust,
    decrement, inc8, increment, offset_word, rot_a, rotate, wrap16, AluOp, AluResult, RotOp, CPU,
};
use crate::gb::emu::GameboyEmulator;
use crate::gb::utils::{
    high_byte, join_u16, low_byte, split_u16, word, Flag, InterruptMask, Register, RegisterPair,
    IME,
};
use super::instructions::{running, InstructionStep, Latch};

verus! {

/// What a step leaves behind: the next step and the emulator.
pub type Outcome = (InstructionStep, GameboyEmulator);

/// The instruction is finished.
pub open spec fn done(emu: GameboyEmulator) -> Outcome {
    (InstructionStep::Complete, emu)
}

/// The instruction goes on with cycle `stage`.
pub open spec fn next(stage: u8, lo: u8, hi: u8, emu: GameboyEmulator) -> Outcome {
    (running(stage, lo, hi), emu)
}

/// The emulator with `value` in register `r8`.
pub open spec fn set_r8(emu: GameboyEmulator, r8: Register, value: u8) -> GameboyEmulator {
    emu.with_cpu(emu.cpu.with_register(r8, value))
}

/// The emulator with `value` in the pair `r16`.
pub open spec fn set_r16(emu: GameboyEmulator, r16: RegisterPair, value: u16) -> GameboyEmulator {
    emu.with_cpu(emu.cpu.with_pair(r16, value))
}

/// The emulator with the flags of `r`, and then `r.value` in `r8`.
pub open spec fn apply_alu(emu: GameboyEmulator, r8: Register, r: AluResult) -> GameboyEmulator {
    emu.with_cpu(emu.cpu.with_result_flags(r).with_register(r8, r.value))
}

// * LD
/// `LD r8, r8`: one cycle.
pub open spec fn ld_r8_r8(emu: GameboyEmulator, r8_1: Register, r8_2: Register) -> Outcome {
    done(set_r8(emu, r8_1, emu.cpu.register(r8_2)))
}

/// `LD r8, n8`: two cycles; the second reads the immediate byte.
pub open spec fn ld_r8_n8(emu: GameboyEmulator, r8: Register, k: Latch) -> Outcome {
    if k.stage == 0 {
        next(1, 0, 0, emu)
    } else {
        let (value, after) = emu.read_pc_spec();
        done(set_r8(after, r8, value))
    }
}

/// `LD r8, (r16)`: two cycles; the second reads the byte at `r16`.
pub open spec fn ld_r8_r16(emu: GameboyEmulator, r8: Register, r16: RegisterPair, k: Latch) -> Outcome {
    if k.stage == 0 {
        next(1, 0, 0, emu)
    } else {
        done(set_r8(emu, r8, Bus::read_spec(emu, emu.cpu.pair(r16))))
    }
}

/// `LD (r16), r8`: two cycles; the second writes the register at `r16`.
pub open spec fn ld_r16_r8(emu: GameboyEmulator, r16: RegisterPair, r8: Register, k: Latch) -> Outcome {
    if k.stage == 0 {
        next(1, 0, 0, emu)
    } else {
        done(Bus::write_spec(emu, emu.cpu.pair(r16), emu.cpu.register(r8)))
    }
}

/// `LD (r16), n8`: three cycles: read the immediate byte, write it.
pub open spec fn ld_r16_n8(emu: GameboyEmulator, r16: RegisterPair, k: Latch) -> Outcome {
    if k.stage == 0 {
        next(1, 0, 0, emu)
    } else if k.stage == 1 {
        let (value, after) = emu.read_pc_spec();
        next(2, value, 0, after)
    } else {
        done(Bus::write_spec(emu, emu.cpu.pair(r16), k.lo))
    }
}

/// `LD r16, n16`: three cycles: read the low byte, read the high byte.
pub open spec fn ld_r16_n16(emu: GameboyEmulator, r16: RegisterPair, k: Latch) -> Outcome {
    if k.stage == 0 {
        next(1, 0, 0, emu)
    } else if k.stage == 1 {
        let (lsb, after) = emu.read_pc_spec();
        next(2, lsb, 0, after)
    } else {
        let (msb, after) = emu.read_pc_spec();
        done(set_r16(after, r16, word(k.lo, msb)))
    }
}

/// `LD (n16), r16`: five cycles: read the address, write the low byte
/// there and the high byte after it.
pub open spec fn ld_n16_r16(emu: GameboyEmulator, r16: RegisterPair, k: Latch) -> Outcome {
    if k.stage == 0 {
        next(1, 0, 0, emu)
    } else if k.stage == 1 {
        let (lsb, after) = emu.read_pc_spec();
        next(2, lsb, 0, after)
    } else if k.stage == 2 {
        let (msb, after) = emu.read_pc_spec();
        next(3, k.lo, msb, after)
    } else if k.stage == 3 {
        next(4, k.lo, k.hi, Bus::write_spec(emu, word(k.lo, k.hi), low_byte(emu.cpu.pair(r16))))
    } else {
        done(
            Bus::write_spec(emu, wrap16(word(k.lo, k.hi) + 1), high_byte(emu.cpu.pair(r16))),
        )
    }
}

/// `LD (HL+), A` and `LD (HL-), A`: two cycles; the second writes `A` at
/// `HL` and moves `HL` by `delta`.
pub open spec fn ld_hl_step_a(emu: GameboyEmulator, delta: int, k: Latch) -> Outcome {
    if k.stage == 0 {
        next(1, 0, 0, emu)
    } else {
        let hl = emu.cpu.pair(RegisterPair::HL);
        done(set_r16(Bus::write_spec(emu, hl, emu.cpu.a), RegisterPair::HL, wrap16(hl + delta)))
    }
}

/// `LD A, (HL+)` and `LD A, (HL-)`: two cycles; the second reads `A` from
/// `HL` and moves `HL` by `delta`.
pub open spec fn ld_a_hl_step(emu: GameboyEmulator, delta: int, k: Latch) -> Outcome {
    if k.stage == 0 {
        next(1, 0, 0, emu)
    } else {
        let hl = emu.cpu.pair(RegisterPair::HL);
        done(
            set_r16(
                set_r8(emu, Register::A, Bus::read_spec(emu, hl)),
                RegisterPair::HL,
                wrap16(hl + delta),
            ),
        )
    }
}

/// `LD (FF00 + n8), A`: three cycles: read the offset, write `A`.
pub open spec fn ldh_n8_a(emu: GameboyEmulator, k: Latch) -> Outcome {
    if k.stage == 0 {
        next(1, 0, 0, emu)
    } else if k.stage == 1 {
        let (offset, after) = emu.read_pc_spec();
        next(2, offset, 0, after)
    } else {
        done(Bus::write_spec(emu, word(k.lo, 0xFF), emu.cpu.a))
    }
}

/// `LD A, (FF00 + n8)`: three cycles: read the offset, read `A`.
pub open spec fn ldh_a_n8(emu: GameboyEmulator, k: Latch) -> Outcome {
    if k.stage == 0 {
        next(1, 0, 0, emu)
    } else if k.stage == 1 {
        let (offset, after) = emu.read_pc_spec();
        next(2, offset, 0, after)
    } else {
        done(set_r8(emu, Register::A, Bus::read_spec(emu, word(k.lo, 0xFF))))
    }
}

/// `LD (FF00 + C), A`: two cycles.
pub open spec fn ldh_c_a(emu: GameboyEmulator, k: Latch) -> Outcome {
    if k.stage == 0 {
        next(1, 0, 0, emu)
    } else {
        done(Bus::write_spec(emu, word(emu.cpu.c, 0xFF), emu.cpu.a))
    }
}

/// `LD A, (FF00 + C)`: two cycles.
pub open spec fn ldh_a_c(emu: GameboyEmulator, k: Latch) -> Outcome {
    if k.stage == 0 {
        next(1, 0, 0, emu)
    } else {
        done(set_r8(emu, Register::A, Bus::read_spec(emu, word(emu.cpu.c, 0xFF))))
    }
}

/// `LD (n16), A`: four cycles: read the address, write `A`.
pub open spec fn ld_n16_a(emu: GameboyEmulator, k: Latch) -> Outcome {
    if k.stage == 0 {
        next(1, 0, 0, emu)
    } else if k.stage == 1 {
        let (lsb, after) = emu.read_pc_spec();
        next(2, lsb, 0, after)
    } else if k.stage == 2 {
        let (msb, after) = emu.read_pc_spec();
        next(3, k.lo, msb, after)
    } else {
        done(Bus::write_spec(emu, word(k.lo, k.hi), emu.cpu.a))
    }
}

/// `LD A, (n16)`: four cycles: read the address, read `A`.
pub open spec fn ld_a_n16(emu: GameboyEmulator, k: Latch) -> Outcome {
    if k.stage == 0 {
        next(1, 0, 0, emu)
    } else if k.stage == 1 {
        let (lsb, after) = emu.read_pc_spec();
        next(2, lsb, 0, after)
    } else if k.stage == 2 {
        let (msb, after) = emu.read_pc_spec();
        next(3, k.lo, msb, after)
    } else {
        done(set_r8(emu, Register::A, Bus::read_spec(emu, word(k.lo, k.hi))))
    }
}

/// `LD SP, HL`: two cycles.
pub open spec fn ld_sp_hl(emu: GameboyEmulator, k: Latch) -> Outcome {
    if k.stage == 0 {
        next(1, 0, 0, emu)
    } else {
        done(set_r16(emu, RegisterPair::SP, emu.cpu.pair(RegisterPair::HL)))
    }
}

/// The flags of `ADD SP, i8` and `LD HL, SP+i8`: from the unsigned
/// addition of the offset to the low byte of `SP`; Z and N clear.
pub open spec fn sp_offset_flags(cpu: CPU, e: u8) -> CPU {
    cpu.with_flags(false, false, cpu.sp % 16 + e % 16 > 15, cpu.sp % 256 + e > 255)
}

/// `LD HL, SP+i8`: three cycles.
pub open spec fn ld_hl_sp_i8(emu: GameboyEmulator, k: Latch) -> Outcome {
    if k.stage == 0 {
        next(1, 0, 0, emu)
    } else if k.stage == 1 {
        let (e, after) = emu.read_pc_spec();
        next(2, e, 0, after)
    } else {
        done(
            emu.with_cpu(
                sp_offset_flags(emu.cpu, k.lo).with_pair(
                    RegisterPair::HL,
                    add_signed(emu.cpu.sp, k.lo),
                ),
            ),
        )
    }
}

/// `ADD SP, i8`: four cycles.
pub open spec fn add_sp_i8(emu: GameboyEmulator, k: Latch) -> Outcome {
    if k.stage == 0 {
        next(1, 0, 0, emu)
    } else if k.stage == 1 {
        let (e, after) = emu.read_pc_spec();
        next(2, e, 0, after)
    } else if k.stage == 2 {
        next(3, k.lo, 0, emu)
    } else {
        done(
            emu.with_cpu(
                sp_offset_flags(emu.cpu, k.lo).with_pair(
                    RegisterPair::SP,
                    add_signed(emu.cpu.sp, k.lo),
                ),
            ),
        )
    }
}

// * INC & DEC
/// `INC r8`: one cycle; the carry flag stays.
pub open spec fn inc_r8(emu: GameboyEmulator, r8: Register) -> Outcome {
    let r = inc8(emu.cpu.register(r8), emu.cpu.flag(Flag::C));
    done(emu.with_cpu(emu.cpu.with_register(r8, r.value).with_result_flags(r)))
}

/// `DEC r8`: one cycle; the carry flag stays.
pub open spec fn dec_r8(emu: GameboyEmulator, r8: Register) -> Outcome {
    let r = dec8(emu.cpu.register(r8), emu.cpu.flag(Flag::C));
    done(emu.with_cpu(emu.cpu.with_register(r8, r.value).with_result_flags(r)))
}

/// `INC r16` and `DEC r16`: two cycles; no flag changes.
pub open spec fn step_r16(emu: GameboyEmulator, r16: RegisterPair, delta: int, k: Latch) -> Outcome {
    if k.stage == 0 {
        next(1, 0, 0, emu)
    } else {
        done(set_r16(emu, r16, wrap16(emu.cpu.pair(r16) + delta)))
    }
}

/// `INC (HL)` and `DEC (HL)`: three cycles: read the byte, write it back
/// changed. The half-carry is that of the byte read; the carry flag stays.
pub open spec fn step_hl(emu: GameboyEmulator, up: bool, k: Latch) -> Outcome {
    if k.stage == 0 {
        next(1, 0, 0, emu)
    } else if k.stage == 1 {
        next(2, Bus::read_spec(emu, emu.cpu.pair(RegisterPair::HL)), 0, emu)
    } else {
        let r = if up {
            inc8(k.lo, emu.cpu.flag(Flag::C))
        } else {
            dec8(k.lo, emu.cpu.flag(Flag::C))
        };
        let written = Bus::write_spec(emu, emu.cpu.pair(RegisterPair::HL), r.value);
        done(written.with_cpu(written.cpu.with_result_flags(r)))
    }
}

// * JR & JP
/// `JR n8`: three cycles: read the offset, add it to `PC`.
pub open spec fn jr_n8(emu: GameboyEmulator, k: Latch) -> Outcome {
    if k.stage == 0 {
        next(1, 0, 0, emu)
    } else if k.stage == 1 {
        let (e, after) = emu.read_pc_spec();
        next(2, e, 0, after)
    } else {
        done(set_r16(emu, RegisterPair::PC, add_signed(emu.cpu.pc, k.lo)))
    }
}

/// `JR c, n8` (`expect` set) and `JR Nc, n8` (`expect` clear): the offset
/// is read either way; the jump takes a third cycle when flag `c` is
/// `expect`.
pub open spec fn jr_cond(emu: GameboyEmulator, c: Flag, expect: bool, k: Latch) -> Outcome {
    if k.stage == 0 {
        next(1, 0, 0, emu)
    } else if k.stage == 1 {
        let (e, after) = emu.read_pc_spec();
        if emu.cpu.flag(c) == expect {
            next(2, e, 0, after)
        } else {
            done(after)
        }
    } else {
        done(set_r16(emu, RegisterPair::PC, add_signed(emu.cpu.pc, k.lo)))
    }
}

/// `JP n16`: four cycles: read the address, load `PC`.
pub open spec fn jp_n16(emu: GameboyEmulator, k: Latch) -> Outcome {
    if k.stage == 0 {
        next(1, 0, 0, emu)
    } else if k.stage == 1 {
        let (lsb, after) = emu.read_pc_spec();
        next(2, lsb, 0, after)
    } else if k.stage == 2 {
        let (msb, after) = emu.read_pc_spec();
        next(3, k.lo, msb, after)
    } else {
        done(set_r16(emu, RegisterPair::PC, word(k.lo, k.hi)))
    }
}

/// `JP c, n16` and `JP Nc, n16`: the address is read either way; the jump
/// takes a fourth cycle when flag `c` is `expect`.
pub open spec fn jp_cond(emu: GameboyEmulator, c: Flag, expect: bool, k: Latch) -> Outcome {
    if k.stage == 0 {
        next(1, 0, 0, emu)
    } else if k.stage == 1 {
        let (lsb, after) = emu.read_pc_spec();
        next(2, lsb, 0, after)
    } else if k.stage == 2 {
        let (msb, after) = emu.read_pc_spec();
        if emu.cpu.flag(c) == expect {
            next(3, k.lo, msb, after)
        } else {
            done(after)
        }
    } else {
        done(set_r16(emu, RegisterPair::PC, word(k.lo, k.hi)))
    }
}

/// `JP HL`: one cycle.
pub open spec fn jp_hl(emu: GameboyEmulator) -> Outcome {
    done(set_r16(emu, RegisterPair::PC, emu.cpu.pair(RegisterPair::HL)))
}

// * Accumulator operations
/// An accumulator operation on two registers: one cycle.
pub open spec fn alu_r8_r8(emu: GameboyEmulator, op: AluOp, r8_1: Register, r8_2: Register) -> Outcome {
    done(
        apply_alu(
            emu,
            r8_1,
            alu8(op, emu.cpu.register(r8_1), emu.cpu.register(r8_2), emu.cpu.flag(Flag::C)),
        ),
    )
}

/// An accumulator operation on a register and the byte at `r16`: two
/// cycles.
pub open spec fn alu_r8_r16(
    emu: GameboyEmulator,
    op: AluOp,
    r8: Register,
    r16: RegisterPair,
    k: Latch,
) -> Outcome {
    if k.stage == 0 {
        next(1, 0, 0, emu)
    } else {
        done(
            apply_alu(
                emu,
                r8,
                alu8(
                    op,
                    emu.cpu.register(r8),
                    Bus::read_spec(emu, emu.cpu.pair(r16)),
                    emu.cpu.flag(Flag::C),
                ),
            ),
        )
    }
}

/// An accumulator operation on `A` and an immediate byte: two cycles.
pub open spec fn alu_a_n8(emu: GameboyEmulator, op: AluOp, k: Latch) -> Outcome {
    if k.stage == 0 {
        next(1, 0, 0, emu)
    } else {
        let (value, after) = emu.read_pc_spec();
        done(apply_alu(after, Register::A, alu8(op, emu.cpu.a, value, emu.cpu.flag(Flag::C))))
    }
}

/// `ADD r16, r16`: two cycles; the zero flag stays.
pub open spec fn add_r16_r16(emu: GameboyEmulator, r16_1: RegisterPair, r16_2: RegisterPair, k: Latch) -> Outcome {
    if k.stage == 0 {
        next(1, 0, 0, emu)
    } else {
        let a = emu.cpu.pair(r16_1);
        let b = emu.cpu.pair(r16_2);
        done(
            emu.with_cpu(
                emu.cpu.with_flags(
                    emu.cpu.flag(Flag::Z),
                    false,
                    add16_half(a, b),
                    add16_carry(a, b),
                ).with_pair(r16_1, add16_value(a, b)),
            ),
        )
    }
}

/// `RLCA`, `RRCA`, `RLA`, `RRA`: one cycle; Z is cleared.
pub open spec fn rot_a_step(emu: GameboyEmulator, op: RotOp) -> Outcome {
    done(apply_alu(emu, Register::A, rot_a(op, emu.cpu.a, emu.cpu.flag(Flag::C))))
}

/// `DAA`: one cycle.
pub open spec fn daa(emu: GameboyEmulator) -> Outcome {
    done(
        apply_alu(
            emu,
            Register::A,
            daa8(emu.cpu.a, emu.cpu.flag(Flag::N), emu.cpu.flag(Flag::H), emu.cpu.flag(Flag::C)),
        ),
    )
}

/// `CPL`: one cycle; `A` is complemented, N and H are set.
pub open spec fn cpl(emu: GameboyEmulator) -> Outcome {
    done(
        emu.with_cpu(
            emu.cpu.with_register(Register::A, (255 - emu.cpu.a) as u8).with_flag(
                Flag::N,
                true,
            ).with_flag(Flag::H, true),
        ),
    )
}

/// `SCF`: one cycle; N and H are cleared, C is set.
pub open spec fn scf(emu: GameboyEmulator) -> Outcome {
    done(
        emu.with_cpu(
            emu.cpu.with_flag(Flag::N, false).with_flag(Flag::H, false).with_flag(Flag::C, true),
        ),
    )
}

/// `CCF`: one cycle; N and H are cleared, C is inverted.
pub open spec fn ccf(emu: GameboyEmulator) -> Outcome {
    done(
        emu.with_cpu(
            emu.cpu.with_flag(Flag::N, false).with_flag(Flag::H, false).with_flag(
                Flag::C,
                !emu.cpu.flag(Flag::C),
            ),
        ),
    )
}

// * RET, CALL & RST
/// `RET` (and `RETI`, which also enables interrupts at once): four
/// cycles: pop the low byte, pop the high byte, load `PC`.
pub open spec fn ret(emu: GameboyEmulator, enable: bool, k: Latch) -> Outcome {
    if k.stage == 0 {
        next(1, 0, 0, emu)
    } else if k.stage == 1 {
        let (lsb, after) = emu.read_sp_spec();
        next(2, lsb, 0, after)
    } else if k.stage == 2 {
        let (msb, after) = emu.read_sp_spec();
        next(3, k.lo, msb, after)
    } else {
        let jumped = set_r16(emu, RegisterPair::PC, word(k.lo, k.hi));
        if enable {
            done(GameboyEmulator { ime: IME::Enabled, ..jumped })
        } else {
            done(jumped)
        }
    }
}

/// `RET c` and `RET Nc`: the second cycle tests flag `c`; the return
/// takes three more.
pub open spec fn ret_cond(emu: GameboyEmulator, c: Flag, expect: bool, k: Latch) -> Outcome {
    if k.stage == 0 {
        next(1, 0, 0, emu)
    } else if k.stage == 1 {
        if emu.cpu.flag(c) == expect {
            next(2, 0, 0, emu)
        } else {
            done(emu)
        }
    } else if k.stage == 2 {
        let (lsb, after) = emu.read_sp_spec();
        next(3, lsb, 0, after)
    } else if k.stage == 3 {
        let (msb, after) = emu.read_sp_spec();
        next(4, k.lo, msb, after)
    } else {
        done(set_r16(emu, RegisterPair::PC, word(k.lo, k.hi)))
    }
}

/// The last three cycles of a call to `word(k.lo, k.hi)`: one internal,
/// push the high byte of `PC`, push the low byte and load `PC`.
pub open spec fn call_tail(emu: GameboyEmulator, k: Latch) -> Outcome {
    if k.stage == 3 {
        next(4, k.lo, k.hi, emu)
    } else if k.stage == 4 {
        next(5, k.lo, k.hi, emu.write_sp_spec(high_byte(emu.cpu.pc)))
    } else {
        done(set_r16(emu.write_sp_spec(low_byte(emu.cpu.pc)), RegisterPair::PC, word(k.lo, k.hi)))
    }
}

/// `CALL n16`: six cycles.
pub open spec fn call_n16(emu: GameboyEmulator, k: Latch) -> Outcome {
    if k.stage == 0 {
        next(1, 0, 0, emu)
    } else if k.stage == 1 {
        let (lsb, after) = emu.read_pc_spec();
        next(2, lsb, 0, after)
    } else if k.stage == 2 {
        let (msb, after) = emu.read_pc_spec();
        next(3, k.lo, msb, after)
    } else {
        call_tail(emu, k)
    }
}

/// `CALL c, n16` and `CALL Nc, n16`: the address is read either way; the
/// call takes three more cycles when flag `c` is `expect`.
pub open spec fn call_cond(emu: GameboyEmulator, c: Flag, expect: bool, k: Latch) -> Outcome {
    if k.stage == 0 {
        next(1, 0, 0, emu)
    } else if k.stage == 1 {
        let (lsb, after) = emu.read_pc_spec();
        next(2, lsb, 0, after)
    } else if k.stage == 2 {
        let (msb, after) = emu.read_pc_spec();
        if emu.cpu.flag(c) == expect {
            next(3, k.lo, msb, after)
        } else {
            done(after)
        }
    } else {
        call_tail(emu, k)
    }
}

/// A call to a fixed address: `RST` (one internal cycle first) and the
/// interrupt service sequence (two): push `PC`, high byte first, then load
/// `PC` in a cycle of its own.
pub open spec fn push_pc_and_jump(emu: GameboyEmulator, idle: u8, target: u16, k: Latch) -> Outcome {
    if k.stage < idle {
        next((k.stage + 1) as u8, 0, 0, emu)
    } else if k.stage == idle {
        next((k.stage + 1) as u8, 0, 0, emu.write_sp_spec(high_byte(emu.cpu.pc)))
    } else if k.stage == idle + 1 {
        next((k.stage + 1) as u8, 0, 0, emu.write_sp_spec(low_byte(emu.cpu.pc)))
    } else {
        done(set_r16(emu, RegisterPair::PC, target))
    }
}

// * PUSH & POP
/// `PUSH r16`: four cycles: one internal, push the high byte, push the
/// low byte.
pub open spec fn push_r16(emu: GameboyEmulator, r16: RegisterPair, k: Latch) -> Outcome {
    if k.stage == 0 {
        next(1, 0, 0, emu)
    } else if k.stage == 1 {
        next(2, 0, 0, emu)
    } else if k.stage == 2 {
        next(3, 0, 0, emu.write_sp_spec(high_byte(emu.cpu.pair(r16))))
    } else {
        done(emu.write_sp_spec(low_byte(emu.cpu.pair(r16))))
    }
}

/// `POP r16`: three cycles: pop the low byte, pop the high byte.
pub open spec fn pop_r16(emu: GameboyEmulator, r16: RegisterPair, k: Latch) -> Outcome {
    if k.stage == 0 {
        next(1, 0, 0, emu)
    } else if k.stage == 1 {
        let (lsb, after) = emu.read_sp_spec();
        next(2, lsb, 0, after)
    } else {
        let (msb, after) = emu.read_sp_spec();
        done(set_r16(after, r16, word(k.lo, msb)))
    }
}

// * CPU control
/// `STOP`: one cycle; the byte after the opcode is skipped and the CPU
/// halts.
pub open spec fn stop(emu: GameboyEmulator) -> Outcome {
    done(
        GameboyEmulator {
            is_halted: true,
            ..set_r16(emu, RegisterPair::PC, wrap16(emu.cpu.pc + 1))
        },
    )
}

/// `HALT`: one cycle. The CPU halts, unless interrupts are not enabled
/// and one is pending: then it runs on, and the next opcode fetch leaves
/// `PC` where it is.
pub open spec fn halt(emu: GameboyEmulator) -> Outcome {
    if emu.ime != IME::Enabled && emu.io_registers.interrupts.pending() != 0 {
        done(GameboyEmulator { halt_bug: true, ..emu })
    } else {
        done(GameboyEmulator { is_halted: true, ..emu })
    }
}

/// `DI` (to `Disabled`) and `EI` (to `Scheduled`): one cycle.
pub open spec fn set_ime(emu: GameboyEmulator, ime: IME) -> Outcome {
    done(GameboyEmulator { ime, ..emu })
}

/// An opcode that the CPU does not have: the CPU halts for good and keeps
/// the opcode.
pub open spec fn invalid(emu: GameboyEmulator, opcode: u8) -> Outcome {
    done(GameboyEmulator { is_halted: true, invalid_opcode: Some(opcode), ..emu })
}

// * LD
/// Load register `r8_2` into register `r8_1`.
pub fn LD_r8_r8(emu: &mut GameboyEmulator, r8_1: Register, r8_2: Register) -> (step:
    InstructionStep)
    ensures
        (step, *final(emu)) == ld_r8_r8(*old(emu), r8_1, r8_2),
{
    let v = emu.cpu.get_register(r8_2);
    emu.cpu.set_register(r8_1, v);
    InstructionStep::Complete
}

/// Load immediate value `n8` into register `r8`.
pub fn LD_r8_n8(emu: &mut GameboyEmulator, r8: Register, k: Latch) -> (step: InstructionStep)
    ensures
        (step, *final(emu)) == ld_r8_n8(*old(emu), r8, k),
{
    // ? One bus read or write per m-cycle.
    if k.stage == 0 {
        InstructionStep::new(1, 0, 0)
    } else {
        let value = emu.read_pc();
        emu.cpu.set_register(r8, value);
        InstructionStep::Complete
    }
}

/// Load the value at address `r16` into register `r8`.
pub fn LD_r8_r16(emu: &mut GameboyEmulator, r8: Register, r16: RegisterPair, k: Latch) -> (step:
    InstructionStep)
    ensures
        (step, *final(emu)) == ld_r8_r16(*old(emu), r8, r16, k),
{
    // ? One bus read or write per m-cycle.
    if k.stage == 0 {
        InstructionStep::new(1, 0, 0)
    } else {
        let value = emu.read_r16(r16);
        emu.cpu.set_register(r8, value);
        InstructionStep::Complete
    }
}

/// Load register `r8` into the location of address `r16`.
pub fn LD_r16_r8(emu: &mut GameboyEmulator, r16: RegisterPair, r8: Register, k: Latch) -> (step:
    InstructionStep)
    ensures
        (step, *final(emu)) == ld_r16_r8(*old(emu), r16, r8, k),
{
    // ? One bus read or write per m-cycle.
    if k.stage == 0 {
        InstructionStep::new(1, 0, 0)
    } else {
        let value = emu.cpu.get_register(r8);
        emu.write_r16(r16, value);
        InstructionStep::Complete
    }
}

/// Load immediate value `n8` into the location of address `r16`.
pub fn LD_r16_n8(emu: &mut GameboyEmulator, r16: RegisterPair, k: Latch) -> (step: InstructionStep)
    ensures
        (step, *final(emu)) == ld_r16_n8(*old(emu), r16, k),
{
    // ? One bus read or write per m-cycle.
    if k.stage == 0 {
        InstructionStep::new(1, 0, 0)
    } else if k.stage == 1 {
        let value = emu.read_pc();
        InstructionStep::new(2, value, 0)
    } else {
        emu.write_r16(r16, k.lo);
        InstructionStep::Complete
    }
}

/// Load immediate value `n16` into the register pair `r16`.
pub fn LD_r16_n16(emu: &mut GameboyEmulator, r16: RegisterPair, k: Latch) -> (step:
    InstructionStep)
    ensures
        (step, *final(emu)) == ld_r16_n16(*old(emu), r16, k),
{
    // ? One bus read or write per m-cycle.
    if k.stage == 0 {
        InstructionStep::new(1, 0, 0)
    } else if k.stage == 1 {
        let lsb = emu.read_pc();
        InstructionStep::new(2, lsb, 0)
    } else {
        let msb = emu.read_pc();
        // The lsb and msb are technically listed as being written seperately, but eh.
        emu.cpu.set_register_pair(r16, join_u16(k.lo, msb));
        InstructionStep::Complete
    }
}

/// Load the register pair `r16` into the location of immediate addresses `n16` and `n16 + 1`.
pub fn LD_n16_r16(emu: &mut GameboyEmulator, r16: RegisterPair, k: Latch) -> (step:
    InstructionStep)
    ensures
        (step, *final(emu)) == ld_n16_r16(*old(emu), r16, k),
{
    // ? One bus read or write per m-cycle.
    if k.stage == 0 {
        InstructionStep::new(1, 0, 0)
    } else if k.stage == 1 {
        let lsb = emu.read_pc();
        InstructionStep::new(2, lsb, 0)
    } else if k.stage == 2 {
        let msb = emu.read_pc();
        InstructionStep::new(3, k.lo, msb)
    } else if k.stage == 3 {
        let address = join_u16(k.lo, k.hi);
        let (lsb, _msb) = split_u16(emu.cpu.get_register_pair(r16));
        Bus::write(emu, address, lsb);
        InstructionStep::new(4, k.lo, k.hi)
    } else {
        let address = join_u16(k.lo, k.hi);
        let (_lsb, msb) = split_u16(emu.cpu.get_register_pair(r16));
        Bus::write(emu, address.wrapping_add(1), msb);
        InstructionStep::Complete
    }
}

/// Load register `A` into the location of address `HL`, then increment `HL`.
pub fn LD_HLI_A(emu: &mut GameboyEmulator, k: Latch) -> (step: InstructionStep)
    ensures
        (step, *final(emu)) == ld_hl_step_a(*old(emu), 1, k),
{
    // ? One bus read or write per m-cycle.
    if k.stage == 0 {
        InstructionStep::new(1, 0, 0)
    } else {
        let value = emu.cpu.get_register(Register::A);
        proof {
            write_keeps_cpu(*emu, emu.cpu.pair(RegisterPair::HL), value);
        }
        emu.write_r16(RegisterPair::HL, value);
        emu.cpu.inc_register_pair(RegisterPair::HL);
        InstructionStep::Complete
    }
}

/// Load register `A` into the location of address `HL`, then decrement `HL`.
pub fn LD_HLD_A(emu: &mut GameboyEmulator, k: Latch) -> (step: InstructionStep)
    ensures
        (step, *final(emu)) == ld_hl_step_a(*old(emu), -1, k),
{
    // ? One bus read or write per m-cycle.
    if k.stage == 0 {
        InstructionStep::new(1, 0, 0)
    } else {
        let value = emu.cpu.get_register(Register::A);
        proof {
            write_keeps_cpu(*emu, emu.cpu.pair(RegisterPair::HL), value);
        }
        emu.write_r16(RegisterPair::HL, value);
        emu.cpu.dec_register_pair(RegisterPair::HL);
        InstructionStep::Complete
    }
}

/// Load the value at address `HL` into register `A`, then increment `HL`.
pub fn LD_A_HLI(emu: &mut GameboyEmulator, k: Latch) -> (step: InstructionStep)
    ensures
        (step, *final(emu)) == ld_a_hl_step(*old(emu), 1, k),
{
    // ? One bus read or write per m-cycle.
    if k.stage == 0 {
        InstructionStep::new(1, 0, 0)
    } else {
        let value = emu.read_r16(RegisterPair::HL);
        emu.cpu.set_register(Register::A, value);
        emu.cpu.inc_register_pair(RegisterPair::HL);
        InstructionStep::Complete
    }
}

/// Load the value at address `HL` into register `A`, then decrement `HL`.
pub fn LD_A_HLD(emu: &mut GameboyEmulator, k: Latch) -> (step: InstructionStep)
    ensures
        (step, *final(emu)) == ld_a_hl_step(*old(emu), -1, k),
{
    // ? One bus read or write per m-cycle.
    if k.stage == 0 {
        InstructionStep::new(1, 0, 0)
    } else {
        let value = emu.read_r16(RegisterPair::HL);
        emu.cpu.set_register(Register::A, value);
        emu.cpu.dec_register_pair(RegisterPair::HL);
        InstructionStep::Complete
    }
}

/// Load register `A` into the location of address `0xFF00 + n8`.
pub fn LDH_n8_A(emu: &mut GameboyEmulator, k: Latch) -> (step: InstructionStep)
    ensures
        (step, *final(emu)) == ldh_n8_a(*old(emu), k),
{
    // ? One bus read or write per m-cycle.
    if k.stage == 0 {
        InstructionStep::new(1, 0, 0)
    } else if k.stage == 1 {
        let offset = emu.read_pc();
        InstructionStep::new(2, offset, 0)
    } else {
        let address = join_u16(k.lo, 0xFF);
        let value = emu.cpu.get_register(Register::A);
        Bus::write(emu, address, value);
        InstructionStep::Complete
    }
}

/// Load the value at address `0xFF00 + n8` into register `A`.
pub fn LDH_A_n8(emu: &mut GameboyEmulator, k: Latch) -> (step: InstructionStep)
    ensures
        (step, *final(emu)) == ldh_a_n8(*old(emu), k),
{
    // ? One bus read or write per m-cycle.
    if k.stage == 0 {
        InstructionStep::new(1, 0, 0)
    } else if k.stage == 1 {
        let offset = emu.read_pc();
        InstructionStep::new(2, offset, 0)
    } else {
        let value = Bus::read(emu, join_u16(k.lo, 0xFF));
        emu.cpu.set_register(Register::A, value);
        InstructionStep::Complete
    }
}

/// Load register `A` into the location of address `0xFF00 + C`.
pub fn LDH_C_A(emu: &mut GameboyEmulator, k: Latch) -> (step: InstructionStep)
    ensures
        (step, *final(emu)) == ldh_c_a(*old(emu), k),
{
    // ? One bus read or write per m-cycle.
    if k.stage == 0 {
        InstructionStep::new(1, 0, 0)
    } else {
        let address = join_u16(emu.cpu.get_register(Register::C), 0xFF);
        let value = emu.cpu.get_register(Register::A);
        Bus::write(emu, address, value);
        InstructionStep::Complete
    }
}

/// Load the value at address `0xFF00 + C` into register `A`.
pub fn LDH_A_C(emu: &mut GameboyEmulator, k: Latch) -> (step: InstructionStep)
    ensures
        (step, *final(emu)) == ldh_a_c(*old(emu), k),
{
    // ? One bus read or write per m-cycle.
    if k.stage == 0 {
        InstructionStep::new(1, 0, 0)
    } else {
        let address = join_u16(emu.cpu.get_register(Register::C), 0xFF);
        let value = Bus::read(emu, address);
        emu.cpu.set_register(Register::A, value);
        InstructionStep::Complete
    }
}

/// Load register `A` into the location of the immediate address `n16`.
pub fn LD_n16_A(emu: &mut GameboyEmulator, k: Latch) -> (step: InstructionStep)
    ensures
        (step, *final(emu)) == ld_n16_a(*old(emu), k),
{
    // ? One bus read or write per m-cycle.
    if k.stage == 0 {
        InstructionStep::new(1, 0, 0)
    } else if k.stage == 1 {
        let lsb = emu.read_pc();
        InstructionStep::new(2, lsb, 0)
    } else if k.stage == 2 {
        let msb = emu.read_pc();
        InstructionStep::new(3, k.lo, msb)
    } else {
        let value = emu.cpu.get_register(Register::A);
        Bus::write(emu, join_u16(k.lo, k.hi), value);
        InstructionStep::Complete
    }
}

/// Load the value at the immediate address `n16` into register `A`.
pub fn LD_A_n16(emu: &mut GameboyEmulator, k: Latch) -> (step: InstructionStep)
    ensures
        (step, *final(emu)) == ld_a_n16(*old(emu), k),
{
    // ? One bus read or write per m-cycle.
    if k.stage == 0 {
        InstructionStep::new(1, 0, 0)
    } else if k.stage == 1 {
        let lsb = emu.read_pc();
        InstructionStep::new(2, lsb, 0)
    } else if k.stage == 2 {
        let msb = emu.read_pc();
        InstructionStep::new(3, k.lo, msb)
    } else {
        let value = Bus::read(emu, join_u16(k.lo, k.hi));
        emu.cpu.set_register(Register::A, value);
        InstructionStep::Complete
    }
}

/// Load register pair `HL` into `SP`.
pub fn LD_SP_HL(emu: &mut GameboyEmulator, k: Latch) -> (step: InstructionStep)
    ensures
        (step, *final(emu)) == ld_sp_hl(*old(emu), k),
{
    if k.stage == 0 {
        InstructionStep::new(1, 0, 0)
    } else {
        let value = emu.cpu.get_register_pair(RegisterPair::HL);
        emu.cpu.set_register_pair(RegisterPair::SP, value);
        InstructionStep::Complete
    }
}

/// Sets the flags of an addition of the signed byte `e` to `SP`.
fn set_sp_offset_flags(cpu: &mut CPU, e: u8)
    ensures
        *final(cpu) == sp_offset_flags(*old(cpu), e),
{
    let sp = cpu.get_register_pair(RegisterPair::SP);
    let h = (sp % 16) as u8 + e % 16 > 15;
    let c = sp % 256 + e as u16 > 255;
    cpu.set_result_flags(AluResult { value: 0, z: false, n: false, h, c });
}

/// Load `SP` plus the signed immediate value `i8` into `HL`.
pub fn LD_HL_SP_i8(emu: &mut GameboyEmulator, k: Latch) -> (step: InstructionStep)
    ensures
        (step, *final(emu)) == ld_hl_sp_i8(*old(emu), k),
{
    // ? One bus read or write per m-cycle.
    if k.stage == 0 {
        InstructionStep::new(1, 0, 0)
    } else if k.stage == 1 {
        let value = emu.read_pc();
        InstructionStep::new(2, value, 0)
    } else {
        let value = offset_word(emu.cpu.get_register_pair(RegisterPair::SP), k.lo);
        set_sp_offset_flags(&mut emu.cpu, k.lo);
        emu.cpu.set_register_pair(RegisterPair::HL, value);
        InstructionStep::Complete
    }
}

/// Add the signed immediate value `i8` to `SP`.
pub fn ADD_SP_i8(emu: &mut GameboyEmulator, k: Latch) -> (step: InstructionStep)
    ensures
        (step, *final(emu)) == add_sp_i8(*old(emu), k),
{
    // ? One bus read or write per m-cycle.
    if k.stage == 0 {
        InstructionStep::new(1, 0, 0)
    } else if k.stage == 1 {
        let value = emu.read_pc();
        InstructionStep::new(2, value, 0)
    } else if k.stage == 2 {
        // ? Techincally writes upper and lower bytes seperately.
        InstructionStep::new(3, k.lo, 0)
    } else {
        let value = offset_word(emu.cpu.get_register_pair(RegisterPair::SP), k.lo);
        set_sp_offset_flags(&mut emu.cpu, k.lo);
        emu.cpu.set_register_pair(RegisterPair::SP, value);
        InstructionStep::Complete
    }
}

// * INC & DEC
/// Increment register `r8`.
pub fn INC_r8(emu: &mut GameboyEmulator, r8: Register) -> (step: InstructionStep)
    ensures
        (step, *final(emu)) == inc_r8(*old(emu), r8),
{
    emu.cpu.inc_register(r8);
    InstructionStep::Complete
}

/// Increment register pair `r16`.
pub fn INC_r16(emu: &mut GameboyEmulator, r16: RegisterPair, k: Latch) -> (step: InstructionStep)
    ensures
        (step, *final(emu)) == step_r16(*old(emu), r16, 1, k),
{
    // ? Technically writes to each register seperately.
    if k.stage == 0 {
        InstructionStep::new(1, 0, 0)
    } else {
        emu.cpu.inc_register_pair(r16);
        InstructionStep::Complete
    }
}

/// Decrement register `r8`.
pub fn DEC_r8(emu: &mut GameboyEmulator, r8: Register) -> (step: InstructionStep)
    ensures
        (step, *final(emu)) == dec_r8(*old(emu), r8),
{
    emu.cpu.dec_register(r8);
    InstructionStep::Complete
}

/// Decrement register pair `r16`.
pub fn DEC_r16(emu: &mut GameboyEmulator, r16: RegisterPair, k: Latch) -> (step: InstructionStep)
    ensures
        (step, *final(emu)) == step_r16(*old(emu), r16, -1, k),
{
    // ? Technically writes to each register seperately.
    if k.stage == 0 {
        InstructionStep::new(1, 0, 0)
    } else {
        emu.cpu.dec_register_pair(r16);
        InstructionStep::Complete
    }
}

/// Increment the value at address `HL`.
pub fn INC_HL(emu: &mut GameboyEmulator, k: Latch) -> (step: InstructionStep)
    ensures
        (step, *final(emu)) == step_hl(*old(emu), true, k),
{
    // This instruction is different to `INC HL`.
    // ? One bus read or write per m-cycle.
    if k.stage == 0 {
        InstructionStep::new(1, 0, 0)
    } else if k.stage == 1 {
        let value = emu.read_r16(RegisterPair::HL);
        InstructionStep::new(2, value, 0)
    } else {
        let r = increment(k.lo, emu.cpu.get_flag(Flag::C));
        emu.write_r16(RegisterPair::HL, r.value);
        emu.cpu.set_result_flags(r);
        InstructionStep::Complete
    }
}

/// Decrement the value at address `HL`.
pub fn DEC_HL(emu: &mut GameboyEmulator, k: Latch) -> (step: InstructionStep)
    ensures
        (step, *final(emu)) == step_hl(*old(emu), false, k),
{
    // This instruction is different to `DEC HL`.
    // ? One bus read or write per m-cycle.
    if k.stage == 0 {
        InstructionStep::new(1, 0, 0)
    } else if k.stage == 1 {
        let value = emu.read_r16(RegisterPair::HL);
        InstructionStep::new(2, value, 0)
    } else {
        let r = decrement(k.lo, emu.cpu.get_flag(Flag::C));
        emu.write_r16(RegisterPair::HL, r.value);
        emu.cpu.set_result_flags(r);
        InstructionStep::Complete
    }
}

// * JR & JP
/// Add the signed immediate value `e8` to the `PC` and jump to it.
pub fn JR_n8(emu: &mut GameboyEmulator, k: Latch) -> (step: InstructionStep)
    ensures
        (step, *final(emu)) == jr_n8(*old(emu), k),
{
    // ? One bus read or write per m-cycle.
    if k.stage == 0 {
        InstructionStep::new(1, 0, 0)
    } else if k.stage == 1 {
        let value = emu.read_pc();
        InstructionStep::new(2, value, 0)
    } else {
        let pc = emu.cpu.get_register_pair(RegisterPair::PC);
        emu.cpu.set_register_pair(RegisterPair::PC, offset_word(pc, k.lo));
        InstructionStep::Complete
    }
}

/// If flag `c` is set, add the signed immediate value `n8` to the `PC` and jump to it.
pub fn JR_c_n8(emu: &mut GameboyEmulator, c: Flag, k: Latch) -> (step: InstructionStep)
    ensures
        (step, *final(emu)) == jr_cond(*old(emu), c, true, k),
{
    // ? One bus read or write per m-cycle.
    if k.stage == 0 {
        InstructionStep::new(1, 0, 0)
    } else if k.stage == 1 {
        let value = emu.read_pc();
        if emu.cpu.get_flag(c) {
            InstructionStep::new(2, value, 0)
        } else {
            InstructionStep::Complete
        }
    } else {
        let pc = emu.cpu.get_register_pair(RegisterPair::PC);
        emu.cpu.set_register_pair(RegisterPair::PC, offset_word(pc, k.lo));
        InstructionStep::Complete
    }
}

/// If flag `c` is not set, add the signed immediate value `n8` to the `PC` and jump to it.
pub fn JR_nc_n8(emu: &mut GameboyEmulator, c: Flag, k: Latch) -> (step: InstructionStep)
    ensures
        (step, *final(emu)) == jr_cond(*old(emu), c, false, k),
{
    // ? One bus read or write per m-cycle.
    if k.stage == 0 {
        InstructionStep::new(1, 0, 0)
    } else if k.stage == 1 {
        let value = emu.read_pc();
        if !emu.cpu.get_flag(c) {
            InstructionStep::new(2, value, 0)
        } else {
            InstructionStep::Complete
        }
    } else {
        let pc = emu.cpu.get_register_pair(RegisterPair::PC);
        emu.cpu.set_register_pair(RegisterPair::PC, offset_word(pc, k.lo));
        InstructionStep::Complete
    }
}

/// Jump to the immediate address `n16`.
pub fn JP_n16(emu: &mut GameboyEmulator, k: Latch) -> (step: InstructionStep)
    ensures
        (step, *final(emu)) == jp_n16(*old(emu), k),
{
    // ? One bus read or write per m-cycle.
    if k.stage == 0 {
        InstructionStep::new(1, 0, 0)
    } else if k.stage == 1 {
        let lsb = emu.read_pc();
        InstructionStep::new(2, lsb, 0)
    } else if k.stage == 2 {
        let msb = emu.read_pc();
        InstructionStep::new(3, k.lo, msb)
    } else {
        emu.cpu.set_register_pair(RegisterPair::PC, join_u16(k.lo, k.hi));
        InstructionStep::Complete
    }
}

/// If flag `c` is set, jump to the immediate address `n16`.
pub fn JP_c_n16(emu: &mut GameboyEmulator, c: Flag, k: Latch) -> (step: InstructionStep)
    ensures
        (step, *final(emu)) == jp_cond(*old(emu), c, true, k),
{
    // ? One bus read or write per m-cycle.
    if k.stage == 0 {
        InstructionStep::new(1, 0, 0)
    } else if k.stage == 1 {
        let lsb = emu.read_pc();
        InstructionStep::new(2, lsb, 0)
    } else if k.stage == 2 {
        let msb = emu.read_pc();
        if emu.cpu.get_flag(c) {
            InstructionStep::new(3, k.lo, msb)
        } else {
            InstructionStep::Complete
        }
    } else {
        emu.cpu.set_register_pair(RegisterPair::PC, join_u16(k.lo, k.hi));
        InstructionStep::Complete
    }
}

/// If flag `c` is not set, jump to the immediate address `n16`.
pub fn JP_nc_n16(emu: &mut GameboyEmulator, c: Flag, k: Latch) -> (step: InstructionStep)
    ensures
        (step, *final(emu)) == jp_cond(*old(emu), c, false, k),
{
    // ? One bus read or write per m-cycle.
    if k.stage == 0 {
        InstructionStep::new(1, 0, 0)
    } else if k.stage == 1 {
        let lsb = emu.read_pc();
        InstructionStep::new(2, lsb, 0)
    } else if k.stage == 2 {
        let msb = emu.read_pc();
        if !emu.cpu.get_flag(c) {
            InstructionStep::new(3, k.lo, msb)
        } else {
            InstructionStep::Complete
        }
    } else {
        emu.cpu.set_register_pair(RegisterPair::PC, join_u16(k.lo, k.hi));
        InstructionStep::Complete
    }
}

/// Jump to the address in `HL`.
pub fn JP_HL(emu: &mut GameboyEmulator) -> (step: InstructionStep)
    ensures
        (step, *final(emu)) == jp_hl(*old(emu)),
{
    let value = emu.cpu.get_register_pair(RegisterPair::HL);
    emu.cpu.set_register_pair(RegisterPair::PC, value);
    InstructionStep::Complete
}

// * ADD
/// Add registers `r8_1` and `r8_2`, storing the result in `r8_1`.
pub fn ADD_r8_r8(emu: &mut GameboyEmulator, r8_1: Register, r8_2: Register) -> (step:
    InstructionStep)
    ensures
        (step, *final(emu)) == alu_r8_r8(*old(emu), AluOp::Add, r8_1, r8_2),
{
    let mut value = emu.cpu.get_register(r8_2);
    value = emu.cpu.add_register(r8_1, value);
    emu.cpu.set_register(r8_1, value);
    InstructionStep::Complete
}

/// Add the value at address `r16` to register `r8`.
pub fn ADD_r8_r16(emu: &mut GameboyEmulator, r8: Register, r16: RegisterPair, k: Latch) -> (step:
    InstructionStep)
    ensures
        (step, *final(emu)) == alu_r8_r16(*old(emu), AluOp::Add, r8, r16, k),
{
    // ? One bus read or write per m-cycle.
    if k.stage == 0 {
        InstructionStep::new(1, 0, 0)
    } else {
        let mut value = emu.read_r16(r16);
        value = emu.cpu.add_register(r8, value);
        emu.cpu.set_register(r8, value);
        InstructionStep::Complete
    }
}

/// Add register pairs `r16_1` and `r16_2`, storing the result in `r16_1`.
pub fn ADD_r16_r16(emu: &mut GameboyEmulator, r16_1: RegisterPair, r16_2: RegisterPair, k: Latch) -> (step:
    InstructionStep)
    ensures
        (step, *final(emu)) == add_r16_r16(*old(emu), r16_1, r16_2, k),
{
    // ? Technically writes to each register seperately.
    if k.stage == 0 {
        InstructionStep::new(1, 0, 0)
    } else {
        let mut value = emu.cpu.get_register_pair(r16_2);
        value = emu.cpu.add_register_pair(r16_1, value);
        emu.cpu.set_register_pair(r16_1, value);
        InstructionStep::Complete
    }
}

// * ADC
/// Add the carry flag, and registers `r8_1` and `r8_2`, storing the result in `r8_1`.
pub fn ADC_r8_r8(emu: &mut GameboyEmulator, r8_1: Register, r8_2: Register) -> (step:
    InstructionStep)
    ensures
        (step, *final(emu)) == alu_r8_r8(*old(emu), AluOp::Adc, r8_1, r8_2),
{
    let mut value = emu.cpu.get_register(r8_2);
    value = emu.cpu.adc_register(r8_1, value);
    emu.cpu.set_register(r8_1, value);
    InstructionStep::Complete
}

/// Add the carry flag, register `r8` and the value at addresss `r16`, storing the result in `r8`.
pub fn ADC_r8_r16(emu: &mut GameboyEmulator, r8: Register, r16: RegisterPair, k: Latch) -> (step:
    InstructionStep)
    ensures
        (step, *final(emu)) == alu_r8_r16(*old(emu), AluOp::Adc, r8, r16, k),
{
    // ? One bus read or write per m-cycle.
    if k.stage == 0 {
        InstructionStep::new(1, 0, 0)
    } else {
        let mut value = emu.read_r16(r16);
        value = emu.cpu.adc_register(r8, value);
        emu.cpu.set_register(r8, value);
        InstructionStep::Complete
    }
}

// * SUB
/// Subtract register `r8_2` from register `r8_1`, storing the result in `r8_1`.
pub fn SUB_r8_r8(emu: &mut GameboyEmulator, r8_1: Register, r8_2: Register) -> (step:
    InstructionStep)
    ensures
        (step, *final(emu)) == alu_r8_r8(*old(emu), AluOp::Sub, r8_1, r8_2),
{
    let mut value = emu.cpu.get_register(r8_2);
    value = emu.cpu.sub_register(r8_1, value);
    emu.cpu.set_register(r8_1, value);
    InstructionStep::Complete
}

/// Subtract the value at `r16` from register `r8`, storing the result in `r8`.
pub fn SUB_r8_r16(emu: &mut GameboyEmulator, r8: Register, r16: RegisterPair, k: Latch) -> (step:
    InstructionStep)
    ensures
        (step, *final(emu)) == alu_r8_r16(*old(emu), AluOp::Sub, r8, r16, k),
{
    // ? One bus read or write per m-cycle.
    if k.stage == 0 {
        InstructionStep::new(1, 0, 0)
    } else {
        let mut value = emu.read_r16(r16);
        value = emu.cpu.sub_register(r8, value);
        emu.cpu.set_register(r8, value);
        InstructionStep::Complete
    }
}

// * SBC
/// Subtract the carry flag and register `r8_2` from register `r8_1`, storing the result in `r8_1`.
pub fn SBC_r8_r8(emu: &mut GameboyEmulator, r8_1: Register, r8_2: Register) -> (step:
    InstructionStep)
    ensures
        (step, *final(emu)) == alu_r8_r8(*old(emu), AluOp::Sbc, r8_1, r8_2),
{
    let mut value = emu.cpu.get_register(r8_2);
    value = emu.cpu.sbc_register(r8_1, value);
    emu.cpu.set_register(r8_1, value);
    InstructionStep::Complete
}

/// Subtract the carry flag and the value at `r16` from register `r8`, storing the result in `r8`.
pub fn SBC_r8_r16(emu: &mut GameboyEmulator, r8: Register, r16: RegisterPair, k: Latch) -> (step:
    InstructionStep)
    ensures
        (step, *final(emu)) == alu_r8_r16(*old(emu), AluOp::Sbc, r8, r16, k),
{
    // ? One bus read or write per m-cycle.
    if k.stage == 0 {
        InstructionStep::new(1, 0, 0)
    } else {
        let mut value = emu.read_r16(r16);
        value = emu.cpu.sbc_register(r8, value);
        emu.cpu.set_register(r8, value);
        InstructionStep::Complete
    }
}

// * AND
/// Bitwise AND registers `r8_1` and `r8_2`, storing the result in `r8_1`.
pub fn AND_r8_r8(emu: &mut GameboyEmulator, r8_1: Register, r8_2: Register) -> (step:
    InstructionStep)
    ensures
        (step, *final(emu)) == alu_r8_r8(*old(emu), AluOp::And, r8_1, r8_2),
{
    let value = emu.cpu.get_register(r8_2);
    let value = emu.cpu.and_register(r8_1, value);
    emu.cpu.set_register(r8_1, value);
    InstructionStep::Complete
}

/// Bitwise AND register `r8` and the value at address`r16`, storing the result in `r8`.
pub fn AND_r8_r16(emu: &mut GameboyEmulator, r8: Register, r16: RegisterPair, k: Latch) -> (step:
    InstructionStep)
    ensures
        (step, *final(emu)) == alu_r8_r16(*old(emu), AluOp::And, r8, r16, k),
{
    // ? One bus read or write per m-cycle.
    if k.stage == 0 {
        InstructionStep::new(1, 0, 0)
    } else {
        let mut value = emu.read_r16(r16);
        value = emu.cpu.and_register(r8, value);
        emu.cpu.set_register(r8, value);
        InstructionStep::Complete
    }
}

// * XOR
/// Bitwise XOR registers `r8_1` and `r8_2`, storing the result in `r8_1`.
pub fn XOR_r8_r8(emu: &mut GameboyEmulator, r8_1: Register, r8_2: Register) -> (step:
    InstructionStep)
    ensures
        (step, *final(emu)) == alu_r8_r8(*old(emu), AluOp::Xor, r8_1, r8_2),
{
    let value = emu.cpu.get_register(r8_2);
    let value = emu.cpu.xor_register(r8_1, value);
    emu.cpu.set_register(r8_1, value);
    InstructionStep::Complete
}

/// Bitwise XOR register `r8` and the value at address`r16`, storing the result in `r8`.
pub fn XOR_r8_r16(emu: &mut GameboyEmulator, r8: Register, r16: RegisterPair, k: Latch) -> (step:
    InstructionStep)
    ensures
        (step, *final(emu)) == alu_r8_r16(*old(emu), AluOp::Xor, r8, r16, k),
{
    // ? One bus read or write per m-cycle.
    if k.stage == 0 {
        InstructionStep::new(1, 0, 0)
    } else {
        let value = emu.read_r16(r16);
        let value = emu.cpu.xor_register(r8, value);
        emu.cpu.set_register(r8, value);
        InstructionStep::Complete
    }
}

// * OR
/// Bitwise OR registers `r8_1` and `r8_2`, storing the result in `r8_1`.
pub fn OR_r8_r8(emu: &mut GameboyEmulator, r8_1: Register, r8_2: Register) -> (step:
    InstructionStep)
    ensures
        (step, *final(emu)) == alu_r8_r8(*old(emu), AluOp::Or, r8_1, r8_2),
{
    let mut value = emu.cpu.get_register(r8_2);
    value = emu.cpu.or_register(r8_1, value);
    emu.cpu.set_register(r8_1, value);
    InstructionStep::Complete
}

/// Bitwise OR register `r8` and the value at address`r16`, storing the result in `r8`.
pub fn OR_r8_r16(emu: &mut GameboyEmulator, r8: Register, r16: RegisterPair, k: Latch) -> (step:
    InstructionStep)
    ensures
        (step, *final(emu)) == alu_r8_r16(*old(emu), AluOp::Or, r8, r16, k),
{
    // ? One bus read or write per m-cycle.
    if k.stage == 0 {
        InstructionStep::new(1, 0, 0)
    } else {
        let mut value = emu.read_r16(r16);
        value = emu.cpu.or_register(r8, value);
        emu.cpu.set_register(r8, value);
        InstructionStep::Complete
    }
}

// * CP
/// Subtract register `r8_2` from register `r8_1`, but do not store the result.
pub fn CP_r8_r8(emu: &mut GameboyEmulator, r8_1: Register, r8_2: Register) -> (step:
    InstructionStep)
    ensures
        (step, *final(emu)) == alu_r8_r8(*old(emu), AluOp::Cp, r8_1, r8_2),
{
    let value = emu.cpu.get_register(r8_2);
    let kept = emu.cpu.get_register(r8_1);
    emu.cpu.sub_register(r8_1, value);
    emu.cpu.set_register(r8_1, kept);
    InstructionStep::Complete
}

/// Subtract the value at `r16` from register `r8`, but do not store the result.
pub fn CP_r8_r16(emu: &mut GameboyEmulator, r8: Register, r16: RegisterPair, k: Latch) -> (step:
    InstructionStep)
    ensures
        (step, *final(emu)) == alu_r8_r16(*old(emu), AluOp::Cp, r8, r16, k),
{
    // ? One bus read or write per m-cycle.
    if k.stage == 0 {
        InstructionStep::new(1, 0, 0)
    } else {
        let value = emu.read_r16(r16);
        let kept = emu.cpu.get_register(r8);
        emu.cpu.sub_register(r8, value);
        emu.cpu.set_register(r8, kept);
        InstructionStep::Complete
    }
}

/// Run the accumulator operation `op` on `A` and the immediate value `n8`.
pub fn ALU_A_n8(emu: &mut GameboyEmulator, op: AluOp, k: Latch) -> (step: InstructionStep)
    ensures
        (step, *final(emu)) == alu_a_n8(*old(emu), op, k),
{
    // ? One bus read or write per m-cycle.
    if k.stage == 0 {
        InstructionStep::new(1, 0, 0)
    } else {
        let a = emu.cpu.get_register(Register::A);
        let carry = emu.cpu.get_flag(Flag::C);
        let value = emu.read_pc();
        let r = alu(op, a, value, carry);
        emu.cpu.set_result_flags(r);
        emu.cpu.set_register(Register::A, r.value);
        InstructionStep::Complete
    }
}

/// Rotate register `A` as `op` says; the zero flag is always unset.
pub fn ROT_A(emu: &mut GameboyEmulator, op: RotOp) -> (step: InstructionStep)
    ensures
        (step, *final(emu)) == rot_a_step(*old(emu), op),
{
    // ? Slightly different to the prefixed rotates (zero flag is always unset, not dependent).
    let r = rotate(op, emu.cpu.get_register(Register::A), emu.cpu.get_flag(Flag::C));
    emu.cpu.set_result_flags(AluResult { value: r.value, z: false, n: r.n, h: r.h, c: r.c });
    emu.cpu.set_register(Register::A, r.value);
    InstructionStep::Complete
}

/// Adjust register `A` to packed decimal after an addition or subtraction.
pub fn DAA(emu: &mut GameboyEmulator) -> (step: InstructionStep)
    ensures
        (step, *final(emu)) == daa(*old(emu)),
{
    let r = decimal_adjust(
        emu.cpu.get_register(Register::A),
        emu.cpu.get_flag(Flag::N),
        emu.cpu.get_flag(Flag::H),
        emu.cpu.get_flag(Flag::C),
    );
    emu.cpu.set_result_flags(r);
    emu.cpu.set_register(Register::A, r.value);
    InstructionStep::Complete
}

/// Complement register `A`.
pub fn CPL(emu: &mut GameboyEmulator) -> (step: InstructionStep)
    ensures
        (step, *final(emu)) == cpl(*old(emu)),
{
    let value = 255 - emu.cpu.get_register(Register::A);
    emu.cpu.set_register(Register::A, value);
    emu.cpu.set_flag(Flag::N, true);
    emu.cpu.set_flag(Flag::H, true);
    InstructionStep::Complete
}

/// Set the carry flag.
pub fn SCF(emu: &mut GameboyEmulator) -> (step: InstructionStep)
    ensures
        (step, *final(emu)) == scf(*old(emu)),
{
    emu.cpu.set_flag(Flag::N, false);
    emu.cpu.set_flag(Flag::H, false);
    emu.cpu.set_flag(Flag::C, true);
    InstructionStep::Complete
}

/// Invert the carry flag.
pub fn CCF(emu: &mut GameboyEmulator) -> (step: InstructionStep)
    ensures
        (step, *final(emu)) == ccf(*old(emu)),
{
    emu.cpu.set_flag(Flag::N, false);
    emu.cpu.set_flag(Flag::H, false);
    emu.cpu.toggle_flag(Flag::C);
    InstructionStep::Complete
}

// * RET, CALL & RST
/// Return from subroutine.
pub fn RET(emu: &mut GameboyEmulator, k: Latch) -> (step: InstructionStep)
    ensures
        (step, *final(emu)) == ret(*old(emu), false, k),
{
    // ? One bus read or write per m-cycle.
    if k.stage == 0 {
        InstructionStep::new(1, 0, 0)
    } else if k.stage == 1 {
        let lsb = emu.read_sp();
        InstructionStep::new(2, lsb, 0)
    } else if k.stage == 2 {
        let msb = emu.read_sp();
        InstructionStep::new(3, k.lo, msb)
    } else {
        emu.cpu.set_register_pair(RegisterPair::PC, join_u16(k.lo, k.hi));
        InstructionStep::Complete
    }
}

/// Return from subroutine and enable interrupts.
pub fn RETI(emu: &mut GameboyEmulator, k: Latch) -> (step: InstructionStep)
    ensures
        (step, *final(emu)) == ret(*old(emu), true, k),
{
    // ? One bus read or write per m-cycle.
    if k.stage == 0 {
        InstructionStep::new(1, 0, 0)
    } else if k.stage == 1 {
        let lsb = emu.read_sp();
        InstructionStep::new(2, lsb, 0)
    } else if k.stage == 2 {
        let msb = emu.read_sp();
        InstructionStep::new(3, k.lo, msb)
    } else {
        emu.cpu.set_register_pair(RegisterPair::PC, join_u16(k.lo, k.hi));
        emu.ime = IME::Enabled;
        InstructionStep::Complete
    }
}

/// Return from subroutine if flag `c` is set.
pub fn RET_c(emu: &mut GameboyEmulator, c: Flag, k: Latch) -> (step: InstructionStep)
    ensures
        (step, *final(emu)) == ret_cond(*old(emu), c, true, k),
{
    // ? One bus read or write per m-cycle.
    if k.stage == 0 {
        InstructionStep::new(1, 0, 0)
    } else if k.stage == 1 {
        if emu.cpu.get_flag(c) {
            InstructionStep::new(2, 0, 0)
        } else {
            InstructionStep::Complete
        }
    } else if k.stage == 2 {
        let lsb = emu.read_sp();
        InstructionStep::new(3, lsb, 0)
    } else if k.stage == 3 {
        let msb = emu.read_sp();
        InstructionStep::new(4, k.lo, msb)
    } else {
        emu.cpu.set_register_pair(RegisterPair::PC, join_u16(k.lo, k.hi));
        InstructionStep::Complete
    }
}

/// Return from subroutine if flag `c` is not set.
pub fn RET_nc(emu: &mut GameboyEmulator, c: Flag, k: Latch) -> (step: InstructionStep)
    ensures
        (step, *final(emu)) == ret_cond(*old(emu), c, false, k),
{
    // ? One bus read or write per m-cycle.
    if k.stage == 0 {
        InstructionStep::new(1, 0, 0)
    } else if k.stage == 1 {
        if !emu.cpu.get_flag(c) {
            InstructionStep::new(2, 0, 0)
        } else {
            InstructionStep::Complete
        }
    } else if k.stage == 2 {
        let lsb = emu.read_sp();
        InstructionStep::new(3, lsb, 0)
    } else if k.stage == 3 {
        let msb = emu.read_sp();
        InstructionStep::new(4, k.lo, msb)
    } else {
        emu.cpu.set_register_pair(RegisterPair::PC, join_u16(k.lo, k.hi));
        InstructionStep::Complete
    }
}

/// Runs one of the last three cycles of a call.
fn call_step(emu: &mut GameboyEmulator, k: Latch) -> (step: InstructionStep)
    ensures
        (step, *final(emu)) == call_tail(*old(emu), k),
{
    if k.stage == 3 {
        InstructionStep::new(4, k.lo, k.hi)
    } else if k.stage == 4 {
        let (_pc_lsb, pc_msb) = split_u16(emu.cpu.get_register_pair(RegisterPair::PC));
        emu.write_sp(pc_msb);
        InstructionStep::new(5, k.lo, k.hi)
    } else {
        let (pc_lsb, _pc_msb) = split_u16(emu.cpu.get_register_pair(RegisterPair::PC));
        emu.write_sp(pc_lsb);
        emu.cpu.set_register_pair(RegisterPair::PC, join_u16(k.lo, k.hi));
        InstructionStep::Complete
    }
}

/// Call the immediate address `n16`.
pub fn CALL_n16(emu: &mut GameboyEmulator, k: Latch) -> (step: InstructionStep)
    ensures
        (step, *final(emu)) == call_n16(*old(emu), k),
{
    // ? One bus read or write per m-cycle.
    if k.stage == 0 {
        InstructionStep::new(1, 0, 0)
    } else if k.stage == 1 {
        let lsb = emu.read_pc();
        InstructionStep::new(2, lsb, 0)
    } else if k.stage == 2 {
        let msb = emu.read_pc();
        InstructionStep::new(3, k.lo, msb)
    } else {
        call_step(emu, k)
    }
}

/// Call the immediate address `n16` if flag `c` is set.
pub fn CALL_c_n16(emu: &mut GameboyEmulator, c: Flag, k: Latch) -> (step: InstructionStep)
    ensures
        (step, *final(emu)) == call_cond(*old(emu), c, true, k),
{
    // ? One bus read or write per m-cycle.
    if k.stage == 0 {
        InstructionStep::new(1, 0, 0)
    } else if k.stage == 1 {
        let lsb = emu.read_pc();
        InstructionStep::new(2, lsb, 0)
    } else if k.stage == 2 {
        let msb = emu.read_pc();
        if emu.cpu.get_flag(c) {
            InstructionStep::new(3, k.lo, msb)
        } else {
            InstructionStep::Complete
        }
    } else {
        call_step(emu, k)
    }
}

/// Call the immediate address `n16` if flag `c` is not set.
pub fn CALL_nc_n16(emu: &mut GameboyEmulator, c: Flag, k: Latch) -> (step: InstructionStep)
    ensures
        (step, *final(emu)) == call_cond(*old(emu), c, false, k),
{
    // ? One bus read or write per m-cycle.
    if k.stage == 0 {
        InstructionStep::new(1, 0, 0)
    } else if k.stage == 1 {
        let lsb = emu.read_pc();
        InstructionStep::new(2, lsb, 0)
    } else if k.stage == 2 {
        let msb = emu.read_pc();
        if !emu.cpu.get_flag(c) {
            InstructionStep::new(3, k.lo, msb)
        } else {
            InstructionStep::Complete
        }
    } else {
        call_step(emu, k)
    }
}

/// Runs one cycle of a call to the fixed address `target` that begins with
/// `idle` internal cycles.
fn push_pc_and_jump_step(emu: &mut GameboyEmulator, idle: u8, target: u16, k: Latch) -> (step:
    InstructionStep)
    requires
        idle <= 2,
    ensures
        (step, *final(emu)) == push_pc_and_jump(*old(emu), idle, target, k),
{
    if k.stage < idle {
        InstructionStep::new(k.stage + 1, 0, 0)
    } else if k.stage == idle {
        let (_lsb, msb) = split_u16(emu.cpu.get_register_pair(RegisterPair::PC));
        emu.write_sp(msb);
        InstructionStep::new(k.stage + 1, 0, 0)
    } else if k.stage == idle + 1 {
        let (lsb, _msb) = split_u16(emu.cpu.get_register_pair(RegisterPair::PC));
        emu.write_sp(lsb);
        InstructionStep::new(k.stage + 1, 0, 0)
    } else {
        emu.cpu.set_register_pair(RegisterPair::PC, target);
        InstructionStep::Complete
    }
}

/// Call the fixed address `n16`.
pub fn RST_n16(emu: &mut GameboyEmulator, n16: u16, k: Latch) -> (step: InstructionStep)
    ensures
        (step, *final(emu)) == push_pc_and_jump(*old(emu), 1, n16, k),
{
    // ? Listed as 4 m-cycles long.
    push_pc_and_jump_step(emu, 1, n16, k)
}

// * PUSH & POP
/// Push register pair `r16` into the stack.
pub fn PUSH_r16(emu: &mut GameboyEmulator, r16: RegisterPair, k: Latch) -> (step: InstructionStep)
    ensures
        (step, *final(emu)) == push_r16(*old(emu), r16, k),
{
    // ? One bus read or write per m-cycle.
    if k.stage == 0 {
        InstructionStep::new(1, 0, 0)
    } else if k.stage == 1 {
        InstructionStep::new(2, 0, 0)
    } else if k.stage == 2 {
        let (_lsb, msb) = split_u16(emu.cpu.get_register_pair(r16));
        emu.write_sp(msb);
        InstructionStep::new(3, 0, 0)
    } else {
        let (lsb, _msb) = split_u16(emu.cpu.get_register_pair(r16));
        emu.write_sp(lsb);
        InstructionStep::Complete
    }
}

/// Pop from the stack to register pair `r16`.
pub fn POP_r16(emu: &mut GameboyEmulator, r16: RegisterPair, k: Latch) -> (step: InstructionStep)
    ensures
        (step, *final(emu)) == pop_r16(*old(emu), r16, k),
{
    // ? One bus read or write per m-cycle.
    if k.stage == 0 {
        InstructionStep::new(1, 0, 0)
    } else if k.stage == 1 {
        let lsb = emu.read_sp();
        InstructionStep::new(2, lsb, 0)
    } else {
        let msb = emu.read_sp();
        emu.cpu.set_register_pair(r16, join_u16(k.lo, msb));
        InstructionStep::Complete
    }
}

// * Interrupt handling
/// Service `interrupt`: five cycles that end at its handler.
pub fn INTERRUPT(emu: &mut GameboyEmulator, interrupt: InterruptMask, k: Latch) -> (step:
    InstructionStep)
    ensures
        (step, *final(emu)) == push_pc_and_jump(*old(emu), 2, interrupt.handler_address(), k),
{
    // ? "2 machine cycles pass while nothing occurs, presumably the CPU is executing NOPs during this time."
    push_pc_and_jump_step(emu, 2, interrupt.get_handler_address(), k)
}

// * CPU control
/// Do nothing for one cycle.
pub fn NOP(emu: &mut GameboyEmulator) -> (step: InstructionStep)
    ensures
        (step, *final(emu)) == done(*old(emu)),
{
    InstructionStep::Complete
}

/// Skip the byte after the opcode and halt.
pub fn STOP(emu: &mut GameboyEmulator) -> (step: InstructionStep)
    ensures
        (step, *final(emu)) == stop(*old(emu)),
{
    emu.cpu.inc_register_pair(RegisterPair::PC);
    emu.is_halted = true;
    InstructionStep::Complete
}

/// Halt until an enabled interrupt is requested.
pub fn HALT(emu: &mut GameboyEmulator) -> (step: InstructionStep)
    ensures
        (step, *final(emu)) == halt(*old(emu)),
{
    if emu.ime != IME::Enabled && emu.io_registers.interrupts.get_pending() != 0 {
        emu.halt_bug = true;
    } else {
        emu.is_halted = true;
    }
    InstructionStep::Complete
}

/// Disable interrupts.
pub fn DI(emu: &mut GameboyEmulator) -> (step: InstructionStep)
    ensures
        (step, *final(emu)) == set_ime(*old(emu), IME::Disabled),
{
    emu.ime = IME::Disabled;
    InstructionStep::Complete
}

/// Enable interrupts after the instruction that follows.
pub fn EI(emu: &mut GameboyEmulator) -> (step: InstructionStep)
    ensures
        (step, *final(emu)) == set_ime(*old(emu), IME::Scheduled),
{
    emu.ime = IME::Scheduled;
    InstructionStep::Complete
}

/// Stop the CPU on an opcode that it does not have.
pub fn INVALID(emu: &mut GameboyEmulator, opcode: u8) -> (step: InstructionStep)
    ensures
        (step, *final(emu)) == invalid(*old(emu), opcode),
{
    emu.is_halted = true;
    emu.invalid_opcode = Some(opcode);
    InstructionStep::Complete
}

} // verus!
