//! Instructions as data: the operation that an opcode stands for, and the
//! machine cycle that it has reached.

use vstd::prelude::*;
use vstd::std_specs::convert::FromSpecImpl;
use crate::gb::cpu::{AluOp, RotOp};
use crate::gb::emu::GameboyEmulator;
use crate::gb::utils::{Flag, InterruptMask, Register, RegisterPair, IME};
use super::operations::{
    add_r16_r16, add_sp_i8, alu_a_n8, alu_r8_r16, alu_r8_r8, call_cond, call_n16, ccf, cpl, daa,
    dec_r8, done, halt, inc_r8, invalid, jp_cond, jp_hl, jp_n16, jr_cond, jr_n8, ld_a_hl_step,
    ld_a_n16, ld_hl_sp_i8, ld_hl_step_a, ld_n16_a, ld_n16_r16, ld_r16_n16, ld_r16_n8, ld_r16_r8,
    ld_r8_n8, ld_r8_r16, ld_r8_r8, ld_sp_hl, ldh_a_c, ldh_a_n8, ldh_c_a, ldh_n8_a, pop_r16,
    push_pc_and_jump, push_r16, ret, ret_cond, rot_a_step, scf, set_ime, step_hl, step_r16, stop,
    Outcome, ADC_r8_r16, ADC_r8_r8, ADD_SP_i8, ADD_r16_r16, ADD_r8_r16, ADD_r8_r8, ALU_A_n8,
    AND_r8_r16, AND_r8_r8, CALL_c_n16, CALL_n16, CALL_nc_n16, CCF, CPL, CP_r8_r16, CP_r8_r8, DAA,
    DEC_HL, DEC_r16, DEC_r8, DI, EI, HALT, INC_HL, INC_r16, INC_r8, INTERRUPT, INVALID, JP_HL,
    JP_c_n16, JP_n16, JP_nc_n16, JR_c_n8, JR_n8, JR_nc_n8, LDH_A_C, LDH_A_n8, LDH_C_A, LDH_n8_A,
    LD_A_HLD, LD_A_HLI, LD_A_n16, LD_HLD_A, LD_HLI_A, LD_HL_SP_i8, LD_SP_HL, LD_n16_A, LD_n16_r16,
    LD_r16_n16, LD_r16_n8, LD_r16_r8, LD_r8_n8, LD_r8_r16, LD_r8_r8, NOP, OR_r8_r16, OR_r8_r8,
    POP_r16, PUSH_r16, RET, RETI, RET_c, RET_nc, ROT_A, RST_n16, SBC_r8_r16, SBC_r8_r8, SCF, STOP,
    SUB_r8_r16, SUB_r8_r8, XOR_r8_r16, XOR_r8_r8,
};
use super::prefixed_instructions::{prefix_n8, prefixed_step, step_prefixed, PREFIX_n8};

verus! {

/// What an instruction carries from one machine cycle to the next: the
/// number of the cycle that comes next, counted from 0 at the opcode fetch,
/// and up to two bytes read so far.
#[derive(Debug, Clone, Copy, PartialEq, Eq, Structural)]
pub struct Latch {
    pub stage: u8,
    pub lo: u8,
    pub hi: u8,
}

/// A 4 t-cycle long step of an instruction, either holding what the next step needs or signalling the instruction's completion.
#[derive(Debug, Clone, Copy, PartialEq, Eq, Structural)]
pub enum InstructionStep {
    Running(Latch),
    Complete,
}

/// The step that runs cycle `stage` next, with `lo` and `hi` latched.
pub open spec fn running(stage: u8, lo: u8, hi: u8) -> InstructionStep {
    InstructionStep::Running(Latch { stage, lo, hi })
}

impl InstructionStep {
    /// Returns `true` if this instruction has finished.
    #[must_use]
    pub fn is_complete(&self) -> (complete: bool)
        ensures
            complete == (*self is Complete),
    {
        match self {
            InstructionStep::Complete => true,
            InstructionStep::Running(_) => false,
        }
    }

    #[inline]
    pub fn new(stage: u8, lo: u8, hi: u8) -> (step: Self)
        ensures
            step == running(stage, lo, hi),
    {
        InstructionStep::Running(Latch { stage, lo, hi })
    }
}

impl Default for InstructionStep {
    fn default() -> (step: Self)
        ensures
            step == InstructionStep::Complete,
    {
        InstructionStep::Complete
    }
}

/// The operations of the CPU, operands included. The variants of the two
/// opcode tables and the interrupt service sequence.
#[derive(Debug, Clone, Copy, PartialEq, Eq, Structural)]
pub enum Operation {
    Nop,
    Stop,
    Halt,
    Di,
    Ei,
    Daa,
    Cpl,
    Scf,
    Ccf,
    /// `RLCA`, `RRCA`, `RLA`, `RRA`.
    RotA(RotOp),
    LdR8R8(Register, Register),
    LdR8N8(Register),
    /// `LD r8, (r16)`
    LdR8R16(Register, RegisterPair),
    /// `LD (r16), r8`
    LdR16R8(RegisterPair, Register),
    /// `LD (r16), n8`
    LdR16N8(RegisterPair),
    LdR16N16(RegisterPair),
    /// `LD (n16), r16`
    LdN16R16(RegisterPair),
    /// `LD (HL+), A`
    LdHlIncA,
    /// `LD (HL-), A`
    LdHlDecA,
    /// `LD A, (HL+)`
    LdAHlInc,
    /// `LD A, (HL-)`
    LdAHlDec,
    /// `LD (FF00 + n8), A`
    LdhN8A,
    /// `LD A, (FF00 + n8)`
    LdhAN8,
    /// `LD (FF00 + C), A`
    LdhCA,
    /// `LD A, (FF00 + C)`
    LdhAC,
    /// `LD (n16), A`
    LdN16A,
    /// `LD A, (n16)`
    LdAN16,
    LdSpHl,
    /// `LD HL, SP + i8`
    LdHlSpI8,
    AddSpI8,
    JpHl,
    IncR8(Register),
    DecR8(Register),
    IncR16(RegisterPair),
    DecR16(RegisterPair),
    /// `INC (HL)`
    IncHl,
    /// `DEC (HL)`
    DecHl,
    JrN8,
    /// `JR c, n8`: taken when the flag is set.
    JrCN8(Flag),
    /// `JR Nc, n8`: taken when the flag is clear.
    JrNcN8(Flag),
    JpN16,
    JpCN16(Flag),
    JpNcN16(Flag),
    /// An accumulator operation on two registers.
    AluR8R8(AluOp, Register, Register),
    /// An accumulator operation on a register and the byte at `(r16)`.
    AluR8R16(AluOp, Register, RegisterPair),
    /// An accumulator operation on `A` and an immediate byte.
    AluAN8(AluOp),
    AddR16R16(RegisterPair, RegisterPair),
    Ret,
    RetC(Flag),
    RetNc(Flag),
    Reti,
    CallN16,
    CallCN16(Flag),
    CallNcN16(Flag),
    RstN16(u16),
    PushR16(RegisterPair),
    PopR16(RegisterPair),
    /// The synthetic instruction that services an interrupt.
    Interrupt(InterruptMask),
    /// The prefix `CB`: the next byte selects the operation.
    Prefix,
    /// A prefixed rotate or shift of a register.
    RotR8(RotOp, Register),
    /// A prefixed rotate or shift of the byte at `(r16)`.
    RotR16(RotOp, RegisterPair),
    BitBR8(u8, Register),
    BitBR16(u8, RegisterPair),
    ResBR8(u8, Register),
    ResBR16(u8, RegisterPair),
    SetBR8(u8, Register),
    SetBR16(u8, RegisterPair),
    /// One of the eleven opcodes that the CPU does not have.
    Invalid(u8),
}

/// The register that the three-bit field `i` of an opcode names. Field
/// value 6 stands for `(HL)` and is told apart before this is asked.
pub open spec fn r8_of(i: int) -> Register {
    if i == 0 {
        Register::B
    } else if i == 1 {
        Register::C
    } else if i == 2 {
        Register::D
    } else if i == 3 {
        Register::E
    } else if i == 4 {
        Register::H
    } else if i == 5 {
        Register::L
    } else {
        Register::A
    }
}

/// The pair that the two-bit field `i` names in loads and arithmetic.
pub open spec fn r16_of(i: int) -> RegisterPair {
    if i == 0 {
        RegisterPair::BC
    } else if i == 1 {
        RegisterPair::DE
    } else if i == 2 {
        RegisterPair::HL
    } else {
        RegisterPair::SP
    }
}

/// The pair that the two-bit field `i` names in `PUSH` and `POP`.
pub open spec fn r16_stack_of(i: int) -> RegisterPair {
    if i == 3 {
        RegisterPair::AF
    } else {
        r16_of(i)
    }
}

/// The flag that the two-bit condition field `i` tests: `NZ`, `Z`, `NC`, `C`.
pub open spec fn condition_flag(i: int) -> Flag {
    if i < 2 {
        Flag::Z
    } else {
        Flag::C
    }
}

/// The accumulator operation that the three-bit field `i` names.
pub open spec fn alu_of(i: int) -> AluOp {
    if i == 0 {
        AluOp::Add
    } else if i == 1 {
        AluOp::Adc
    } else if i == 2 {
        AluOp::Sub
    } else if i == 3 {
        AluOp::Sbc
    } else if i == 4 {
        AluOp::And
    } else if i == 5 {
        AluOp::Xor
    } else if i == 6 {
        AluOp::Or
    } else {
        AluOp::Cp
    }
}

/// The rotate or shift that the three-bit field `i` names.
pub open spec fn rot_of(i: int) -> RotOp {
    if i == 0 {
        RotOp::Rlc
    } else if i == 1 {
        RotOp::Rrc
    } else if i == 2 {
        RotOp::Rl
    } else if i == 3 {
        RotOp::Rr
    } else if i == 4 {
        RotOp::Sla
    } else if i == 5 {
        RotOp::Sra
    } else if i == 6 {
        RotOp::Swap
    } else {
        RotOp::Srl
    }
}

/// The operations of opcodes `00..=3F`, by the fields `y` (bits 5 to 3)
/// and `z` (bits 2 to 0).
pub open spec fn decode_low(y: int, z: int) -> Operation {
    if z == 0 {
        if y == 0 {
            Operation::Nop
        } else if y == 1 {
            Operation::LdN16R16(RegisterPair::SP)
        } else if y == 2 {
            Operation::Stop
        } else if y == 3 {
            Operation::JrN8
        } else if y % 2 == 0 {
            Operation::JrNcN8(condition_flag(y - 4))
        } else {
            Operation::JrCN8(condition_flag(y - 4))
        }
    } else if z == 1 {
        if y % 2 == 0 {
            Operation::LdR16N16(r16_of(y / 2))
        } else {
            Operation::AddR16R16(RegisterPair::HL, r16_of(y / 2))
        }
    } else if z == 2 {
        if y == 0 {
            Operation::LdR16R8(RegisterPair::BC, Register::A)
        } else if y == 1 {
            Operation::LdR8R16(Register::A, RegisterPair::BC)
        } else if y == 2 {
            Operation::LdR16R8(RegisterPair::DE, Register::A)
        } else if y == 3 {
            Operation::LdR8R16(Register::A, RegisterPair::DE)
        } else if y == 4 {
            Operation::LdHlIncA
        } else if y == 5 {
            Operation::LdAHlInc
        } else if y == 6 {
            Operation::LdHlDecA
        } else {
            Operation::LdAHlDec
        }
    } else if z == 3 {
        if y % 2 == 0 {
            Operation::IncR16(r16_of(y / 2))
        } else {
            Operation::DecR16(r16_of(y / 2))
        }
    } else if z == 4 {
        if y == 6 {
            Operation::IncHl
        } else {
            Operation::IncR8(r8_of(y))
        }
    } else if z == 5 {
        if y == 6 {
            Operation::DecHl
        } else {
            Operation::DecR8(r8_of(y))
        }
    } else if z == 6 {
        if y == 6 {
            Operation::LdR16N8(RegisterPair::HL)
        } else {
            Operation::LdR8N8(r8_of(y))
        }
    } else {
        if y < 4 {
            Operation::RotA(rot_of(y))
        } else if y == 4 {
            Operation::Daa
        } else if y == 5 {
            Operation::Cpl
        } else if y == 6 {
            Operation::Scf
        } else {
            Operation::Ccf
        }
    }
}

/// The operations of opcodes `40..=7F`: the loads between registers and
/// `(HL)`, with `HALT` in place of `LD (HL), (HL)`.
pub open spec fn decode_load(y: int, z: int) -> Operation {
    if y == 6 && z == 6 {
        Operation::Halt
    } else if z == 6 {
        Operation::LdR8R16(r8_of(y), RegisterPair::HL)
    } else if y == 6 {
        Operation::LdR16R8(RegisterPair::HL, r8_of(z))
    } else {
        Operation::LdR8R8(r8_of(y), r8_of(z))
    }
}

/// The operations of opcodes `80..=BF`: the accumulator operations.
pub open spec fn decode_alu(y: int, z: int) -> Operation {
    if z == 6 {
        Operation::AluR8R16(alu_of(y), Register::A, RegisterPair::HL)
    } else {
        Operation::AluR8R8(alu_of(y), Register::A, r8_of(z))
    }
}

/// The operations of opcodes `C0..=FF`.
pub open spec fn decode_high(opcode: u8, y: int, z: int) -> Operation {
    if z == 0 {
        if y < 4 {
            if y % 2 == 0 {
                Operation::RetNc(condition_flag(y))
            } else {
                Operation::RetC(condition_flag(y))
            }
        } else if y == 4 {
            Operation::LdhN8A
        } else if y == 5 {
            Operation::AddSpI8
        } else if y == 6 {
            Operation::LdhAN8
        } else {
            Operation::LdHlSpI8
        }
    } else if z == 1 {
        if y % 2 == 0 {
            Operation::PopR16(r16_stack_of(y / 2))
        } else if y == 1 {
            Operation::Ret
        } else if y == 3 {
            Operation::Reti
        } else if y == 5 {
            Operation::JpHl
        } else {
            Operation::LdSpHl
        }
    } else if z == 2 {
        if y < 4 {
            if y % 2 == 0 {
                Operation::JpNcN16(condition_flag(y))
            } else {
                Operation::JpCN16(condition_flag(y))
            }
        } else if y == 4 {
            Operation::LdhCA
        } else if y == 5 {
            Operation::LdN16A
        } else if y == 6 {
            Operation::LdhAC
        } else {
            Operation::LdAN16
        }
    } else if z == 3 {
        if y == 0 {
            Operation::JpN16
        } else if y == 1 {
            Operation::Prefix
        } else if y == 6 {
            Operation::Di
        } else if y == 7 {
            Operation::Ei
        } else {
            Operation::Invalid(opcode)
        }
    } else if z == 4 {
        if y < 4 {
            if y % 2 == 0 {
                Operation::CallNcN16(condition_flag(y))
            } else {
                Operation::CallCN16(condition_flag(y))
            }
        } else {
            Operation::Invalid(opcode)
        }
    } else if z == 5 {
        if y % 2 == 0 {
            Operation::PushR16(r16_stack_of(y / 2))
        } else if y == 1 {
            Operation::CallN16
        } else {
            Operation::Invalid(opcode)
        }
    } else if z == 6 {
        Operation::AluAN8(alu_of(y))
    } else {
        Operation::RstN16((y * 8) as u16)
    }
}

impl Operation {
    /// The operation of the primary opcode `opcode`, read off its bit
    /// fields: the top two bits choose the block, bits 5 to 3 and bits 2 to 0
    /// the operands.
    pub open spec fn of_opcode(opcode: u8) -> Operation {
        let y = (opcode / 8) % 8;
        let z = opcode % 8;
        if opcode < 0x40 {
            decode_low(y as int, z as int)
        } else if opcode < 0x80 {
            decode_load(y as int, z as int)
        } else if opcode < 0xC0 {
            decode_alu(y as int, z as int)
        } else {
            decode_high(opcode, y as int, z as int)
        }
    }

    /// The operation of the opcode `opcode` behind the prefix `CB`: the top
    /// two bits choose rotate, `BIT`, `RES` or `SET`, bits 5 to 3 the rotate
    /// or the bit number, bits 2 to 0 the register or `(HL)`.
    pub open spec fn of_prefixed(opcode: u8) -> Operation {
        let y = (opcode / 8) % 8;
        let z = opcode % 8;
        if z == 6 {
            if opcode < 0x40 {
                Operation::RotR16(rot_of(y as int), RegisterPair::HL)
            } else if opcode < 0x80 {
                Operation::BitBR16(y, RegisterPair::HL)
            } else if opcode < 0xC0 {
                Operation::ResBR16(y, RegisterPair::HL)
            } else {
                Operation::SetBR16(y, RegisterPair::HL)
            }
        } else {
            if opcode < 0x40 {
                Operation::RotR8(rot_of(y as int), r8_of(z as int))
            } else if opcode < 0x80 {
                Operation::BitBR8(y, r8_of(z as int))
            } else if opcode < 0xC0 {
                Operation::ResBR8(y, r8_of(z as int))
            } else {
                Operation::SetBR8(y, r8_of(z as int))
            }
        }
    }

    /// Whether the operation is one that the CPU does not have.
    pub open spec fn is_invalid(self) -> bool {
        self is Invalid
    }
}

/// An operation and the step that it has reached.
#[derive(Debug, Clone, Copy, PartialEq, Eq, Structural)]
pub struct Instruction {
    pub op: Operation,
    /// The instruction split into steps each 4 t-cycles long.
    pub current_step: InstructionStep,
}

impl Default for Instruction {
    /// An instruction that has completed.
    fn default() -> (instruction: Self)
        ensures
            instruction == (Instruction { op: Operation::Nop, current_step: InstructionStep::Complete }),
    {
        Instruction { op: Operation::Nop, current_step: InstructionStep::Complete }
    }
}

impl Instruction {
    /// The instruction `op` before its first step.
    pub open spec fn fresh(op: Operation) -> Instruction {
        Instruction { op, current_step: running(0, 0, 0) }
    }

    pub fn new(op: Operation) -> (instruction: Self)
        ensures
            instruction == Instruction::fresh(op),
    {
        Self { op, current_step: InstructionStep::new(0, 0, 0) }
    }

    /// Returns true if the instruction has fully completed.
    pub fn has_completed(&self) -> (completed: bool)
        ensures
            completed == (self.current_step is Complete),
    {
        self.current_step.is_complete()
    }

    /// The instruction behind the prefix `CB`, computed from the fields of
    /// its opcode.
    pub fn from_prefixed(opcode: u8) -> (instruction: Self)
        ensures
            instruction == Instruction::fresh(Operation::of_prefixed(opcode)),
    {
        let y = (opcode / 8) % 8;
        let z = opcode % 8;
        let selector = opcode / 64;
        let r8 = register_of_field(z);
        let op = if z == 6 {
            if selector == 0 {
                Operation::RotR16(rotation_of_field(y), RegisterPair::HL)
            } else if selector == 1 {
                Operation::BitBR16(y, RegisterPair::HL)
            } else if selector == 2 {
                Operation::ResBR16(y, RegisterPair::HL)
            } else {
                Operation::SetBR16(y, RegisterPair::HL)
            }
        } else {
            if selector == 0 {
                Operation::RotR8(rotation_of_field(y), r8)
            } else if selector == 1 {
                Operation::BitBR8(y, r8)
            } else if selector == 2 {
                Operation::ResBR8(y, r8)
            } else {
                Operation::SetBR8(y, r8)
            }
        };
        Instruction::new(op)
    }
}

/// Computes the register that a three-bit opcode field names.
pub fn register_of_field(i: u8) -> (reg: Register)
    ensures
        reg == r8_of(i as int),
{
    if i == 0 {
        Register::B
    } else if i == 1 {
        Register::C
    } else if i == 2 {
        Register::D
    } else if i == 3 {
        Register::E
    } else if i == 4 {
        Register::H
    } else if i == 5 {
        Register::L
    } else {
        Register::A
    }
}

/// Computes the rotate or shift that a three-bit opcode field names.
pub fn rotation_of_field(i: u8) -> (op: RotOp)
    ensures
        op == rot_of(i as int),
{
    if i == 0 {
        RotOp::Rlc
    } else if i == 1 {
        RotOp::Rrc
    } else if i == 2 {
        RotOp::Rl
    } else if i == 3 {
        RotOp::Rr
    } else if i == 4 {
        RotOp::Sla
    } else if i == 5 {
        RotOp::Sra
    } else if i == 6 {
        RotOp::Swap
    } else {
        RotOp::Srl
    }
}

/// What one step of the operation `op` leaves behind: the next step and
/// the emulator. The prefix is told apart before this is asked.
pub open spec fn operation_step(emu: GameboyEmulator, op: Operation, k: Latch) -> Outcome {
    match op {
        Operation::Nop => done(emu),
        Operation::Stop => stop(emu),
        Operation::Halt => halt(emu),
        Operation::Di => set_ime(emu, IME::Disabled),
        Operation::Ei => set_ime(emu, IME::Scheduled),
        Operation::Daa => daa(emu),
        Operation::Cpl => cpl(emu),
        Operation::Scf => scf(emu),
        Operation::Ccf => ccf(emu),
        Operation::RotA(rot) => rot_a_step(emu, rot),
        Operation::LdR8R8(r8_1, r8_2) => ld_r8_r8(emu, r8_1, r8_2),
        Operation::LdR8N8(r8) => ld_r8_n8(emu, r8, k),
        Operation::LdR8R16(r8, r16) => ld_r8_r16(emu, r8, r16, k),
        Operation::LdR16R8(r16, r8) => ld_r16_r8(emu, r16, r8, k),
        Operation::LdR16N8(r16) => ld_r16_n8(emu, r16, k),
        Operation::LdR16N16(r16) => ld_r16_n16(emu, r16, k),
        Operation::LdN16R16(r16) => ld_n16_r16(emu, r16, k),
        Operation::LdHlIncA => ld_hl_step_a(emu, 1, k),
        Operation::LdHlDecA => ld_hl_step_a(emu, -1, k),
        Operation::LdAHlInc => ld_a_hl_step(emu, 1, k),
        Operation::LdAHlDec => ld_a_hl_step(emu, -1, k),
        Operation::LdhN8A => ldh_n8_a(emu, k),
        Operation::LdhAN8 => ldh_a_n8(emu, k),
        Operation::LdhCA => ldh_c_a(emu, k),
        Operation::LdhAC => ldh_a_c(emu, k),
        Operation::LdN16A => ld_n16_a(emu, k),
        Operation::LdAN16 => ld_a_n16(emu, k),
        Operation::LdSpHl => ld_sp_hl(emu, k),
        Operation::LdHlSpI8 => ld_hl_sp_i8(emu, k),
        Operation::AddSpI8 => add_sp_i8(emu, k),
        Operation::JpHl => jp_hl(emu),
        Operation::IncR8(r8) => inc_r8(emu, r8),
        Operation::DecR8(r8) => dec_r8(emu, r8),
        Operation::IncR16(r16) => step_r16(emu, r16, 1, k),
        Operation::DecR16(r16) => step_r16(emu, r16, -1, k),
        Operation::IncHl => step_hl(emu, true, k),
        Operation::DecHl => step_hl(emu, false, k),
        Operation::JrN8 => jr_n8(emu, k),
        Operation::JrCN8(c) => jr_cond(emu, c, true, k),
        Operation::JrNcN8(c) => jr_cond(emu, c, false, k),
        Operation::JpN16 => jp_n16(emu, k),
        Operation::JpCN16(c) => jp_cond(emu, c, true, k),
        Operation::JpNcN16(c) => jp_cond(emu, c, false, k),
        Operation::AluR8R8(alu, r8_1, r8_2) => alu_r8_r8(emu, alu, r8_1, r8_2),
        Operation::AluR8R16(alu, r8, r16) => alu_r8_r16(emu, alu, r8, r16, k),
        Operation::AluAN8(alu) => alu_a_n8(emu, alu, k),
        Operation::AddR16R16(r16_1, r16_2) => add_r16_r16(emu, r16_1, r16_2, k),
        Operation::Ret => ret(emu, false, k),
        Operation::RetC(c) => ret_cond(emu, c, true, k),
        Operation::RetNc(c) => ret_cond(emu, c, false, k),
        Operation::Reti => ret(emu, true, k),
        Operation::CallN16 => call_n16(emu, k),
        Operation::CallCN16(c) => call_cond(emu, c, true, k),
        Operation::CallNcN16(c) => call_cond(emu, c, false, k),
        Operation::RstN16(n16) => push_pc_and_jump(emu, 1, n16, k),
        Operation::PushR16(r16) => push_r16(emu, r16, k),
        Operation::PopR16(r16) => pop_r16(emu, r16, k),
        Operation::Interrupt(interrupt) => push_pc_and_jump(
            emu,
            2,
            interrupt.handler_address(),
            k,
        ),
        Operation::Invalid(opcode) => invalid(emu, opcode),
        _ => prefixed_step(emu, op, k),
    }
}

impl Instruction {
    /// What one step leaves behind: the instruction and the emulator. A
    /// completed instruction does nothing.
    pub open spec fn step_spec(self, emu: GameboyEmulator) -> (Instruction, GameboyEmulator) {
        match self.current_step {
            InstructionStep::Complete => (self, emu),
            InstructionStep::Running(k) => {
                if self.op is Prefix {
                    prefix_n8(emu, k)
                } else {
                    let (step, after) = operation_step(emu, self.op, k);
                    (Instruction { op: self.op, current_step: step }, after)
                }
            },
        }
    }

    /// Runs one step of the instruction.
    pub fn step(&mut self, emu: &mut GameboyEmulator)
        ensures
            (*final(self), *final(emu)) == old(self).step_spec(*old(emu)),
    {
        let k = match self.current_step {
            InstructionStep::Complete => {
                return ;
            },
            InstructionStep::Running(k) => k,
        };
        let step = match self.op {
            Operation::Prefix => {
                *self = PREFIX_n8(emu, k);
                return ;
            },
            Operation::Nop => NOP(emu),
            Operation::Stop => STOP(emu),
            Operation::Halt => HALT(emu),
            Operation::Di => DI(emu),
            Operation::Ei => EI(emu),
            Operation::Daa => DAA(emu),
            Operation::Cpl => CPL(emu),
            Operation::Scf => SCF(emu),
            Operation::Ccf => CCF(emu),
            Operation::RotA(rot) => ROT_A(emu, rot),
            Operation::LdR8R8(r8_1, r8_2) => LD_r8_r8(emu, r8_1, r8_2),
            Operation::LdR8N8(r8) => LD_r8_n8(emu, r8, k),
            Operation::LdR8R16(r8, r16) => LD_r8_r16(emu, r8, r16, k),
            Operation::LdR16R8(r16, r8) => LD_r16_r8(emu, r16, r8, k),
            Operation::LdR16N8(r16) => LD_r16_n8(emu, r16, k),
            Operation::LdR16N16(r16) => LD_r16_n16(emu, r16, k),
            Operation::LdN16R16(r16) => LD_n16_r16(emu, r16, k),
            Operation::LdHlIncA => LD_HLI_A(emu, k),
            Operation::LdHlDecA => LD_HLD_A(emu, k),
            Operation::LdAHlInc => LD_A_HLI(emu, k),
            Operation::LdAHlDec => LD_A_HLD(emu, k),
            Operation::LdhN8A => LDH_n8_A(emu, k),
            Operation::LdhAN8 => LDH_A_n8(emu, k),
            Operation::LdhCA => LDH_C_A(emu, k),
            Operation::LdhAC => LDH_A_C(emu, k),
            Operation::LdN16A => LD_n16_A(emu, k),
            Operation::LdAN16 => LD_A_n16(emu, k),
            Operation::LdSpHl => LD_SP_HL(emu, k),
            Operation::LdHlSpI8 => LD_HL_SP_i8(emu, k),
            Operation::AddSpI8 => ADD_SP_i8(emu, k),
            Operation::JpHl => JP_HL(emu),
            Operation::IncR8(r8) => INC_r8(emu, r8),
            Operation::DecR8(r8) => DEC_r8(emu, r8),
            Operation::IncR16(r16) => INC_r16(emu, r16, k),
            Operation::DecR16(r16) => DEC_r16(emu, r16, k),
            Operation::IncHl => INC_HL(emu, k),
            Operation::DecHl => DEC_HL(emu, k),
            Operation::JrN8 => JR_n8(emu, k),
            Operation::JrCN8(c) => JR_c_n8(emu, c, k),
            Operation::JrNcN8(c) => JR_nc_n8(emu, c, k),
            Operation::JpN16 => JP_n16(emu, k),
            Operation::JpCN16(c) => JP_c_n16(emu, c, k),
            Operation::JpNcN16(c) => JP_nc_n16(emu, c, k),
            Operation::AluR8R8(alu, r8_1, r8_2) => match alu {
                AluOp::Add => ADD_r8_r8(emu, r8_1, r8_2),
                AluOp::Adc => ADC_r8_r8(emu, r8_1, r8_2),
                AluOp::Sub => SUB_r8_r8(emu, r8_1, r8_2),
                AluOp::Sbc => SBC_r8_r8(emu, r8_1, r8_2),
                AluOp::And => AND_r8_r8(emu, r8_1, r8_2),
                AluOp::Xor => XOR_r8_r8(emu, r8_1, r8_2),
                AluOp::Or => OR_r8_r8(emu, r8_1, r8_2),
                AluOp::Cp => CP_r8_r8(emu, r8_1, r8_2),
            },
            Operation::AluR8R16(alu, r8, r16) => match alu {
                AluOp::Add => ADD_r8_r16(emu, r8, r16, k),
                AluOp::Adc => ADC_r8_r16(emu, r8, r16, k),
                AluOp::Sub => SUB_r8_r16(emu, r8, r16, k),
                AluOp::Sbc => SBC_r8_r16(emu, r8, r16, k),
                AluOp::And => AND_r8_r16(emu, r8, r16, k),
                AluOp::Xor => XOR_r8_r16(emu, r8, r16, k),
                AluOp::Or => OR_r8_r16(emu, r8, r16, k),
                AluOp::Cp => CP_r8_r16(emu, r8, r16, k),
            },
            Operation::AluAN8(alu) => ALU_A_n8(emu, alu, k),
            Operation::AddR16R16(r16_1, r16_2) => ADD_r16_r16(emu, r16_1, r16_2, k),
            Operation::Ret => RET(emu, k),
            Operation::RetC(c) => RET_c(emu, c, k),
            Operation::RetNc(c) => RET_nc(emu, c, k),
            Operation::Reti => RETI(emu, k),
            Operation::CallN16 => CALL_n16(emu, k),
            Operation::CallCN16(c) => CALL_c_n16(emu, c, k),
            Operation::CallNcN16(c) => CALL_nc_n16(emu, c, k),
            Operation::RstN16(n16) => RST_n16(emu, n16, k),
            Operation::PushR16(r16) => PUSH_r16(emu, r16, k),
            Operation::PopR16(r16) => POP_r16(emu, r16, k),
            Operation::Interrupt(interrupt) => INTERRUPT(emu, interrupt, k),
            Operation::Invalid(opcode) => INVALID(emu, opcode),
            op => step_prefixed(emu, op, k),
        };
        self.current_step = step;
    }
}

impl From<u8> for Instruction {
    /// The instruction of the primary opcode `value`, from the opcode table.
    fn from(value: u8) -> (instruction: Self) {
        let op = match value {
            // * 0x0_
            0x00 => Operation::Nop,
            0x01 => Operation::LdR16N16(RegisterPair::BC),
            0x02 => Operation::LdR16R8(RegisterPair::BC, Register::A),
            0x03 => Operation::IncR16(RegisterPair::BC),
            0x04 => Operation::IncR8(Register::B),
            0x05 => Operation::DecR8(Register::B),
            0x06 => Operation::LdR8N8(Register::B),
            0x07 => Operation::RotA(RotOp::Rlc),
            0x08 => Operation::LdN16R16(RegisterPair::SP),
            0x09 => Operation::AddR16R16(RegisterPair::HL, RegisterPair::BC),
            0x0A => Operation::LdR8R16(Register::A, RegisterPair::BC),
            0x0B => Operation::DecR16(RegisterPair::BC),
            0x0C => Operation::IncR8(Register::C),
            0x0D => Operation::DecR8(Register::C),
            0x0E => Operation::LdR8N8(Register::C),
            0x0F => Operation::RotA(RotOp::Rrc),
            // * 0x1_
            0x10 => Operation::Stop,
            0x11 => Operation::LdR16N16(RegisterPair::DE),
            0x12 => Operation::LdR16R8(RegisterPair::DE, Register::A),
            0x13 => Operation::IncR16(RegisterPair::DE),
            0x14 => Operation::IncR8(Register::D),
            0x15 => Operation::DecR8(Register::D),
            0x16 => Operation::LdR8N8(Register::D),
            0x17 => Operation::RotA(RotOp::Rl),
            0x18 => Operation::JrN8,
            0x19 => Operation::AddR16R16(RegisterPair::HL, RegisterPair::DE),
            0x1A => Operation::LdR8R16(Register::A, RegisterPair::DE),
            0x1B => Operation::DecR16(RegisterPair::DE),
            0x1C => Operation::IncR8(Register::E),
            0x1D => Operation::DecR8(Register::E),
            0x1E => Operation::LdR8N8(Register::E),
            0x1F => Operation::RotA(RotOp::Rr),
            // * 0x2_
            0x20 => Operation::JrNcN8(Flag::Z),
            0x21 => Operation::LdR16N16(RegisterPair::HL),
            0x22 => Operation::LdHlIncA,
            0x23 => Operation::IncR16(RegisterPair::HL),
            0x24 => Operation::IncR8(Register::H),
            0x25 => Operation::DecR8(Register::H),
            0x26 => Operation::LdR8N8(Register::H),
            0x27 => Operation::Daa,
            0x28 => Operation::JrCN8(Flag::Z),
            0x29 => Operation::AddR16R16(RegisterPair::HL, RegisterPair::HL),
            0x2A => Operation::LdAHlInc,
            0x2B => Operation::DecR16(RegisterPair::HL),
            0x2C => Operation::IncR8(Register::L),
            0x2D => Operation::DecR8(Register::L),
            0x2E => Operation::LdR8N8(Register::L),
            0x2F => Operation::Cpl,
            // * 0x3_
            0x30 => Operation::JrNcN8(Flag::C),
            0x31 => Operation::LdR16N16(RegisterPair::SP),
            0x32 => Operation::LdHlDecA,
            0x33 => Operation::IncR16(RegisterPair::SP),
            0x34 => Operation::IncHl,
            0x35 => Operation::DecHl,
            0x36 => Operation::LdR16N8(RegisterPair::HL),
            0x37 => Operation::Scf,
            0x38 => Operation::JrCN8(Flag::C),
            0x39 => Operation::AddR16R16(RegisterPair::HL, RegisterPair::SP),
            0x3A => Operation::LdAHlDec,
            0x3B => Operation::DecR16(RegisterPair::SP),
            0x3C => Operation::IncR8(Register::A),
            0x3D => Operation::DecR8(Register::A),
            0x3E => Operation::LdR8N8(Register::A),
            0x3F => Operation::Ccf,
            // * 0x4_
            0x40 => Operation::LdR8R8(Register::B, Register::B),
            0x41 => Operation::LdR8R8(Register::B, Register::C),
            0x42 => Operation::LdR8R8(Register::B, Register::D),
            0x43 => Operation::LdR8R8(Register::B, Register::E),
            0x44 => Operation::LdR8R8(Register::B, Register::H),
            0x45 => Operation::LdR8R8(Register::B, Register::L),
            0x46 => Operation::LdR8R16(Register::B, RegisterPair::HL),
            0x47 => Operation::LdR8R8(Register::B, Register::A),
            0x48 => Operation::LdR8R8(Register::C, Register::B),
            0x49 => Operation::LdR8R8(Register::C, Register::C),
            0x4A => Operation::LdR8R8(Register::C, Register::D),
            0x4B => Operation::LdR8R8(Register::C, Register::E),
            0x4C => Operation::LdR8R8(Register::C, Register::H),
            0x4D => Operation::LdR8R8(Register::C, Register::L),
            0x4E => Operation::LdR8R16(Register::C, RegisterPair::HL),
            0x4F => Operation::LdR8R8(Register::C, Register::A),
            // * 0x5_
            0x50 => Operation::LdR8R8(Register::D, Register::B),
            0x51 => Operation::LdR8R8(Register::D, Register::C),
            0x52 => Operation::LdR8R8(Register::D, Register::D),
            0x53 => Operation::LdR8R8(Register::D, Register::E),
            0x54 => Operation::LdR8R8(Register::D, Register::H),
            0x55 => Operation::LdR8R8(Register::D, Register::L),
            0x56 => Operation::LdR8R16(Register::D, RegisterPair::HL),
            0x57 => Operation::LdR8R8(Register::D, Register::A),
            0x58 => Operation::LdR8R8(Register::E, Register::B),
            0x59 => Operation::LdR8R8(Register::E, Register::C),
            0x5A => Operation::LdR8R8(Register::E, Register::D),
            0x5B => Operation::LdR8R8(Register::E, Register::E),
            0x5C => Operation::LdR8R8(Register::E, Register::H),
            0x5D => Operation::LdR8R8(Register::E, Register::L),
            0x5E => Operation::LdR8R16(Register::E, RegisterPair::HL),
            0x5F => Operation::LdR8R8(Register::E, Register::A),
            // * 0x6_
            0x60 => Operation::LdR8R8(Register::H, Register::B),
            0x61 => Operation::LdR8R8(Register::H, Register::C),
            0x62 => Operation::LdR8R8(Register::H, Register::D),
            0x63 => Operation::LdR8R8(Register::H, Register::E),
            0x64 => Operation::LdR8R8(Register::H, Register::H),
            0x65 => Operation::LdR8R8(Register::H, Register::L),
            0x66 => Operation::LdR8R16(Register::H, RegisterPair::HL),
            0x67 => Operation::LdR8R8(Register::H, Register::A),
            0x68 => Operation::LdR8R8(Register::L, Register::B),
            0x69 => Operation::LdR8R8(Register::L, Register::C),
            0x6A => Operation::LdR8R8(Register::L, Register::D),
            0x6B => Operation::LdR8R8(Register::L, Register::E),
            0x6C => Operation::LdR8R8(Register::L, Register::H),
            0x6D => Operation::LdR8R8(Register::L, Register::L),
            0x6E => Operation::LdR8R16(Register::L, RegisterPair::HL),
            0x6F => Operation::LdR8R8(Register::L, Register::A),
            // * 0x7_
            0x70 => Operation::LdR16R8(RegisterPair::HL, Register::B),
            0x71 => Operation::LdR16R8(RegisterPair::HL, Register::C),
            0x72 => Operation::LdR16R8(RegisterPair::HL, Register::D),
            0x73 => Operation::LdR16R8(RegisterPair::HL, Register::E),
            0x74 => Operation::LdR16R8(RegisterPair::HL, Register::H),
            0x75 => Operation::LdR16R8(RegisterPair::HL, Register::L),
            0x76 => Operation::Halt,
            0x77 => Operation::LdR16R8(RegisterPair::HL, Register::A),
            0x78 => Operation::LdR8R8(Register::A, Register::B),
            0x79 => Operation::LdR8R8(Register::A, Register::C),
            0x7A => Operation::LdR8R8(Register::A, Register::D),
            0x7B => Operation::LdR8R8(Register::A, Register::E),
            0x7C => Operation::LdR8R8(Register::A, Register::H),
            0x7D => Operation::LdR8R8(Register::A, Register::L),
            0x7E => Operation::LdR8R16(Register::A, RegisterPair::HL),
            0x7F => Operation::LdR8R8(Register::A, Register::A),
            // * 0x8_
            0x80 => Operation::AluR8R8(AluOp::Add, Register::A, Register::B),
            0x81 => Operation::AluR8R8(AluOp::Add, Register::A, Register::C),
            0x82 => Operation::AluR8R8(AluOp::Add, Register::A, Register::D),
            0x83 => Operation::AluR8R8(AluOp::Add, Register::A, Register::E),
            0x84 => Operation::AluR8R8(AluOp::Add, Register::A, Register::H),
            0x85 => Operation::AluR8R8(AluOp::Add, Register::A, Register::L),
            0x86 => Operation::AluR8R16(AluOp::Add, Register::A, RegisterPair::HL),
            0x87 => Operation::AluR8R8(AluOp::Add, Register::A, Register::A),
            0x88 => Operation::AluR8R8(AluOp::Adc, Register::A, Register::B),
            0x89 => Operation::AluR8R8(AluOp::Adc, Register::A, Register::C),
            0x8A => Operation::AluR8R8(AluOp::Adc, Register::A, Register::D),
            0x8B => Operation::AluR8R8(AluOp::Adc, Register::A, Register::E),
            0x8C => Operation::AluR8R8(AluOp::Adc, Register::A, Register::H),
            0x8D => Operation::AluR8R8(AluOp::Adc, Register::A, Register::L),
            0x8E => Operation::AluR8R16(AluOp::Adc, Register::A, RegisterPair::HL),
            0x8F => Operation::AluR8R8(AluOp::Adc, Register::A, Register::A),
            // * 0x9_
            0x90 => Operation::AluR8R8(AluOp::Sub, Register::A, Register::B),
            0x91 => Operation::AluR8R8(AluOp::Sub, Register::A, Register::C),
            0x92 => Operation::AluR8R8(AluOp::Sub, Register::A, Register::D),
            0x93 => Operation::AluR8R8(AluOp::Sub, Register::A, Register::E),
            0x94 => Operation::AluR8R8(AluOp::Sub, Register::A, Register::H),
            0x95 => Operation::AluR8R8(AluOp::Sub, Register::A, Register::L),
            0x96 => Operation::AluR8R16(AluOp::Sub, Register::A, RegisterPair::HL),
            0x97 => Operation::AluR8R8(AluOp::Sub, Register::A, Register::A),
            0x98 => Operation::AluR8R8(AluOp::Sbc, Register::A, Register::B),
            0x99 => Operation::AluR8R8(AluOp::Sbc, Register::A, Register::C),
            0x9A => Operation::AluR8R8(AluOp::Sbc, Register::A, Register::D),
            0x9B => Operation::AluR8R8(AluOp::Sbc, Register::A, Register::E),
            0x9C => Operation::AluR8R8(AluOp::Sbc, Register::A, Register::H),
            0x9D => Operation::AluR8R8(AluOp::Sbc, Register::A, Register::L),
            0x9E => Operation::AluR8R16(AluOp::Sbc, Register::A, RegisterPair::HL),
            0x9F => Operation::AluR8R8(AluOp::Sbc, Register::A, Register::A),
            // * 0xA_
            0xA0 => Operation::AluR8R8(AluOp::And, Register::A, Register::B),
            0xA1 => Operation::AluR8R8(AluOp::And, Register::A, Register::C),
            0xA2 => Operation::AluR8R8(AluOp::And, Register::A, Register::D),
            0xA3 => Operation::AluR8R8(AluOp::And, Register::A, Register::E),
            0xA4 => Operation::AluR8R8(AluOp::And, Register::A, Register::H),
            0xA5 => Operation::AluR8R8(AluOp::And, Register::A, Register::L),
            0xA6 => Operation::AluR8R16(AluOp::And, Register::A, RegisterPair::HL),
            0xA7 => Operation::AluR8R8(AluOp::And, Register::A, Register::A),
            0xA8 => Operation::AluR8R8(AluOp::Xor, Register::A, Register::B),
            0xA9 => Operation::AluR8R8(AluOp::Xor, Register::A, Register::C),
            0xAA => Operation::AluR8R8(AluOp::Xor, Register::A, Register::D),
            0xAB => Operation::AluR8R8(AluOp::Xor, Register::A, Register::E),
            0xAC => Operation::AluR8R8(AluOp::Xor, Register::A, Register::H),
            0xAD => Operation::AluR8R8(AluOp::Xor, Register::A, Register::L),
            0xAE => Operation::AluR8R16(AluOp::Xor, Register::A, RegisterPair::HL),
            0xAF => Operation::AluR8R8(AluOp::Xor, Register::A, Register::A),
            // * 0xB_
            0xB0 => Operation::AluR8R8(AluOp::Or, Register::A, Register::B),
            0xB1 => Operation::AluR8R8(AluOp::Or, Register::A, Register::C),
            0xB2 => Operation::AluR8R8(AluOp::Or, Register::A, Register::D),
            0xB3 => Operation::AluR8R8(AluOp::Or, Register::A, Register::E),
            0xB4 => Operation::AluR8R8(AluOp::Or, Register::A, Register::H),
            0xB5 => Operation::AluR8R8(AluOp::Or, Register::A, Register::L),
            0xB6 => Operation::AluR8R16(AluOp::Or, Register::A, RegisterPair::HL),
            0xB7 => Operation::AluR8R8(AluOp::Or, Register::A, Register::A),
            0xB8 => Operation::AluR8R8(AluOp::Cp, Register::A, Register::B),
            0xB9 => Operation::AluR8R8(AluOp::Cp, Register::A, Register::C),
            0xBA => Operation::AluR8R8(AluOp::Cp, Register::A, Register::D),
            0xBB => Operation::AluR8R8(AluOp::Cp, Register::A, Register::E),
            0xBC => Operation::AluR8R8(AluOp::Cp, Register::A, Register::H),
            0xBD => Operation::AluR8R8(AluOp::Cp, Register::A, Register::L),
            0xBE => Operation::AluR8R16(AluOp::Cp, Register::A, RegisterPair::HL),
            0xBF => Operation::AluR8R8(AluOp::Cp, Register::A, Register::A),
            // * 0xC_
            0xC0 => Operation::RetNc(Flag::Z),
            0xC1 => Operation::PopR16(RegisterPair::BC),
            0xC2 => Operation::JpNcN16(Flag::Z),
            0xC3 => Operation::JpN16,
            0xC4 => Operation::CallNcN16(Flag::Z),
            0xC5 => Operation::PushR16(RegisterPair::BC),
            0xC6 => Operation::AluAN8(AluOp::Add),
            0xC7 => Operation::RstN16(0x00),
            0xC8 => Operation::RetC(Flag::Z),
            0xC9 => Operation::Ret,
            0xCA => Operation::JpCN16(Flag::Z),
            0xCB => Operation::Prefix,
            0xCC => Operation::CallCN16(Flag::Z),
            0xCD => Operation::CallN16,
            0xCE => Operation::AluAN8(AluOp::Adc),
            0xCF => Operation::RstN16(0x08),
            // * 0xD_
            0xD0 => Operation::RetNc(Flag::C),
            0xD1 => Operation::PopR16(RegisterPair::DE),
            0xD2 => Operation::JpNcN16(Flag::C),
            0xD4 => Operation::CallNcN16(Flag::C),
            0xD5 => Operation::PushR16(RegisterPair::DE),
            0xD6 => Operation::AluAN8(AluOp::Sub),
            0xD7 => Operation::RstN16(0x10),
            0xD8 => Operation::RetC(Flag::C),
            0xD9 => Operation::Reti,
            0xDA => Operation::JpCN16(Flag::C),
            0xDC => Operation::CallCN16(Flag::C),
            0xDE => Operation::AluAN8(AluOp::Sbc),
            0xDF => Operation::RstN16(0x18),
            // * 0xE_
            0xE0 => Operation::LdhN8A,
            0xE1 => Operation::PopR16(RegisterPair::HL),
            0xE2 => Operation::LdhCA,
            0xE5 => Operation::PushR16(RegisterPair::HL),
            0xE6 => Operation::AluAN8(AluOp::And),
            0xE7 => Operation::RstN16(0x20),
            0xE8 => Operation::AddSpI8,
            0xE9 => Operation::JpHl,
            0xEA => Operation::LdN16A,
            0xEE => Operation::AluAN8(AluOp::Xor),
            0xEF => Operation::RstN16(0x28),
            // * 0xF_
            0xF0 => Operation::LdhAN8,
            0xF1 => Operation::PopR16(RegisterPair::AF),
            0xF2 => Operation::LdhAC,
            0xF3 => Operation::Di,
            0xF5 => Operation::PushR16(RegisterPair::AF),
            0xF6 => Operation::AluAN8(AluOp::Or),
            0xF7 => Operation::RstN16(0x30),
            0xF8 => Operation::LdHlSpI8,
            0xF9 => Operation::LdSpHl,
            0xFA => Operation::LdAN16,
            0xFB => Operation::Ei,
            0xFE => Operation::AluAN8(AluOp::Cp),
            0xFF => Operation::RstN16(0x38),
            // * D3 DB DD E3 E4 EB EC ED F4 FC FD
            _ => Operation::Invalid(value),
        };
        Instruction::new(op)
    }
}

impl FromSpecImpl<u8> for Instruction {
    open spec fn obeys_from_spec() -> bool {
        true
    }

    open spec fn from_spec(value: u8) -> Instruction {
        Instruction::fresh(Operation::of_opcode(value))
    }
}

} // verus!
