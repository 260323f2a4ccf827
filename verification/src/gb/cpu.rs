//! The register file and the arithmetic-logic helpers of the CPU.
//!
//! The model is arithmetic: a byte is a number below 256, a flag is one of
//! four booleans packed into the high nibble of `F`, and every helper says
//! which value and which flags come out.

use vstd::prelude::*;
use super::bits::{
    lemma_bit_test_u8, lemma_flag_bit_update, lemma_low_nibble_of_word, lemma_mask_is_mod_u16,
    lemma_mask_is_mod_u8, lemma_rotate_bits,
};
use super::utils::{
    get_bit, high_byte, join_u16, low_byte, set_bit, split_u16, toggle_bit, with_bit, word, Flag,
    Register, RegisterPair,
};

verus! {

/// `x` reduced to a byte.
pub open spec fn wrap8(x: int) -> u8 {
    (x % 256) as u8
}

/// `x` reduced to a 16-bit word.
pub open spec fn wrap16(x: int) -> u16 {
    (x % 65536) as u16
}

/// The two's-complement value of the byte `e`.
pub open spec fn signed(e: u8) -> int {
    if e >= 128 {
        e - 256
    } else {
        e as int
    }
}

/// The byte that holds the four flags, low nibble zero.
pub open spec fn flags_byte(z: bool, n: bool, h: bool, c: bool) -> u8 {
    ((if z { 128int } else { 0 }) + (if n { 64int } else { 0 }) + (if h { 32int } else { 0 }) + (if c {
        16int
    } else {
        0
    })) as u8
}

/// What an arithmetic-logic operation yields: a value and the four flags.
#[derive(Debug, Clone, Copy, PartialEq, Eq, Structural)]
pub struct AluResult {
    pub value: u8,
    pub z: bool,
    pub n: bool,
    pub h: bool,
    pub c: bool,
}

/// The eight accumulator operations of opcodes `80..=BF` and their
/// immediate forms.
#[derive(Debug, Clone, Copy, PartialEq, Eq, Structural)]
pub enum AluOp {
    Add,
    Adc,
    Sub,
    Sbc,
    And,
    Xor,
    Or,
    Cp,
}

/// The eight rotate and shift operations of the prefixed table.
#[derive(Debug, Clone, Copy, PartialEq, Eq, Structural)]
pub enum RotOp {
    Rlc,
    Rrc,
    Rl,
    Rr,
    Sla,
    Sra,
    Swap,
    Srl,
}

/// `a + b + cin`: half-carry out of bit 3, carry out of bit 7.
pub open spec fn add8(a: u8, b: u8, cin: int) -> AluResult {
    AluResult {
        value: wrap8(a + b + cin),
        z: wrap8(a + b + cin) == 0,
        n: false,
        h: a % 16 + b % 16 + cin > 15,
        c: a + b + cin > 255,
    }
}

/// `a - b - cin`: half-borrow into bit 3, borrow into bit 7.
pub open spec fn sub8(a: u8, b: u8, cin: int) -> AluResult {
    AluResult {
        value: wrap8(a - b - cin),
        z: wrap8(a - b - cin) == 0,
        n: true,
        h: a % 16 < b % 16 + cin,
        c: a < b + cin,
    }
}

pub open spec fn carry_in(carry: bool) -> int {
    if carry {
        1
    } else {
        0
    }
}

/// The result of the accumulator operation `op` on `a` and `b` with the
/// carry flag `carry`. `Cp` compares: its flags are those of `Sub`, its
/// value is `a`.
pub open spec fn alu8(op: AluOp, a: u8, b: u8, carry: bool) -> AluResult {
    match op {
        AluOp::Add => add8(a, b, 0),
        AluOp::Adc => add8(a, b, carry_in(carry)),
        AluOp::Sub => sub8(a, b, 0),
        AluOp::Sbc => sub8(a, b, carry_in(carry)),
        AluOp::And => AluResult { value: a & b, z: a & b == 0, n: false, h: true, c: false },
        AluOp::Xor => AluResult { value: a ^ b, z: a ^ b == 0, n: false, h: false, c: false },
        AluOp::Or => AluResult { value: a | b, z: a | b == 0, n: false, h: false, c: false },
        AluOp::Cp => AluResult { value: a, ..sub8(a, b, 0) },
    }
}

/// `v + 1`; the carry flag passes through.
pub open spec fn inc8(v: u8, carry: bool) -> AluResult {
    AluResult { value: wrap8(v + 1), z: v == 255, n: false, h: v % 16 == 15, c: carry }
}

/// `v - 1`; the carry flag passes through.
pub open spec fn dec8(v: u8, carry: bool) -> AluResult {
    AluResult { value: wrap8(v - 1), z: v == 1, n: true, h: v % 16 == 0, c: carry }
}

/// The value that the rotate or shift `op` makes of `v`.
pub open spec fn rot8_value(op: RotOp, v: u8, carry: bool) -> u8 {
    match op {
        RotOp::Rlc => ((v * 2) % 256 + v / 128) as u8,
        RotOp::Rrc => (v / 2 + (v % 2) * 128) as u8,
        RotOp::Rl => ((v * 2) % 256 + carry_in(carry)) as u8,
        RotOp::Rr => (v / 2 + carry_in(carry) * 128) as u8,
        RotOp::Sla => ((v * 2) % 256) as u8,
        RotOp::Sra => (v / 2 + (v / 128) * 128) as u8,
        RotOp::Swap => ((v % 16) * 16 + v / 16) as u8,
        RotOp::Srl => v / 2,
    }
}

/// The carry that the rotate or shift `op` takes out of `v`: bit 7 when it
/// moves left, bit 0 when it moves right, none for `Swap`.
pub open spec fn rot8_carry(op: RotOp, v: u8) -> bool {
    match op {
        RotOp::Rlc | RotOp::Rl | RotOp::Sla => v >= 128,
        RotOp::Rrc | RotOp::Rr | RotOp::Sra | RotOp::Srl => v % 2 == 1,
        RotOp::Swap => false,
    }
}

/// A prefixed rotate or shift: Z from the result.
pub open spec fn rot8(op: RotOp, v: u8, carry: bool) -> AluResult {
    AluResult {
        value: rot8_value(op, v, carry),
        z: rot8_value(op, v, carry) == 0,
        n: false,
        h: false,
        c: rot8_carry(op, v),
    }
}

/// The accumulator rotates `RLCA`, `RRCA`, `RLA`, `RRA`: as `rot8`, but Z
/// is always cleared.
pub open spec fn rot_a(op: RotOp, v: u8, carry: bool) -> AluResult {
    AluResult { z: false, ..rot8(op, v, carry) }
}

/// The mask of bit `b` of a byte, for `b` below 8.
pub open spec fn bit_mask(b: u8) -> u8 {
    if b == 0 {
        0x01
    } else if b == 1 {
        0x02
    } else if b == 2 {
        0x04
    } else if b == 3 {
        0x08
    } else if b == 4 {
        0x10
    } else if b == 5 {
        0x20
    } else if b == 6 {
        0x40
    } else {
        0x80
    }
}

/// `BIT b`: Z is set when bit `b` of `v` is clear; the value and the carry
/// pass through.
pub open spec fn bit8(b: u8, v: u8, carry: bool) -> AluResult {
    AluResult { value: v, z: v & bit_mask(b) == 0, n: false, h: true, c: carry }
}

/// The decimal adjustment of `a` after an addition (`n` clear) or a
/// subtraction (`n` set) of packed BCD operands.
pub open spec fn daa8(a: u8, n: bool, h: bool, c: bool) -> AluResult {
    let low: int = if h || (!n && a % 16 > 9) {
        0x06
    } else {
        0
    };
    let high: int = if c || (!n && a > 0x99) {
        0x60
    } else {
        0
    };
    let value = if n {
        wrap8(a - low - high)
    } else {
        wrap8(a + low + high)
    };
    AluResult { value, z: value == 0, n, h: false, c: c || (!n && a > 0x99) }
}

/// `a + b` on words, for `ADD HL, r16`: half-carry out of bit 11, carry out
/// of bit 15.
pub open spec fn add16_value(a: u16, b: u16) -> u16 {
    wrap16(a + b)
}

pub open spec fn add16_half(a: u16, b: u16) -> bool {
    a % 4096 + b % 4096 > 4095
}

pub open spec fn add16_carry(a: u16, b: u16) -> bool {
    a + b > 65535
}

/// `sp` plus the signed byte `e`, for `ADD SP, i8` and `LD HL, SP+i8`.
pub open spec fn add_signed(sp: u16, e: u8) -> u16 {
    wrap16(sp + signed(e))
}

/// [pandocs](https://gbdev.io/pandocs/CPU_Registers_and_Flags.html)
#[derive(Debug, Clone, Copy, PartialEq, Eq, Structural)]
pub struct CPU {
    /// Accumulator / register A
    pub a: u8,
    /// Flags
    pub f: u8,
    /// Register B
    pub b: u8,
    /// Register C
    pub c: u8,
    /// Register D
    pub d: u8,
    /// Register E
    pub e: u8,
    /// Register H
    pub h: u8,
    /// Register L
    pub l: u8,
    /// Program counter/pointer
    pub pc: u16,
    /// Stack pointer
    pub sp: u16,
}

impl CPU {
    /// The value of register `reg`.
    pub open spec fn register(self, reg: Register) -> u8 {
        match reg {
            Register::A => self.a,
            Register::F => self.f,
            Register::B => self.b,
            Register::C => self.c,
            Register::D => self.d,
            Register::E => self.e,
            Register::H => self.h,
            Register::L => self.l,
        }
    }

    /// The register file after `value` is written to `reg`. The low nibble
    /// of a value written to `F` is discarded.
    pub open spec fn with_register(self, reg: Register, value: u8) -> CPU {
        match reg {
            Register::A => CPU { a: value, ..self },
            Register::F => CPU { f: (value - value % 16) as u8, ..self },
            Register::B => CPU { b: value, ..self },
            Register::C => CPU { c: value, ..self },
            Register::D => CPU { d: value, ..self },
            Register::E => CPU { e: value, ..self },
            Register::H => CPU { h: value, ..self },
            Register::L => CPU { l: value, ..self },
        }
    }

    /// The value of the pair `pair`: the first register is the high byte.
    pub open spec fn pair(self, pair: RegisterPair) -> u16 {
        match pair {
            RegisterPair::AF => word(self.f, self.a),
            RegisterPair::BC => word(self.c, self.b),
            RegisterPair::DE => word(self.e, self.d),
            RegisterPair::HL => word(self.l, self.h),
            RegisterPair::PC => self.pc,
            RegisterPair::SP => self.sp,
        }
    }

    /// The register file after `value` is written to `pair`.
    pub open spec fn with_pair(self, pair: RegisterPair, value: u16) -> CPU {
        match pair {
            RegisterPair::AF => CPU {
                a: high_byte(value),
                f: (low_byte(value) - low_byte(value) % 16) as u8,
                ..self
            },
            RegisterPair::BC => CPU { b: high_byte(value), c: low_byte(value), ..self },
            RegisterPair::DE => CPU { d: high_byte(value), e: low_byte(value), ..self },
            RegisterPair::HL => CPU { h: high_byte(value), l: low_byte(value), ..self },
            RegisterPair::PC => CPU { pc: value, ..self },
            RegisterPair::SP => CPU { sp: value, ..self },
        }
    }

    /// Whether `flag` is set.
    pub open spec fn flag(self, flag: Flag) -> bool {
        match flag {
            Flag::Z => self.f >= 128,
            Flag::N => (self.f / 64) % 2 == 1,
            Flag::H => (self.f / 32) % 2 == 1,
            Flag::C => (self.f / 16) % 2 == 1,
        }
    }

    /// The register file after `flag` is set to `value`; no other bit of `F`
    /// changes.
    pub open spec fn with_flag(self, flag: Flag, value: bool) -> CPU {
        if self.flag(flag) == value {
            self
        } else if value {
            CPU { f: (self.f + flag.mask()) as u8, ..self }
        } else {
            CPU { f: (self.f - flag.mask()) as u8, ..self }
        }
    }

    /// The register file with the four flags as given and the low nibble
    /// of `F` zero.
    pub open spec fn with_flags(self, z: bool, n: bool, h: bool, c: bool) -> CPU {
        CPU { f: flags_byte(z, n, h, c), ..self }
    }

    /// The register file with the flags of `r`.
    pub open spec fn with_result_flags(self, r: AluResult) -> CPU {
        self.with_flags(r.z, r.n, r.h, r.c)
    }

    /// The register file of the given values. The low nibble of `f` is
    /// discarded.
    pub fn new(a: u8, f: u8, b: u8, c: u8, d: u8, e: u8, h: u8, l: u8, pc: u16, sp: u16) -> (cpu:
        Self)
        ensures
            cpu == (CPU { a, f: (f - f % 16) as u8, b, c, d, e, h, l, pc, sp }),
            cpu.f == f & 0xF0,
    {
        proof {
            lemma_mask_is_mod_u8(f);
        }
        Self { a, f: f - f % 16, b, c, d, e, h, l, pc, sp }
    }

    /// The register file at power-on: every register zero.
    pub open spec fn new_init_spec() -> CPU {
        CPU { a: 0, f: 0, b: 0, c: 0, d: 0, e: 0, h: 0, l: 0, pc: 0, sp: 0 }
    }

    /// The register file at power-on: every register zero.
    pub fn new_init() -> (cpu: Self)
        ensures
            cpu == Self::new_init_spec(),
    {
        Self {
            a: 0x00,
            f: 0x00,
            b: 0x00,
            c: 0x00,
            d: 0x00,
            e: 0x00,
            h: 0x00,
            l: 0x00,
            pc: 0x0000,
            sp: 0x0000,
        }
    }

    pub fn get_register(&self, reg: Register) -> (value: u8)
        ensures
            value == self.register(reg),
    {
        match reg {
            Register::A => self.a,
            Register::F => self.f,
            Register::B => self.b,
            Register::C => self.c,
            Register::D => self.d,
            Register::E => self.e,
            Register::H => self.h,
            Register::L => self.l,
        }
    }

    pub fn set_register(&mut self, reg: Register, value: u8)
        ensures
            *final(self) == old(self).with_register(reg, value),
            reg == Register::F ==> final(self).f == value & 0xF0,
    {
        match reg {
            Register::A => self.a = value,
            Register::F => {
                proof {
                    lemma_mask_is_mod_u8(value);
                }
                self.f = value - value % 16
            },
            Register::B => self.b = value,
            Register::C => self.c = value,
            Register::D => self.d = value,
            Register::E => self.e = value,
            Register::H => self.h = value,
            Register::L => self.l = value,
        }
    }

    pub fn get_register_pair(&self, pair: RegisterPair) -> (value: u16)
        ensures
            value == self.pair(pair),
    {
        match pair {
            RegisterPair::AF => join_u16(self.f, self.a),
            RegisterPair::BC => join_u16(self.c, self.b),
            RegisterPair::DE => join_u16(self.e, self.d),
            RegisterPair::HL => join_u16(self.l, self.h),
            RegisterPair::PC => self.pc,
            RegisterPair::SP => self.sp,
        }
    }

    pub fn set_register_pair(&mut self, pair: RegisterPair, value: u16)
        ensures
            *final(self) == old(self).with_pair(pair, value),
    {
        let (lsb, msb) = split_u16(value);
        match pair {
            RegisterPair::AF => {
                self.f = lsb - lsb % 16;
                self.a = msb;
            },
            RegisterPair::BC => {
                self.c = lsb;
                self.b = msb;
            },
            RegisterPair::DE => {
                self.e = lsb;
                self.d = msb;
            },
            RegisterPair::HL => {
                self.l = lsb;
                self.h = msb;
            },
            RegisterPair::PC => self.pc = value,
            RegisterPair::SP => self.sp = value,
        }
    }

    #[inline]
    pub fn get_flag(&self, flag: Flag) -> (set: bool)
        ensures
            set == self.flag(flag),
            set == (self.f & flag.mask() != 0),
    {
        proof {
            lemma_bit_test_u8(self.f);
        }
        get_bit(self.f, u8::from(flag))
    }

    #[inline]
    pub fn set_flag(&mut self, flag: Flag, value: bool)
        ensures
            *final(self) == old(self).with_flag(flag, value),
            final(self).f == with_bit(old(self).f, flag.mask(), value),
    {
        proof {
            lemma_flag_bit_update(self.f);
        }
        set_bit(&mut self.f, u8::from(flag), value)
    }

    #[inline]
    pub fn toggle_flag(&mut self, flag: Flag)
        ensures
            *final(self) == old(self).with_flag(flag, !old(self).flag(flag)),
            final(self).f == old(self).f ^ flag.mask(),
    {
        proof {
            lemma_flag_bit_update(self.f);
        }
        toggle_bit(&mut self.f, u8::from(flag));
    }

    /// Stores the four flags of `r` in `F`.
    pub fn set_result_flags(&mut self, r: AluResult)
        ensures
            *final(self) == old(self).with_result_flags(r),
    {
        let z: u8 = if r.z { 128 } else { 0 };
        let n: u8 = if r.n { 64 } else { 0 };
        let h: u8 = if r.h { 32 } else { 0 };
        let c: u8 = if r.c { 16 } else { 0 };
        self.f = z + n + h + c;
    }

    // * ADC/ADDition

    /// Adds a value and a register together, handling flags and returning the result.
    ///
    /// Note: Does not set the register to the new value, [`CPU::set_register`] must be called seperately.
    pub fn add_register(&mut self, reg: Register, value: u8) -> (new: u8)
        ensures
            new == add8(old(self).register(reg), value, 0).value,
            *final(self) == old(self).with_result_flags(add8(old(self).register(reg), value, 0)),
    {
        let r = alu(AluOp::Add, self.get_register(reg), value, false);
        self.set_result_flags(r);
        r.value
    }

    /// Adds a value, a register and the carry flags together, handling flags and returning the result.
    ///
    /// Note: Does not set the register to the new value, [`CPU::set_register`] must be called seperately.
    pub fn adc_register(&mut self, reg: Register, value: u8) -> (new: u8)
        ensures
            new == add8(old(self).register(reg), value, carry_in(old(self).flag(Flag::C))).value,
            *final(self) == old(self).with_result_flags(
                add8(old(self).register(reg), value, carry_in(old(self).flag(Flag::C))),
            ),
    {
        let r = alu(AluOp::Adc, self.get_register(reg), value, self.get_flag(Flag::C));
        self.set_result_flags(r);
        r.value
    }

    /// Adds a value and a register pair together, handling flags and returning the result.
    /// The zero flag is left as it is.
    ///
    /// Note: Does not set either register pair to the new value, [`CPU::set_register_pair`] must be called seperately.
    pub fn add_register_pair(&mut self, pair: RegisterPair, value: u16) -> (new: u16)
        ensures
            new == add16_value(old(self).pair(pair), value),
            *final(self) == old(self).with_flags(
                old(self).flag(Flag::Z),
                false,
                add16_half(old(self).pair(pair), value),
                add16_carry(old(self).pair(pair), value),
            ),
    {
        let reg_val = self.get_register_pair(pair);
        let new = reg_val.wrapping_add(value);
        let z = self.get_flag(Flag::Z);
        let h = (reg_val % 4096) + (value % 4096) > 4095;
        let c = reg_val as u32 + value as u32 > 65535;
        self.set_result_flags(AluResult { value: 0, z, n: false, h, c });
        new
    }

    // * SBC/SUBtraction

    /// Subtracts a value from a register, handling flags and returning the result.
    ///
    /// Note: Does not set either register pair to the new value, [`CPU::set_register_pair`] must be called seperately.
    pub fn sub_register(&mut self, reg: Register, value: u8) -> (new: u8)
        ensures
            new == sub8(old(self).register(reg), value, 0).value,
            *final(self) == old(self).with_result_flags(sub8(old(self).register(reg), value, 0)),
    {
        let r = alu(AluOp::Sub, self.get_register(reg), value, false);
        self.set_result_flags(r);
        r.value
    }

    /// Subtracts a value and the carry flag from a register, handling flags and returning the result.
    ///
    /// Note: Does not set either register pair to the new value, [`CPU::set_register_pair`] must be called seperately.
    pub fn sbc_register(&mut self, reg: Register, value: u8) -> (new: u8)
        ensures
            new == sub8(old(self).register(reg), value, carry_in(old(self).flag(Flag::C))).value,
            *final(self) == old(self).with_result_flags(
                sub8(old(self).register(reg), value, carry_in(old(self).flag(Flag::C))),
            ),
    {
        let r = alu(AluOp::Sbc, self.get_register(reg), value, self.get_flag(Flag::C));
        self.set_result_flags(r);
        r.value
    }

    // * Bitwise ops

    /// Bitwise AND a value and a register together, handling flags and returning the result.
    ///
    /// Note: Does not set either register to the new value, [`CPU::set_register`] must be called seperately.
    pub fn and_register(&mut self, reg: Register, value: u8) -> (new: u8)
        ensures
            new == old(self).register(reg) & value,
            *final(self) == old(self).with_flags(new == 0, false, true, false),
    {
        let r = alu(AluOp::And, self.get_register(reg), value, false);
        self.set_result_flags(r);
        r.value
    }

    /// Bitwise XOR a value and register together, handling flags and returning the result.
    ///
    /// Note: Does not set either register to the new value, [`CPU::set_register`] must be called seperately.
    pub fn xor_register(&mut self, reg: Register, value: u8) -> (new: u8)
        ensures
            new == old(self).register(reg) ^ value,
            *final(self) == old(self).with_flags(new == 0, false, false, false),
    {
        let r = alu(AluOp::Xor, self.get_register(reg), value, false);
        self.set_result_flags(r);
        r.value
    }

    /// Bitwise OR a value and register together, handling flags and returning the result.
    ///
    /// Note: Does not set either register to the new value, [`CPU::set_register`] must be called seperately.
    pub fn or_register(&mut self, reg: Register, value: u8) -> (new: u8)
        ensures
            new == old(self).register(reg) | value,
            *final(self) == old(self).with_flags(new == 0, false, false, false),
    {
        let r = alu(AluOp::Or, self.get_register(reg), value, false);
        self.set_result_flags(r);
        r.value
    }

    // * INC/DECrement

    /// Adds one to the register, managing flags correctly: the carry flag
    /// is left as it is.
    pub fn inc_register(&mut self, reg: Register)
        ensures
            *final(self) == old(self).with_register(
                reg,
                inc8(old(self).register(reg), false).value,
            ).with_result_flags(inc8(old(self).register(reg), old(self).flag(Flag::C))),
    {
        let r = increment(self.get_register(reg), self.get_flag(Flag::C));
        self.set_register(reg, r.value);
        self.set_result_flags(r);
    }

    /// Adds one to the register pair; no flag changes.
    pub fn inc_register_pair(&mut self, pair: RegisterPair)
        ensures
            *final(self) == old(self).with_pair(pair, wrap16(old(self).pair(pair) + 1)),
    {
        let before = self.get_register_pair(pair);
        let reg_val = before.wrapping_add(1);
        assert(reg_val == wrap16(before + 1));
        self.set_register_pair(pair, reg_val);
    }

    /// Subtracts one from the register, managing flags correctly: the
    /// carry flag is left as it is.
    pub fn dec_register(&mut self, reg: Register)
        ensures
            *final(self) == old(self).with_register(
                reg,
                dec8(old(self).register(reg), false).value,
            ).with_result_flags(dec8(old(self).register(reg), old(self).flag(Flag::C))),
    {
        let r = decrement(self.get_register(reg), self.get_flag(Flag::C));
        self.set_register(reg, r.value);
        self.set_result_flags(r);
    }

    /// Subtracts one to the register pair; no flag changes.
    pub fn dec_register_pair(&mut self, pair: RegisterPair)
        ensures
            *final(self) == old(self).with_pair(pair, wrap16(old(self).pair(pair) - 1)),
    {
        let before = self.get_register_pair(pair);
        let reg_val = before.wrapping_sub(1);
        assert(reg_val == wrap16(before - 1)) by {
            if before == 0 {
                assert((-1int) % 65536 == 65535);
            }
        }
        self.set_register_pair(pair, reg_val);
    }
}

/// Writing any byte to `F` leaves the low nibble of `F` zero.
pub proof fn flags_low_nibble_reads_zero(cpu: CPU, value: u8)
    ensures
        cpu.with_register(Register::F, value).register(Register::F) & 0x0F == 0,
        cpu.with_register(Register::F, value).register(Register::F) == value & 0xF0,
{
    lemma_mask_is_mod_u8(value);
}

/// Writing a word to a register pair and reading the pair gives the word
/// back, but for the low nibble of `AF`, which reads zero.
pub proof fn pair_round_trip(cpu: CPU, pair: RegisterPair, value: u16)
    ensures
        cpu.with_pair(pair, value).pair(pair) == (if pair == RegisterPair::AF {
            value & 0xFFF0
        } else {
            value & 0xFFFF
        }),
{
    lemma_mask_is_mod_u16(value);
}

/// Whether both nibbles of `v` are decimal digits.
pub open spec fn is_decimal(v: u8) -> bool {
    v % 16 <= 9 && v / 16 <= 9
}

/// The number below 100 that the packed decimal byte `v` stands for.
pub open spec fn decimal_value(v: u8) -> int {
    (v / 16) * 10 + v % 16
}

/// `DAA` after an addition: where two packed decimal bytes were added,
/// with or without a carry in, the adjusted result is packed decimal again
/// and stands for their decimal sum; the carry flag tells whether the sum
/// passed 99, and Z whether its two digits are zero.
pub proof fn daa_makes_the_decimal_sum(x: u8, y: u8, carry: bool)
    by (bit_vector)
    requires
        is_decimal(x),
        is_decimal(y),
    ensures
        ({
            let sum = add8(x, y, carry_in(carry));
            let adjusted = daa8(sum.value, sum.n, sum.h, sum.c);
            let exact = decimal_value(x) + decimal_value(y) + carry_in(carry);
            &&& is_decimal(adjusted.value)
            &&& decimal_value(adjusted.value) == exact % 100
            &&& adjusted.c == (exact > 99)
            &&& adjusted.z == (exact % 100 == 0)
            &&& !adjusted.n && !adjusted.h
        }),
{
}

/// `DAA` after a subtraction: where one packed decimal byte was taken
/// from another, with or without a carry in, the adjusted result is packed
/// decimal again and stands for their decimal difference, 100 added where
/// it would be negative; the carry flag tells whether it would.
pub proof fn daa_makes_the_decimal_difference(x: u8, y: u8, carry: bool)
    by (bit_vector)
    requires
        is_decimal(x),
        is_decimal(y),
    ensures
        ({
            let difference = sub8(x, y, carry_in(carry));
            let adjusted = daa8(difference.value, difference.n, difference.h, difference.c);
            let exact = decimal_value(x) - decimal_value(y) - carry_in(carry);
            &&& is_decimal(adjusted.value)
            &&& decimal_value(adjusted.value) == exact % 100
            &&& adjusted.c == (exact < 0)
            &&& adjusted.z == (exact % 100 == 0)
            &&& adjusted.n && !adjusted.h
        }),
{
}

/// The rotates and shifts by the shift operators: the arithmetic
/// statements of this file and the statements with `<<`, `>>` and `|` say
/// the same.
pub proof fn rotates_by_shifts(v: u8, carry: bool)
    ensures
        rot8_value(RotOp::Rlc, v, carry) == (v << 1) | (v >> 7),
        rot8_value(RotOp::Rrc, v, carry) == (v >> 1) | (v << 7),
        rot8_value(RotOp::Rl, v, carry) == (v << 1) | (if carry { 1u8 } else { 0u8 }),
        rot8_value(RotOp::Rr, v, carry) == (v >> 1) | (if carry { 0x80u8 } else { 0u8 }),
        rot8_value(RotOp::Sla, v, carry) == v << 1,
        rot8_value(RotOp::Sra, v, carry) == (v >> 1) | (v & 0x80),
        rot8_value(RotOp::Swap, v, carry) == (v << 4) | (v >> 4),
        rot8_value(RotOp::Srl, v, carry) == v >> 1,
        rot8_carry(RotOp::Rlc, v) == (v & 0x80 != 0),
        rot8_carry(RotOp::Rrc, v) == (v & 0x01 != 0),
{
    lemma_rotate_bits(v);
    lemma_bit_test_u8(v);
}

/// The half-carries and carries are those of the masked operands: the
/// arithmetic statements of this file and the statements with `&` say the
/// same.
pub proof fn carries_by_masks(a: u8, b: u8, x: u16, y: u16)
    ensures
        (a % 16 + b % 16 > 15) == ((a & 0x0F) + (b & 0x0F) > 0x0F),
        (a % 16 < b % 16) == ((a & 0x0F) < (b & 0x0F)),
        add16_half(x, y) == ((x & 0x0FFF) + (y & 0x0FFF) > 0x0FFF),
        (x % 16 + b % 16 > 15) == ((x & 0x0F) + (b & 0x0F) > 0x0F),
        (x % 256 + b > 255) == ((x & 0xFF) + (b & 0xFF) > 0xFF),
        (255 - a) as u8 == !a,
{
    lemma_mask_is_mod_u8(a);
    lemma_mask_is_mod_u8(b);
    lemma_mask_is_mod_u16(x);
    lemma_mask_is_mod_u16(y);
    lemma_low_nibble_of_word(x, b);
}

/// The four flags read back as they were written, and the low nibble of
/// `F` is zero after them, whatever it held.
pub proof fn result_flags_read_back(cpu: CPU, r: AluResult)
    ensures
        cpu.with_result_flags(r).f % 16 == 0,
        cpu.with_result_flags(r).flag(Flag::Z) == r.z,
        cpu.with_result_flags(r).flag(Flag::N) == r.n,
        cpu.with_result_flags(r).flag(Flag::H) == r.h,
        cpu.with_result_flags(r).flag(Flag::C) == r.c,
{
}

/// `SWAP` twice is the identity.
pub proof fn swap_twice_is_identity(v: u8, carry: bool)
    ensures
        rot8(RotOp::Swap, rot8(RotOp::Swap, v, carry).value, false).value == v,
{
}

/// Computes the accumulator operation `op`.
pub fn alu(op: AluOp, a: u8, b: u8, carry: bool) -> (r: AluResult)
    ensures
        r == alu8(op, a, b, carry),
{
    let cin: u8 = if carry { 1 } else { 0 };
    match op {
        AluOp::Add => add_bytes(a, b, 0),
        AluOp::Adc => add_bytes(a, b, cin),
        AluOp::Sub => sub_bytes(a, b, 0),
        AluOp::Sbc => sub_bytes(a, b, cin),
        AluOp::And => {
            let value = a & b;
            AluResult { value, z: value == 0, n: false, h: true, c: false }
        },
        AluOp::Xor => {
            let value = a ^ b;
            AluResult { value, z: value == 0, n: false, h: false, c: false }
        },
        AluOp::Or => {
            let value = a | b;
            AluResult { value, z: value == 0, n: false, h: false, c: false }
        },
        AluOp::Cp => {
            let r = sub_bytes(a, b, 0);
            AluResult { value: a, z: r.z, n: r.n, h: r.h, c: r.c }
        },
    }
}

fn add_bytes(a: u8, b: u8, cin: u8) -> (r: AluResult)
    requires
        cin <= 1,
    ensures
        r == add8(a, b, cin as int),
{
    let sum: u16 = a as u16 + b as u16 + cin as u16;
    let value: u8 = (sum % 256) as u8;
    AluResult { value, z: value == 0, n: false, h: (a % 16) + (b % 16) + cin > 15, c: sum > 255 }
}

fn sub_bytes(a: u8, b: u8, cin: u8) -> (r: AluResult)
    requires
        cin <= 1,
    ensures
        r == sub8(a, b, cin as int),
{
    let value: u8 = a.wrapping_sub(b).wrapping_sub(cin);
    AluResult {
        value,
        z: value == 0,
        n: true,
        h: (a % 16) < (b % 16) + cin,
        c: (a as u16) < (b as u16) + (cin as u16),
    }
}

/// Computes `v + 1` and its flags.
pub fn increment(v: u8, carry: bool) -> (r: AluResult)
    ensures
        r == inc8(v, carry),
{
    let value = v.wrapping_add(1);
    AluResult { value, z: value == 0, n: false, h: v % 16 == 15, c: carry }
}

/// Computes `v - 1` and its flags.
pub fn decrement(v: u8, carry: bool) -> (r: AluResult)
    ensures
        r == dec8(v, carry),
{
    let value = v.wrapping_sub(1);
    AluResult { value, z: value == 0, n: true, h: v % 16 == 0, c: carry }
}

/// Computes the prefixed rotate or shift `op`.
pub fn rotate(op: RotOp, v: u8, carry: bool) -> (r: AluResult)
    ensures
        r == rot8(op, v, carry),
{
    let cin: u8 = if carry { 1 } else { 0 };
    let doubled: u8 = ((v as u16 * 2) % 256) as u8;
    let value: u8 = match op {
        RotOp::Rlc => doubled + v / 128,
        RotOp::Rrc => v / 2 + (v % 2) * 128,
        RotOp::Rl => doubled + cin,
        RotOp::Rr => v / 2 + cin * 128,
        RotOp::Sla => doubled,
        RotOp::Sra => v / 2 + (v / 128) * 128,
        RotOp::Swap => (v % 16) * 16 + v / 16,
        RotOp::Srl => v / 2,
    };
    let c = match op {
        RotOp::Rlc | RotOp::Rl | RotOp::Sla => v >= 128,
        RotOp::Rrc | RotOp::Rr | RotOp::Sra | RotOp::Srl => v % 2 == 1,
        RotOp::Swap => false,
    };
    AluResult { value, z: value == 0, n: false, h: false, c }
}

/// Computes the mask of bit `b`.
pub fn mask_of_bit(b: u8) -> (mask: u8)
    ensures
        mask == bit_mask(b),
{
    if b == 0 {
        0x01
    } else if b == 1 {
        0x02
    } else if b == 2 {
        0x04
    } else if b == 3 {
        0x08
    } else if b == 4 {
        0x10
    } else if b == 5 {
        0x20
    } else if b == 6 {
        0x40
    } else {
        0x80
    }
}

/// Computes the decimal adjustment of `a`.
pub fn decimal_adjust(a: u8, n: bool, h: bool, c: bool) -> (r: AluResult)
    ensures
        r == daa8(a, n, h, c),
{
    let low: u8 = if h || (!n && a % 16 > 9) { 0x06 } else { 0 };
    let high: u8 = if c || (!n && a > 0x99) { 0x60 } else { 0 };
    let value = if n {
        a.wrapping_sub(low).wrapping_sub(high)
    } else {
        a.wrapping_add(low).wrapping_add(high)
    };
    AluResult { value, z: value == 0, n, h: false, c: c || (!n && a > 0x99) }
}

/// Computes `sp` plus the signed byte `e`.
pub fn offset_word(sp: u16, e: u8) -> (value: u16)
    ensures
        value == add_signed(sp, e),
{
    if e >= 128 {
        sp.wrapping_sub(256 - e as u16)
    } else {
        sp.wrapping_add(e as u16)
    }
}

} // verus!
