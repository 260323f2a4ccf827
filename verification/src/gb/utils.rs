//! Small shared types of the core: register names, flags, the interrupt
//! master-enable state, interrupt sources, and byte and bit helpers.

use vstd::prelude::*;
use vstd::std_specs::convert::FromSpecImpl;
use vstd::std_specs::ops::BitOrSpecImpl;
use std::ops::BitOr;

verus! {

/// The interrupt master enable. `EI` moves it to `Scheduled`; the
/// boundary after the instruction that follows `EI` finds it `Enabled`.
#[derive(Debug, Clone, Copy, PartialEq, Eq, Structural)]
pub enum IME {
    Disabled,
    Scheduled,
    Enabled,
}

#[derive(Debug, Clone, Copy, PartialEq, Eq, Structural)]
pub enum Register {
    A,
    F,
    B,
    C,
    D,
    E,
    H,
    L,
}

#[derive(Debug, Clone, Copy, PartialEq, Eq, Structural)]
pub enum RegisterPair {
    AF,
    BC,
    DE,
    HL,
    PC,
    SP,
}

#[derive(Debug, Clone, Copy, PartialEq, Eq, Structural)]
pub enum Flag {
    /// Zero flag
    Z,
    /// Subtraction flag
    N,
    /// Half-carry flag
    H,
    /// Carry flag
    C,
}

impl Flag {
    /// The bit of register `F` that holds this flag.
    pub open spec fn mask(self) -> u8 {
        match self {
            Flag::Z => 0b1000_0000,
            Flag::N => 0b0100_0000,
            Flag::H => 0b0010_0000,
            Flag::C => 0b0001_0000,
        }
    }
}

impl From<Flag> for u8 {
    fn from(value: Flag) -> (mask: u8) {
        match value {
            Flag::Z => 0b1000_0000,
            Flag::N => 0b0100_0000,
            Flag::H => 0b0010_0000,
            Flag::C => 0b0001_0000,
        }
    }
}

impl FromSpecImpl<Flag> for u8 {
    open spec fn obeys_from_spec() -> bool {
        true
    }

    open spec fn from_spec(value: Flag) -> u8 {
        value.mask()
    }
}

impl BitOr<Flag> for Flag {
    type Output = u8;

    fn bitor(self, rhs: Flag) -> (mask: u8) {
        u8::from(self) | u8::from(rhs)
    }
}

impl BitOrSpecImpl<Flag> for Flag {
    open spec fn obeys_bitor_spec() -> bool {
        true
    }

    open spec fn bitor_req(self, rhs: Flag) -> bool {
        true
    }

    open spec fn bitor_spec(self, rhs: Flag) -> u8 {
        self.mask() | rhs.mask()
    }
}

impl BitOr<u8> for Flag {
    type Output = u8;

    fn bitor(self, rhs: u8) -> (mask: u8) {
        u8::from(self) | rhs
    }
}

impl BitOrSpecImpl<u8> for Flag {
    open spec fn obeys_bitor_spec() -> bool {
        true
    }

    open spec fn bitor_req(self, rhs: u8) -> bool {
        true
    }

    open spec fn bitor_spec(self, rhs: u8) -> u8 {
        self.mask() | rhs
    }
}

impl BitOr<Flag> for u8 {
    type Output = u8;

    fn bitor(self, rhs: Flag) -> (mask: u8) {
        self | u8::from(rhs)
    }
}

impl BitOrSpecImpl<Flag> for u8 {
    open spec fn obeys_bitor_spec() -> bool {
        true
    }

    open spec fn bitor_req(self, rhs: Flag) -> bool {
        true
    }

    open spec fn bitor_spec(self, rhs: Flag) -> u8 {
        self | rhs.mask()
    }
}

/// The five interrupt sources, in priority order.
#[derive(Debug, Clone, Copy, PartialEq, Eq, Structural)]
pub enum InterruptMask {
    VBlank,
    LCDStat,
    Timer,
    Serial,
    Joypad,
}

impl InterruptMask {
    /// The bit of `IF` and `IE` that belongs to this source.
    pub open spec fn mask(self) -> u8 {
        match self {
            InterruptMask::VBlank => 0b0000_0001,
            InterruptMask::LCDStat => 0b0000_0010,
            InterruptMask::Timer => 0b0000_0100,
            InterruptMask::Serial => 0b0000_1000,
            InterruptMask::Joypad => 0b0001_0000,
        }
    }

    pub open spec fn handler_address(self) -> u16 {
        match self {
            InterruptMask::VBlank => 0x0040,
            InterruptMask::LCDStat => 0x0048,
            InterruptMask::Timer => 0x0050,
            InterruptMask::Serial => 0x0058,
            InterruptMask::Joypad => 0x0060,
        }
    }

    /// The source of highest priority whose bit is set in `register`, if any:
    /// the lowest-numbered bit wins.
    pub open spec fn highest_priority(register: u8) -> Option<InterruptMask> {
        if register & 0b0000_0001 != 0 {
            Some(InterruptMask::VBlank)
        } else if register & 0b0000_0010 != 0 {
            Some(InterruptMask::LCDStat)
        } else if register & 0b0000_0100 != 0 {
            Some(InterruptMask::Timer)
        } else if register & 0b0000_1000 != 0 {
            Some(InterruptMask::Serial)
        } else if register & 0b0001_0000 != 0 {
            Some(InterruptMask::Joypad)
        } else {
            None
        }
    }

    pub fn get_handler_address(&self) -> (address: u16)
        ensures
            address == self.handler_address(),
    {
        match self {
            InterruptMask::VBlank => 0x0040,
            InterruptMask::LCDStat => 0x0048,
            InterruptMask::Timer => 0x0050,
            InterruptMask::Serial => 0x0058,
            InterruptMask::Joypad => 0x0060,
        }
    }

    pub fn get_interrupt_from_register(register: u8) -> (interrupt: Option<Self>)
        ensures
            interrupt == Self::highest_priority(register),
            interrupt is None <==> register & 0x1F == 0,
    {
        proof {
            lemma_low_five_bits(register);
        }
        if get_bit(register, 0b0000_0001) {
            Some(InterruptMask::VBlank)
        } else if get_bit(register, 0b0000_0010) {
            Some(InterruptMask::LCDStat)
        } else if get_bit(register, 0b0000_0100) {
            Some(InterruptMask::Timer)
        } else if get_bit(register, 0b0000_1000) {
            Some(InterruptMask::Serial)
        } else if get_bit(register, 0b0001_0000) {
            Some(InterruptMask::Joypad)
        } else {
            None
        }
    }
}

/// None of the five interrupt bits is set exactly when the low five bits
/// are zero.
pub proof fn lemma_low_five_bits(register: u8)
    by (bit_vector)
    ensures
        (register & 0x1F == 0) <==> (register & 0x01 == 0 && register & 0x02 == 0 && register
            & 0x04 == 0 && register & 0x08 == 0 && register & 0x10 == 0),
{
}

impl From<InterruptMask> for u8 {
    fn from(value: InterruptMask) -> (mask: u8) {
        match value {
            InterruptMask::VBlank => 0b0000_0001,
            InterruptMask::LCDStat => 0b0000_0010,
            InterruptMask::Timer => 0b0000_0100,
            InterruptMask::Serial => 0b0000_1000,
            InterruptMask::Joypad => 0b0001_0000,
        }
    }
}

impl FromSpecImpl<InterruptMask> for u8 {
    open spec fn obeys_from_spec() -> bool {
        true
    }

    open spec fn from_spec(value: InterruptMask) -> u8 {
        value.mask()
    }
}

impl BitOr<InterruptMask> for InterruptMask {
    type Output = u8;

    fn bitor(self, rhs: InterruptMask) -> (mask: u8) {
        u8::from(self) | u8::from(rhs)
    }
}

impl BitOrSpecImpl<InterruptMask> for InterruptMask {
    open spec fn obeys_bitor_spec() -> bool {
        true
    }

    open spec fn bitor_req(self, rhs: InterruptMask) -> bool {
        true
    }

    open spec fn bitor_spec(self, rhs: InterruptMask) -> u8 {
        self.mask() | rhs.mask()
    }
}

impl BitOr<u8> for InterruptMask {
    type Output = u8;

    fn bitor(self, rhs: u8) -> (mask: u8) {
        u8::from(self) | rhs
    }
}

impl BitOrSpecImpl<u8> for InterruptMask {
    open spec fn obeys_bitor_spec() -> bool {
        true
    }

    open spec fn bitor_req(self, rhs: u8) -> bool {
        true
    }

    open spec fn bitor_spec(self, rhs: u8) -> u8 {
        self.mask() | rhs
    }
}

impl BitOr<InterruptMask> for u8 {
    type Output = u8;

    fn bitor(self, rhs: InterruptMask) -> (mask: u8) {
        self | u8::from(rhs)
    }
}

impl BitOrSpecImpl<InterruptMask> for u8 {
    open spec fn obeys_bitor_spec() -> bool {
        true
    }

    open spec fn bitor_req(self, rhs: InterruptMask) -> bool {
        true
    }

    open spec fn bitor_spec(self, rhs: InterruptMask) -> u8 {
        self | rhs.mask()
    }
}

/// `v` with the bits of `mask` set (`state`) or cleared.
pub open spec fn with_bit(v: u8, mask: u8, state: bool) -> u8 {
    if state {
        v | mask
    } else {
        v & !mask
    }
}

/// Returns true if any of the bits of `mask` in `v` are true.
#[inline]
pub fn get_bit(v: u8, mask: u8) -> (set: bool)
    ensures
        set == (v & mask != 0),
{
    (v & mask) != 0
}

/// Sets all bits of `v` in the `mask` to `state`.
#[inline]
pub fn set_bit(v: &mut u8, mask: u8, state: bool)
    ensures
        *final(v) == with_bit(*old(v), mask, state),
{
    if state {
        *v = *v | mask;
    } else {
        *v = *v & !mask;
    }
}

#[inline]
pub fn toggle_bit(v: &mut u8, mask: u8)
    ensures
        *final(v) == *old(v) ^ mask,
{
    *v = *v ^ mask;
}

/// The low and the high byte of `v`.
pub open spec fn low_byte(v: u16) -> u8 {
    (v % 256) as u8
}

pub open spec fn high_byte(v: u16) -> u8 {
    (v / 256) as u8
}

/// The word whose low byte is `lsb` and whose high byte is `msb`.
pub open spec fn word(lsb: u8, msb: u8) -> u16 {
    (msb * 256 + lsb) as u16
}

/// Returns (LSB, MSB).
#[inline]
pub fn split_u16(v: u16) -> (bytes: (u8, u8))
    ensures
        bytes.0 == low_byte(v),
        bytes.1 == high_byte(v),
        bytes.0 == v & 0xFF,
        bytes.1 == v >> 8,
{
    proof {
        crate::gb::bits::lemma_mask_is_mod_u16(v);
    }
    ((v % 256) as u8, (v / 256) as u8)
}

#[inline]
pub fn join_u16(lsb: u8, msb: u8) -> (v: u16)
    ensures
        v == word(lsb, msb),
        v == msb * 256 + lsb,
{
    (msb as u16) * 256 + (lsb as u16)
}

/// Splitting a word and joining the halves gives the word back, and the
/// other way round.
pub proof fn lemma_split_join(v: u16, lsb: u8, msb: u8)
    ensures
        word(low_byte(v), high_byte(v)) == v,
        low_byte(word(lsb, msb)) == lsb,
        high_byte(word(lsb, msb)) == msb,
{
}

} // verus!
