use loki_gb::gb::cpu::{
    alu, decimal_adjust, decrement, increment, mask_of_bit, offset_word, rotate, AluOp, AluResult,
    RotOp, CPU,
};
use loki_gb::gb::utils::{
    get_bit, join_u16, set_bit, split_u16, toggle_bit, Flag, InterruptMask, Register, RegisterPair,
};

fn flags(cpu: &CPU) -> (bool, bool, bool, bool) {
    (
        cpu.get_flag(Flag::Z),
        cpu.get_flag(Flag::N),
        cpu.get_flag(Flag::H),
        cpu.get_flag(Flag::C),
    )
}

#[test]
fn writing_f_discards_the_low_nibble() {
    let mut cpu = CPU::new_init();
    for v in 0..=255u8 {
        cpu.set_register(Register::F, v);
        assert_eq!(cpu.get_register(Register::F) & 0x0F, 0);
        assert_eq!(cpu.get_register(Register::F), v & 0xF0);
    }
}

#[test]
fn new_discards_the_low_nibble_of_f() {
    let cpu = CPU::new(1, 0xFF, 2, 3, 4, 5, 6, 7, 0x1234, 0x5678);
    assert_eq!(cpu.get_register(Register::F), 0xF0);
    assert_eq!(cpu.get_register(Register::A), 1);
    assert_eq!(cpu.get_register(Register::B), 2);
    assert_eq!(cpu.get_register(Register::C), 3);
    assert_eq!(cpu.get_register(Register::D), 4);
    assert_eq!(cpu.get_register(Register::E), 5);
    assert_eq!(cpu.get_register(Register::H), 6);
    assert_eq!(cpu.get_register(Register::L), 7);
    assert_eq!(cpu.get_register_pair(RegisterPair::PC), 0x1234);
    assert_eq!(cpu.get_register_pair(RegisterPair::SP), 0x5678);
}

#[test]
fn new_init_is_all_zero() {
    let cpu = CPU::new_init();
    assert_eq!(cpu, CPU::new(0, 0, 0, 0, 0, 0, 0, 0, 0, 0));
}

#[test]
fn register_pairs_round_trip() {
    let mut cpu = CPU::new_init();
    for v in [0x0000u16, 0x0001, 0x00FF, 0x0100, 0x1234, 0x8000, 0xABCD, 0xFFFF] {
        for pair in [RegisterPair::BC, RegisterPair::DE, RegisterPair::HL, RegisterPair::PC, RegisterPair::SP] {
            cpu.set_register_pair(pair, v);
            assert_eq!(cpu.get_register_pair(pair), v);
        }
        cpu.set_register_pair(RegisterPair::AF, v);
        assert_eq!(cpu.get_register_pair(RegisterPair::AF), v & 0xFFF0);
    }
}

#[test]
fn register_pairs_put_the_first_register_high() {
    let mut cpu = CPU::new_init();
    cpu.set_register_pair(RegisterPair::BC, 0x1234);
    assert_eq!(cpu.get_register(Register::B), 0x12);
    assert_eq!(cpu.get_register(Register::C), 0x34);
    cpu.set_register_pair(RegisterPair::DE, 0x5678);
    assert_eq!(cpu.get_register(Register::D), 0x56);
    assert_eq!(cpu.get_register(Register::E), 0x78);
    cpu.set_register_pair(RegisterPair::HL, 0x9ABC);
    assert_eq!(cpu.get_register(Register::H), 0x9A);
    assert_eq!(cpu.get_register(Register::L), 0xBC);
    cpu.set_register_pair(RegisterPair::AF, 0xDEFF);
    assert_eq!(cpu.get_register(Register::A), 0xDE);
    assert_eq!(cpu.get_register(Register::F), 0xF0);
}

#[test]
fn flags_sit_in_the_high_nibble() {
    assert_eq!(u8::from(Flag::Z), 0x80);
    assert_eq!(u8::from(Flag::N), 0x40);
    assert_eq!(u8::from(Flag::H), 0x20);
    assert_eq!(u8::from(Flag::C), 0x10);
    let mut cpu = CPU::new_init();
    cpu.set_flag(Flag::Z, true);
    assert_eq!(cpu.get_register(Register::F), 0x80);
    cpu.set_flag(Flag::C, true);
    assert_eq!(cpu.get_register(Register::F), 0x90);
    cpu.set_flag(Flag::Z, false);
    assert_eq!(cpu.get_register(Register::F), 0x10);
    cpu.toggle_flag(Flag::H);
    assert_eq!(cpu.get_register(Register::F), 0x30);
    cpu.toggle_flag(Flag::C);
    assert_eq!(cpu.get_register(Register::F), 0x20);
    cpu.set_flag(Flag::N, true);
    assert_eq!(flags(&cpu), (false, true, true, false));
    cpu.set_flag(Flag::N, true);
    assert_eq!(cpu.get_register(Register::F), 0x60);
}

#[test]
fn add_register_sets_half_carry_and_carry() {
    let mut cpu = CPU::new(0x3A, 0, 0xC6, 0, 0, 0, 0, 0, 0, 0);
    let new = cpu.add_register(Register::A, 0xC6);
    assert_eq!(new, 0x00);
    assert_eq!(cpu.get_register(Register::F), 0xB0);
    // The register itself is left for the caller to write.
    assert_eq!(cpu.get_register(Register::A), 0x3A);

    let mut cpu = CPU::new(0x0F, 0xF0, 0, 0, 0, 0, 0, 0, 0, 0);
    assert_eq!(cpu.add_register(Register::A, 0x01), 0x10);
    assert_eq!(flags(&cpu), (false, false, true, false));

    let mut cpu = CPU::new(0xF0, 0, 0, 0, 0, 0, 0, 0, 0, 0);
    assert_eq!(cpu.add_register(Register::A, 0x20), 0x10);
    assert_eq!(flags(&cpu), (false, false, false, true));
}

#[test]
fn adc_register_counts_the_carry_in() {
    let mut cpu = CPU::new(0xE1, 0x10, 0, 0, 0, 0, 0, 0, 0, 0);
    assert_eq!(cpu.adc_register(Register::A, 0x0F), 0xF1);
    assert_eq!(flags(&cpu), (false, false, true, false));

    let mut cpu = CPU::new(0xFF, 0x10, 0, 0, 0, 0, 0, 0, 0, 0);
    assert_eq!(cpu.adc_register(Register::A, 0x00), 0x00);
    assert_eq!(flags(&cpu), (true, false, true, true));

    let mut cpu = CPU::new(0xFF, 0x00, 0, 0, 0, 0, 0, 0, 0, 0);
    assert_eq!(cpu.adc_register(Register::A, 0x00), 0xFF);
    assert_eq!(flags(&cpu), (false, false, false, false));
}

#[test]
fn sub_register_borrows() {
    let mut cpu = CPU::new(0x3E, 0, 0, 0, 0, 0, 0, 0, 0, 0);
    assert_eq!(cpu.sub_register(Register::A, 0x3E), 0x00);
    assert_eq!(flags(&cpu), (true, true, false, false));

    let mut cpu = CPU::new(0x3E, 0, 0, 0, 0, 0, 0, 0, 0, 0);
    assert_eq!(cpu.sub_register(Register::A, 0x0F), 0x2F);
    assert_eq!(flags(&cpu), (false, true, true, false));

    let mut cpu = CPU::new(0x3E, 0, 0, 0, 0, 0, 0, 0, 0, 0);
    assert_eq!(cpu.sub_register(Register::A, 0x40), 0xFE);
    assert_eq!(flags(&cpu), (false, true, false, true));
}

#[test]
fn sbc_register_counts_the_carry_in() {
    let mut cpu = CPU::new(0x3B, 0x10, 0, 0, 0, 0, 0, 0, 0, 0);
    assert_eq!(cpu.sbc_register(Register::A, 0x2A), 0x10);
    assert_eq!(flags(&cpu), (false, true, false, false));

    let mut cpu = CPU::new(0x3B, 0x10, 0, 0, 0, 0, 0, 0, 0, 0);
    assert_eq!(cpu.sbc_register(Register::A, 0x3A), 0x00);
    assert_eq!(flags(&cpu), (true, true, false, false));

    let mut cpu = CPU::new(0x3B, 0x10, 0, 0, 0, 0, 0, 0, 0, 0);
    assert_eq!(cpu.sbc_register(Register::A, 0x4F), 0xEB);
    assert_eq!(flags(&cpu), (false, true, true, true));

    // The half-borrow counts the carry: 0x10 - 0x00 - 1.
    let mut cpu = CPU::new(0x10, 0x10, 0, 0, 0, 0, 0, 0, 0, 0);
    assert_eq!(cpu.sbc_register(Register::A, 0x00), 0x0F);
    assert_eq!(flags(&cpu), (false, true, true, false));

    // The borrow counts the carry: 0x00 - 0xFF - 1.
    let mut cpu = CPU::new(0x00, 0x10, 0, 0, 0, 0, 0, 0, 0, 0);
    assert_eq!(cpu.sbc_register(Register::A, 0xFF), 0x00);
    assert_eq!(flags(&cpu), (true, true, true, true));
}

#[test]
fn bitwise_operations_set_their_fixed_flags() {
    let mut cpu = CPU::new(0x5A, 0xF0, 0, 0, 0, 0, 0, 0, 0, 0);
    assert_eq!(cpu.and_register(Register::A, 0x3F), 0x1A);
    assert_eq!(flags(&cpu), (false, false, true, false));
    let mut cpu = CPU::new(0x5A, 0xF0, 0, 0, 0, 0, 0, 0, 0, 0);
    assert_eq!(cpu.and_register(Register::A, 0x00), 0x00);
    assert_eq!(flags(&cpu), (true, false, true, false));

    let mut cpu = CPU::new(0xFF, 0xF0, 0, 0, 0, 0, 0, 0, 0, 0);
    assert_eq!(cpu.xor_register(Register::A, 0x0F), 0xF0);
    assert_eq!(flags(&cpu), (false, false, false, false));
    let mut cpu = CPU::new(0xFF, 0xF0, 0, 0, 0, 0, 0, 0, 0, 0);
    assert_eq!(cpu.xor_register(Register::A, 0xFF), 0x00);
    assert_eq!(flags(&cpu), (true, false, false, false));

    let mut cpu = CPU::new(0x5A, 0xF0, 0, 0, 0, 0, 0, 0, 0, 0);
    assert_eq!(cpu.or_register(Register::A, 0x0F), 0x5F);
    assert_eq!(flags(&cpu), (false, false, false, false));
    let mut cpu = CPU::new(0x00, 0xF0, 0, 0, 0, 0, 0, 0, 0, 0);
    assert_eq!(cpu.or_register(Register::A, 0x00), 0x00);
    assert_eq!(flags(&cpu), (true, false, false, false));
}

#[test]
fn inc_and_dec_register_keep_the_carry() {
    let mut cpu = CPU::new(0, 0x10, 0xFF, 0, 0, 0, 0, 0, 0, 0);
    cpu.inc_register(Register::B);
    assert_eq!(cpu.get_register(Register::B), 0x00);
    assert_eq!(flags(&cpu), (true, false, true, true));

    let mut cpu = CPU::new(0, 0x00, 0x0F, 0, 0, 0, 0, 0, 0, 0);
    cpu.inc_register(Register::B);
    assert_eq!(cpu.get_register(Register::B), 0x10);
    assert_eq!(flags(&cpu), (false, false, true, false));

    let mut cpu = CPU::new(0, 0x10, 0x01, 0, 0, 0, 0, 0, 0, 0);
    cpu.dec_register(Register::B);
    assert_eq!(cpu.get_register(Register::B), 0x00);
    assert_eq!(flags(&cpu), (true, true, false, true));

    let mut cpu = CPU::new(0, 0x00, 0x10, 0, 0, 0, 0, 0, 0, 0);
    cpu.dec_register(Register::B);
    assert_eq!(cpu.get_register(Register::B), 0x0F);
    assert_eq!(flags(&cpu), (false, true, true, false));

    let mut cpu = CPU::new(0, 0x00, 0x00, 0, 0, 0, 0, 0, 0, 0);
    cpu.dec_register(Register::B);
    assert_eq!(cpu.get_register(Register::B), 0xFF);
    assert_eq!(flags(&cpu), (false, true, true, false));
}

#[test]
fn pair_arithmetic_wraps_and_keeps_flags() {
    let mut cpu = CPU::new(0, 0xF0, 0, 0, 0, 0, 0xFF, 0xFF, 0, 0);
    cpu.inc_register_pair(RegisterPair::HL);
    assert_eq!(cpu.get_register_pair(RegisterPair::HL), 0x0000);
    assert_eq!(cpu.get_register(Register::F), 0xF0);
    cpu.dec_register_pair(RegisterPair::HL);
    assert_eq!(cpu.get_register_pair(RegisterPair::HL), 0xFFFF);
    cpu.dec_register_pair(RegisterPair::SP);
    assert_eq!(cpu.get_register_pair(RegisterPair::SP), 0xFFFF);
    assert_eq!(cpu.get_register(Register::F), 0xF0);
}

#[test]
fn add_register_pair_leaves_the_zero_flag() {
    let mut cpu = CPU::new(0, 0x80, 0, 0, 0, 0, 0x8A, 0x23, 0, 0);
    assert_eq!(cpu.add_register_pair(RegisterPair::HL, 0x0605), 0x9028);
    assert_eq!(flags(&cpu), (true, false, true, false));

    let mut cpu = CPU::new(0, 0x00, 0, 0, 0, 0, 0x8A, 0x23, 0, 0);
    assert_eq!(cpu.add_register_pair(RegisterPair::HL, 0x8A23), 0x1446);
    assert_eq!(flags(&cpu), (false, false, true, true));

    let mut cpu = CPU::new(0, 0x70, 0, 0, 0, 0, 0x00, 0x01, 0, 0);
    assert_eq!(cpu.add_register_pair(RegisterPair::HL, 0x0001), 0x0002);
    assert_eq!(flags(&cpu), (false, false, false, false));
}

#[test]
fn alu_computes_each_operation() {
    assert_eq!(
        alu(AluOp::Add, 0x3A, 0xC6, true),
        AluResult { value: 0x00, z: true, n: false, h: true, c: true }
    );
    assert_eq!(
        alu(AluOp::Adc, 0x3A, 0xC6, true),
        AluResult { value: 0x01, z: false, n: false, h: true, c: true }
    );
    assert_eq!(
        alu(AluOp::Sub, 0x10, 0x01, true),
        AluResult { value: 0x0F, z: false, n: true, h: true, c: false }
    );
    assert_eq!(
        alu(AluOp::Sbc, 0x10, 0x01, true),
        AluResult { value: 0x0E, z: false, n: true, h: true, c: false }
    );
    assert_eq!(
        alu(AluOp::And, 0xF0, 0x0F, true),
        AluResult { value: 0x00, z: true, n: false, h: true, c: false }
    );
    assert_eq!(
        alu(AluOp::Xor, 0xF0, 0xFF, true),
        AluResult { value: 0x0F, z: false, n: false, h: false, c: false }
    );
    assert_eq!(
        alu(AluOp::Or, 0xF0, 0x0F, true),
        AluResult { value: 0xFF, z: false, n: false, h: false, c: false }
    );
    assert_eq!(
        alu(AluOp::Cp, 0x3C, 0x40, false),
        AluResult { value: 0x3C, z: false, n: true, h: false, c: true }
    );
    assert_eq!(
        alu(AluOp::Cp, 0x3C, 0x3C, false),
        AluResult { value: 0x3C, z: true, n: true, h: false, c: false }
    );
}

#[test]
fn increment_and_decrement_compute_their_flags() {
    assert_eq!(increment(0xFF, true), AluResult { value: 0, z: true, n: false, h: true, c: true });
    assert_eq!(
        increment(0x4F, false),
        AluResult { value: 0x50, z: false, n: false, h: true, c: false }
    );
    assert_eq!(decrement(0x01, true), AluResult { value: 0, z: true, n: true, h: false, c: true });
    assert_eq!(
        decrement(0x00, false),
        AluResult { value: 0xFF, z: false, n: true, h: true, c: false }
    );
}

#[test]
fn rotates_and_shifts_move_the_right_bits() {
    let r = |op, v, c| {
        let r = rotate(op, v, c);
        (r.value, r.z, r.c)
    };
    assert_eq!(r(RotOp::Rlc, 0x85, false), (0x0B, false, true));
    assert_eq!(r(RotOp::Rlc, 0x00, true), (0x00, true, false));
    assert_eq!(r(RotOp::Rrc, 0x01, false), (0x80, false, true));
    assert_eq!(r(RotOp::Rrc, 0x3B, false), (0x9D, false, true));
    assert_eq!(r(RotOp::Rl, 0x80, false), (0x00, true, true));
    assert_eq!(r(RotOp::Rl, 0x11, true), (0x23, false, false));
    assert_eq!(r(RotOp::Rr, 0x01, false), (0x00, true, true));
    assert_eq!(r(RotOp::Rr, 0x8A, true), (0xC5, false, false));
    assert_eq!(r(RotOp::Sla, 0x80, false), (0x00, true, true));
    assert_eq!(r(RotOp::Sla, 0xFF, false), (0xFE, false, true));
    assert_eq!(r(RotOp::Sra, 0x8A, false), (0xC5, false, false));
    assert_eq!(r(RotOp::Sra, 0x01, false), (0x00, true, true));
    assert_eq!(r(RotOp::Srl, 0x01, false), (0x00, true, true));
    assert_eq!(r(RotOp::Srl, 0xFF, false), (0x7F, false, true));
    assert_eq!(r(RotOp::Swap, 0xF1, true), (0x1F, false, false));
    assert_eq!(r(RotOp::Swap, 0x00, true), (0x00, true, false));
    let any = rotate(RotOp::Rlc, 0x85, false);
    assert!(!any.n && !any.h);
}

#[test]
fn rotating_there_and_back_restores_every_byte() {
    for a in 0..=255u8 {
        let left = rotate(RotOp::Rlc, a, false);
        let back = rotate(RotOp::Rrc, left.value, left.c);
        assert_eq!(back.value, a);
        assert_eq!(back.c, a & 0x80 != 0);

        let right = rotate(RotOp::Rrc, a, false);
        let back = rotate(RotOp::Rlc, right.value, right.c);
        assert_eq!(back.value, a);
        assert_eq!(back.c, a & 0x01 != 0);

        let left = rotate(RotOp::Rl, a, false);
        let back = rotate(RotOp::Rr, left.value, left.c);
        assert_eq!(back.value, a);
        assert!(!back.c);

        let swapped = rotate(RotOp::Swap, a, false);
        assert_eq!(rotate(RotOp::Swap, swapped.value, false).value, a);
        assert_eq!(swapped.value, (a << 4) | (a >> 4));
        assert_eq!(rotate(RotOp::Rlc, a, false).value, a.rotate_left(1));
        assert_eq!(rotate(RotOp::Rrc, a, false).value, a.rotate_right(1));
        assert_eq!(rotate(RotOp::Sla, a, false).value, a << 1);
        assert_eq!(rotate(RotOp::Srl, a, false).value, a >> 1);
        assert_eq!(rotate(RotOp::Sra, a, false).value, ((a as i8) >> 1) as u8);
    }
}

#[test]
fn decimal_adjust_corrects_packed_decimal() {
    // 45 + 38 = 83
    assert_eq!(
        decimal_adjust(0x7D, false, false, false),
        AluResult { value: 0x83, z: false, n: false, h: false, c: false }
    );
    // 99 + 01 = 00, carry
    assert_eq!(
        decimal_adjust(0x9A, false, false, false),
        AluResult { value: 0x00, z: true, n: false, h: false, c: true }
    );
    // 19 + 28 = 47: binary 0x41 with half-carry
    assert_eq!(
        decimal_adjust(0x41, false, true, false),
        AluResult { value: 0x47, z: false, n: false, h: false, c: false }
    );
    // 83 - 38 = 45: binary 0x4B with half-borrow
    assert_eq!(
        decimal_adjust(0x4B, true, true, false),
        AluResult { value: 0x45, z: false, n: true, h: false, c: false }
    );
    // 10 - 20 = 90, borrow: binary 0xF0 with carry
    assert_eq!(
        decimal_adjust(0xF0, true, false, true),
        AluResult { value: 0x90, z: false, n: true, h: false, c: true }
    );
    // After a subtraction the digits themselves ask for nothing.
    assert_eq!(
        decimal_adjust(0x9A, true, false, false),
        AluResult { value: 0x9A, z: false, n: true, h: false, c: false }
    );
}

#[test]
fn offset_word_adds_a_signed_byte() {
    assert_eq!(offset_word(0x1000, 0x05), 0x1005);
    assert_eq!(offset_word(0x1000, 0xFB), 0x0FFB);
    assert_eq!(offset_word(0x0000, 0xFF), 0xFFFF);
    assert_eq!(offset_word(0xFFFF, 0x01), 0x0000);
    assert_eq!(offset_word(0x0080, 0x80), 0x0000);
    assert_eq!(offset_word(0xFF80, 0x7F), 0xFFFF);
}

#[test]
fn mask_of_bit_is_a_power_of_two() {
    for b in 0..8u8 {
        assert_eq!(mask_of_bit(b), 1 << b);
    }
}

#[test]
fn bit_helpers_work_on_masks() {
    assert!(get_bit(0b1010_0000, 0b1000_0000));
    assert!(!get_bit(0b1010_0000, 0b0100_0000));
    assert!(get_bit(0b1010_0000, 0b0110_0000));
    let mut v = 0b0000_1111;
    set_bit(&mut v, 0b0011_0000, true);
    assert_eq!(v, 0b0011_1111);
    set_bit(&mut v, 0b0000_0101, false);
    assert_eq!(v, 0b0011_1010);
    toggle_bit(&mut v, 0b1000_0010);
    assert_eq!(v, 0b1011_1000);
}

#[test]
fn split_and_join_are_little_endian() {
    assert_eq!(split_u16(0x1234), (0x34, 0x12));
    assert_eq!(join_u16(0x34, 0x12), 0x1234);
    for v in [0u16, 1, 0xFF, 0x100, 0x7FFF, 0x8000, 0xFFFF] {
        let (lsb, msb) = split_u16(v);
        assert_eq!(join_u16(lsb, msb), v);
    }
}

#[test]
fn interrupts_have_their_bits_and_handlers() {
    let all = [
        (InterruptMask::VBlank, 0x01u8, 0x0040u16),
        (InterruptMask::LCDStat, 0x02, 0x0048),
        (InterruptMask::Timer, 0x04, 0x0050),
        (InterruptMask::Serial, 0x08, 0x0058),
        (InterruptMask::Joypad, 0x10, 0x0060),
    ];
    for (interrupt, mask, handler) in all {
        assert_eq!(u8::from(interrupt), mask);
        assert_eq!(interrupt.get_handler_address(), handler);
        assert_eq!(InterruptMask::get_interrupt_from_register(mask), Some(interrupt));
    }
}

#[test]
fn the_lowest_interrupt_bit_wins() {
    assert_eq!(InterruptMask::get_interrupt_from_register(0x00), None);
    assert_eq!(InterruptMask::get_interrupt_from_register(0xE0), None);
    assert_eq!(
        InterruptMask::get_interrupt_from_register(0x1F),
        Some(InterruptMask::VBlank)
    );
    assert_eq!(
        InterruptMask::get_interrupt_from_register(0x1E),
        Some(InterruptMask::LCDStat)
    );
    assert_eq!(
        InterruptMask::get_interrupt_from_register(0x1C),
        Some(InterruptMask::Timer)
    );
    assert_eq!(
        InterruptMask::get_interrupt_from_register(0x18),
        Some(InterruptMask::Serial)
    );
    assert_eq!(
        InterruptMask::get_interrupt_from_register(0xF0),
        Some(InterruptMask::Joypad)
    );
}

/// The flags of `a + b + carry` by the masks of the operands.
fn add_by_masks(a: u8, b: u8, carry: u8) -> AluResult {
    let wide = a as u16 + b as u16 + carry as u16;
    AluResult {
        value: wide as u8,
        z: wide as u8 == 0,
        n: false,
        h: (a & 0x0F) + (b & 0x0F) + carry > 0x0F,
        c: wide > 0xFF,
    }
}

/// The flags of `a - b - carry` by the masks of the operands.
fn sub_by_masks(a: u8, b: u8, carry: u8) -> AluResult {
    let value = a.wrapping_sub(b).wrapping_sub(carry);
    AluResult {
        value,
        z: value == 0,
        n: true,
        h: (a & 0x0F) < (b & 0x0F) + carry,
        c: (a as u16) < b as u16 + carry as u16,
    }
}

#[test]
fn every_accumulator_operation_agrees_with_the_mask_formulas() {
    for a in 0..=255u8 {
        for b in 0..=255u8 {
            for carry in [false, true] {
                let cin = carry as u8;
                assert_eq!(alu(AluOp::Add, a, b, carry), add_by_masks(a, b, 0));
                assert_eq!(alu(AluOp::Adc, a, b, carry), add_by_masks(a, b, cin));
                assert_eq!(alu(AluOp::Sub, a, b, carry), sub_by_masks(a, b, 0));
                assert_eq!(alu(AluOp::Sbc, a, b, carry), sub_by_masks(a, b, cin));
                let compared = sub_by_masks(a, b, 0);
                assert_eq!(alu(AluOp::Cp, a, b, carry), AluResult { value: a, ..compared });
                assert_eq!(
                    alu(AluOp::And, a, b, carry),
                    AluResult { value: a & b, z: a & b == 0, n: false, h: true, c: false }
                );
                assert_eq!(
                    alu(AluOp::Xor, a, b, carry),
                    AluResult { value: a ^ b, z: a ^ b == 0, n: false, h: false, c: false }
                );
                assert_eq!(
                    alu(AluOp::Or, a, b, carry),
                    AluResult { value: a | b, z: a | b == 0, n: false, h: false, c: false }
                );
            }
        }
    }
}

#[test]
fn register_arithmetic_agrees_with_the_accumulator_operations() {
    for a in [0x00u8, 0x01, 0x0F, 0x10, 0x7F, 0x80, 0xF0, 0xFF] {
        for b in [0x00u8, 0x01, 0x0F, 0x10, 0x7F, 0x80, 0xF0, 0xFF] {
            for f in [0x00u8, 0x10, 0xE0, 0xF0] {
                let carry = f & 0x10 != 0;
                let run = |op: fn(&mut CPU, Register, u8) -> u8, expect: AluResult| {
                    let mut cpu = CPU::new(a, f, 0, 0, 0, 0, 0, 0, 0, 0);
                    let value = op(&mut cpu, Register::A, b);
                    assert_eq!(value, expect.value);
                    assert_eq!(flags(&cpu), (expect.z, expect.n, expect.h, expect.c));
                    assert_eq!(cpu.a, a);
                };
                run(CPU::add_register, alu(AluOp::Add, a, b, carry));
                run(CPU::adc_register, alu(AluOp::Adc, a, b, carry));
                run(CPU::sub_register, alu(AluOp::Sub, a, b, carry));
                run(CPU::sbc_register, alu(AluOp::Sbc, a, b, carry));
                run(CPU::and_register, alu(AluOp::And, a, b, carry));
                run(CPU::xor_register, alu(AluOp::Xor, a, b, carry));
                run(CPU::or_register, alu(AluOp::Or, a, b, carry));
            }
        }
    }
}

/// Packed-decimal digits of `v`, or `None` when `v` is not packed decimal.
fn decimal(v: u8) -> Option<u32> {
    if v & 0x0F <= 9 && v >> 4 <= 9 {
        Some((v >> 4) as u32 * 10 + (v & 0x0F) as u32)
    } else {
        None
    }
}

#[test]
fn decimal_adjust_makes_the_decimal_sum_and_difference() {
    for x in 0..=0x99u8 {
        for y in 0..=0x99u8 {
            let (Some(dx), Some(dy)) = (decimal(x), decimal(y)) else {
                continue;
            };
            for carry in [false, true] {
                let sum = alu(AluOp::Adc, x, y, carry);
                let adjusted = decimal_adjust(sum.value, sum.n, sum.h, sum.c);
                let expected = dx + dy + carry as u32;
                assert_eq!(decimal(adjusted.value), Some(expected % 100));
                assert_eq!(adjusted.c, expected > 99);
                assert_eq!(adjusted.z, expected % 100 == 0);
                assert!(!adjusted.n && !adjusted.h);

                let difference = alu(AluOp::Sbc, x, y, carry);
                let adjusted = decimal_adjust(difference.value, difference.n, difference.h, difference.c);
                let expected = (100 + dx - dy - carry as u32) % 100;
                assert_eq!(decimal(adjusted.value), Some(expected));
                assert_eq!(adjusted.c, dx < dy + carry as u32);
                assert_eq!(adjusted.z, expected == 0);
                assert!(adjusted.n && !adjusted.h);
            }
        }
    }
}

#[test]
fn increment_and_decrement_agree_with_the_mask_formulas() {
    for v in 0..=255u8 {
        for carry in [false, true] {
            let up = increment(v, carry);
            assert_eq!(up.value, v.wrapping_add(1));
            assert_eq!((up.z, up.n, up.h, up.c), (up.value == 0, false, v & 0x0F == 0x0F, carry));
            let down = decrement(v, carry);
            assert_eq!(down.value, v.wrapping_sub(1));
            assert_eq!((down.z, down.n, down.h, down.c), (down.value == 0, true, v & 0x0F == 0, carry));
        }
    }
}

#[test]
fn add_register_pair_agrees_with_the_mask_formulas() {
    let words = [0x0000u16, 0x0001, 0x00FF, 0x0100, 0x0FFF, 0x1000, 0x7FFF, 0x8000, 0xF000, 0xFFFF];
    for x in words {
        for y in words {
            for f in [0x00u8, 0xF0] {
                let mut cpu = CPU::new(0, f, 0, 0, 0, 0, (x >> 8) as u8, x as u8, 0, 0);
                assert_eq!(cpu.add_register_pair(RegisterPair::HL, y), x.wrapping_add(y));
                let h = (x & 0x0FFF) + (y & 0x0FFF) > 0x0FFF;
                let c = x as u32 + y as u32 > 0xFFFF;
                assert_eq!(flags(&cpu), (f & 0x80 != 0, false, h, c));
                assert_eq!(cpu.get_register_pair(RegisterPair::HL), x);
            }
        }
    }
}
