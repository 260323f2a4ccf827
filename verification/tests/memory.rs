use loki_gb::gb::bus::Bus;
use loki_gb::gb::cartridge::Cartridge;
use loki_gb::gb::cpu::CPU;
use loki_gb::gb::emu::{default_boot_rom, GameboyEmulator};
use loki_gb::gb::io::io_registers::IORegisters;
use loki_gb::gb::io::joypad::{Buttons, JoypadRegisters};
use loki_gb::gb::io::timer::{TIMAOverflowState, TimerRegisters};

/// A 32 KiB image of a cartridge without a mapper whose byte at `i` is
/// `i * 7 + 3`, but for the header bytes that `Cartridge::new` looks at.
fn rom_image() -> Vec<u8> {
    let mut rom: Vec<u8> = (0..0x8000usize).map(|i| (i * 7 + 3) as u8).collect();
    rom[0x0147] = 0x00;
    rom[0x0148] = 0x00;
    rom[0x0149] = 0x02;
    rom
}

fn mapped() -> GameboyEmulator {
    GameboyEmulator::new(Cartridge::new(rom_image()).unwrap())
}

fn flat() -> GameboyEmulator {
    GameboyEmulator::new_flat(CPU::new_init())
}

#[test]
fn echo_ram_mirrors_work_ram() {
    let mut emu = mapped();
    for (i, a) in [0xC000u16, 0xC001, 0xCFFF, 0xD000, 0xDDFE, 0xDDFF].into_iter().enumerate() {
        let v = 0x40 + i as u8;
        Bus::write(&mut emu, a, v);
        assert_eq!(Bus::read(&emu, a), v);
        assert_eq!(Bus::read(&emu, a + 0x2000), v);
        Bus::write(&mut emu, a + 0x2000, !v);
        assert_eq!(Bus::read(&emu, a), !v);
    }
    // The top of work RAM has no echo.
    Bus::write(&mut emu, 0xDE00, 0x77);
    assert_eq!(Bus::read(&emu, 0xDE00), 0x77);
    assert_eq!(emu.bus.wram[0x1E00], 0x77);
}

#[test]
fn prohibited_region_reads_ff_and_drops_writes() {
    let mut emu = mapped();
    for a in 0xFEA0..=0xFEFFu16 {
        Bus::write(&mut emu, a, 0x12);
        assert_eq!(Bus::read(&emu, a), 0xFF);
    }
    Bus::write(&mut emu, 0xC000, 0x34);
    assert_eq!(Bus::read(&emu, 0xFEA0), 0xFF);
    assert_eq!(Bus::read(&emu, 0xFEFF), 0xFF);
    // Object memory next to it is untouched.
    assert_eq!(Bus::read(&emu, 0xFE9F), 0x00);
}

#[test]
fn boot_rom_is_mapped_until_ff50_is_written() {
    let mut emu = mapped();
    let boot = default_boot_rom();
    let rom = rom_image();
    for a in 0..=0xFFu16 {
        assert_eq!(Bus::read(&emu, a), boot[a as usize]);
    }
    assert_eq!(Bus::read(&emu, 0x0100), rom[0x0100]);
    // A write of zero leaves it mapped.
    Bus::write(&mut emu, 0xFF50, 0x00);
    assert_eq!(Bus::read(&emu, 0x0000), 0x31);
    Bus::write(&mut emu, 0xFF50, 0x01);
    for a in 0..=0xFFu16 {
        assert_eq!(Bus::read(&emu, a), rom[a as usize]);
    }
    // Nothing maps it again.
    Bus::write(&mut emu, 0xFF50, 0x00);
    assert_eq!(Bus::read(&emu, 0xFF50), 0x01);
    Bus::write(&mut emu, 0xFF50, 0x80);
    Bus::write(&mut emu, 0x0000, 0x55);
    for a in 0..=0xFFu16 {
        assert_eq!(Bus::read(&emu, a), rom[a as usize]);
    }
}

#[test]
fn the_boot_program_hands_over_at_0100() {
    let mut emu = mapped();
    // LD SP (3), JP (4), LD A (2), LDH (3)
    emu.run(12);
    assert_eq!(emu.cpu.pc, 0x0100);
    assert_eq!(emu.cpu.sp, 0xFFFE);
    assert_eq!(emu.cpu.a, 0x01);
    assert_eq!(emu.io_registers.boot_rom_control, 0x01);
    assert!(emu.current_instruction.has_completed());
    assert_eq!(Bus::read(&emu, 0x0000), rom_image()[0]);
}

#[test]
fn rom_ignores_writes_and_reads_ff_past_its_end() {
    let mut emu = mapped();
    let rom = rom_image();
    Bus::write(&mut emu, 0x0150, 0x99);
    Bus::write(&mut emu, 0x4000, 0x99);
    Bus::write(&mut emu, 0x7FFF, 0x99);
    assert_eq!(Bus::read(&emu, 0x0150), rom[0x0150]);
    assert_eq!(Bus::read(&emu, 0x4000), rom[0x4000]);
    assert_eq!(Bus::read(&emu, 0x7FFF), rom[0x7FFF]);

    let mut empty = GameboyEmulator::new(Cartridge::new_empty());
    Bus::write(&mut empty, 0xFF50, 1);
    assert_eq!(Bus::read(&empty, 0x0000), 0xFF);
    assert_eq!(Bus::read(&empty, 0x7FFF), 0xFF);
    assert_eq!(Bus::read(&empty, 0xA000), 0xFF);
}

#[test]
fn each_ram_region_stores_its_bytes() {
    let mut emu = mapped();
    let cells = [0x8000u16, 0x9FFF, 0xA000, 0xBFFF, 0xC000, 0xDFFF, 0xFE00, 0xFE9F, 0xFF80, 0xFFFE];
    for (i, a) in cells.into_iter().enumerate() {
        Bus::write(&mut emu, a, 0x10 + i as u8);
    }
    for (i, a) in cells.into_iter().enumerate() {
        assert_eq!(Bus::read(&emu, a), 0x10 + i as u8);
    }
    assert_eq!(emu.bus.vram[0], 0x10);
    assert_eq!(emu.bus.vram[0x1FFF], 0x11);
    assert_eq!(emu.bus.cartridge.ram[0], 0x12);
    assert_eq!(emu.bus.cartridge.ram[0x1FFF], 0x13);
    assert_eq!(emu.bus.wram[0], 0x14);
    assert_eq!(emu.bus.wram[0x1FFF], 0x15);
    assert_eq!(emu.bus.oam[0], 0x16);
    assert_eq!(emu.bus.oam[159], 0x17);
    assert_eq!(emu.bus.hram[0], 0x18);
    assert_eq!(emu.bus.hram[126], 0x19);
}

#[test]
fn external_ram_is_as_large_as_the_header_says() {
    let mut rom = rom_image();
    rom[0x0149] = 0x01;
    let mut emu = GameboyEmulator::new(Cartridge::new(rom).unwrap());
    assert_eq!(emu.bus.cartridge.ram_size, 0x800);
    Bus::write(&mut emu, 0xA7FF, 0x21);
    Bus::write(&mut emu, 0xA800, 0x22);
    assert_eq!(Bus::read(&emu, 0xA7FF), 0x21);
    assert_eq!(Bus::read(&emu, 0xA800), 0xFF);

    let mut rom = rom_image();
    rom[0x0149] = 0x00;
    let mut emu = GameboyEmulator::new(Cartridge::new(rom).unwrap());
    Bus::write(&mut emu, 0xA000, 0x21);
    assert_eq!(Bus::read(&emu, 0xA000), 0xFF);
}

#[test]
fn flat_memory_stores_every_address() {
    let mut emu = flat();
    for a in [0x0000u16, 0x00FF, 0x4000, 0x8000, 0xE000, 0xFEA0, 0xFF00, 0xFF46, 0xFF50, 0xFFFF] {
        Bus::write(&mut emu, a, (a >> 8) as u8 ^ 0x5A);
    }
    for a in [0x0000u16, 0x00FF, 0x4000, 0x8000, 0xE000, 0xFEA0, 0xFF00, 0xFF46, 0xFF50, 0xFFFF] {
        assert_eq!(Bus::read(&emu, a), (a >> 8) as u8 ^ 0x5A);
    }
    // No echo, no I/O behind it.
    assert_eq!(Bus::read(&emu, 0xC000), 0x00);
    assert_eq!(emu.io_registers.graphics.DMA_transfer_progress, None);
    assert_eq!(emu.io_registers.boot_rom_control, 0);
    let ram = Bus::reset_test_ram(&mut emu);
    assert_eq!(ram[0xFF46], 0xFF ^ 0x5A);
    assert_eq!(Bus::read(&emu, 0xFF46), 0x00);
    assert_eq!(Bus::read(&emu, 0xFFFF), 0x00);
}

#[test]
fn oam_dma_copies_one_byte_per_machine_cycle() {
    let mut emu = mapped();
    Bus::write(&mut emu, 0xFF50, 1);
    // A halted CPU leaves the bus to the DMA engine.
    emu.is_halted = true;
    for i in 0..160u16 {
        Bus::write(&mut emu, 0xC000 + i, i as u8);
    }
    Bus::write(&mut emu, 0xFF46, 0xC0);
    assert_eq!(emu.io_registers.graphics.DMA, 0xC0);
    assert_eq!(emu.io_registers.graphics.DMA_transfer_progress, Some(0));
    for cycle in 0..160u16 {
        // Locked out: the write is dropped, the read sees the byte in transfer.
        Bus::write(&mut emu, 0xC000 + cycle, 0xEE);
        Bus::write(&mut emu, 0x8000, 0xEE);
        Bus::write(&mut emu, 0xFE00, 0xEE);
        Bus::write(&mut emu, 0xFF47, 0xEE);
        assert_eq!(Bus::read(&emu, 0x8000), cycle as u8);
        assert_eq!(Bus::read(&emu, 0x0000), cycle as u8);
        // High RAM stays open.
        Bus::write(&mut emu, 0xFF80, cycle as u8);
        assert_eq!(Bus::read(&emu, 0xFF80), cycle as u8);
        emu.step();
        if cycle < 159 {
            assert_eq!(emu.io_registers.graphics.DMA_transfer_progress, Some(cycle as u8 + 1));
        }
    }
    assert_eq!(emu.io_registers.graphics.DMA_transfer_progress, None);
    for i in 0..160usize {
        assert_eq!(emu.bus.oam[i], i as u8);
        assert_eq!(Bus::read(&emu, 0xFE00 + i as u16), i as u8);
        assert_eq!(Bus::read(&emu, 0xC000 + i as u16), i as u8);
    }
    assert_eq!(Bus::read(&emu, 0x8000), 0x00);
    assert_eq!(Bus::read(&emu, 0xFF47), 0x00);
    // The bus is open again.
    Bus::write(&mut emu, 0x8000, 0x5A);
    assert_eq!(Bus::read(&emu, 0x8000), 0x5A);
}

#[test]
fn dma_engine_gives_up_an_index_out_of_range() {
    let mut emu = mapped();
    emu.is_halted = true;
    emu.io_registers.graphics.DMA_transfer_progress = Some(200);
    emu.step();
    assert_eq!(emu.io_registers.graphics.DMA_transfer_progress, None);
    assert_eq!(emu.bus.oam, [0u8; 160]);
}

#[test]
fn io_registers_read_back_with_their_unused_bits_set() {
    let mut emu = mapped();
    // Serial.
    IORegisters::write(&mut emu, 0x01, 0x41);
    IORegisters::write(&mut emu, 0x02, 0x81);
    assert_eq!(IORegisters::read(&emu, 0x01), 0x41);
    assert_eq!(IORegisters::read(&emu, 0x02), 0x81);
    // Timer.
    IORegisters::write(&mut emu, 0x05, 0x12);
    IORegisters::write(&mut emu, 0x06, 0x34);
    IORegisters::write(&mut emu, 0x07, 0x05);
    assert_eq!(IORegisters::read(&emu, 0x05), 0x12);
    assert_eq!(IORegisters::read(&emu, 0x06), 0x34);
    assert_eq!(IORegisters::read(&emu, 0x07), 0xFD);
    // Interrupts.
    IORegisters::write(&mut emu, 0x0F, 0x05);
    IORegisters::write(&mut emu, 0xFF, 0x1A);
    assert_eq!(IORegisters::read(&emu, 0x0F), 0xE5);
    assert_eq!(IORegisters::read(&emu, 0xFF), 0xFA);
    assert_eq!(emu.io_registers.interrupts.IF, 0x05);
    assert_eq!(emu.io_registers.interrupts.IE, 0x1A);
    assert_eq!(emu.io_registers.interrupts.get_pending(), 0x00);
    IORegisters::write(&mut emu, 0xFF, 0x1F);
    assert_eq!(emu.io_registers.interrupts.get_pending(), 0x05);
    // Graphics.
    let plain = [0x40usize, 0x42, 0x43, 0x44, 0x45, 0x47, 0x48, 0x49, 0x4A, 0x4B];
    for (i, index) in plain.into_iter().enumerate() {
        IORegisters::write(&mut emu, index, 0x30 + i as u8);
    }
    for (i, index) in plain.into_iter().enumerate() {
        assert_eq!(IORegisters::read(&emu, index), 0x30 + i as u8);
    }
    IORegisters::write(&mut emu, 0x41, 0x03);
    assert_eq!(IORegisters::read(&emu, 0x41), 0x83);
    assert_eq!(emu.io_registers.graphics.LCDC, 0x30);
    assert_eq!(emu.io_registers.graphics.WX, 0x39);
    // Wave RAM.
    for i in 0..16usize {
        IORegisters::write(&mut emu, 0x30 + i, 0xA0 + i as u8);
    }
    for i in 0..16usize {
        assert_eq!(IORegisters::read(&emu, 0x30 + i), 0xA0 + i as u8);
    }
}

#[test]
fn audio_and_unmapped_registers_read_ff_and_drop_writes() {
    let mut emu = mapped();
    for index in (0x10..=0x26usize).chain([0x03, 0x08, 0x0E, 0x27, 0x2F, 0x4C, 0x4F, 0x51, 0x7F, 0xFE, 0x100, 0xFFFF]) {
        IORegisters::write(&mut emu, index, 0x12);
        assert_eq!(IORegisters::read(&emu, index), 0xFF);
    }
    assert_eq!(Bus::read(&emu, 0xFF10), 0xFF);
    assert_eq!(Bus::read(&emu, 0xFF26), 0xFF);
    assert_eq!(Bus::read(&emu, 0xFF03), 0xFF);
    assert_eq!(Bus::read(&emu, 0xFF7F), 0xFF);
}

#[test]
fn the_bus_reaches_the_io_registers() {
    let mut emu = mapped();
    Bus::write(&mut emu, 0xFF06, 0x77);
    assert_eq!(emu.io_registers.timer.TMA, 0x77);
    assert_eq!(Bus::read(&emu, 0xFF06), 0x77);
    Bus::write(&mut emu, 0xFFFF, 0x04);
    assert_eq!(emu.io_registers.interrupts.IE, 0x04);
    assert_eq!(Bus::read(&emu, 0xFFFF), 0xE4);
    Bus::write(&mut emu, 0xFF01, 0x42);
    assert_eq!(emu.io_registers.serial.SB, 0x42);
}

#[test]
fn div_reads_the_high_byte_and_resets_on_any_write() {
    let mut emu = mapped();
    emu.io_registers.timer.DIV = 0xAB12;
    assert_eq!(IORegisters::read(&emu, 0x04), 0xAB);
    assert_eq!(emu.io_registers.timer.read_DIV(), 0xAB);
    IORegisters::write(&mut emu, 0x04, 0x99);
    assert_eq!(emu.io_registers.timer.DIV, 0x0000);
    assert_eq!(IORegisters::read(&emu, 0x04), 0x00);
}

#[test]
fn div_advances_four_per_machine_cycle() {
    let mut emu = mapped();
    emu.is_halted = true;
    emu.step();
    assert_eq!(emu.io_registers.timer.DIV, 4);
    emu.run(63);
    assert_eq!(emu.io_registers.timer.DIV, 256);
    assert_eq!(Bus::read(&emu, 0xFF04), 1);
    emu.io_registers.timer.DIV = 0xFFFE;
    emu.step();
    assert_eq!(emu.io_registers.timer.DIV, 0x0002);
}

#[test]
fn tima_reloads_four_t_cycles_after_it_overflows() {
    let mut timer = TimerRegisters::new();
    timer.TIMA = 0xFF;
    timer.TMA = 0xAB;
    timer.TAC = 0x05;
    // Bit 3 of DIV rises at 8 and falls at 16.
    for _ in 0..15 {
        assert!(!timer.tick_once());
    }
    assert_eq!(timer.TIMA, 0xFF);
    assert!(timer.prev_and_result);
    // The overflow increment.
    assert!(!timer.tick_once());
    assert_eq!(timer.DIV, 16);
    assert_eq!(timer.TIMA, 0x00);
    assert_eq!(timer.TIMA_overflow_state, TIMAOverflowState::Overflowed { cycles: 0 });
    for cycles in 1..=2u8 {
        assert!(!timer.tick_once());
        assert_eq!(timer.TIMA, 0x00);
        assert_eq!(timer.TIMA_overflow_state, TIMAOverflowState::Overflowed { cycles });
    }
    assert!(!timer.tick_once());
    assert_eq!(timer.TIMA, 0x00);
    assert_eq!(timer.TIMA_overflow_state, TIMAOverflowState::SettingToTMA);
    // Four t-cycles after the increment: the reload and the interrupt.
    assert!(timer.tick_once());
    assert_eq!(timer.DIV, 20);
    assert_eq!(timer.TIMA, 0xAB);
    assert_eq!(timer.TIMA_overflow_state, TIMAOverflowState::NotOverflowed);
    assert!(!timer.tick_once());
}

#[test]
fn timer_overflow_requests_the_interrupt_one_machine_cycle_later() {
    let mut emu = mapped();
    emu.is_halted = true;
    Bus::write(&mut emu, 0xFF05, 0xFF);
    Bus::write(&mut emu, 0xFF06, 0xAB);
    Bus::write(&mut emu, 0xFF07, 0x05);
    emu.run(3);
    assert_eq!(emu.io_registers.timer.TIMA, 0xFF);
    emu.step();
    // DIV is 16: the overflow fell on the last t-cycle of this machine cycle.
    assert_eq!(emu.io_registers.timer.TIMA, 0x00);
    assert_eq!(Bus::read(&emu, 0xFF0F) & 0x04, 0x00);
    emu.step();
    assert_eq!(emu.io_registers.timer.TIMA, 0xAB);
    assert_eq!(Bus::read(&emu, 0xFF0F) & 0x04, 0x04);
}

#[test]
fn timer_at_4096_hz_reloads_after_1024_t_cycles() {
    // TAC selects bit 9 of DIV, which falls every 1024 t-cycles. From DIV = 4
    // it falls after 1020 t-cycles, and the reload comes four later.
    let mut emu = mapped();
    emu.is_halted = true;
    Bus::write(&mut emu, 0xFF07, 0x04);
    Bus::write(&mut emu, 0xFF05, 0xFF);
    Bus::write(&mut emu, 0xFF06, 0xA0);
    emu.io_registers.timer.DIV = 4;
    emu.run(255);
    assert_eq!(emu.io_registers.timer.DIV, 1024);
    assert_eq!(emu.io_registers.timer.TIMA, 0x00);
    assert_eq!(emu.io_registers.interrupts.IF & 0x04, 0x00);
    emu.step();
    assert_eq!(emu.io_registers.timer.TIMA, 0xA0);
    assert_eq!(emu.io_registers.interrupts.IF & 0x04, 0x04);
}

#[test]
fn timer_with_tac_05_reloads_twenty_t_cycles_after_div_reset() {
    // TAC = 0x05 selects bit 3 of DIV, which falls every 16 t-cycles.
    let mut emu = mapped();
    emu.is_halted = true;
    Bus::write(&mut emu, 0xFF07, 0x05);
    Bus::write(&mut emu, 0xFF05, 0xFF);
    Bus::write(&mut emu, 0xFF06, 0xA0);
    Bus::write(&mut emu, 0xFF04, 0x00);
    emu.run(5);
    assert_eq!(emu.io_registers.timer.DIV, 20);
    assert_eq!(emu.io_registers.timer.TIMA, 0xA0);
    assert_eq!(emu.io_registers.interrupts.IF & 0x04, 0x04);
    // It goes on counting from TMA: 63 more falling edges up to 1024.
    emu.run(251);
    assert_eq!(emu.io_registers.timer.DIV, 1024);
    assert_eq!(emu.io_registers.timer.TIMA, 0xA0 + 63);
}

#[test]
fn each_tac_selector_taps_its_bit() {
    for (tac, period) in [(0x04u8, 1024u32), (0x05, 16), (0x06, 64), (0x07, 256)] {
        let mut timer = TimerRegisters::new();
        timer.TAC = tac;
        for _ in 0..period - 1 {
            timer.tick_once();
        }
        assert_eq!(timer.TIMA, 0, "before the edge of TAC {tac:#04X}");
        timer.tick_once();
        assert_eq!(timer.TIMA, 1, "at the edge of TAC {tac:#04X}");
        for _ in 0..period {
            timer.tick_once();
        }
        assert_eq!(timer.TIMA, 2);
    }
    // Disabled: TIMA stands still.
    let mut timer = TimerRegisters::new();
    timer.TAC = 0x01;
    for _ in 0..4096 {
        timer.tick_once();
    }
    assert_eq!(timer.TIMA, 0);
    assert_eq!(timer.DIV, 4096);
}

#[test]
fn writing_div_can_increment_tima() {
    let mut emu = mapped();
    emu.is_halted = true;
    Bus::write(&mut emu, 0xFF07, 0x05);
    // DIV = 12: bit 3 is set and sampled.
    emu.run(3);
    assert!(emu.io_registers.timer.prev_and_result);
    assert_eq!(emu.io_registers.timer.TIMA, 0);
    Bus::write(&mut emu, 0xFF04, 0x00);
    emu.step();
    assert_eq!(emu.io_registers.timer.DIV, 4);
    assert_eq!(emu.io_registers.timer.TIMA, 1);
}

#[test]
fn tima_write_is_ignored_on_the_reload_cycle() {
    let mut timer = TimerRegisters::new();
    timer.TIMA = 0x00;
    timer.TIMA_overflow_state = TIMAOverflowState::SettingToTMA;
    timer.write_TIMA(0x42);
    assert_eq!(timer.TIMA, 0x00);
    assert_eq!(timer.TIMA_overflow_state, TIMAOverflowState::SettingToTMA);

    // While the overflow is pending the write is taken and the reload called off.
    let mut timer = TimerRegisters::new();
    timer.TMA = 0x99;
    timer.TIMA_overflow_state = TIMAOverflowState::Overflowed { cycles: 1 };
    timer.write_TIMA(0x42);
    assert_eq!(timer.TIMA, 0x42);
    assert_eq!(timer.TIMA_overflow_state, TIMAOverflowState::NotOverflowed);
    for _ in 0..8 {
        assert!(!timer.tick_once());
    }
    assert_eq!(timer.TIMA, 0x42);

    let mut timer = TimerRegisters::new();
    timer.write_TIMA(0x17);
    assert_eq!(timer.TIMA, 0x17);
    timer.write_DIV();
    assert_eq!(timer.DIV, 0);
    assert_eq!(timer.read_TAC(), 0xF8);
}

#[test]
fn joypad_shows_the_selected_buttons_as_zero_bits() {
    let mut emu = mapped();
    assert_eq!(emu.io_registers.joypad.input_state, 0x0F);
    let mut buttons = Buttons::released();
    buttons.button_right = true;
    buttons.button_down = true;
    buttons.button_a = true;
    assert_eq!(buttons.get_directional(), 0b1001);
    assert_eq!(buttons.get_nondirectional(), 0b0001);

    // Both halves selected.
    JoypadRegisters::update(&mut emu, buttons);
    assert_eq!(emu.io_registers.joypad.input_state, 0b0000_0110);
    assert_eq!(Bus::read(&emu, 0xFF00), 0b1100_0110);
    assert_eq!(emu.io_registers.interrupts.IF & 0x10, 0x10);

    // Directions only.
    emu.io_registers.interrupts.IF = 0;
    Bus::write(&mut emu, 0xFF00, 0b0010_0000);
    JoypadRegisters::update(&mut emu, buttons);
    assert_eq!(Bus::read(&emu, 0xFF00), 0b1110_0110);
    assert_eq!(emu.io_registers.interrupts.IF & 0x10, 0x00);

    // Actions only.
    Bus::write(&mut emu, 0xFF00, 0b0001_0000);
    JoypadRegisters::update(&mut emu, buttons);
    assert_eq!(Bus::read(&emu, 0xFF00), 0b1101_1110);

    // Neither.
    Bus::write(&mut emu, 0xFF00, 0b0011_0000);
    JoypadRegisters::update(&mut emu, buttons);
    assert_eq!(Bus::read(&emu, 0xFF00), 0b1111_1111);
    assert_eq!(emu.io_registers.interrupts.IF & 0x10, 0x00);
}

#[test]
fn a_button_press_requests_the_joypad_interrupt_once() {
    let mut emu = mapped();
    emu.is_halted = true;
    emu.update(Buttons::released());
    assert_eq!(emu.io_registers.interrupts.IF & 0x10, 0x00);
    let mut buttons = Buttons::released();
    buttons.button_start = true;
    emu.update(buttons);
    assert_eq!(emu.io_registers.joypad.input_state & 0x0F, 0b0111);
    assert_eq!(emu.io_registers.interrupts.IF & 0x10, 0x10);
    emu.io_registers.interrupts.IF = 0;
    // Held: no new edge.
    emu.update(buttons);
    assert_eq!(emu.io_registers.interrupts.IF & 0x10, 0x00);
    emu.update(Buttons::released());
    assert_eq!(emu.io_registers.joypad.input_state & 0x0F, 0b1111);
    assert_eq!(emu.io_registers.interrupts.IF & 0x10, 0x00);
}

#[test]
fn joypad_write_takes_the_select_bits_only() {
    let mut joypad = JoypadRegisters::new();
    joypad.write(0xFF);
    assert_eq!(joypad.input_state, 0b0011_1111);
    assert_eq!(joypad.read(), 0xFF);
    joypad.write(0x00);
    assert_eq!(joypad.input_state, 0b0000_1111);
    joypad.write(0b1101_0000);
    assert_eq!(joypad.input_state, 0b0001_1111);
}

#[test]
fn every_button_has_its_line() {
    let b = |f: fn(&mut Buttons)| {
        let mut buttons = Buttons::released();
        f(&mut buttons);
        (buttons.get_directional(), buttons.get_nondirectional())
    };
    assert_eq!(b(|b| b.button_right = true), (1, 0));
    assert_eq!(b(|b| b.button_left = true), (2, 0));
    assert_eq!(b(|b| b.button_up = true), (4, 0));
    assert_eq!(b(|b| b.button_down = true), (8, 0));
    assert_eq!(b(|b| b.button_a = true), (0, 1));
    assert_eq!(b(|b| b.button_b = true), (0, 2));
    assert_eq!(b(|b| b.button_select = true), (0, 4));
    assert_eq!(b(|b| b.button_start = true), (0, 8));
}

#[test]
fn power_on_and_reset_give_the_same_machine() {
    let mut emu = mapped();
    assert_eq!(emu.cpu, CPU::new_init());
    assert!(!emu.is_halted && !emu.halt_bug && emu.invalid_opcode.is_none());
    assert!(emu.current_instruction.has_completed());
    emu.run(1000);
    Bus::write(&mut emu, 0xC123, 0x45);
    Bus::write(&mut emu, 0xFF80, 0x45);
    Bus::write(&mut emu, 0xFF46, 0xC0);
    emu.reset();
    assert_eq!(emu.cpu, CPU::new_init());
    assert_eq!(emu.io_registers.boot_rom_control, 0);
    assert_eq!(emu.io_registers.timer, TimerRegisters::new());
    assert_eq!(emu.io_registers.graphics.DMA_transfer_progress, None);
    assert_eq!(emu.io_registers.joypad.input_state, 0x0F);
    assert_eq!(Bus::read(&emu, 0xC123), 0x00);
    assert_eq!(Bus::read(&emu, 0xFF80), 0x00);
    assert_eq!(Bus::read(&emu, 0x0000), 0x31);
    assert_eq!(Bus::read(&emu, 0x0100), rom_image()[0x0100]);
    assert!(emu.current_instruction.has_completed());
    assert!(!emu.bus.flat);
}

#[test]
fn dma_lock_out_drops_every_write_outside_high_ram() {
    let mut emu = mapped();
    Bus::write(&mut emu, 0xFF50, 1);
    Bus::write(&mut emu, 0xD000, 0x11);
    Bus::write(&mut emu, 0xFF46, 0xD0);
    let addresses = [
        0x0000u16, 0x7FFF, 0x8000, 0x9FFF, 0xA000, 0xBFFF, 0xC000, 0xDFFF, 0xE000, 0xFDFF, 0xFE00,
        0xFE9F, 0xFEA0, 0xFF00, 0xFF04, 0xFF0F, 0xFF46, 0xFF50, 0xFF7F, 0xFFFF,
    ];
    for a in addresses {
        Bus::write(&mut emu, a, 0x99);
        // Every read outside high RAM sees the byte in transfer.
        assert_eq!(Bus::read(&emu, a), 0x11);
    }
    assert_eq!(emu.io_registers.graphics.DMA, 0xD0);
    assert_eq!(emu.io_registers.graphics.DMA_transfer_progress, Some(0));
    assert_eq!(emu.io_registers.interrupts.IE, 0x00);
    assert_eq!(emu.io_registers.interrupts.IF, 0x00);
    // Past the lock-out the memory is as it was.
    for a in addresses {
        let expected = Bus::decode_read(&emu, a);
        assert_ne!(expected, 0x99, "at {a:#06X}");
    }
    assert_eq!(Bus::decode_read(&emu, 0xD000), 0x11);
    for a in [0xFF80u16, 0xFFC0, 0xFFFE] {
        Bus::write(&mut emu, a, 0x99);
        assert_eq!(Bus::read(&emu, a), 0x99);
    }
}

#[test]
fn the_memory_map_can_be_reached_past_the_lock_out() {
    let mut emu = mapped();
    Bus::write(&mut emu, 0xFF46, 0xC0);
    Bus::decode_write(&mut emu, 0xC005, 0x42);
    assert_eq!(Bus::decode_read(&emu, 0xC005), 0x42);
    assert_eq!(Bus::decode_read(&emu, 0xE005), 0x42);
    assert_eq!(Bus::read(&emu, 0xC005), 0x00);
    Bus::decode_write(&mut emu, 0xFEA0, 0x42);
    assert_eq!(Bus::decode_read(&emu, 0xFEA0), 0xFF);
}

#[test]
fn the_timer_bit_of_if_is_set_past_the_lock_out() {
    let mut emu = mapped();
    emu.is_halted = true;
    Bus::write(&mut emu, 0xFF07, 0x05);
    Bus::write(&mut emu, 0xFF05, 0xFF);
    Bus::write(&mut emu, 0xFF46, 0xC0);
    emu.run(5);
    assert_eq!(emu.io_registers.interrupts.IF & 0x04, 0x04);
    assert!(emu.io_registers.graphics.DMA_transfer_progress.is_some());
}

#[test]
fn the_detector_samples_the_tapped_bit_and_the_enable() {
    let mut timer = TimerRegisters::new();
    timer.DIV = 0x0008;
    timer.TAC = 0x05;
    assert!(timer.sample());
    timer.TAC = 0x01;
    assert!(!timer.sample());
    timer.TAC = 0x04;
    assert!(!timer.sample());
    timer.DIV = 0x0200;
    assert!(timer.sample());
    timer.TAC = 0x06;
    assert!(!timer.sample());
    timer.DIV = 0x0020;
    assert!(timer.sample());
    timer.TAC = 0x07;
    timer.DIV = 0x0080;
    assert!(timer.sample());
    timer.DIV = 0xFF7F;
    assert!(!timer.sample());
}

#[test]
fn one_timer_tick_on_the_emulator_requests_the_interrupt_on_reload() {
    let mut emu = mapped();
    emu.io_registers.timer.TMA = 0x33;
    emu.io_registers.timer.TIMA_overflow_state = TIMAOverflowState::SettingToTMA;
    TimerRegisters::tick_emulator(&mut emu);
    assert_eq!(emu.io_registers.timer.TIMA, 0x33);
    assert_eq!(emu.io_registers.timer.DIV, 1);
    assert_eq!(emu.io_registers.interrupts.IF, 0x04);
    TimerRegisters::tick_emulator(&mut emu);
    TimerRegisters::update(&mut emu);
    assert_eq!(emu.io_registers.timer.DIV, 6);
    assert_eq!(emu.io_registers.interrupts.IF, 0x04);
}

#[test]
fn dma_copies_its_page_while_the_cpu_writes_to_it() {
    let mut emu = mapped();
    Bus::write(&mut emu, 0xFF50, 1);
    for i in 0..160u16 {
        Bus::write(&mut emu, 0xC000 + i, i as u8);
    }
    // In high RAM: LD HL,0xC000; LD (HL),0xEE; INC L; JR -5
    for (i, byte) in [0x21, 0x00, 0xC0, 0x36, 0xEE, 0x2C, 0x18, 0xFB].into_iter().enumerate() {
        Bus::write(&mut emu, 0xFF80 + i as u16, byte);
    }
    emu.cpu.pc = 0xFF80;
    Bus::write(&mut emu, 0xFF46, 0xC0);
    emu.run(159);
    assert_eq!(emu.io_registers.graphics.DMA_transfer_progress, Some(159));
    // The CPU ran all the while: 3 cycles, then 22 rounds of 7, and none of
    // its 22 writes arrived.
    assert_eq!(emu.cpu.l, 22);
    for i in 0..160u16 {
        assert_eq!(Bus::decode_read(&emu, 0xC000 + i), i as u8);
    }
    for i in 0..159usize {
        assert_eq!(emu.bus.oam[i], i as u8);
    }
    // The 160th cycle copies the last byte and ends the transfer; the write
    // that the CPU makes in it arrives.
    emu.run(1);
    assert_eq!(emu.io_registers.graphics.DMA_transfer_progress, None);
    for i in 0..160usize {
        assert_eq!(emu.bus.oam[i], i as u8);
    }
    assert_eq!(Bus::read(&emu, 0xC000 + 22), 0xEE);
    assert_eq!(Bus::read(&emu, 0xC000 + 21), 21);
}
