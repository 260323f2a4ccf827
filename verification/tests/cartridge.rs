use loki_gb::gb::cartridge::{nintendo_logo, Cartridge, CartridgeError, CartridgeHeader};

fn image(title: &[u8]) -> Vec<u8> {
    let mut rom = vec![0u8; 0x8000];
    rom[0x0100..0x0104].copy_from_slice(&[0x00, 0xC3, 0x50, 0x01]);
    rom[0x0104..0x0134].copy_from_slice(&nintendo_logo());
    rom[0x0134..0x0134 + title.len()].copy_from_slice(title);
    rom[0x0147] = 0x00;
    rom[0x0148] = 0x00;
    rom[0x0149] = 0x00;
    let mut sum: u8 = 0;
    for address in 0x0134..=0x014C {
        sum = sum.wrapping_sub(rom[address]).wrapping_sub(1);
    }
    rom[0x014D] = sum;
    rom
}

fn header(title: &[u8]) -> CartridgeHeader {
    CartridgeHeader::from_rom(&image(title)).unwrap()
}

#[test]
fn title_is_read_without_its_padding() {
    assert_eq!(header(b"TETRIS").get_title().unwrap(), "TETRIS");
    assert_eq!(header(b"SUPER MARIOLAND\0").get_title().unwrap(), "SUPER MARIOLAND");
    assert_eq!(header(b"0123456789ABCDEF").get_title().unwrap(), "0123456789ABCDEF");
    assert_eq!(header(b"").get_title().unwrap(), "");
    // Padding in the middle is dropped too.
    assert_eq!(header(b"A\0B\0\0C").get_title().unwrap(), "ABC");
    // Two bytes of UTF-8 make one character.
    assert_eq!(header(&[0xC3, 0xA9]).get_title().unwrap(), "\u{e9}");
}

#[test]
fn title_that_is_not_utf8_is_an_error() {
    assert!(header(&[b'A', 0xFF, b'B']).get_title().is_err());
    assert!(header(&[0xC3]).get_title().is_err());
    assert!(header(&[0x80]).get_title().is_err());
}

#[test]
fn rom_size_codes_follow_the_table() {
    let sizes = [
        (0x00u8, 32usize),
        (0x01, 64),
        (0x02, 128),
        (0x03, 256),
        (0x04, 512),
        (0x05, 1024),
        (0x06, 2048),
        (0x07, 4096),
        (0x08, 8192),
    ];
    for (code, kib) in sizes {
        let mut h = header(b"X");
        h.bytes[0x0148] = code;
        assert_eq!(h.get_rom_size(), Some(kib * 1024));
    }
    for code in [0x09u8, 0x52, 0x53, 0x54, 0xFF] {
        let mut h = header(b"X");
        h.bytes[0x0148] = code;
        assert_eq!(h.get_rom_size(), None);
    }
}

#[test]
fn ram_size_codes_follow_the_table() {
    let sizes = [(0x00u8, 0usize), (0x01, 2), (0x02, 8), (0x03, 32), (0x04, 128), (0x05, 64)];
    for (code, kib) in sizes {
        let mut h = header(b"X");
        h.bytes[0x0149] = code;
        assert_eq!(h.get_ram_size(), Some(kib * 1024));
    }
    for code in [0x06u8, 0x07, 0xFF] {
        let mut h = header(b"X");
        h.bytes[0x0149] = code;
        assert_eq!(h.get_ram_size(), None);
    }
}

#[test]
fn header_checksum_is_the_negated_sum_less_25() {
    let h = header(b"TETRIS");
    assert!(h.has_valid_checksum());
    let sum: u32 = h.bytes[0x0134..=0x014C].iter().map(|b| *b as u32).sum();
    assert_eq!(h.compute_header_checksum(), (0u32.wrapping_sub(sum).wrapping_sub(25) % 256) as u8);
    // "TETRIS" and zeros: 0x54 + 0x45 + 0x54 + 0x52 + 0x49 + 0x53 = 0x1DB.
    assert_eq!(h.compute_header_checksum(), 0x0C);

    let mut broken = h;
    broken.bytes[0x0134] ^= 0x01;
    assert!(!broken.has_valid_checksum());
    let mut broken = h;
    broken.bytes[0x014D] = broken.bytes[0x014D].wrapping_add(1);
    assert!(!broken.has_valid_checksum());
    // A byte outside the range does not count.
    let mut other = h;
    other.bytes[0x0133] ^= 0xFF;
    other.bytes[0x014E] ^= 0xFF;
    assert!(other.has_valid_checksum());

    assert_eq!(CartridgeHeader::new_empty().compute_header_checksum(), 0xE7);
}

#[test]
fn logo_is_checked_byte_by_byte() {
    let h = header(b"TETRIS");
    assert!(h.has_valid_logo());
    for i in [0x0104usize, 0x0110, 0x0133] {
        let mut broken = h;
        broken.bytes[i] ^= 0x01;
        assert!(!broken.has_valid_logo());
    }
    let mut other = h;
    other.bytes[0x0103] ^= 0xFF;
    other.bytes[0x0134] ^= 0xFF;
    assert!(other.has_valid_logo());
    assert!(!CartridgeHeader::new_empty().has_valid_logo());
    assert_eq!(nintendo_logo()[0], 0xCE);
    assert_eq!(nintendo_logo()[47], 0x3E);
}

#[test]
fn header_read_covers_the_first_336_bytes() {
    let h = header(b"TETRIS");
    assert_eq!(h.read(0x0101), 0xC3);
    assert_eq!(h.read(0x0134), b'T');
    assert_eq!(h.read(0x014D), 0x0C);
    assert_eq!(h.read(0x014F), 0x00);
    assert_eq!(h.read(0x0150), 0xFF);
    assert_eq!(h.read(0xFFFF), 0xFF);
    h.write(0x0134, 0x00);
    assert_eq!(h.read(0x0134), b'T');
    assert_eq!(h.get_cartridge_type(), 0x00);
}

#[test]
fn an_image_without_a_header_is_too_small() {
    assert_eq!(Cartridge::new(Vec::new()).err(), Some(CartridgeError::TooSmall));
    assert_eq!(Cartridge::new(vec![0u8; 0x014F]).err(), Some(CartridgeError::TooSmall));
    assert!(CartridgeHeader::from_rom(&vec![0u8; 0x014F]).is_none());
    assert!(Cartridge::new(vec![0u8; 0x0150]).is_ok());
    assert!(CartridgeHeader::from_rom(&vec![0u8; 0x0150]).is_some());
}

#[test]
fn a_cartridge_with_a_mapper_is_refused() {
    for t in [0x01u8, 0x02, 0x03, 0x05, 0x06, 0x0F, 0x13, 0x19, 0x1B, 0xFF] {
        let mut rom = image(b"MBC");
        rom[0x0147] = t;
        assert_eq!(Cartridge::new(rom).err(), Some(CartridgeError::UnsupportedMapper(t)));
    }
    for t in [0x00u8, 0x08, 0x09] {
        let mut rom = image(b"FLAT");
        rom[0x0147] = t;
        assert!(Cartridge::new(rom).is_ok());
    }
}

#[test]
fn unknown_size_codes_are_refused() {
    let mut rom = image(b"X");
    rom[0x0148] = 0x09;
    assert_eq!(Cartridge::new(rom).err(), Some(CartridgeError::UnknownRomSize(0x09)));
    let mut rom = image(b"X");
    rom[0x0149] = 0x06;
    assert_eq!(Cartridge::new(rom).err(), Some(CartridgeError::UnknownRamSize(0x06)));
    // The mapper is looked at first, then the ROM size, then the RAM size.
    let mut rom = image(b"X");
    rom[0x0147] = 0x01;
    rom[0x0148] = 0x09;
    rom[0x0149] = 0x06;
    assert_eq!(Cartridge::new(rom).err(), Some(CartridgeError::UnsupportedMapper(0x01)));
    let mut rom = image(b"X");
    rom[0x0148] = 0x09;
    rom[0x0149] = 0x06;
    assert_eq!(Cartridge::new(rom).err(), Some(CartridgeError::UnknownRomSize(0x09)));
}

#[test]
fn a_cartridge_keeps_its_image_and_serves_it() {
    let mut rom = image(b"TETRIS");
    rom[0x0149] = 0x03;
    rom[0x7FFF] = 0x5A;
    let mut cartridge = Cartridge::new(rom.clone()).unwrap();
    assert_eq!(cartridge.rom, rom);
    // 32 KiB asked for, 8 KiB served.
    assert_eq!(cartridge.ram_size, 0x2000);
    assert_eq!(cartridge.ram, [0u8; 8192]);
    assert_eq!(cartridge.read_rom(0x0134), b'T');
    assert_eq!(cartridge.read_rom(0x7FFF), 0x5A);
    assert_eq!(cartridge.read_rom(0x8000), 0xFF);
    cartridge.write_rom(0x0134, 0x00);
    assert_eq!(cartridge.read_rom(0x0134), b'T');
    cartridge.write_ram(0x0000, 0x11);
    cartridge.write_ram(0x1FFF, 0x22);
    cartridge.write_ram(0x2000, 0x33);
    assert_eq!(cartridge.read_ram(0x0000), 0x11);
    assert_eq!(cartridge.read_ram(0x1FFF), 0x22);
    assert_eq!(cartridge.read_ram(0x2000), 0xFF);
    assert_eq!(cartridge.header().unwrap().get_title().unwrap(), "TETRIS");
    assert!(Cartridge::new_empty().header().is_none());
    assert_eq!(Cartridge::new_empty().read_rom(0), 0xFF);
}
