//! The cartridge: its header and the flat mapper (no banking) through which
//! the bus reaches ROM and external RAM.
//!
//! [pandocs](https://gbdev.io/pandocs/The_Cartridge_Header.html).

use vstd::prelude::*;
use vstd::utf8::{decode_utf8, valid_utf8};

verus! {

/// Offsets into the first 336 bytes of a ROM image.
pub const ENTRY_POINT: usize = 0x0100;

pub const NINTENDO_LOGO: usize = 0x0104;

pub const TITLE: usize = 0x0134;

pub const LICENSEE_CODE: usize = 0x0144;

pub const SGB_FLAG: usize = 0x0146;

pub const CARTRIDGE_TYPE: usize = 0x0147;

pub const ROM_SIZE: usize = 0x0148;

pub const RAM_SIZE: usize = 0x0149;

pub const DESTINATION_CODE: usize = 0x014A;

pub const OLD_LICENSEE_CODE: usize = 0x014B;

pub const VERSION_NUMBER: usize = 0x014C;

pub const HEADER_CHECKSUM: usize = 0x014D;

pub const GLOBAL_CHECKSUM: usize = 0x014E;

/// The length of the restart vectors and the header together.
pub const HEADER_END: usize = 0x0150;

/// The largest external RAM that the flat mapper serves.
pub const EXTERNAL_RAM_SIZE: usize = 0x2000;

/// Why a ROM image was refused.
#[derive(Debug, Clone, Copy, PartialEq, Eq, Structural)]
pub enum CartridgeError {
    /// The image is too small to contain a header.
    TooSmall,
    /// The cartridge type asks for a memory-bank controller.
    UnsupportedMapper(u8),
    /// The ROM size code is not in the table.
    UnknownRomSize(u8),
    /// The RAM size code is not in the table.
    UnknownRamSize(u8),
}

#[verifier::external_type_specification]
#[verifier::external_body]
pub struct ExFromUtf8Error(std::string::FromUtf8Error);

/// `String::from_utf8` of std: the bytes become a string exactly when they
/// are valid UTF-8, and the string then holds the characters they encode.
#[verifier::external_body]
fn string_from_utf8(bytes: Vec<u8>) -> (r: Result<String, std::string::FromUtf8Error>)
    ensures
        r is Ok <==> valid_utf8(bytes@),
        r matches Ok(s) ==> s@ == decode_utf8(bytes@),
{
    String::from_utf8(bytes)
}

/// The running form of the header checksum: each byte of `bytes` and one
/// more, taken away from `acc`, in a byte.
pub open spec fn checksum_of(bytes: Seq<u8>, acc: int) -> int
    decreases bytes.len(),
{
    if bytes.len() == 0 {
        acc % 256
    } else {
        checksum_of(bytes.drop_first(), acc - bytes[0] - 1)
    }
}

/// The header checksum of the bytes `bytes`: their sum and their number,
/// negated, in a byte. Over the twenty-five bytes `0134..=014C` that is
/// the negated sum less 25.
pub open spec fn header_checksum(bytes: Seq<u8>) -> int {
    (0 - sum_of(bytes) - bytes.len()) % 256
}

/// The logo that every header carries at `0104..=0133`.
pub open spec fn logo() -> Seq<u8> {
    seq![
        0xCEu8, 0xED, 0x66, 0x66, 0xCC, 0x0D, 0x00, 0x0B, 0x03, 0x73, 0x00, 0x83, 0x00, 0x0C, 0x00, 0x0D,
        0x00, 0x08, 0x11, 0x1F, 0x88, 0x89, 0x00, 0x0E, 0xDC, 0xCC, 0x6E, 0xE6, 0xDD, 0xDD, 0xD9, 0x99,
        0xBB, 0xBB, 0x67, 0x63, 0x6E, 0x0E, 0xEC, 0xCC, 0xDD, 0xDC, 0x99, 0x9F, 0xBB, 0xB9, 0x33, 0x3E,
    ]
}

/// Builds the logo.
pub fn nintendo_logo() -> (image: [u8; 48])
    ensures
        image@ == logo(),
{
    let image: [u8; 48] = [
        0xCE, 0xED, 0x66, 0x66, 0xCC, 0x0D, 0x00, 0x0B, 0x03, 0x73, 0x00, 0x83, 0x00, 0x0C, 0x00, 0x0D,
        0x00, 0x08, 0x11, 0x1F, 0x88, 0x89, 0x00, 0x0E, 0xDC, 0xCC, 0x6E, 0xE6, 0xDD, 0xDD, 0xD9, 0x99,
        0xBB, 0xBB, 0x67, 0x63, 0x6E, 0x0E, 0xEC, 0xCC, 0xDD, 0xDC, 0x99, 0x9F, 0xBB, 0xB9, 0x33, 0x3E,
    ];
    assert(image@ =~= logo());
    image
}

/// The bytes of `bytes` that are not zero, in order.
pub open spec fn without_nul(bytes: Seq<u8>) -> Seq<u8> {
    bytes.filter(|b: u8| b != 0)
}

/// The ROM size in bytes for a size code: 32 KiB doubled `code` times.
pub open spec fn rom_size_of(code: u8) -> Option<usize> {
    if code == 0x00 {
        Some(0x8000usize)
    } else if code == 0x01 {
        Some(0x1_0000usize)
    } else if code == 0x02 {
        Some(0x2_0000usize)
    } else if code == 0x03 {
        Some(0x4_0000usize)
    } else if code == 0x04 {
        Some(0x8_0000usize)
    } else if code == 0x05 {
        Some(0x10_0000usize)
    } else if code == 0x06 {
        Some(0x20_0000usize)
    } else if code == 0x07 {
        Some(0x40_0000usize)
    } else if code == 0x08 {
        Some(0x80_0000usize)
    } else {
        None
    }
}

/// The external RAM size in bytes for a size code.
pub open spec fn ram_size_of(code: u8) -> Option<usize> {
    if code == 0x00 {
        Some(0usize)
    } else if code == 0x01 {
        Some(0x800usize)
    } else if code == 0x02 {
        Some(0x2000usize)
    } else if code == 0x03 {
        Some(0x8000usize)
    } else if code == 0x04 {
        Some(0x2_0000usize)
    } else if code == 0x05 {
        Some(0x1_0000usize)
    } else {
        None
    }
}

/// Whether the cartridge type needs no memory-bank controller: ROM only,
/// ROM with RAM, ROM with RAM and battery.
pub open spec fn is_flat_type(cartridge_type: u8) -> bool {
    cartridge_type == 0x00 || cartridge_type == 0x08 || cartridge_type == 0x09
}

/// The first 336 bytes of a ROM image: the restart vectors and the header.
#[derive(Debug, Clone, Copy)]
pub struct CartridgeHeader {
    pub bytes: [u8; 336],
}

impl CartridgeHeader {
    /// The sixteen title bytes.
    pub open spec fn title_bytes(self) -> Seq<u8> {
        self.bytes@.subrange(TITLE as int, LICENSEE_CODE as int)
    }

    /// The forty-eight logo bytes.
    pub open spec fn logo_bytes(self) -> Seq<u8> {
        self.bytes@.subrange(NINTENDO_LOGO as int, TITLE as int)
    }

    /// The bytes that the header checksum covers: `0134..=014C`.
    pub open spec fn checked_bytes(self) -> Seq<u8> {
        self.bytes@.subrange(TITLE as int, HEADER_CHECKSUM as int)
    }

    /// A header of zeros.
    pub fn new_empty() -> (header: Self)
        ensures
            forall|i: int| 0 <= i < 336 ==> header.bytes[i] == 0,
    {
        Self { bytes: [0u8; 336] }
    }

    /// The header of the image `rom`, or `None` when the image is too small
    /// to hold one.
    pub fn from_rom(rom: &Vec<u8>) -> (header: Option<Self>)
        ensures
            header is Some <==> rom.len() >= HEADER_END,
            header matches Some(h) ==> h.bytes@ == rom@.subrange(0, HEADER_END as int),
    {
        if rom.len() < HEADER_END {
            return None;
        }
        let mut bytes = [0u8; 336];
        let mut i: usize = 0;
        while i < HEADER_END
            invariant
                i <= HEADER_END,
                rom.len() >= HEADER_END,
                forall|j: int| 0 <= j < i ==> bytes[j] == rom[j],
            decreases HEADER_END - i,
        {
            bytes[i] = rom[i];
            i += 1;
        }
        assert(bytes@ =~= rom@.subrange(0, HEADER_END as int));
        Some(Self { bytes })
    }

    /// The header byte at ROM address `address`; `FF` past the header.
    pub fn read(&self, address: u16) -> (value: u8)
        ensures
            value == (if address < HEADER_END {
                self.bytes[address as int]
            } else {
                0xFFu8
            }),
    {
        if (address as usize) < HEADER_END {
            self.bytes[address as usize]
        } else {
            0xFF
        }
    }

    /// The header is ROM: a write leaves it as it is.
    #[allow(unused_variables)]
    pub fn write(&self, address: u16, value: u8) {
    }

    /// Returns the game's title: the title bytes without the padding.
    pub fn get_title(&self) -> (title: Result<String, std::string::FromUtf8Error>)
        ensures
            title is Ok <==> valid_utf8(without_nul(self.title_bytes())),
            title matches Ok(s) ==> s@ == decode_utf8(without_nul(self.title_bytes())),
    {
        let mut array: Vec<u8> = Vec::new();
        let mut i: usize = TITLE;
        while i < LICENSEE_CODE
            invariant
                TITLE <= i <= LICENSEE_CODE,
                array@ == without_nul(self.bytes@.subrange(TITLE as int, i as int)),
            decreases LICENSEE_CODE - i,
        {
            let c = self.bytes[i];
            proof {
                let before = self.bytes@.subrange(TITLE as int, i as int);
                let after = self.bytes@.subrange(TITLE as int, i + 1);
                assert(after =~= before.push(c));
                assert(after.drop_last() =~= before);
                reveal(Seq::filter);
            }
            if c != 0x00 {
                array.push(c);
            }
            i += 1;
        }
        string_from_utf8(array)
    }

    /// Returns the cartridge's ROM size in bytes, or `None` for a size code
    /// that the table does not hold.
    pub fn get_rom_size(&self) -> (size: Option<usize>)
        ensures
            size == rom_size_of(self.bytes[ROM_SIZE as int]),
    {
        let code = self.bytes[ROM_SIZE];
        if code == 0x00 {
            Some(0x8000)
        } else if code == 0x01 {
            Some(0x1_0000)
        } else if code == 0x02 {
            Some(0x2_0000)
        } else if code == 0x03 {
            Some(0x4_0000)
        } else if code == 0x04 {
            Some(0x8_0000)
        } else if code == 0x05 {
            Some(0x10_0000)
        } else if code == 0x06 {
            Some(0x20_0000)
        } else if code == 0x07 {
            Some(0x40_0000)
        } else if code == 0x08 {
            Some(0x80_0000)
        } else {
            None
        }
    }

    /// Returns the cartridge's RAM size in bytes, or `None` for a size code
    /// that the table does not hold.
    pub fn get_ram_size(&self) -> (size: Option<usize>)
        ensures
            size == ram_size_of(self.bytes[RAM_SIZE as int]),
    {
        let code = self.bytes[RAM_SIZE];
        if code == 0x00 {
            Some(0)
        } else if code == 0x01 {
            Some(0x800)
        } else if code == 0x02 {
            Some(0x2000)
        } else if code == 0x03 {
            Some(0x8000)
        } else if code == 0x04 {
            Some(0x2_0000)
        } else if code == 0x05 {
            Some(0x1_0000)
        } else {
            None
        }
    }

    /// Whether the header carries the logo. A cartridge runs either way.
    pub fn has_valid_logo(&self) -> (valid: bool)
        ensures
            valid == (self.logo_bytes() == logo()),
    {
        let expected = nintendo_logo();
        let mut i: usize = 0;
        while i < 48
            invariant
                i <= 48,
                expected@ == logo(),
                forall|j: int| 0 <= j < i ==> self.bytes[NINTENDO_LOGO + j] == expected[j],
            decreases 48 - i,
        {
            if self.bytes[NINTENDO_LOGO + i] != expected[i] {
                assert(self.logo_bytes()[i as int] != logo()[i as int]);
                return false;
            }
            i += 1;
        }
        assert(self.logo_bytes() =~= logo());
        true
    }

    /// The cartridge type byte.
    pub fn get_cartridge_type(&self) -> (cartridge_type: u8)
        ensures
            cartridge_type == self.bytes[CARTRIDGE_TYPE as int],
    {
        self.bytes[CARTRIDGE_TYPE]
    }

    /// The four bytes of code at the entry point `0100`.
    pub fn get_entry_point(&self) -> (code: [u8; 4])
        ensures
            code@ == self.bytes@.subrange(ENTRY_POINT as int, NINTENDO_LOGO as int),
    {
        let code = [
            self.bytes[ENTRY_POINT],
            self.bytes[ENTRY_POINT + 1],
            self.bytes[ENTRY_POINT + 2],
            self.bytes[ENTRY_POINT + 3],
        ];
        assert(code@ =~= self.bytes@.subrange(ENTRY_POINT as int, NINTENDO_LOGO as int));
        code
    }

    /// The two bytes of the licensee code.
    pub fn get_licensee_code(&self) -> (code: [u8; 2])
        ensures
            code@ == self.bytes@.subrange(LICENSEE_CODE as int, SGB_FLAG as int),
    {
        let code = [self.bytes[LICENSEE_CODE], self.bytes[LICENSEE_CODE + 1]];
        assert(code@ =~= self.bytes@.subrange(LICENSEE_CODE as int, SGB_FLAG as int));
        code
    }

    /// The SGB flag byte.
    pub fn get_sgb_flag(&self) -> (flag: u8)
        ensures
            flag == self.bytes[SGB_FLAG as int],
    {
        self.bytes[SGB_FLAG]
    }

    /// The destination code byte.
    pub fn get_destination_code(&self) -> (code: u8)
        ensures
            code == self.bytes[DESTINATION_CODE as int],
    {
        self.bytes[DESTINATION_CODE]
    }

    /// The old licensee code byte.
    pub fn get_old_licensee_code(&self) -> (code: u8)
        ensures
            code == self.bytes[OLD_LICENSEE_CODE as int],
    {
        self.bytes[OLD_LICENSEE_CODE]
    }

    /// The version number byte.
    pub fn get_version_number(&self) -> (version: u8)
        ensures
            version == self.bytes[VERSION_NUMBER as int],
    {
        self.bytes[VERSION_NUMBER]
    }

    /// The stored header checksum.
    pub fn get_header_checksum(&self) -> (sum: u8)
        ensures
            sum == self.bytes[HEADER_CHECKSUM as int],
    {
        self.bytes[HEADER_CHECKSUM]
    }

    /// The stored global checksum, high byte first.
    pub fn get_global_checksum(&self) -> (sum: u16)
        ensures
            sum == self.bytes[GLOBAL_CHECKSUM as int] * 256 + self.bytes[GLOBAL_CHECKSUM + 1],
    {
        (self.bytes[GLOBAL_CHECKSUM] as u16) * 256 + (self.bytes[GLOBAL_CHECKSUM + 1] as u16)
    }

    /// The checksum that the bytes `0134..=014C` call for.
    pub fn compute_header_checksum(&self) -> (sum: u8)
        ensures
            sum == header_checksum(self.checked_bytes()),
            sum == (0 - sum_of(self.checked_bytes()) - 25) % 256,
    {
        proof {
            lemma_checksum_sum(self.checked_bytes(), 0);
        }
        let mut sum: u8 = 0;
        let mut i: usize = TITLE;
        while i < HEADER_CHECKSUM
            invariant
                TITLE <= i <= HEADER_CHECKSUM,
                checksum_of(self.checked_bytes(), 0) == checksum_of(
                    self.bytes@.subrange(i as int, HEADER_CHECKSUM as int),
                    sum as int,
                ),
            decreases HEADER_CHECKSUM - i,
        {
            proof {
                let rest = self.bytes@.subrange(i as int, HEADER_CHECKSUM as int);
                assert(rest.drop_first() =~= self.bytes@.subrange(i + 1, HEADER_CHECKSUM as int));
                lemma_checksum_mod(rest.drop_first(), sum - rest[0] - 1);
            }
            sum = sum.wrapping_sub(self.bytes[i]).wrapping_sub(1);
            i += 1;
        }
        sum
    }

    /// Whether the stored header checksum is the one that the header bytes
    /// call for. A cartridge runs either way.
    pub fn has_valid_checksum(&self) -> (valid: bool)
        ensures
            valid == (self.bytes[HEADER_CHECKSUM as int] == header_checksum(self.checked_bytes())),
    {
        self.compute_header_checksum() == self.bytes[HEADER_CHECKSUM]
    }
}

/// The checksum depends on the running sum only through its byte.
pub proof fn lemma_checksum_mod(bytes: Seq<u8>, acc: int)
    ensures
        checksum_of(bytes, acc) == checksum_of(bytes, acc % 256),
    decreases bytes.len(),
{
    if bytes.len() > 0 {
        lemma_checksum_mod(bytes.drop_first(), acc - bytes[0] - 1);
        lemma_checksum_mod(bytes.drop_first(), acc % 256 - bytes[0] - 1);
        assert((acc - bytes[0] - 1) % 256 == (acc % 256 - bytes[0] - 1) % 256);
    }
}

/// The running form of the checksum takes the sum of the bytes and their
/// number away from where it started.
pub proof fn lemma_checksum_sum(bytes: Seq<u8>, acc: int)
    ensures
        checksum_of(bytes, acc) == (acc - sum_of(bytes) - bytes.len()) % 256,
    decreases bytes.len(),
{
    if bytes.len() > 0 {
        lemma_checksum_sum(bytes.drop_first(), acc - bytes[0] - 1);
    }
}

/// The sum of the bytes of `bytes`.
pub open spec fn sum_of(bytes: Seq<u8>) -> int
    decreases bytes.len(),
{
    if bytes.len() == 0 {
        0
    } else {
        bytes[0] + sum_of(bytes.drop_first())
    }
}

/// A cartridge without a memory-bank controller: up to 32 KiB of ROM and
/// up to 8 KiB of external RAM.
#[derive(Debug)]
pub struct Cartridge {
    pub rom: Vec<u8>,
    pub ram: [u8; 8192],
    /// The number of bytes of `ram` that the cartridge has.
    pub ram_size: usize,
}

impl Cartridge {
    /// What a read of ROM address `address` returns: the byte of the image,
    /// `FF` past its end.
    pub open spec fn rom_byte(self, address: u16) -> u8 {
        if address < self.rom@.len() {
            self.rom@[address as int]
        } else {
            0xFF
        }
    }

    /// What a read of external RAM at `A000 + offset` returns: the byte
    /// stored there, `FF` where the cartridge has no RAM.
    pub open spec fn ram_byte(self, offset: u16) -> u8 {
        if offset < self.ram_size && offset < EXTERNAL_RAM_SIZE {
            self.ram[offset as int]
        } else {
            0xFF
        }
    }

    /// The cartridge after a write of `value` to external RAM at
    /// `A000 + offset`.
    pub open spec fn with_ram_byte(self, offset: u16, value: u8) -> Cartridge {
        if offset < self.ram_size && offset < EXTERNAL_RAM_SIZE {
            Cartridge {
                ram: vstd::array::spec_array_update(self.ram, offset as int, value),
                ..self
            }
        } else {
            self
        }
    }

    /// What `new` makes of the image `rom`.
    pub open spec fn check(rom: Seq<u8>) -> Result<usize, CartridgeError> {
        if rom.len() < HEADER_END {
            Err(CartridgeError::TooSmall)
        } else if !is_flat_type(rom[CARTRIDGE_TYPE as int]) {
            Err(CartridgeError::UnsupportedMapper(rom[CARTRIDGE_TYPE as int]))
        } else if rom_size_of(rom[ROM_SIZE as int]) is None {
            Err(CartridgeError::UnknownRomSize(rom[ROM_SIZE as int]))
        } else if ram_size_of(rom[RAM_SIZE as int]) is None {
            Err(CartridgeError::UnknownRamSize(rom[RAM_SIZE as int]))
        } else if ram_size_of(rom[RAM_SIZE as int]).unwrap() > EXTERNAL_RAM_SIZE {
            Ok(EXTERNAL_RAM_SIZE)
        } else {
            Ok(ram_size_of(rom[RAM_SIZE as int]).unwrap())
        }
    }

    /// A cartridge slot with nothing in it: every ROM and RAM read is `FF`.
    pub fn new_empty() -> (cartridge: Self)
        ensures
            cartridge.rom@.len() == 0,
            cartridge.ram_size == 0,
            forall|i: int| 0 <= i < 8192 ==> cartridge.ram[i] == 0,
    {
        Self { rom: Vec::new(), ram: [0u8; 8192], ram_size: 0 }
    }

    /// The cartridge of the ROM image `rom`, its external RAM zeroed.
    ///
    /// An image is refused when it is too small to hold a header, when its
    /// type asks for a memory-bank controller, or when a size code is
    /// unknown, in that order.
    pub fn new(rom: Vec<u8>) -> (cartridge: Result<Self, CartridgeError>)
        ensures
            match Self::check(rom@) {
                Ok(ram_size) => cartridge matches Ok(c) && c.rom@ == rom@ && c.ram_size == ram_size
                    && forall|i: int| 0 <= i < 8192 ==> c.ram[i] == 0,
                Err(e) => cartridge == Err::<Self, CartridgeError>(e),
            },
    {
        let header = match CartridgeHeader::from_rom(&rom) {
            Some(header) => header,
            None => {
                return Err(CartridgeError::TooSmall);
            },
        };
        let cartridge_type = header.get_cartridge_type();
        if !(cartridge_type == 0x00 || cartridge_type == 0x08 || cartridge_type == 0x09) {
            return Err(CartridgeError::UnsupportedMapper(cartridge_type));
        }
        if header.get_rom_size().is_none() {
            return Err(CartridgeError::UnknownRomSize(header.bytes[ROM_SIZE]));
        }
        let ram_size = match header.get_ram_size() {
            Some(size) => if size > EXTERNAL_RAM_SIZE {
                EXTERNAL_RAM_SIZE
            } else {
                size
            },
            None => {
                return Err(CartridgeError::UnknownRamSize(header.bytes[RAM_SIZE]));
            },
        };
        Ok(Self { rom, ram: [0u8; 8192], ram_size })
    }

    /// The header of the cartridge, or `None` when the image holds none.
    pub fn header(&self) -> (header: Option<CartridgeHeader>)
        ensures
            header is Some <==> self.rom@.len() >= HEADER_END,
            header matches Some(h) ==> h.bytes@ == self.rom@.subrange(0, HEADER_END as int),
    {
        CartridgeHeader::from_rom(&self.rom)
    }

    /// Reads ROM at `address`.
    pub fn read_rom(&self, address: u16) -> (value: u8)
        ensures
            value == self.rom_byte(address),
    {
        if (address as usize) < self.rom.len() {
            self.rom[address as usize]
        } else {
            0xFF
        }
    }

    /// A write to ROM: without a memory-bank controller it is dropped.
    #[allow(unused_variables)]
    pub fn write_rom(&mut self, address: u16, value: u8)
        ensures
            *final(self) == *old(self),
    {
    }

    /// Reads external RAM at `A000 + offset`.
    pub fn read_ram(&self, offset: u16) -> (value: u8)
        ensures
            value == self.ram_byte(offset),
    {
        if (offset as usize) < self.ram_size && (offset as usize) < EXTERNAL_RAM_SIZE {
            self.ram[offset as usize]
        } else {
            0xFF
        }
    }

    /// Writes external RAM at `A000 + offset`; dropped where the cartridge
    /// has no RAM.
    pub fn write_ram(&mut self, offset: u16, value: u8)
        ensures
            *final(self) == old(self).with_ram_byte(offset, value),
    {
        if (offset as usize) < self.ram_size && (offset as usize) < EXTERNAL_RAM_SIZE {
            self.ram[offset as usize] = value;
        }
    }
}

} // verus!
