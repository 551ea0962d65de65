//! The cartridge header as a record, and its validation.

use vstd::prelude::*;

verus! {

/// The cartridge hardware: memory-bank controller family and accessories.
#[derive(Debug, Clone, Copy, Hash, PartialEq, Eq, Structural)]
pub enum RomType {
    RomOnly,
    Mbc1,
    Mbc1Ram,
    Mbc1RamBattery,
    Mbc2,
    Mbc2Battery,
    RomRam,
    RomRamBattery,
    Mmm01,
    Mmm01Sram,
    Mmm01SramBattery,
    Mbc3TimerBattery,
    Mbc3TimerRamBattery,
    Mbc3,
    Mbc3Ram,
    Mbc3RamBattery,
    Mbc5,
    Mbc5Ram,
    Mbc5RamBattery,
    Mbc5Rumble,
    Mbc5RumbleSram,
    Mbc5RumbleSramBattery,
    PocketCamera,
    Tama5,
    Huc3,
    Huc1,
    /// A hardware byte without a known meaning.
    Other(u8),
}

/// The hardware that a cartridge-type byte names; every byte names one.
pub open spec fn rom_type_of(byte: u8) -> RomType {
    match byte {
        0x00 => RomType::RomOnly,
        0x01 => RomType::Mbc1,
        0x02 => RomType::Mbc1Ram,
        0x03 => RomType::Mbc1RamBattery,
        0x05 => RomType::Mbc2,
        0x06 => RomType::Mbc2Battery,
        0x08 => RomType::RomRam,
        0x09 => RomType::RomRamBattery,
        0x0B => RomType::Mmm01,
        0x0C => RomType::Mmm01Sram,
        0x0D => RomType::Mmm01SramBattery,
        0x0F => RomType::Mbc3TimerBattery,
        0x10 => RomType::Mbc3TimerRamBattery,
        0x11 => RomType::Mbc3,
        0x12 => RomType::Mbc3Ram,
        0x13 => RomType::Mbc3RamBattery,
        0x19 => RomType::Mbc5,
        0x1A => RomType::Mbc5Ram,
        0x1B => RomType::Mbc5RamBattery,
        0x1C => RomType::Mbc5Rumble,
        0x1D => RomType::Mbc5RumbleSram,
        0x1E => RomType::Mbc5RumbleSramBattery,
        0x1F => RomType::PocketCamera,
        0xFD => RomType::Tama5,
        0xFE => RomType::Huc3,
        0xFF => RomType::Huc1,
        _ => RomType::Other(byte),
    }
}

impl From<u8> for RomType {
    fn from(byte: u8) -> (r: RomType)
        ensures
            r == rom_type_of(byte),
    {
        match byte {
            0x00 => RomType::RomOnly,
            0x01 => RomType::Mbc1,
            0x02 => RomType::Mbc1Ram,
            0x03 => RomType::Mbc1RamBattery,
            0x05 => RomType::Mbc2,
            0x06 => RomType::Mbc2Battery,
            0x08 => RomType::RomRam,
            0x09 => RomType::RomRamBattery,
            0x0B => RomType::Mmm01,
            0x0C => RomType::Mmm01Sram,
            0x0D => RomType::Mmm01SramBattery,
            0x0F => RomType::Mbc3TimerBattery,
            0x10 => RomType::Mbc3TimerRamBattery,
            0x11 => RomType::Mbc3,
            0x12 => RomType::Mbc3Ram,
            0x13 => RomType::Mbc3RamBattery,
            0x19 => RomType::Mbc5,
            0x1A => RomType::Mbc5Ram,
            0x1B => RomType::Mbc5RamBattery,
            0x1C => RomType::Mbc5Rumble,
            0x1D => RomType::Mbc5RumbleSram,
            0x1E => RomType::Mbc5RumbleSramBattery,
            0x1F => RomType::PocketCamera,
            0xFD => RomType::Tama5,
            0xFE => RomType::Huc3,
            0xFF => RomType::Huc1,
            otherwise => RomType::Other(otherwise),
        }
    }
}

impl vstd::std_specs::convert::FromSpecImpl<u8> for RomType {
    open spec fn obeys_from_spec() -> bool {
        true
    }

    open spec fn from_spec(v: u8) -> RomType {
        rom_type_of(v)
    }
}

/// Metadata about the ROM. The byte runs and the title are copies of the
/// bytes they were read from.
#[derive(Debug, Clone, PartialEq, Eq)]
pub struct RomHeader {
    /// Logo at the start; should match the Nintendo logo.
    pub scrolling_graphic: Vec<u8>,
    /// The title text.
    pub game_title: String,
    /// Whether the cartridge supports the color hardware (flag byte `0x80`).
    pub gameboy_color: bool,
    /// Two raw bytes of the new-style licensee code.
    pub licensee_code_new: [u8; 2],
    /// Whether the cartridge supports the super hardware (flag byte `0x03`).
    pub super_gameboy: bool,
    /// How the data after the header will be parsed.
    pub rom_type: RomType,
    /// How many 16 KiB ROM banks the cartridge has.
    pub rom_size: u16,
    /// How many RAM banks are available on the cartridge.
    pub ram_banks: u8,
    /// The size of one RAM bank in bytes (2 KiB or 8 KiB, 0 without RAM).
    pub ram_bank_size: u16,
    /// Whether the region byte is `0x00`, which marks a Japanese cartridge.
    pub japanese: bool,
    /// Old-style licensee code.
    pub licensee_code: u8,
    /// Mask ROM version number.
    pub mask_rom_version: u8,
    /// Header complement byte.
    pub complement: u8,
    /// Global checksum, read big-endian.
    pub checksum: u16,
}

/// The value of a `RomHeader`: its byte runs and title as sequences.
pub struct HeaderView {
    pub scrolling_graphic: Seq<u8>,
    pub game_title: Seq<char>,
    pub gameboy_color: bool,
    pub licensee_code_new: Seq<u8>,
    pub super_gameboy: bool,
    pub rom_type: RomType,
    pub rom_size: u16,
    pub ram_banks: u8,
    pub ram_bank_size: u16,
    pub japanese: bool,
    pub licensee_code: u8,
    pub mask_rom_version: u8,
    pub complement: u8,
    pub checksum: u16,
}

impl View for RomHeader {
    type V = HeaderView;

    open spec fn view(&self) -> HeaderView {
        HeaderView {
            scrolling_graphic: self.scrolling_graphic@,
            game_title: self.game_title@,
            gameboy_color: self.gameboy_color,
            licensee_code_new: self.licensee_code_new@,
            super_gameboy: self.super_gameboy,
            rom_type: self.rom_type,
            rom_size: self.rom_size,
            ram_banks: self.ram_banks,
            ram_bank_size: self.ram_bank_size,
            japanese: self.japanese,
            licensee_code: self.licensee_code,
            mask_rom_version: self.mask_rom_version,
            complement: self.complement,
            checksum: self.checksum,
        }
    }
}

/// Why a parsed header fails validation.
#[derive(Debug, Clone, Copy, PartialEq, Eq, Structural)]
pub enum HeaderValidationError {
    /// The super hardware requires the old licensee code to be 0x33.
    SuperGameBoyOldLicenseeCodeMismatch,
    /// Apparent mismatch on the scrolling logo.
    ScrollingLogoMismatch,
}

/// Sum of the bytes.
pub open spec fn byte_sum(s: Seq<u8>) -> nat
    decreases s.len(),
{
    if s.len() == 0 {
        0
    } else {
        (byte_sum(s.drop_last()) + s.last()) as nat
    }
}

/// Bitwise OR of the bytes (0 for none).
pub open spec fn byte_or(s: Seq<u8>) -> u8
    decreases s.len(),
{
    if s.len() == 0 {
        0
    } else {
        byte_or(s.drop_last()) | s.last()
    }
}

/// Bitwise AND of the bytes (`0xFF` for none).
pub open spec fn byte_and(s: Seq<u8>) -> u8
    decreases s.len(),
{
    if s.len() == 0 {
        0xFF
    } else {
        byte_and(s.drop_last()) & s.last()
    }
}

/// Bitwise XOR of the bytes (0 for none).
pub open spec fn byte_xor(s: Seq<u8>) -> u8
    decreases s.len(),
{
    if s.len() == 0 {
        0
    } else {
        byte_xor(s.drop_last()) ^ s.last()
    }
}

/// Sum that the logo bytes must have.
pub const LOGO_SUM: u32 = 5446;

/// Bitwise OR that the logo bytes must have.
pub const LOGO_OR: u8 = 255;

/// Bitwise AND that the logo bytes must have.
pub const LOGO_AND: u8 = 0;

/// Bitwise XOR that the logo bytes must have.
pub const LOGO_XOR: u8 = 134;

/// The cheap proxy for "the logo is the required one": fixed sum, OR, AND
/// and XOR over all its bytes.
pub open spec fn logo_matches(s: Seq<u8>) -> bool {
    &&& byte_sum(s) == LOGO_SUM
    &&& byte_or(s) == LOGO_OR
    &&& byte_and(s) == LOGO_AND
    &&& byte_xor(s) == LOGO_XOR
}

/// The outcome of validating a header: the logo rule first, then the rule
/// that the super hardware needs old licensee code `0x33`.
pub open spec fn validation(h: HeaderView) -> Result<(), HeaderValidationError> {
    if !logo_matches(h.scrolling_graphic) {
        Err(HeaderValidationError::ScrollingLogoMismatch)
    } else if h.super_gameboy && h.licensee_code != 0x33 {
        Err(HeaderValidationError::SuperGameBoyOldLicenseeCodeMismatch)
    } else {
        Ok(())
    }
}

impl RomHeader {
    /// Checks that the ROM header is internally consistent. This does not
    /// guarantee that the entire header is well formed.
    pub fn validate(&self) -> (r: Result<(), HeaderValidationError>)
        ensures
            r == validation(self@),
    {
        let s = &self.scrolling_graphic;
        // The sum saturates just above the wanted value.
        let mut sum: u32 = 0;
        let mut or: u8 = 0;
        let mut and: u8 = 0xFF;
        let mut xor: u8 = 0;
        let mut i: usize = 0;
        while i < s.len()
            invariant
                i <= s@.len(),
                sum as nat == if byte_sum(s@.take(i as int)) > LOGO_SUM {
                    (LOGO_SUM + 1) as nat
                } else {
                    byte_sum(s@.take(i as int))
                },
                or == byte_or(s@.take(i as int)),
                and == byte_and(s@.take(i as int)),
                xor == byte_xor(s@.take(i as int)),
            decreases s@.len() - i,
        {
            let b = s[i];
            assert(s@.take(i + 1).drop_last() == s@.take(i as int));
            sum = if sum + (b as u32) > LOGO_SUM {
                LOGO_SUM + 1
            } else {
                sum + b as u32
            };
            or = or | b;
            and = and & b;
            xor = xor ^ b;
            i = i + 1;
        }
        assert(s@.take(s@.len() as int) == s@);
        if sum != LOGO_SUM || or != LOGO_OR || and != LOGO_AND || xor != LOGO_XOR {
            return Err(HeaderValidationError::ScrollingLogoMismatch);
        }
        if self.super_gameboy && self.licensee_code != 0x33 {
            return Err(HeaderValidationError::SuperGameBoyOldLicenseeCodeMismatch);
        }
        Ok(())
    }
}

} // verus!
