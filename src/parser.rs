//! Turns bytes into cartridge headers and instructions.
//!
//! Every reader takes the input that is left and returns the input that is
//! left after it together with the value it read; on failure it reads
//! nothing.

use crate::data::{HeaderView, RomHeader, RomType, rom_type_of};
use crate::encoding::{ESCAPE, extended, extended_opcode, primary, primary_opcode};
use crate::opcodes::Opcode;
use crate::util::{ram_layout, rom_bank_count, translate_ram_size, translate_rom_size};
use vstd::prelude::*;
use vstd::slice::{slice_subrange, slice_to_vec};
use vstd::utf8::{decode_utf8, valid_utf8};

verus! {

/// Why bytes could not be read as a header field or an instruction.
#[derive(Debug, Clone, Copy, PartialEq, Eq, Structural)]
pub enum ParseError {
    /// Fewer bytes remain than the field or instruction needs.
    OutOfData,
    /// The title bytes are not valid UTF-8.
    InvalidText,
    /// The ROM-size byte has no known meaning.
    UnknownRomSize(u8),
    /// The RAM-size byte has no known meaning.
    UnknownRamSize(u8),
    /// The opcode byte has no instruction meaning.
    UndefinedOpcode(u8),
}

/// The 16 bit value of two bytes, low byte first.
pub open spec fn le_u16(lo: u8, hi: u8) -> u16 {
    (lo + 256 * hi) as u16
}

/// The outcome of a reader that succeeds with `value` after `count` bytes.
pub open spec fn read_ok<'a, T>(
    r: Result<(&'a [u8], T), ParseError>,
    input: Seq<u8>,
    count: int,
    value: T,
) -> bool {
    r matches Ok((rest, v)) && v == value && rest@ == input.skip(count)
}

/// Whether `r` is the failure `e`.
pub open spec fn fails_with<T>(r: Result<T, ParseError>, e: ParseError) -> bool {
    match r {
        Ok(_) => false,
        Err(x) => x == e,
    }
}

/// Takes the first `count` bytes.
pub fn take<'a>(input: &'a [u8], count: usize) -> (r: Result<(&'a [u8], &'a [u8]), ParseError>)
    ensures
        count <= input@.len() ==> (r matches Ok((rest, taken)) && taken@ == input@.take(
            count as int,
        ) && rest@ == input@.skip(count as int)),
        count > input@.len() ==> fails_with(r, ParseError::OutOfData),
{
    if count > input.len() {
        return Err(ParseError::OutOfData);
    }
    let taken = slice_subrange(input, 0, count);
    let rest = slice_subrange(input, count, input.len());
    Ok((rest, taken))
}

/// Reads one byte.
pub fn parse_byte<'a>(input: &'a [u8]) -> (r: Result<(&'a [u8], u8), ParseError>)
    ensures
        input@.len() >= 1 ==> read_ok(r, input@, 1, input@[0]),
        input@.len() < 1 ==> fails_with(r, ParseError::OutOfData),
{
    if input.len() < 1 {
        return Err(ParseError::OutOfData);
    }
    Ok((slice_subrange(input, 1, input.len()), input[0]))
}

/// Reads a 16 bit integer, low byte first.
pub fn parse_le_u16<'a>(input: &'a [u8]) -> (r: Result<(&'a [u8], u16), ParseError>)
    ensures
        input@.len() >= 2 ==> read_ok(r, input@, 2, le_u16(input@[0], input@[1])),
        input@.len() < 2 ==> fails_with(r, ParseError::OutOfData),
{
    if input.len() < 2 {
        return Err(ParseError::OutOfData);
    }
    let value = (input[1] as u16) * 256 + input[0] as u16;
    Ok((slice_subrange(input, 2, input.len()), value))
}

/// Reads a 16 bit integer, high byte first.
pub fn parse_be_u16<'a>(input: &'a [u8]) -> (r: Result<(&'a [u8], u16), ParseError>)
    ensures
        input@.len() >= 2 ==> read_ok(r, input@, 2, le_u16(input@[1], input@[0])),
        input@.len() < 2 ==> fails_with(r, ParseError::OutOfData),
{
    if input.len() < 2 {
        return Err(ParseError::OutOfData);
    }
    let value = (input[0] as u16) * 256 + input[1] as u16;
    Ok((slice_subrange(input, 2, input.len()), value))
}

/// The decoding of the instruction at the start of `s`: the instruction and
/// the number of bytes it takes, or why there is none.
pub open spec fn decode(s: Seq<u8>) -> Result<(Opcode, usize), ParseError> {
    if s.len() == 0 {
        Err(ParseError::OutOfData)
    } else if s[0] == ESCAPE {
        if s.len() < 2 {
            Err(ParseError::OutOfData)
        } else {
            Ok((extended(s[1]), 2usize))
        }
    } else {
        match primary(s[0], 0, 0) {
            None => Err(ParseError::UndefinedOpcode(s[0])),
            Some(form) => {
                let w = form.operand_len();
                if s.len() < 1 + w {
                    Err(ParseError::OutOfData)
                } else {
                    let n = if w == 1 {
                        s[1]
                    } else {
                        0u8
                    };
                    let nn = if w == 2 {
                        le_u16(s[1], s[2])
                    } else {
                        0u16
                    };
                    match primary(s[0], n, nn) {
                        Some(op) => Ok((op, (1 + w) as usize)),
                        None => Err(ParseError::UndefinedOpcode(s[0])),
                    }
                }
            },
        }
    }
}

/// Whether `r` is what a reader returns whose outcome on `input` is `d`.
pub open spec fn read_outcome<'a, T>(
    r: Result<(&'a [u8], T), ParseError>,
    input: Seq<u8>,
    d: Result<(T, usize), ParseError>,
) -> bool {
    match d {
        Ok((value, count)) => read_ok(r, input, count as int, value),
        Err(e) => fails_with(r, e),
    }
}

/// Decodes the byte after the escape byte. Every byte value has a meaning,
/// so this fails only on empty input.
pub fn parse_cb<'a>(input: &'a [u8]) -> (r: Result<(&'a [u8], Opcode), ParseError>)
    ensures
        input@.len() >= 1 ==> read_ok(r, input@, 1, extended(input@[0])),
        input@.len() < 1 ==> fails_with(r, ParseError::OutOfData),
{
    let (i, byte) = parse_byte(input)?;
    Ok((i, extended_opcode(byte)))
}

/// Decodes the instruction at the start of `input`, returning the input after
/// it and the instruction.
pub fn parse_instruction<'a>(input: &'a [u8]) -> (r: Result<(&'a [u8], Opcode), ParseError>)
    ensures
        read_outcome(r, input@, decode(input@)),
{
    let (i, byte) = parse_byte(input)?;
    if byte == ESCAPE {
        proof {
            if i@.len() >= 1 {
                assert(i@.skip(1) =~= input@.skip(2));
            }
        }
        return parse_cb(i);
    }
    let form = match primary_opcode(byte, 0, 0) {
        Some(form) => form,
        None => return Err(ParseError::UndefinedOpcode(byte)),
    };
    let w = form.encoded_operand_len();
    if w == 0 {
        Ok((i, form))
    } else if w == 1 {
        let (rest, n) = parse_byte(i)?;
        assert(rest@ =~= input@.skip(2));
        match primary_opcode(byte, n, 0) {
            Some(op) => Ok((rest, op)),
            None => Err(ParseError::UndefinedOpcode(byte)),
        }
    } else {
        let (rest, nn) = parse_le_u16(i)?;
        assert(rest@ =~= input@.skip(3));
        match primary_opcode(byte, 0, nn) {
            Some(op) => Ok((rest, op)),
            None => Err(ParseError::UndefinedOpcode(byte)),
        }
    }
}

/// Relies on `std::str::from_utf8`: it accepts exactly the well-formed UTF-8
/// byte sequences, and the text it returns holds the characters they encode.
#[verifier::external_body]
fn text_from_utf8(bytes: &[u8]) -> (r: Option<String>)
    ensures
        r is Some <==> valid_utf8(bytes@),
        r matches Some(text) ==> text@ == decode_utf8(bytes@),
{
    match std::str::from_utf8(bytes) {
        Ok(text) => Some(String::from(text)),
        Err(_) => None,
    }
}

/// Reads the 48 bytes of the scrolling logo.
pub fn parse_scrolling_graphic<'a>(input: &'a [u8]) -> (r: Result<(&'a [u8], Vec<u8>), ParseError>)
    ensures
        input@.len() >= 0x30 ==> (r matches Ok((rest, logo)) && logo@ == input@.take(0x30)
            && rest@ == input@.skip(0x30)),
        input@.len() < 0x30 ==> fails_with(r, ParseError::OutOfData),
{
    let (i, bytes) = take(input, 0x30)?;
    Ok((i, slice_to_vec(bytes)))
}

/// Reads the 15 bytes of the title as UTF-8 text.
pub fn parse_game_title<'a>(input: &'a [u8]) -> (r: Result<(&'a [u8], String), ParseError>)
    ensures
        input@.len() < 0xF ==> fails_with(r, ParseError::OutOfData),
        input@.len() >= 0xF && !valid_utf8(input@.take(0xF)) ==> fails_with(
            r,
            ParseError::InvalidText,
        ),
        input@.len() >= 0xF && valid_utf8(input@.take(0xF)) ==> (r matches Ok((rest, title))
            && title@ == decode_utf8(input@.take(0xF)) && rest@ == input@.skip(0xF)),
{
    let (i, bytes) = take(input, 0xF)?;
    match text_from_utf8(bytes) {
        Some(title) => Ok((i, title)),
        None => Err(ParseError::InvalidText),
    }
}

/// Reads the color-hardware flag: byte `0x80` means color support.
pub fn parse_gbc_byte<'a>(input: &'a [u8]) -> (r: Result<(&'a [u8], bool), ParseError>)
    ensures
        input@.len() >= 1 ==> read_ok(r, input@, 1, input@[0] == 0x80),
        input@.len() < 1 ==> fails_with(r, ParseError::OutOfData),
{
    let (i, byte) = parse_byte(input)?;
    Ok((i, byte == 0x80))
}

/// Reads the cartridge hardware byte.
pub fn parse_rom_type<'a>(input: &'a [u8]) -> (r: Result<(&'a [u8], RomType), ParseError>)
    ensures
        input@.len() >= 1 ==> read_ok(r, input@, 1, rom_type_of(input@[0])),
        input@.len() < 1 ==> fails_with(r, ParseError::OutOfData),
{
    let (i, byte) = parse_byte(input)?;
    Ok((i, RomType::from(byte)))
}

/// Reads the two raw bytes of the new-style licensee code.
pub fn parse_new_licensee_code<'a>(input: &'a [u8]) -> (r: Result<(&'a [u8], [u8; 2]), ParseError>)
    ensures
        input@.len() >= 2 ==> (r matches Ok((rest, code)) && code@ == input@.take(2) && rest@
            == input@.skip(2)),
        input@.len() < 2 ==> fails_with(r, ParseError::OutOfData),
{
    let (i, bytes) = take(input, 2)?;
    let code = [bytes[0], bytes[1]];
    assert(code@ =~= input@.take(2));
    Ok((i, code))
}

/// Reads the super-hardware flag: byte `0x03` means super support.
pub fn parse_sgb_byte<'a>(input: &'a [u8]) -> (r: Result<(&'a [u8], bool), ParseError>)
    ensures
        input@.len() >= 1 ==> read_ok(r, input@, 1, input@[0] == 0x03),
        input@.len() < 1 ==> fails_with(r, ParseError::OutOfData),
{
    let (i, byte) = parse_byte(input)?;
    Ok((i, byte == 0x03))
}

/// Reads the ROM-size byte as a number of ROM banks.
pub fn parse_rom_size<'a>(input: &'a [u8]) -> (r: Result<(&'a [u8], u16), ParseError>)
    ensures
        input@.len() < 1 ==> fails_with(r, ParseError::OutOfData),
        input@.len() >= 1 ==> match rom_bank_count(input@[0]) {
            Some(banks) => read_ok(r, input@, 1, banks),
            None => fails_with(r, ParseError::UnknownRomSize(input@[0])),
        },
{
    let (i, byte) = parse_byte(input)?;
    match translate_rom_size(byte) {
        Some(banks) => Ok((i, banks)),
        None => Err(ParseError::UnknownRomSize(byte)),
    }
}

/// Reads the RAM-size byte as a number of RAM banks and a bank size in bytes.
pub fn parse_ram_size<'a>(input: &'a [u8]) -> (r: Result<(&'a [u8], (u8, u16)), ParseError>)
    ensures
        input@.len() < 1 ==> fails_with(r, ParseError::OutOfData),
        input@.len() >= 1 ==> match ram_layout(input@[0]) {
            Some(layout) => read_ok(r, input@, 1, layout),
            None => fails_with(r, ParseError::UnknownRamSize(input@[0])),
        },
{
    let (i, byte) = parse_byte(input)?;
    match translate_ram_size(byte) {
        Some(layout) => Ok((i, layout)),
        None => Err(ParseError::UnknownRamSize(byte)),
    }
}

/// Reads the region byte: `0x00` marks a Japanese cartridge.
pub fn parse_jp_byte<'a>(input: &'a [u8]) -> (r: Result<(&'a [u8], bool), ParseError>)
    ensures
        input@.len() >= 1 ==> read_ok(r, input@, 1, input@[0] == 0),
        input@.len() < 1 ==> fails_with(r, ParseError::OutOfData),
{
    let (i, byte) = parse_byte(input)?;
    Ok((i, byte == 0))
}

/// The header that a ROM image holds, read at fixed offsets after the
/// skipped entry point and code execution point (`0x000`-`0x103`), or the
/// first field that cannot be read:
///
/// | offset | length | field |
/// |---|---|---|
/// | `0x104` | 48 | scrolling logo |
/// | `0x134` | 15 | title |
/// | `0x143` | 1 | color-hardware flag |
/// | `0x144` | 2 | new licensee code |
/// | `0x146` | 1 | super-hardware flag |
/// | `0x147` | 1 | cartridge hardware |
/// | `0x148` | 1 | ROM size |
/// | `0x149` | 1 | RAM size |
/// | `0x14A` | 1 | region |
/// | `0x14B` | 1 | old licensee code |
/// | `0x14C` | 1 | mask ROM version |
/// | `0x14D` | 1 | complement |
/// | `0x14E` | 2 | checksum, high byte first |
pub open spec fn header(rom: Seq<u8>) -> Result<HeaderView, ParseError> {
    if rom.len() < 0x143 {
        Err(ParseError::OutOfData)
    } else if !valid_utf8(rom.subrange(0x134, 0x143)) {
        Err(ParseError::InvalidText)
    } else if rom.len() < 0x149 {
        Err(ParseError::OutOfData)
    } else if rom_bank_count(rom[0x148]) is None {
        Err(ParseError::UnknownRomSize(rom[0x148]))
    } else if rom.len() < 0x14A {
        Err(ParseError::OutOfData)
    } else if ram_layout(rom[0x149]) is None {
        Err(ParseError::UnknownRamSize(rom[0x149]))
    } else if rom.len() < 0x150 {
        Err(ParseError::OutOfData)
    } else {
        let (ram_banks, ram_bank_size) = ram_layout(rom[0x149])->0;
        Ok(
            HeaderView {
                scrolling_graphic: rom.subrange(0x104, 0x134),
                game_title: decode_utf8(rom.subrange(0x134, 0x143)),
                gameboy_color: rom[0x143] == 0x80,
                licensee_code_new: rom.subrange(0x144, 0x146),
                super_gameboy: rom[0x146] == 0x03,
                rom_type: rom_type_of(rom[0x147]),
                rom_size: rom_bank_count(rom[0x148])->0,
                ram_banks,
                ram_bank_size,
                japanese: rom[0x14A] == 0,
                licensee_code: rom[0x14B],
                mask_rom_version: rom[0x14C],
                complement: rom[0x14D],
                checksum: le_u16(rom[0x14F], rom[0x14E]),
            },
        )
    }
}

/// Whether `r` is the outcome of parsing the header of `rom`.
pub open spec fn header_outcome(r: Result<(&[u8], RomHeader), ParseError>, rom: Seq<u8>) -> bool {
    match header(rom) {
        Ok(h) => r matches Ok((rest, parsed)) && parsed@ == h && rest@ == rom.skip(0x150),
        Err(e) => fails_with(r, e),
    }
}

/// Parses the cartridge header of a whole ROM image. Fails with the first
/// field that cannot be read; nothing is read past it.
pub fn parse_rom_header<'a>(input: &'a [u8]) -> (r: Result<(&'a [u8], RomHeader), ParseError>)
    ensures
        header_outcome(r, input@),
{
    let ghost rom = input@;
    // The entry point and the code execution point are skipped.
    let (i, _) = take(input, 0x104)?;
    proof {
        if rom.len() >= 0x143 {
            assert(i@.take(0x30) =~= rom.subrange(0x104, 0x134));
            assert(i@.skip(0x30).take(0xF) =~= rom.subrange(0x134, 0x143));
        }
    }
    let (i, scrolling_graphic) = parse_scrolling_graphic(i)?;
    assert(i@ =~= rom.skip(0x134));
    let (i, game_title) = parse_game_title(i)?;
    assert(i@ =~= rom.skip(0x143));
    let (i, gameboy_color) = parse_gbc_byte(i)?;
    assert(i@ =~= rom.skip(0x144));
    proof {
        if rom.len() >= 0x146 {
            assert(i@.take(2) =~= rom.subrange(0x144, 0x146));
        }
    }
    let (i, licensee_code_new) = parse_new_licensee_code(i)?;
    assert(i@ =~= rom.skip(0x146));
    let (i, super_gameboy) = parse_sgb_byte(i)?;
    let (i, rom_type) = parse_rom_type(i)?;
    assert(i@ =~= rom.skip(0x148));
    let (i, rom_size) = parse_rom_size(i)?;
    let (i, (ram_banks, ram_bank_size)) = parse_ram_size(i)?;
    assert(i@ =~= rom.skip(0x14A));
    let (i, japanese) = parse_jp_byte(i)?;
    let (i, licensee_code) = parse_byte(i)?;
    let (i, mask_rom_version) = parse_byte(i)?;
    let (i, complement) = parse_byte(i)?;
    assert(i@ =~= rom.skip(0x14E));
    let (i, checksum) = parse_be_u16(i)?;
    assert(i@ =~= rom.skip(0x150));
    let header = RomHeader {
        scrolling_graphic,
        game_title,
        gameboy_color,
        licensee_code_new,
        super_gameboy,
        rom_type,
        rom_size,
        ram_banks,
        ram_bank_size,
        japanese,
        licensee_code,
        mask_rom_version,
        complement,
        checksum,
    };
    Ok((i, header))
}

} // verus!
