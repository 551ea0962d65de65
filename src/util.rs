//! Translation of the size bytes of the cartridge header.

use vstd::prelude::*;

verus! {

/// Size of one 2 KiB RAM bank, in bytes.
pub const TWO_KB: u16 = 2048;

/// Size of one 8 KiB RAM bank, in bytes.
pub const EIGHT_KB: u16 = 8192;

/// Number of 16 KiB ROM banks that a ROM-size byte declares: two banks
/// doubled once per step from `0x00` to `0x08`, and three irregular sizes.
pub open spec fn rom_bank_count(code: u8) -> Option<u16> {
    if code <= 8 {
        Some((2 * pow2(code as nat)) as u16)
    } else if code == 0x52 {
        Some(72)
    } else if code == 0x53 {
        Some(80)
    } else if code == 0x54 {
        Some(96)
    } else {
        None
    }
}

/// Two to the power `n`.
pub open spec fn pow2(n: nat) -> nat
    decreases n,
{
    if n == 0 {
        1
    } else {
        2 * pow2((n - 1) as nat)
    }
}

/// Number of RAM banks and size of each bank in bytes that a RAM-size byte
/// declares, for the byte values `0x00` to `0x05`.
pub open spec fn ram_layout(code: u8) -> Option<(u8, u16)> {
    match code {
        0 => Some((0u8, 0u16)),
        1 => Some((1u8, TWO_KB)),
        2 => Some((1u8, EIGHT_KB)),
        3 => Some((4u8, EIGHT_KB)),
        4 => Some((16u8, EIGHT_KB)),
        5 => Some((8u8, EIGHT_KB)),
        _ => None,
    }
}

/// Takes in the ROM size byte and outputs the number of ROM banks.
pub fn translate_rom_size(input: u8) -> (r: Option<u16>)
    ensures
        r == rom_bank_count(input),
{
    proof {
        reveal_with_fuel(pow2, 9);
    }
    match input {
        0 => Some(2),
        1 => Some(4),
        2 => Some(8),
        3 => Some(16),
        4 => Some(32),
        5 => Some(64),
        6 => Some(128),
        7 => Some(256),
        8 => Some(512),
        0x52 => Some(72),
        0x53 => Some(80),
        0x54 => Some(96),
        _ => None,
    }
}

/// Takes in the RAM size byte and outputs the number of RAM banks and the
/// size of each RAM bank in bytes.
pub fn translate_ram_size(input: u8) -> (r: Option<(u8, u16)>)
    ensures
        r == ram_layout(input),
{
    match input {
        0 => Some((0, 0)),
        1 => Some((1, TWO_KB)),
        2 => Some((1, EIGHT_KB)),
        3 => Some((4, EIGHT_KB)),
        4 => Some((16, EIGHT_KB)),
        5 => Some((8, EIGHT_KB)),
        _ => None,
    }
}

} // verus!
