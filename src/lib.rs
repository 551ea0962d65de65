//! Decoding of Game Boy cartridge images: the fixed-layout cartridge header
//! and the stream of CPU instructions that starts at any offset.
//!
//! Basic validation of a parsed header is provided by `RomHeader::validate`.

pub mod data;
pub mod encoding;
pub mod laws;
pub mod opcodes;
pub mod parser;
pub mod util;

pub use crate::data::{HeaderValidationError, HeaderView, RomHeader, RomType};
pub use crate::opcodes::{Flag, Opcode, Register16, Register8};
pub use crate::parser::ParseError;

use crate::parser::{decode, header, parse_instruction, parse_rom_header};
use vstd::prelude::*;
use vstd::slice::slice_subrange;

verus! {

/// The value of the outcome of a header parse.
pub open spec fn header_view_of(r: Result<RomHeader, ParseError>) -> Result<HeaderView, ParseError> {
    match r {
        Ok(h) => Ok(h@),
        Err(e) => Err(e),
    }
}

/// Top level type for dealing with Game Boy ROMs.
#[derive(Debug)]
pub struct GameBoyRom<'rom> {
    rom_data: &'rom [u8],
}

impl<'rom> View for GameBoyRom<'rom> {
    type V = Seq<u8>;

    closed spec fn view(&self) -> Seq<u8> {
        self.rom_data@
    }
}

impl<'rom> GameBoyRom<'rom> {
    /// Create a new instance of the `GameBoyRom`.
    pub fn new(rom_bytes: &'rom [u8]) -> (r: Self)
        ensures
            r@ == rom_bytes@,
    {
        Self { rom_data: rom_bytes }
    }

    /// Parse the ROM header and return a high level type containing its data.
    pub fn parse_header(&self) -> (r: Result<RomHeader, ParseError>)
        ensures
            header_view_of(r) == header(self@),
    {
        match parse_rom_header(self.rom_data) {
            Ok((_, h)) => Ok(h),
            Err(e) => Err(e),
        }
    }

    /// Get a stream of the instructions starting at the given address.
    pub fn get_instructions_at(&self, address: usize) -> (r: OpcodeStreamer<'rom>)
        ensures
            r@ == (StreamState { data: self@, position: address, exhausted: false }),
    {
        OpcodeStreamer::new(self.rom_data, address)
    }
}

/// The state of an `OpcodeStreamer`: the bytes, the offset of the next
/// instruction, and whether the stream has ended.
pub struct StreamState {
    pub data: Seq<u8>,
    pub position: usize,
    pub exhausted: bool,
}

/// The decoding of the instruction at offset `position` of `data`; an offset
/// at or past the end has no data left.
pub open spec fn decode_at(data: Seq<u8>, position: int) -> Result<(Opcode, usize), ParseError> {
    if position <= data.len() {
        decode(data.skip(position))
    } else {
        Err(ParseError::OutOfData)
    }
}

/// One step of the stream: the state after it, and what it yields (`None`
/// once the stream has ended). A decoding failure ends the stream.
pub open spec fn step(s: StreamState) -> (StreamState, Option<Result<Opcode, ParseError>>) {
    if s.exhausted {
        (s, None)
    } else {
        match decode_at(s.data, s.position as int) {
            Ok((op, len)) => (
                StreamState { position: (s.position + len) as usize, ..s },
                Some(Ok(op)),
            ),
            Err(e) => (StreamState { exhausted: true, ..s }, Some(Err(e))),
        }
    }
}

/// Streaming parser over Game Boy [`Opcode`]s, from a start offset forward.
pub struct OpcodeStreamer<'rom> {
    rom_data: &'rom [u8],
    current_index: usize,
    exhausted: bool,
}

impl<'rom> View for OpcodeStreamer<'rom> {
    type V = StreamState;

    closed spec fn view(&self) -> StreamState {
        StreamState {
            data: self.rom_data@,
            position: self.current_index,
            exhausted: self.exhausted,
        }
    }
}

impl<'rom> OpcodeStreamer<'rom> {
    /// A stream over `rom_bytes` whose first instruction is at `start`.
    pub fn new(rom_bytes: &'rom [u8], start: usize) -> (r: Self)
        ensures
            r@ == (StreamState { data: rom_bytes@, position: start, exhausted: false }),
    {
        Self { rom_data: rom_bytes, current_index: start, exhausted: false }
    }

    /// Decodes the next instruction; the failure that ends the stream is
    /// yielded once, as `Some(Err(..))`, and `None` follows.
    pub fn next_checked(&mut self) -> (r: Option<Result<Opcode, ParseError>>)
        ensures
            (final(self)@, r) == step(old(self)@),
            old(self)@.position <= old(self)@.data.len()
                ==> final(self)@.position <= final(self)@.data.len(),
    {
        if self.exhausted {
            return None;
        }
        if self.current_index > self.rom_data.len() {
            self.exhausted = true;
            return Some(Err(ParseError::OutOfData));
        }
        let input = slice_subrange(self.rom_data, self.current_index, self.rom_data.len());
        match parse_instruction(input) {
            Ok((rest, op)) => {
                let consumed = input.len() - rest.len();
                self.current_index = self.current_index + consumed;
                Some(Ok(op))
            },
            Err(e) => {
                self.exhausted = true;
                Some(Err(e))
            },
        }
    }

    /// Decodes the next instruction; `None` once the data ends or an
    /// undecodable byte is met, and ever after.
    pub fn next(&mut self) -> (r: Option<Opcode>)
        ensures
            final(self)@ == step(old(self)@).0,
            old(self)@.position <= old(self)@.data.len()
                ==> final(self)@.position <= final(self)@.data.len(),
            r == match step(old(self)@).1 {
                Some(Ok(op)) => Some(op),
                _ => None::<Opcode>,
            },
    {
        match self.next_checked() {
            Some(Ok(op)) => Some(op),
            _ => None,
        }
    }

    /// Offset of the next instruction.
    pub fn position(&self) -> (r: usize)
        ensures
            r == self@.position,
    {
        self.current_index
    }
}

} // verus!
